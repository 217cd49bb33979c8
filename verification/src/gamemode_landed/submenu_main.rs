//! The first menu shown on a planet.
use vstd::prelude::*;

use crate::buttons::Buttons;
use crate::planets::Planet;

use super::{selection_moved, StateTransition};

verus! {

/// The entries of the main menu.
#[derive(Clone, Copy, Debug, PartialEq, Eq, Structural)]
pub enum MainMenuOption {
    FlyAway,
    Buy,
    Sell,
}

/// The position of an entry in the menu, from 0.
pub open spec fn option_index(option: MainMenuOption) -> u8 {
    match option {
        MainMenuOption::FlyAway => 0,
        MainMenuOption::Buy => 1,
        MainMenuOption::Sell => 2,
    }
}

/// The entry at a position; every position past the last is the last entry.
pub open spec fn option_at(index: u8) -> MainMenuOption {
    if index == 0 {
        MainMenuOption::FlyAway
    } else if index == 1 {
        MainMenuOption::Buy
    } else {
        MainMenuOption::Sell
    }
}

/// The main menu of a landed ship.
pub struct MainMenu {
    pub selected_option: MainMenuOption,
    pub planet: Planet,
}

impl MainMenu {
    /// The menu for `planet`, with the first entry selected.
    pub fn new(planet: &Planet) -> (r: Self)
        ensures
            r.selected_option == MainMenuOption::FlyAway,
            r.planet@ == planet@,
    {
        Self { selected_option: MainMenuOption::FlyAway, planet: planet.clone() }
    }

    /// A menu in the same state.
    pub fn copy(&self) -> (r: Self)
        ensures
            r.selected_option == self.selected_option,
            r.planet@ == self.planet@,
    {
        Self { selected_option: self.selected_option, planet: self.planet.clone() }
    }

    /// Moves the selection down or up by one for the buttons pressed this
    /// frame (down first, then up). The menu asks for no change of state:
    /// button 1 has no effect here yet.
    pub fn update_movement(
        &self,
        just_pressed: &Buttons,
        pressed_this_frame: &Buttons,
        cooldown_tick: i32,
    ) -> (r: (Self, StateTransition))
        ensures
            r.0.selected_option == option_at(
                selection_moved(option_index(self.selected_option), *pressed_this_frame, 3),
            ),
            r.0.planet@ == self.planet@,
            r.1 is NoChange,
    {
        let mut new_instance = self.copy();
        let mut tmp_select: u8 = match new_instance.selected_option {
            MainMenuOption::FlyAway => 0,
            MainMenuOption::Buy => 1,
            MainMenuOption::Sell => 2,
        };
        if pressed_this_frame.down {
            if tmp_select < 3 {
                tmp_select = tmp_select + 1;
            }
        }
        if pressed_this_frame.up {
            if tmp_select > 0 {
                tmp_select = tmp_select - 1;
            }
        }
        new_instance.selected_option = match tmp_select {
            0 => MainMenuOption::FlyAway,
            1 => MainMenuOption::Buy,
            _ => MainMenuOption::Sell,
        };
        (new_instance, StateTransition::NoChange)
    }
}

} // verus!
