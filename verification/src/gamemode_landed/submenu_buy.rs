//! The menu for buying goods on a planet.
use vstd::prelude::*;

use crate::buttons::Buttons;
use crate::planets::Planet;

use super::{selection_moved, StateTransition};

verus! {

/// The buying menu: the first line leads back, the others list goods.
pub struct BuyMenu {
    pub selected_option: u8,
    pub planet: Planet,
}

impl BuyMenu {
    /// The menu for `planet`, with the first line selected.
    pub fn new(planet: &Planet) -> (r: Self)
        ensures
            r.selected_option == 0,
            r.planet@ == planet@,
    {
        Self { selected_option: 0, planet: planet.clone() }
    }

    /// A menu in the same state.
    pub fn copy(&self) -> (r: Self)
        ensures
            r.selected_option == self.selected_option,
            r.planet@ == self.planet@,
    {
        Self { selected_option: self.selected_option, planet: self.planet.clone() }
    }

    /// Moves the selection down (up to line 3) or up (down to line 0) for the
    /// buttons pressed this frame. The menu asks for no change of state:
    /// button 1 has no effect here yet.
    pub fn update_movement(
        &self,
        just_pressed: &Buttons,
        pressed_this_frame: &Buttons,
        cooldown_tick: i32,
    ) -> (r: (Self, StateTransition))
        ensures
            r.0.selected_option == selection_moved(self.selected_option, *pressed_this_frame, 3),
            r.0.planet@ == self.planet@,
            r.1 is NoChange,
    {
        let mut new_instance = self.copy();
        let mut tmp_select: u8 = new_instance.selected_option;
        if pressed_this_frame.down {
            if tmp_select < 3 {
                tmp_select = tmp_select + 1;
            }
        }
        if pressed_this_frame.up {
            if tmp_select > 0 {
                tmp_select = tmp_select - 1;
            }
        }
        new_instance.selected_option = tmp_select;
        (new_instance, StateTransition::NoChange)
    }
}

} // verus!
