//! A plainer landing screen: one menu of three entries, of which only flying
//! away leads anywhere yet.
use vstd::prelude::*;

use crate::buttons::Buttons;
use crate::planets::Planet;

verus! {

/// The screens of this landing mode.
#[derive(Clone, Copy, Debug, PartialEq, Eq, Structural)]
pub enum Mode {
    MainMenu,
    BuyMenu,
    SellMenu,
    FlyAway,
}

/// The entries of the menu.
#[derive(Clone, Copy, Debug, PartialEq, Eq, Structural)]
pub enum MenuOption {
    FlyAway,
    Buy,
    Sell,
}

/// Whether the screen asks for a change.
#[derive(Clone, Copy, Debug, PartialEq, Eq, Structural)]
pub enum StateTransition {
    NoChange,
    ChangeTo(Mode),
}

/// The position of an entry, from 0.
pub open spec fn option_index(option: MenuOption) -> u8 {
    match option {
        MenuOption::FlyAway => 0,
        MenuOption::Buy => 1,
        MenuOption::Sell => 2,
    }
}

/// The entry after one frame's moves: down (while below position 3), then up
/// (while above 0); positions past the last entry give the last entry.
pub open spec fn option_moved(option: MenuOption, pressed: Buttons) -> MenuOption {
    let start = option_index(option);
    let lowered = if pressed.down && start < 3 {
        start + 1
    } else {
        start as int
    };
    let raised = if pressed.up && lowered > 0 {
        lowered - 1
    } else {
        lowered
    };
    if raised == 0 {
        MenuOption::FlyAway
    } else if raised == 1 {
        MenuOption::Buy
    } else {
        MenuOption::Sell
    }
}

/// The landing mode.
pub struct GameModeLanded {
    pub submode: Mode,
    pub selected_planet_menu_option: MenuOption,
    pub planet: Planet,
}

/// The change the menu asks for once the selection is `option`: button 1
/// (outside the cooldown) on "fly away" leaves, anything else stays.
pub open spec fn menu_transition(submode: Mode, option: MenuOption, confirm: bool) -> StateTransition {
    if submode == Mode::MainMenu && confirm && option == MenuOption::FlyAway {
        StateTransition::ChangeTo(Mode::FlyAway)
    } else {
        StateTransition::NoChange
    }
}

/// Only "fly away" leads anywhere: the menu asks to fly away exactly when it
/// is on the main menu, "fly away" is selected and button 1 is pressed
/// outside the cooldown; with "buy" or "sell" selected, or otherwise, it asks
/// for no change.
pub proof fn lemma_only_fly_away_leaves(submode: Mode, option: MenuOption, confirm: bool)
    ensures
        menu_transition(submode, option, confirm) == StateTransition::ChangeTo(Mode::FlyAway) <==> (
        submode == Mode::MainMenu && option == MenuOption::FlyAway && confirm),
        menu_transition(submode, option, confirm) != StateTransition::ChangeTo(Mode::FlyAway)
            ==> menu_transition(submode, option, confirm) == StateTransition::NoChange,
        option != MenuOption::FlyAway ==> menu_transition(submode, option, confirm) == StateTransition::NoChange,
{
}

/// Moves the selection of the main menu and reports the change asked for.
fn update_movement(
    gamemode: &mut GameModeLanded,
    just_pressed: &Buttons,
    pressed_this_frame: &Buttons,
    cooldown_tick: i32,
) -> (r: StateTransition)
    ensures
        final(gamemode).submode == old(gamemode).submode,
        final(gamemode).planet@ == old(gamemode).planet@,
        final(gamemode).selected_planet_menu_option == if old(gamemode).submode == Mode::MainMenu {
            option_moved(old(gamemode).selected_planet_menu_option, *pressed_this_frame)
        } else {
            old(gamemode).selected_planet_menu_option
        },
        r == menu_transition(
            old(gamemode).submode,
            final(gamemode).selected_planet_menu_option,
            just_pressed.one && cooldown_tick == 0,
        ),
{
    match gamemode.submode {
        Mode::MainMenu => {
            let mut tmp_select: u8 = match gamemode.selected_planet_menu_option {
                MenuOption::FlyAway => 0,
                MenuOption::Buy => 1,
                MenuOption::Sell => 2,
            };
            if pressed_this_frame.down {
                if tmp_select < 3 {
                    tmp_select = tmp_select + 1;
                }
            }
            if pressed_this_frame.up {
                if tmp_select > 0 {
                    tmp_select = tmp_select - 1;
                }
            }
            gamemode.selected_planet_menu_option = match tmp_select {
                0 => MenuOption::FlyAway,
                1 => MenuOption::Buy,
                _ => MenuOption::Sell,
            };

            if just_pressed.one && cooldown_tick == 0 {
                match gamemode.selected_planet_menu_option {
                    MenuOption::FlyAway => return StateTransition::ChangeTo(Mode::FlyAway),
                    _ => return StateTransition::NoChange,
                }
            }
        },
        Mode::BuyMenu => {},
        Mode::SellMenu => {},
        Mode::FlyAway => {},
    }
    StateTransition::NoChange
}

impl GameModeLanded {
    /// The mode for `planet`, on the main menu with "fly away" selected.
    pub fn new(planet: Planet) -> (r: Self)
        ensures
            r.submode == Mode::MainMenu,
            r.selected_planet_menu_option == MenuOption::FlyAway,
            r.planet@ == planet@,
    {
        Self { submode: Mode::MainMenu, selected_planet_menu_option: MenuOption::FlyAway, planet: planet.clone() }
    }

    /// A mode in the same state.
    pub fn copy(&self) -> (r: Self)
        ensures
            r.submode == self.submode,
            r.selected_planet_menu_option == self.selected_planet_menu_option,
            r.planet@ == self.planet@,
    {
        Self {
            submode: self.submode,
            selected_planet_menu_option: self.selected_planet_menu_option,
            planet: self.planet.clone(),
        }
    }

    /// One frame: the menu moves and reports the change it asks for; a
    /// request for the main menu switches to it.
    pub fn update(
        &self,
        just_pressed: &Buttons,
        pressed_this_frame: &Buttons,
        cooldown_tick: i32,
    ) -> (r: (Self, StateTransition))
        ensures
            r.0.planet@ == self.planet@,
            r.0.selected_planet_menu_option == if self.submode == Mode::MainMenu {
                option_moved(self.selected_planet_menu_option, *pressed_this_frame)
            } else {
                self.selected_planet_menu_option
            },
            r.1 == menu_transition(
                self.submode,
                r.0.selected_planet_menu_option,
                just_pressed.one && cooldown_tick == 0,
            ),
            r.1 == StateTransition::ChangeTo(Mode::FlyAway) <==> (self.submode == Mode::MainMenu
                && r.0.selected_planet_menu_option == MenuOption::FlyAway && just_pressed.one
                && cooldown_tick == 0),
            r.1 != StateTransition::ChangeTo(Mode::FlyAway) ==> r.1 == StateTransition::NoChange,
            r.0.submode == if r.1 == StateTransition::ChangeTo(Mode::MainMenu) {
                Mode::MainMenu
            } else {
                self.submode
            },
    {
        let mut new_instance = self.copy();
        let state_transition = update_movement(
            &mut new_instance,
            just_pressed,
            pressed_this_frame,
            cooldown_tick,
        );
        match state_transition {
            StateTransition::ChangeTo(Mode::MainMenu) => {
                new_instance.submode = Mode::MainMenu;
            },
            _ => {},
        }
        (new_instance, state_transition)
    }
}

} // verus!
