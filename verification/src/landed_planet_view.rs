//! A landing screen with a menu and a full view of the planet.
use vstd::prelude::*;

use crate::buttons::Buttons;
use crate::planets::Planet;

verus! {

/// The screens of this landing mode.
#[derive(Clone, Copy, Debug, PartialEq, Eq, Structural)]
pub enum Mode {
    Menu,
    ShowPlanet,
    ExitMode,
}

/// The entries of the menu.
#[derive(Clone, Copy, Debug, PartialEq, Eq, Structural)]
pub enum MenuOption {
    FlyOut,
    Buy,
    SeePlanet,
}

/// Whether the screen asks for a change.
#[derive(Clone, Copy, Debug, PartialEq, Eq, Structural)]
pub enum StateTransition {
    NoChange,
    ChangeTo(Mode),
}

/// The position of an entry, from 0.
pub open spec fn option_index(option: MenuOption) -> u8 {
    match option {
        MenuOption::FlyOut => 0,
        MenuOption::Buy => 1,
        MenuOption::SeePlanet => 2,
    }
}

/// The entry at a position; positions past the last give the last entry.
pub open spec fn option_at(index: int) -> MenuOption {
    if index == 0 {
        MenuOption::FlyOut
    } else if index == 1 {
        MenuOption::Buy
    } else {
        MenuOption::SeePlanet
    }
}

/// The entry after one frame's moves: down (while below position 2), then
/// up (while above 0).
pub open spec fn option_moved(option: MenuOption, pressed: Buttons) -> MenuOption {
    let start = option_index(option);
    let lowered = if pressed.down && start < 2 {
        start + 1
    } else {
        start as int
    };
    option_at(if pressed.up && lowered > 0 { lowered - 1 } else { lowered })
}

/// Some button was pressed.
pub open spec fn any_button(buttons: Buttons) -> bool {
    buttons.up || buttons.down || buttons.left || buttons.right || buttons.one || buttons.two
}

/// The change asked for from `submode` with the selection `option`. On the
/// menu, button 1 (outside the cooldown) on "fly out" exits and on "see
/// planet" shows the planet; on the planet view any button (outside the
/// cooldown) goes back to the menu.
pub open spec fn screen_transition(submode: Mode, option: MenuOption, just_pressed: Buttons, cooldown_tick: i32) -> StateTransition {
    match submode {
        Mode::Menu => if just_pressed.one && cooldown_tick == 0 {
            match option {
                MenuOption::FlyOut => StateTransition::ChangeTo(Mode::ExitMode),
                MenuOption::SeePlanet => StateTransition::ChangeTo(Mode::ShowPlanet),
                MenuOption::Buy => StateTransition::NoChange,
            }
        } else {
            StateTransition::NoChange
        },
        Mode::ShowPlanet => if any_button(just_pressed) && cooldown_tick == 0 {
            StateTransition::ChangeTo(Mode::Menu)
        } else {
            StateTransition::NoChange
        },
        Mode::ExitMode => StateTransition::NoChange,
    }
}

/// The landing mode.
pub struct GameModeLanded {
    pub submode: Mode,
    pub selected_planet_menu_option: MenuOption,
    pub planet: Planet,
}

/// Only "fly out" leaves the planet: the screen asks to exit exactly when it
/// is on the menu, "fly out" is selected and button 1 is pressed outside the
/// cooldown; "buy" asks for no change; "see planet" asks only to show the
/// planet.
pub proof fn lemma_only_fly_out_exits(submode: Mode, option: MenuOption, just_pressed: Buttons, cooldown_tick: i32)
    ensures
        screen_transition(submode, option, just_pressed, cooldown_tick) == StateTransition::ChangeTo(Mode::ExitMode)
            <==> (submode == Mode::Menu && option == MenuOption::FlyOut && just_pressed.one && cooldown_tick == 0),
        submode == Mode::Menu && option == MenuOption::Buy ==> screen_transition(
            submode,
            option,
            just_pressed,
            cooldown_tick,
        ) == StateTransition::NoChange,
        submode == Mode::Menu && option == MenuOption::SeePlanet ==> screen_transition(
            submode,
            option,
            just_pressed,
            cooldown_tick,
        ) != StateTransition::ChangeTo(Mode::ExitMode),
{
}

/// Moves the selection on the menu and reports the change asked for.
fn update_movement(
    gamemode: &mut GameModeLanded,
    just_pressed: &Buttons,
    pressed_this_frame: &Buttons,
    cooldown_tick: i32,
) -> (r: StateTransition)
    ensures
        final(gamemode).submode == old(gamemode).submode,
        final(gamemode).planet@ == old(gamemode).planet@,
        final(gamemode).selected_planet_menu_option == if old(gamemode).submode == Mode::Menu {
            option_moved(old(gamemode).selected_planet_menu_option, *pressed_this_frame)
        } else {
            old(gamemode).selected_planet_menu_option
        },
        r == screen_transition(
            old(gamemode).submode,
            final(gamemode).selected_planet_menu_option,
            *just_pressed,
            cooldown_tick,
        ),
{
    match gamemode.submode {
        Mode::Menu => {
            let mut tmp_select: u8 = match gamemode.selected_planet_menu_option {
                MenuOption::FlyOut => 0,
                MenuOption::Buy => 1,
                MenuOption::SeePlanet => 2,
            };
            if pressed_this_frame.down {
                if tmp_select < 2 {
                    tmp_select = tmp_select + 1;
                }
            }
            if pressed_this_frame.up {
                if tmp_select > 0 {
                    tmp_select = tmp_select - 1;
                }
            }
            gamemode.selected_planet_menu_option = match tmp_select {
                0 => MenuOption::FlyOut,
                1 => MenuOption::Buy,
                _ => MenuOption::SeePlanet,
            };

            if just_pressed.one && cooldown_tick == 0 {
                match gamemode.selected_planet_menu_option {
                    MenuOption::FlyOut => return StateTransition::ChangeTo(Mode::ExitMode),
                    MenuOption::SeePlanet => return StateTransition::ChangeTo(Mode::ShowPlanet),
                    _ => return StateTransition::NoChange,
                }
            }
        },
        Mode::ShowPlanet => {
            if (just_pressed.up || just_pressed.down || just_pressed.left || just_pressed.right
                || just_pressed.one || just_pressed.two) && cooldown_tick == 0 {
                return StateTransition::ChangeTo(Mode::Menu);
            }
        },
        _ => {},
    }
    StateTransition::NoChange
}

impl GameModeLanded {
    /// The mode for `planet`, on the menu with "fly out" selected.
    pub fn new(planet: Planet) -> (r: Self)
        ensures
            r.submode == Mode::Menu,
            r.selected_planet_menu_option == MenuOption::FlyOut,
            r.planet@ == planet@,
    {
        Self { submode: Mode::Menu, selected_planet_menu_option: MenuOption::FlyOut, planet: planet.clone() }
    }

    /// A mode in the same state.
    pub fn copy(&self) -> (r: Self)
        ensures
            r.submode == self.submode,
            r.selected_planet_menu_option == self.selected_planet_menu_option,
            r.planet@ == self.planet@,
    {
        Self {
            submode: self.submode,
            selected_planet_menu_option: self.selected_planet_menu_option,
            planet: self.planet.clone(),
        }
    }

    /// One frame: the screen reacts to the buttons; a request to show the
    /// planet or to return to the menu switches screens.
    pub fn update(
        &self,
        just_pressed: &Buttons,
        pressed_this_frame: &Buttons,
        cooldown_tick: i32,
    ) -> (r: (Self, StateTransition))
        ensures
            r.0.planet@ == self.planet@,
            r.0.selected_planet_menu_option == if self.submode == Mode::Menu {
                option_moved(self.selected_planet_menu_option, *pressed_this_frame)
            } else {
                self.selected_planet_menu_option
            },
            r.1 == screen_transition(self.submode, r.0.selected_planet_menu_option, *just_pressed, cooldown_tick),
            r.1 == StateTransition::ChangeTo(Mode::ExitMode) <==> (self.submode == Mode::Menu
                && r.0.selected_planet_menu_option == MenuOption::FlyOut && just_pressed.one
                && cooldown_tick == 0),
            self.submode == Mode::Menu && r.0.selected_planet_menu_option == MenuOption::Buy
                ==> r.1 == StateTransition::NoChange,
            r.0.submode == match r.1 {
                StateTransition::ChangeTo(Mode::ShowPlanet) => Mode::ShowPlanet,
                StateTransition::ChangeTo(Mode::Menu) => Mode::Menu,
                _ => self.submode,
            },
    {
        let mut new_instance = self.copy();
        let state_transition = update_movement(
            &mut new_instance,
            just_pressed,
            pressed_this_frame,
            cooldown_tick,
        );
        match state_transition {
            StateTransition::ChangeTo(Mode::ShowPlanet) => {
                new_instance.submode = Mode::ShowPlanet;
            },
            StateTransition::ChangeTo(Mode::Menu) => {
                new_instance.submode = Mode::Menu;
            },
            _ => {},
        }
        (new_instance, state_transition)
    }
}

} // verus!
