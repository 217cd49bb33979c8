//! What the player does while landed: a main menu, a buying menu and a
//! selling menu, each of which may ask for a change of state.
use vstd::prelude::*;

use crate::buttons::Buttons;
use crate::items::{Item, Quantity};
use crate::planets::{Planet, PlanetModel};
use crate::player::{PlayerShip, ShipModel};

pub mod submenu_buy;
pub mod submenu_main;
pub mod submenu_sell;

use self::submenu_buy::BuyMenu;
use self::submenu_main::{option_at, option_index, MainMenu, MainMenuOption};
use self::submenu_sell::{sale_fits_when_confirmed, sell_transition, SellMenu};

verus! {

/// The menu on screen.
pub enum Mode {
    SubmenuMain(MainMenu),
    SubmenuBuy(BuyMenu),
    SubmenuSell(SellMenu),
    FlyAway,
}

/// What a menu asks the game to do.
pub enum Action {
    MainMenu,
    BuyMenu,
    /// Buy `Quantity` of an item on the named planet, at the given price each.
    Buy(String, Item, Quantity, u32),
    SellMenu,
    /// Sell `Quantity` of an item to the named planet, at the given price each.
    Sell(String, Item, Quantity, u32),
    FlyAway,
}

/// Whether a menu asks for a change of state.
pub enum StateTransition {
    NoChange,
    ChangeTo(Action),
}

/// A selection after one frame: one line down if down was pressed and the
/// selection is below `last`, then one line up if up was pressed and the
/// selection is above 0.
pub open spec fn selection_moved(selected: u8, pressed: Buttons, last: u8) -> u8 {
    let lowered: u8 = if pressed.down && selected < last {
        (selected + 1) as u8
    } else {
        selected
    };
    if pressed.up && lowered > 0 {
        (lowered - 1) as u8
    } else {
        lowered
    }
}

/// `mode` is the main menu with `selected` chosen, for `planet`.
pub open spec fn is_main_menu(mode: Mode, selected: MainMenuOption, planet: PlanetModel) -> bool {
    mode matches Mode::SubmenuMain(menu) && menu.selected_option == selected && menu.planet@ == planet
}

/// `mode` is the buying menu at line `selected`, for `planet`.
pub open spec fn is_buy_menu(mode: Mode, selected: u8, planet: PlanetModel) -> bool {
    mode matches Mode::SubmenuBuy(menu) && menu.selected_option == selected && menu.planet@ == planet
}

/// `mode` is the selling menu at line `selected`, for `planet` and `ship`,
/// remembering `bought`.
pub open spec fn is_sell_menu(
    mode: Mode,
    selected: u8,
    planet: PlanetModel,
    ship: ShipModel,
    bought: Option<(Item, u32)>,
) -> bool {
    mode matches Mode::SubmenuSell(menu) && {
        &&& menu.selected_option == selected
        &&& menu.planet@ == planet
        &&& menu.player_ship@ == ship
        &&& menu.bought_stuff == bought
    }
}

/// The menu opened for an action, on `planet` with `ship`: a trade reopens
/// its menu, remembering a sale.
pub open spec fn menu_for_action(
    mode: Mode,
    action: Action,
    planet: PlanetModel,
    ship: ShipModel,
) -> bool {
    match action {
        Action::MainMenu => is_main_menu(mode, MainMenuOption::FlyAway, planet),
        Action::BuyMenu => is_buy_menu(mode, 0, planet),
        Action::Buy(_, _, _, _) => is_buy_menu(mode, 0, planet),
        Action::SellMenu => is_sell_menu(mode, 0, planet, ship, None),
        Action::Sell(_, item, quantity, _) => is_sell_menu(mode, 0, planet, ship, Some((item, quantity))),
        Action::FlyAway => mode is FlyAway,
    }
}

/// One frame of the landed mode, as `GameModeLanded::update` performs it:
/// from `current` with the given buttons and cooldown to `next`, asking for
/// `transition`.
pub open spec fn landed_update(
    current: GameModeLanded,
    just_pressed: Buttons,
    pressed_this_frame: Buttons,
    cooldown_tick: i32,
    next: GameModeLanded,
    transition: StateTransition,
) -> bool {
    &&& next.planet@ == current.planet@
    &&& next.player_ship@ == current.player_ship@
    &&& match current.menu {
        Mode::SubmenuMain(menu) => {
            &&& transition is NoChange
            &&& is_main_menu(
                next.menu,
                option_at(selection_moved(option_index(menu.selected_option), pressed_this_frame, 3)),
                menu.planet@,
            )
        },
        Mode::SubmenuBuy(menu) => {
            &&& transition is NoChange
            &&& is_buy_menu(next.menu, selection_moved(menu.selected_option, pressed_this_frame, 3), menu.planet@)
        },
        Mode::SubmenuSell(menu) => {
            let selected = selection_moved(
                menu.selected_option,
                pressed_this_frame,
                menu.planet@.stock.len() as u8,
            );
            &&& sell_transition(
                menu.planet@,
                menu.player_ship@,
                selected,
                just_pressed.one && cooldown_tick == 0,
                transition,
            )
            &&& transition is NoChange ==> is_sell_menu(
                next.menu,
                selected,
                menu.planet@,
                menu.player_ship@,
                menu.bought_stuff,
            )
            &&& transition matches StateTransition::ChangeTo(action) ==> menu_for_action(
                next.menu,
                action,
                current.planet@,
                current.player_ship@,
            )
        },
        Mode::FlyAway => {
            &&& transition matches StateTransition::ChangeTo(Action::FlyAway)
            &&& next.menu is FlyAway
        },
    }
}

/// The landed game mode.
pub struct GameModeLanded {
    pub menu: Mode,
    pub planet: Planet,
    pub player_ship: PlayerShip,
}

impl GameModeLanded {
    /// The landed mode for `planet` and `player_ship`. With no action it opens
    /// the main menu; after a trade it reopens that trade's menu.
    pub fn new(planet: &Planet, player_ship: &PlayerShip, optional_action: Option<Action>) -> (r: Self)
        ensures
            r.planet@ == planet@,
            r.player_ship@ == player_ship@,
            match optional_action {
                None => is_main_menu(r.menu, MainMenuOption::FlyAway, planet@),
                Some(Action::Buy(_, _, _, _)) => is_buy_menu(r.menu, 0, planet@),
                Some(Action::Sell(_, item, quantity, _)) => is_sell_menu(
                    r.menu,
                    0,
                    planet@,
                    player_ship@,
                    Some((item, quantity)),
                ),
                Some(_) => is_main_menu(r.menu, MainMenuOption::FlyAway, planet@),
            },
    {
        Self {
            menu: match optional_action {
                None => Mode::SubmenuMain(MainMenu::new(planet)),
                Some(action) => match action {
                    Action::Buy(_, _, _, _) => Mode::SubmenuBuy(BuyMenu::new(planet)),
                    Action::Sell(_, item, quantity, _) => Mode::SubmenuSell(
                        SellMenu::new(planet, player_ship, Some((&item, quantity))),
                    ),
                    _ => Mode::SubmenuMain(MainMenu::new(planet)),
                },
            },
            planet: planet.clone(),
            player_ship: player_ship.clone(),
        }
    }

    /// A landed mode in the same state.
    pub fn copy(&self) -> (r: Self)
        ensures
            r.planet@ == self.planet@,
            r.player_ship@ == self.player_ship@,
            match self.menu {
                Mode::SubmenuMain(menu) => is_main_menu(r.menu, menu.selected_option, menu.planet@),
                Mode::SubmenuBuy(menu) => is_buy_menu(r.menu, menu.selected_option, menu.planet@),
                Mode::SubmenuSell(menu) => is_sell_menu(
                    r.menu,
                    menu.selected_option,
                    menu.planet@,
                    menu.player_ship@,
                    menu.bought_stuff,
                ),
                Mode::FlyAway => r.menu is FlyAway,
            },
    {
        Self {
            menu: match &self.menu {
                Mode::SubmenuMain(menu) => Mode::SubmenuMain(menu.copy()),
                Mode::SubmenuBuy(menu) => Mode::SubmenuBuy(menu.copy()),
                Mode::SubmenuSell(menu) => Mode::SubmenuSell(menu.copy()),
                Mode::FlyAway => Mode::FlyAway,
            },
            planet: self.planet.clone(),
            player_ship: self.player_ship.clone(),
        }
    }

    /// One frame of the landed mode: the menu on screen reacts to the
    /// buttons, and where it asks for a change of state the menu for it is
    /// opened (the selling menu with the ship as it was when landing).
    pub fn update(
        &self,
        just_pressed: &Buttons,
        pressed_this_frame: &Buttons,
        cooldown_tick: i32,
    ) -> (r: (Self, StateTransition))
        requires
            self.menu matches Mode::SubmenuSell(menu) ==> sale_fits_when_confirmed(
                menu.planet@,
                menu.player_ship@,
                selection_moved(menu.selected_option, *pressed_this_frame, menu.planet@.stock.len() as u8),
                just_pressed.one && cooldown_tick == 0,
            ),
        ensures
            landed_update(*self, *just_pressed, *pressed_this_frame, cooldown_tick, r.0, r.1),
    {
        let mut new_instance = self.copy();

        let state_transition = match &self.menu {
            Mode::SubmenuMain(menu) => {
                let (updated_menu, state_transition) = menu.update_movement(
                    just_pressed,
                    pressed_this_frame,
                    cooldown_tick,
                );
                new_instance.menu = Mode::SubmenuMain(updated_menu);
                state_transition
            },
            Mode::SubmenuBuy(menu) => {
                let (updated_menu, state_transition) = menu.update_movement(
                    just_pressed,
                    pressed_this_frame,
                    cooldown_tick,
                );
                new_instance.menu = Mode::SubmenuBuy(updated_menu);
                state_transition
            },
            Mode::SubmenuSell(menu) => {
                let (updated_menu, state_transition) = menu.update_movement(
                    just_pressed,
                    pressed_this_frame,
                    cooldown_tick,
                );
                new_instance.menu = Mode::SubmenuSell(updated_menu);
                state_transition
            },
            Mode::FlyAway => StateTransition::ChangeTo(Action::FlyAway),
        };

        match &state_transition {
            StateTransition::ChangeTo(Action::MainMenu) => {
                new_instance.menu = Mode::SubmenuMain(MainMenu::new(&new_instance.planet));
            },
            StateTransition::ChangeTo(Action::BuyMenu) => {
                new_instance.menu = Mode::SubmenuBuy(BuyMenu::new(&new_instance.planet));
            },
            StateTransition::ChangeTo(Action::SellMenu) => {
                new_instance.menu = Mode::SubmenuSell(
                    SellMenu::new(&new_instance.planet, &self.player_ship, None),
                );
            },
            StateTransition::ChangeTo(Action::Buy(_, _, _, _)) => {
                new_instance.menu = Mode::SubmenuBuy(BuyMenu::new(&new_instance.planet));
            },
            StateTransition::ChangeTo(Action::Sell(_, item, quantity, _)) => {
                new_instance.menu = Mode::SubmenuSell(
                    SellMenu::new(&new_instance.planet, &self.player_ship, Some((item, *quantity))),
                );
            },
            StateTransition::ChangeTo(Action::FlyAway) => {
                new_instance.menu = Mode::FlyAway;
            },
            StateTransition::NoChange => {},
        }
        (new_instance, state_transition)
    }
}

/// A selection that starts within a menu of lines `0..=last` stays within it.
pub proof fn lemma_selection_stays_in_menu(selected: u8, pressed: Buttons, last: u8)
    requires
        selected <= last,
    ensures
        selection_moved(selected, pressed, last) <= last,
{
}

/// While the cooldown runs, no menu asks for a change of state; only a mode
/// that is flying away already keeps asking to fly away.
pub proof fn lemma_cooldown_blocks_menus(
    current: GameModeLanded,
    just_pressed: Buttons,
    pressed_this_frame: Buttons,
    cooldown_tick: i32,
    next: GameModeLanded,
    transition: StateTransition,
)
    requires
        landed_update(current, just_pressed, pressed_this_frame, cooldown_tick, next, transition),
        cooldown_tick != 0,
        !(current.menu is FlyAway),
    ensures
        transition is NoChange,
{
}

} // verus!
