//! The menu for selling goods to a planet.
use vstd::prelude::*;

use crate::buttons::Buttons;
use crate::items::{lemma_item_map_len, Item};
use crate::planets::{buy_check, Planet, PlanetItemInventory, PlanetModel};
use crate::player::{left_after_selling, ship_sell_check, PlayerShip, ShipModel};

use super::{selection_moved, Action, StateTransition};

verus! {

/// How many units one sale moves.
pub const QUANTITY: u32 = 10;

/// The selling menu: the first line leads back, line `i` offers the
/// planet's `i`-th good; selling happens `QUANTITY` units at a time.
pub struct SellMenu {
    pub selected_option: u8,
    pub planet: Planet,
    pub player_ship: PlayerShip,
    pub bought_stuff: Option<(Item, u32)>,
}

/// Selling `item` in units of `QUANTITY` to `planet` from `ship` passes
/// both sides' checks.
pub open spec fn sale_allowed(planet: PlanetModel, ship: ShipModel, item: Item) -> bool {
    &&& buy_check(planet.stock, item, QUANTITY) is Ok
    &&& ship_sell_check(ship, item, QUANTITY) is Ok
}

/// The answer for one good, `item` with the planet's entry `entry`: a sale of
/// `QUANTITY` at the planet's asking price where both sides allow it, no
/// change otherwise.
pub open spec fn sale_decision(
    planet: PlanetModel,
    ship: ShipModel,
    item: Item,
    entry: PlanetItemInventory,
    transition: StateTransition,
) -> bool {
    if sale_allowed(planet, ship, item) {
        transition matches StateTransition::ChangeTo(Action::Sell(name, sold, quantity, price)) && {
            &&& name@ == planet.name
            &&& sold == item
            &&& quantity == QUANTITY
            &&& price == entry.selling_price
        }
    } else {
        transition is NoChange
    }
}

/// The state change the selling menu asks for, given the selection after this
/// frame's moves. Button 1 (outside the cooldown) on the first line goes back
/// to the main menu; on line `k` of the planet's goods it decides, as
/// `sale_decision` says, on the good that a walk over the planet's stock
/// meets in place `k - 1`. That walk's order is set by a randomly seeded
/// hasher, so this names the good only as one that the planet trades.
pub open spec fn sell_transition(
    planet: PlanetModel,
    ship: ShipModel,
    selected: u8,
    confirm: bool,
    transition: StateTransition,
) -> bool {
    if !confirm {
        transition is NoChange
    } else if selected == 0 {
        transition matches StateTransition::ChangeTo(Action::MainMenu)
    } else if selected > planet.stock.len() {
        transition is NoChange
    } else {
        exists|item: Item|
            #[trigger] planet.stock.contains_key(item) && sale_decision(
                planet,
                ship,
                item,
                planet.stock[item],
                transition,
            )
    }
}

/// The selling menu can take `QUANTITY` from the hold's `i32` count of any
/// good the planet trades without going below `i32::MIN`, wherever it is
/// asked to sell: on button 1 outside the cooldown (`confirm`), with the
/// selection after this frame's moves (`selected`) on a line of the goods.
/// Which good a line shows is left to the map's walk, so every good the
/// planet trades is asked of.
pub open spec fn sale_fits_when_confirmed(
    planet: PlanetModel,
    ship: ShipModel,
    selected: u8,
    confirm: bool,
) -> bool {
    confirm && 1 <= selected <= planet.stock.len() ==> forall|item: Item|
        planet.stock.contains_key(item) ==> left_after_selling(ship.cargo, item, QUANTITY) >= i32::MIN
}

impl SellMenu {
    /// The menu for `planet` and `player_ship`, with the first line selected,
    /// remembering what was just traded.
    pub fn new(planet: &Planet, player_ship: &PlayerShip, bought_stuff: Option<(&Item, u32)>) -> (r: Self)
        ensures
            r.selected_option == 0,
            r.planet@ == planet@,
            r.player_ship@ == player_ship@,
            r.bought_stuff == (match bought_stuff {
                None => None,
                Some((item, quantity)) => Some((*item, quantity)),
            }),
    {
        Self {
            selected_option: 0,
            planet: planet.clone(),
            player_ship: player_ship.clone(),
            bought_stuff: match bought_stuff {
                None => None,
                Some((item, quantity)) => Some((*item, quantity)),
            },
        }
    }

    /// A menu in the same state.
    pub fn copy(&self) -> (r: Self)
        ensures
            r.selected_option == self.selected_option,
            r.planet@ == self.planet@,
            r.player_ship@ == self.player_ship@,
            r.bought_stuff == self.bought_stuff,
    {
        Self {
            selected_option: self.selected_option,
            planet: self.planet.clone(),
            player_ship: self.player_ship.clone(),
            bought_stuff: self.bought_stuff,
        }
    }

    /// The answer for the good `item`, whose planet entry is `inventory`: a
    /// sale of `QUANTITY` at the planet's asking price where the planet buys
    /// the good and the ship can sell it, no change otherwise.
    pub fn decide_sale(&mut self, item: Item, inventory: PlanetItemInventory) -> (r: StateTransition)
        requires
            old(self).planet@.stock.contains_key(item) ==> left_after_selling(
                old(self).player_ship@.cargo,
                item,
                QUANTITY,
            ) >= i32::MIN,
        ensures
            *final(self) == *old(self),
            sale_decision(old(self).planet@, old(self).player_ship@, item, inventory, r),
    {
        if let Ok(_) = self.planet.can_buy(&item, QUANTITY) {
            if let Ok(_) = self.player_ship.can_sell(&item, QUANTITY) {
                return StateTransition::ChangeTo(
                    Action::Sell(self.planet.name.clone(), item, QUANTITY, inventory.selling_price),
                );
            }
        }
        StateTransition::NoChange
    }

    /// Moves the selection down (up to the number of goods the planet trades)
    /// or up (down to line 0) for the buttons pressed this frame, then acts on
    /// button 1 as `sell_transition` says.
    pub fn update_movement(
        &self,
        just_pressed: &Buttons,
        pressed_this_frame: &Buttons,
        cooldown_tick: i32,
    ) -> (r: (Self, StateTransition))
        requires
            sale_fits_when_confirmed(
                self.planet@,
                self.player_ship@,
                selection_moved(self.selected_option, *pressed_this_frame, self.planet@.stock.len() as u8),
                just_pressed.one && cooldown_tick == 0,
            ),
        ensures
            r.0.selected_option == selection_moved(
                self.selected_option,
                *pressed_this_frame,
                self.planet@.stock.len() as u8,
            ),
            r.0.planet@ == self.planet@,
            r.0.player_ship@ == self.player_ship@,
            r.0.bought_stuff == self.bought_stuff,
            sell_transition(
                self.planet@,
                self.player_ship@,
                r.0.selected_option,
                just_pressed.one && cooldown_tick == 0,
                r.1,
            ),
    {
        let mut new_instance = self.copy();
        proof {
            lemma_item_map_len(self.planet@.stock);
        }
        let inventory_count = self.planet.inventory.count() as u8;

        let mut tmp_select: u8 = new_instance.selected_option;
        if pressed_this_frame.down {
            if tmp_select < inventory_count {
                tmp_select = tmp_select + 1;
            }
        }
        if pressed_this_frame.up {
            if tmp_select > 0 {
                tmp_select = tmp_select - 1;
            }
        }

        let mut state_transition = StateTransition::NoChange;
        new_instance.selected_option = tmp_select;
        if just_pressed.one && cooldown_tick == 0 {
            if new_instance.selected_option == 0 {
                state_transition = StateTransition::ChangeTo(Action::MainMenu);
            } else if new_instance.selected_option < inventory_count + 1 {
                let chosen = new_instance.planet.inventory.nth_entry(
                    (new_instance.selected_option - 1) as usize,
                );
                if let Some((item, inventory)) = chosen {
                    state_transition = new_instance.decide_sale(item, inventory);
                }
            }
        }
        (new_instance, state_transition)
    }
}

} // verus!
