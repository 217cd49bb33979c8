//! The game as a whole: the buttons read each frame, the mode the game is in,
//! the ship and the planets, and the trades the landed menus ask for.
use vstd::prelude::*;

use crate::buttons::{
    buttons_of, no_buttons, Buttons, BUTTON_1, BUTTON_2, BUTTON_DOWN, BUTTON_LEFT, BUTTON_RIGHT,
    BUTTON_UP,
};
use crate::gamemode_landed::submenu_main::MainMenuOption;
use crate::gamemode_landed::submenu_sell::{sale_fits_when_confirmed, QUANTITY};
use crate::gamemode_landed::{
    is_buy_menu, is_main_menu, is_sell_menu, landed_update, selection_moved, Action, GameModeLanded, Mode,
    StateTransition,
};
use crate::items::{lemma_item_map_len, Item};
use crate::planets::{
    can_give_out, can_take_in, fits_give_out, fits_take_in, product, stock_after_buying,
    stock_after_selling, Planet, PlanetItemInventory, PlanetModel, Type,
};
use crate::player::{
    held, kept_after_sale, left_after_selling, ship_after_buying, ship_after_selling, PlayerShip,
    ShipModel,
};
use crate::stock::{PlanetStock, Planets};
use crate::utils::u32_to_i32;

verus! {

/// The mode the game is in; `F` is the flying mode, which lives outside the
/// library.
pub enum GameMode<F> {
    /// Before the game starts.
    Loading,
    Flying(F),
    Landed(GameModeLanded),
}

/// The whole game.
pub struct Game<F> {
    pub cooldown_tick: i32,
    pub button_just_pressed: Buttons,
    pub button_pressed_this_frame: Buttons,
    pub current_mode: GameMode<F>,
    pub player_ship: PlayerShip,
    pub planets: Planets,
}

/// Every planet is stored under its own name.
pub open spec fn planets_by_own_name(planets: Map<Seq<char>, Planet>) -> bool {
    forall|name: Seq<char>| planets.contains_key(name) ==> #[trigger] planets[name]@.name == name
}

/// A trade that the game can carry out without a counter leaving its range:
/// the planet named exists, and both sides can take the change.
pub open spec fn trade_fits(planets: Map<Seq<char>, Planet>, ship: ShipModel, transition: StateTransition) -> bool {
    match transition {
        StateTransition::ChangeTo(Action::Buy(name, item, quantity, price)) => {
            &&& planets.contains_key(name@)
            &&& planets[name@]@.stock.contains_key(item) ==> can_give_out(planets[name@]@.stock[item], quantity)
            &&& quantity * price <= ship.money
            &&& held(ship.cargo, item) + quantity <= u32::MAX
        },
        StateTransition::ChangeTo(Action::Sell(name, item, quantity, price)) => {
            &&& planets.contains_key(name@)
            &&& planets[name@]@.stock.contains_key(item) ==> can_take_in(planets[name@]@.stock[item], quantity)
            &&& i32::MIN <= kept_after_sale(ship.cargo, item, quantity) <= i32::MAX
            &&& ship.money + quantity * price <= u32::MAX
        },
        _ => true,
    }
}

/// The planets after one planet's stock changed: the planet named `name` has
/// `stock`, everything else is as before.
pub open spec fn planets_with_stock(
    old_planets: Map<Seq<char>, Planet>,
    new_planets: Map<Seq<char>, Planet>,
    name: Seq<char>,
    stock: Map<Item, PlanetItemInventory>,
) -> bool {
    &&& new_planets.dom() == old_planets.dom()
    &&& new_planets[name]@ == (PlanetModel { stock, ..old_planets[name]@ })
    &&& forall|other: Seq<char>| other != name && old_planets.contains_key(other) ==> new_planets[other] == old_planets[other]
}

/// The landed mode opened after a trade on the planet named `name`.
pub open spec fn landed_after_trade<F>(
    mode: GameMode<F>,
    planets: Map<Seq<char>, Planet>,
    ship: ShipModel,
    action: Action,
) -> bool {
    mode matches GameMode::Landed(landed) && match action {
        Action::Buy(name, _, _, _) => {
            &&& landed.planet@ == planets[name@]@
            &&& landed.player_ship@ == ship
            &&& is_buy_menu(landed.menu, 0, planets[name@]@)
        },
        Action::Sell(name, item, quantity, _) => {
            &&& landed.planet@ == planets[name@]@
            &&& landed.player_ship@ == ship
            &&& is_sell_menu(landed.menu, 0, planets[name@]@, ship, Some((item, quantity)))
        },
        _ => false,
    }
}

/// What carrying out `transition` makes of the game, from `before` to
/// `after`. Any change of state starts a cooldown of 10 ticks. Flying away
/// leaves the game without a mode, for a flying mode to be put in place.
/// Buying takes the goods from the planet and the money from the ship;
/// selling does the reverse; either starts a cooldown of 60 ticks and reopens
/// the trade's menu on the updated planet and ship. Other requests keep the
/// menu.
pub open spec fn transition_applied<F>(before: Game<F>, after: Game<F>, transition: StateTransition) -> bool {
    &&& after.button_just_pressed == before.button_just_pressed
    &&& after.button_pressed_this_frame == before.button_pressed_this_frame
    &&& match transition {
        StateTransition::NoChange => {
            &&& after.cooldown_tick == before.cooldown_tick
            &&& after.current_mode == before.current_mode
            &&& after.player_ship == before.player_ship
            &&& after.planets == before.planets
        },
        StateTransition::ChangeTo(Action::FlyAway) => {
            &&& after.cooldown_tick == 10
            &&& after.current_mode is Loading
            &&& after.player_ship == before.player_ship
            &&& after.planets == before.planets
        },
        StateTransition::ChangeTo(Action::Buy(name, item, quantity, price)) => {
            &&& after.cooldown_tick == 60
            &&& after.player_ship@ == ship_after_buying(before.player_ship@, item, quantity, price)
            &&& planets_with_stock(
                before.planets@,
                after.planets@,
                name@,
                stock_after_selling(before.planets@[name@]@.stock, item, quantity),
            )
            &&& landed_after_trade(
                after.current_mode,
                after.planets@,
                after.player_ship@,
                Action::Buy(name, item, quantity, price),
            )
        },
        StateTransition::ChangeTo(Action::Sell(name, item, quantity, price)) => {
            &&& after.cooldown_tick == 60
            &&& after.player_ship@ == ship_after_selling(before.player_ship@, item, quantity, price)
            &&& planets_with_stock(
                before.planets@,
                after.planets@,
                name@,
                stock_after_buying(before.planets@[name@]@.stock, item, quantity),
            )
            &&& landed_after_trade(
                after.current_mode,
                after.planets@,
                after.player_ship@,
                Action::Sell(name, item, quantity, price),
            )
        },
        StateTransition::ChangeTo(_) => {
            &&& after.cooldown_tick == 10
            &&& after.current_mode == before.current_mode
            &&& after.player_ship == before.player_ship
            &&& after.planets == before.planets
        },
    }
}

/// The game between reading the buttons and carrying out the landed menu's
/// request: the cooldown has run down to `cooldown_tick`, the buttons are
/// read and the menu has moved on to `next`.
pub open spec fn stepped_game<F>(
    before: Game<F>,
    cooldown_tick: i32,
    just_pressed: Buttons,
    pressed_this_frame: Buttons,
    next: GameModeLanded,
) -> Game<F> {
    Game {
        cooldown_tick,
        button_just_pressed: just_pressed,
        button_pressed_this_frame: pressed_this_frame,
        current_mode: GameMode::Landed(next),
        player_ship: before.player_ship,
        planets: before.planets,
    }
}

/// The cooldown after one tick: one less, but never below zero.
pub open spec fn ticked(cooldown_tick: i32) -> i32 {
    if cooldown_tick > 0 {
        (cooldown_tick - 1) as i32
    } else {
        cooldown_tick
    }
}

/// What `Game::update` hands back to the caller.
#[derive(Clone, Copy, Debug, PartialEq, Eq, Structural)]
pub enum Frame {
    /// The game has not started: nothing happened beyond the buttons and
    /// the cooldown.
    Idle,
    /// The game is flying: the flying mode is to run its frame, then `land`
    /// decides on landing.
    Fly,
    /// The game is landed, and the menu's request was carried out.
    Landed,
    /// The ship left the planet: the game waits, without a mode, for a new
    /// flying mode (see `start`).
    TakeOff,
    /// The landed menu's request could not be carried out without a counter
    /// leaving its range; the game is as it was, but for the buttons and
    /// the cooldown.
    Refused,
}

/// One frame of a landed game, from `before` to `after`, with the buttons
/// read in this frame and `r` handed back. The cooldown runs down by one
/// tick first. Then either the frame is refused, and the game keeps its
/// mode, ship and planets, because selling on button 1 would take the hold's
/// count of a good the planet trades below `i32::MIN`, or because the menu's
/// step asked for a trade that does not fit; or the menu stepped as
/// `landed_update` says, its request fits, and the game is the stepped game
/// with the request carried out. `TakeOff` says the ship flew away.
pub open spec fn landed_frame<F>(
    before: Game<F>,
    after: Game<F>,
    landed: GameModeLanded,
    just_pressed: Buttons,
    pressed_this_frame: Buttons,
    r: Frame,
) -> bool {
    let cooldown_tick = ticked(before.cooldown_tick);
    let confirm = just_pressed.one && cooldown_tick == 0;
    if r is Refused {
        &&& after.cooldown_tick == cooldown_tick
        &&& after.current_mode == before.current_mode
        &&& after.player_ship == before.player_ship
        &&& after.planets == before.planets
        &&& {
            ||| landed.menu matches Mode::SubmenuSell(menu) && !sale_fits_when_confirmed(
                menu.planet@,
                menu.player_ship@,
                selection_moved(menu.selected_option, pressed_this_frame, menu.planet@.stock.len() as u8),
                confirm,
            )
            ||| exists|next: GameModeLanded, transition: StateTransition|
                #[trigger] landed_update(landed, just_pressed, pressed_this_frame, cooldown_tick, next, transition)
                    && !trade_fits(before.planets@, before.player_ship@, transition)
        }
    } else {
        &&& r is Landed || r is TakeOff
        &&& exists|next: GameModeLanded, transition: StateTransition|
            #[trigger] landed_update(landed, just_pressed, pressed_this_frame, cooldown_tick, next, transition) && {
                &&& trade_fits(before.planets@, before.player_ship@, transition)
                &&& transition_applied(
                    stepped_game(before, cooldown_tick, just_pressed, pressed_this_frame, next),
                    after,
                    transition,
                )
                &&& (r is TakeOff <==> transition matches StateTransition::ChangeTo(Action::FlyAway))
            }
    }
}

/// Whether a landed mode may step this frame: a selling menu asked to sell
/// (`confirm`) with its selection moving onto a line of the goods needs
/// `sale_fits_when_confirmed`.
fn sale_can_run(landed: &GameModeLanded, pressed_this_frame: &Buttons, confirm: bool) -> (r: bool)
    ensures
        r == (landed.menu matches Mode::SubmenuSell(menu) ==> sale_fits_when_confirmed(
            menu.planet@,
            menu.player_ship@,
            selection_moved(menu.selected_option, *pressed_this_frame, menu.planet@.stock.len() as u8),
            confirm,
        )),
{
    match &landed.menu {
        Mode::SubmenuSell(menu) => {
            if !confirm {
                return true;
            }
            proof {
                lemma_item_map_len(menu.planet@.stock);
            }
            let goods = menu.planet.inventory.count() as u8;
            let mut selected: u8 = menu.selected_option;
            if pressed_this_frame.down && selected < goods {
                selected = selected + 1;
            }
            if pressed_this_frame.up && selected > 0 {
                selected = selected - 1;
            }
            if selected == 0 || selected > goods {
                return true;
            }
            let iron = can_take_from_hold(&menu.planet, &menu.player_ship, Item::IronIngot);
            let food = can_take_from_hold(&menu.planet, &menu.player_ship, Item::FoodCrate);
            proof {
                if iron && food {
                    assert forall|item: Item| menu.planet@.stock.contains_key(item) implies left_after_selling(
                        menu.player_ship@.cargo,
                        item,
                        QUANTITY,
                    ) >= i32::MIN by {
                        match item {
                            Item::IronIngot => {},
                            Item::FoodCrate => {},
                        }
                    }
                }
            }
            iron && food
        },
        _ => true,
    }
}

/// Whether the hold's `i32` count of `item` stays at or above `i32::MIN`
/// when `QUANTITY` is taken from it, for an item the planet trades.
fn can_take_from_hold(planet: &Planet, ship: &PlayerShip, item: Item) -> (r: bool)
    ensures
        r == (planet@.stock.contains_key(item) ==> left_after_selling(ship@.cargo, item, QUANTITY) >= i32::MIN),
{
    match planet.inventory.entry(&item) {
        None => true,
        Some(_) => {
            let left: i64 = match ship.inventory.entry(&item) {
                Some(entry) => u32_to_i32(entry.quantity) as i64 - u32_to_i32(QUANTITY) as i64,
                None => u32_to_i32(QUANTITY) as i64,
            };
            left >= i32::MIN as i64
        },
    }
}

/// The stock a planet starts with: `iron` and `food` entries.
pub open spec fn two_goods(iron: PlanetItemInventory, food: PlanetItemInventory) -> Map<Item, PlanetItemInventory> {
    map![Item::IronIngot => iron, Item::FoodCrate => food]
}

impl<F> Game<F> {
    /// The game's invariant: the cooldown is never negative, and every
    /// planet is stored under its own name.
    pub open spec fn well_formed(&self) -> bool {
        &&& self.cooldown_tick >= 0
        &&& planets_by_own_name(self.planets@)
    }

    /// A game before its start: no button pressed, no cooldown, a new ship,
    /// and two planets, Metallia (rich in iron) and Farm'leh (rich in food).
    pub fn new() -> (r: Self)
        ensures
            r.well_formed(),
            r.cooldown_tick == 0,
            r.button_just_pressed == no_buttons(),
            r.button_pressed_this_frame == no_buttons(),
            r.current_mode is Loading,
            r.player_ship@ == (ShipModel { speed: 100, cargo: Map::empty(), money: 1000 }),
            r.planets@.dom() == set!["Metallia"@, "Farm'leh"@],
            r.planets@["Metallia"@]@ == (PlanetModel {
                name: "Metallia"@,
                planet_type: Type::B,
                stock: two_goods(
                    PlanetItemInventory { quantity: 1000, buying_price: 10, selling_price: 100 },
                    PlanetItemInventory { quantity: 100, buying_price: 100, selling_price: 10 },
                ),
            }),
            r.planets@["Farm'leh"@]@ == (PlanetModel {
                name: "Farm'leh"@,
                planet_type: Type::A,
                stock: two_goods(
                    PlanetItemInventory { quantity: 100, buying_price: 100, selling_price: 10 },
                    PlanetItemInventory { quantity: 1000, buying_price: 10, selling_price: 100 },
                ),
            }),
    {
        let mut planets = Planets::empty();

        let mut inventory = PlanetStock::empty();
        inventory.put(Item::IronIngot, PlanetItemInventory::new(1000, 10, 100));
        inventory.put(Item::FoodCrate, PlanetItemInventory::new(100, 100, 10));
        planets.put("Metallia".to_owned(), Planet::new("Metallia", Type::B, inventory));

        let mut inventory = PlanetStock::empty();
        inventory.put(Item::IronIngot, PlanetItemInventory::new(100, 100, 10));
        inventory.put(Item::FoodCrate, PlanetItemInventory::new(1000, 10, 100));
        planets.put("Farm'leh".to_owned(), Planet::new("Farm'leh", Type::A, inventory));

        proof {
            reveal_strlit("Metallia");
            reveal_strlit("Farm'leh");
            assert("Metallia"@ != "Farm'leh"@) by {
                assert("Metallia"@[0] != "Farm'leh"@[0]);
            }
            assert(planets@.dom() =~= set!["Metallia"@, "Farm'leh"@]);
            assert(planets@["Metallia"@]@.stock =~= two_goods(
                PlanetItemInventory { quantity: 1000, buying_price: 10, selling_price: 100 },
                PlanetItemInventory { quantity: 100, buying_price: 100, selling_price: 10 },
            ));
            assert(planets@["Farm'leh"@]@.stock =~= two_goods(
                PlanetItemInventory { quantity: 100, buying_price: 100, selling_price: 10 },
                PlanetItemInventory { quantity: 1000, buying_price: 10, selling_price: 100 },
            ));
        }

        Self {
            cooldown_tick: 0,
            button_just_pressed: Buttons {
                up: false,
                down: false,
                left: false,
                right: false,
                two: false,
                one: false,
            },
            button_pressed_this_frame: Buttons {
                up: false,
                down: false,
                left: false,
                right: false,
                two: false,
                one: false,
            },
            player_ship: PlayerShip::new(),
            planets,
            current_mode: GameMode::Loading,
        }
    }

    /// Starts the game in the flying mode `flying`; a game that has started
    /// already stays as it is.
    pub fn start(&mut self, flying: F)
        ensures
            old(self).well_formed() ==> final(self).well_formed(),
            old(self).current_mode is Loading ==> final(self).current_mode == GameMode::Flying(flying),
            !(old(self).current_mode is Loading) ==> final(self).current_mode == old(self).current_mode,
            final(self).cooldown_tick == old(self).cooldown_tick,
            final(self).button_just_pressed == old(self).button_just_pressed,
            final(self).button_pressed_this_frame == old(self).button_pressed_this_frame,
            final(self).player_ship == old(self).player_ship,
            final(self).planets == old(self).planets,
    {
        let not_started = match &self.current_mode {
            GameMode::Loading => true,
            _ => false,
        };
        if not_started {
            self.current_mode = GameMode::Flying(flying);
        }
    }

    /// Reads the gamepad: `gamepad` holds the buttons down now and `previous`
    /// those down in the frame before. A button is "just pressed" while it is
    /// held, and "pressed this frame" when it is held now and was not before.
    pub fn update_pressed_buttons(&mut self, gamepad: u8, previous: u8)
        ensures
            final(self).button_just_pressed == buttons_of(gamepad),
            final(self).button_pressed_this_frame == buttons_of(gamepad & (gamepad ^ previous)),
            final(self).cooldown_tick == old(self).cooldown_tick,
            final(self).current_mode == old(self).current_mode,
            final(self).player_ship == old(self).player_ship,
            final(self).planets == old(self).planets,
    {
        let pressed_this_frame = gamepad & (gamepad ^ previous);
        let just_pressed = gamepad;

        let mut held = Buttons { up: false, down: false, left: false, right: false, two: false, one: false };
        let mut fresh = Buttons { up: false, down: false, left: false, right: false, two: false, one: false };

        if just_pressed & BUTTON_UP != 0 {
            held.up = true;
        }
        if just_pressed & BUTTON_DOWN != 0 {
            held.down = true;
        }
        if just_pressed & BUTTON_LEFT != 0 {
            held.left = true;
        }
        if just_pressed & BUTTON_RIGHT != 0 {
            held.right = true;
        }
        if just_pressed & BUTTON_1 != 0 {
            held.one = true;
        }
        if just_pressed & BUTTON_2 != 0 {
            held.two = true;
        }

        if pressed_this_frame & BUTTON_UP != 0 {
            fresh.up = true;
        }
        if pressed_this_frame & BUTTON_DOWN != 0 {
            fresh.down = true;
        }
        if pressed_this_frame & BUTTON_LEFT != 0 {
            fresh.left = true;
        }
        if pressed_this_frame & BUTTON_RIGHT != 0 {
            fresh.right = true;
        }
        if pressed_this_frame & BUTTON_1 != 0 {
            fresh.one = true;
        }
        if pressed_this_frame & BUTTON_2 != 0 {
            fresh.two = true;
        }

        self.button_just_pressed = held;
        self.button_pressed_this_frame = fresh;
    }

    /// One frame of the game. The cooldown runs down by one tick and the
    /// gamepad is read (`gamepad` holds the buttons down now, `previous`
    /// those down in the frame before). Before the start nothing more
    /// happens (`Idle`); a flying game hands the frame to its flying mode
    /// (`Fly`, then `land`). A landed game lets its menu react and carries out
    /// what the menu asks for, as `landed_frame` says: `Landed` or `TakeOff`
    /// where that was done, `Refused` where a counter would have left its
    /// range.
    pub fn update(&mut self, gamepad: u8, previous: u8) -> (r: Frame)
        requires
            old(self).well_formed(),
        ensures
            final(self).well_formed(),
            final(self).button_just_pressed == buttons_of(gamepad),
            final(self).button_pressed_this_frame == buttons_of(gamepad & (gamepad ^ previous)),
            match old(self).current_mode {
                GameMode::Landed(landed) => landed_frame(
                    *old(self),
                    *final(self),
                    landed,
                    buttons_of(gamepad),
                    buttons_of(gamepad & (gamepad ^ previous)),
                    r,
                ),
                _ => {
                    &&& r == (if old(self).current_mode is Loading {
                        Frame::Idle
                    } else {
                        Frame::Fly
                    })
                    &&& final(self).cooldown_tick == ticked(old(self).cooldown_tick)
                    &&& final(self).current_mode == old(self).current_mode
                    &&& final(self).player_ship == old(self).player_ship
                    &&& final(self).planets == old(self).planets
                },
            },
    {
        if self.cooldown_tick > 0 {
            self.cooldown_tick -= 1;
        }
        self.update_pressed_buttons(gamepad, previous);
        let ghost ready = *self;
        let stepped = match &self.current_mode {
            GameMode::Loading => {
                return Frame::Idle;
            },
            GameMode::Flying(_) => {
                return Frame::Fly;
            },
            GameMode::Landed(mode) => {
                let confirm = self.button_just_pressed.one && self.cooldown_tick == 0;
                if !sale_can_run(mode, &self.button_pressed_this_frame, confirm) {
                    return Frame::Refused;
                }
                mode.update(&self.button_just_pressed, &self.button_pressed_this_frame, self.cooldown_tick)
            },
        };
        let (next, transition) = stepped;
        if !self.can_apply_transition(&transition) {
            return Frame::Refused;
        }
        let ghost after_menu = next;
        self.current_mode = GameMode::Landed(next);
        assert(*self == stepped_game(
            ready,
            ready.cooldown_tick,
            ready.button_just_pressed,
            ready.button_pressed_this_frame,
            after_menu,
        ));
        let take_off = self.apply_transition(transition);
        if take_off {
            Frame::TakeOff
        } else {
            Frame::Landed
        }
    }

    /// Whether the trade a landed menu asked for can be carried out, as
    /// `trade_fits` says.
    pub fn can_apply_transition(&self, transition: &StateTransition) -> (r: bool)
        ensures
            r == trade_fits(self.planets@, self.player_ship@, *transition),
    {
        match transition {
            StateTransition::ChangeTo(Action::Buy(name, item, quantity, price)) => {
                match self.planets.lookup(name) {
                    None => false,
                    Some(planet) => {
                        let stock_ok = match planet.inventory.entry(item) {
                            Some(entry) => fits_give_out(entry, *quantity),
                            None => true,
                        };
                        let held_now: u32 = match self.player_ship.inventory.entry(item) {
                            Some(entry) => entry.quantity,
                            None => 0,
                        };
                        stock_ok && product(*quantity, *price) <= self.player_ship.money as u64
                            && (held_now as u64) + (*quantity as u64) <= u32::MAX as u64
                    },
                }
            },
            StateTransition::ChangeTo(Action::Sell(name, item, quantity, price)) => {
                match self.planets.lookup(name) {
                    None => false,
                    Some(planet) => {
                        let stock_ok = match planet.inventory.entry(item) {
                            Some(entry) => fits_take_in(entry, *quantity),
                            None => true,
                        };
                        let kept: i64 = match self.player_ship.inventory.entry(item) {
                            Some(entry) => u32_to_i32(entry.quantity) as i64 - u32_to_i32(*quantity) as i64,
                            None => 0,
                        };
                        stock_ok && i32::MIN as i64 <= kept && kept <= i32::MAX as i64
                            && (self.player_ship.money as u64) + product(*quantity, *price) <= u32::MAX as u64
                    },
                }
            },
            _ => true,
        }
    }

    /// Carries out what a landed menu asked for, as `transition_applied`
    /// says; returns whether the ship flew away.
    #[verifier::rlimit(50)]
    pub fn apply_transition(&mut self, transition: StateTransition) -> (take_off: bool)
        requires
            old(self).well_formed(),
            trade_fits(old(self).planets@, old(self).player_ship@, transition),
        ensures
            final(self).well_formed(),
            final(self).button_just_pressed == old(self).button_just_pressed,
            final(self).button_pressed_this_frame == old(self).button_pressed_this_frame,
            take_off == (transition matches StateTransition::ChangeTo(Action::FlyAway)),
            transition_applied(*old(self), *final(self), transition),
            transition matches StateTransition::ChangeTo(Action::Buy(name, _, _, _)) ==> (
                final(self).current_mode matches GameMode::Landed(landed) && {
                    &&& landed.player_ship@ == final(self).player_ship@
                    &&& landed.planet@ == final(self).planets@[name@]@
                }),
            transition matches StateTransition::ChangeTo(Action::Sell(name, _, _, _)) ==> (
                final(self).current_mode matches GameMode::Landed(landed) && {
                    &&& landed.player_ship@ == final(self).player_ship@
                    &&& landed.planet@ == final(self).planets@[name@]@
                    &&& landed.menu matches Mode::SubmenuSell(menu) && menu.player_ship@ == final(self).player_ship@
                        && menu.planet@ == final(self).planets@[name@]@
                }),
    {
        match transition {
            StateTransition::NoChange => false,
            StateTransition::ChangeTo(next_state) => {
                self.cooldown_tick = 10;
                match next_state {
                    Action::FlyAway => {
                        self.current_mode = GameMode::Loading;
                        true
                    },
                    Action::Buy(planet_name, item, quantity, price) => {
                        // a longer cooldown shows what was bought
                        self.cooldown_tick = 60;
                        let ghost old_planets = self.planets@;
                        let mut updated_planet = match self.planets.lookup(&planet_name) {
                            Some(planet) => planet.clone(),
                            None => {
                                assert(false);
                                return false;
                            },
                        };
                        updated_planet.sell(&item, quantity);
                        self.planets.put(updated_planet.name.clone(), updated_planet);
                        self.player_ship.buy(&item, quantity, price);
                        proof {
                            assert(self.planets@.dom() =~= old_planets.dom());
                            assert(old_planets[planet_name@]@.name == planet_name@);
                            assert forall|name: Seq<char>| self.planets@.contains_key(name) implies #[trigger] self.planets@[name]@.name == name by {
                                if name != planet_name@ {
                                    assert(old_planets.contains_key(name));
                                }
                            }
                        }
                        let landed = match self.planets.lookup(&planet_name) {
                            Some(planet) => GameModeLanded::new(
                                planet,
                                &self.player_ship,
                                Some(Action::Buy(planet_name, item, quantity, price)),
                            ),
                            None => {
                                assert(false);
                                return false;
                            },
                        };
                        self.current_mode = GameMode::Landed(landed);
                        false
                    },
                    Action::Sell(planet_name, item, quantity, price) => {
                        // a longer cooldown shows what was sold
                        self.cooldown_tick = 60;
                        self.player_ship.sell(&item, quantity, price);
                        let ghost old_planets = self.planets@;
                        let mut updated_planet = match self.planets.lookup(&planet_name) {
                            Some(planet) => planet.clone(),
                            None => {
                                assert(false);
                                return false;
                            },
                        };
                        updated_planet.buy(&item, quantity);
                        self.planets.put(updated_planet.name.clone(), updated_planet);
                        proof {
                            assert(self.planets@.dom() =~= old_planets.dom());
                            assert(old_planets[planet_name@]@.name == planet_name@);
                            assert forall|name: Seq<char>| self.planets@.contains_key(name) implies #[trigger] self.planets@[name]@.name == name by {
                                if name != planet_name@ {
                                    assert(old_planets.contains_key(name));
                                }
                            }
                        }
                        let landed = match self.planets.lookup(&planet_name) {
                            Some(planet) => GameModeLanded::new(
                                planet,
                                &self.player_ship,
                                Some(Action::Sell(planet_name, item, quantity, price)),
                            ),
                            None => {
                                assert(false);
                                return false;
                            },
                        };
                        self.current_mode = GameMode::Landed(landed);
                        false
                    },
                    _ => false,
                }
            },
        }
    }

    /// After the flying mode's frame: where it offers a planet and button 1 is
    /// held, the ship lands there, opening the main menu, with a cooldown of
    /// 10 ticks. Otherwise nothing changes.
    pub fn land(&mut self, landing: Option<Planet>)
        ensures
            old(self).well_formed() ==> final(self).well_formed(),
            final(self).button_just_pressed == old(self).button_just_pressed,
            final(self).button_pressed_this_frame == old(self).button_pressed_this_frame,
            final(self).player_ship == old(self).player_ship,
            final(self).planets == old(self).planets,
            match landing {
                Some(planet) if old(self).button_just_pressed.one => {
                    &&& final(self).cooldown_tick == 10
                    &&& final(self).current_mode matches GameMode::Landed(landed) && {
                        &&& landed.planet@ == planet@
                        &&& landed.player_ship@ == old(self).player_ship@
                        &&& is_main_menu(landed.menu, MainMenuOption::FlyAway, planet@)
                    }
                },
                _ => {
                    &&& final(self).cooldown_tick == old(self).cooldown_tick
                    &&& final(self).current_mode == old(self).current_mode
                },
            },
    {
        if let Some(planet) = landing {
            if self.button_just_pressed.one {
                self.current_mode = GameMode::Landed(GameModeLanded::new(&planet, &self.player_ship, None));
                self.cooldown_tick = 10;
            }
        }
    }
}

/// After a trade, the game stays landed on the planet as the trade left it,
/// with the ship as the trade left it: the landed mode, and for a sale the
/// reopened selling menu, hold the game's own ship and planet after the
/// trade, so the next frame's menu checks the hold and money that remain.
pub proof fn lemma_trade_reopens_on_updated_ship<F>(before: Game<F>, after: Game<F>, transition: StateTransition)
    requires
        transition_applied(before, after, transition),
    ensures
        transition matches StateTransition::ChangeTo(Action::Buy(name, item, quantity, price)) ==> {
            &&& after.player_ship@ == ship_after_buying(before.player_ship@, item, quantity, price)
            &&& after.current_mode matches GameMode::Landed(landed) && {
                &&& landed.player_ship@ == after.player_ship@
                &&& landed.planet@ == after.planets@[name@]@
            }
        },
        transition matches StateTransition::ChangeTo(Action::Sell(name, item, quantity, price)) ==> {
            &&& after.player_ship@ == ship_after_selling(before.player_ship@, item, quantity, price)
            &&& after.current_mode matches GameMode::Landed(landed) && {
                &&& landed.player_ship@ == after.player_ship@
                &&& landed.planet@ == after.planets@[name@]@
                &&& landed.menu matches Mode::SubmenuSell(menu) && menu.player_ship@ == after.player_ship@
                    && menu.planet@ == after.planets@[name@]@ && menu.bought_stuff == Some((item, quantity))
            }
        },
{
}

/// A landed frame keeps the cooldown within `0..=60` where it starts there:
/// the cooldown runs down by one tick, then any change of menu or mode sets
/// it to 10 and a trade to 60; a frame in which the ship flies away leaves 10.
pub proof fn lemma_landed_frame_cooldown<F>(
    before: Game<F>,
    after: Game<F>,
    landed: GameModeLanded,
    just_pressed: Buttons,
    pressed_this_frame: Buttons,
    r: Frame,
)
    requires
        landed_frame(before, after, landed, just_pressed, pressed_this_frame, r),
        0 <= before.cooldown_tick <= 60,
    ensures
        0 <= after.cooldown_tick <= 60,
        after.cooldown_tick == ticked(before.cooldown_tick) || after.cooldown_tick == 10
            || after.cooldown_tick == 60,
        r is TakeOff ==> after.cooldown_tick == 10,
{
}

/// A purchase moves goods from the planet to the ship: what the planet gives
/// out of the item, the ship takes in, so the two together hold as much of it
/// as before.
pub proof fn lemma_purchase_conserves_goods(
    stock: Map<Item, PlanetItemInventory>,
    ship: ShipModel,
    item: Item,
    quantity: u32,
    price: u32,
)
    requires
        stock.contains_key(item),
        can_give_out(stock[item], quantity),
        quantity * price <= ship.money,
        held(ship.cargo, item) + quantity <= u32::MAX,
    ensures
        stock_after_selling(stock, item, quantity)[item].quantity + held(
            ship_after_buying(ship, item, quantity, price).cargo,
            item,
        ) == stock[item].quantity + held(ship.cargo, item),
{
}

/// A sale of goods the ship holds moves them to the planet: what the ship
/// gives out of the item, the planet takes in, so the two together hold as
/// much of it as before.
pub proof fn lemma_sale_conserves_goods(
    stock: Map<Item, PlanetItemInventory>,
    ship: ShipModel,
    item: Item,
    quantity: u32,
    price: u32,
)
    requires
        stock.contains_key(item),
        can_take_in(stock[item], quantity),
        ship.cargo.contains_key(item),
        quantity <= ship.cargo[item].quantity <= i32::MAX,
    ensures
        stock_after_buying(stock, item, quantity)[item].quantity + held(
            ship_after_selling(ship, item, quantity, price).cargo,
            item,
        ) == stock[item].quantity + held(ship.cargo, item),
{
}

} // verus!
