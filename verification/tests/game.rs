use cart::buttons::{Buttons, BUTTON_1, BUTTON_DOWN, BUTTON_UP};
use cart::game::{Frame, Game, GameMode};
use cart::gamemode_flying::{update_movement, DirectionX, DirectionY, FlyingMode, Movement};
use cart::gamemode_landed::submenu_sell::SellMenu;
use cart::gamemode_landed::{Action, GameModeLanded, Mode, StateTransition};
use cart::items::Item;
use cart::planets::{fits_give_out, fits_take_in, Planet, PlanetItemInventory, Type};
use cart::player::{PlayerInventory, PlayerShip};
use cart::stock::PlanetStock;

/// Stands for the flying mode, which lives outside the library.
#[derive(Debug, PartialEq)]
struct Flight(u32);

fn planet_of(game: &Game<Flight>, name: &str) -> Planet {
    game.planets.get(&name.to_string()).unwrap().clone()
}

fn stock_of(game: &Game<Flight>, planet: &str, item: Item) -> PlanetItemInventory {
    planet_of(game, planet).inventory.get(&item).unwrap()
}

fn held(game: &Game<Flight>, item: Item) -> Option<u32> {
    game.player_ship.inventory.get(&item).map(|entry| entry.quantity)
}

#[test]
fn new_game_has_two_markets() {
    let game: Game<Flight> = Game::new();
    assert_eq!(game.cooldown_tick, 0);
    assert!(matches!(game.current_mode, GameMode::Loading));
    assert!(game.planets.get(&"Nowhere".to_string()).is_none());
    assert_eq!(stock_of(&game, "Metallia", Item::IronIngot), PlanetItemInventory::new(1000, 10, 100));
    assert_eq!(stock_of(&game, "Metallia", Item::FoodCrate), PlanetItemInventory::new(100, 100, 10));
    assert_eq!(stock_of(&game, "Farm'leh", Item::IronIngot), PlanetItemInventory::new(100, 100, 10));
    assert_eq!(stock_of(&game, "Farm'leh", Item::FoodCrate), PlanetItemInventory::new(1000, 10, 100));
    assert_eq!(planet_of(&game, "Farm'leh").planet_type, Type::A);
    assert_eq!(game.player_ship.money, 1000);
}

#[test]
fn start_only_once() {
    let mut game: Game<Flight> = Game::new();
    game.start(Flight(1));
    game.start(Flight(2));
    assert!(matches!(game.current_mode, GameMode::Flying(Flight(1))));
}

#[test]
fn buttons_held_and_pressed_this_frame() {
    let mut game: Game<Flight> = Game::new();
    game.update_pressed_buttons(BUTTON_UP | BUTTON_1, BUTTON_1);
    assert_eq!(
        game.button_just_pressed,
        Buttons { up: true, down: false, left: false, right: false, two: false, one: true }
    );
    assert_eq!(
        game.button_pressed_this_frame,
        Buttons { up: true, down: false, left: false, right: false, two: false, one: false }
    );
    game.update_pressed_buttons(0, BUTTON_UP);
    assert_eq!(game.button_just_pressed, game.button_pressed_this_frame);
    assert!(!game.button_just_pressed.up);
}

#[test]
fn update_counts_down_cooldown() {
    let mut game: Game<Flight> = Game::new();
    game.cooldown_tick = 2;
    assert_eq!(game.update(BUTTON_DOWN, 0), Frame::Idle);
    assert_eq!(game.cooldown_tick, 1);
    assert!(game.button_pressed_this_frame.down);
    game.update(0, 0);
    game.update(0, 0);
    assert_eq!(game.cooldown_tick, 0);
}

fn landed_game() -> Game<Flight> {
    let mut game: Game<Flight> = Game::new();
    game.update_pressed_buttons(BUTTON_1, 0);
    let planet = planet_of(&game, "Metallia");
    game.land(Some(planet));
    game
}

#[test]
fn landing_needs_button_one() {
    let mut game: Game<Flight> = Game::new();
    let planet = planet_of(&game, "Metallia");
    game.land(Some(planet));
    assert!(matches!(game.current_mode, GameMode::Loading));
    let game = landed_game();
    assert_eq!(game.cooldown_tick, 10);
    match &game.current_mode {
        GameMode::Landed(landed) => {
            assert_eq!(landed.planet.name, "Metallia");
            assert!(matches!(landed.menu, Mode::SubmenuMain(_)));
        }
        _ => panic!("expected to be landed"),
    }
}

#[test]
fn landed_frame_without_request() {
    let mut game = landed_game();
    assert_eq!(game.update(BUTTON_1, 0), Frame::Landed);
    assert_eq!(game.cooldown_tick, 9);
    assert!(matches!(game.current_mode, GameMode::Landed(_)));
    assert_eq!(game.player_ship.money, 1000);
}

#[test]
fn flying_frame_is_handed_out() {
    let mut game: Game<Flight> = Game::new();
    game.start(Flight(1));
    game.cooldown_tick = 3;
    assert_eq!(game.update(0, 0), Frame::Fly);
    assert_eq!(game.cooldown_tick, 2);
    assert!(matches!(game.current_mode, GameMode::Flying(Flight(1))));
}

/// A game landed on `planet` in the selling menu, first line selected.
fn selling_on(game: &mut Game<Flight>, planet: &Planet) {
    let menu = SellMenu::new(planet, &game.player_ship, None);
    game.current_mode = GameMode::Landed(GameModeLanded {
        menu: Mode::SubmenuSell(menu),
        planet: planet.clone(),
        player_ship: game.player_ship.clone(),
    });
    game.cooldown_tick = 0;
}

#[test]
fn update_sells_the_selected_good() {
    let mut game: Game<Flight> = Game::new();
    game.player_ship.inventory.insert(Item::IronIngot, PlayerInventory { quantity: 10 });
    game.player_ship.inventory.insert(Item::FoodCrate, PlayerInventory { quantity: 10 });
    let farm = planet_of(&game, "Farm'leh");
    selling_on(&mut game, &farm);
    // down to the first good and button 1, in one frame
    assert_eq!(game.update(BUTTON_DOWN | BUTTON_1, 0), Frame::Landed);
    assert_eq!(game.cooldown_tick, 60);
    let sold = match &game.current_mode {
        GameMode::Landed(landed) => match &landed.menu {
            Mode::SubmenuSell(menu) => {
                assert_eq!(menu.selected_option, 0);
                menu.bought_stuff.unwrap()
            }
            _ => panic!("expected the selling menu"),
        },
        _ => panic!("expected to be landed"),
    };
    assert_eq!(sold.1, 10);
    assert_eq!(held(&game, sold.0), Some(0));
    match sold.0 {
        Item::IronIngot => {
            // paid at Farm'leh's price for iron, 10; stock 100 + 10, prices
            // 100 + 100 * 10 / 100 and 10 - 10 * 10 / 100
            assert_eq!(game.player_ship.money, 1100);
            assert_eq!(stock_of(&game, "Farm'leh", Item::IronIngot), PlanetItemInventory::new(110, 110, 9));
            assert_eq!(held(&game, Item::FoodCrate), Some(10));
        }
        Item::FoodCrate => {
            // paid at Farm'leh's price for food, 100; stock 1000 + 10, prices
            // 10 + 10 * 10 / 1000 and 100 - 100 * 10 / 1000
            assert_eq!(game.player_ship.money, 2000);
            assert_eq!(stock_of(&game, "Farm'leh", Item::FoodCrate), PlanetItemInventory::new(1010, 10, 99));
            assert_eq!(held(&game, Item::IronIngot), Some(10));
        }
    }
    // the other planet is untouched
    assert_eq!(stock_of(&game, "Metallia", Item::IronIngot), PlanetItemInventory::new(1000, 10, 100));
}

#[test]
fn update_refuses_a_trade_that_does_not_fit() {
    let mut game: Game<Flight> = Game::new();
    game.player_ship.inventory.insert(Item::IronIngot, PlayerInventory { quantity: 10 });
    let mut stock = PlanetStock::default();
    stock.insert(Item::IronIngot, PlanetItemInventory::new(1000, 10, 100));
    // a planet the game does not know
    let nowhere = Planet::new("Nowhere", Type::A, stock);
    selling_on(&mut game, &nowhere);
    game.cooldown_tick = 2;
    // the cooldown holds the request back first
    assert_eq!(game.update(BUTTON_1, 0), Frame::Landed);
    assert_eq!(game.cooldown_tick, 1);
    assert_eq!(game.update(BUTTON_DOWN | BUTTON_1, 0), Frame::Refused);
    assert_eq!(game.cooldown_tick, 0);
    assert_eq!(game.player_ship.money, 1000);
    assert_eq!(held(&game, Item::IronIngot), Some(10));
    match &game.current_mode {
        GameMode::Landed(landed) => assert_eq!(landed.planet.name, "Nowhere"),
        _ => panic!("expected to be landed"),
    }
}

#[test]
fn huge_hold_blocks_only_the_goods_lines() {
    let mut game: Game<Flight> = Game::new();
    // read as i32 this is i32::MIN + 5: taking 10 from it would go below i32::MIN
    game.player_ship.inventory.insert(Item::IronIngot, PlayerInventory { quantity: 0x8000_0005 });
    let farm = planet_of(&game, "Farm'leh");
    selling_on(&mut game, &farm);
    // the back line still leads to the main menu
    assert_eq!(game.update(BUTTON_1, 0), Frame::Landed);
    assert_eq!(game.cooldown_tick, 10);
    match &game.current_mode {
        GameMode::Landed(landed) => assert!(matches!(landed.menu, Mode::SubmenuMain(_))),
        _ => panic!("expected to be landed"),
    }
    // a line of the goods is refused
    selling_on(&mut game, &farm);
    assert_eq!(game.update(BUTTON_DOWN | BUTTON_1, 0), Frame::Refused);
    assert_eq!(game.cooldown_tick, 0);
    assert_eq!(game.player_ship.money, 1000);
}

#[test]
fn update_flies_away() {
    let mut game = landed_game();
    let farm = planet_of(&game, "Farm'leh");
    game.current_mode = GameMode::Landed(GameModeLanded {
        menu: Mode::FlyAway,
        planet: farm,
        player_ship: game.player_ship.clone(),
    });
    assert_eq!(game.update(0, 0), Frame::TakeOff);
    assert_eq!(game.cooldown_tick, 10);
    assert!(matches!(game.current_mode, GameMode::Loading));
    game.start(Flight(2));
    assert!(matches!(game.current_mode, GameMode::Flying(Flight(2))));
}

#[test]
fn buying_moves_goods_and_money() {
    let mut game = landed_game();
    let take_off = game.apply_transition(StateTransition::ChangeTo(Action::Buy(
        "Metallia".to_string(),
        Item::IronIngot,
        10,
        10,
    )));
    assert!(!take_off);
    assert_eq!(game.cooldown_tick, 60);
    assert_eq!(game.player_ship.money, 900);
    assert_eq!(held(&game, Item::IronIngot), Some(10));
    // 1000 - 10; 10 - 10 * 10 / 1000 = 10; 100 + 100 * 10 / 1000 = 101
    assert_eq!(stock_of(&game, "Metallia", Item::IronIngot), PlanetItemInventory::new(990, 10, 101));
    // the other good and the other planet are untouched
    assert_eq!(stock_of(&game, "Metallia", Item::FoodCrate), PlanetItemInventory::new(100, 100, 10));
    assert_eq!(stock_of(&game, "Farm'leh", Item::IronIngot), PlanetItemInventory::new(100, 100, 10));
    match &game.current_mode {
        GameMode::Landed(landed) => {
            assert!(matches!(landed.menu, Mode::SubmenuBuy(_)));
            assert_eq!(landed.player_ship.money, 900);
        }
        _ => panic!("expected to be landed"),
    }
}

#[test]
fn selling_moves_goods_and_money() {
    let mut game = landed_game();
    game.apply_transition(StateTransition::ChangeTo(Action::Buy("Metallia".to_string(), Item::IronIngot, 10, 10)));
    game.apply_transition(StateTransition::ChangeTo(Action::Sell(
        "Farm'leh".to_string(),
        Item::IronIngot,
        10,
        10,
    )));
    assert_eq!(game.player_ship.money, 1000);
    assert_eq!(held(&game, Item::IronIngot), Some(0));
    // 100 + 10; 100 + 100 * 10 / 100 = 110; 10 - 10 * 10 / 100 = 9
    assert_eq!(stock_of(&game, "Farm'leh", Item::IronIngot), PlanetItemInventory::new(110, 110, 9));
    match &game.current_mode {
        GameMode::Landed(landed) => match &landed.menu {
            Mode::SubmenuSell(menu) => assert_eq!(menu.bought_stuff, Some((Item::IronIngot, 10))),
            _ => panic!("expected the selling menu"),
        },
        _ => panic!("expected to be landed"),
    }
}

#[test]
fn flying_away_and_other_requests() {
    let mut game = landed_game();
    assert!(!game.apply_transition(StateTransition::NoChange));
    assert_eq!(game.cooldown_tick, 10);
    assert!(!game.apply_transition(StateTransition::ChangeTo(Action::MainMenu)));
    assert!(matches!(game.current_mode, GameMode::Landed(_)));
    assert!(game.apply_transition(StateTransition::ChangeTo(Action::FlyAway)));
    assert_eq!(game.cooldown_tick, 10);
    assert!(matches!(game.current_mode, GameMode::Loading));
}

#[test]
fn steering() {
    let mut movement = Movement { delta_x: DirectionX::Center, delta_y: DirectionY::Center };
    let pressed = Buttons { up: true, down: true, left: true, right: false, two: false, one: false };
    assert!(update_movement(&mut movement, &FlyingMode::Flying, &pressed).is_none());
    assert_eq!(movement, Movement { delta_x: DirectionX::Left, delta_y: DirectionY::Down });
    assert_eq!(movement.delta_x.step(), -1);
    assert_eq!(movement.delta_y.step(), 1);
    assert_eq!(DirectionY::Up.step(), -1);
    assert_eq!(DirectionX::Right.step(), 1);

    let holding_two = Buttons { two: true, ..pressed };
    let planet = Planet::new("Metallia", Type::B, PlanetStock::default());
    let offered = update_movement(&mut movement, &FlyingMode::LandingPossible(planet), &holding_two);
    assert_eq!(movement, Movement { delta_x: DirectionX::Center, delta_y: DirectionY::Center });
    assert_eq!(offered.map(|p| p.name), Some("Metallia".to_string()));
}

#[test]
fn trades_checked_before_they_run() {
    let game = landed_game();
    let buy = |name: &str, quantity, price| {
        StateTransition::ChangeTo(Action::Buy(name.to_string(), Item::IronIngot, quantity, price))
    };
    assert!(game.can_apply_transition(&buy("Metallia", 10, 10)));
    // no such planet
    assert!(!game.can_apply_transition(&buy("Nowhere", 10, 10)));
    // more than the ship's money
    assert!(!game.can_apply_transition(&buy("Metallia", 10, 101)));
    // more than the planet holds
    assert!(!game.can_apply_transition(&buy("Metallia", 1001, 0)));
    let sell = StateTransition::ChangeTo(Action::Sell("Farm'leh".to_string(), Item::FoodCrate, 10, u32::MAX));
    assert!(!game.can_apply_transition(&sell));
    let sell = StateTransition::ChangeTo(Action::Sell("Farm'leh".to_string(), Item::FoodCrate, 10, 5));
    assert!(game.can_apply_transition(&sell));
    assert!(game.can_apply_transition(&StateTransition::NoChange));
}

#[test]
fn planet_capacity_checks() {

    let entry = PlanetItemInventory::new(100, 10, 10);
    assert!(fits_take_in(entry, 50));
    // the asking price would drop below zero: 10 - 10 * 200 / 100
    assert!(!fits_take_in(entry, 200));
    assert!(fits_give_out(entry, 100));
    assert!(!fits_give_out(entry, 101));
    assert!(!fits_take_in(PlanetItemInventory::new(u32::MAX, 0, 0), 1));
}
