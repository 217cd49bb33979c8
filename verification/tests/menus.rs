use cart::buttons::Buttons;
use cart::gamemode_landed::submenu_buy::BuyMenu;
use cart::gamemode_landed::submenu_main::{MainMenu, MainMenuOption};
use cart::gamemode_landed::submenu_sell::{SellMenu, QUANTITY};
use cart::gamemode_landed::{Action, GameModeLanded, Mode, StateTransition};
use cart::items::Item;
use cart::landed_menu;
use cart::landed_planet_view;
use cart::planets::{Planet, PlanetItemInventory, Type};
use cart::player::{PlayerInventory, PlayerShip};
use cart::stock::PlanetStock;

fn buttons(up: bool, down: bool, one: bool) -> Buttons {
    Buttons { up, down, left: false, right: false, two: false, one }
}

fn none() -> Buttons {
    buttons(false, false, false)
}

fn iron_planet() -> Planet {
    let mut stock = PlanetStock::default();
    stock.insert(Item::IronIngot, PlanetItemInventory::new(1000, 10, 100));
    Planet::new("Metallia", Type::B, stock)
}

fn ship_with_iron(quantity: u32) -> PlayerShip {
    let mut ship = PlayerShip::new();
    ship.inventory.insert(Item::IronIngot, PlayerInventory { quantity });
    ship
}

#[test]
fn main_menu_moves_and_never_changes_state() {
    let planet = iron_planet();
    let menu = MainMenu::new(&planet);
    assert_eq!(menu.selected_option, MainMenuOption::FlyAway);
    let (menu, transition) = menu.update_movement(&none(), &buttons(false, true, false), 0);
    assert_eq!(menu.selected_option, MainMenuOption::Buy);
    assert!(matches!(transition, StateTransition::NoChange));
    let (menu, _) = menu.update_movement(&none(), &buttons(false, true, false), 0);
    let (menu, _) = menu.update_movement(&none(), &buttons(false, true, false), 0);
    assert_eq!(menu.selected_option, MainMenuOption::Sell);
    let (menu, transition) = menu.update_movement(&buttons(false, false, true), &buttons(true, false, false), 0);
    assert_eq!(menu.selected_option, MainMenuOption::Buy);
    assert!(matches!(transition, StateTransition::NoChange));
    let (menu, _) = menu.update_movement(&none(), &buttons(true, false, false), 0);
    let (menu, transition) = menu.update_movement(&buttons(false, false, true), &buttons(true, false, false), 0);
    assert_eq!(menu.selected_option, MainMenuOption::FlyAway);
    assert!(matches!(transition, StateTransition::NoChange));
    assert_eq!(menu.planet.name, "Metallia");
}

#[test]
fn buy_menu_selection_stops_at_three() {
    let planet = iron_planet();
    let mut menu = BuyMenu::new(&planet);
    for _ in 0..5 {
        let (next, transition) = menu.update_movement(&buttons(false, false, true), &buttons(false, true, false), 0);
        assert!(matches!(transition, StateTransition::NoChange));
        menu = next;
    }
    assert_eq!(menu.selected_option, 3);
    let (menu, _) = menu.update_movement(&none(), &buttons(true, true, false), 0);
    assert_eq!(menu.selected_option, 2);
}

#[test]
fn sell_menu_offers_a_sale() {
    let planet = iron_planet();
    let ship = ship_with_iron(20);
    let menu = SellMenu::new(&planet, &ship, None);
    assert_eq!(menu.selected_option, 0);
    let (menu, transition) = menu.update_movement(&none(), &buttons(false, true, false), 0);
    assert_eq!(menu.selected_option, 1);
    assert!(matches!(transition, StateTransition::NoChange));
    let (menu, _) = menu.update_movement(&none(), &buttons(false, true, false), 0);
    assert_eq!(menu.selected_option, 1);
    let (_, transition) = menu.update_movement(&buttons(false, false, true), &none(), 0);
    match transition {
        StateTransition::ChangeTo(Action::Sell(name, item, quantity, price)) => {
            assert_eq!(name, "Metallia");
            assert_eq!(item, Item::IronIngot);
            assert_eq!(quantity, QUANTITY);
            assert_eq!(price, 100);
        }
        _ => panic!("expected a sale"),
    }
}

#[test]
fn sell_menu_refuses_short_hold_and_cooldown() {
    let planet = iron_planet();
    let menu = SellMenu::new(&planet, &ship_with_iron(5), None);
    let (menu, _) = menu.update_movement(&none(), &buttons(false, true, false), 0);
    let (_, transition) = menu.update_movement(&buttons(false, false, true), &none(), 0);
    assert!(matches!(transition, StateTransition::NoChange));

    let menu = SellMenu::new(&planet, &ship_with_iron(50), None);
    let (menu, _) = menu.update_movement(&none(), &buttons(false, true, false), 0);
    let (_, transition) = menu.update_movement(&buttons(false, false, true), &none(), 3);
    assert!(matches!(transition, StateTransition::NoChange));
}

#[test]
fn sale_decided_on_the_walked_good() {
    let planet = iron_planet();
    let mut menu = SellMenu::new(&planet, &ship_with_iron(20), None);
    let entry = PlanetItemInventory::new(1000, 10, 77);
    match menu.decide_sale(Item::IronIngot, entry) {
        StateTransition::ChangeTo(Action::Sell(name, item, quantity, price)) => {
            assert_eq!(name, "Metallia");
            assert_eq!(item, Item::IronIngot);
            assert_eq!(quantity, QUANTITY);
            // the price comes from the entry handed in
            assert_eq!(price, 77);
        }
        _ => panic!("expected a sale"),
    }
    // the planet does not trade food
    assert!(matches!(menu.decide_sale(Item::FoodCrate, entry), StateTransition::NoChange));
    // the hold has too little iron
    let mut short = SellMenu::new(&planet, &ship_with_iron(9), None);
    assert!(matches!(short.decide_sale(Item::IronIngot, entry), StateTransition::NoChange));
    assert_eq!(menu.selected_option, 0);
}

#[test]
fn sell_menu_back_line_returns_to_main_menu() {
    let planet = iron_planet();
    let menu = SellMenu::new(&planet, &ship_with_iron(50), Some((&Item::IronIngot, 10)));
    assert_eq!(menu.bought_stuff, Some((Item::IronIngot, 10)));
    let (_, transition) = menu.update_movement(&buttons(false, false, true), &none(), 0);
    assert!(matches!(transition, StateTransition::ChangeTo(Action::MainMenu)));
}

#[test]
fn landed_mode_opens_menus() {
    let planet = iron_planet();
    let ship = ship_with_iron(50);
    let landed = GameModeLanded::new(&planet, &ship, None);
    assert!(matches!(landed.menu, Mode::SubmenuMain(_)));
    let landed = GameModeLanded::new(
        &planet,
        &ship,
        Some(Action::Buy("Metallia".to_string(), Item::IronIngot, 10, 10)),
    );
    assert!(matches!(landed.menu, Mode::SubmenuBuy(_)));
    let landed = GameModeLanded::new(
        &planet,
        &ship,
        Some(Action::Sell("Metallia".to_string(), Item::IronIngot, 10, 100)),
    );
    match &landed.menu {
        Mode::SubmenuSell(menu) => assert_eq!(menu.bought_stuff, Some((Item::IronIngot, 10))),
        _ => panic!("expected the selling menu"),
    }
    let landed = GameModeLanded::new(&planet, &ship, Some(Action::FlyAway));
    assert!(matches!(landed.menu, Mode::SubmenuMain(_)));
}

#[test]
fn landed_update_reopens_sell_menu_after_sale() {
    let planet = iron_planet();
    let ship = ship_with_iron(50);
    let mut landed = GameModeLanded::new(&planet, &ship, None);
    landed.menu = Mode::SubmenuSell(SellMenu::new(&planet, &ship, None));
    let (landed, transition) = landed.update(&none(), &buttons(false, true, false), 0);
    assert!(matches!(transition, StateTransition::NoChange));
    let (landed, transition) = landed.update(&buttons(false, false, true), &none(), 0);
    assert!(matches!(transition, StateTransition::ChangeTo(Action::Sell(_, Item::IronIngot, 10, 100))));
    match &landed.menu {
        Mode::SubmenuSell(menu) => {
            assert_eq!(menu.selected_option, 0);
            assert_eq!(menu.bought_stuff, Some((Item::IronIngot, 10)));
        }
        _ => panic!("expected the selling menu"),
    }
    let (landed, transition) = landed.update(&buttons(false, false, true), &none(), 0);
    assert!(matches!(transition, StateTransition::ChangeTo(Action::MainMenu)));
    assert!(matches!(landed.menu, Mode::SubmenuMain(_)));
}

#[test]
fn landed_fly_away_mode_keeps_asking() {
    let planet = iron_planet();
    let mut landed = GameModeLanded::new(&planet, &PlayerShip::new(), None);
    landed.menu = Mode::FlyAway;
    let (landed, transition) = landed.update(&none(), &none(), 5);
    assert!(matches!(transition, StateTransition::ChangeTo(Action::FlyAway)));
    assert!(matches!(landed.menu, Mode::FlyAway));
    let copy = landed.copy();
    assert!(matches!(copy.menu, Mode::FlyAway));
}

#[test]
fn plain_landing_menu() {
    let landed = landed_menu::GameModeLanded::new(iron_planet());
    assert_eq!(landed.submode, landed_menu::Mode::MainMenu);
    let (landed, transition) = landed.update(&buttons(false, false, true), &none(), 2);
    assert_eq!(transition, landed_menu::StateTransition::NoChange);
    let (landed, transition) = landed.update(&buttons(false, false, true), &none(), 0);
    assert_eq!(transition, landed_menu::StateTransition::ChangeTo(landed_menu::Mode::FlyAway));
    assert_eq!(landed.submode, landed_menu::Mode::MainMenu);
    let (landed, transition) = landed.update(&buttons(false, false, true), &buttons(false, true, false), 0);
    assert_eq!(landed.selected_planet_menu_option, landed_menu::MenuOption::Buy);
    assert_eq!(transition, landed_menu::StateTransition::NoChange);
    let (landed, _) = landed.update(&none(), &buttons(false, true, false), 0);
    let (landed, _) = landed.update(&none(), &buttons(false, true, false), 0);
    assert_eq!(landed.selected_planet_menu_option, landed_menu::MenuOption::Sell);
    let copy = landed.copy();
    assert_eq!(copy.selected_planet_menu_option, landed_menu::MenuOption::Sell);
}

#[test]
fn planet_view_landing_menu() {
    let landed = landed_planet_view::GameModeLanded::new(iron_planet());
    assert_eq!(landed.selected_planet_menu_option, landed_planet_view::MenuOption::FlyOut);
    let (landed, transition) = landed.update(&buttons(false, false, true), &none(), 0);
    assert_eq!(transition, landed_planet_view::StateTransition::ChangeTo(landed_planet_view::Mode::ExitMode));
    assert_eq!(landed.submode, landed_planet_view::Mode::Menu);
    let (landed, _) = landed.update(&none(), &buttons(false, true, false), 0);
    let (landed, _) = landed.update(&none(), &buttons(false, true, false), 0);
    let (landed, _) = landed.update(&none(), &buttons(false, true, false), 0);
    assert_eq!(landed.selected_planet_menu_option, landed_planet_view::MenuOption::SeePlanet);
    let (landed, transition) = landed.update(&buttons(false, false, true), &none(), 0);
    assert_eq!(transition, landed_planet_view::StateTransition::ChangeTo(landed_planet_view::Mode::ShowPlanet));
    assert_eq!(landed.submode, landed_planet_view::Mode::ShowPlanet);
    let (landed, transition) = landed.update(&buttons(true, false, false), &none(), 1);
    assert_eq!(transition, landed_planet_view::StateTransition::NoChange);
    let (landed, transition) = landed.update(&buttons(true, false, false), &none(), 0);
    assert_eq!(transition, landed_planet_view::StateTransition::ChangeTo(landed_planet_view::Mode::Menu));
    assert_eq!(landed.submode, landed_planet_view::Mode::Menu);
    let copy = landed.copy();
    assert_eq!(copy.submode, landed_planet_view::Mode::Menu);
}
