use cart::items::Item;
use cart::planets::{BuyingError, Planet, PlanetItemInventory, SellingError, Type};
use cart::player::{self, PlayerInventory, PlayerShip};
use cart::stock::{PlanetStock, ShipCargo};
use cart::utils::clamp;

fn stock_with(entries: &[(Item, PlanetItemInventory)]) -> PlanetStock {
    let mut stock = PlanetStock::default();
    for (item, entry) in entries {
        stock.insert(*item, *entry);
    }
    stock
}

fn iron_planet() -> Planet {
    Planet::new(
        "Metallia",
        Type::B,
        stock_with(&[(Item::IronIngot, PlanetItemInventory::new(1000, 10, 100))]),
    )
}

fn held(ship: &PlayerShip, item: Item) -> Option<u32> {
    ship.inventory.get(&item).map(|entry| entry.quantity)
}

#[test]
fn clamp_limits_values() {
    assert_eq!(clamp(0, 7, 10), 7);
    assert_eq!(clamp(0, -3, 10), 0);
    assert_eq!(clamp(0, 12, 10), 10);
    assert_eq!(clamp(0, clamp(0, 12, 10), 10), 10);
}

#[test]
fn item_names() {
    assert_eq!(Item::IronIngot.get_name(), "Iron ingot");
    assert_eq!(Item::FoodCrate.get_name(), "Food crate");
}

#[test]
fn planet_inventory_entry() {
    let entry = PlanetItemInventory::new(5, 6, 7);
    assert_eq!(entry.quantity, 5);
    assert_eq!(entry.buying_price, 6);
    assert_eq!(entry.selling_price, 7);
}

#[test]
fn planet_checks_each_error() {
    let mut planet = iron_planet();
    assert_eq!(planet.can_buy(&Item::IronIngot, 0), Err(BuyingError::QuantityIsZero));
    assert_eq!(planet.can_buy(&Item::FoodCrate, 5), Err(BuyingError::ItemCannotBeBoughtHere));
    assert_eq!(planet.can_buy(&Item::IronIngot, 5), Ok(()));
    assert_eq!(planet.can_sell(&Item::IronIngot, 0), Err(SellingError::QuantityIsZero));
    assert_eq!(planet.can_sell(&Item::FoodCrate, 5), Err(SellingError::ItemNotInInventory));
    assert_eq!(planet.can_sell(&Item::IronIngot, 5), Ok(()));
}

#[test]
fn planet_buy_moves_prices() {
    let mut planet = iron_planet();
    planet.buy(&Item::IronIngot, 100);
    let entry = planet.inventory.get(&Item::IronIngot).unwrap();
    // 10 + 10 * 100 / 1000 = 11, 100 - 100 * 100 / 1000 = 90
    assert_eq!(entry, PlanetItemInventory::new(1100, 11, 90));
}

#[test]
fn planet_sell_moves_prices() {
    let mut planet = iron_planet();
    planet.sell(&Item::IronIngot, 100);
    let entry = planet.inventory.get(&Item::IronIngot).unwrap();
    // 10 - 10 * 100 / 1000 = 9, 100 + 100 * 100 / 1000 = 110
    assert_eq!(entry, PlanetItemInventory::new(900, 9, 110));
}

#[test]
fn planet_with_empty_stock_divides_by_one() {
    let mut planet = Planet::new(
        "Dust",
        Type::A,
        stock_with(&[(Item::FoodCrate, PlanetItemInventory::new(0, 3, 40))]),
    );
    // with nothing in stock the shares are taken over a stock of one:
    // 3 + 3 * 1 / 1 = 6, 40 - 40 * 1 / 1 = 0
    planet.buy(&Item::FoodCrate, 1);
    assert_eq!(planet.inventory.get(&Item::FoodCrate).unwrap(), PlanetItemInventory::new(1, 6, 0));
}

#[test]
fn planet_ignores_items_it_does_not_trade() {
    let mut planet = iron_planet();
    planet.buy(&Item::FoodCrate, 10);
    planet.sell(&Item::FoodCrate, 10);
    assert_eq!(planet.inventory.len(), 1);
    assert!(planet.inventory.get(&Item::FoodCrate).is_none());
}

#[test]
fn planet_sell_then_buy_restores_stock() {
    let mut planet = iron_planet();
    planet.sell(&Item::IronIngot, 100);
    planet.buy(&Item::IronIngot, 100);
    let entry = planet.inventory.get(&Item::IronIngot).unwrap();
    assert_eq!(entry.quantity, 1000);
    // the prices do not come back: 9 + 9 * 100 / 900 = 10, 110 - 110 * 100 / 900 = 98
    assert_eq!(entry.buying_price, 10);
    assert_eq!(entry.selling_price, 98);
}

#[test]
fn planet_clone_keeps_stock() {
    let planet = iron_planet();
    let copy = planet.clone();
    assert_eq!(copy.name, "Metallia");
    assert_eq!(copy.planet_type, Type::B);
    assert_eq!(copy.inventory.get(&Item::IronIngot).unwrap(), PlanetItemInventory::new(1000, 10, 100));
}

#[test]
fn new_ship() {
    let ship = PlayerShip::new();
    assert_eq!(ship.speed, 100);
    assert_eq!(ship.money, 1000);
    assert!(ship.inventory.len() == 0);
}

#[test]
fn speed_stays_in_range() {
    let mut ship = PlayerShip::new();
    ship.increment_speed();
    assert_eq!(ship.speed, 101);
    ship.speed = 500;
    ship.increment_speed();
    assert_eq!(ship.speed, 500);
    ship.speed = 1;
    ship.decrement_speed();
    assert_eq!(ship.speed, 0);
    ship.speed = 700;
    ship.decrement_speed();
    assert_eq!(ship.speed, 500);
    ship.speed = u32::MAX - 1;
    ship.increment_speed();
    assert_eq!(ship.speed, 0);
}

#[test]
fn money_beyond_i32_becomes_zero() {
    let mut ship = PlayerShip::new();
    ship.increment_money(500);
    assert_eq!(ship.money, 1500);
    ship.decrement_money(1500);
    assert_eq!(ship.money, 0);
    ship.money = i32::MAX as u32;
    ship.increment_money(1);
    assert_eq!(ship.money, 0);
}

#[test]
fn ship_checks_each_error() {
    let mut ship = PlayerShip::new();
    assert!(matches!(ship.can_buy(0, 10), Err(player::BuyingError::QuantityIsZero)));
    assert!(matches!(ship.can_buy(11, 100), Err(player::BuyingError::NotEnoughMoney)));
    assert!(matches!(ship.can_buy(10, 100), Ok(())));
    ship.inventory.insert(Item::IronIngot, PlayerInventory { quantity: 5 });
    assert!(matches!(ship.can_sell(&Item::IronIngot, 0), Err(player::SellingError::QuantityIsZero)));
    assert!(matches!(ship.can_sell(&Item::IronIngot, 6), Err(player::SellingError::NotEnoughToSell)));
    assert!(matches!(ship.can_sell(&Item::IronIngot, 5), Ok(())));
    // an item the hold has no entry for passes the check
    assert!(matches!(ship.can_sell(&Item::FoodCrate, 5), Ok(())));
}

#[test]
fn ship_buy_then_sell_round_trip() {
    let mut ship = PlayerShip::new();
    ship.buy(&Item::FoodCrate, 10, 30);
    assert_eq!(ship.money, 700);
    assert_eq!(held(&ship, Item::FoodCrate), Some(10));
    ship.buy(&Item::FoodCrate, 5, 20);
    assert_eq!(ship.money, 600);
    assert_eq!(held(&ship, Item::FoodCrate), Some(15));
    ship.sell(&Item::FoodCrate, 5, 20);
    ship.sell(&Item::FoodCrate, 10, 30);
    assert_eq!(ship.money, 1000);
    assert_eq!(held(&ship, Item::FoodCrate), Some(0));
}

#[test]
fn ship_sells_what_it_lacks_for_money() {
    let mut ship = PlayerShip::new();
    ship.sell(&Item::IronIngot, 10, 7);
    assert_eq!(ship.money, 1070);
    assert_eq!(held(&ship, Item::IronIngot), Some(0));
}

#[test]
fn ship_overselling_wraps_count() {
    let mut ship = PlayerShip::new();
    ship.inventory.insert(Item::IronIngot, PlayerInventory { quantity: 3 });
    ship.sell(&Item::IronIngot, 5, 1);
    assert_eq!(held(&ship, Item::IronIngot), Some(u32::MAX - 1));
}

#[test]
fn ship_clone_keeps_everything() {
    let mut ship = PlayerShip::new();
    ship.buy(&Item::IronIngot, 2, 10);
    let copy = ship.clone();
    assert_eq!(copy.speed, 100);
    assert_eq!(copy.money, 980);
    assert_eq!(held(&copy, Item::IronIngot), Some(2));
}

#[test]
fn empty_cargo_default() {
    let cargo = PlanetStock::default();
    assert!(cargo.len() == 0);
    let hold = ShipCargo::default();
    assert_eq!(hold.len(), 0);
    assert!(hold.items().is_empty());
}

#[test]
fn hold_lists_each_item_once() {
    let mut hold = ShipCargo::default();
    hold.insert(Item::IronIngot, PlayerInventory { quantity: 1 });
    hold.insert(Item::FoodCrate, PlayerInventory { quantity: 2 });
    hold.insert(Item::IronIngot, PlayerInventory { quantity: 3 });
    let items = hold.items();
    assert_eq!(items.len(), 2);
    assert!(items.contains(&Item::IronIngot));
    assert!(items.contains(&Item::FoodCrate));
}
