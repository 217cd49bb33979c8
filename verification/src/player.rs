//! The player's ship: its speed, money and cargo, and how it trades.
use vstd::prelude::*;

use crate::items::Item;
use crate::stock::ShipCargo;
use crate::utils::{clamp, clamped, i32_to_u32, u32_to_i32, wrap_to_i32, wrap_to_u32};

verus! {

/// How much of one item the ship carries.
#[derive(Clone, Copy, Debug, PartialEq, Eq, Hash, Structural)]
pub struct PlayerInventory {
    pub quantity: u32,
}

/// The player's ship.
pub struct PlayerShip {
    pub speed: u32,
    pub inventory: ShipCargo,
    pub money: u32,
}

/// The abstract state of the ship.
pub struct ShipModel {
    pub speed: u32,
    pub cargo: Map<Item, PlayerInventory>,
    pub money: u32,
}

impl View for PlayerShip {
    type V = ShipModel;

    open spec fn view(&self) -> ShipModel {
        ShipModel { speed: self.speed, cargo: self.inventory@, money: self.money }
    }
}

/// The highest speed.
pub const MAX_SPEED: i32 = 500;

/// The speed that a raw value (computed in `u32`) is stored as: the value,
/// read as an `i32`, limited to `0..=MAX_SPEED`.
pub open spec fn speed_from(raw: u32) -> u32 {
    clamped(0, wrap_to_i32(raw), MAX_SPEED as int) as u32
}

/// The money that a raw value (computed in `u32`) is stored as: the value,
/// read as an `i32`, limited to `0..=i32::MAX`; so anything beyond
/// `i32::MAX` becomes 0.
pub open spec fn money_from(raw: u32) -> u32 {
    clamped(0, wrap_to_i32(raw), i32::MAX as int) as u32
}

/// Why the ship cannot buy.
#[derive(Clone, Copy, Debug, PartialEq, Eq, Structural)]
pub enum BuyingError {
    QuantityIsZero,
    NotEnoughMoney,
}

/// Why the ship cannot sell.
#[derive(Clone, Copy, Debug, PartialEq, Eq, Structural)]
pub enum SellingError {
    QuantityIsZero,
    NotEnoughToSell,
}

/// How much of `item` the ship holds; none where it holds no entry.
pub open spec fn held(cargo: Map<Item, PlayerInventory>, item: Item) -> u32 {
    if cargo.contains_key(item) {
        cargo[item].quantity
    } else {
        0
    }
}

/// The answer to whether the ship can buy `quantity` at `buying_price` each.
pub open spec fn ship_buy_check(ship: ShipModel, quantity: u32, buying_price: u32) -> Result<(), BuyingError> {
    if quantity == 0 {
        Err(BuyingError::QuantityIsZero)
    } else if ship.money < quantity * buying_price {
        Err(BuyingError::NotEnoughMoney)
    } else {
        Ok(())
    }
}

/// The ship after buying `quantity` of `item` at `buying_price` each: the
/// total is paid and the quantity is added to the hold.
pub open spec fn ship_after_buying(ship: ShipModel, item: Item, quantity: u32, buying_price: u32) -> ShipModel {
    ShipModel {
        money: money_from((ship.money - quantity * buying_price) as u32),
        cargo: ship.cargo.insert(item, PlayerInventory { quantity: (held(ship.cargo, item) + quantity) as u32 }),
        ..ship
    }
}

/// What the hold keeps of `item` once `quantity` is gone, as the ship computes
/// it in `i32`. Where it holds no entry for `item`, this is `quantity` itself.
pub open spec fn left_after_selling(cargo: Map<Item, PlayerInventory>, item: Item, quantity: u32) -> int {
    if cargo.contains_key(item) {
        wrap_to_i32(cargo[item].quantity) - wrap_to_i32(quantity)
    } else {
        wrap_to_i32(quantity)
    }
}

/// The answer to whether the ship can sell `quantity` of `item`.
pub open spec fn ship_sell_check(ship: ShipModel, item: Item, quantity: u32) -> Result<(), SellingError> {
    if quantity == 0 {
        Err(SellingError::QuantityIsZero)
    } else if left_after_selling(ship.cargo, item, quantity) < 0 {
        Err(SellingError::NotEnoughToSell)
    } else {
        Ok(())
    }
}

/// What the hold keeps of `item` after a sale, computed in `i32`: zero where
/// it held no entry for it.
pub open spec fn kept_after_sale(cargo: Map<Item, PlayerInventory>, item: Item, quantity: u32) -> int {
    if cargo.contains_key(item) {
        wrap_to_i32(cargo[item].quantity) - wrap_to_i32(quantity)
    } else {
        0
    }
}

/// The ship after selling `quantity` of `item` at `selling_price` each: it is
/// paid the total and the hold keeps what is left.
pub open spec fn ship_after_selling(ship: ShipModel, item: Item, quantity: u32, selling_price: u32) -> ShipModel {
    ShipModel {
        money: money_from((ship.money + quantity * selling_price) as u32),
        cargo: ship.cargo.insert(
            item,
            PlayerInventory { quantity: wrap_to_u32(kept_after_sale(ship.cargo, item, quantity) as i32) as u32 },
        ),
        ..ship
    }
}

impl PlayerShip {
    /// A ship at speed 100 with 1000 money and an empty hold.
    pub fn new() -> (r: Self)
        ensures
            r@ == (ShipModel { speed: 100, cargo: Map::empty(), money: 1000 }),
    {
        let inventory = ShipCargo::empty();
        assert(inventory@ =~= Map::empty());
        Self { speed: 100, inventory, money: 1000 }
    }

    /// One step faster, up to `MAX_SPEED`.
    pub fn increment_speed(&mut self)
        requires
            old(self).speed < u32::MAX,
        ensures
            final(self)@ == (ShipModel { speed: speed_from((old(self).speed + 1) as u32), ..old(self)@ }),
    {
        self.speed = clamp(0, u32_to_i32(self.speed + 1), MAX_SPEED) as u32;
    }

    /// One step slower, down to 0.
    pub fn decrement_speed(&mut self)
        requires
            old(self).speed >= 1,
        ensures
            final(self)@ == (ShipModel { speed: speed_from((old(self).speed - 1) as u32), ..old(self)@ }),
    {
        self.speed = clamp(0, u32_to_i32(self.speed - 1), MAX_SPEED) as u32;
    }

    /// Adds `amount` to the money, which is kept within `0..=i32::MAX`.
    pub fn increment_money(&mut self, amount: u32)
        requires
            old(self).money + amount <= u32::MAX,
        ensures
            final(self)@ == (ShipModel { money: money_from((old(self).money + amount) as u32), ..old(self)@ }),
    {
        self.money = clamp(0, u32_to_i32(self.money + amount), i32::MAX) as u32;
    }

    /// Takes `amount` from the money, which is kept within `0..=i32::MAX`.
    pub fn decrement_money(&mut self, amount: u32)
        requires
            old(self).money >= amount,
        ensures
            final(self)@ == (ShipModel { money: money_from((old(self).money - amount) as u32), ..old(self)@ }),
    {
        self.money = clamp(0, u32_to_i32(self.money - amount), i32::MAX) as u32;
    }

    /// Whether the ship can buy `quantity` at `buying_price` each (from the
    /// player's side): not zero items, and not for more than its money.
    pub fn can_buy(&mut self, quantity: u32, buying_price: u32) -> (r: Result<(), BuyingError>)
        requires
            quantity * buying_price <= u32::MAX,
        ensures
            *final(self) == *old(self),
            r == ship_buy_check(old(self)@, quantity, buying_price),
    {
        if quantity == 0 {
            return Err(BuyingError::QuantityIsZero);
        }
        let total = quantity * buying_price;
        if self.money < total {
            return Err(BuyingError::NotEnoughMoney);
        }
        Ok(())
    }

    /// Buys `quantity` of `item` at `buying_price` each (from the player's side).
    pub fn buy(&mut self, item: &Item, quantity: u32, buying_price: u32)
        requires
            quantity * buying_price <= old(self).money,
            held(old(self)@.cargo, *item) + quantity <= u32::MAX,
        ensures
            final(self)@ == ship_after_buying(old(self)@, *item, quantity, buying_price),
    {
        let total = quantity * buying_price;
        let previous_inventory = self.inventory.entry(item);
        let new_quantity = match previous_inventory {
            None => quantity,
            Some(inventory) => inventory.quantity + quantity,
        };
        self.decrement_money(total);
        self.inventory.put(*item, PlayerInventory { quantity: new_quantity });
    }

    /// Whether the ship can sell `quantity` of `item` (from the player's
    /// side): not zero items, and not more than it holds. An item the hold has
    /// no entry for counts as held in any quantity up to `i32::MAX`.
    pub fn can_sell(&mut self, item: &Item, quantity: u32) -> (r: Result<(), SellingError>)
        requires
            quantity != 0 ==> i32::MIN <= left_after_selling(old(self)@.cargo, *item, quantity) <= i32::MAX,
        ensures
            *final(self) == *old(self),
            r == ship_sell_check(old(self)@, *item, quantity),
    {
        if quantity == 0 {
            return Err(SellingError::QuantityIsZero);
        }
        let previous_inventory = self.inventory.entry(item);
        let new_quantity: i32 = match previous_inventory {
            None => u32_to_i32(quantity),
            Some(inventory) => u32_to_i32(inventory.quantity) - u32_to_i32(quantity),
        };
        if new_quantity < 0 {
            return Err(SellingError::NotEnoughToSell);
        }
        Ok(())
    }

    /// Sells `quantity` of `item` at `selling_price` each (from the player's side).
    pub fn sell(&mut self, item: &Item, quantity: u32, selling_price: u32)
        requires
            i32::MIN <= kept_after_sale(old(self)@.cargo, *item, quantity) <= i32::MAX,
            old(self).money + quantity * selling_price <= u32::MAX,
        ensures
            final(self)@ == ship_after_selling(old(self)@, *item, quantity, selling_price),
    {
        let previous_inventory = self.inventory.entry(item);
        let new_quantity: i32 = match previous_inventory {
            None => 0,
            Some(inventory) => u32_to_i32(inventory.quantity) - u32_to_i32(quantity),
        };
        self.increment_money(quantity * selling_price);
        self.inventory.put(*item, PlayerInventory { quantity: i32_to_u32(new_quantity) });
    }
}

impl Clone for PlayerShip {
    /// A ship with the same speed, money and cargo.
    fn clone(&self) -> (r: Self)
        ensures
            r@ == self@,
    {
        PlayerShip { speed: self.speed, inventory: self.inventory.duplicate(), money: self.money }
    }
}

} // verus!

verus! {

/// Whatever raw value the ship computes, its stored speed lies within
/// `0..=MAX_SPEED`; a raw value already in that range is kept.
pub proof fn lemma_speed_in_range(raw: u32)
    ensures
        speed_from(raw) <= MAX_SPEED,
        raw <= MAX_SPEED ==> speed_from(raw) == raw,
{
}

/// Stored money never exceeds `i32::MAX`: a raw value up to `i32::MAX` is
/// kept, and any larger one is stored as 0.
pub proof fn lemma_money_in_range(raw: u32)
    ensures
        money_from(raw) <= i32::MAX,
        raw <= i32::MAX ==> money_from(raw) == raw,
        raw > i32::MAX ==> money_from(raw) == 0,
{
}

/// Buying pays exactly the total price, as long as the money stays within
/// `i32::MAX`, and adds exactly the quantity bought to the hold. Nothing else
/// in the hold changes, and the speed does not change.
pub proof fn lemma_buying_pays_and_loads(ship: ShipModel, item: Item, quantity: u32, price: u32)
    requires
        quantity * price <= ship.money <= i32::MAX,
        held(ship.cargo, item) + quantity <= u32::MAX,
    ensures
        ship_after_buying(ship, item, quantity, price).money == ship.money - quantity * price,
        held(ship_after_buying(ship, item, quantity, price).cargo, item) == held(ship.cargo, item) + quantity,
        forall|other: Item| other != item ==> ship_after_buying(ship, item, quantity, price).cargo.contains_key(other)
            == ship.cargo.contains_key(other) && held(ship_after_buying(ship, item, quantity, price).cargo, other)
            == held(ship.cargo, other),
        ship_after_buying(ship, item, quantity, price).speed == ship.speed,
{
}

/// Selling what the hold has is paid the total price, as long as the money
/// stays within `i32::MAX`, and takes exactly the quantity sold from the hold.
pub proof fn lemma_selling_pays_and_unloads(ship: ShipModel, item: Item, quantity: u32, price: u32)
    requires
        ship.cargo.contains_key(item),
        quantity <= ship.cargo[item].quantity <= i32::MAX,
        ship.money + quantity * price <= i32::MAX,
    ensures
        ship_sell_check(ship, item, quantity) is Ok || quantity == 0,
        ship_after_selling(ship, item, quantity, price).money == ship.money + quantity * price,
        held(ship_after_selling(ship, item, quantity, price).cargo, item) == ship.cargo[item].quantity - quantity,
        ship_after_selling(ship, item, quantity, price).speed == ship.speed,
{
}

/// Buying and then selling the same goods at the same price gives back the
/// money and the hold's count of the item, as long as all counts stay within
/// `i32::MAX`.
pub proof fn lemma_buy_then_sell_round_trip(ship: ShipModel, item: Item, quantity: u32, price: u32)
    requires
        quantity * price <= ship.money <= i32::MAX,
        held(ship.cargo, item) + quantity <= i32::MAX,
    ensures
        ship_after_selling(ship_after_buying(ship, item, quantity, price), item, quantity, price).money == ship.money,
        held(ship_after_selling(ship_after_buying(ship, item, quantity, price), item, quantity, price).cargo, item)
            == held(ship.cargo, item),
{
    let bought = ship_after_buying(ship, item, quantity, price);
    lemma_buying_pays_and_loads(ship, item, quantity, price);
    lemma_selling_pays_and_unloads(bought, item, quantity, price);
}

} // verus!
