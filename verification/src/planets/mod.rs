//! Planets: how they are drawn at each distance, and the market each one runs.
use vstd::prelude::*;

use crate::items::Item;
use crate::stock::PlanetStock;

pub mod planet_b;

verus! {

/// How close a planet is, in four steps; each step has a sprite of its own.
#[derive(Clone, Copy, Debug, PartialEq, Eq, Structural)]
pub enum Level {
    ONE,
    TWO,
    THREE,
    FOUR,
}

/// The kind of a planet, which decides how it looks.
#[derive(Clone, Copy, Debug, PartialEq, Eq, Structural)]
pub enum Type {
    A,
    B,
}

/// `BLIT_2BPP`: the sprites use two bits per pixel.
pub const SPRITE_FLAGS: u32 = 1;

/// Side in pixels of the (square) sprite shown at the nearest level.
pub const PLANET_120_SIDE: u32 = 120;

/// Side in pixels of the sprite shown at the second level.
pub const PLANET_80_SIDE: u32 = 80;

/// Side in pixels of the sprite shown at the third level.
pub const PLANET_40_SIDE: u32 = 40;

/// Side in pixels of the sprite shown at the farthest level.
pub const PLANET_12_SIDE: u32 = 12;

/// The level for a distance, rounded down to whole units.
pub open spec fn level_at(distance: u32) -> Level {
    if distance <= 1000 {
        Level::ONE
    } else if distance <= 2000 {
        Level::TWO
    } else if distance <= 3000 {
        Level::THREE
    } else {
        Level::FOUR
    }
}

/// The side of the sprite drawn at a level.
pub open spec fn level_side(level: Level) -> u32 {
    match level {
        Level::ONE => PLANET_120_SIDE,
        Level::TWO => PLANET_80_SIDE,
        Level::THREE => PLANET_40_SIDE,
        Level::FOUR => PLANET_12_SIDE,
    }
}

/// The level of the second kind's own sprite sheet with the same name.
pub open spec fn sheet_level(level: Level) -> planet_b::Level {
    match level {
        Level::ONE => planet_b::Level::ONE,
        Level::TWO => planet_b::Level::TWO,
        Level::THREE => planet_b::Level::THREE,
        Level::FOUR => planet_b::Level::FOUR,
    }
}

/// The second kind of planet is drawn from its own sprite sheet: at every
/// level, its sprite has the size that the sheet gives the level of the same
/// name, and the level chosen for a distance is the sheet's for that distance.
pub proof fn lemma_type_b_uses_its_sheet(level: Level, distance: u32)
    ensures
        level_side(level) == planet_b::level_side(sheet_level(level)),
        sheet_level(level_at(distance)) == planet_b::level_at(distance),
{
}

impl Type {
    /// The level at which a planet at `distance` (whole units, rounded down)
    /// is drawn: up to 1000 the first, up to 2000 the second, up to 3000 the
    /// third, beyond that the fourth.
    pub fn get_level(&self, distance: u32) -> (r: Level)
        ensures
            r == level_at(distance),
    {
        if distance <= 1000 {
            Level::ONE
        } else if distance <= 2000 {
            Level::TWO
        } else if distance <= 3000 {
            Level::THREE
        } else {
            Level::FOUR
        }
    }

    /// Width of the sprite of this kind of planet at `level`.
    pub fn get_width(&self, level: &Level) -> (r: u32)
        ensures
            r == level_side(*level),
    {
        match self {
            Type::A => match level {
                Level::ONE => PLANET_120_SIDE,
                Level::TWO => PLANET_80_SIDE,
                Level::THREE => PLANET_40_SIDE,
                Level::FOUR => PLANET_12_SIDE,
            },
            Type::B => match level {
                Level::ONE => PLANET_120_SIDE,
                Level::TWO => PLANET_80_SIDE,
                Level::THREE => PLANET_40_SIDE,
                Level::FOUR => PLANET_12_SIDE,
            },
        }
    }

    /// Height of the sprite of this kind of planet at `level`.
    pub fn get_height(&self, level: &Level) -> (r: u32)
        ensures
            r == level_side(*level),
    {
        match self {
            Type::A => match level {
                Level::ONE => PLANET_120_SIDE,
                Level::TWO => PLANET_80_SIDE,
                Level::THREE => PLANET_40_SIDE,
                Level::FOUR => PLANET_12_SIDE,
            },
            Type::B => match level {
                Level::ONE => PLANET_120_SIDE,
                Level::TWO => PLANET_80_SIDE,
                Level::THREE => PLANET_40_SIDE,
                Level::FOUR => PLANET_12_SIDE,
            },
        }
    }

    /// Blit flags of the sprite of this kind of planet at `level`.
    pub fn get_flags(&self, level: &Level) -> (r: u32)
        ensures
            r == SPRITE_FLAGS,
    {
        match self {
            Type::A => match level {
                Level::ONE => SPRITE_FLAGS,
                Level::TWO => SPRITE_FLAGS,
                Level::THREE => SPRITE_FLAGS,
                Level::FOUR => SPRITE_FLAGS,
            },
            Type::B => match level {
                Level::ONE => SPRITE_FLAGS,
                Level::TWO => SPRITE_FLAGS,
                Level::THREE => SPRITE_FLAGS,
                Level::FOUR => SPRITE_FLAGS,
            },
        }
    }

    /// Draw colors of this kind of planet: the same at every level.
    pub fn get_colors(&self, level: &Level) -> (r: u16)
        ensures
            r == 0x0234,
    {
        match self {
            Type::A => 0x0234,
            Type::B => 0x0234,
        }
    }
}

/// What a planet has of one item, and at which prices it trades it.
#[derive(Clone, Copy, Debug, PartialEq, Eq, Hash, Structural)]
pub struct PlanetItemInventory {
    pub quantity: u32,
    pub buying_price: u32,
    pub selling_price: u32,
}

impl PlanetItemInventory {
    /// An entry with the given stock and prices.
    pub fn new(quantity: u32, buying_price: u32, selling_price: u32) -> (r: Self)
        ensures
            r == (PlanetItemInventory { quantity, buying_price, selling_price }),
    {
        Self { quantity, buying_price, selling_price }
    }
}

/// Why a planet cannot buy.
#[derive(Clone, Copy, Debug, PartialEq, Eq, Structural)]
pub enum BuyingError {
    ItemCannotBeBoughtHere,
    QuantityIsZero,
}

/// Why a planet cannot sell.
#[derive(Clone, Copy, Debug, PartialEq, Eq, Structural)]
pub enum SellingError {
    ItemNotInInventory,
    QuantityIsZero,
}

/// A planet as the market sees it.
pub struct Planet {
    pub name: String,
    pub planet_type: Type,
    pub inventory: PlanetStock,
}

/// The abstract state of a planet: its name, kind and stock.
pub struct PlanetModel {
    pub name: Seq<char>,
    pub planet_type: Type,
    pub stock: Map<Item, PlanetItemInventory>,
}

impl View for Planet {
    type V = PlanetModel;

    open spec fn view(&self) -> PlanetModel {
        PlanetModel { name: self.name@, planet_type: self.planet_type, stock: self.inventory@ }
    }
}

/// The stock divisor: the quantity held, or 1 where none is held.
pub open spec fn divisor(entry: PlanetItemInventory) -> int {
    if entry.quantity == 0 {
        1
    } else {
        entry.quantity as int
    }
}

/// The planet can take in `quantity` more of an item without a counter
/// leaving the range of `u32`.
pub open spec fn can_take_in(entry: PlanetItemInventory, quantity: u32) -> bool {
    &&& entry.quantity + quantity <= u32::MAX
    &&& entry.buying_price * quantity <= u32::MAX
    &&& entry.buying_price + entry.buying_price * quantity / divisor(entry) <= u32::MAX
    &&& entry.selling_price * quantity <= u32::MAX
    &&& entry.selling_price * quantity / divisor(entry) <= entry.selling_price
}

/// The entry after the planet took in `quantity`: stock up, the price it buys
/// at up and the price it sells at down, each by its own share
/// `price * quantity / stock`.
pub open spec fn taken_in(entry: PlanetItemInventory, quantity: u32) -> PlanetItemInventory {
    PlanetItemInventory {
        quantity: (entry.quantity + quantity) as u32,
        buying_price: (entry.buying_price + entry.buying_price * quantity / divisor(entry)) as u32,
        selling_price: (entry.selling_price - entry.selling_price * quantity / divisor(entry)) as u32,
    }
}

/// The planet can give out `quantity` of an item without a counter leaving
/// the range of `u32`.
pub open spec fn can_give_out(entry: PlanetItemInventory, quantity: u32) -> bool {
    &&& quantity <= entry.quantity
    &&& entry.buying_price * quantity <= u32::MAX
    &&& entry.buying_price * quantity / divisor(entry) <= entry.buying_price
    &&& entry.selling_price * quantity <= u32::MAX
    &&& entry.selling_price + entry.selling_price * quantity / divisor(entry) <= u32::MAX
}

/// The entry after the planet gave out `quantity`: stock down, the price it
/// buys at down and the price it sells at up, each by `price * quantity / stock`.
pub open spec fn given_out(entry: PlanetItemInventory, quantity: u32) -> PlanetItemInventory {
    PlanetItemInventory {
        quantity: (entry.quantity - quantity) as u32,
        buying_price: (entry.buying_price - entry.buying_price * quantity / divisor(entry)) as u32,
        selling_price: (entry.selling_price + entry.selling_price * quantity / divisor(entry)) as u32,
    }
}

/// The stock after the planet bought `quantity` of `item`; unchanged where
/// it does not trade the item.
pub open spec fn stock_after_buying(
    stock: Map<Item, PlanetItemInventory>,
    item: Item,
    quantity: u32,
) -> Map<Item, PlanetItemInventory> {
    if stock.contains_key(item) {
        stock.insert(item, taken_in(stock[item], quantity))
    } else {
        stock
    }
}

/// The stock after the planet sold `quantity` of `item`; unchanged where it
/// does not trade the item.
pub open spec fn stock_after_selling(
    stock: Map<Item, PlanetItemInventory>,
    item: Item,
    quantity: u32,
) -> Map<Item, PlanetItemInventory> {
    if stock.contains_key(item) {
        stock.insert(item, given_out(stock[item], quantity))
    } else {
        stock
    }
}

/// The answer to whether a planet buys `quantity` of `item`.
pub open spec fn buy_check(stock: Map<Item, PlanetItemInventory>, item: Item, quantity: u32) -> Result<(), BuyingError> {
    if quantity == 0 {
        Err(BuyingError::QuantityIsZero)
    } else if !stock.contains_key(item) {
        Err(BuyingError::ItemCannotBeBoughtHere)
    } else {
        Ok(())
    }
}

/// The answer to whether a planet sells `quantity` of `item`.
pub open spec fn sell_check(stock: Map<Item, PlanetItemInventory>, item: Item, quantity: u32) -> Result<(), SellingError> {
    if quantity == 0 {
        Err(SellingError::QuantityIsZero)
    } else if !stock.contains_key(item) {
        Err(SellingError::ItemNotInInventory)
    } else {
        Ok(())
    }
}

/// `a * b`, exactly.
pub(crate) fn product(a: u32, b: u32) -> (r: u64)
    ensures
        r == a * b,
        r <= 0xffff_fffe_0000_0001u64,
{
    proof {
        vstd::arithmetic::mul::lemma_mul_upper_bound(a as int, u32::MAX as int, b as int, u32::MAX as int);
    }
    (a as u64) * (b as u64)
}

/// `a * b / c`, where none of the counters overflows, as an exact number.
fn share(a: u32, b: u32, c: u32) -> (r: u64)
    requires
        c > 0,
    ensures
        r == a * b / (c as int),
        r <= a * b,
{
    proof {
        vstd::arithmetic::div_mod::lemma_div_is_ordered_by_denominator(a * b, 1, c as int);
    }
    product(a, b) / (c as u64)
}

/// Whether the planet can take in `quantity` more of an item, as
/// `can_take_in` says.
pub fn fits_take_in(entry: PlanetItemInventory, quantity: u32) -> (r: bool)
    ensures
        r == can_take_in(entry, quantity),
{
    let divisor: u32 = if entry.quantity == 0 { 1 } else { entry.quantity };
    (entry.quantity as u64) + (quantity as u64) <= u32::MAX as u64
        && product(entry.buying_price, quantity) <= u32::MAX as u64
        && (entry.buying_price as u64) + share(entry.buying_price, quantity, divisor) <= u32::MAX as u64
        && product(entry.selling_price, quantity) <= u32::MAX as u64
        && share(entry.selling_price, quantity, divisor) <= entry.selling_price as u64
}

/// Whether the planet can give out `quantity` of an item, as `can_give_out`
/// says.
pub fn fits_give_out(entry: PlanetItemInventory, quantity: u32) -> (r: bool)
    ensures
        r == can_give_out(entry, quantity),
{
    let divisor: u32 = if entry.quantity == 0 { 1 } else { entry.quantity };
    quantity <= entry.quantity
        && product(entry.buying_price, quantity) <= u32::MAX as u64
        && share(entry.buying_price, quantity, divisor) <= entry.buying_price as u64
        && product(entry.selling_price, quantity) <= u32::MAX as u64
        && (entry.selling_price as u64) + share(entry.selling_price, quantity, divisor) <= u32::MAX as u64
}

impl Planet {
    /// A planet with the given name, kind and stock.
    pub fn new(name: &str, planet_type: Type, inventory: PlanetStock) -> (r: Self)
        ensures
            r@ == (PlanetModel { name: name@, planet_type, stock: inventory@ }),
    {
        Self { name: name.to_owned(), planet_type, inventory }
    }

    /// Whether the planet buys `quantity` of `item` (from the planet's side):
    /// not for a quantity of zero, not for an item it does not trade.
    pub fn can_buy(&mut self, item: &Item, quantity: u32) -> (r: Result<(), BuyingError>)
        ensures
            *final(self) == *old(self),
            r == buy_check(old(self)@.stock, *item, quantity),
    {
        if quantity == 0 {
            return Err(BuyingError::QuantityIsZero);
        }
        match self.inventory.entry(item) {
            None => Err(BuyingError::ItemCannotBeBoughtHere),
            Some(_inventory) => Ok(()),
        }
    }

    /// The planet buys `quantity` of `item`: its stock of the item grows, the
    /// price it pays rises and the price it asks falls. Nothing changes for an
    /// item it does not trade.
    pub fn buy(&mut self, item: &Item, quantity: u32)
        requires
            old(self)@.stock.contains_key(*item) ==> can_take_in(old(self)@.stock[*item], quantity),
        ensures
            final(self)@ == (PlanetModel {
                stock: stock_after_buying(old(self)@.stock, *item, quantity),
                ..old(self)@
            }),
    {
        match self.inventory.entry(item) {
            None => {},
            Some(inventory) => {
                let old_quantity = if inventory.quantity == 0 {
                    1
                } else {
                    inventory.quantity
                };
                let updated = PlanetItemInventory {
                    quantity: inventory.quantity + quantity,
                    buying_price: inventory.buying_price + inventory.buying_price * quantity
                        / old_quantity,
                    selling_price: inventory.selling_price - inventory.selling_price * quantity
                        / old_quantity,
                };
                self.inventory.put(*item, updated);
            },
        }
    }

    /// Whether the planet sells `quantity` of `item` (from the planet's side):
    /// not for a quantity of zero, not for an item it does not hold.
    pub fn can_sell(&mut self, item: &Item, quantity: u32) -> (r: Result<(), SellingError>)
        ensures
            *final(self) == *old(self),
            r == sell_check(old(self)@.stock, *item, quantity),
    {
        if quantity == 0 {
            return Err(SellingError::QuantityIsZero);
        }
        match self.inventory.entry(item) {
            None => Err(SellingError::ItemNotInInventory),
            Some(_) => Ok(()),
        }
    }

    /// The planet sells `quantity` of `item`: its stock of the item shrinks,
    /// the price it pays falls and the price it asks rises. Nothing changes
    /// for an item it does not trade.
    pub fn sell(&mut self, item: &Item, quantity: u32)
        requires
            old(self)@.stock.contains_key(*item) ==> can_give_out(old(self)@.stock[*item], quantity),
        ensures
            final(self)@ == (PlanetModel {
                stock: stock_after_selling(old(self)@.stock, *item, quantity),
                ..old(self)@
            }),
    {
        match self.inventory.entry(item) {
            None => {},
            Some(inventory) => {
                let old_quantity = if inventory.quantity == 0 {
                    1
                } else {
                    inventory.quantity
                };
                let updated = PlanetItemInventory {
                    quantity: inventory.quantity - quantity,
                    buying_price: inventory.buying_price - inventory.buying_price * quantity
                        / old_quantity,
                    selling_price: inventory.selling_price + inventory.selling_price * quantity
                        / old_quantity,
                };
                self.inventory.put(*item, updated);
            },
        }
    }
}

impl Clone for Planet {
    /// A planet with the same name, kind and stock.
    fn clone(&self) -> (r: Self)
        ensures
            r@ == self@,
    {
        Planet { name: self.name.clone(), planet_type: self.planet_type, inventory: self.inventory.duplicate() }
    }
}

/// The sprite of a level, counted from the nearest.
pub open spec fn level_rank(level: Level) -> int {
    match level {
        Level::ONE => 0,
        Level::TWO => 1,
        Level::THREE => 2,
        Level::FOUR => 3,
    }
}

/// A planet farther away is drawn at a level no nearer, with a sprite no
/// larger.
pub proof fn lemma_farther_is_smaller(near: u32, far: u32)
    requires
        near <= far,
    ensures
        level_rank(level_at(near)) <= level_rank(level_at(far)),
        level_side(level_at(far)) <= level_side(level_at(near)),
{
}

/// A planet that gives out some quantity of an item and then takes the same
/// quantity back holds as much of it as before. Its prices need not come back:
/// each step moves them by a share of the stock it had at that step.
pub proof fn lemma_sell_then_buy_restores_stock(
    stock: Map<Item, PlanetItemInventory>,
    item: Item,
    quantity: u32,
)
    requires
        stock.contains_key(item),
        can_give_out(stock[item], quantity),
    ensures
        stock_after_selling(stock, item, quantity).contains_key(item),
        stock_after_buying(stock_after_selling(stock, item, quantity), item, quantity)[item].quantity
            == stock[item].quantity,
        stock_after_buying(stock_after_selling(stock, item, quantity), item, quantity).dom() == stock.dom(),
{
    assert(stock_after_selling(stock, item, quantity).dom() =~= stock.dom());
    assert(stock_after_buying(stock_after_selling(stock, item, quantity), item, quantity).dom()
        =~= stock.dom());
}

/// Trading one item leaves a planet's other items exactly as they were.
pub proof fn lemma_trade_touches_one_item(
    stock: Map<Item, PlanetItemInventory>,
    item: Item,
    other: Item,
    quantity: u32,
)
    requires
        other != item,
    ensures
        stock_after_selling(stock, item, quantity).contains_key(other) == stock.contains_key(other),
        stock_after_buying(stock, item, quantity).contains_key(other) == stock.contains_key(other),
        stock.contains_key(other) ==> stock_after_selling(stock, item, quantity)[other] == stock[other],
        stock.contains_key(other) ==> stock_after_buying(stock, item, quantity)[other] == stock[other],
{
}

} // verus!
