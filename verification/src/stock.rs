//! The hash maps that hold what planets and ships carry.
//!
//! Each map is a `hashbrown::HashMap` kept in a field that Verus does not
//! read. What a map holds is named by a spec function, and the functions of
//! this file that call into `hashbrown` are trusted to change and report that
//! content as their contracts say.
use vstd::prelude::*;

use crate::items::Item;
use crate::planets::{Planet, PlanetItemInventory};
use crate::player::PlayerInventory;

verus! {

/// The goods a planet trades, each with its stock and prices.
#[verifier::external_body]
pub struct PlanetStock {
    map: hashbrown::HashMap<Item, PlanetItemInventory>,
}

/// The goods in a ship's hold.
#[verifier::external_body]
pub struct ShipCargo {
    map: hashbrown::HashMap<Item, PlayerInventory>,
}

/// The planets of the game, found by name.
#[verifier::external_body]
pub struct Planets {
    map: hashbrown::HashMap<String, Planet>,
}

/// What a planet's stock holds, item by item.
pub uninterp spec fn planet_stock_entries(stock: PlanetStock) -> Map<Item, PlanetItemInventory>;

/// What a ship's cargo holds, item by item.
pub uninterp spec fn ship_cargo_entries(cargo: ShipCargo) -> Map<Item, PlayerInventory>;

/// The planets held, by the characters of their names.
pub uninterp spec fn planets_by_name(planets: Planets) -> Map<Seq<char>, Planet>;

impl View for PlanetStock {
    type V = Map<Item, PlanetItemInventory>;

    open spec fn view(&self) -> Map<Item, PlanetItemInventory> {
        planet_stock_entries(*self)
    }
}

impl View for ShipCargo {
    type V = Map<Item, PlayerInventory>;

    open spec fn view(&self) -> Map<Item, PlayerInventory> {
        ship_cargo_entries(*self)
    }
}

impl View for Planets {
    type V = Map<Seq<char>, Planet>;

    open spec fn view(&self) -> Map<Seq<char>, Planet> {
        planets_by_name(*self)
    }
}

impl PlanetStock {
    /// `hashbrown::HashMap::new`: the new map is empty.
    #[verifier::external_body]
    pub(crate) fn empty() -> (r: PlanetStock)
        ensures
            planet_stock_entries(r).dom().is_empty(),
    {
        PlanetStock { map: hashbrown::HashMap::new() }
    }

    /// `hashbrown::HashMap::get`, the entry copied out: the entry stored under
    /// `item`, or `None` where there is none. Items are equal exactly when
    /// they are the same variant, as their derived `Eq` and `Hash` compare.
    #[verifier::external_body]
    pub(crate) fn entry(&self, item: &Item) -> (r: Option<PlanetItemInventory>)
        ensures
            r == (if planet_stock_entries(*self).contains_key(*item) {
                Some(planet_stock_entries(*self)[*item])
            } else {
                None
            }),
    {
        self.map.get(item).copied()
    }

    /// `hashbrown::HashMap::insert`: afterwards `item` maps to `entry` and
    /// the other items are untouched.
    #[verifier::external_body]
    pub(crate) fn put(&mut self, item: Item, entry: PlanetItemInventory)
        ensures
            planet_stock_entries(*final(self)) == planet_stock_entries(*old(self)).insert(item, entry),
    {
        self.map.insert(item, entry);
    }

    /// `hashbrown::HashMap::len`: the number of items held.
    #[verifier::external_body]
    pub(crate) fn count(&self) -> (r: usize)
        ensures
            r == planet_stock_entries(*self).len(),
    {
        self.map.len()
    }

    /// `hashbrown::HashMap::clone`: a map with the same entries.
    #[verifier::external_body]
    pub(crate) fn duplicate(&self) -> (r: PlanetStock)
        ensures
            planet_stock_entries(r) == planet_stock_entries(*self),
    {
        PlanetStock { map: self.map.clone() }
    }

    /// The `index`-th entry that a walk over a clone of the map meets
    /// (`clone`, `into_iter`, then `Iterator::nth`). There is one exactly when
    /// `index` is below the number of entries, and it is an entry of the map.
    /// Which entry comes at which place depends on the map's hasher, which is
    /// seeded at random, so no clause names it.
    #[verifier::external_body]
    pub(crate) fn nth_entry(&self, index: usize) -> (r: Option<(Item, PlanetItemInventory)>)
        ensures
            r is None <==> index >= planet_stock_entries(*self).len(),
            r matches Some((item, entry)) ==> planet_stock_entries(*self).contains_key(item) && planet_stock_entries(*self)[item] == entry,
    {
        self.map.clone().into_iter().nth(index)
    }
}

impl Default for PlanetStock {
    /// An empty stock.
    fn default() -> (r: PlanetStock)
        ensures
            r@.dom().is_empty(),
    {
        PlanetStock::empty()
    }
}

impl ShipCargo {
    /// `hashbrown::HashMap::new`: the new map is empty.
    #[verifier::external_body]
    pub(crate) fn empty() -> (r: ShipCargo)
        ensures
            ship_cargo_entries(r).dom().is_empty(),
    {
        ShipCargo { map: hashbrown::HashMap::new() }
    }

    /// `hashbrown::HashMap::get`, the entry copied out: the entry stored under
    /// `item`, or `None` where there is none.
    #[verifier::external_body]
    pub(crate) fn entry(&self, item: &Item) -> (r: Option<PlayerInventory>)
        ensures
            r == (if ship_cargo_entries(*self).contains_key(*item) {
                Some(ship_cargo_entries(*self)[*item])
            } else {
                None
            }),
    {
        self.map.get(item).copied()
    }

    /// `hashbrown::HashMap::insert`: afterwards `item` maps to `entry` and
    /// the other items are untouched.
    #[verifier::external_body]
    pub(crate) fn put(&mut self, item: Item, entry: PlayerInventory)
        ensures
            ship_cargo_entries(*final(self)) == ship_cargo_entries(*old(self)).insert(item, entry),
    {
        self.map.insert(item, entry);
    }

    /// `hashbrown::HashMap::clone`: a map with the same entries.
    #[verifier::external_body]
    pub(crate) fn duplicate(&self) -> (r: ShipCargo)
        ensures
            ship_cargo_entries(r) == ship_cargo_entries(*self),
    {
        ShipCargo { map: self.map.clone() }
    }

    /// `hashbrown::HashMap::len`: the number of items held.
    #[verifier::external_body]
    pub(crate) fn count(&self) -> (r: usize)
        ensures
            r == ship_cargo_entries(*self).len(),
    {
        self.map.len()
    }

    /// `hashbrown::HashMap::keys`, copied into a `Vec`: every item of the
    /// map exactly once, in the order of the walk. That order depends on the
    /// map's hasher, which is seeded at random, so no clause names it.
    #[verifier::external_body]
    pub(crate) fn keys(&self) -> (r: Vec<Item>)
        ensures
            r@.len() == ship_cargo_entries(*self).len(),
            r@.no_duplicates(),
            forall|i: int| 0 <= i < r@.len() ==> ship_cargo_entries(*self).contains_key(#[trigger] r@[i]),
            forall|item: Item| ship_cargo_entries(*self).contains_key(item) ==> r@.contains(item),
    {
        self.map.keys().copied().collect()
    }
}

impl Planets {
    /// `hashbrown::HashMap::new`: the new map is empty.
    #[verifier::external_body]
    pub(crate) fn empty() -> (r: Planets)
        ensures
            planets_by_name(r).dom().is_empty(),
    {
        Planets { map: hashbrown::HashMap::new() }
    }

    /// `hashbrown::HashMap::get`: the planet stored under a name with the
    /// characters of `name`, or `None` where there is none.
    #[verifier::external_body]
    pub(crate) fn lookup(&self, name: &String) -> (r: Option<&Planet>)
        ensures
            r is None <==> !planets_by_name(*self).contains_key(name@),
            r matches Some(planet) ==> planets_by_name(*self).contains_key(name@) && *planet == planets_by_name(*self)[name@],
    {
        self.map.get(name)
    }

    /// `hashbrown::HashMap::insert`: afterwards `name` maps to `planet` and
    /// the other names are untouched.
    #[verifier::external_body]
    pub(crate) fn put(&mut self, name: String, planet: Planet)
        ensures
            planets_by_name(*final(self)) == planets_by_name(*old(self)).insert(name@, planet),
    {
        self.map.insert(name, planet);
    }
}

impl PlanetStock {
    /// Stores `entry` for `item`, replacing what was stored for it.
    pub fn insert(&mut self, item: Item, entry: PlanetItemInventory)
        ensures
            final(self)@ == old(self)@.insert(item, entry),
    {
        self.put(item, entry);
    }

    /// The entry stored for `item`, if any.
    pub fn get(&self, item: &Item) -> (r: Option<PlanetItemInventory>)
        ensures
            r == (if self@.contains_key(*item) {
                Some(self@[*item])
            } else {
                None
            }),
    {
        self.entry(item)
    }

    /// The number of items traded.
    pub fn len(&self) -> (r: usize)
        ensures
            r == self@.len(),
    {
        self.count()
    }
}

impl Default for ShipCargo {
    /// An empty hold.
    fn default() -> (r: ShipCargo)
        ensures
            r@.dom().is_empty(),
    {
        ShipCargo::empty()
    }
}

impl ShipCargo {
    /// Stores `entry` for `item`, replacing what was stored for it.
    pub fn insert(&mut self, item: Item, entry: PlayerInventory)
        ensures
            final(self)@ == old(self)@.insert(item, entry),
    {
        self.put(item, entry);
    }

    /// The entry stored for `item`, if any.
    pub fn get(&self, item: &Item) -> (r: Option<PlayerInventory>)
        ensures
            r == (if self@.contains_key(*item) {
                Some(self@[*item])
            } else {
                None
            }),
    {
        self.entry(item)
    }

    /// The number of items in the hold.
    pub fn len(&self) -> (r: usize)
        ensures
            r == self@.len(),
    {
        self.count()
    }

    /// The items in the hold, each once, in the order a walk over the map
    /// meets them (which the map's randomly seeded hasher decides).
    pub fn items(&self) -> (r: Vec<Item>)
        ensures
            r@.len() == self@.len(),
            r@.no_duplicates(),
            forall|i: int| 0 <= i < r@.len() ==> self@.contains_key(#[trigger] r@[i]),
            forall|item: Item| self@.contains_key(item) ==> r@.contains(item),
    {
        self.keys()
    }
}

impl Planets {
    /// The planet stored under a name with the characters of `name`, if any.
    pub fn get(&self, name: &String) -> (r: Option<&Planet>)
        ensures
            r is None <==> !self@.contains_key(name@),
            r matches Some(planet) ==> self@.contains_key(name@) && *planet == self@[name@],
    {
        self.lookup(name)
    }
}

} // verus!
