use vstd::prelude::*;

verus! {

/// The goods that planets and ships trade.
#[derive(Clone, Copy, Debug, PartialEq, Eq, Hash, Structural)]
pub enum Item {
    IronIngot,
    FoodCrate,
}

/// The name shown for an item.
pub open spec fn item_name(item: Item) -> Seq<char> {
    match item {
        Item::IronIngot => "Iron ingot"@,
        Item::FoodCrate => "Food crate"@,
    }
}

impl Item {
    /// The name shown for this item in the menus.
    pub fn get_name(&self) -> (r: &str)
        ensures
            r@ == item_name(*self),
    {
        match self {
            Item::IronIngot => "Iron ingot",
            Item::FoodCrate => "Food crate",
        }
    }
}

/// The number of units in which quantities are counted.
pub type Quantity = u32;

/// Every item, in the order the variants are declared.
pub open spec fn all_items() -> Set<Item> {
    set![Item::IronIngot, Item::FoodCrate]
}

/// A map keyed by items has at most one entry per variant: it is finite and
/// holds at most two entries.
pub proof fn lemma_item_map_len<V>(m: Map<Item, V>)
    ensures
        m.dom().finite(),
        m.len() <= 2,
{
    assert(m.dom().subset_of(all_items())) by {
        assert forall|item: Item| m.dom().contains(item) implies all_items().contains(item) by {
            match item {
                Item::IronIngot => {},
                Item::FoodCrate => {},
            }
        }
    }
    assert(all_items().len() == 2);
    vstd::set_lib::lemma_len_subset(m.dom(), all_items());
}

} // verus!
