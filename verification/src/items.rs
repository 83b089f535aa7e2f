//! Item stacks as the rules see them.
use vstd::prelude::*;

verus! {

/// Whether a stack holds items or cargo.
#[derive(Clone, Copy, Debug, PartialEq, Eq, Structural)]
pub enum ItemType {
    Item,
    Cargo,
}

/// A quantity of one item (or cargo), with the durability of tools.
#[derive(Clone, Copy, Debug, PartialEq, Eq, Structural)]
pub struct ItemStack {
    pub item_id: i32,
    pub quantity: i32,
    pub item_type: ItemType,
    pub durability: Option<i32>,
}

} // verus!
