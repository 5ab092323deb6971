//! Items that inventory slots hold.

use vstd::prelude::*;

verus! {

/// Numeric code identifying a kind of item.
#[derive(Clone, Copy, PartialEq, Eq, Structural, Debug, Hash, PartialOrd, Ord)]
pub struct ItemCode(pub usize);

/// An item held in an inventory slot, identified by its code.
#[derive(Clone, Copy, PartialEq, Eq, Structural, Debug)]
pub struct Item {
    pub code: ItemCode,
}

} // verus!
