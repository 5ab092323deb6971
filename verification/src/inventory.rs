//! A fixed-size inventory: numbered slots that hold at most one item each,
//! and a remembered selection.

use vstd::prelude::*;
use crate::items::Item;

verus! {

/// An inventory of `N` slots. Slots are addressed 1-indexed from the
/// outside; a selection of 0 means nothing is selected.
pub struct Inventory<const N: usize> {
    items: Vec<Option<Item>>,
    selected: usize,
}

impl<const N: usize> Inventory<N> {
    /// The slot contents, 0-indexed.
    pub closed spec fn slots(&self) -> Seq<Option<Item>> {
        self.items@
    }

    /// The selected slot, 1-indexed; 0 when nothing is selected.
    pub closed spec fn selection(&self) -> usize {
        self.selected
    }

    /// There are exactly `N` slots and the selection stays in range.
    pub open spec fn inv(&self) -> bool {
        self.slots().len() == N && self.selection() <= N
    }

    /// The selected slot, if any.
    pub fn selected_slot(&self) -> (r: Option<usize>)
        ensures
            r == (if self.selection() == 0 {
                None::<usize>
            } else {
                Some(self.selection())
            }),
    {
        if self.selected == 0 {
            return None;
        }
        Some(self.selected)
    }

    /// Forgets the selection.
    pub fn clear_selection(&mut self)
        ensures
            final(self).selection() == 0,
            final(self).slots() == old(self).slots(),
    {
        self.selected = 0;
    }

    /// Remembers `selection` as the selected slot (0 clears it).
    pub fn select_item(&mut self, selection: usize)
        requires
            selection <= N,
        ensures
            final(self).selection() == selection,
            final(self).slots() == old(self).slots(),
    {
        self.selected = selection;
    }

    /// The item in the selected slot: nothing when no slot is selected or
    /// the selected slot is empty.
    pub fn selected_item(&self) -> (r: Option<&Item>)
        requires
            self.inv(),
        ensures
            self.selection() == 0 ==> r is None,
            self.selection() >= 1 ==> (match r {
                Some(it) => self.slots()[self.selection() - 1] == Some(*it),
                None => self.slots()[self.selection() - 1] is None,
            }),
    {
        if self.selected == 0 {
            return None;
        }
        match &self.items[self.selected - 1] {
            Some(it) => Some(it),
            None => None,
        }
    }

    /// The item in the given slot (1-indexed); nothing for slot 0 or an
    /// empty slot.
    pub fn get_item(&self, slot: usize) -> (r: Option<&Item>)
        requires
            self.inv(),
            slot <= N,
        ensures
            slot == 0 ==> r is None,
            slot >= 1 ==> (match r {
                Some(it) => self.slots()[slot - 1] == Some(*it),
                None => self.slots()[slot - 1] is None,
            }),
    {
        if slot == 0 {
            return None;
        }
        match &self.items[slot - 1] {
            Some(it) => Some(it),
            None => None,
        }
    }

    /// Puts `item` into the given slot (1-indexed), replacing what was
    /// there.
    pub fn put_item(&mut self, slot: usize, item: Item)
        requires
            old(self).inv(),
            1 <= slot <= N,
        ensures
            final(self).inv(),
            final(self).slots() == old(self).slots().update(slot - 1, Some(item)),
            final(self).selection() == old(self).selection(),
    {
        self.items[slot - 1] = Some(item);
    }

    /// Takes the item out of the given slot (1-indexed) and returns it.
    pub fn remove_item(&mut self, slot: usize) -> (r: Option<Item>)
        requires
            old(self).inv(),
            1 <= slot <= N,
        ensures
            final(self).inv(),
            r == old(self).slots()[slot - 1],
            final(self).slots() == old(self).slots().update(slot - 1, None::<Item>),
            final(self).selection() == old(self).selection(),
    {
        let item = self.items[slot - 1];
        self.items[slot - 1] = None;
        item
    }
}

impl<const N: usize> Default for Inventory<N> {
    /// An inventory with all `N` slots empty and nothing selected.
    fn default() -> (s: Self)
        ensures
            s.inv(),
            s.selection() == 0,
            s.slots().len() == N,
            forall|i: int| 0 <= i < N ==> (#[trigger] s.slots()[i]) is None,
    {
        let mut items: Vec<Option<Item>> = Vec::new();
        let mut i: usize = 0;
        while i < N
            invariant
                items@.len() == i,
                i <= N,
                forall|j: int| 0 <= j < i ==> (#[trigger] items@[j]) is None,
            decreases N - i,
        {
            items.push(None);
            i = i + 1;
        }
        Inventory { items, selected: 0 }
    }
}

} // verus!
