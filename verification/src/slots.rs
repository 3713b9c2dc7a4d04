//! The arena of signal slots.
//!
//! Every output port owns exactly one slot in a [`SlotBank`]; input ports
//! refer to slots by index. A slot starts empty and holds the last value its
//! owning port wrote. Slots are never freed, so an index, once handed out,
//! stays valid for the life of the bank.

use vstd::prelude::*;

verus! {

/// An append-only arena of signal value cells.
pub struct SlotBank {
    slots: Vec<Option<i64>>,
}

impl View for SlotBank {
    type V = Seq<Option<i64>>;

    closed spec fn view(&self) -> Seq<Option<i64>> {
        self.slots@
    }
}

impl SlotBank {
    /// Create an empty bank.
    pub fn new() -> (r: SlotBank)
        ensures
            r@ == Seq::<Option<i64>>::empty(),
    {
        SlotBank { slots: Vec::new() }
    }

    /// Number of slots handed out so far.
    pub fn len(&self) -> (r: usize)
        ensures
            r == self@.len(),
    {
        self.slots.len()
    }

    /// Allocate a fresh, empty slot and return its index.
    pub fn add_slot(&mut self) -> (idx: usize)
        ensures
            final(self)@ == old(self)@.push(None),
            idx == old(self)@.len(),
    {
        let idx = self.slots.len();
        self.slots.push(None);
        idx
    }

    /// Read a slot; an out-of-range index reads as an empty slot.
    pub fn read(&self, idx: usize) -> (r: Option<i64>)
        ensures
            r == if idx < self@.len() {
                self@[idx as int]
            } else {
                None::<i64>
            },
    {
        if idx < self.slots.len() {
            self.slots[idx]
        } else {
            None
        }
    }

    /// Overwrite the value held by slot `idx`.
    pub fn write(&mut self, idx: usize, value: i64)
        requires
            idx < old(self)@.len(),
        ensures
            final(self)@ == old(self)@.update(idx as int, Some(value)),
    {
        self.slots[idx] = Some(value);
    }
}

} // verus!
