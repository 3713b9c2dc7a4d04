//! Output ports: the exclusively-owned writing end of a signal slot.

use vstd::prelude::*;

use crate::slots::SlotBank;

verus! {

/// An output port. It owns one slot of a [`SlotBank`]; only the module that
/// owns the port writes that slot, while any number of input ports may read
/// it through the slot index returned by [`OutPort::get_ref`].
pub struct OutPort {
    /// The port's id label.
    pub label: String,
    /// Index of the slot this port owns.
    pub slot: usize,
}

impl OutPort {
    /// Create a port owning a freshly allocated, empty slot of `bank`.
    pub fn new(label: String, bank: &mut SlotBank) -> (r: OutPort)
        ensures
            final(bank)@ == old(bank)@.push(None),
            r.slot == old(bank)@.len(),
            r.label == label,
    {
        let slot = bank.add_slot();
        OutPort { label, slot }
    }

    /// The port's id label.
    pub fn get_label(&self) -> (r: &str)
        ensures
            r@ == self.label@,
    {
        self.label.as_str()
    }

    /// Replace the port's id label.
    pub fn set_label(&mut self, new_label: String)
        ensures
            final(self).label == new_label,
            final(self).slot == old(self).slot,
    {
        self.label = new_label;
    }

    /// Unconditionally overwrite the port's slot with `new` — no history,
    /// no backpressure.
    pub fn set_value(&self, bank: &mut SlotBank, new: i64)
        requires
            self.slot < old(bank)@.len(),
        ensures
            final(bank)@ == old(bank)@.update(self.slot as int, Some(new)),
    {
        bank.write(self.slot, new);
    }

    /// A non-owning reference to the port's slot, shareable by any number of
    /// input ports.
    pub fn get_ref(&self) -> (r: usize)
        ensures
            r == self.slot,
    {
        self.slot
    }
}

} // verus!
