//! A control knob: an externally-driven scalar source.

use vstd::prelude::*;

use crate::fixed::{i64_sat, sat_add, sat_sub};
use crate::out_port::OutPort;
use crate::slots::SlotBank;
use crate::text::str_eq;

verus! {

/// How far one key press turns the knob: `100.0` in raw scalar units.
pub const KNOB_STEP: i64 = 100_000_000;

/// A control producing one freely settable value on its `value` port.
pub struct ControlKnob {
    /// A unique string used for identifying the control.
    pub id: String,
    /// The control's output value.
    pub out_value: OutPort,
}

impl ControlKnob {
    /// Exactly the knob that [`ControlKnob::new`] builds under `id`,
    /// owning the slot at `slot`.
    pub open spec fn fresh_spec(self, id: Seq<char>, slot: int) -> bool {
        &&& self.id@ == id
        &&& self.out_value.label@ == "value"@
        &&& self.out_value.slot == slot
    }

    /// Create a new knob whose port owns a fresh slot of `bank`.
    pub fn new(id: String, bank: &mut SlotBank) -> (r: ControlKnob)
        ensures
            r.fresh_spec(id@, old(bank)@.len() as int),
            final(bank)@ == old(bank)@.push(None),
    {
        let out_value = OutPort::new("value".to_owned(), bank);
        ControlKnob { id, out_value }
    }

    /// A reference to the named output port's slot; an undeclared id
    /// yields `None`.
    pub fn get_port_reference(&self, port_id: &str) -> (r: Option<usize>)
        ensures
            r == if port_id@ == "value"@ {
                Some(self.out_value.slot)
            } else {
                None::<usize>
            },
    {
        if str_eq(port_id, "value") {
            Some(self.out_value.get_ref())
        } else {
            None
        }
    }

    /// Set the control's output value; a write to an undeclared port does
    /// nothing.
    pub fn set_value(&self, bank: &mut SlotBank, port_id: &str, new_value: i64)
        requires
            self.out_value.slot < old(bank)@.len(),
        ensures
            final(bank)@ == if port_id@ == "value"@ {
                old(bank)@.update(self.out_value.slot as int, Some(new_value))
            } else {
                old(bank)@
            },
    {
        if str_eq(port_id, "value") {
            self.out_value.set_value(bank, new_value);
        }
    }

    /// Handle a control key: `k` turns the knob up one step, `j` down one
    /// step; anything else is ignored. An empty slot reads as zero.
    pub fn recv_control_key(&self, bank: &mut SlotBank, key: char)
        requires
            self.out_value.slot < old(bank)@.len(),
        ensures
            ({
                let slot = self.out_value.slot as int;
                let cur = if old(bank)@[slot] is Some {
                    old(bank)@[slot].unwrap() as int
                } else {
                    0
                };
                if key == 'k' {
                    final(bank)@ == old(bank)@.update(slot, Some(i64_sat(cur + KNOB_STEP) as i64))
                } else if key == 'j' {
                    final(bank)@ == old(bank)@.update(slot, Some(i64_sat(cur - KNOB_STEP) as i64))
                } else {
                    final(bank)@ == old(bank)@
                }
            }),
    {
        if key == 'k' {
            let cur = match bank.read(self.out_value.get_ref()) {
                Some(v) => v,
                None => 0,
            };
            self.set_value(bank, "value", sat_add(cur, KNOB_STEP));
        } else if key == 'j' {
            let cur = match bank.read(self.out_value.get_ref()) {
                Some(v) => v,
                None => 0,
            };
            self.set_value(bank, "value", sat_sub(cur, KNOB_STEP));
        }
    }
}

} // verus!
