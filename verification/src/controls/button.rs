//! A button control: a gate signal toggled by key presses.

use vstd::prelude::*;

use crate::out_port::OutPort;
use crate::slots::SlotBank;
use crate::text::str_eq;
use crate::types::SAMPLE_SCALE;

verus! {

/// A control producing a binary gate on its `gate` port.
pub struct Button {
    /// A unique string used for identifying the control.
    pub id: String,
    /// The control's gate output.
    pub out_gate: OutPort,
}

impl Button {
    /// Exactly the button that [`Button::new`] builds under `id`, owning
    /// the slot at `slot`.
    pub open spec fn fresh_spec(self, id: Seq<char>, slot: int) -> bool {
        &&& self.id@ == id
        &&& self.out_gate.label@ == "gate"@
        &&& self.out_gate.slot == slot
    }

    /// Create a new button whose port owns a fresh slot of `bank`.
    pub fn new(id: String, bank: &mut SlotBank) -> (r: Button)
        ensures
            r.fresh_spec(id@, old(bank)@.len() as int),
            final(bank)@ == old(bank)@.push(None),
    {
        let out_gate = OutPort::new("gate".to_owned(), bank);
        Button { id, out_gate }
    }

    /// A reference to the named output port's slot; an undeclared id
    /// yields `None`.
    pub fn get_port_reference(&self, port_id: &str) -> (r: Option<usize>)
        ensures
            r == if port_id@ == "gate"@ {
                Some(self.out_gate.slot)
            } else {
                None::<usize>
            },
    {
        if str_eq(port_id, "gate") {
            Some(self.out_gate.get_ref())
        } else {
            None
        }
    }

    /// Set its gate output: any positive value latches it to `1.0`, anything
    /// else to `0`. A write to an undeclared port does nothing.
    pub fn set_value(&self, bank: &mut SlotBank, port_id: &str, new_value: i64)
        requires
            self.out_gate.slot < old(bank)@.len(),
        ensures
            final(bank)@ == if port_id@ == "gate"@ {
                old(bank)@.update(self.out_gate.slot as int,
                    Some(if new_value > 0 { SAMPLE_SCALE } else { 0i64 }))
            } else {
                old(bank)@
            },
    {
        if str_eq(port_id, "gate") {
            if new_value > 0 {
                self.out_gate.set_value(bank, SAMPLE_SCALE);
            } else {
                self.out_gate.set_value(bank, 0);
            }
        }
    }

    /// Handle a control key: the spacebar toggles its gate output between on and
    /// off; anything else is ignored. An empty slot toggles to on.
    pub fn recv_control_key(&self, bank: &mut SlotBank, key: char)
        requires
            self.out_gate.slot < old(bank)@.len(),
        ensures
            ({
                let slot = self.out_gate.slot as int;
                let cur = if old(bank)@[slot] is Some {
                    old(bank)@[slot].unwrap() as int
                } else {
                    0
                };
                if key == ' ' {
                    final(bank)@ == old(bank)@.update(slot,
                        Some(if cur > 0 { 0i64 } else { SAMPLE_SCALE }))
                } else {
                    final(bank)@ == old(bank)@
                }
            }),
    {
        if key == ' ' {
            let cur = match bank.read(self.out_gate.get_ref()) {
                Some(v) => v,
                None => 0,
            };
            if cur > 0 {
                self.set_value(bank, "gate", 0);
            } else {
                self.set_value(bank, "gate", 1);
            }
        }
    }
}

} // verus!
