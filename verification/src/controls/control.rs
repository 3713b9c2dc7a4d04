//! The closed catalog of controls, as one tagged dispatch type.
//!
//! In a rack, controls are a special kind of unit: they are never
//! scheduled, because they are driven concurrently by external events and
//! take no input from other modules.

use vstd::prelude::*;

use crate::controls::basic_keyboard::{key_pitch, BasicKeyboard};
use crate::controls::button::Button;
use crate::controls::control_knob::{ControlKnob, KNOB_STEP};
use crate::fixed::i64_sat;
use crate::slots::SlotBank;
use crate::types::SAMPLE_SCALE;

verus! {

/// An externally-driven, unordered signal source.
pub enum Control {
    /// A freely settable scalar knob.
    Knob(ControlKnob),
    /// A binary gate button.
    Button(Button),
    /// A musical keyboard with gate, pitch and velocity.
    Keyboard(BasicKeyboard),
}

impl Control {
    /// The control's unique id.
    pub open spec fn id_spec(self) -> Seq<char> {
        match self {
            Control::Knob(c) => c.id@,
            Control::Button(c) => c.id@,
            Control::Keyboard(c) => c.id@,
        }
    }

    /// Whether every slot the control owns lies within the bank.
    pub open spec fn slots_in(self, bank: Seq<Option<i64>>) -> bool {
        match self {
            Control::Knob(c) => c.out_value.slot < bank.len(),
            Control::Button(c) => c.out_gate.slot < bank.len(),
            Control::Keyboard(c) => c.slots_in(bank),
        }
    }

    /// The slot behind the named output port, if declared.
    pub open spec fn port_ref_spec(self, pid: Seq<char>) -> Option<usize> {
        match self {
            Control::Knob(c) => if pid == "value"@ {
                Some(c.out_value.slot)
            } else {
                None
            },
            Control::Button(c) => if pid == "gate"@ {
                Some(c.out_gate.slot)
            } else {
                None
            },
            Control::Keyboard(c) => if pid == "gate"@ {
                Some(c.out_gate.slot)
            } else if pid == "pitch"@ {
                Some(c.out_pitch.slot)
            } else if pid == "velocity"@ {
                Some(c.out_velocity.slot)
            } else {
                None
            },
        }
    }

    /// The bank contents after setting the named port to `v`.
    pub open spec fn set_effect(self, bank: Seq<Option<i64>>, pid: Seq<char>, v: i64) -> Seq<
        Option<i64>,
    > {
        match self {
            Control::Knob(c) => if pid == "value"@ {
                bank.update(c.out_value.slot as int, Some(v))
            } else {
                bank
            },
            Control::Button(c) => if pid == "gate"@ {
                bank.update(c.out_gate.slot as int, Some(if v > 0 { SAMPLE_SCALE as i64 } else { 0i64 }))
            } else {
                bank
            },
            Control::Keyboard(c) => if pid == "gate"@ {
                bank.update(c.out_gate.slot as int, Some(v))
            } else if pid == "pitch"@ {
                bank.update(c.out_pitch.slot as int, Some(v))
            } else if pid == "velocity"@ {
                bank.update(c.out_velocity.slot as int, Some(v))
            } else {
                bank
            },
        }
    }

    /// The bank contents after the control handles the key `key`.
    pub open spec fn key_effect(self, bank: Seq<Option<i64>>, key: char) -> Seq<Option<i64>> {
        match self {
            Control::Knob(c) => {
                let slot = c.out_value.slot as int;
                let cur = if bank[slot] is Some {
                    bank[slot].unwrap() as int
                } else {
                    0
                };
                if key == 'k' {
                    bank.update(slot, Some(i64_sat(cur + KNOB_STEP) as i64))
                } else if key == 'j' {
                    bank.update(slot, Some(i64_sat(cur - KNOB_STEP) as i64))
                } else {
                    bank
                }
            },
            Control::Button(c) => {
                let slot = c.out_gate.slot as int;
                let cur = if bank[slot] is Some {
                    bank[slot].unwrap() as int
                } else {
                    0
                };
                if key == ' ' {
                    bank.update(slot, Some(if cur > 0 { 0i64 } else { SAMPLE_SCALE as i64 }))
                } else {
                    bank
                }
            },
            Control::Keyboard(c) => if key_pitch(key) is Some {
                bank.update(c.out_pitch.slot as int, Some(key_pitch(key).unwrap() as i64))
            } else if key == ' ' {
                bank.update(c.out_gate.slot as int, Some(SAMPLE_SCALE as i64))
            } else if key == '*' {
                bank.update(c.out_gate.slot as int, Some(0i64))
            } else {
                bank
            },
        }
    }

    /// The control's unique id.
    pub fn get_id(&self) -> (r: &String)
        ensures
            r@ == self.id_spec(),
    {
        match self {
            Control::Knob(c) => &c.id,
            Control::Button(c) => &c.id,
            Control::Keyboard(c) => &c.id,
        }
    }

    /// A reference to the named output port's slot; an undeclared id
    /// yields `None`.
    pub fn get_port_reference(&self, port_id: &str) -> (r: Option<usize>)
        ensures
            r == self.port_ref_spec(port_id@),
    {
        match self {
            Control::Knob(c) => c.get_port_reference(port_id),
            Control::Button(c) => c.get_port_reference(port_id),
            Control::Keyboard(c) => c.get_port_reference(port_id),
        }
    }

    /// Set the named output value; a write to an undeclared port does
    /// nothing.
    pub fn set_value(&self, bank: &mut SlotBank, port_id: &str, new_value: i64)
        requires
            self.slots_in(old(bank)@),
        ensures
            final(bank)@ == self.set_effect(old(bank)@, port_id@, new_value),
    {
        match self {
            Control::Knob(c) => c.set_value(bank, port_id, new_value),
            Control::Button(c) => c.set_value(bank, port_id, new_value),
            Control::Keyboard(c) => c.set_value(bank, port_id, new_value),
        }
    }

    /// Handle a control key, updating the control's outputs accordingly
    /// (somewhat akin to a module's processing function).
    pub fn recv_control_key(&self, bank: &mut SlotBank, key: char)
        requires
            self.slots_in(old(bank)@),
        ensures
            final(bank)@ == self.key_effect(old(bank)@, key),
    {
        match self {
            Control::Knob(c) => c.recv_control_key(bank, key),
            Control::Button(c) => c.recv_control_key(bank, key),
            Control::Keyboard(c) => c.recv_control_key(bank, key),
        }
    }
}

} // verus!
