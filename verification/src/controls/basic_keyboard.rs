//! A basic musical keyboard control: gate, pitch and velocity outputs
//! driven by key presses.

use vstd::prelude::*;

use crate::out_port::OutPort;
use crate::slots::SlotBank;
use crate::text::str_eq;
use crate::types::SAMPLE_SCALE;

verus! {

/// The pitch (in raw scalar Hz) that a key press produces, or `None` for
/// keys that carry no pitch. The mapped keys cover one octave upward from
/// A4 at concert pitch; the keys past F sharp are left unassigned (zero).
pub open spec fn key_pitch(key: char) -> Option<int> {
    if key == 'a' {
        Some(440_000_000int)
    } else if key == 'w' {
        Some(466_160_000int)
    } else if key == 's' {
        Some(493_880_000int)
    } else if key == 'd' {
        Some(523_250_000int)
    } else if key == 'r' {
        Some(554_370_000int)
    } else if key == 'f' {
        Some(587_330_000int)
    } else if key == 't' {
        Some(622_250_000int)
    } else if key == 'g' {
        Some(659_260_000int)
    } else if key == 'h' {
        Some(698_460_000int)
    } else if key == 'u' || key == 'j' || key == 'i' || key == 'k' || key == 'o' || key == 'l'
        || key == ';' {
        Some(0int)
    } else {
        None
    }
}

/// A control producing `gate`, `pitch` and `velocity` signals from key
/// events.
pub struct BasicKeyboard {
    /// A unique string used for identifying the control.
    pub id: String,
    /// A gate signal communicating when a note is activated and released.
    pub out_gate: OutPort,
    /// The pitch of the pressed note.
    pub out_pitch: OutPort,
    /// Output velocity.
    pub out_velocity: OutPort,
}

impl BasicKeyboard {
    /// Exactly the keyboard that [`BasicKeyboard::new`] builds under
    /// `id`, owning the three slots from `slot` on.
    pub open spec fn fresh_spec(self, id: Seq<char>, slot: int) -> bool {
        &&& self.id@ == id
        &&& self.out_gate.label@ == "gate"@
        &&& self.out_gate.slot == slot
        &&& self.out_pitch.label@ == "pitch"@
        &&& self.out_pitch.slot == slot + 1
        &&& self.out_velocity.label@ == "velocity"@
        &&& self.out_velocity.slot == slot + 2
    }

    /// Create a new keyboard whose three ports own fresh slots of `bank`.
    pub fn new(id: String, bank: &mut SlotBank) -> (r: BasicKeyboard)
        ensures
            r.fresh_spec(id@, old(bank)@.len() as int),
            final(bank)@ == old(bank)@.push(None).push(None).push(None),
    {
        let out_gate = OutPort::new("gate".to_owned(), bank);
        let out_pitch = OutPort::new("pitch".to_owned(), bank);
        let out_velocity = OutPort::new("velocity".to_owned(), bank);
        BasicKeyboard { id, out_gate, out_pitch, out_velocity }
    }

    /// Whether the keyboard's slots all lie within the bank.
    pub open spec fn slots_in(self, bank: Seq<Option<i64>>) -> bool {
        &&& self.out_gate.slot < bank.len()
        &&& self.out_pitch.slot < bank.len()
        &&& self.out_velocity.slot < bank.len()
    }

    /// A reference to the named output port's slot; an undeclared id
    /// yields `None`.
    pub fn get_port_reference(&self, port_id: &str) -> (r: Option<usize>)
        ensures
            r == if port_id@ == "gate"@ {
                Some(self.out_gate.slot)
            } else if port_id@ == "pitch"@ {
                Some(self.out_pitch.slot)
            } else if port_id@ == "velocity"@ {
                Some(self.out_velocity.slot)
            } else {
                None::<usize>
            },
    {
        if str_eq(port_id, "gate") {
            Some(self.out_gate.get_ref())
        } else if str_eq(port_id, "pitch") {
            Some(self.out_pitch.get_ref())
        } else if str_eq(port_id, "velocity") {
            Some(self.out_velocity.get_ref())
        } else {
            None
        }
    }

    /// Set the named output directly; a write to an undeclared port does
    /// nothing.
    pub fn set_value(&self, bank: &mut SlotBank, port_id: &str, new_value: i64)
        requires
            self.slots_in(old(bank)@),
        ensures
            final(bank)@ == if port_id@ == "gate"@ {
                old(bank)@.update(self.out_gate.slot as int, Some(new_value))
            } else if port_id@ == "pitch"@ {
                old(bank)@.update(self.out_pitch.slot as int, Some(new_value))
            } else if port_id@ == "velocity"@ {
                old(bank)@.update(self.out_velocity.slot as int, Some(new_value))
            } else {
                old(bank)@
            },
    {
        proof {
            reveal_strlit("gate");
            reveal_strlit("pitch");
            reveal_strlit("velocity");
        }
        if str_eq(port_id, "gate") {
            self.out_gate.set_value(bank, new_value);
        } else if str_eq(port_id, "pitch") {
            self.out_pitch.set_value(bank, new_value);
        } else if str_eq(port_id, "velocity") {
            self.out_velocity.set_value(bank, new_value);
        }
    }

    /// Handle a control key: note keys write their pitch, the spacebar
    /// drives its gate output high, `*` drops it; anything else is ignored.
    pub fn recv_control_key(&self, bank: &mut SlotBank, key: char)
        requires
            self.slots_in(old(bank)@),
        ensures
            final(bank)@ == if key_pitch(key) is Some {
                old(bank)@.update(self.out_pitch.slot as int,
                    Some(key_pitch(key).unwrap() as i64))
            } else if key == ' ' {
                old(bank)@.update(self.out_gate.slot as int, Some(SAMPLE_SCALE))
            } else if key == '*' {
                old(bank)@.update(self.out_gate.slot as int, Some(0i64))
            } else {
                old(bank)@
            },
    {
        proof {
            reveal_strlit("gate");
            reveal_strlit("pitch");
            reveal_strlit("velocity");
            // Spell the lengths out so the three port names are known
            // pairwise distinct.
            assert("gate"@.len() == 4 && "pitch"@.len() == 5 && "velocity"@.len() == 8);
        }
        match key {
            'a' => self.set_value(bank, "pitch", 440_000_000),
            'w' => self.set_value(bank, "pitch", 466_160_000),
            's' => self.set_value(bank, "pitch", 493_880_000),
            'd' => self.set_value(bank, "pitch", 523_250_000),
            'r' => self.set_value(bank, "pitch", 554_370_000),
            'f' => self.set_value(bank, "pitch", 587_330_000),
            't' => self.set_value(bank, "pitch", 622_250_000),
            'g' => self.set_value(bank, "pitch", 659_260_000),
            'h' => self.set_value(bank, "pitch", 698_460_000),
            'u' | 'j' | 'i' | 'k' | 'o' | 'l' | ';' => self.set_value(bank, "pitch", 0),
            ' ' => self.set_value(bank, "gate", SAMPLE_SCALE),
            '*' => self.set_value(bank, "gate", 0),
            _ => {},
        }
    }
}

} // verus!
