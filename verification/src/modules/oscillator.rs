//! A sine oscillator module with a continuous phase accumulator.
//!
//! The oscillator keeps its own running phase, advanced each tick from the
//! frequency input alone — never derived from absolute clock time — so a
//! clock wraparound causes no discontinuity in its output.

use vstd::prelude::*;

use crate::clock::Clock;
use crate::fixed::{clamp, clamp_spec, mul_fp, mul_fp_spec};
use crate::in_port::InPort;
use crate::out_port::OutPort;
use crate::sine::sine_wave;
use crate::sine::sine_fp;
use crate::slots::SlotBank;
use crate::text::{set_port_message, str_eq};
use crate::types::{PortNotFoundError, PortResult, SAMPLE_RATE, SAMPLE_SCALE};

verus! {

/// Upper clamp on the frequency input, in raw scalar units: 20 kHz.
pub const FREQ_CAP: i64 = 20_000_000_000;

/// The phase advance per tick for a given raw frequency: the frequency is
/// clamped into its declared range `[0, 20 kHz]`, and one cycle spans
/// `SAMPLE_SCALE` micro-periods, so the advance is `freq / SAMPLE_RATE`
/// micro-periods.
pub open spec fn phase_step(freq: int) -> int {
    clamp_spec(freq, 0, FREQ_CAP as int) / (SAMPLE_RATE as int)
}

/// The successor phase: advance and wrap within one cycle.
pub open spec fn next_phase(phase: int, freq: int) -> int {
    (phase + phase_step(freq)) % (SAMPLE_SCALE as int)
}

/// A generative module producing a continuous-phase sine wave.
pub struct Oscillator {
    /// A unique string used for identifying the module.
    pub id: String,
    /// Order of the module in the chain; `None` means unscheduled.
    pub order: Option<u64>,
    /// Declared input port ids.
    pub input_ports: Vec<String>,
    /// Declared output port ids.
    pub output_ports: Vec<String>,
    /// Output amplitude.
    pub in_amp: InPort,
    /// Frequency, in raw scalar Hz.
    pub in_freq: InPort,
    /// The generated signal.
    pub out_audio_out: OutPort,
    /// The running phase accumulator, in micro-periods.
    pub phase: i64,
}

impl Oscillator {
    /// The phase accumulator stays within one cycle.
    pub open spec fn wf(self) -> bool {
        0 <= self.phase < SAMPLE_SCALE
    }

    /// Whether `pid` names one of the declared input ports.
    pub open spec fn declares_input(self, pid: Seq<char>) -> bool {
        pid == "amp"@ || pid == "freq"@
    }

    /// Exactly the oscillator that [`Oscillator::new`] builds under `id`,
    /// owning the slot at `slot`: unscheduled, phase at zero, both inputs
    /// unwired with the amplitude defaulting to `0.5` and the frequency
    /// to 1 kHz.
    pub open spec fn fresh_spec(self, id: Seq<char>, slot: int) -> bool {
        &&& self.id@ == id
        &&& self.order is None
        &&& self.phase == 0
        &&& self.input_ports@.len() == 2
        &&& self.input_ports@[0]@ == "amp"@
        &&& self.input_ports@[1]@ == "freq"@
        &&& self.output_ports@.len() == 1
        &&& self.output_ports@[0]@ == "audio_out"@
        &&& self.in_amp.label@ == "amp"@
        &&& self.in_amp.link is None
        &&& self.in_amp.low_range == 0
        &&& self.in_amp.up_range == SAMPLE_SCALE
        &&& self.in_amp.default == SAMPLE_SCALE / 2
        &&& self.in_freq.label@ == "freq"@
        &&& self.in_freq.link is None
        &&& self.in_freq.low_range == 0
        &&& self.in_freq.up_range == FREQ_CAP
        &&& self.in_freq.default == 1000 * SAMPLE_SCALE
        &&& self.out_audio_out.label@ == "audio_out"@
        &&& self.out_audio_out.slot == slot
    }

    /// Create a new, unscheduled oscillator. The amplitude defaults to
    /// `0.5` and the frequency to 1 kHz.
    pub fn new(id: String, bank: &mut SlotBank) -> (r: Oscillator)
        ensures
            r.fresh_spec(id@, old(bank)@.len() as int),
            final(bank)@ == old(bank)@.push(None),
            r.wf(),
    {
        let mut input_ports: Vec<String> = Vec::new();
        input_ports.push("amp".to_owned());
        input_ports.push("freq".to_owned());
        let mut output_ports: Vec<String> = Vec::new();
        output_ports.push("audio_out".to_owned());

        let in_amp = InPort::new("amp".to_owned(), 0, SAMPLE_SCALE, SAMPLE_SCALE / 2);
        let in_freq = InPort::new("freq".to_owned(), 0, FREQ_CAP, 1000 * SAMPLE_SCALE);
        let out_audio_out = OutPort::new("audio_out".to_owned(), bank);

        Oscillator {
            id,
            order: None,
            input_ports,
            output_ports,
            in_amp,
            in_freq,
            out_audio_out,
            phase: 0,
        }
    }

    /// Advance the phase from the frequency input and write `amp *
    /// sine(phase)`. The clock plays no part: phase continuity is immune
    /// to clock wraparound.
    pub fn process_inputs(&mut self, bank: &mut SlotBank, _clock: &Clock)
        requires
            old(self).wf(),
            old(self).out_audio_out.slot < old(bank)@.len(),
        ensures
            ({
                let p = next_phase(old(self).phase as int,
                    old(self).in_freq.resolved_value(old(bank)@) as int);
                let out = mul_fp_spec(old(self).in_amp.resolved_value(old(bank)@) as int,
                    sine_wave(p));
                &&& final(self).phase == p
                &&& final(bank)@ == old(bank)@.update(old(self).out_audio_out.slot as int,
                    Some(out as i64))
            }),
            *final(self) == (Oscillator { phase: final(self).phase, ..*old(self) }),
            final(self).wf(),
    {
        let amp = self.in_amp.get_value(bank);
        let freq = self.in_freq.get_value(bank);

        let step: i64 = (clamp(freq, 0, FREQ_CAP) as u64 / (SAMPLE_RATE as u64)) as i64;
        self.phase = ((self.phase + step) as u64 % (SAMPLE_SCALE as u64)) as i64;

        let audio_out = mul_fp(amp, sine_fp(self.phase));
        self.out_audio_out.set_value(bank, audio_out);
    }

    /// The module's unique id.
    pub fn get_id(&self) -> (r: &String)
        ensures
            r@ == self.id@,
    {
        &self.id
    }

    /// The declared input port ids.
    pub fn get_in_ports(&self) -> (r: &Vec<String>)
        ensures
            *r == self.input_ports,
    {
        &self.input_ports
    }

    /// The declared output port ids.
    pub fn get_out_ports(&self) -> (r: &Vec<String>)
        ensures
            *r == self.output_ports,
    {
        &self.output_ports
    }

    /// Membership test for a declared input port id.
    pub fn has_port_with_id(&self, port_id: &str) -> (r: bool)
        ensures
            r == self.declares_input(port_id@),
    {
        str_eq(port_id, "amp") || str_eq(port_id, "freq")
    }

    /// Look up a declared output port; an undeclared id yields `None`.
    pub fn get_out_port_ref(&self, port_id: &str) -> (r: Option<&OutPort>)
        ensures
            match r {
                Some(p) => port_id@ == "audio_out"@ && *p == self.out_audio_out,
                None => port_id@ != "audio_out"@,
            },
    {
        if str_eq(port_id, "audio_out") {
            Some(&self.out_audio_out)
        } else {
            None
        }
    }

    /// Bind the named input to an upstream slot reference; an undeclared
    /// port id fails with `PortNotFoundError` and changes nothing.
    pub fn set_in_port(&mut self, port_id: &str, source: Option<usize>) -> (r: PortResult<String>)
        ensures
            r is Ok <==> old(self).declares_input(port_id@),
            r is Err ==> *final(self) == *old(self) && r == Err::<String,
                PortNotFoundError>(PortNotFoundError),
            port_id@ == "amp"@ ==> *final(self) == (Oscillator {
                in_amp: InPort { link: source, ..old(self).in_amp },
                ..*old(self)
            }),
            port_id@ == "freq"@ ==> *final(self) == (Oscillator {
                in_freq: InPort { link: source, ..old(self).in_freq },
                ..*old(self)
            }),
    {
        proof {
            reveal_strlit("amp");
            reveal_strlit("freq");
        }
        if str_eq(port_id, "amp") {
            self.in_amp.set_value(source);
        } else if str_eq(port_id, "freq") {
            self.in_freq.set_value(source);
        } else {
            return Err(PortNotFoundError);
        }
        Ok(set_port_message(&self.id, port_id))
    }

    /// The module's scheduling position; `None` means unscheduled.
    pub fn get_module_order(&self) -> (r: Option<u64>)
        ensures
            r == self.order,
    {
        self.order
    }

    /// Assign or clear the module's scheduling position.
    pub fn set_module_order(&mut self, new_order: Option<u64>)
        ensures
            *final(self) == (Oscillator { order: new_order, ..*old(self) }),
    {
        self.order = new_order;
    }
}

/// The phase accumulator always lands back inside one cycle.
pub proof fn lemma_next_phase_in_range(phase: int, freq: int)
    requires
        0 <= phase < SAMPLE_SCALE,
    ensures
        0 <= next_phase(phase, freq) < SAMPLE_SCALE,
{
}

} // verus!
