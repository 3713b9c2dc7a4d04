//! The ADSR (Attack Decay Sustain Release) envelope generator — the rack's
//! canonical temporal state machine.
//!
//! Driven each tick by a boolean gate (nonzero = active), three durations,
//! a sustain level and the clock's fixed delta. The exact per-tick
//! semantics, including the one-sample bookkeeping quirks of the engine
//! (active time is incremented at the end of every processed tick, and
//! transition ticks output the sustain level), is captured by [`adsr_step`],
//! which the executable [`Adsr::process_inputs`] matches bit for bit.

use vstd::prelude::*;

use crate::clock::Clock;
use crate::fixed::{clamp, clamp_spec, i64_sat, mul_fp, mul_fp_spec, sat_add};
use crate::in_port::InPort;
use crate::out_port::OutPort;
use crate::slots::SlotBank;
use crate::text::{set_port_message, str_eq};
use crate::types::{PortNotFoundError, PortResult, SAMPLE_SCALE};

verus! {

/// Upper clamp on the attack, decay and release durations, in
/// micro-seconds: one million seconds. Durations are untrusted port values;
/// the clamp keeps every internal product inside `i64`.
pub const STAGE_TIME_CAP: i64 = 1_000_000_000_000;

/// Which phase of processing the envelope is in.
#[derive(Debug, Clone, Copy, PartialEq, Eq, Structural)]
pub enum AdsrState {
    /// No note active; output pinned at zero.
    Inactive,
    /// Ramping linearly from 0 toward full amplitude.
    Attack,
    /// Ramping linearly from full amplitude toward the sustain level.
    Decay,
    /// Holding the sustain level while its gate input stays active.
    Sustain,
    /// Ramping linearly from the captured pre-release level toward zero.
    Release,
}

/// The mathematical result of one envelope tick: the successor state
/// variables and the sample written to the output port.
pub struct AdsrStep {
    /// Successor processing phase.
    pub state: AdsrState,
    /// Successor active-time accumulator.
    pub active_time: int,
    /// Successor captured pre-release level.
    pub pre_release: int,
    /// Successor gate trigger time.
    pub trigger_time: int,
    /// The sample written this tick.
    pub out: int,
}

/// The linear ramp fraction `t / dur`, scaled to `SAMPLE_SCALE`.
pub open spec fn ramp_frac(t: int, dur: int) -> int
    recommends
        0 <= t,
        1 <= dur,
{
    t * SAMPLE_SCALE / dur
}

/// The decay interpolation `1 - (t * (1 - sustain)) / dur`, on raw scalars.
pub open spec fn decay_level(t: int, sustain: int, dur: int) -> int
    recommends
        0 <= t,
        0 <= sustain <= SAMPLE_SCALE,
        1 <= dur,
{
    SAMPLE_SCALE - t * (SAMPLE_SCALE - sustain) / dur
}

/// One tick of the envelope state machine, on already-clamped parameters.
///
/// `t` is the active-time accumulator, `pre` the captured pre-release
/// level, `trig` the recorded trigger time, `now` the clock's current time
/// and `delta` its fixed per-tick advance. A tick with the machine inactive
/// with a low gate input touches nothing and outputs hard zero; every other tick
/// advances the machine and increments the accumulator by `delta` at the
/// end, including transition ticks (an accepted one-sample inaccuracy).
/// Transition ticks output the sustain level, the sensible default when a
/// ramp has run out.
pub open spec fn adsr_step(
    state: AdsrState,
    t: int,
    pre: int,
    trig: int,
    gate: bool,
    attack: int,
    decay: int,
    sustain: int,
    release: int,
    delta: int,
    now: int,
) -> AdsrStep {
    if state is Inactive && !gate {
        AdsrStep { state, active_time: t, pre_release: pre, trigger_time: trig, out: 0 }
    } else {
        let step = match state {
            AdsrState::Inactive => (AdsrState::Attack, 0int, pre, now, sustain),
            AdsrState::Attack => if !gate {
                (AdsrState::Release, 0int, ramp_frac(t, attack), trig, sustain)
            } else if t >= attack {
                (AdsrState::Decay, 0int, pre, trig, sustain)
            } else {
                (AdsrState::Attack, t, pre, trig, ramp_frac(t, attack))
            },
            AdsrState::Decay => if !gate {
                (AdsrState::Release, 0int, decay_level(t, sustain, decay), trig, sustain)
            } else if t >= decay {
                (AdsrState::Sustain, 0int, pre, trig, sustain)
            } else {
                (AdsrState::Decay, t, pre, trig, decay_level(t, sustain, decay))
            },
            AdsrState::Sustain => if !gate {
                (AdsrState::Release, 0int, sustain, trig, sustain)
            } else {
                (AdsrState::Sustain, t, pre, trig, sustain)
            },
            AdsrState::Release => if gate {
                (AdsrState::Attack, 0int, pre, trig, sustain)
            } else if t >= release {
                (AdsrState::Inactive, 0int, pre, trig, sustain)
            } else {
                (AdsrState::Release, t, pre, trig,
                    mul_fp_spec(SAMPLE_SCALE - ramp_frac(t, release), pre))
            },
        };
        AdsrStep {
            state: step.0,
            active_time: i64_sat(step.1 + delta),
            pre_release: step.2,
            trigger_time: step.3,
            out: step.4,
        }
    }
}

/// An ADSR envelope generator module.
pub struct Adsr {
    /// A unique string used for identifying the module.
    pub id: String,
    /// Order of the module in the chain; `None` means unscheduled.
    pub order: Option<u64>,
    /// Declared input port ids.
    pub input_ports: Vec<String>,
    /// Declared output port ids.
    pub output_ports: Vec<String>,
    /// The signal which informs the envelope that a note is active.
    pub in_gate: InPort,
    /// The time (seconds) until full amplitude is reached.
    pub in_attack: InPort,
    /// The time (seconds) until the signal decays to the sustain level.
    pub in_decay: InPort,
    /// The amplitude to remain at while a note is held.
    pub in_sustain: InPort,
    /// The time (seconds) for the amplitude to fully decay after release.
    pub in_release: InPort,
    /// The modulated output signal of the envelope generator.
    pub out_signal_out: OutPort,
    /// The time for which a note has been active.
    pub active_time: i64,
    /// The time at which a note was triggered.
    pub gate_trigger_time: i64,
    /// Which phase of processing the envelope is in.
    pub adsr_state: AdsrState,
    /// Signal level captured when its gate input drops, used to transition
    /// smoothly from any state to zero.
    pub pre_release_sig: i64,
}

impl Adsr {
    /// The state variables are in their operating ranges: the accumulator
    /// is nonnegative, and bounded while a ramp may consult it.
    pub open spec fn wf(self) -> bool {
        &&& 0 <= self.active_time
        &&& (self.adsr_state is Attack || self.adsr_state is Decay || self.adsr_state is Release)
            ==> self.active_time <= STAGE_TIME_CAP + SAMPLE_SCALE
    }

    /// Exactly the envelope that [`Adsr::new`] builds under `id` with the
    /// per-tick `delta`, owning the slot at `slot`: unscheduled and
    /// inactive with zeroed state, every input unwired, the durations
    /// defaulting to one tick, its gate input to low and the sustain to
    /// full amplitude.
    pub open spec fn fresh_spec(self, id: Seq<char>, delta: int, slot: int) -> bool {
        &&& self.id@ == id
        &&& self.order is None
        &&& self.adsr_state is Inactive
        &&& self.active_time == 0
        &&& self.gate_trigger_time == 0
        &&& self.pre_release_sig == 0
        &&& self.input_ports@.len() == 5
        &&& self.input_ports@[0]@ == "gate"@
        &&& self.input_ports@[1]@ == "attack"@
        &&& self.input_ports@[2]@ == "decay"@
        &&& self.input_ports@[3]@ == "sustain"@
        &&& self.input_ports@[4]@ == "release"@
        &&& self.output_ports@.len() == 1
        &&& self.output_ports@[0]@ == "signal_out"@
        &&& self.in_gate.label@ == "gate"@
        &&& self.in_gate.link is None
        &&& self.in_gate.low_range == 0
        &&& self.in_gate.up_range == SAMPLE_SCALE
        &&& self.in_gate.default == 0
        &&& self.in_attack.label@ == "attack"@
        &&& self.in_attack.link is None
        &&& self.in_attack.low_range == 0
        &&& self.in_attack.up_range == SAMPLE_SCALE
        &&& self.in_attack.default == delta
        &&& self.in_decay.label@ == "decay"@
        &&& self.in_decay.link is None
        &&& self.in_decay.low_range == 0
        &&& self.in_decay.up_range == SAMPLE_SCALE
        &&& self.in_decay.default == delta
        &&& self.in_sustain.label@ == "sustain"@
        &&& self.in_sustain.link is None
        &&& self.in_sustain.low_range == 0
        &&& self.in_sustain.up_range == SAMPLE_SCALE
        &&& self.in_sustain.default == SAMPLE_SCALE
        &&& self.in_release.label@ == "release"@
        &&& self.in_release.link is None
        &&& self.in_release.low_range == 0
        &&& self.in_release.up_range == SAMPLE_SCALE
        &&& self.in_release.default == delta
        &&& self.out_signal_out.label@ == "signal_out"@
        &&& self.out_signal_out.slot == slot
    }

    /// Create a new, unscheduled envelope. The duration ports default to
    /// one tick (`time_delta`), its gate input to low and the sustain to full
    /// amplitude, as an envelope with all ports unwired should pass the
    /// gate through unshaped.
    pub fn new(id: String, time_delta: i64, bank: &mut SlotBank) -> (r: Adsr)
        ensures
            r.fresh_spec(id@, time_delta as int, old(bank)@.len() as int),
            final(bank)@ == old(bank)@.push(None),
            r.wf(),
    {
        let mut input_ports: Vec<String> = Vec::new();
        input_ports.push("gate".to_owned());
        input_ports.push("attack".to_owned());
        input_ports.push("decay".to_owned());
        input_ports.push("sustain".to_owned());
        input_ports.push("release".to_owned());
        let mut output_ports: Vec<String> = Vec::new();
        output_ports.push("signal_out".to_owned());

        let in_gate = InPort::new("gate".to_owned(), 0, SAMPLE_SCALE, 0);
        let in_attack = InPort::new("attack".to_owned(), 0, SAMPLE_SCALE, time_delta);
        let in_decay = InPort::new("decay".to_owned(), 0, SAMPLE_SCALE, time_delta);
        let in_sustain = InPort::new("sustain".to_owned(), 0, SAMPLE_SCALE, SAMPLE_SCALE);
        let in_release = InPort::new("release".to_owned(), 0, SAMPLE_SCALE, time_delta);
        let out_signal_out = OutPort::new("signal_out".to_owned(), bank);

        Adsr {
            id,
            order: None,
            input_ports,
            output_ports,
            in_gate,
            in_attack,
            in_decay,
            in_sustain,
            in_release,
            out_signal_out,
            active_time: 0,
            gate_trigger_time: 0,
            adsr_state: AdsrState::Inactive,
            pre_release_sig: 0,
        }
    }

    /// Its gate input as read this tick: active exactly when the raw value is
    /// nonzero.
    pub open spec fn gate_active(self, bank: Seq<Option<i64>>) -> bool {
        self.in_gate.resolved_value(bank) != 0
    }

    /// The attack duration read this tick, clamped into its working range.
    pub open spec fn attack_param(self, bank: Seq<Option<i64>>, delta: int) -> int {
        clamp_spec(self.in_attack.resolved_value(bank) as int, delta, STAGE_TIME_CAP as int)
    }

    /// The decay duration read this tick, clamped into its working range.
    pub open spec fn decay_param(self, bank: Seq<Option<i64>>, delta: int) -> int {
        clamp_spec(self.in_decay.resolved_value(bank) as int, delta, STAGE_TIME_CAP as int)
    }

    /// The sustain level read this tick, clamped into `[0, 1.0]`.
    pub open spec fn sustain_param(self, bank: Seq<Option<i64>>) -> int {
        clamp_spec(self.in_sustain.resolved_value(bank) as int, 0, SAMPLE_SCALE as int)
    }

    /// The release duration read this tick, clamped into its working range.
    pub open spec fn release_param(self, bank: Seq<Option<i64>>, delta: int) -> int {
        clamp_spec(self.in_release.resolved_value(bank) as int, delta, STAGE_TIME_CAP as int)
    }

    /// The spec-level result of processing this envelope one tick against
    /// the given bank contents and clock.
    pub open spec fn step_spec(self, bank: Seq<Option<i64>>, delta: int, now: int) -> AdsrStep {
        adsr_step(
            self.adsr_state,
            self.active_time as int,
            self.pre_release_sig as int,
            self.gate_trigger_time as int,
            self.gate_active(bank),
            self.attack_param(bank, delta),
            self.decay_param(bank, delta),
            self.sustain_param(bank),
            self.release_param(bank, delta),
            delta,
            now,
        )
    }

    /// Read all declared inputs, advance the envelope one tick and write
    /// the declared output — exactly the machine described by
    /// [`adsr_step`].
    pub fn process_inputs(&mut self, bank: &mut SlotBank, clock: &Clock)
        requires
            old(self).wf(),
            clock.wf(),
            old(self).out_signal_out.slot < old(bank)@.len(),
        ensures
            ({
                let st = old(self).step_spec(old(bank)@, clock.time_delta as int,
                    clock.time as int);
                &&& final(self).adsr_state == st.state
                &&& final(self).active_time == st.active_time
                &&& final(self).pre_release_sig == st.pre_release
                &&& final(self).gate_trigger_time == st.trigger_time
                &&& final(bank)@ == old(bank)@.update(old(self).out_signal_out.slot as int,
                    Some(st.out as i64))
                &&& -0x8000_0000_0000_0000 <= st.out <= 0x7fff_ffff_ffff_ffff
            }),
            final(self).id == old(self).id,
            final(self).order == old(self).order,
            final(self).input_ports == old(self).input_ports,
            final(self).output_ports == old(self).output_ports,
            final(self).in_gate == old(self).in_gate,
            final(self).in_attack == old(self).in_attack,
            final(self).in_decay == old(self).in_decay,
            final(self).in_sustain == old(self).in_sustain,
            final(self).in_release == old(self).in_release,
            final(self).out_signal_out == old(self).out_signal_out,
            final(self).wf(),
    {
        let delta = clock.time_delta;
        let gate_active = self.in_gate.get_value(bank) != 0;

        if matches!(self.adsr_state, AdsrState::Inactive) && !gate_active {
            self.out_signal_out.set_value(bank, 0);
        } else {
            let attack = clamp(self.in_attack.get_value(bank), delta, STAGE_TIME_CAP);
            let decay = clamp(self.in_decay.get_value(bank), delta, STAGE_TIME_CAP);
            let sustain = clamp(self.in_sustain.get_value(bank), 0, SAMPLE_SCALE);
            let release = clamp(self.in_release.get_value(bank), delta, STAGE_TIME_CAP);

            // This makes sense as a default value, in case a ramp has run out.
            let mut signal_out: i64 = sustain;
            let mut base_time: i64 = self.active_time;

            match self.adsr_state {
                AdsrState::Inactive => {
                    // gate is known active here
                    self.gate_trigger_time = clock.get_time_ref();
                    base_time = 0;
                    self.adsr_state = AdsrState::Attack;
                },
                AdsrState::Attack => {
                    if !gate_active {
                        self.pre_release_sig = ramp_frac_fp(self.active_time, attack);
                        base_time = 0;
                        self.adsr_state = AdsrState::Release;
                    } else if self.active_time >= attack {
                        base_time = 0;
                        self.adsr_state = AdsrState::Decay;
                    } else {
                        // Gradually increase amplitude to max
                        signal_out = ramp_frac_fp(self.active_time, attack);
                    }
                },
                AdsrState::Decay => {
                    if !gate_active {
                        self.pre_release_sig = decay_level_fp(self.active_time, sustain, decay);
                        base_time = 0;
                        self.adsr_state = AdsrState::Release;
                    } else if self.active_time >= decay {
                        base_time = 0;
                        self.adsr_state = AdsrState::Sustain;
                    } else {
                        // Decay toward the sustain amplitude
                        signal_out = decay_level_fp(self.active_time, sustain, decay);
                    }
                },
                AdsrState::Sustain => {
                    if !gate_active {
                        self.pre_release_sig = sustain;
                        base_time = 0;
                        self.adsr_state = AdsrState::Release;
                    }
                },
                AdsrState::Release => {
                    if gate_active {
                        base_time = 0;
                        self.adsr_state = AdsrState::Attack;
                    } else if self.active_time >= release {
                        base_time = 0;
                        self.adsr_state = AdsrState::Inactive;
                    } else {
                        // Decay toward zero from the captured level
                        signal_out = mul_fp(
                            SAMPLE_SCALE - ramp_frac_fp(self.active_time, release),
                            self.pre_release_sig,
                        );
                    }
                },
            }

            // Incrementing here, after the transition bookkeeping, loses at
            // most one sample of accuracy and keeps every ramp division
            // away from zero.
            self.active_time = sat_add(base_time, delta);

            self.out_signal_out.set_value(bank, signal_out);
        }
    }
}

impl Adsr {
    /// Whether `pid` names one of the declared input ports.
    pub open spec fn declares_input(self, pid: Seq<char>) -> bool {
        ||| pid == "gate"@
        ||| pid == "attack"@
        ||| pid == "decay"@
        ||| pid == "sustain"@
        ||| pid == "release"@
    }

    /// The module's unique id.
    pub fn get_id(&self) -> (r: &String)
        ensures
            r@ == self.id@,
    {
        &self.id
    }

    /// The declared input port ids.
    pub fn get_in_ports(&self) -> (r: &Vec<String>)
        ensures
            *r == self.input_ports,
    {
        &self.input_ports
    }

    /// The declared output port ids.
    pub fn get_out_ports(&self) -> (r: &Vec<String>)
        ensures
            *r == self.output_ports,
    {
        &self.output_ports
    }

    /// Membership test for a declared input port id, used defensively
    /// before wiring.
    pub fn has_port_with_id(&self, port_id: &str) -> (r: bool)
        ensures
            r == self.declares_input(port_id@),
    {
        str_eq(port_id, "gate") || str_eq(port_id, "attack") || str_eq(port_id, "decay")
            || str_eq(port_id, "sustain") || str_eq(port_id, "release")
    }

    /// Look up a declared output port; an undeclared id yields `None`.
    pub fn get_out_port_ref(&self, port_id: &str) -> (r: Option<&OutPort>)
        ensures
            match r {
                Some(p) => port_id@ == "signal_out"@ && *p == self.out_signal_out,
                None => port_id@ != "signal_out"@,
            },
    {
        if str_eq(port_id, "signal_out") {
            Some(&self.out_signal_out)
        } else {
            None
        }
    }

    /// Bind the named input to an upstream slot reference, replacing any
    /// prior wiring on that input. An undeclared port id fails with
    /// `PortNotFoundError` and changes nothing.
    pub fn set_in_port(&mut self, port_id: &str, source: Option<usize>) -> (r: PortResult<String>)
        ensures
            r is Ok <==> old(self).declares_input(port_id@),
            r is Err ==> *final(self) == *old(self) && r == Err::<String,
                PortNotFoundError>(PortNotFoundError),
            port_id@ == "gate"@ ==> *final(self) == (Adsr {
                in_gate: InPort { link: source, ..old(self).in_gate },
                ..*old(self)
            }),
            port_id@ == "attack"@ ==> *final(self) == (Adsr {
                in_attack: InPort { link: source, ..old(self).in_attack },
                ..*old(self)
            }),
            port_id@ == "decay"@ ==> *final(self) == (Adsr {
                in_decay: InPort { link: source, ..old(self).in_decay },
                ..*old(self)
            }),
            port_id@ == "sustain"@ ==> *final(self) == (Adsr {
                in_sustain: InPort { link: source, ..old(self).in_sustain },
                ..*old(self)
            }),
            port_id@ == "release"@ ==> *final(self) == (Adsr {
                in_release: InPort { link: source, ..old(self).in_release },
                ..*old(self)
            }),
    {
        proof {
            reveal_strlit("gate");
            reveal_strlit("attack");
            reveal_strlit("decay");
            reveal_strlit("sustain");
            reveal_strlit("release");
            // "sustain" and "release" have equal length; point at a
            // differing character so the two views are known distinct.
            assert("sustain"@[0] == 's' && "release"@[0] == 'r');
            assert("sustain"@ != "release"@);
        }
        if str_eq(port_id, "gate") {
            self.in_gate.set_value(source);
        } else if str_eq(port_id, "attack") {
            self.in_attack.set_value(source);
        } else if str_eq(port_id, "decay") {
            self.in_decay.set_value(source);
        } else if str_eq(port_id, "sustain") {
            self.in_sustain.set_value(source);
        } else if str_eq(port_id, "release") {
            self.in_release.set_value(source);
        } else {
            return Err(PortNotFoundError);
        }
        Ok(set_port_message(&self.id, port_id))
    }

    /// The module's scheduling position; `None` means unscheduled.
    pub fn get_module_order(&self) -> (r: Option<u64>)
        ensures
            r == self.order,
    {
        self.order
    }

    /// Assign or clear the module's scheduling position.
    pub fn set_module_order(&mut self, new_order: Option<u64>)
        ensures
            *final(self) == (Adsr { order: new_order, ..*old(self) }),
    {
        self.order = new_order;
    }
}

/// With its gate input held high in Attack, the ramp never decreases with time.
pub proof fn lemma_attack_ramp_monotone(t1: int, t2: int, attack: int)
    requires
        0 <= t1 <= t2,
        1 <= attack,
    ensures
        ramp_frac(t1, attack) <= ramp_frac(t2, attack),
{
    assert(t1 * SAMPLE_SCALE <= t2 * SAMPLE_SCALE) by (nonlinear_arith)
        requires
            t1 <= t2,
    ;
    vstd::arithmetic::div_mod::lemma_div_is_ordered(
        t1 * SAMPLE_SCALE,
        t2 * SAMPLE_SCALE,
        attack,
    );
}

/// With its gate input held high in Decay, the interpolated level never increases
/// with time.
pub proof fn lemma_decay_level_monotone(t1: int, t2: int, sustain: int, decay: int)
    requires
        0 <= t1 <= t2,
        0 <= sustain <= SAMPLE_SCALE,
        1 <= decay,
    ensures
        decay_level(t2, sustain, decay) <= decay_level(t1, sustain, decay),
{
    assert(t1 * (SAMPLE_SCALE - sustain) <= t2 * (SAMPLE_SCALE - sustain)) by (nonlinear_arith)
        requires
            t1 <= t2,
            0 <= SAMPLE_SCALE - sustain,
    ;
    vstd::arithmetic::div_mod::lemma_div_is_ordered(
        t1 * (SAMPLE_SCALE - sustain),
        t2 * (SAMPLE_SCALE - sustain),
        decay,
    );
}

/// While its gate input stays low in Release, the decayed level never
/// increases with time (for a nonnegative captured level).
pub proof fn lemma_release_level_monotone(t1: int, t2: int, release: int, pre: int)
    requires
        0 <= t1 <= t2,
        1 <= release,
        0 <= pre,
    ensures
        mul_fp_spec(SAMPLE_SCALE - ramp_frac(t2, release), pre) <= mul_fp_spec(
            SAMPLE_SCALE - ramp_frac(t1, release),
            pre,
        ),
{
    lemma_attack_ramp_monotone(t1, t2, release);
    crate::fixed::lemma_mul_fp_monotone(
        SAMPLE_SCALE - ramp_frac(t1, release),
        SAMPLE_SCALE - ramp_frac(t2, release),
        pre,
    );
}

/// Reasserting a gate mid-release re-enters Attack with the active time
/// reset, so the new ramp restarts from the bottom.
pub proof fn lemma_retrigger_restarts_attack(
    t: int,
    pre: int,
    trig: int,
    attack: int,
    decay: int,
    sustain: int,
    release: int,
    delta: int,
    now: int,
)
    ensures
        adsr_step(AdsrState::Release, t, pre, trig, true, attack, decay, sustain, release,
            delta, now).state is Attack,
        adsr_step(AdsrState::Release, t, pre, trig, true, attack, decay, sustain, release,
            delta, now).active_time == i64_sat(delta),
{
}

/// The attack ramp is independent of the captured pre-release level: a
/// retriggered envelope does not resume from the interrupted level.
pub proof fn lemma_attack_ignores_release_level(
    t: int,
    pre1: int,
    pre2: int,
    trig: int,
    gate: bool,
    attack: int,
    decay: int,
    sustain: int,
    release: int,
    delta: int,
    now: int,
)
    ensures
        adsr_step(AdsrState::Attack, t, pre1, trig, gate, attack, decay, sustain, release,
            delta, now).out == adsr_step(AdsrState::Attack, t, pre2, trig, gate, attack,
            decay, sustain, release, delta, now).out,
{
}

/// The linear ramp fraction `t / dur` scaled to `SAMPLE_SCALE`, in
/// executable arithmetic.
fn ramp_frac_fp(t: i64, dur: i64) -> (r: i64)
    requires
        0 <= t <= STAGE_TIME_CAP + SAMPLE_SCALE,
        1 <= dur,
    ensures
        r == ramp_frac(t as int, dur as int),
        0 <= r,
{
    proof {
        assert(0 <= t * SAMPLE_SCALE <= 1_000_001_000_000_000_000) by (nonlinear_arith)
            requires
                0 <= t <= 1_000_001_000_000,
        ;
    }
    let num: u64 = (t as u64) * (SAMPLE_SCALE as u64);
    let q: u64 = num / (dur as u64);
    proof {
        assert(num as int / dur as int <= num as int) by (nonlinear_arith)
            requires
                1 <= dur as int,
                0 <= num as int,
        ;
    }
    q as i64
}

/// The decay interpolation `1 - (t * (1 - sustain)) / dur` on raw scalars,
/// in executable arithmetic.
fn decay_level_fp(t: i64, sustain: i64, dur: i64) -> (r: i64)
    requires
        0 <= t <= STAGE_TIME_CAP + SAMPLE_SCALE,
        0 <= sustain <= SAMPLE_SCALE,
        1 <= dur,
    ensures
        r == decay_level(t as int, sustain as int, dur as int),
{
    proof {
        assert(t * (SAMPLE_SCALE - sustain) <= (STAGE_TIME_CAP + SAMPLE_SCALE) * SAMPLE_SCALE
            && 0 <= t * (SAMPLE_SCALE - sustain)) by (nonlinear_arith)
            requires
                0 <= t <= STAGE_TIME_CAP + SAMPLE_SCALE,
                0 <= SAMPLE_SCALE - sustain <= SAMPLE_SCALE,
        ;
    }
    let num: u64 = (t as u64) * ((SAMPLE_SCALE - sustain) as u64);
    let q: u64 = num / (dur as u64);
    proof {
        assert(num as int / dur as int <= num as int) by (nonlinear_arith)
            requires
                1 <= dur as int,
                0 <= num as int,
        ;
    }
    SAMPLE_SCALE - (q as i64)
}

} // verus!
