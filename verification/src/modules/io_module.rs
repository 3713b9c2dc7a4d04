//! The closed catalog of scheduled modules, as one tagged dispatch type.
//!
//! Every scheduled unit obeys the same contract: a stable id, declared
//! input and output port catalogs, an optional scheduling position, and a
//! per-tick `process_inputs` that reads its declared inputs, computes, and
//! writes its declared outputs, touching nothing else. [`IoModule::step_result`]
//! is the mathematical form of that contract, one case per module kind.

use vstd::prelude::*;

use crate::clock::Clock;
use crate::fixed::{i64_sat, mul_fp_spec, rem_fp_spec};
use crate::in_port::InPort;
use crate::modules::adder::Adder;
use crate::modules::adsr::Adsr;
use crate::modules::modulo::Modulo;
use crate::modules::multiplier::Multiplier;
use crate::modules::oscillator::{next_phase, Oscillator};
use crate::modules::output::Output;
use crate::out_port::OutPort;
use crate::sine::sine_wave;
use crate::slots::SlotBank;
use crate::types::{PortNotFoundError, PortResult};

verus! {

/// A scheduled processing unit of the rack.
pub enum IoModule {
    /// Sum of two inputs.
    Adder(Adder),
    /// Product of two inputs.
    Multiplier(Multiplier),
    /// Remainder of one input by another.
    Modulo(Modulo),
    /// Continuous-phase sine generator.
    Oscillator(Oscillator),
    /// ADSR envelope generator.
    Adsr(Adsr),
    /// Egress stage emitting one sample per tick.
    Output(Output),
}

impl IoModule {
    /// The module's unique id.
    pub open spec fn id_spec(self) -> Seq<char> {
        match self {
            IoModule::Adder(m) => m.id@,
            IoModule::Multiplier(m) => m.id@,
            IoModule::Modulo(m) => m.id@,
            IoModule::Oscillator(m) => m.id@,
            IoModule::Adsr(m) => m.id@,
            IoModule::Output(m) => m.id@,
        }
    }

    /// The module's scheduling position; `None` means unscheduled.
    pub open spec fn order_spec(self) -> Option<u64> {
        match self {
            IoModule::Adder(m) => m.order,
            IoModule::Multiplier(m) => m.order,
            IoModule::Modulo(m) => m.order,
            IoModule::Oscillator(m) => m.order,
            IoModule::Adsr(m) => m.order,
            IoModule::Output(m) => m.order,
        }
    }

    /// The module's private state is in its operating range.
    pub open spec fn wf(self) -> bool {
        match self {
            IoModule::Oscillator(m) => m.wf(),
            IoModule::Adsr(m) => m.wf(),
            _ => true,
        }
    }

    /// Every output slot the module owns lies within the bank.
    pub open spec fn slots_in(self, bank: Seq<Option<i64>>) -> bool {
        match self {
            IoModule::Adder(m) => m.out_sum.slot < bank.len(),
            IoModule::Multiplier(m) => m.out_mult.slot < bank.len(),
            IoModule::Modulo(m) => m.out_mod.slot < bank.len(),
            IoModule::Oscillator(m) => m.out_audio_out.slot < bank.len(),
            IoModule::Adsr(m) => m.out_signal_out.slot < bank.len(),
            IoModule::Output(_) => true,
        }
    }

    /// Whether `pid` names one of the module's declared input ports.
    pub open spec fn declares_input_spec(self, pid: Seq<char>) -> bool {
        match self {
            IoModule::Adder(m) => m.declares_input(pid),
            IoModule::Multiplier(m) => m.declares_input(pid),
            IoModule::Modulo(m) => m.declares_input(pid),
            IoModule::Oscillator(m) => m.declares_input(pid),
            IoModule::Adsr(m) => m.declares_input(pid),
            IoModule::Output(m) => m.declares_input(pid),
        }
    }

    /// The output port behind the given id, if declared.
    pub open spec fn out_port_spec(self, pid: Seq<char>) -> Option<OutPort> {
        match self {
            IoModule::Adder(m) => if pid == "sum"@ {
                Some(m.out_sum)
            } else {
                None
            },
            IoModule::Multiplier(m) => if pid == "result"@ {
                Some(m.out_mult)
            } else {
                None
            },
            IoModule::Modulo(m) => if pid == "result"@ {
                Some(m.out_mod)
            } else {
                None
            },
            IoModule::Oscillator(m) => if pid == "audio_out"@ {
                Some(m.out_audio_out)
            } else {
                None
            },
            IoModule::Adsr(m) => if pid == "signal_out"@ {
                Some(m.out_signal_out)
            } else {
                None
            },
            IoModule::Output(_) => None,
        }
    }

    /// The module with the named input rewired to `source`, or `None` for
    /// an undeclared port id.
    pub open spec fn relinked(self, pid: Seq<char>, source: Option<usize>) -> Option<IoModule> {
        match self {
            IoModule::Adder(m) => if pid == "a"@ {
                Some(IoModule::Adder(Adder { in_a: InPort { link: source, ..m.in_a }, ..m }))
            } else if pid == "b"@ {
                Some(IoModule::Adder(Adder { in_b: InPort { link: source, ..m.in_b }, ..m }))
            } else {
                None
            },
            IoModule::Multiplier(m) => if pid == "a"@ {
                Some(IoModule::Multiplier(Multiplier {
                    in_a: InPort { link: source, ..m.in_a },
                    ..m
                }))
            } else if pid == "b"@ {
                Some(IoModule::Multiplier(Multiplier {
                    in_b: InPort { link: source, ..m.in_b },
                    ..m
                }))
            } else {
                None
            },
            IoModule::Modulo(m) => if pid == "a"@ {
                Some(IoModule::Modulo(Modulo { in_a: InPort { link: source, ..m.in_a }, ..m }))
            } else if pid == "b"@ {
                Some(IoModule::Modulo(Modulo { in_b: InPort { link: source, ..m.in_b }, ..m }))
            } else {
                None
            },
            IoModule::Oscillator(m) => if pid == "amp"@ {
                Some(IoModule::Oscillator(Oscillator {
                    in_amp: InPort { link: source, ..m.in_amp },
                    ..m
                }))
            } else if pid == "freq"@ {
                Some(IoModule::Oscillator(Oscillator {
                    in_freq: InPort { link: source, ..m.in_freq },
                    ..m
                }))
            } else {
                None
            },
            IoModule::Adsr(m) => if pid == "gate"@ {
                Some(IoModule::Adsr(Adsr { in_gate: InPort { link: source, ..m.in_gate }, ..m }))
            } else if pid == "attack"@ {
                Some(IoModule::Adsr(Adsr {
                    in_attack: InPort { link: source, ..m.in_attack },
                    ..m
                }))
            } else if pid == "decay"@ {
                Some(IoModule::Adsr(Adsr {
                    in_decay: InPort { link: source, ..m.in_decay },
                    ..m
                }))
            } else if pid == "sustain"@ {
                Some(IoModule::Adsr(Adsr {
                    in_sustain: InPort { link: source, ..m.in_sustain },
                    ..m
                }))
            } else if pid == "release"@ {
                Some(IoModule::Adsr(Adsr {
                    in_release: InPort { link: source, ..m.in_release },
                    ..m
                }))
            } else {
                None
            },
            IoModule::Output(m) => if pid == "signal_in"@ {
                Some(IoModule::Output(Output {
                    in_signal_in: InPort { link: source, ..m.in_signal_in },
                    ..m
                }))
            } else {
                None
            },
        }
    }

    /// The module with its scheduling position replaced.
    pub open spec fn with_order(self, new_order: Option<u64>) -> IoModule {
        match self {
            IoModule::Adder(m) => IoModule::Adder(Adder { order: new_order, ..m }),
            IoModule::Multiplier(m) => IoModule::Multiplier(Multiplier { order: new_order, ..m }),
            IoModule::Modulo(m) => IoModule::Modulo(Modulo { order: new_order, ..m }),
            IoModule::Oscillator(m) => IoModule::Oscillator(Oscillator { order: new_order, ..m }),
            IoModule::Adsr(m) => IoModule::Adsr(Adsr { order: new_order, ..m }),
            IoModule::Output(m) => IoModule::Output(Output { order: new_order, ..m }),
        }
    }

    /// The mathematical effect of one processing tick: the successor
    /// module, the successor bank contents, and the sample emitted (by the
    /// egress stage alone).
    pub open spec fn step_result(self, bank: Seq<Option<i64>>, delta: int, now: int) -> (
        IoModule,
        Seq<Option<i64>>,
        Option<i64>,
    ) {
        match self {
            IoModule::Adder(m) => (
                self,
                bank.update(
                    m.out_sum.slot as int,
                    Some(i64_sat(
                        m.in_a.resolved_value(bank) + m.in_b.resolved_value(bank),
                    ) as i64),
                ),
                None,
            ),
            IoModule::Multiplier(m) => (
                self,
                bank.update(
                    m.out_mult.slot as int,
                    Some(mul_fp_spec(
                        m.in_a.resolved_value(bank) as int,
                        m.in_b.resolved_value(bank) as int,
                    ) as i64),
                ),
                None,
            ),
            IoModule::Modulo(m) => (
                self,
                bank.update(
                    m.out_mod.slot as int,
                    Some(rem_fp_spec(
                        m.in_a.resolved_value(bank) as int,
                        m.in_b.resolved_value(bank) as int,
                    ) as i64),
                ),
                None,
            ),
            IoModule::Oscillator(m) => {
                let p = next_phase(m.phase as int, m.in_freq.resolved_value(bank) as int);
                let out = mul_fp_spec(m.in_amp.resolved_value(bank) as int, sine_wave(p));
                (
                    IoModule::Oscillator(Oscillator { phase: p as i64, ..m }),
                    bank.update(m.out_audio_out.slot as int, Some(out as i64)),
                    None,
                )
            },
            IoModule::Adsr(m) => {
                let st = m.step_spec(bank, delta, now);
                (
                    IoModule::Adsr(Adsr {
                        adsr_state: st.state,
                        active_time: st.active_time as i64,
                        pre_release_sig: st.pre_release as i64,
                        gate_trigger_time: st.trigger_time as i64,
                        ..m
                    }),
                    bank.update(m.out_signal_out.slot as int, Some(st.out as i64)),
                    None,
                )
            },
            IoModule::Output(m) => (self, bank, Some(m.in_signal_in.resolved_value(bank))),
        }
    }

    /// Calculate the module's outputs from its inputs: exactly one
    /// [`IoModule::step_result`] step.
    pub fn process_inputs(&mut self, bank: &mut SlotBank, clock: &Clock) -> (r: Option<i64>)
        requires
            old(self).wf(),
            old(self).slots_in(old(bank)@),
            clock.wf(),
        ensures
            ({
                let step = old(self).step_result(old(bank)@, clock.time_delta as int,
                    clock.time as int);
                &&& *final(self) == step.0
                &&& final(bank)@ == step.1
                &&& r == step.2
            }),
            final(self).wf(),
            final(bank)@.len() == old(bank)@.len(),
    {
        match self {
            IoModule::Adder(m) => {
                m.process_inputs(bank, clock);
                None
            },
            IoModule::Multiplier(m) => {
                m.process_inputs(bank, clock);
                None
            },
            IoModule::Modulo(m) => {
                m.process_inputs(bank, clock);
                None
            },
            IoModule::Oscillator(m) => {
                m.process_inputs(bank, clock);
                None
            },
            IoModule::Adsr(m) => {
                m.process_inputs(bank, clock);
                None
            },
            IoModule::Output(m) => Some(m.process_inputs(&*bank)),
        }
    }

    /// The module's unique id.
    pub fn get_id(&self) -> (r: &String)
        ensures
            r@ == self.id_spec(),
    {
        match self {
            IoModule::Adder(m) => m.get_id(),
            IoModule::Multiplier(m) => m.get_id(),
            IoModule::Modulo(m) => m.get_id(),
            IoModule::Oscillator(m) => m.get_id(),
            IoModule::Adsr(m) => m.get_id(),
            IoModule::Output(m) => m.get_id(),
        }
    }

    /// The declared input port ids, as a sequence.
    pub open spec fn in_ports_spec(self) -> Seq<String> {
        match self {
            IoModule::Adder(m) => m.input_ports@,
            IoModule::Multiplier(m) => m.input_ports@,
            IoModule::Modulo(m) => m.input_ports@,
            IoModule::Oscillator(m) => m.input_ports@,
            IoModule::Adsr(m) => m.input_ports@,
            IoModule::Output(m) => m.input_ports@,
        }
    }

    /// The declared output port ids, as a sequence.
    pub open spec fn out_ports_spec(self) -> Seq<String> {
        match self {
            IoModule::Adder(m) => m.output_ports@,
            IoModule::Multiplier(m) => m.output_ports@,
            IoModule::Modulo(m) => m.output_ports@,
            IoModule::Oscillator(m) => m.output_ports@,
            IoModule::Adsr(m) => m.output_ports@,
            IoModule::Output(m) => m.output_ports@,
        }
    }

    /// The declared input port ids.
    pub fn get_in_ports(&self) -> (r: &Vec<String>)
        ensures
            r@ == self.in_ports_spec(),
    {
        match self {
            IoModule::Adder(m) => m.get_in_ports(),
            IoModule::Multiplier(m) => m.get_in_ports(),
            IoModule::Modulo(m) => m.get_in_ports(),
            IoModule::Oscillator(m) => m.get_in_ports(),
            IoModule::Adsr(m) => m.get_in_ports(),
            IoModule::Output(m) => m.get_in_ports(),
        }
    }

    /// The declared output port ids.
    pub fn get_out_ports(&self) -> (r: &Vec<String>)
        ensures
            r@ == self.out_ports_spec(),
    {
        match self {
            IoModule::Adder(m) => m.get_out_ports(),
            IoModule::Multiplier(m) => m.get_out_ports(),
            IoModule::Modulo(m) => m.get_out_ports(),
            IoModule::Oscillator(m) => m.get_out_ports(),
            IoModule::Adsr(m) => m.get_out_ports(),
            IoModule::Output(m) => m.get_out_ports(),
        }
    }

    /// Membership test for a declared input port id, used defensively
    /// before wiring.
    pub fn has_port_with_id(&self, port_id: &str) -> (r: bool)
        ensures
            r == self.declares_input_spec(port_id@),
    {
        match self {
            IoModule::Adder(m) => m.has_port_with_id(port_id),
            IoModule::Multiplier(m) => m.has_port_with_id(port_id),
            IoModule::Modulo(m) => m.has_port_with_id(port_id),
            IoModule::Oscillator(m) => m.has_port_with_id(port_id),
            IoModule::Adsr(m) => m.has_port_with_id(port_id),
            IoModule::Output(m) => m.has_port_with_id(port_id),
        }
    }

    /// Look up a declared output port; an undeclared id yields `None`.
    pub fn get_out_port_ref(&self, port_id: &str) -> (r: Option<&OutPort>)
        ensures
            match r {
                Some(p) => self.out_port_spec(port_id@) == Some(*p),
                None => self.out_port_spec(port_id@) is None,
            },
    {
        match self {
            IoModule::Adder(m) => m.get_out_port_ref(port_id),
            IoModule::Multiplier(m) => m.get_out_port_ref(port_id),
            IoModule::Modulo(m) => m.get_out_port_ref(port_id),
            IoModule::Oscillator(m) => m.get_out_port_ref(port_id),
            IoModule::Adsr(m) => m.get_out_port_ref(port_id),
            IoModule::Output(m) => m.get_out_port_ref(port_id),
        }
    }

    /// Bind the named input to an upstream slot reference; an undeclared
    /// port id fails with `PortNotFoundError` and changes nothing.
    pub fn set_in_port(&mut self, port_id: &str, source: Option<usize>) -> (r: PortResult<String>)
        ensures
            r is Ok <==> old(self).relinked(port_id@, source) is Some,
            r is Ok ==> *final(self) == old(self).relinked(port_id@, source).unwrap(),
            r is Err ==> *final(self) == *old(self) && r == Err::<String,
                PortNotFoundError>(PortNotFoundError),
    {
        match self {
            IoModule::Adder(m) => m.set_in_port(port_id, source),
            IoModule::Multiplier(m) => m.set_in_port(port_id, source),
            IoModule::Modulo(m) => m.set_in_port(port_id, source),
            IoModule::Oscillator(m) => m.set_in_port(port_id, source),
            IoModule::Adsr(m) => m.set_in_port(port_id, source),
            IoModule::Output(m) => m.set_in_port(port_id, source),
        }
    }

    /// The module's scheduling position; `None` means unscheduled.
    pub fn get_module_order(&self) -> (r: Option<u64>)
        ensures
            r == self.order_spec(),
    {
        match self {
            IoModule::Adder(m) => m.get_module_order(),
            IoModule::Multiplier(m) => m.get_module_order(),
            IoModule::Modulo(m) => m.get_module_order(),
            IoModule::Oscillator(m) => m.get_module_order(),
            IoModule::Adsr(m) => m.get_module_order(),
            IoModule::Output(m) => m.get_module_order(),
        }
    }

    /// Assign or clear the module's scheduling position.
    pub fn set_module_order(&mut self, new_order: Option<u64>)
        ensures
            *final(self) == old(self).with_order(new_order),
    {
        match self {
            IoModule::Adder(m) => m.set_module_order(new_order),
            IoModule::Multiplier(m) => m.set_module_order(new_order),
            IoModule::Modulo(m) => m.set_module_order(new_order),
            IoModule::Oscillator(m) => m.set_module_order(new_order),
            IoModule::Adsr(m) => m.set_module_order(new_order),
            IoModule::Output(m) => m.set_module_order(new_order),
        }
    }
}

/// Rewiring an input changes neither a module's id, its scheduling
/// position, its private state nor its output slots.
pub proof fn lemma_relinked_preserves(
    m: IoModule,
    pid: Seq<char>,
    source: Option<usize>,
    bank: Seq<Option<i64>>,
)
    requires
        m.relinked(pid, source) is Some,
    ensures
        m.relinked(pid, source).unwrap().id_spec() == m.id_spec(),
        m.relinked(pid, source).unwrap().order_spec() == m.order_spec(),
        m.relinked(pid, source).unwrap().wf() == m.wf(),
        m.relinked(pid, source).unwrap().slots_in(bank) == m.slots_in(bank),
{
}

/// A module declares an input exactly when rewiring it succeeds.
pub proof fn lemma_declares_iff_relinked(m: IoModule, pid: Seq<char>, source: Option<usize>)
    ensures
        m.declares_input_spec(pid) <==> m.relinked(pid, source) is Some,
{
}

/// Reassigning the scheduling position changes nothing else.
pub proof fn lemma_with_order_preserves(
    m: IoModule,
    new_order: Option<u64>,
    bank: Seq<Option<i64>>,
)
    ensures
        m.with_order(new_order).id_spec() == m.id_spec(),
        m.with_order(new_order).order_spec() == new_order,
        m.with_order(new_order).wf() == m.wf(),
        m.with_order(new_order).slots_in(bank) == m.slots_in(bank),
{
}

/// One processing step never changes a module's id, its scheduling
/// position, its port catalog or the bank's length, and only the module's
/// own output slots change.
pub proof fn lemma_step_preserves_identity(m: IoModule, bank: Seq<Option<i64>>, delta: int, now: int)
    requires
        m.slots_in(bank),
    ensures
        m.step_result(bank, delta, now).0.id_spec() == m.id_spec(),
        m.step_result(bank, delta, now).0.order_spec() == m.order_spec(),
        m.step_result(bank, delta, now).1.len() == bank.len(),
        forall|i: int|
            0 <= i < bank.len() && m.step_result(bank, delta, now).1[i] != bank[i]
                ==> m.out_port_owns(i),
{
}

impl IoModule {
    /// Whether one of this module's input ports is wired to slot `s`.
    pub open spec fn reads_slot(self, s: usize) -> bool {
        match self {
            IoModule::Adder(m) => m.in_a.link == Some(s) || m.in_b.link == Some(s),
            IoModule::Multiplier(m) => m.in_a.link == Some(s) || m.in_b.link == Some(s),
            IoModule::Modulo(m) => m.in_a.link == Some(s) || m.in_b.link == Some(s),
            IoModule::Oscillator(m) => m.in_amp.link == Some(s) || m.in_freq.link == Some(s),
            IoModule::Adsr(m) => m.in_gate.link == Some(s) || m.in_attack.link == Some(s)
                || m.in_decay.link == Some(s) || m.in_sustain.link == Some(s)
                || m.in_release.link == Some(s),
            IoModule::Output(m) => m.in_signal_in.link == Some(s),
        }
    }

    /// Whether slot `i` is owned by one of this module's output ports.
    pub open spec fn out_port_owns(self, i: int) -> bool {
        match self {
            IoModule::Adder(m) => i == m.out_sum.slot,
            IoModule::Multiplier(m) => i == m.out_mult.slot,
            IoModule::Modulo(m) => i == m.out_mod.slot,
            IoModule::Oscillator(m) => i == m.out_audio_out.slot,
            IoModule::Adsr(m) => i == m.out_signal_out.slot,
            IoModule::Output(_) => false,
        }
    }
}

} // verus!
