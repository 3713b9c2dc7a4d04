//! The egress module: an exit point from a rack, e.g. for audio output.
//!
//! Each tick it reads its single input and hands the sample to the caller,
//! who forwards it into the bounded queue feeding the audio backend. The
//! module itself owns no output slot.

use vstd::prelude::*;

use crate::in_port::InPort;
use crate::out_port::OutPort;
use crate::slots::SlotBank;
use crate::text::{set_port_message, str_eq};
use crate::types::{PortNotFoundError, PortResult};

verus! {

/// An exit point from a rack: each tick it emits the value of its
/// `signal_in` port as one sample.
pub struct Output {
    /// A unique string used for identifying the module.
    pub id: String,
    /// Order of the module in the chain; `None` means unscheduled.
    pub order: Option<u64>,
    /// Declared input port ids.
    pub input_ports: Vec<String>,
    /// Declared output port ids.
    pub output_ports: Vec<String>,
    /// The signal to emit.
    pub in_signal_in: InPort,
}

impl Output {
    /// Whether `pid` names the declared input port.
    pub open spec fn declares_input(self, pid: Seq<char>) -> bool {
        pid == "signal_in"@
    }

    /// Create a new, unscheduled output stage. The input defaults to
    /// silence.
    pub fn new(id: String) -> (r: Output)
        ensures
            r.id == id,
            r.order is None,
            r.in_signal_in.link is None && r.in_signal_in.default == 0,
            r.input_ports@.len() == 1 && r.output_ports@.len() == 1,
            r.input_ports@[0]@ == "signal_in"@,
            r.output_ports@[0]@ == "signal_out"@,
    {
        let mut input_ports: Vec<String> = Vec::new();
        input_ports.push("signal_in".to_owned());
        let mut output_ports: Vec<String> = Vec::new();
        output_ports.push("signal_out".to_owned());

        let in_signal_in = InPort::new("signal_in".to_owned(), -1_000_000, 1_000_000, 0);

        Output { id, order: None, input_ports, output_ports, in_signal_in }
    }

    /// Read the input and emit it as this tick's sample.
    pub fn process_inputs(&mut self, bank: &SlotBank) -> (r: i64)
        ensures
            *final(self) == *old(self),
            r == old(self).in_signal_in.resolved_value(bank@),
    {
        self.in_signal_in.get_value(bank)
    }

    /// The module's unique id.
    pub fn get_id(&self) -> (r: &String)
        ensures
            r@ == self.id@,
    {
        &self.id
    }

    /// The declared input port ids.
    pub fn get_in_ports(&self) -> (r: &Vec<String>)
        ensures
            *r == self.input_ports,
    {
        &self.input_ports
    }

    /// The declared output port ids.
    pub fn get_out_ports(&self) -> (r: &Vec<String>)
        ensures
            *r == self.output_ports,
    {
        &self.output_ports
    }

    /// Membership test for a declared input port id.
    pub fn has_port_with_id(&self, port_id: &str) -> (r: bool)
        ensures
            r == self.declares_input(port_id@),
    {
        str_eq(port_id, "signal_in")
    }

    /// The output stage exposes no output ports; every lookup yields
    /// `None`.
    pub fn get_out_port_ref(&self, _port_id: &str) -> (r: Option<&OutPort>)
        ensures
            r is None,
    {
        None
    }

    /// Bind the named input to an upstream slot reference; an undeclared
    /// port id fails with `PortNotFoundError` and changes nothing.
    pub fn set_in_port(&mut self, port_id: &str, source: Option<usize>) -> (r: PortResult<String>)
        ensures
            r is Ok <==> old(self).declares_input(port_id@),
            r is Err ==> *final(self) == *old(self) && r == Err::<String,
                PortNotFoundError>(PortNotFoundError),
            port_id@ == "signal_in"@ ==> *final(self) == (Output {
                in_signal_in: InPort { link: source, ..old(self).in_signal_in },
                ..*old(self)
            }),
    {
        if str_eq(port_id, "signal_in") {
            self.in_signal_in.set_value(source);
        } else {
            return Err(PortNotFoundError);
        }
        Ok(set_port_message(&self.id, port_id))
    }

    /// The module's scheduling position; `None` means unscheduled.
    pub fn get_module_order(&self) -> (r: Option<u64>)
        ensures
            r == self.order,
    {
        self.order
    }

    /// Assign or clear the module's scheduling position.
    pub fn set_module_order(&mut self, new_order: Option<u64>)
        ensures
            *final(self) == (Output { order: new_order, ..*old(self) }),
    {
        self.order = new_order;
    }
}

} // verus!
