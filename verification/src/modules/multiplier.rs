//! A module which multiplies its two input signals and outputs the result.

use vstd::prelude::*;

use crate::clock::Clock;
use crate::fixed::{mul_fp, mul_fp_spec};
use crate::in_port::InPort;
use crate::out_port::OutPort;
use crate::slots::SlotBank;
use crate::text::{set_port_message, str_eq};
use crate::types::{PortNotFoundError, PortResult};

verus! {

/// A pure-combinational module: each tick it writes the fixed-point
/// product of its two inputs.
pub struct Multiplier {
    /// A unique string used for identifying the module.
    pub id: String,
    /// Order of the module in the chain; `None` means unscheduled.
    pub order: Option<u64>,
    /// Declared input port ids.
    pub input_ports: Vec<String>,
    /// Declared output port ids.
    pub output_ports: Vec<String>,
    /// First factor.
    pub in_a: InPort,
    /// Second factor.
    pub in_b: InPort,
    /// The product of the two inputs.
    pub out_mult: OutPort,
}

impl Multiplier {
    /// Whether `pid` names one of the declared input ports.
    pub open spec fn declares_input(self, pid: Seq<char>) -> bool {
        pid == "a"@ || pid == "b"@
    }

    /// Create a new, unscheduled multiplier. Both inputs default to zero.
    pub fn new(id: String, bank: &mut SlotBank) -> (r: Multiplier)
        ensures
            r.id == id,
            r.order is None,
            r.in_a.link is None && r.in_a.default == 0,
            r.in_b.link is None && r.in_b.default == 0,
            r.out_mult.slot == old(bank)@.len(),
            final(bank)@ == old(bank)@.push(None),
            r.input_ports@.len() == 2 && r.output_ports@.len() == 1,
            r.input_ports@[0]@ == "a"@,
            r.input_ports@[1]@ == "b"@,
            r.output_ports@[0]@ == "result"@,
    {
        let mut input_ports: Vec<String> = Vec::new();
        input_ports.push("a".to_owned());
        input_ports.push("b".to_owned());
        let mut output_ports: Vec<String> = Vec::new();
        output_ports.push("result".to_owned());

        let in_a = InPort::new("a".to_owned(), i64::MIN, i64::MAX, 0);
        let in_b = InPort::new("b".to_owned(), i64::MIN, i64::MAX, 0);
        let out_mult = OutPort::new("mult".to_owned(), bank);

        Multiplier { id, order: None, input_ports, output_ports, in_a, in_b, out_mult }
    }

    /// Read both inputs and write their fixed-point product.
    pub fn process_inputs(&mut self, bank: &mut SlotBank, _clock: &Clock)
        requires
            old(self).out_mult.slot < old(bank)@.len(),
        ensures
            *final(self) == *old(self),
            final(bank)@ == old(bank)@.update(
                old(self).out_mult.slot as int,
                Some(mul_fp_spec(
                    old(self).in_a.resolved_value(old(bank)@) as int,
                    old(self).in_b.resolved_value(old(bank)@) as int,
                ) as i64),
            ),
    {
        let a = self.in_a.get_value(bank);
        let b = self.in_b.get_value(bank);
        let mult = mul_fp(a, b);
        self.out_mult.set_value(bank, mult);
    }

    /// The module's unique id.
    pub fn get_id(&self) -> (r: &String)
        ensures
            r@ == self.id@,
    {
        &self.id
    }

    /// The declared input port ids.
    pub fn get_in_ports(&self) -> (r: &Vec<String>)
        ensures
            *r == self.input_ports,
    {
        &self.input_ports
    }

    /// The declared output port ids.
    pub fn get_out_ports(&self) -> (r: &Vec<String>)
        ensures
            *r == self.output_ports,
    {
        &self.output_ports
    }

    /// Membership test for a declared input port id.
    pub fn has_port_with_id(&self, port_id: &str) -> (r: bool)
        ensures
            r == self.declares_input(port_id@),
    {
        str_eq(port_id, "a") || str_eq(port_id, "b")
    }

    /// Look up a declared output port; an undeclared id yields `None`.
    /// The port is addressed by its cataloged name `result`, though the
    /// port's own label reads `mult`.
    pub fn get_out_port_ref(&self, port_id: &str) -> (r: Option<&OutPort>)
        ensures
            match r {
                Some(p) => port_id@ == "result"@ && *p == self.out_mult,
                None => port_id@ != "result"@,
            },
    {
        if str_eq(port_id, "result") {
            Some(&self.out_mult)
        } else {
            None
        }
    }

    /// Bind the named input to an upstream slot reference; an undeclared
    /// port id fails with `PortNotFoundError` and changes nothing.
    pub fn set_in_port(&mut self, port_id: &str, source: Option<usize>) -> (r: PortResult<String>)
        ensures
            r is Ok <==> old(self).declares_input(port_id@),
            r is Err ==> *final(self) == *old(self) && r == Err::<String,
                PortNotFoundError>(PortNotFoundError),
            port_id@ == "a"@ ==> *final(self) == (Multiplier {
                in_a: InPort { link: source, ..old(self).in_a },
                ..*old(self)
            }),
            port_id@ == "b"@ ==> *final(self) == (Multiplier {
                in_b: InPort { link: source, ..old(self).in_b },
                ..*old(self)
            }),
    {
        proof {
            reveal_strlit("a");
            reveal_strlit("b");
            // "a" and "b" have equal length; point at the differing
            // character so the two views are known distinct.
            assert("a"@[0] == 'a' && "b"@[0] == 'b');
            assert("a"@ != "b"@);
        }
        if str_eq(port_id, "a") {
            self.in_a.set_value(source);
        } else if str_eq(port_id, "b") {
            self.in_b.set_value(source);
        } else {
            return Err(PortNotFoundError);
        }
        Ok(set_port_message(&self.id, port_id))
    }

    /// The module's scheduling position; `None` means unscheduled.
    pub fn get_module_order(&self) -> (r: Option<u64>)
        ensures
            r == self.order,
    {
        self.order
    }

    /// Assign or clear the module's scheduling position.
    pub fn set_module_order(&mut self, new_order: Option<u64>)
        ensures
            *final(self) == (Multiplier { order: new_order, ..*old(self) }),
    {
        self.order = new_order;
    }
}

} // verus!
