//! Input ports: the resolving, never-failing reading end of the wiring.

use vstd::prelude::*;

use crate::slots::SlotBank;

verus! {

/// An input port: an id label, an informational (non-enforced) value range,
/// a default scalar, and at most one non-owning reference to an output
/// port's slot. Reading always produces a value — an unresolved or
/// never-wired reference yields the default; it never fails.
pub struct InPort {
    /// The port's id label.
    pub label: String,
    /// Index of the upstream slot, if wired.
    pub link: Option<usize>,
    /// Suggested lower bound on the port's value; readers are free to
    /// ignore it.
    pub low_range: i64,
    /// Suggested upper bound on the port's value; readers are free to
    /// ignore it.
    pub up_range: i64,
    /// The value produced while the reference does not resolve.
    pub default: i64,
}

impl InPort {
    /// The value this port produces against the given bank contents: the
    /// linked slot's value when the link resolves to a filled slot, the
    /// configured default otherwise.
    pub open spec fn resolved_value(self, bank: Seq<Option<i64>>) -> i64 {
        match self.link {
            Some(idx) => if idx < bank.len() && bank[idx as int] is Some {
                bank[idx as int].unwrap()
            } else {
                self.default
            },
            None => self.default,
        }
    }

    /// Create an unwired port.
    pub fn new(label: String, low_range: i64, up_range: i64, default: i64) -> (r: InPort)
        ensures
            r == (InPort { label, link: None, low_range, up_range, default }),
    {
        InPort { label, link: None, low_range, up_range, default }
    }

    /// The port's id label.
    pub fn get_label(&self) -> (r: &str)
        ensures
            r@ == self.label@,
    {
        self.label.as_str()
    }

    /// Replace the port's id label.
    pub fn set_label(&mut self, new_label: String)
        ensures
            *final(self) == (InPort { label: new_label, ..*old(self) }),
    {
        self.label = new_label;
    }

    /// Resolve the reference: a live, filled slot yields its contents; an
    /// empty slot, an out-of-range reference or a never-wired port yields
    /// the configured default. Never fails, never blocks.
    pub fn get_value(&self, bank: &SlotBank) -> (r: i64)
        ensures
            r == self.resolved_value(bank@),
    {
        match self.link {
            Some(idx) => match bank.read(idx) {
                Some(v) => v,
                None => self.default,
            },
            None => self.default,
        }
    }

    /// Replace the port's wiring unconditionally — at most one upstream per
    /// input, last write wins. `None` leaves the port reading its default.
    pub fn set_value(&mut self, source: Option<usize>)
        ensures
            *final(self) == (InPort { link: source, ..*old(self) }),
    {
        self.link = source;
    }

    /// An input port that holds no upstream reference — never wired, or
    /// disconnected again — reads exactly its configured default,
    /// whatever the bank holds.
    pub proof fn lemma_unwired_reads_default(self, bank: Seq<Option<i64>>)
        requires
            self.link is None,
        ensures
            self.resolved_value(bank) == self.default,
    {
    }

    /// Whether the port currently holds an upstream reference.
    pub fn is_connected(&self) -> (r: bool)
        ensures
            r == (self.link is Some),
    {
        match self.link {
            Some(_) => true,
            None => false,
        }
    }
}

} // verus!
