//! The rack: owner of all modules, controls, wiring and the scheduler.
//!
//! The rack owns the slot bank that all ports live in, an id index for each
//! of its two namespaces, the position index driving the per-tick
//! scheduler, and the clock. Structural operations are transactional: any
//! failure leaves the rack exactly as it was.

use vstd::prelude::*;

use crate::clock::Clock;
use crate::controls::basic_keyboard::BasicKeyboard;
use crate::controls::button::Button;
use crate::controls::control::Control;
use crate::controls::control_knob::ControlKnob;
use crate::id_map::{id_map_contents, IdMap};
use crate::modules::adsr::Adsr;
use crate::modules::io_module::{lemma_declares_iff_relinked, lemma_relinked_preserves,
    lemma_with_order_preserves, IoModule};
use crate::modules::oscillator::Oscillator;
use crate::slots::SlotBank;
use crate::text::str_eq;
use crate::types::{
    ConflictingModuleIdError, ModuleNotFoundError, ModuleResult, PortNotFoundError, RackError,
    SAMPLE_RATE, SAMPLE_SCALE,
};

verus! {

use vstd::string::StringExecFns;

/// A rack encompasses a group of connected modules.
pub struct Rack {
    /// The scheduled processing units, in insertion order.
    pub modules: Vec<IoModule>,
    /// Index from module id to position in `modules`.
    pub module_index: IdMap,
    /// The externally-driven controls, in insertion order.
    pub controls: Vec<Control>,
    /// Index from control id to position in `controls`.
    pub control_index: IdMap,
    /// The control which currently holds the focus.
    pub focussed_control: Option<usize>,
    /// The position index: bucket `p` holds the modules scheduled at
    /// position `p`. Bucket 0 is never used.
    pub chain: Vec<Vec<usize>>,
    /// The arena of signal slots all ports live in.
    pub bank: SlotBank,
    /// The rack's clock; passed to modules whose output relies on time.
    pub clock: Clock,
    /// Whether the rack is in a running or stopped state.
    pub running: bool,
}

/// The module-id index matches the module arena exactly: each entry names
/// a module at its position, and each module is indexed under its id.
pub open spec fn module_index_matches(m: Map<Seq<char>, usize>, mods: Seq<IoModule>) -> bool {
    &&& forall|id: Seq<char>|
        #[trigger] m.dom().contains(id) ==> m[id] < mods.len() && mods[m[id] as int].id_spec()
            == id
    &&& forall|i: int|
        0 <= i < mods.len() ==> m.dom().contains((#[trigger] mods[i]).id_spec())
            && m[mods[i].id_spec()] == i
}

/// The control-id index matches the control arena exactly.
pub open spec fn control_index_matches(c: Map<Seq<char>, usize>, ctrls: Seq<Control>) -> bool {
    &&& forall|id: Seq<char>|
        #[trigger] c.dom().contains(id) ==> c[id] < ctrls.len() && ctrls[c[id] as int].id_spec()
            == id
    &&& forall|i: int|
        0 <= i < ctrls.len() ==> c.dom().contains((#[trigger] ctrls[i]).id_spec())
            && c[ctrls[i].id_spec()] == i
}

/// The two id namespaces share no id.
pub open spec fn namespaces_disjoint_maps(m: Map<Seq<char>, usize>, c: Map<Seq<char>, usize>) -> bool {
    forall|id: Seq<char>| m.dom().contains(id) ==> !c.dom().contains(id)
}

/// Upper bound on scheduling positions. Position values assigned by
/// `connect_modules` saturate here; reaching it would take a billion
/// rewires of one chain.
pub const ORDER_CAP: u64 = 1_000_000_000;

/// The position index matches the modules' scheduling positions: bucket
/// `p` holds exactly the modules ordered at `p`, each once.
pub open spec fn chain_matches(chain: Seq<Vec<usize>>, mods: Seq<IoModule>) -> bool {
    &&& 1 <= chain.len() <= ORDER_CAP + 1
    &&& chain[0]@.len() == 0
    &&& forall|p: int, k: int|
        0 <= p < chain.len() && 0 <= k < chain[p]@.len() ==> (#[trigger] chain[p]@[k])
            < mods.len() && mods[chain[p]@[k] as int].order_spec() == Some(p as u64)
    &&& forall|p: int, k1: int, k2: int|
        0 <= p < chain.len() && 0 <= k1 < chain[p]@.len() && 0 <= k2 < chain[p]@.len()
            && #[trigger] chain[p]@[k1] == #[trigger] chain[p]@[k2] ==> k1 == k2
    &&& forall|i: int|
        0 <= i < mods.len() && (#[trigger] mods[i]).order_spec() is Some ==> 1 <= mods[
            i].order_spec().unwrap() < chain.len() && chain[mods[
            i].order_spec().unwrap() as int]@.contains(i as usize)
}

/// The scheduling position one past `o`, saturated at the cap.
pub open spec fn cap_next(o: u64) -> int {
    if o < ORDER_CAP {
        o + 1
    } else {
        ORDER_CAP as int
    }
}

/// The scheduling positions `(source, sink)` that a successful connect
/// assigns, from the endpoints' previous positions: both unordered puts
/// the pair at the front; an unordered source is pulled just ahead of its
/// ordered sink — or co-located with a sink already at the front; an
/// unordered sink is placed just behind its ordered source; and two
/// ordered endpoints have the sink pulled to just behind the source — a
/// conservative rule, not a full topological re-derivation.
pub open spec fn order_assignment(oo: Option<u64>, io: Option<u64>) -> (int, int) {
    match (oo, io) {
        (Option::None, Option::None) => (1int, 2int),
        (Option::None, Option::Some(o)) => if o == 1 {
            (1int, 1int)
        } else {
            (o - 1, o as int)
        },
        (Option::Some(o), Option::None) => (o as int, cap_next(o)),
        (Option::Some(po), Option::Some(_)) => (po as int, cap_next(po)),
    }
}

/// The ordering guarantee behind the scheduler: every successful connect
/// places the source at a strictly smaller position than the sink. The
/// two exceptions share one bucket instead: an unscheduled source wired
/// into a sink already at the front position, and a source already at
/// the position cap — a billion rewires deep.
pub proof fn lemma_order_assignment_sorted(oo: Option<u64>, io: Option<u64>)
    requires
        oo is Some ==> 1 <= oo.unwrap() < ORDER_CAP,
        io is Some ==> 1 <= io.unwrap(),
        !(oo is None && io == Some(1u64)),
    ensures
        order_assignment(oo, io).0 < order_assignment(oo, io).1,
{
}

/// The two racks hold the same observable state, field by field (the
/// collections compared by contents).
pub open spec fn same_rack_state(pre: Rack, post: Rack) -> bool {
    &&& post.modules@ == pre.modules@
    &&& post.module_index == pre.module_index
    &&& post.controls@ == pre.controls@
    &&& post.control_index == pre.control_index
    &&& post.focussed_control == pre.focussed_control
    &&& post.chain@ == pre.chain@
    &&& post.bank@ == pre.bank@
    &&& post.clock == pre.clock
    &&& post.running == pre.running
}

/// Except for the module arena (and, where said, the position index),
/// `post` carries `pre`'s state.
pub open spec fn same_but_modules(pre: Rack, post: Rack) -> bool {
    &&& post.module_index == pre.module_index
    &&& post.controls@ == pre.controls@
    &&& post.control_index == pre.control_index
    &&& post.focussed_control == pre.focussed_control
    &&& post.bank@ == pre.bank@
    &&& post.clock == pre.clock
    &&& post.running == pre.running
}

/// What a successful or failed control-to-module connect leaves behind:
/// an absent control or module id fails with `ModuleNotFound`, an
/// undeclared port on either endpoint with `PortNotFound`, each leaving
/// the rack untouched; on success exactly the named input is rebound to
/// the control's slot.
pub open spec fn ctrl_connect_post(
    pre: Rack,
    post: Rack,
    r: Result<String, RackError>,
    cid: Seq<char>,
    cport: Seq<char>,
    mid: Seq<char>,
    mport: Seq<char>,
) -> bool {
    let c = id_map_contents(pre.control_index);
    let m = id_map_contents(pre.module_index);
    if !c.dom().contains(cid) {
        r == Err::<String, RackError>(RackError::ModuleNotFound(ModuleNotFoundError))
            && same_rack_state(pre, post)
    } else if pre.controls@[c[cid] as int].port_ref_spec(cport) is None {
        r == Err::<String, RackError>(RackError::PortNotFound(PortNotFoundError))
            && same_rack_state(pre, post)
    } else if !m.dom().contains(mid) {
        r == Err::<String, RackError>(RackError::ModuleNotFound(ModuleNotFoundError))
            && same_rack_state(pre, post)
    } else {
        let slot = pre.controls@[c[cid] as int].port_ref_spec(cport).unwrap();
        let relinked = pre.modules@[m[mid] as int].relinked(mport, Some(slot));
        if relinked is None {
            r == Err::<String, RackError>(RackError::PortNotFound(PortNotFoundError))
                && same_rack_state(pre, post)
        } else {
            &&& r is Ok
            &&& post.modules@ == pre.modules@.update(m[mid] as int, relinked.unwrap())
            &&& same_but_modules(pre, post)
            &&& post.chain@ == pre.chain@
        }
    }
}

/// What a successful or failed module-to-module connect leaves behind. An
/// absent endpoint — or a self-connection, whose source cannot be
/// resolved while its sink is in hand — fails with `ModuleNotFound`; an
/// undeclared port on either endpoint fails with `PortNotFound`; every
/// failure leaves the rack untouched. On success the named input is bound
/// to the output's slot and both endpoints take the positions of
/// [`order_assignment`], every other module staying as it was.
pub open spec fn module_connect_post(
    pre: Rack,
    post: Rack,
    r: Result<String, RackError>,
    oid: Seq<char>,
    oport: Seq<char>,
    iid: Seq<char>,
    iport: Seq<char>,
) -> bool {
    let m = id_map_contents(pre.module_index);
    if !m.dom().contains(iid) || !m.dom().contains(oid) || m[iid] == m[oid] {
        r == Err::<String, RackError>(RackError::ModuleNotFound(ModuleNotFoundError))
            && same_rack_state(pre, post)
    } else {
        let oi = m[oid] as int;
        let ii = m[iid] as int;
        if pre.modules@[oi].out_port_spec(oport) is None {
            r == Err::<String, RackError>(RackError::PortNotFound(PortNotFoundError))
                && same_rack_state(pre, post)
        } else {
            let slot = pre.modules@[oi].out_port_spec(oport).unwrap().slot;
            let relinked = pre.modules@[ii].relinked(iport, Some(slot));
            if relinked is None {
                r == Err::<String, RackError>(RackError::PortNotFound(PortNotFoundError))
                    && same_rack_state(pre, post)
            } else {
                let a = order_assignment(pre.modules@[oi].order_spec(),
                    pre.modules@[ii].order_spec());
                &&& r is Ok
                &&& post.modules@ == pre.modules@.update(oi,
                    pre.modules@[oi].with_order(Some(a.0 as u64))).update(ii,
                    relinked.unwrap().with_order(Some(a.1 as u64)))
                &&& same_but_modules(pre, post)
            }
        }
    }
}

/// What a disconnect leaves behind: an absent module id fails with
/// `ModuleNotFound`, an undeclared port with `PortNotFound`, each leaving
/// the rack untouched; on success exactly the named input is rebound to a
/// never-resolving reference, and the position index is not revisited.
pub open spec fn disconnect_post(
    pre: Rack,
    post: Rack,
    r: Result<String, RackError>,
    mid: Seq<char>,
    mport: Seq<char>,
) -> bool {
    let m = id_map_contents(pre.module_index);
    if !m.dom().contains(mid) {
        r == Err::<String, RackError>(RackError::ModuleNotFound(ModuleNotFoundError))
            && same_rack_state(pre, post)
    } else {
        let relinked = pre.modules@[m[mid] as int].relinked(mport, None);
        if relinked is None {
            r == Err::<String, RackError>(RackError::PortNotFound(PortNotFoundError))
                && same_rack_state(pre, post)
        } else {
            &&& r is Ok
            &&& post.modules@ == pre.modules@.update(m[mid] as int, relinked.unwrap())
            &&& same_but_modules(pre, post)
            &&& post.chain@ == pre.chain@
        }
    }
}

/// The position buckets from `p` on, flattened into one processing
/// sequence, ascending.
pub open spec fn flatten_from(chain: Seq<Vec<usize>>, p: int) -> Seq<usize>
    decreases chain.len() - p,
{
    if p < 0 || p >= chain.len() {
        Seq::empty()
    } else {
        chain[p]@ + flatten_from(chain, p + 1)
    }
}

/// The order in which one tick processes the scheduled modules: the
/// position buckets flattened ascending from position 1. Unscheduled
/// modules never appear.
pub open spec fn tick_schedule(chain: Seq<Vec<usize>>) -> Seq<usize> {
    flatten_from(chain, 1)
}

/// The mathematical effect of processing the modules named by `sched`, in
/// order, against bank contents `bank`: the final modules, the final bank
/// and the samples emitted by egress stages, in order.
pub open spec fn run_schedule(
    mods: Seq<IoModule>,
    bank: Seq<Option<i64>>,
    sched: Seq<usize>,
    delta: int,
    now: int,
) -> (Seq<IoModule>, Seq<Option<i64>>, Seq<i64>)
    decreases sched.len(),
{
    if sched.len() == 0 {
        (mods, bank, Seq::<i64>::empty())
    } else {
        let i = sched[0] as int;
        if 0 <= i < mods.len() {
            let step = mods[i].step_result(bank, delta, now);
            let rest = run_schedule(mods.update(i, step.0), step.1,
                sched.subrange(1, sched.len() as int), delta, now);
            (
                rest.0,
                rest.1,
                if step.2 is Some {
                    seq![step.2.unwrap()] + rest.2
                } else {
                    rest.2
                },
            )
        } else {
            run_schedule(mods, bank, sched.subrange(1, sched.len() as int), delta, now)
        }
    }
}

/// Every element of the flattened schedule from position `p` on names a
/// module scheduled at position `p` or later.
proof fn lemma_flatten_elem_order(chain: Seq<Vec<usize>>, mods: Seq<IoModule>, p: int)
    requires
        chain_matches(chain, mods),
        0 <= p,
    ensures
        forall|k: int|
            0 <= k < flatten_from(chain, p).len() ==> (#[trigger] flatten_from(chain, p)[k])
                < mods.len() && mods[flatten_from(chain, p)[k] as int].order_spec() is Some
                && mods[flatten_from(chain, p)[k] as int].order_spec().unwrap() >= p,
    decreases chain.len() - p,
{
    if p < chain.len() {
        lemma_flatten_elem_order(chain, mods, p + 1);
        let hd = chain[p]@;
        let tl = flatten_from(chain, p + 1);
        assert forall|k: int| 0 <= k < flatten_from(chain, p).len() implies (
        #[trigger] flatten_from(chain, p)[k]) < mods.len() && mods[flatten_from(chain, p)[
            k] as int].order_spec() is Some && mods[flatten_from(chain, p)[
            k] as int].order_spec().unwrap() >= p by {
            if k < hd.len() {
                assert(flatten_from(chain, p)[k] == hd[k]);
            } else {
                assert(flatten_from(chain, p)[k] == tl[k - hd.len()]);
            }
        }
    }
}

/// A module sitting in bucket `q` appears in the schedule flattened from
/// any position at or before `q`.
proof fn lemma_flatten_contains(chain: Seq<Vec<usize>>, p: int, q: int, k: int)
    requires
        0 <= p <= q < chain.len(),
        0 <= k < chain[q]@.len(),
    ensures
        flatten_from(chain, p).contains(chain[q]@[k]),
    decreases q - p,
{
    if p == q {
        assert(flatten_from(chain, p)[k] == chain[q]@[k]);
    } else {
        lemma_flatten_contains(chain, p + 1, q, k);
        let i = choose|i: int|
            0 <= i < flatten_from(chain, p + 1).len() && #[trigger] flatten_from(chain, p + 1)[i]
                == chain[q]@[k];
        assert(flatten_from(chain, p)[chain[p]@.len() + i] == chain[q]@[k]);
    }
}

/// In the schedule flattened from `p`, every occurrence of a module with
/// a smaller position precedes every occurrence of one with a larger
/// position.
proof fn lemma_flatten_order(chain: Seq<Vec<usize>>, mods: Seq<IoModule>, p: int, a: usize, b: usize)
    requires
        chain_matches(chain, mods),
        a < mods.len(),
        b < mods.len(),
        mods[a as int].order_spec() is Some,
        mods[b as int].order_spec() is Some,
        mods[a as int].order_spec().unwrap() < mods[b as int].order_spec().unwrap(),
        0 <= p,
    ensures
        forall|k1: int, k2: int|
            0 <= k1 < flatten_from(chain, p).len() && 0 <= k2 < flatten_from(chain, p).len()
                && flatten_from(chain, p)[k1] == a && #[trigger] flatten_from(chain, p)[k2] == b
                && #[trigger] flatten_from(chain, p)[k1] == a ==> k1 < k2,
    decreases chain.len() - p,
{
    if p < chain.len() {
        lemma_flatten_order(chain, mods, p + 1, a, b);
        lemma_flatten_elem_order(chain, mods, p + 1);
        let hd = chain[p]@;
        let tl = flatten_from(chain, p + 1);
        let oa = mods[a as int].order_spec().unwrap();
        let ob = mods[b as int].order_spec().unwrap();
        assert forall|k1: int, k2: int|
            0 <= k1 < flatten_from(chain, p).len() && 0 <= k2 < flatten_from(chain, p).len()
                && flatten_from(chain, p)[k1] == a && #[trigger] flatten_from(chain, p)[k2] == b
                && #[trigger] flatten_from(chain, p)[k1] == a implies k1 < k2 by {
            if k2 < hd.len() {
                // b sits in bucket p, so its position is p.
                assert(flatten_from(chain, p)[k2] == hd[k2]);
                assert(ob == p);
                if k1 < hd.len() {
                    // a would also sit at position p — but oa < ob == p.
                    assert(flatten_from(chain, p)[k1] == hd[k1]);
                    assert(oa == p);
                } else {
                    // a in the tail has position >= p + 1 > oa.
                    assert(flatten_from(chain, p)[k1] == tl[k1 - hd.len()]);
                    assert(oa >= p + 1);
                }
            } else {
                if k1 >= hd.len() {
                    assert(flatten_from(chain, p)[k1] == tl[k1 - hd.len()]);
                    assert(flatten_from(chain, p)[k2] == tl[k2 - hd.len()]);
                }
            }
        }
    }
}

/// The ordering invariant of the scheduler: for a wired
/// (producer, consumer) pair whose scheduling positions are ordered —
/// which every connect establishes for the pair it wires — no tick
/// evaluates the consumer before the producer: the tick schedule lists
/// every occurrence of the producer strictly before every occurrence of
/// the consumer, and both are evaluated.
pub proof fn lemma_no_consumer_before_producer(
    rack: Rack,
    producer: usize,
    consumer: usize,
    slot: usize,
)
    requires
        rack.wf(),
        producer < rack.modules@.len(),
        consumer < rack.modules@.len(),
        rack.modules@[producer as int].out_port_owns(slot as int),
        rack.modules@[consumer as int].reads_slot(slot),
        rack.modules@[producer as int].order_spec() is Some,
        rack.modules@[consumer as int].order_spec() is Some,
        rack.modules@[producer as int].order_spec().unwrap() < rack.modules@[
            consumer as int].order_spec().unwrap(),
    ensures
        tick_schedule(rack.chain@).contains(producer),
        tick_schedule(rack.chain@).contains(consumer),
        forall|k1: int, k2: int|
            0 <= k1 < tick_schedule(rack.chain@).len() && 0 <= k2 < tick_schedule(
                rack.chain@,
            ).len() && tick_schedule(rack.chain@)[k1] == producer && #[trigger] tick_schedule(
                rack.chain@,
            )[k2] == consumer && #[trigger] tick_schedule(rack.chain@)[k1] == producer ==> k1
                < k2,
{
    let chain = rack.chain@;
    let mods = rack.modules@;
    let op = mods[producer as int].order_spec().unwrap() as int;
    let oc = mods[consumer as int].order_spec().unwrap() as int;
    assert(chain[op]@.contains(producer));
    let kp = choose|k: int| 0 <= k < chain[op]@.len() && chain[op]@[k] == producer;
    lemma_flatten_contains(chain, 1, op, kp);
    assert(chain[oc]@.contains(consumer));
    let kc = choose|k: int| 0 <= k < chain[oc]@.len() && chain[oc]@[k] == consumer;
    lemma_flatten_contains(chain, 1, oc, kc);
    lemma_flatten_order(chain, mods, 1, producer, consumer);
}

/// The id lines of a module listing, four-space indented, from entry `i`
/// on.
pub open spec fn module_ids_listing(mods: Seq<IoModule>, i: int) -> Seq<char>
    decreases mods.len() - i,
{
    if i < 0 || i >= mods.len() {
        Seq::empty()
    } else {
        "    "@ + mods[i].id_spec() + "
"@ + module_ids_listing(mods, i + 1)
    }
}

/// The id lines of a control listing, four-space indented, from entry `i`
/// on.
pub open spec fn control_ids_listing(ctrls: Seq<Control>, i: int) -> Seq<char>
    decreases ctrls.len() - i,
{
    if i < 0 || i >= ctrls.len() {
        Seq::empty()
    } else {
        "    "@ + ctrls[i].id_spec() + "
"@ + control_ids_listing(ctrls, i + 1)
    }
}

/// The port-id lines of one catalog, eight-space indented, from entry `k`
/// on.
pub open spec fn port_lines(ports: Seq<String>, k: int) -> Seq<char>
    decreases ports.len() - k,
{
    if k < 0 || k >= ports.len() {
        Seq::empty()
    } else {
        "        "@ + ports[k]@ + "
"@ + port_lines(ports, k + 1)
    }
}

/// One module's port description: its id and both port catalogs.
pub open spec fn ports_block(m: IoModule) -> Seq<char> {
    "Module - "@ + m.id_spec() + ":
"@ + "    inputs:
"@ + port_lines(m.in_ports_spec(), 0)
        + "    outputs:
"@ + port_lines(m.out_ports_spec(), 0)
}

/// The port descriptions of every module from entry `i` on.
pub open spec fn all_ports_listing(mods: Seq<IoModule>, i: int) -> Seq<char>
    decreases mods.len() - i,
{
    if i < 0 || i >= mods.len() {
        Seq::empty()
    } else {
        ports_block(mods[i]) + all_ports_listing(mods, i + 1)
    }
}

/// The id lines of one position bucket, from entry `k` on.
pub open spec fn bucket_listing(chain: Seq<Vec<usize>>, mods: Seq<IoModule>, p: int, k: int) -> Seq<
    char,
>
    decreases chain[p]@.len() - k,
{
    if p < 0 || p >= chain.len() || k < 0 || k >= chain[p]@.len() {
        Seq::empty()
    } else {
        "        "@ + mods[chain[p]@[k] as int].id_spec() + "
"@ + bucket_listing(chain, mods, p,
            k + 1)
    }
}

/// The position-index description from position `p` on: each position's
/// header followed by its bucket's id lines.
pub open spec fn order_listing(chain: Seq<Vec<usize>>, mods: Seq<IoModule>, p: int) -> Seq<char>
    decreases chain.len() - p,
{
    if p < 1 || p >= chain.len() {
        Seq::empty()
    } else {
        "    Modules in position "@ + crate::text::dec_str(p as nat) + ":
"@ + bucket_listing(
            chain, mods, p, 0) + order_listing(chain, mods, p + 1)
    }
}

/// One module's port description, rendered.
fn ports_block_string(m: &IoModule) -> (r: String)
    ensures
        r@ == ports_block(*m),
{
    let mut out = String::new();
    out.append("Module - ");
    out.append(m.get_id().as_str());
    out.append(":
");
    out.append("    inputs:
");
    let ghost head = out@;
    let ins = m.get_in_ports();
    let n = ins.len();
    let mut k: usize = 0;
    while k < n
        invariant
            n == ins@.len(),
            k <= n,
            ins@ == m.in_ports_spec(),
            out@ + port_lines(ins@, k as int) == head + port_lines(ins@, 0),
        decreases n - k,
    {
        let ghost before = out@;
        out.append("        ");
        out.append(ins[k].as_str());
        out.append("
");
        proof {
            assert(out@ + port_lines(ins@, k + 1 as int) =~= before + port_lines(ins@,
                k as int));
        }
        k = k + 1;
    }
    proof {
        assert(port_lines(ins@, n as int) =~= Seq::<char>::empty());
        assert(out@ + Seq::<char>::empty() =~= out@);
    }
    out.append("    outputs:
");
    let ghost head2 = out@;
    let outs = m.get_out_ports();
    let on = outs.len();
    let mut k: usize = 0;
    while k < on
        invariant
            on == outs@.len(),
            k <= on,
            outs@ == m.out_ports_spec(),
            out@ + port_lines(outs@, k as int) == head2 + port_lines(outs@, 0),
        decreases on - k,
    {
        let ghost before = out@;
        out.append("        ");
        out.append(outs[k].as_str());
        out.append("
");
        proof {
            assert(out@ + port_lines(outs@, k + 1 as int) =~= before + port_lines(outs@,
                k as int));
        }
        k = k + 1;
    }
    proof {
        assert(port_lines(outs@, on as int) =~= Seq::<char>::empty());
        assert(out@ + Seq::<char>::empty() =~= out@);
        assert(out@ =~= ports_block(*m));
    }
    out
}

/// The unit is a freshly built oscillator under `id`, owning the slot at
/// `slot`.
pub open spec fn fresh_osc_unit(m: IoModule, id: Seq<char>, slot: int) -> bool {
    match m {
        IoModule::Oscillator(o) => o.fresh_spec(id, slot),
        _ => false,
    }
}

/// The unit is a freshly built envelope under `id` with per-tick `delta`,
/// owning the slot at `slot`.
pub open spec fn fresh_adsr_unit(m: IoModule, id: Seq<char>, delta: int, slot: int) -> bool {
    match m {
        IoModule::Adsr(a) => a.fresh_spec(id, delta, slot),
        _ => false,
    }
}

/// The unit is a freshly built knob under `id`, owning the slot at
/// `slot`.
pub open spec fn fresh_knob_unit(c: Control, id: Seq<char>, slot: int) -> bool {
    match c {
        Control::Knob(k) => k.fresh_spec(id, slot),
        _ => false,
    }
}

/// The unit is a freshly built button under `id`, owning the slot at
/// `slot`.
pub open spec fn fresh_button_unit(c: Control, id: Seq<char>, slot: int) -> bool {
    match c {
        Control::Button(b) => b.fresh_spec(id, slot),
        _ => false,
    }
}

/// The unit is a freshly built keyboard under `id`, owning the three
/// slots from `slot` on.
pub open spec fn fresh_keyboard_unit(c: Control, id: Seq<char>, slot: int) -> bool {
    match c {
        Control::Keyboard(k) => k.fresh_spec(id, slot),
        _ => false,
    }
}

/// Every module and control state is in range and owns only slots of the
/// bank.
pub open spec fn units_fit(mods: Seq<IoModule>, ctrls: Seq<Control>, bank: Seq<Option<i64>>) -> bool {
    &&& forall|i: int|
        0 <= i < mods.len() ==> (#[trigger] mods[i]).wf() && mods[i].slots_in(bank)
    &&& forall|i: int| 0 <= i < ctrls.len() ==> (#[trigger] ctrls[i]).slots_in(bank)
}

impl Rack {
    /// The module-id index matches the module arena exactly.
    pub open spec fn module_index_ok(self) -> bool {
        module_index_matches(id_map_contents(self.module_index), self.modules@)
    }

    /// The control-id index matches the control arena exactly.
    pub open spec fn control_index_ok(self) -> bool {
        control_index_matches(id_map_contents(self.control_index), self.controls@)
    }

    /// The two namespaces share no id.
    pub open spec fn namespaces_disjoint(self) -> bool {
        namespaces_disjoint_maps(
            id_map_contents(self.module_index),
            id_map_contents(self.control_index),
        )
    }

    /// The position index matches the modules' scheduling positions.
    pub open spec fn chain_ok(self) -> bool {
        chain_matches(self.chain@, self.modules@)
    }

    /// Every module and control state is in range and owns only slots of
    /// the bank.
    pub open spec fn units_ok(self) -> bool {
        units_fit(self.modules@, self.controls@, self.bank@)
    }

    /// The rack's full well-formedness invariant.
    pub open spec fn wf(self) -> bool {
        &&& self.clock.wf()
        &&& self.module_index_ok()
        &&& self.control_index_ok()
        &&& self.namespaces_disjoint()
        &&& self.chain_ok()
        &&& self.units_ok()
        &&& (self.focussed_control is Some ==> self.focussed_control.unwrap()
            < self.controls@.len())
    }

    /// Create a new, empty rack, running, with its clock at zero.
    pub fn new() -> (r: Rack)
        ensures
            r.wf(),
            r.modules@.len() == 0,
            r.controls@.len() == 0,
            id_map_contents(r.module_index) == Map::<Seq<char>, usize>::empty(),
            id_map_contents(r.control_index) == Map::<Seq<char>, usize>::empty(),
            r.bank@.len() == 0,
            r.chain@.len() == 1,
            r.focussed_control is None,
            r.clock.time == 0,
            r.clock.time_delta == SAMPLE_SCALE / SAMPLE_RATE,
            !r.clock.running,
            r.running,
    {
        let mut chain: Vec<Vec<usize>> = Vec::new();
        chain.push(Vec::new());
        Rack {
            modules: Vec::new(),
            module_index: IdMap::empty(),
            controls: Vec::new(),
            control_index: IdMap::empty(),
            focussed_control: None,
            chain,
            bank: SlotBank::new(),
            clock: Clock::new(),
            running: true,
        }
    }

    /// Growing the bank never invalidates a unit's slots.
    proof fn lemma_units_ok_bank_grow(pre: Rack, post: Rack)
        requires
            pre.units_ok(),
            post.modules == pre.modules,
            post.controls == pre.controls,
            pre.bank@.len() <= post.bank@.len(),
        ensures
            post.units_ok(),
    {
        assert forall|i: int| 0 <= i < post.modules@.len() implies (
        #[trigger] post.modules@[i]).wf() && post.modules@[i].slots_in(post.bank@) by {
            assert(pre.modules@[i].slots_in(pre.bank@));
        }
        assert forall|i: int| 0 <= i < post.controls@.len() implies (
        #[trigger] post.controls@[i]).slots_in(post.bank@) by {
            assert(pre.controls@[i].slots_in(pre.bank@));
        }
    }

    /// Appending a fresh, unscheduled, well-formed module and indexing it
    /// preserves the rack invariant.
    proof fn lemma_push_module_wf(pre: Rack, post: Rack, module: IoModule, idx: usize)
        requires
            pre.wf(),
            module.wf(),
            module.slots_in(post.bank@),
            module.order_spec() is None,
            !pre.id_taken(module.id_spec()),
            idx == pre.modules@.len(),
            post.modules@ == pre.modules@.push(module),
            id_map_contents(post.module_index) == id_map_contents(pre.module_index).insert(
                module.id_spec(),
                idx,
            ),
            post.controls == pre.controls,
            post.control_index == pre.control_index,
            post.chain == pre.chain,
            pre.bank@.len() <= post.bank@.len(),
            post.clock == pre.clock,
            post.focussed_control == pre.focussed_control,
        ensures
            post.wf(),
    {
        let m_old = id_map_contents(pre.module_index);
        let m_new = id_map_contents(post.module_index);
        let n = pre.modules@.len() as int;
        assert forall|id: Seq<char>| #[trigger] m_new.dom().contains(id) implies m_new[id]
            < post.modules@.len() && post.modules@[m_new[id] as int].id_spec()
            == id by {
            if id == module.id_spec() {
                assert(post.modules@[n] == module);
            } else {
                assert(m_old.dom().contains(id));
                assert(post.modules@[m_old[id] as int] == pre.modules@[m_old[id] as int]);
            }
        }
        assert forall|i: int| 0 <= i < post.modules@.len() implies m_new.dom().contains(
            (#[trigger] post.modules@[i]).id_spec(),
        ) && m_new[post.modules@[i].id_spec()] == i by {
            if i < n {
                assert(post.modules@[i] == pre.modules@[i]);
                assert(m_old.dom().contains(pre.modules@[i].id_spec()));
                assert(pre.modules@[i].id_spec() != module.id_spec());
            } else {
                assert(post.modules@[i] == module);
            }
        }
        assert forall|p: int, k: int|
            0 <= p < post.chain@.len() && 0 <= k < post.chain@[p]@.len() implies (
        #[trigger] post.chain@[p]@[k]) < post.modules@.len()
            && post.modules@[post.chain@[p]@[k] as int].order_spec() == Some(p as u64) by {
            assert(pre.chain@[p]@[k] < pre.modules@.len());
            assert(post.modules@[post.chain@[p]@[k] as int] == pre.modules@[pre.chain@[p]@[
                k] as int]);
        }
        assert forall|i: int|
            0 <= i < post.modules@.len() && (#[trigger] post.modules@[i]).order_spec()
                is Some implies 1 <= post.modules@[i].order_spec().unwrap() < post.chain@.len()
            && post.chain@[post.modules@[i].order_spec().unwrap() as int]@.contains(
            i as usize,
        ) by {
            if i < n {
                assert(post.modules@[i] == pre.modules@[i]);
            } else {
                assert(post.modules@[i] == module);
            }
        }
        assert forall|id: Seq<char>| id_map_contents(post.module_index).dom().contains(
            id,
        ) implies !id_map_contents(post.control_index).dom().contains(id) by {
            if id != module.id_spec() {
                assert(id_map_contents(pre.module_index).dom().contains(id));
            }
        }
        assert forall|i: int| 0 <= i < post.modules@.len() implies (
        #[trigger] post.modules@[i]).wf() && post.modules@[i].slots_in(post.bank@) by {
            if i < n {
                assert(post.modules@[i] == pre.modules@[i]);
                assert(pre.modules@[i].slots_in(pre.bank@));
            } else {
                assert(post.modules@[i] == module);
            }
        }
        assert forall|i: int| 0 <= i < post.controls@.len() implies (
        #[trigger] post.controls@[i]).slots_in(post.bank@) by {
            assert(pre.controls@[i].slots_in(pre.bank@));
        }
        assert(post.chain@ == pre.chain@);
        assert(post.controls@ == pre.controls@);
        assert(id_map_contents(post.control_index) == id_map_contents(pre.control_index));
        assert(control_index_matches(id_map_contents(pre.control_index), pre.controls@));
        assert(post.control_index_ok());
        assert(post.module_index_ok());
    }

    /// Appending a fresh control and indexing it preserves the rack
    /// invariant.
    proof fn lemma_push_control_wf(pre: Rack, post: Rack, control: Control, idx: usize)
        requires
            pre.wf(),
            control.slots_in(post.bank@),
            !pre.id_taken(control.id_spec()),
            idx == pre.controls@.len(),
            post.controls@ == pre.controls@.push(control),
            id_map_contents(post.control_index) == id_map_contents(pre.control_index).insert(
                control.id_spec(),
                idx,
            ),
            post.modules == pre.modules,
            post.module_index == pre.module_index,
            post.chain == pre.chain,
            pre.bank@.len() <= post.bank@.len(),
            post.clock == pre.clock,
            post.focussed_control == pre.focussed_control,
        ensures
            post.wf(),
    {
        let c_old = id_map_contents(pre.control_index);
        let c_new = id_map_contents(post.control_index);
        let n = pre.controls@.len() as int;
        assert forall|id: Seq<char>| #[trigger] c_new.dom().contains(id) implies c_new[id]
            < post.controls@.len() && post.controls@[c_new[id] as int].id_spec()
            == id by {
            if id == control.id_spec() {
                assert(post.controls@[n] == control);
            } else {
                assert(c_old.dom().contains(id));
                assert(post.controls@[c_old[id] as int] == pre.controls@[c_old[id] as int]);
            }
        }
        assert forall|i: int| 0 <= i < post.controls@.len() implies c_new.dom().contains(
            (#[trigger] post.controls@[i]).id_spec(),
        ) && c_new[post.controls@[i].id_spec()] == i by {
            if i < n {
                assert(post.controls@[i] == pre.controls@[i]);
                assert(c_old.dom().contains(pre.controls@[i].id_spec()));
                assert(pre.controls@[i].id_spec() != control.id_spec());
            } else {
                assert(post.controls@[i] == control);
            }
        }
        assert forall|id: Seq<char>| id_map_contents(post.module_index).dom().contains(
            id,
        ) implies !id_map_contents(post.control_index).dom().contains(id) by {
            assert(id != control.id_spec());
            assert(!id_map_contents(pre.control_index).dom().contains(id));
        }
        assert forall|i: int| 0 <= i < post.modules@.len() implies (
        #[trigger] post.modules@[i]).wf() && post.modules@[i].slots_in(post.bank@) by {
            assert(pre.modules@[i].slots_in(pre.bank@));
        }
        assert forall|i: int| 0 <= i < post.controls@.len() implies (
        #[trigger] post.controls@[i]).slots_in(post.bank@) by {
            if i < n {
                assert(post.controls@[i] == pre.controls@[i]);
                assert(pre.controls@[i].slots_in(pre.bank@));
            } else {
                assert(post.controls@[i] == control);
            }
        }
        assert(post.chain@ == pre.chain@);
        assert(post.modules@ == pre.modules@);
        assert(id_map_contents(post.module_index) == id_map_contents(pre.module_index));
        assert(module_index_matches(id_map_contents(pre.module_index), pre.modules@));
        assert(chain_matches(pre.chain@, pre.modules@));
        assert(post.module_index_ok());
        assert(post.chain_ok());
        assert(post.control_index_ok());
    }

    /// Whether `id` is taken in either namespace.
    pub open spec fn id_taken(self, id: Seq<char>) -> bool {
        id_map_contents(self.module_index).dom().contains(id) || id_map_contents(
            self.control_index,
        ).dom().contains(id)
    }

    /// Add a pre-built, unscheduled module to the rack. A duplicate id in
    /// either namespace is rejected with `ConflictingId`, mutating
    /// nothing.
    pub fn add_module(&mut self, module: IoModule) -> (r: Result<String, RackError>)
        requires
            old(self).wf(),
            module.wf(),
            module.slots_in(old(self).bank@),
            module.order_spec() is None,
        ensures
            final(self).wf(),
            r is Err <==> old(self).id_taken(module.id_spec()),
            r is Err ==> *final(self) == *old(self) && r == Err::<String, RackError>(
                RackError::ConflictingId(ConflictingModuleIdError)),
            r is Ok ==> final(self).modules@ == old(self).modules@.push(module)
                && id_map_contents(final(self).module_index) == id_map_contents(
                old(self).module_index,
            ).insert(module.id_spec(), old(self).modules@.len() as usize) && final(self).controls
                == old(self).controls && final(self).bank == old(self).bank && final(self).chain
                == old(self).chain && final(self).clock == old(self).clock && final(self).running
                == old(self).running && final(self).control_index == old(self).control_index
                && final(self).focussed_control == old(self).focussed_control,
    {
        let ghost gmod = module;
        let module_id = module.get_id().clone();
        if self.module_index.contains_key(module_id.as_str()) || self.control_index.contains_key(
            module_id.as_str(),
        ) {
            return Err(RackError::ConflictingId(ConflictingModuleIdError));
        }
        let idx = self.modules.len();
        self.modules.push(module);
        self.module_index.insert(module_id, idx);
        proof {
            Rack::lemma_push_module_wf(*old(self), *self, gmod, idx);
        }
        let mut message = String::new();
        message.append("Added module ");
        message.append(self.modules[idx].get_id().as_str());
        Ok(message)
    }

    /// Add a module or control of the named type under the given id.
    /// A duplicate id in either namespace is rejected with
    /// `ConflictingId`; an unknown type with `ModuleNotFound`; either way
    /// nothing changes.
    pub fn add_module_type(&mut self, module_type: &str, module_id: &str) -> (r: Result<
        String,
        RackError,
    >)
        requires
            old(self).wf(),
        ensures
            final(self).wf(),
            ({
                let known = module_type@ == "control"@ || module_type@ == "button"@
                    || module_type@ == "keyboard"@ || module_type@ == "osc"@ || module_type@
                    == "adsr"@;
                let taken = old(self).id_taken(module_id@);
                &&& (r is Err <==> taken || !known)
                &&& taken ==> r == Err::<String, RackError>(RackError::ConflictingId(
                    ConflictingModuleIdError))
                &&& (!taken && !known) ==> r == Err::<String, RackError>(RackError::ModuleNotFound(
                    ModuleNotFoundError))
                &&& r is Err ==> *final(self) == *old(self)
            }),
            r is Ok ==> final(self).clock == old(self).clock && final(self).chain == old(
                self,
            ).chain && final(self).running == old(self).running && final(self).focussed_control
                == old(self).focussed_control,
            r is Ok && (module_type@ == "osc"@ || module_type@ == "adsr"@) ==> ({
                let n = old(self).modules@.len() as int;
                let slot = old(self).bank@.len() as int;
                &&& final(self).modules@.len() == n + 1
                &&& (forall|i: int| 0 <= i < n ==> final(self).modules@[i] == old(
                    self,
                ).modules@[i])
                &&& id_map_contents(final(self).module_index) == id_map_contents(
                    old(self).module_index,
                ).insert(module_id@, old(self).modules@.len() as usize)
                &&& final(self).controls == old(self).controls
                &&& final(self).control_index == old(self).control_index
                &&& final(self).bank@ == old(self).bank@.push(None)
                &&& (module_type@ == "osc"@ ==> fresh_osc_unit(final(self).modules@[n],
                    module_id@, slot))
                &&& (module_type@ == "adsr"@ ==> fresh_adsr_unit(final(self).modules@[n],
                    module_id@, old(self).clock.time_delta as int, slot))
            }),
            r is Ok && (module_type@ == "control"@ || module_type@ == "button"@ || module_type@
                == "keyboard"@) ==> ({
                let n = old(self).controls@.len() as int;
                let slot = old(self).bank@.len() as int;
                &&& final(self).controls@.len() == n + 1
                &&& (forall|i: int| 0 <= i < n ==> final(self).controls@[i] == old(
                    self,
                ).controls@[i])
                &&& id_map_contents(final(self).control_index) == id_map_contents(
                    old(self).control_index,
                ).insert(module_id@, old(self).controls@.len() as usize)
                &&& final(self).modules == old(self).modules
                &&& final(self).module_index == old(self).module_index
                &&& (module_type@ == "control"@ ==> fresh_knob_unit(final(self).controls@[n],
                    module_id@, slot) && final(self).bank@ == old(self).bank@.push(None))
                &&& (module_type@ == "button"@ ==> fresh_button_unit(final(self).controls@[n],
                    module_id@, slot) && final(self).bank@ == old(self).bank@.push(None))
                &&& (module_type@ == "keyboard"@ ==> fresh_keyboard_unit(final(self).controls@[
                    n], module_id@, slot) && final(self).bank@ == old(self).bank@.push(None).push(
                    None).push(None))
            }),
    {
        proof {
            reveal_strlit("control");
            reveal_strlit("button");
            reveal_strlit("keyboard");
            reveal_strlit("osc");
            reveal_strlit("adsr");
            assert("control"@.len() == 7 && "button"@.len() == 6 && "keyboard"@.len() == 8
                && "osc"@.len() == 3 && "adsr"@.len() == 4);
        }
        // Disallow adding modules or controls with identical ids, so that
        // there can be no ambiguity when connecting.
        if self.module_index.contains_key(module_id) || self.control_index.contains_key(module_id) {
            return Err(RackError::ConflictingId(ConflictingModuleIdError));
        }

        if str_eq(module_type, "control") {
            let knob = ControlKnob::new(String::from_str(module_id), &mut self.bank);
            let ctrl = Control::Knob(knob);
            let ghost gctrl = ctrl;
            let idx = self.controls.len();
            self.controls.push(ctrl);
            self.control_index.insert(String::from_str(module_id), idx);
            proof {
                Rack::lemma_push_control_wf(*old(self), *self, gctrl, idx);
            }
        } else if str_eq(module_type, "button") {
            let button = Button::new(String::from_str(module_id), &mut self.bank);
            let ctrl = Control::Button(button);
            let ghost gctrl = ctrl;
            let idx = self.controls.len();
            self.controls.push(ctrl);
            self.control_index.insert(String::from_str(module_id), idx);
            proof {
                Rack::lemma_push_control_wf(*old(self), *self, gctrl, idx);
            }
        } else if str_eq(module_type, "keyboard") {
            let keyboard = BasicKeyboard::new(String::from_str(module_id), &mut self.bank);
            let ctrl = Control::Keyboard(keyboard);
            let ghost gctrl = ctrl;
            let idx = self.controls.len();
            self.controls.push(ctrl);
            self.control_index.insert(String::from_str(module_id), idx);
            proof {
                Rack::lemma_push_control_wf(*old(self), *self, gctrl, idx);
            }
        } else if str_eq(module_type, "osc") {
            let oscillator = Oscillator::new(String::from_str(module_id), &mut self.bank);
            let unit = IoModule::Oscillator(oscillator);
            let ghost gmod = unit;
            let idx = self.modules.len();
            self.modules.push(unit);
            self.module_index.insert(String::from_str(module_id), idx);
            proof {
                Rack::lemma_push_module_wf(*old(self), *self, gmod, idx);
            }
        } else if str_eq(module_type, "adsr") {
            let adsr = Adsr::new(String::from_str(module_id), self.clock.time_delta,
                &mut self.bank);
            let unit = IoModule::Adsr(adsr);
            let ghost gmod = unit;
            let idx = self.modules.len();
            self.modules.push(unit);
            self.module_index.insert(String::from_str(module_id), idx);
            proof {
                Rack::lemma_push_module_wf(*old(self), *self, gmod, idx);
            }
        } else {
            return Err(RackError::ModuleNotFound(ModuleNotFoundError));
        }

        let mut message = String::new();
        message.append("Add ");
        message.append(module_type);
        message.append(" with id ");
        message.append(module_id);
        Ok(message)
    }

    /// Replacing one module by another with the same id, position and
    /// well-formedness preserves the rack invariant.
    proof fn lemma_update_module_wf(pre: Rack, post: Rack, i: int, m2: IoModule)
        requires
            pre.wf(),
            0 <= i < pre.modules@.len(),
            post.modules@ == pre.modules@.update(i, m2),
            m2.id_spec() == pre.modules@[i].id_spec(),
            m2.order_spec() == pre.modules@[i].order_spec(),
            m2.wf(),
            m2.slots_in(post.bank@),
            pre.bank@.len() <= post.bank@.len(),
            post.module_index == pre.module_index,
            post.controls == pre.controls,
            post.control_index == pre.control_index,
            post.chain == pre.chain,
            post.focussed_control == pre.focussed_control,
            post.clock.wf(),
        ensures
            post.wf(),
    {
        let m = id_map_contents(post.module_index);
        assert(post.modules@.len() == pre.modules@.len());
        assert forall|id: Seq<char>| #[trigger] m.dom().contains(id) implies m[id]
            < post.modules@.len() && post.modules@[m[id] as int].id_spec() == id by {
            if m[id] as int == i {
                assert(pre.modules@[i].id_spec() == id);
            } else {
                assert(post.modules@[m[id] as int] == pre.modules@[m[id] as int]);
            }
        }
        assert forall|k: int| 0 <= k < post.modules@.len() implies m.dom().contains(
            (#[trigger] post.modules@[k]).id_spec(),
        ) && m[post.modules@[k].id_spec()] == k by {
            if k == i {
                assert(post.modules@[k].id_spec() == pre.modules@[i].id_spec());
            } else {
                assert(post.modules@[k] == pre.modules@[k]);
            }
        }
        assert forall|p: int, k: int|
            0 <= p < post.chain@.len() && 0 <= k < post.chain@[p]@.len() implies (
        #[trigger] post.chain@[p]@[k]) < post.modules@.len() && post.modules@[post.chain@[p]@[
            k] as int].order_spec() == Some(p as u64) by {
            assert(pre.chain@[p]@[k] < pre.modules@.len());
            if post.chain@[p]@[k] as int == i {
                assert(m2.order_spec() == pre.modules@[i].order_spec());
            } else {
                assert(post.modules@[post.chain@[p]@[k] as int] == pre.modules@[pre.chain@[p]@[
                    k] as int]);
            }
        }
        assert forall|k: int|
            0 <= k < post.modules@.len() && (#[trigger] post.modules@[k]).order_spec()
                is Some implies 1 <= post.modules@[k].order_spec().unwrap() < post.chain@.len()
            && post.chain@[post.modules@[k].order_spec().unwrap() as int]@.contains(
            k as usize,
        ) by {
            if k == i {
                assert(post.modules@[k].order_spec() == pre.modules@[i].order_spec());
            } else {
                assert(post.modules@[k] == pre.modules@[k]);
            }
        }
        assert forall|k: int| 0 <= k < post.modules@.len() implies (
        #[trigger] post.modules@[k]).wf() && post.modules@[k].slots_in(post.bank@) by {
            if k != i {
                assert(post.modules@[k] == pre.modules@[k]);
                assert(pre.modules@[k].slots_in(pre.bank@));
            }
        }
        assert forall|k: int| 0 <= k < post.controls@.len() implies (
        #[trigger] post.controls@[k]).slots_in(post.bank@) by {
            assert(pre.controls@[k].slots_in(pre.bank@));
        }
        assert(post.controls@ == pre.controls@);
        assert(id_map_contents(post.control_index) == id_map_contents(pre.control_index));
        assert(post.control_index_ok());
        assert(post.chain@ == pre.chain@);
    }

    /// Rebuild the position index from the modules' scheduling positions:
    /// bucket `p` receives exactly the modules ordered at `p`, in
    /// ascending module index (intra-position order is unspecified, and
    /// modules sharing a position are mutually independent).
    fn rebuild_chain(&mut self)
        requires
            forall|i: int|
                0 <= i < old(self).modules@.len() && (#[trigger] old(
                    self,
                ).modules@[i]).order_spec() is Some ==> 1 <= old(self).modules@[
                    i].order_spec().unwrap() <= ORDER_CAP,
        ensures
            *final(self) == (Rack { chain: final(self).chain, ..*old(self) }),
            chain_matches(final(self).chain@, final(self).modules@),
            final(self).chain@.len() <= ORDER_CAP + 1,
    {
        let mut max_order: u64 = 0;
        let n = self.modules.len();
        let mut i: usize = 0;
        while i < n
            invariant
                *self == *old(self),
                n == self.modules@.len(),
                i <= n,
                forall|j: int|
                    0 <= j < self.modules@.len() && (#[trigger] self.modules@[j]).order_spec()
                        is Some ==> 1 <= self.modules@[j].order_spec().unwrap() <= ORDER_CAP,
                max_order <= ORDER_CAP,
                forall|j: int|
                    0 <= j < i && (#[trigger] self.modules@[j]).order_spec() is Some
                        ==> self.modules@[j].order_spec().unwrap() <= max_order,
            decreases n - i,
        {
            match self.modules[i].get_module_order() {
                Some(o) => {
                    if o > max_order {
                        max_order = o;
                    }
                },
                None => {},
            }
            i = i + 1;
        }

        let mut chain: Vec<Vec<usize>> = Vec::new();
        let buckets: usize = (max_order as usize) + 1;
        while chain.len() < buckets
            invariant
                *self == *old(self),
                chain@.len() <= buckets,
                forall|p: int| 0 <= p < chain@.len() ==> (#[trigger] chain@[p])@.len() == 0,
            decreases buckets - chain.len(),
        {
            chain.push(Vec::new());
        }

        let mut i: usize = 0;
        while i < n
            invariant
                *self == *old(self),
                n == self.modules@.len(),
                i <= n,
                chain@.len() == buckets,
                buckets == max_order + 1,
                max_order <= ORDER_CAP,
                forall|j: int|
                    0 <= j < self.modules@.len() && (#[trigger] self.modules@[j]).order_spec()
                        is Some ==> 1 <= self.modules@[j].order_spec().unwrap() <= max_order,
                forall|p: int, k: int|
                    0 <= p < chain@.len() && 0 <= k < chain@[p]@.len() ==> (
                    #[trigger] chain@[p]@[k]) < i && self.modules@[chain@[p]@[k] as int].order_spec()
                        == Some(p as u64),
                forall|p: int, k1: int, k2: int|
                    0 <= p < chain@.len() && 0 <= k1 < chain@[p]@.len() && 0 <= k2
                        < chain@[p]@.len() && #[trigger] chain@[p]@[k1] == #[trigger] chain@[p]@[
                        k2] ==> k1 == k2,
                forall|j: int|
                    0 <= j < i && (#[trigger] self.modules@[j]).order_spec() is Some ==> chain@[
                        self.modules@[j].order_spec().unwrap() as int]@.contains(j as usize),
            decreases n - i,
        {
            match self.modules[i].get_module_order() {
                Some(o) => {
                    let ghost pre_chain = chain@;
                    let pos = o as usize;
                    chain[pos].push(i);
                    proof {
                        assert forall|j: int|
                            0 <= j < i + 1 && (#[trigger] self.modules@[j]).order_spec()
                                is Some implies chain@[self.modules@[j].order_spec().unwrap() as int]@.contains(
                            j as usize,
                        ) by {
                            let p = self.modules@[j].order_spec().unwrap() as int;
                            if j < i {
                                assert(pre_chain[p]@.contains(j as usize));
                                let k = choose|k: int|
                                    0 <= k < pre_chain[p]@.len() && pre_chain[p]@[k]
                                        == j as usize;
                                assert(chain@[p]@[k] == j as usize);
                            } else {
                                assert(chain@[pos as int]@[pre_chain[pos as int]@.len() as int]
                                    == i as usize);
                            }
                        }
                    }
                },
                None => {},
            }
            i = i + 1;
        }

        proof {
            if chain@[0]@.len() > 0 {
                assert(self.modules@[chain@[0]@[0] as int].order_spec() == Some(0u64));
            }
        }
        self.chain = chain;
    }

    /// Connect two modules via the given ports. A source id naming a
    /// control is routed to [`Rack::connect_ctrl`]. Both endpoints must
    /// exist and declare the named ports; every failure leaves the rack
    /// unchanged. On success the input is bound to the output's slot and
    /// the scheduling positions of both endpoints are re-derived by
    /// [`order_assignment`], which always places the source strictly
    /// before the sink (below the position cap).
    pub fn connect_modules(
        &mut self,
        out_module_id: &str,
        out_port_id: &str,
        in_module_id: &str,
        in_port_id: &str,
    ) -> (r: Result<String, RackError>)
        requires
            old(self).wf(),
        ensures
            final(self).wf(),
            id_map_contents(old(self).control_index).dom().contains(out_module_id@)
                ==> ctrl_connect_post(*old(self), *final(self), r, out_module_id@, out_port_id@,
                in_module_id@, in_port_id@),
            !id_map_contents(old(self).control_index).dom().contains(out_module_id@)
                ==> module_connect_post(*old(self), *final(self), r, out_module_id@, out_port_id@,
                in_module_id@, in_port_id@),
    {
        if self.control_index.contains_key(out_module_id) {
            return self.connect_ctrl(out_module_id, out_port_id, in_module_id, in_port_id);
        }

        let ii = match self.module_index.get(in_module_id) {
            Some(i) => i,
            None => {
                return Err(RackError::ModuleNotFound(ModuleNotFoundError));
            },
        };
        let oi = match self.module_index.get(out_module_id) {
            Some(i) => i,
            None => {
                return Err(RackError::ModuleNotFound(ModuleNotFoundError));
            },
        };
        if oi == ii {
            // Connecting a module to itself would make it its own
            // upstream; refuse as an absent counterpart.
            return Err(RackError::ModuleNotFound(ModuleNotFoundError));
        }

        let slot = match self.modules[oi].get_out_port_ref(out_port_id) {
            Some(port) => port.get_ref(),
            None => {
                return Err(RackError::PortNotFound(PortNotFoundError));
            },
        };

        // Bind the input to the output's slot, overwriting any prior
        // wiring on that input; a failure here has changed nothing yet.
        let ghost pre = *self;
        let wire_message = match self.modules[ii].set_in_port(in_port_id, Some(slot)) {
            Ok(m) => m,
            Err(_) => {
                proof {
                    lemma_declares_iff_relinked(pre.modules@[ii as int], in_port_id@, Some(slot));
                    assert(self.modules@ =~= pre.modules@);
                }
                return Err(RackError::PortNotFound(PortNotFoundError));
            },
        };
        proof {
            lemma_relinked_preserves(pre.modules@[ii as int], in_port_id@, Some(slot),
                self.bank@);
        }

        // Re-derive the scheduling positions of both endpoints.
        let out_order = self.modules[oi].get_module_order();
        let in_order = self.modules[ii].get_module_order();
        let new_out: u64;
        let new_in: u64;
        match (out_order, in_order) {
            (Option::None, Option::None) => {
                new_out = 1;
                new_in = 2;
            },
            (Option::None, Option::Some(o)) => {
                if o == 1 {
                    new_out = 1;
                    new_in = 1;
                } else {
                    new_out = o - 1;
                    new_in = o;
                }
            },
            (Option::Some(o), Option::None) => {
                new_out = o;
                new_in = if o < ORDER_CAP {
                    o + 1
                } else {
                    ORDER_CAP
                };
            },
            (Option::Some(po), Option::Some(_)) => {
                new_out = po;
                new_in = if po < ORDER_CAP {
                    po + 1
                } else {
                    ORDER_CAP
                };
            },
        }
        let ghost mid = *self;
        self.modules[oi].set_module_order(Some(new_out));
        self.modules[ii].set_module_order(Some(new_in));
        proof {
            lemma_with_order_preserves(mid.modules@[oi as int], Some(new_out), self.bank@);
            lemma_with_order_preserves(mid.modules@[ii as int], Some(new_in), self.bank@);
            assert forall|j: int|
                0 <= j < self.modules@.len() && (#[trigger] self.modules@[j]).order_spec()
                    is Some implies 1 <= self.modules@[j].order_spec().unwrap() <= ORDER_CAP by {
                if j != oi as int && j != ii as int {
                    assert(self.modules@[j] == pre.modules@[j]);
                }
            }
        }
        self.rebuild_chain();
        proof {
            let post = *self;
            let m = id_map_contents(post.module_index);
            assert forall|id: Seq<char>| #[trigger] m.dom().contains(id) implies m[id]
                < post.modules@.len() && post.modules@[m[id] as int].id_spec() == id by {
                if m[id] as int == oi as int || m[id] as int == ii as int {
                } else {
                    assert(post.modules@[m[id] as int] == pre.modules@[m[id] as int]);
                }
            }
            assert forall|k: int| 0 <= k < post.modules@.len() implies m.dom().contains(
                (#[trigger] post.modules@[k]).id_spec(),
            ) && m[post.modules@[k].id_spec()] == k by {
                if k != oi as int && k != ii as int {
                    assert(post.modules@[k] == pre.modules@[k]);
                }
            }
            assert forall|k: int| 0 <= k < post.modules@.len() implies (
            #[trigger] post.modules@[k]).wf() && post.modules@[k].slots_in(post.bank@) by {
                if k != oi as int && k != ii as int {
                    assert(post.modules@[k] == pre.modules@[k]);
                    assert(pre.modules@[k].slots_in(pre.bank@));
                } else {
                    assert(pre.modules@[k].slots_in(pre.bank@));
                }
            }
            assert forall|k: int| 0 <= k < post.controls@.len() implies (
            #[trigger] post.controls@[k]).slots_in(post.bank@) by {
                assert(pre.controls@[k].slots_in(pre.bank@));
            }
            assert(post.controls@ == pre.controls@);
            assert(id_map_contents(post.control_index) == id_map_contents(pre.control_index));
            assert(post.control_index_ok());
            let a = order_assignment(pre.modules@[oi as int].order_spec(),
                pre.modules@[ii as int].order_spec());
            assert(a.0 == new_out && a.1 == new_in);
            assert(post.modules@ =~= pre.modules@.update(oi as int,
                pre.modules@[oi as int].with_order(Some(new_out))).update(ii as int,
                pre.modules@[ii as int].relinked(in_port_id@, Some(slot)).unwrap().with_order(
                Some(new_in))));
        }

        let mut message = String::new();
        message.append("connected module ");
        message.append(out_module_id);
        message.append(" -> ");
        message.append(out_port_id);
        message.append(" to ");
        message.append(in_module_id);
        message.append(" -> ");
        message.append(in_port_id);
        Ok(message)
    }

    /// Connect a control's output port to a module's input port. Controls
    /// are only ever sources and receive no scheduling position, so no
    /// order is re-derived. Every failure leaves the rack unchanged.
    pub fn connect_ctrl(
        &mut self,
        ctrl_id: &str,
        ctrl_port_id: &str,
        in_module_id: &str,
        in_port_id: &str,
    ) -> (r: Result<String, RackError>)
        requires
            old(self).wf(),
        ensures
            final(self).wf(),
            ctrl_connect_post(*old(self), *final(self), r, ctrl_id@, ctrl_port_id@,
                in_module_id@, in_port_id@),
    {
        let ci = match self.control_index.get(ctrl_id) {
            Some(c) => c,
            None => {
                return Err(RackError::ModuleNotFound(ModuleNotFoundError));
            },
        };
        let slot = match self.controls[ci].get_port_reference(ctrl_port_id) {
            Some(s) => s,
            None => {
                return Err(RackError::PortNotFound(PortNotFoundError));
            },
        };
        let mi = match self.module_index.get(in_module_id) {
            Some(i) => i,
            None => {
                return Err(RackError::ModuleNotFound(ModuleNotFoundError));
            },
        };
        let ghost pre = *self;
        let wire_message = match self.modules[mi].set_in_port(in_port_id, Some(slot)) {
            Ok(m) => m,
            Err(_) => {
                proof {
                    lemma_declares_iff_relinked(pre.modules@[mi as int], in_port_id@, Some(slot));
                    assert(self.modules@ =~= pre.modules@);
                }
                return Err(RackError::PortNotFound(PortNotFoundError));
            },
        };
        proof {
            lemma_declares_iff_relinked(pre.modules@[mi as int], in_port_id@, Some(slot));
            lemma_relinked_preserves(pre.modules@[mi as int], in_port_id@, Some(slot),
                self.bank@);
            assert(self.modules@ =~= pre.modules@.update(mi as int,
                pre.modules@[mi as int].relinked(in_port_id@, Some(slot)).unwrap()));
            Rack::lemma_update_module_wf(
                pre,
                *self,
                mi as int,
                pre.modules@[mi as int].relinked(in_port_id@, Some(slot)).unwrap(),
            );
        }

        let mut message = String::new();
        message.append("connected control ");
        message.append(ctrl_id);
        message.append(" -> ");
        message.append(ctrl_port_id);
        message.append(" to module ");
        message.append(in_module_id);
        message.append(" -> ");
        message.append(in_port_id);
        message.append(". ");
        message.append(wire_message.as_str());
        Ok(message)
    }

    /// Rebind the named input of the named module to a never-resolving
    /// reference, so it reads its configured default again. The position
    /// index is not revisited (a documented limitation). Every failure
    /// leaves the rack unchanged.
    pub fn disconnect_module(&mut self, module_id: &str, port_id: &str) -> (r: Result<
        String,
        RackError,
    >)
        requires
            old(self).wf(),
        ensures
            final(self).wf(),
            disconnect_post(*old(self), *final(self), r, module_id@, port_id@),
    {
        let mi = match self.module_index.get(module_id) {
            Some(i) => i,
            None => {
                return Err(RackError::ModuleNotFound(ModuleNotFoundError));
            },
        };
        let ghost pre = *self;
        match self.modules[mi].set_in_port(port_id, None) {
            Ok(_) => {},
            Err(_) => {
                proof {
                    lemma_declares_iff_relinked(pre.modules@[mi as int], port_id@, None);
                    assert(self.modules@ =~= pre.modules@);
                }
                return Err(RackError::PortNotFound(PortNotFoundError));
            },
        }
        proof {
            lemma_declares_iff_relinked(pre.modules@[mi as int], port_id@, None);
            lemma_relinked_preserves(pre.modules@[mi as int], port_id@, None, self.bank@);
            assert(self.modules@ =~= pre.modules@.update(mi as int,
                pre.modules@[mi as int].relinked(port_id@, None).unwrap()));
            Rack::lemma_update_module_wf(
                pre,
                *self,
                mi as int,
                pre.modules@[mi as int].relinked(port_id@, None).unwrap(),
            );
        }

        let mut message = String::new();
        message.append("disconnected ");
        message.append(port_id);
        message.append(" from module ");
        message.append(module_id);
        Ok(message)
    }

    /// Evaluate one tick: iterate the position buckets ascending from 1,
    /// process every scheduled module in each, then advance the clock
    /// once. The returned vector holds this tick's emitted samples, in
    /// processing order; the caller hands them to the audio bridge.
    /// Unscheduled modules are never evaluated.
    #[verifier::rlimit(50)]
    pub fn process_module_chain(&mut self) -> (out: Vec<i64>)
        requires
            old(self).wf(),
        ensures
            final(self).wf(),
            ({
                let rr = run_schedule(old(self).modules@, old(self).bank@,
                    tick_schedule(old(self).chain@), old(self).clock.time_delta as int,
                    old(self).clock.time as int);
                &&& final(self).modules@ == rr.0
                &&& final(self).bank@ == rr.1
                &&& out@ == rr.2
            }),
            final(self).clock.time == (if old(self).clock.time >= crate::clock::TIME_WRAP {
                old(self).clock.time - crate::clock::TIME_WRAP
            } else {
                old(self).clock.time + old(self).clock.time_delta
            }),
            final(self).clock.time_delta == old(self).clock.time_delta,
            final(self).clock.running == old(self).clock.running,
            final(self).chain@ == old(self).chain@,
            final(self).controls@ == old(self).controls@,
            final(self).module_index == old(self).module_index,
            final(self).control_index == old(self).control_index,
            final(self).focussed_control == old(self).focussed_control,
            final(self).running == old(self).running,
    {
        let ghost m0 = self.modules@;
        let ghost b0 = self.bank@;
        let ghost delta = self.clock.time_delta as int;
        let ghost now = self.clock.time as int;

        // Flatten the position buckets into this tick's processing order.
        let mut sched: Vec<usize> = Vec::new();
        let mut p: usize = 1;
        while p < self.chain.len()
            invariant
                *self == *old(self),
                old(self).wf(),
                1 <= p <= self.chain@.len(),
                sched@ + flatten_from(self.chain@, p as int) == tick_schedule(self.chain@),
                forall|k: int| 0 <= k < sched@.len() ==> (#[trigger] sched@[k]) < self.modules@.len(),
            decreases self.chain@.len() - p,
        {
            let bucket_len = self.chain[p].len();
            let mut k: usize = 0;
            let ghost sched_before = sched@;
            while k < bucket_len
                invariant
                    *self == *old(self),
                    1 <= p < self.chain@.len(),
                    bucket_len == self.chain@[p as int]@.len(),
                    k <= bucket_len,
                    sched@ == sched_before + self.chain@[p as int]@.subrange(0, k as int),
                    old(self).wf(),
                decreases bucket_len - k,
            {
                sched.push(self.chain[p][k]);
                proof {
                    assert(sched@ =~= sched_before + self.chain@[p as int]@.subrange(0,
                        k + 1 as int));
                }
                k = k + 1;
            }
            proof {
                assert(self.chain@[p as int]@.subrange(0, bucket_len as int) =~= self.chain@[
                    p as int]@);
                assert(sched@ + flatten_from(self.chain@, p + 1 as int) =~= sched_before
                    + flatten_from(self.chain@, p as int));
                assert forall|k2: int| 0 <= k2 < sched@.len() implies (#[trigger] sched@[k2])
                    < self.modules@.len() by {
                    if k2 >= sched_before.len() {
                        assert(self.chain@[p as int]@[k2 - sched_before.len()]
                            < self.modules@.len());
                    }
                }
            }
            p = p + 1;
        }
        proof {
            assert(flatten_from(self.chain@, self.chain@.len() as int) =~= Seq::<usize>::empty());
            assert(sched@ =~= tick_schedule(self.chain@));
        }

        // Process the schedule in order, collecting emitted samples.
        let ghost sched0 = sched@;
        proof {
            assert(sched0.subrange(0, sched0.len() as int) =~= sched0);
            assert(Seq::<i64>::empty() + run_schedule(m0, b0, sched0, delta, now).2
                =~= run_schedule(m0, b0, sched0, delta, now).2);
        }
        let mut out: Vec<i64> = Vec::new();
        let mut n: usize = 0;
        while n < sched.len()
            invariant
                n <= sched@.len(),
                sched@ == sched0,
                forall|k: int| 0 <= k < sched0.len() ==> (#[trigger] sched0[k]) < m0.len(),
                self.modules@.len() == m0.len(),
                self.bank@.len() == b0.len(),
                self.chain == old(self).chain,
                self.controls == old(self).controls,
                self.module_index == old(self).module_index,
                self.control_index == old(self).control_index,
                self.focussed_control == old(self).focussed_control,
                self.clock == old(self).clock,
                self.running == old(self).running,
                delta == self.clock.time_delta as int,
                now == self.clock.time as int,
                self.clock.wf(),
                forall|i: int|
                    0 <= i < self.modules@.len() ==> (#[trigger] self.modules@[i]).wf()
                        && self.modules@[i].slots_in(self.bank@),
                forall|i: int|
                    0 <= i < self.modules@.len() ==> (#[trigger] self.modules@[i]).id_spec()
                        == m0[i].id_spec() && self.modules@[i].order_spec() == m0[i].order_spec(),
                ({
                    let full = run_schedule(m0, b0, sched0, delta, now);
                    let rem = run_schedule(self.modules@, self.bank@,
                        sched0.subrange(n as int, sched0.len() as int), delta, now);
                    &&& rem.0 == full.0
                    &&& rem.1 == full.1
                    &&& out@ + rem.2 == full.2
                }),
            decreases sched@.len() - n,
        {
            let idx = sched[n];
            let ghost pre_mods = self.modules@;
            let ghost pre_bank = self.bank@;
            let ghost pre_out = out@;
            let sample = self.modules[idx].process_inputs(&mut self.bank, &self.clock);
            match sample {
                Some(v) => out.push(v),
                None => {},
            }
            proof {
                let suffix = sched0.subrange(n as int, sched0.len() as int);
                assert(suffix[0] == sched0[n as int]);
                assert(suffix.subrange(1, suffix.len() as int) =~= sched0.subrange(n + 1,
                    sched0.len() as int));
                let step = pre_mods[idx as int].step_result(pre_bank, delta, now);
                assert(self.modules@ =~= pre_mods.update(idx as int, step.0));
                crate::modules::io_module::lemma_step_preserves_identity(pre_mods[idx as int],
                    pre_bank, delta, now);
                assert forall|i: int| 0 <= i < self.modules@.len() implies (
                #[trigger] self.modules@[i]).wf() && self.modules@[i].slots_in(self.bank@) by {
                    if i != idx as int {
                        assert(self.modules@[i] == pre_mods[i]);
                        assert(pre_mods[i].slots_in(pre_bank));
                    }
                }
                if step.2 is Some {
                    assert(out@ =~= pre_out + seq![step.2.unwrap()]);
                    assert(pre_out + (seq![step.2.unwrap()] + run_schedule(self.modules@,
                        self.bank@, sched0.subrange(n + 1, sched0.len() as int), delta,
                        now).2) =~= out@ + run_schedule(self.modules@, self.bank@,
                        sched0.subrange(n + 1, sched0.len() as int), delta, now).2);
                }
            }
            n = n + 1;
        }
        proof {
            assert(sched0.subrange(sched0.len() as int, sched0.len() as int) =~= Seq::<
                usize,
            >::empty());
            assert(out@ + Seq::<i64>::empty() =~= out@);
        }

        // After all positions are evaluated, advance the clock once.
        self.clock.increment();

        proof {
            let post = *self;
            let pre = *old(self);
            assert(post.modules@.len() == pre.modules@.len());
            let m = id_map_contents(post.module_index);
            assert forall|id: Seq<char>| #[trigger] m.dom().contains(id) implies m[id]
                < post.modules@.len() && post.modules@[m[id] as int].id_spec() == id by {
                assert(pre.modules@[m[id] as int].id_spec() == id);
            }
            assert forall|i: int| 0 <= i < post.modules@.len() implies m.dom().contains(
                (#[trigger] post.modules@[i]).id_spec(),
            ) && m[post.modules@[i].id_spec()] == i by {
                assert(pre.modules@[i].id_spec() == post.modules@[i].id_spec());
            }
            assert forall|p2: int, k: int|
                0 <= p2 < post.chain@.len() && 0 <= k < post.chain@[p2]@.len() implies (
            #[trigger] post.chain@[p2]@[k]) < post.modules@.len() && post.modules@[post.chain@[
                p2]@[k] as int].order_spec() == Some(p2 as u64) by {
                assert(pre.modules@[pre.chain@[p2]@[k] as int].order_spec() == Some(p2 as u64));
            }
            assert forall|i: int|
                0 <= i < post.modules@.len() && (#[trigger] post.modules@[i]).order_spec()
                    is Some implies 1 <= post.modules@[i].order_spec().unwrap()
                < post.chain@.len() && post.chain@[post.modules@[
                i].order_spec().unwrap() as int]@.contains(i as usize) by {
                assert(pre.modules@[i].order_spec() == post.modules@[i].order_spec());
            }
            assert forall|i: int| 0 <= i < post.controls@.len() implies (
            #[trigger] post.controls@[i]).slots_in(post.bank@) by {
                assert(pre.controls@[i].slots_in(pre.bank@));
            }
            assert(post.controls@ == pre.controls@);
            assert(id_map_contents(post.control_index) == id_map_contents(pre.control_index));
            assert(post.control_index_ok());
        }
        out
    }

    /// Give the named control the key focus. An absent id fails with
    /// `ModuleNotFoundError` and changes nothing.
    pub fn set_focus_control(&mut self, ctrl_id: &str) -> (r: ModuleResult<String>)
        requires
            old(self).wf(),
        ensures
            final(self).wf(),
            ({
                let c = id_map_contents(old(self).control_index);
                if c.dom().contains(ctrl_id@) {
                    &&& r is Ok
                    &&& final(self).focussed_control == Some(c[ctrl_id@])
                    &&& *final(self) == (Rack {
                        focussed_control: final(self).focussed_control,
                        ..*old(self)
                    })
                } else {
                    &&& r == Err::<String, ModuleNotFoundError>(ModuleNotFoundError)
                    &&& *final(self) == *old(self)
                }
            }),
    {
        let ci = match self.control_index.get(ctrl_id) {
            Some(c) => c,
            None => {
                return Err(ModuleNotFoundError);
            },
        };
        self.focussed_control = Some(ci);
        let mut message = String::new();
        message.append(ctrl_id);
        message.append(" focussed");
        Ok(message)
    }

    /// Deliver a key event to whichever control currently holds the
    /// focus; with no focus the key is dropped.
    pub fn send_control_key(&mut self, key: char)
        requires
            old(self).wf(),
        ensures
            final(self).wf(),
            final(self).bank@ == match old(self).focussed_control {
                Some(ci) => old(self).controls@[ci as int].key_effect(old(self).bank@, key),
                None => old(self).bank@,
            },
            *final(self) == (Rack { bank: final(self).bank, ..*old(self) }),
    {
        let ci = match self.focussed_control {
            Some(c) => c,
            None => {
                return ;
            },
        };
        let ghost pre = *self;
        self.controls[ci].recv_control_key(&mut self.bank, key);
        proof {
            assert(self.bank@.len() == pre.bank@.len());
            Rack::lemma_units_ok_bank_grow(pre, *self);
        }
    }

    /// Set the named output port of the named control directly, as an
    /// external event would. A `None` value leaves the port untouched; an
    /// absent control id fails with `ModuleNotFoundError` and changes
    /// nothing; an undeclared port is ignored, as the control itself
    /// ignores it.
    pub fn set_ctrl_value(&mut self, ctrl_id: &str, port_id: &str, value: Option<i64>) -> (r:
        ModuleResult<String>)
        requires
            old(self).wf(),
        ensures
            final(self).wf(),
            ({
                let c = id_map_contents(old(self).control_index);
                if c.dom().contains(ctrl_id@) {
                    &&& r is Ok
                    &&& final(self).bank@ == match value {
                        Some(v) => old(self).controls@[c[ctrl_id@] as int].set_effect(
                            old(self).bank@,
                            port_id@,
                            v,
                        ),
                        None => old(self).bank@,
                    }
                    &&& *final(self) == (Rack { bank: final(self).bank, ..*old(self) })
                } else {
                    &&& r == Err::<String, ModuleNotFoundError>(ModuleNotFoundError)
                    &&& *final(self) == *old(self)
                }
            }),
    {
        let ci = match self.control_index.get(ctrl_id) {
            Some(c) => c,
            None => {
                return Err(ModuleNotFoundError);
            },
        };
        let ghost pre = *self;
        match value {
            Some(v) => {
                self.controls[ci].set_value(&mut self.bank, port_id, v);
                proof {
                    assert(self.bank@.len() == pre.bank@.len());
                    Rack::lemma_units_ok_bank_grow(pre, *self);
                }
            },
            None => {},
        }
        let mut message = String::new();
        message.append("Updated control ");
        message.append(ctrl_id);
        Ok(message)
    }

    /// Describe the declared ports of the named module — or of every
    /// module, given `None`. An unknown id yields the bare header.
    pub fn print_ports(&self, module_id: Option<&str>) -> (r: String)
        requires
            self.wf(),
        ensures
            r@ == match module_id {
                Some(mid) => {
                    let m = id_map_contents(self.module_index);
                    if m.dom().contains(mid@) {
                        "Ports: \n"@ + ports_block(self.modules@[m[mid@] as int]) + "\n"@
                    } else {
                        "Ports: \n"@ + Seq::<char>::empty() + "\n"@
                    }
                },
                None => "Ports: \n"@ + all_ports_listing(self.modules@, 0) + "\n"@,
            },
    {
        let mut output = String::new();
        output.append("Ports: \n");
        match module_id {
            Some(mid) => {
                match self.module_index.get(mid) {
                    Some(mi) => {
                        let block = ports_block_string(&self.modules[mi]);
                        output.append(block.as_str());
                    },
                    None => {},
                }
            },
            None => {
                let n = self.modules.len();
                let mut i: usize = 0;
                while i < n
                    invariant
                        self.wf(),
                        n == self.modules@.len(),
                        i <= n,
                        output@ + all_ports_listing(self.modules@, i as int) == "Ports: \n"@
                            + all_ports_listing(self.modules@, 0),
                    decreases n - i,
                {
                    let block = ports_block_string(&self.modules[i]);
                    output.append(block.as_str());
                    i = i + 1;
                }
                proof {
                    assert(all_ports_listing(self.modules@, n as int) =~= Seq::<char>::empty());
                    assert(output@ + Seq::<char>::empty() =~= output@);
                }
            },
        }
        output.append("\n");
        output
    }

    /// Print the connections between a rack's two items. Listing the
    /// wiring between two named endpoints is left out of this design;
    /// the call is accepted and reports nothing.
    pub fn print_connection(&self, _module_a: &str, _module_b: &str) {
    }

    /// Describe the position index: each position with the ids of the
    /// modules scheduled there, ascending.
    pub fn print_module_order(&self) -> (r: String)
        requires
            self.wf(),
        ensures
            r@ == "Module order:\n"@ + order_listing(self.chain@, self.modules@, 1) + "\n"@,
    {
        let mut output = String::new();
        output.append("Module order:\n");
        let n = self.chain.len();
        let mut p: usize = 1;
        while p < n
            invariant
                self.wf(),
                n == self.chain@.len(),
                1 <= p <= n,
                output@ + order_listing(self.chain@, self.modules@, p as int) == "Module order:\n"@
                    + order_listing(self.chain@, self.modules@, 1),
            decreases n - p,
        {
            output.append("    Modules in position ");
            let pos_str = crate::text::u64_to_string(p as u64);
            output.append(pos_str.as_str());
            output.append(":\n");
            let bucket_len = self.chain[p].len();
            let mut k: usize = 0;
            while k < bucket_len
                invariant
                    self.wf(),
                    1 <= p < self.chain@.len(),
                    bucket_len == self.chain@[p as int]@.len(),
                    k <= bucket_len,
                    output@ + bucket_listing(self.chain@, self.modules@, p as int, k as int)
                        + order_listing(self.chain@, self.modules@, p + 1) == "Module order:\n"@
                        + order_listing(self.chain@, self.modules@, 1),
                decreases bucket_len - k,
            {
                output.append("        ");
                let idx = self.chain[p][k];
                output.append(self.modules[idx].get_id().as_str());
                output.append("\n");
                k = k + 1;
            }
            p = p + 1;
        }
        proof {
            assert(order_listing(self.chain@, self.modules@, n as int) =~= Seq::<char>::empty());
            assert(output@ + Seq::<char>::empty() =~= output@);
        }
        output.append("\n");
        output
    }

    /// List the ids of the rack's modules and controls.
    pub fn print_modules(&self) -> (r: String)
        requires
            self.wf(),
        ensures
            r@ == "Modules:\n"@ + module_ids_listing(self.modules@, 0) + "\n"@ + "Controls:\n"@
                + control_ids_listing(self.controls@, 0) + "\n"@,
    {
        let mut output = String::new();
        output.append("Modules:\n");
        let n = self.modules.len();
        let mut i: usize = 0;
        while i < n
            invariant
                self.wf(),
                n == self.modules@.len(),
                i <= n,
                output@ + module_ids_listing(self.modules@, i as int) == "Modules:\n"@
                    + module_ids_listing(self.modules@, 0),
            decreases n - i,
        {
            output.append("    ");
            output.append(self.modules[i].get_id().as_str());
            output.append("\n");
            i = i + 1;
        }
        proof {
            assert(module_ids_listing(self.modules@, n as int) =~= Seq::<char>::empty());
            assert(output@ + Seq::<char>::empty() =~= output@);
        }
        output.append("\n");
        output.append("Controls:\n");
        let ghost mid_part = output@;
        let cn = self.controls.len();
        let mut i: usize = 0;
        while i < cn
            invariant
                self.wf(),
                cn == self.controls@.len(),
                i <= cn,
                output@ + control_ids_listing(self.controls@, i as int) == mid_part
                    + control_ids_listing(self.controls@, 0),
            decreases cn - i,
        {
            output.append("    ");
            let id = self.controls[i].get_id();
            output.append(id.as_str());
            output.append("\n");
            i = i + 1;
        }
        proof {
            assert(control_ids_listing(self.controls@, cn as int) =~= Seq::<char>::empty());
            assert(output@ + Seq::<char>::empty() =~= output@);
        }
        output.append("\n");
        output
    }

    /// Mark the rack as running; checked cooperatively by the driver loop
    /// between ticks.
    pub fn run(&mut self)
        ensures
            *final(self) == (Rack { running: true, ..*old(self) }),
    {
        self.running = true;
    }

    /// Mark the rack as stopped.
    pub fn stop(&mut self)
        ensures
            *final(self) == (Rack { running: false, ..*old(self) }),
    {
        self.running = false;
    }
}

impl Default for Rack {
    /// A new, empty rack.
    fn default() -> (r: Rack)
        ensures
            r.wf(),
            r.modules@.len() == 0,
            r.controls@.len() == 0,
            r.clock.time == 0,
            r.clock.time_delta == SAMPLE_SCALE / SAMPLE_RATE,
            r.running,
    {
        Rack::new()
    }
}

} // verus!
