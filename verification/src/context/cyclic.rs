//! A context that hands out its command queues in turn.
use vstd::prelude::*;
use std::sync::atomic::AtomicUsize;

verus! {

/// The slot that follows `prev` in a cycle of `len` slots.
pub open spec fn cycle_step(prev: int, len: int) -> int {
    if prev + 1 == len {
        0
    } else {
        prev + 1
    }
}

/// The slot reached after `k` steps from slot 0.
pub open spec fn cycle_after(k: nat, len: int) -> int
    decreases k,
{
    if k == 0 {
        0
    } else {
        cycle_step(cycle_after((k - 1) as nat, len), len)
    }
}

/// The slot after `prev` in a cycle of `len` queues: the next one, or the
/// first after the last.
pub fn next_cyclic_index(prev: usize, len: usize) -> (next: usize)
    requires
        prev < len,
    ensures
        next == cycle_step(prev as int, len as int),
        next < len,
{
    let next = prev + 1;
    if next == len {
        0
    } else {
        next
    }
}

/// Starting at the first queue, the `k`-th queue handed out is the one at
/// index `k` modulo the number of queues: every queue gets its turn, in order.
pub proof fn law_cycle_visits_in_order(k: nat, len: int)
    requires
        len > 0,
    ensures
        cycle_after(k, len) == (k as int) % len,
        0 <= cycle_after(k, len) < len,
    decreases k,
{
    if k > 0 {
        law_cycle_visits_in_order((k - 1) as nat, len);
        let prev = cycle_after((k - 1) as nat, len);
        assert(prev == (k - 1) % len);
        if prev + 1 == len {
            assert((k as int) % len == 0) by (nonlinear_arith)
                requires
                    (k - 1) % len == len - 1,
                    len > 0,
                    k > 0,
            ;
        } else {
            assert((k as int) % len == (k - 1) % len + 1) by (nonlinear_arith)
                requires
                    (k - 1) % len + 1 < len,
                    len > 0,
                    k > 0,
            ;
        }
    }
}

/// The value the shared slot counter of a context with `len` queues moves to
/// from `prev`: the slot after it, a value that is no slot counting as the first.
pub open spec fn counter_step(prev: int, len: int) -> int {
    cycle_step(if 0 <= prev < len { prev } else { 0 }, len)
}

/// The value of the shared slot counter after `k` updates from its start at 0.
pub open spec fn counter_after(k: nat, len: int) -> int
    decreases k,
{
    if k == 0 {
        0
    } else {
        counter_step(counter_after((k - 1) as nat, len), len)
    }
}

/// A context's counter starts at the first slot and each update moves it one
/// slot on, back to the first after the last: after `k` updates on one
/// thread it holds `k` modulo the number of queues, so the `k`-th call of
/// `next_queue` takes slot `k mod len`, each queue in turn.
pub proof fn law_counter_cycles(k: nat, len: int)
    requires
        len > 0,
    ensures
        counter_after(k, len) == (k as int) % len,
        0 <= counter_after(k, len) < len,
    decreases k,
{
    law_cycle_visits_in_order(k, len);
    if k > 0 {
        law_counter_cycles((k - 1) as nat, len);
        law_cycle_visits_in_order((k - 1) as nat, len);
        assert(counter_after((k - 1) as nat, len) == cycle_after((k - 1) as nat, len));
    }
}

/// The value a shared slot counter moves to from `prev` in a cycle of `len`
/// queues: the slot after `prev`, where a value that is no slot counts as
/// the first slot.
pub fn advance_cycle(prev: usize, len: usize) -> (next: usize)
    requires
        len > 0,
    ensures
        next == counter_step(prev as int, len as int),
        next < len,
{
    next_cyclic_index(queue_slot(prev, len), len)
}

/// Takes the current slot of the context's counter and moves the counter to
/// the next slot of a cycle over the context's slot count (its number of
/// queues), returning the slot it held.
///
/// Calls `AtomicUsize::fetch_update` on the counter, whose update closure is
/// the verified `advance_cycle` applied to the context's slot count field,
/// defined for every counter value once that count is positive. The value
/// returned is whatever the counter held, which depends on every other thread
/// that shares it: nothing is stated of it.
#[verifier::external_body]
fn take_cyclic_slot<C, Q>(ctx: &CyclicContext<C, Q>) -> usize
    requires
        ctx.slot_count() > 0,
{
    match ctx.idx.fetch_update(
        std::sync::atomic::Ordering::AcqRel,
        std::sync::atomic::Ordering::Acquire,
        |prev| Some(advance_cycle(prev, ctx.slots)),
    ) {
        Ok(prev) => prev,
        Err(prev) => prev,
    }
}

/// The queue to use for a slot read from the shared counter: the slot itself
/// when it is a valid index, the first queue otherwise.
pub fn queue_slot(slot: usize, len: usize) -> (i: usize)
    requires
        len > 0,
    ensures
        i < len,
        slot < len ==> i == slot,
        slot >= len ==> i == 0,
{
    if slot < len {
        slot
    } else {
        0
    }
}

/// A context with one command queue per device, each used in turn.
pub struct CyclicContext<C, Q> {
    ctx: C,
    queues: Vec<Q>,
    slots: usize,
    idx: AtomicUsize,
}

impl<C, Q> CyclicContext<C, Q> {
    #[verifier::type_invariant]
    spec fn has_queues(self) -> bool {
        &&& self.queues.len() > 0
        &&& self.slots == self.queues.len()
    }

    /// The number of slots the shared counter cycles over: one per queue.
    pub closed spec fn slot_count(&self) -> nat {
        self.slots as nat
    }

    /// The queues, in device order.
    pub closed spec fn spec_queues(&self) -> Seq<Q> {
        self.queues@
    }

    /// The underlying context.
    pub closed spec fn spec_ctx(&self) -> C {
        self.ctx
    }

    /// A cyclic context over `ctx` with the given queues; the first queue is
    /// handed out first.
    pub fn new(ctx: C, queues: Vec<Q>) -> (r: Self)
        requires
            queues.len() > 0,
        ensures
            r.spec_queues() == queues@,
            r.spec_ctx() == ctx,
            r.slot_count() == queues@.len(),
    {
        let slots = queues.len();
        CyclicContext { ctx, queues, slots, idx: AtomicUsize::new(0) }
    }

    /// The underlying context.
    pub fn as_raw(&self) -> (c: &C)
        ensures
            *c == self.spec_ctx(),
    {
        &self.ctx
    }

    /// The queues, in device order.
    pub fn queues(&self) -> (q: &[Q])
        ensures
            q@ == self.spec_queues(),
            q@.len() > 0,
    {
        proof {
            use_type_invariant(self);
        }
        self.queues.as_slice()
    }

    /// The next queue in turn.
    pub fn next_queue(&self) -> (q: &Q)
        ensures
            exists|i: int| 0 <= i < self.spec_queues().len() && *q == self.spec_queues()[i],
    {
        proof {
            use_type_invariant(self);
        }
        let len = self.queues.len();
        let slot = take_cyclic_slot(self);
        let i = queue_slot(slot, len);
        let q = &self.queues[i];
        assert(*q == self.spec_queues()[i as int]);
        q
    }
}

} // verus!
