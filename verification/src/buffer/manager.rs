//! Ordering of reads and writes on a memory object.
use vstd::prelude::*;
use crate::event::RawEvent;

verus! {

/// Who last accessed a memory object: nobody, a group of readers, or one writer.
#[derive(Debug, Clone)]
pub enum AccessManager {
    Idle,
    Reading(Vec<RawEvent>),
    Writing(RawEvent),
}

/// The abstract state of an [`AccessManager`].
#[verifier::ext_equal]
pub enum AccessState {
    Idle,
    Reading(Seq<RawEvent>),
    Writing(RawEvent),
}

impl View for AccessManager {
    type V = AccessState;

    open spec fn view(&self) -> AccessState {
        match self {
            AccessManager::Idle => AccessState::Idle,
            AccessManager::Reading(v) => AccessState::Reading(v@),
            AccessManager::Writing(e) => AccessState::Writing(*e),
        }
    }
}

/// The events a read must wait for: the last write, if the last access was a write.
pub open spec fn read_wait(s: AccessState) -> Seq<RawEvent> {
    match s {
        AccessState::Writing(e) => seq![e],
        _ => Seq::empty(),
    }
}

/// The events a write must wait for: every read since the last write, or the
/// last write itself.
pub open spec fn write_wait(s: AccessState) -> Seq<RawEvent> {
    match s {
        AccessState::Idle => Seq::empty(),
        AccessState::Reading(v) => v,
        AccessState::Writing(e) => seq![e],
    }
}

/// The state after a read through event `e`.
pub open spec fn after_read(s: AccessState, e: RawEvent) -> AccessState {
    match s {
        AccessState::Reading(v) => AccessState::Reading(v.push(e)),
        _ => AccessState::Reading(seq![e]),
    }
}

impl AccessManager {
    /// Appends to `wait` the events that a read must wait for.
    pub fn extend_to_read(&self, wait: &mut Vec<RawEvent>)
        ensures
            final(wait)@ == old(wait)@ + read_wait(self@),
    {
        match self {
            Self::Writing(x) => wait.push(*x),
            _ => {},
        }
        assert(wait@ =~= old(wait)@ + read_wait(self@));
    }

    /// Appends to `wait` the events that a write must wait for.
    pub fn extend_to_write(&self, wait: &mut Vec<RawEvent>)
        ensures
            final(wait)@ == old(wait)@ + write_wait(self@),
    {
        match self {
            Self::Reading(x) => {
                let mut i: usize = 0;
                while i < x.len()
                    invariant
                        i <= x@.len(),
                        wait@ == old(wait)@ + x@.take(i as int),
                    decreases x@.len() - i,
                {
                    wait.push(x[i]);
                    i = i + 1;
                    assert(wait@ =~= old(wait)@ + x@.take(i as int));
                }
                assert(x@.take(x@.len() as int) =~= x@);
            },
            Self::Writing(x) => wait.push(*x),
            _ => {},
        }
        assert(wait@ =~= old(wait)@ + write_wait(self@));
    }

    /// Records a read through event `evt`.
    pub fn read(&mut self, evt: RawEvent)
        ensures
            final(self)@ == after_read(old(self)@, evt),
    {
        let mut prev = AccessManager::Idle;
        std::mem::swap(&mut prev, self);
        match prev {
            Self::Reading(mut x) => {
                let ghost v0 = x@;
                x.push(evt);
                *self = Self::Reading(x);
                assert(self@ =~= AccessState::Reading(v0.push(evt)));
            },
            _ => {
                *self = Self::Reading(vec![evt]);
            },
        }
    }

    /// Records a write through event `evt`.
    pub fn write(&mut self, evt: RawEvent)
        ensures
            final(self)@ == AccessState::Writing(evt),
    {
        *self = Self::Writing(evt)
    }
}

impl Default for AccessManager {
    fn default() -> (m: Self)
        ensures
            m@ == AccessState::Idle,
    {
        AccessManager::Idle
    }
}

/// After a write, a read waits for that write alone, and so does a write.
pub proof fn law_write_then_wait(e: RawEvent)
    ensures
        read_wait(AccessState::Writing(e)) == seq![e],
        write_wait(AccessState::Writing(e)) == seq![e],
{
}

/// Reads never wait for one another: after a read, a further read waits for nothing.
pub proof fn law_reads_do_not_wait(s: AccessState, e: RawEvent)
    ensures
        read_wait(after_read(s, e)) == Seq::<RawEvent>::empty(),
{
}

/// The state after the reads `reads`, made one after another from state `s`.
pub open spec fn after_reads(s: AccessState, reads: Seq<RawEvent>) -> AccessState
    decreases reads.len(),
{
    if reads.len() == 0 {
        s
    } else {
        after_read(after_reads(s, reads.drop_last()), reads.last())
    }
}

/// Reads made after a write leave the object being read by exactly those reads.
pub proof fn lemma_reads_after_write(e: RawEvent, reads: Seq<RawEvent>)
    ensures
        after_reads(AccessState::Writing(e), reads) =~= (if reads.len() == 0 {
            AccessState::Writing(e)
        } else {
            AccessState::Reading(reads)
        }),
    decreases reads.len(),
{
    if reads.len() > 0 {
        lemma_reads_after_write(e, reads.drop_last());
        assert(reads.drop_last().push(reads.last()) =~= reads);
        if reads.len() == 1 {
            assert(seq![reads.last()] =~= reads);
        }
    }
}

/// A write waits for every read made since the last write, in the order they
/// were made; with no read since, it waits for the last write.
pub proof fn law_write_waits_for_reads(e: RawEvent, reads: Seq<RawEvent>)
    ensures
        write_wait(after_reads(AccessState::Writing(e), reads)) == (if reads.len() == 0 {
            seq![e]
        } else {
            reads
        }),
{
    lemma_reads_after_write(e, reads);
}

/// A read is always recorded: from any state, after a read through `e` a
/// write waits for `e` last, after the reads recorded since the last write;
/// after a write or on a fresh object, a read leaves a write waiting for that
/// read alone.
pub proof fn law_reads_are_recorded(s: AccessState, e: RawEvent)
    ensures
        write_wait(after_read(s, e)).len() > 0,
        write_wait(after_read(s, e)).last() == e,
        s matches AccessState::Reading(v) ==> write_wait(after_read(s, e)) == v.push(e),
        !(s is Reading) ==> write_wait(after_read(s, e)) == seq![e],
{
}

} // verus!
