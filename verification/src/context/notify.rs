//! A counter of pending work, decremented when a piece of work is done.
use vstd::prelude::*;
use std::sync::Arc;
use std::sync::atomic::AtomicUsize;

verus! {

/// A notifier: a handle on a count of pending work, shared between threads,
/// that is decremented once when the work it stands for is done.
#[derive(Debug)]
pub struct Notify(Arc<AtomicUsize>);

impl Notify {
    /// The shared count this notifier decrements.
    pub closed spec fn counter(&self) -> Arc<AtomicUsize> {
        self.0
    }

    /// A notifier on the shared count `count`.
    pub fn new(count: Arc<AtomicUsize>) -> (n: Self)
        ensures
            n.counter() == count,
    {
        Notify(count)
    }

    /// Marks the work done: decrements the shared count by one, with release
    /// ordering, and gives up the notifier.
    pub fn notify(self) {
        let _ = self.0.fetch_sub(1, std::sync::atomic::Ordering::Release);
    }
}

} // verus!
