//! Handles to OpenCL events.
use vstd::prelude::*;

verus! {

/// A handle to an OpenCL event, known by the identifier the runtime gave it.
#[derive(Debug, Clone, Copy, PartialEq, Eq, Hash, Structural)]
pub struct RawEvent {
    pub id: usize,
}

impl RawEvent {
    /// The event with identifier `id`.
    pub fn from_id(id: usize) -> (e: Self)
        ensures
            e.id == id,
    {
        RawEvent { id }
    }
}

/// Events that an operation waits for before it starts.
pub type WaitList = Vec<RawEvent>;

} // verus!
