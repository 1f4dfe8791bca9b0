//! The global context, which the application defines once for the program.
use vstd::prelude::*;

verus! {

/// The global context. It holds nothing itself: the application that defines
/// the global context supplies its queues.
#[derive(Copy, Clone, Default, Debug, PartialEq, Eq)]
pub struct Global;

impl Global {
    /// The global context.
    pub fn get() -> (g: &'static Global)
        ensures
            *g == Global,
    {
        &Global
    }
}

} // verus!
