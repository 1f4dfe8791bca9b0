//! Handles to OpenCL platforms.
use vstd::prelude::*;

verus! {

/// A handle to an OpenCL platform: the runtime's identifier, never null.
#[derive(Debug, Clone, Copy, PartialEq, Eq, Hash)]
pub struct RawPlatform {
    id: usize,
}

impl RawPlatform {
    #[verifier::type_invariant]
    spec fn nonnull(self) -> bool {
        self.id != 0
    }

    /// The identifier.
    pub closed spec fn spec_id(&self) -> usize {
        self.id
    }

    /// The identifier.
    pub fn id(&self) -> (id: usize)
        ensures
            id == self.spec_id(),
            id != 0,
    {
        proof {
            use_type_invariant(self);
        }
        self.id
    }

    /// The platform with identifier `id`, or `None` for a null identifier.
    pub closed spec fn of_id(id: usize) -> Option<RawPlatform> {
        if id == 0 {
            None
        } else {
            Some(RawPlatform { id })
        }
    }

    /// A platform is known by its identifier.
    pub proof fn lemma_of_id(id: usize)
        ensures
            id == 0 <==> Self::of_id(id) is None,
            Self::of_id(id) matches Some(x) ==> x.spec_id() == id,
            forall|p: RawPlatform| #[trigger] Self::of_id(p.spec_id()) == Some(p) || p.spec_id() == 0,
    {
    }

    /// The platform with identifier `id`, or `None` for a null identifier.
    pub fn from_id(id: usize) -> (p: Option<Self>)
        ensures
            p == Self::of_id(id),
            id == 0 <==> p is None,
            p matches Some(x) ==> x.spec_id() == id,
    {
        if id == 0 {
            None
        } else {
            Some(RawPlatform { id })
        }
    }

    /// The platform with identifier `id`, which must not be null.
    pub fn from_id_unchecked(id: usize) -> (p: Self)
        requires
            id != 0,
        ensures
            p.spec_id() == id,
    {
        RawPlatform { id }
    }
}

} // verus!
