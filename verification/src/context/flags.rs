//! Context properties and their encoding as a property list.
use vstd::prelude::*;
use crate::cl;
use crate::base::platform::RawPlatform;

verus! {

/// The properties a context is created with.
#[derive(Debug, Clone, Copy, PartialEq, Eq, Hash)]
#[non_exhaustive]
pub struct ContextProperties {
    /// Specifies the platform to use.
    pub platform: Option<RawPlatform>,
    /// Specifies whether the user is responsible for synchronization between OpenCL and other APIs.
    pub interop_user_sync: bool,
}

/// The identifier a platform is written with in a property list.
pub open spec fn platform_word(p: RawPlatform) -> isize {
    p.spec_id() as isize
}

/// The property list that encodes `p`, if any is needed.
pub open spec fn context_list_bits(p: ContextProperties) -> Option<Seq<isize>> {
    match p.platform {
        Some(platform) => Some(
            seq![
                cl::CL_CONTEXT_PLATFORM,
                platform_word(platform),
                cl::CL_CONTEXT_INTEROP_USER_SYNC,
                if p.interop_user_sync { 1isize } else { 0isize },
                0isize,
            ],
        ),
        None => if p.interop_user_sync {
            Some(seq![cl::CL_CONTEXT_PLATFORM, 0isize, cl::CL_CONTEXT_INTEROP_USER_SYNC, 1isize, 0isize])
        } else {
            None
        },
    }
}

/// Whether [`ContextProperties::from_bits`] can read `bits`: empty, a zero
/// key, or the platform key and its value followed by a zero key or by the
/// interop key and its value.
pub open spec fn context_list_ok(bits: Seq<isize>) -> bool {
    bits.len() == 0 || bits[0] == 0 || (bits[0] == cl::CL_CONTEXT_PLATFORM && bits.len() >= 3 && (
    bits[2] == 0 || (bits[2] == cl::CL_CONTEXT_INTEROP_USER_SYNC && bits.len() >= 4)))
}

/// Whether [`ContextProperties::from_bits`] can read `bits`.
pub fn context_list_valid(bits: &[isize]) -> (b: bool)
    ensures
        b == context_list_ok(bits@),
{
    let n = bits.len();
    n == 0 || bits[0] == 0 || (bits[0] == cl::CL_CONTEXT_PLATFORM && n >= 3 && (bits[2] == 0 || (
    bits[2] == cl::CL_CONTEXT_INTEROP_USER_SYNC && n >= 4)))
}

/// What [`ContextProperties::from_bits`] reads from a property list.
pub open spec fn context_of_list(bits: Seq<isize>) -> ContextProperties {
    if bits.len() == 0 || bits[0] != cl::CL_CONTEXT_PLATFORM {
        ContextProperties { platform: None, interop_user_sync: false }
    } else {
        ContextProperties {
            platform: RawPlatform::of_id(bits[1] as usize),
            interop_user_sync: bits[2] == cl::CL_CONTEXT_INTEROP_USER_SYNC && bits[3] != 0,
        }
    }
}

impl ContextProperties {
    pub fn new(platform: Option<RawPlatform>, interop_user_sync: bool) -> (p: Self)
        ensures
            p == (ContextProperties { platform, interop_user_sync }),
    {
        Self { platform, interop_user_sync }
    }

    pub fn const_new(platform: Option<RawPlatform>, interop_user_sync: bool) -> (p: Self)
        ensures
            p == (ContextProperties { platform, interop_user_sync }),
    {
        Self { platform, interop_user_sync }
    }

    /// The zero-terminated property list for `clCreateContext`, or `None` when
    /// the defaults need no list.
    pub fn to_bits(&self) -> (bits: Option<[isize; 5]>)
        ensures
            match context_list_bits(*self) {
                Some(s) => bits matches Some(a) && a@ == s,
                None => bits is None,
            },
    {
        if let Some(platform) = self.platform {
            let sync: isize = if self.interop_user_sync { 1 } else { 0 };
            let id = platform.id() as isize;
            return Some([
                cl::CL_CONTEXT_PLATFORM,
                id,
                cl::CL_CONTEXT_INTEROP_USER_SYNC,
                sync,
                0,
            ]);
        }
        if self.interop_user_sync {
            return Some([cl::CL_CONTEXT_PLATFORM, 0, cl::CL_CONTEXT_INTEROP_USER_SYNC, 1, 0]);
        }
        None
    }

    /// Reads a property list as returned by the OpenCL runtime.
    pub fn from_bits(bits: &[isize]) -> (p: Self)
        requires
            context_list_ok(bits@),
        ensures
            p == context_of_list(bits@),
    {
        if bits.len() == 0 {
            return Self::default();
        }
        if bits[0] == cl::CL_CONTEXT_PLATFORM {
            let platform = RawPlatform::from_id(bits[1] as usize);
            if bits[2] == cl::CL_CONTEXT_INTEROP_USER_SYNC {
                let interop_user_sync = bits[3] != 0;
                Self::new(platform, interop_user_sync)
            } else {
                Self::new(platform, false)
            }
        } else {
            Self::default()
        }
    }
}

impl Default for ContextProperties {
    fn default() -> (p: Self)
        ensures
            p == (ContextProperties { platform: None, interop_user_sync: false }),
    {
        Self { platform: None, interop_user_sync: false }
    }
}

impl From<RawPlatform> for ContextProperties {
    fn from(v: RawPlatform) -> (p: Self) {
        Self { platform: Some(v), interop_user_sync: false }
    }
}

impl vstd::std_specs::convert::FromSpecImpl<RawPlatform> for ContextProperties {
    open spec fn obeys_from_spec() -> bool {
        true
    }

    open spec fn from_spec(v: RawPlatform) -> Self {
        ContextProperties { platform: Some(v), interop_user_sync: false }
    }
}

impl From<Option<RawPlatform>> for ContextProperties {
    fn from(platform: Option<RawPlatform>) -> (p: Self) {
        Self { platform, interop_user_sync: false }
    }
}

impl vstd::std_specs::convert::FromSpecImpl<Option<RawPlatform>> for ContextProperties {
    open spec fn obeys_from_spec() -> bool {
        true
    }

    open spec fn from_spec(v: Option<RawPlatform>) -> Self {
        ContextProperties { platform: v, interop_user_sync: false }
    }
}

/// Reading back the property list of context properties gives them back;
/// properties that need no list are the defaults.
pub proof fn law_context_list_roundtrip(p: ContextProperties)
    requires
        p.platform matches Some(x) ==> x.spec_id() != 0,
    ensures
        context_list_bits(p) matches Some(s) ==> context_list_ok(s) && context_of_list(s) == p,
        context_list_bits(p) is None ==> p == (ContextProperties {
            platform: None,
            interop_user_sync: false,
        }),
{
    match p.platform {
        Some(x) => {
            let id = x.spec_id();
            use_id_nonzero(x);
            assert((id as isize) as usize == id) by (bit_vector);
            RawPlatform::lemma_of_id(id);
        },
        None => {
            RawPlatform::lemma_of_id(0);
        },
    }
}

proof fn use_id_nonzero(x: RawPlatform)
    ensures
        RawPlatform::of_id(x.spec_id()) == Some(x) || x.spec_id() == 0,
{
    RawPlatform::lemma_of_id(x.spec_id());
}

} // verus!
