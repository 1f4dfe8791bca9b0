//! Kernel argument qualifiers and memory object types.
use vstd::prelude::*;
use crate::cl;
use crate::buffer::flags::MemAccess;

verus! {

/// The address space a kernel argument lives in.
#[derive(Debug, Clone, Copy, PartialEq, Eq, Hash, Structural)]
pub enum AddrQualifier {
    Global,
    Local,
    Constant,
    Private,
}

/// The `cl_kernel_arg_address_qualifier` value of each address space.
pub open spec fn addr_code(q: AddrQualifier) -> u32 {
    match q {
        AddrQualifier::Global => cl::CL_KERNEL_ARG_ADDRESS_GLOBAL,
        AddrQualifier::Local => cl::CL_KERNEL_ARG_ADDRESS_LOCAL,
        AddrQualifier::Constant => cl::CL_KERNEL_ARG_ADDRESS_CONSTANT,
        AddrQualifier::Private => cl::CL_KERNEL_ARG_ADDRESS_PRIVATE,
    }
}

impl AddrQualifier {
    /// The `cl_kernel_arg_address_qualifier` value.
    pub fn code(self) -> (c: u32)
        ensures
            c == addr_code(self),
    {
        match self {
            AddrQualifier::Global => cl::CL_KERNEL_ARG_ADDRESS_GLOBAL,
            AddrQualifier::Local => cl::CL_KERNEL_ARG_ADDRESS_LOCAL,
            AddrQualifier::Constant => cl::CL_KERNEL_ARG_ADDRESS_CONSTANT,
            AddrQualifier::Private => cl::CL_KERNEL_ARG_ADDRESS_PRIVATE,
        }
    }

    /// The address space with code `c`, if there is one.
    pub fn from_code(c: u32) -> (q: Option<Self>)
        ensures
            q matches Some(x) ==> addr_code(x) == c,
            q is None ==> forall|x: AddrQualifier| addr_code(x) != c,
    {
        if c == cl::CL_KERNEL_ARG_ADDRESS_GLOBAL {
            Some(AddrQualifier::Global)
        } else if c == cl::CL_KERNEL_ARG_ADDRESS_LOCAL {
            Some(AddrQualifier::Local)
        } else if c == cl::CL_KERNEL_ARG_ADDRESS_CONSTANT {
            Some(AddrQualifier::Constant)
        } else if c == cl::CL_KERNEL_ARG_ADDRESS_PRIVATE {
            Some(AddrQualifier::Private)
        } else {
            proof {
                assert forall|x: AddrQualifier| addr_code(x) != c by {
                    match x {
                        AddrQualifier::Global => {},
                        AddrQualifier::Local => {},
                        AddrQualifier::Constant => {},
                        AddrQualifier::Private => {},
                    }
                }
            }
            None
        }
    }
}

impl Default for AddrQualifier {
    fn default() -> (q: Self)
        ensures
            q == AddrQualifier::Private,
    {
        Self::Private
    }
}

/// The access a kernel argument is declared with, from its
/// `cl_kernel_arg_access_qualifier` value.
pub fn arg_access(code: u32) -> (a: MemAccess)
    requires
        cl::CL_KERNEL_ARG_ACCESS_READ_ONLY <= code <= cl::CL_KERNEL_ARG_ACCESS_NONE,
    ensures
        code == cl::CL_KERNEL_ARG_ACCESS_READ_ONLY ==> a == (MemAccess { read: true, write: false }),
        code == cl::CL_KERNEL_ARG_ACCESS_WRITE_ONLY ==> a == (MemAccess { read: false, write: true }),
        code == cl::CL_KERNEL_ARG_ACCESS_READ_WRITE ==> a == (MemAccess { read: true, write: true }),
        code == cl::CL_KERNEL_ARG_ACCESS_NONE ==> a == (MemAccess { read: false, write: false }),
{
    if code == cl::CL_KERNEL_ARG_ACCESS_READ_ONLY {
        MemAccess::read_only()
    } else if code == cl::CL_KERNEL_ARG_ACCESS_WRITE_ONLY {
        MemAccess::write_only()
    } else if code == cl::CL_KERNEL_ARG_ACCESS_READ_WRITE {
        MemAccess::read_write()
    } else {
        MemAccess::none()
    }
}

/// Type qualifiers of a kernel argument.
#[derive(Debug, Clone, Copy, PartialEq, Eq, Hash, Structural)]
pub struct TypeQualifier {
    bits: u64,
}

impl TypeQualifier {
    /// Every flag that the set can hold.
    pub open spec fn all_bits() -> u64 {
        7u64
    }

    /// The bits of the set.
    pub closed spec fn spec_bits(&self) -> u64 {
        self.bits
    }

    /// The argument is declared `const`.
    pub fn const_qualifier() -> (f: Self)
        ensures
            f.spec_bits() == 1u64,
    {
        Self { bits: 1 }
    }

    /// The argument is declared `restrict`.
    pub fn restrict() -> (f: Self)
        ensures
            f.spec_bits() == 2u64,
    {
        Self { bits: 2 }
    }

    /// The argument is declared `volatile`.
    pub fn volatile() -> (f: Self)
        ensures
            f.spec_bits() == 4u64,
    {
        Self { bits: 4 }
    }

    /// The empty set.
    pub fn empty() -> (f: Self)
        ensures
            f.spec_bits() == 0,
    {
        Self { bits: 0 }
    }

    /// The set of every flag.
    pub fn all() -> (f: Self)
        ensures
            f.spec_bits() == Self::all_bits(),
    {
        Self { bits: 7 }
    }

    /// The bits of the set.
    pub fn bits(&self) -> (b: u64)
        ensures
            b == self.spec_bits(),
    {
        self.bits
    }

    /// The set with bits `bits`, or `None` when `bits` holds a bit that is no flag.
    pub fn from_bits(bits: u64) -> (f: Option<Self>)
        ensures
            bits & !Self::all_bits() == 0 ==> (f matches Some(x) && x.spec_bits() == bits),
            bits & !Self::all_bits() != 0 ==> f is None,
    {
        if bits & !7u64 == 0 {
            Some(Self { bits })
        } else {
            None
        }
    }

    /// The set of the flags among `bits`; other bits are dropped.
    pub fn from_bits_truncate(bits: u64) -> (f: Self)
        ensures
            f.spec_bits() == bits & Self::all_bits(),
    {
        Self { bits: bits & 7 }
    }

    /// Whether the set holds no flag.
    pub fn is_empty(&self) -> (b: bool)
        ensures
            b == (self.spec_bits() == 0),
    {
        self.bits == 0
    }

    /// Whether every flag of `other` is in the set.
    pub fn contains(&self, other: Self) -> (b: bool)
        ensures
            b == (self.spec_bits() & other.spec_bits() == other.spec_bits()),
    {
        self.bits & other.bits == other.bits
    }

    /// The flags in either set.
    pub fn union(self, other: Self) -> (f: Self)
        ensures
            f.spec_bits() == self.spec_bits() | other.spec_bits(),
    {
        Self { bits: self.bits | other.bits }
    }

    /// The flags in both sets.
    pub fn intersection(self, other: Self) -> (f: Self)
        ensures
            f.spec_bits() == self.spec_bits() & other.spec_bits(),
    {
        Self { bits: self.bits & other.bits }
    }
}

impl Default for TypeQualifier {
    fn default() -> (f: Self)
        ensures
            f.spec_bits() == 0,
    {
        Self { bits: 0 }
    }
}

/// The kind of a memory object.
#[derive(Debug, Clone, Copy, PartialEq, Eq, Hash, Structural)]
pub enum MemObjectType {
    Buffer,
    Image2D,
    Image3D,
    Pipe,
}

/// The `cl_mem_object_type` value of each kind.
pub open spec fn mem_object_code(t: MemObjectType) -> u32 {
    match t {
        MemObjectType::Buffer => cl::CL_MEM_OBJECT_BUFFER,
        MemObjectType::Image2D => cl::CL_MEM_OBJECT_IMAGE2D,
        MemObjectType::Image3D => cl::CL_MEM_OBJECT_IMAGE3D,
        MemObjectType::Pipe => cl::CL_MEM_OBJECT_PIPE,
    }
}

impl MemObjectType {
    /// The `cl_mem_object_type` value.
    pub fn code(self) -> (c: u32)
        ensures
            c == mem_object_code(self),
    {
        match self {
            MemObjectType::Buffer => cl::CL_MEM_OBJECT_BUFFER,
            MemObjectType::Image2D => cl::CL_MEM_OBJECT_IMAGE2D,
            MemObjectType::Image3D => cl::CL_MEM_OBJECT_IMAGE3D,
            MemObjectType::Pipe => cl::CL_MEM_OBJECT_PIPE,
        }
    }

    /// The kind with code `c`, if there is one.
    pub fn from_code(c: u32) -> (t: Option<Self>)
        ensures
            t matches Some(x) ==> mem_object_code(x) == c,
            t is None ==> forall|x: MemObjectType| mem_object_code(x) != c,
    {
        if c == cl::CL_MEM_OBJECT_BUFFER {
            Some(MemObjectType::Buffer)
        } else if c == cl::CL_MEM_OBJECT_IMAGE2D {
            Some(MemObjectType::Image2D)
        } else if c == cl::CL_MEM_OBJECT_IMAGE3D {
            Some(MemObjectType::Image3D)
        } else if c == cl::CL_MEM_OBJECT_PIPE {
            Some(MemObjectType::Pipe)
        } else {
            proof {
                assert forall|x: MemObjectType| mem_object_code(x) != c by {
                    match x {
                        MemObjectType::Buffer => {},
                        MemObjectType::Image2D => {},
                        MemObjectType::Image3D => {},
                        MemObjectType::Pipe => {},
                    }
                }
            }
            None
        }
    }
}

impl From<MemObjectType> for u32 {
    fn from(t: MemObjectType) -> (c: u32) {
        t.code()
    }
}

impl vstd::std_specs::convert::FromSpecImpl<MemObjectType> for u32 {
    open spec fn obeys_from_spec() -> bool {
        true
    }

    open spec fn from_spec(v: MemObjectType) -> u32 {
        mem_object_code(v)
    }
}

} // verus!
