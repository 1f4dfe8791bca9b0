//! Memory flags of OpenCL memory objects, and their encoding as `cl_mem_flags`.
use vstd::prelude::*;
use crate::cl;

verus! {

/// How a memory object may be accessed: whether it may be read and whether
/// it may be written.
#[derive(Debug, Clone, Copy, PartialEq, Eq, Hash, Structural)]
pub struct MemAccess {
    pub read: bool,
    pub write: bool,
}

/// The `cl_mem_flags` bits that encode a kernel-side access.
pub open spec fn access_bits(a: MemAccess) -> u64 {
    if a.read && a.write {
        cl::CL_MEM_READ_WRITE
    } else if a.read {
        cl::CL_MEM_READ_ONLY
    } else if a.write {
        cl::CL_MEM_WRITE_ONLY
    } else {
        0
    }
}

/// The kernel-side access that a set of `cl_mem_flags` grants.
pub open spec fn access_of_bits(flags: u64) -> MemAccess {
    MemAccess {
        read: flags & (cl::CL_MEM_READ_WRITE | cl::CL_MEM_READ_ONLY) != 0,
        write: flags & (cl::CL_MEM_READ_WRITE | cl::CL_MEM_WRITE_ONLY) != 0,
    }
}

/// The `cl_mem_flags` bits that encode a host-side access.
pub open spec fn host_access_bits(a: MemAccess) -> u64 {
    if a.read && a.write {
        0
    } else if a.read {
        cl::CL_MEM_HOST_READ_ONLY
    } else if a.write {
        cl::CL_MEM_HOST_WRITE_ONLY
    } else {
        cl::CL_MEM_HOST_NO_ACCESS
    }
}

/// The host-side access that a set of `cl_mem_flags` grants.
pub open spec fn host_access_of_bits(flags: u64) -> MemAccess {
    if flags & cl::CL_MEM_HOST_NO_ACCESS != 0 {
        MemAccess { read: false, write: false }
    } else {
        MemAccess {
            read: flags & cl::CL_MEM_HOST_WRITE_ONLY == 0,
            write: flags & cl::CL_MEM_HOST_READ_ONLY == 0,
        }
    }
}

impl MemAccess {
    /// No access at all.
    pub fn none() -> (a: Self)
        ensures
            a == (MemAccess { read: false, write: false }),
    {
        Self { read: false, write: false }
    }

    /// The memory object will be read and written by a kernel. This is the default.
    pub fn read_write() -> (a: Self)
        ensures
            a == (MemAccess { read: true, write: true }),
    {
        Self { read: true, write: true }
    }

    /// The memory object is a read-only memory object when used inside a kernel.
    pub fn read_only() -> (a: Self)
        ensures
            a == (MemAccess { read: true, write: false }),
    {
        Self { read: true, write: false }
    }

    /// The memory object will be written but not read by a kernel.
    pub fn write_only() -> (a: Self)
        ensures
            a == (MemAccess { read: false, write: true }),
    {
        Self { read: false, write: true }
    }

    pub fn new(read: bool, write: bool) -> (a: Self)
        ensures
            a.read == read,
            a.write == write,
    {
        Self { read, write }
    }

    /// The pair `(read, write)`.
    pub fn unwrap(self) -> (r: (bool, bool))
        ensures
            r == (self.read, self.write),
    {
        (self.read, self.write)
    }

    /// Decodes the kernel-side access of `flags`.
    pub fn from_bits(flags: u64) -> (a: Self)
        ensures
            a == access_of_bits(flags),
    {
        let read = (flags & (cl::CL_MEM_READ_WRITE | cl::CL_MEM_READ_ONLY)) != 0;
        let write = (flags & (cl::CL_MEM_READ_WRITE | cl::CL_MEM_WRITE_ONLY)) != 0;
        Self::new(read, write)
    }

    /// Decodes the host-side access of `flags`.
    pub fn from_bits_host(flags: u64) -> (a: Self)
        ensures
            a == host_access_of_bits(flags),
    {
        if flags & cl::CL_MEM_HOST_NO_ACCESS != 0 {
            return Self::none();
        }
        let read = (flags & cl::CL_MEM_HOST_WRITE_ONLY) == 0;
        let write = (flags & cl::CL_MEM_HOST_READ_ONLY) == 0;
        Self::new(read, write)
    }

    /// Encodes the kernel-side access.
    pub fn to_bits(self) -> (bits: u64)
        ensures
            bits == access_bits(self),
    {
        match self.unwrap() {
            (true, true) => cl::CL_MEM_READ_WRITE,
            (true, false) => cl::CL_MEM_READ_ONLY,
            (false, true) => cl::CL_MEM_WRITE_ONLY,
            (false, false) => 0,
        }
    }

    /// Encodes the host-side access.
    pub fn to_bits_host(self) -> (bits: u64)
        ensures
            bits == host_access_bits(self),
    {
        match self.unwrap() {
            (true, true) => 0,
            (true, false) => cl::CL_MEM_HOST_READ_ONLY,
            (false, true) => cl::CL_MEM_HOST_WRITE_ONLY,
            (false, false) => cl::CL_MEM_HOST_NO_ACCESS,
        }
    }
}

impl Default for MemAccess {
    fn default() -> (a: Self)
        ensures
            a == (MemAccess { read: true, write: true }),
    {
        Self::read_write()
    }
}

/// Where the storage of a memory object comes from.
#[derive(Debug, Clone, Copy, PartialEq, Eq, Hash, Structural)]
pub enum HostPtr {
    /// The implementation uses the memory referenced by the host pointer.
    Use,
    /// `Other(alloc, copy)`: allocate from host accessible memory, and/or
    /// copy from the host pointer.
    Other(bool, bool),
}

/// The `cl_mem_flags` bits that encode a host pointer mode.
pub open spec fn host_ptr_bits(h: HostPtr) -> u64 {
    match h {
        HostPtr::Use => cl::CL_MEM_USE_HOST_PTR,
        HostPtr::Other(alloc, copy) => (if alloc { cl::CL_MEM_ALLOC_HOST_PTR } else { 0u64 }) | (if copy {
            cl::CL_MEM_COPY_HOST_PTR
        } else {
            0u64
        }),
    }
}

/// The host pointer mode that a set of `cl_mem_flags` selects.
pub open spec fn host_ptr_of_bits(flags: u64) -> HostPtr {
    if flags & cl::CL_MEM_USE_HOST_PTR != 0 {
        HostPtr::Use
    } else {
        HostPtr::Other(
            flags & cl::CL_MEM_ALLOC_HOST_PTR != 0,
            flags & cl::CL_MEM_COPY_HOST_PTR != 0,
        )
    }
}

impl HostPtr {
    /// Use the memory referenced by the host pointer as storage.
    pub const USE: HostPtr = HostPtr::Use;

    /// Neither allocate nor copy.
    pub fn none() -> (h: Self)
        ensures
            h == HostPtr::Other(false, false),
    {
        Self::Other(false, false)
    }

    /// Allocate from host accessible memory.
    pub fn alloc_only() -> (h: Self)
        ensures
            h == HostPtr::Other(true, false),
    {
        Self::Other(true, false)
    }

    /// Allocate memory and copy the data referenced by the host pointer.
    pub fn copy_only() -> (h: Self)
        ensures
            h == HostPtr::Other(false, true),
    {
        Self::Other(false, true)
    }

    /// Allocation and copy combined.
    pub fn alloc_copy() -> (h: Self)
        ensures
            h == HostPtr::Other(true, true),
    {
        Self::Other(true, true)
    }

    pub fn new(alloc: bool, copy: bool) -> (h: Self)
        ensures
            h == HostPtr::Other(alloc, copy),
    {
        Self::Other(alloc, copy)
    }

    pub fn is_use(&self) -> (b: bool)
        ensures
            b <==> *self is Use,
    {
        match self {
            Self::Use => true,
            _ => false,
        }
    }

    pub fn is_alloc(&self) -> (b: bool)
        ensures
            b <==> (*self matches HostPtr::Other(a, _) && a),
    {
        match self {
            Self::Other(true, _) => true,
            _ => false,
        }
    }

    pub fn is_copy(&self) -> (b: bool)
        ensures
            b <==> (*self matches HostPtr::Other(_, c) && c),
    {
        match self {
            Self::Other(_, true) => true,
            _ => false,
        }
    }

    /// Decodes the host pointer mode of `flags`.
    pub fn from_bits(flags: u64) -> (h: Self)
        ensures
            h == host_ptr_of_bits(flags),
    {
        if flags & cl::CL_MEM_USE_HOST_PTR != 0 {
            return Self::USE;
        }
        let alloc = flags & cl::CL_MEM_ALLOC_HOST_PTR != 0;
        let copy = flags & cl::CL_MEM_COPY_HOST_PTR != 0;
        Self::new(alloc, copy)
    }

    /// Encodes the host pointer mode.
    pub fn to_bits(self) -> (bits: u64)
        ensures
            bits == host_ptr_bits(self),
    {
        match self {
            Self::Use => cl::CL_MEM_USE_HOST_PTR,
            Self::Other(alloc, copy) => {
                let mut bits: u64 = 0;
                if alloc {
                    bits = cl::CL_MEM_ALLOC_HOST_PTR;
                }
                if copy {
                    bits = bits | cl::CL_MEM_COPY_HOST_PTR;
                }
                assert((0u64 | 0u64) == 0u64 && (16u64 | 0u64) == 16u64 && (0u64 | 32u64) == 32u64
                    && (16u64 | 32u64) == 48u64 && (0u64 | 0u64) == 0u64) by (bit_vector);
                bits
            },
        }
    }
}

impl Default for HostPtr {
    fn default() -> (h: Self)
        ensures
            h == HostPtr::Other(false, false),
    {
        Self::none()
    }
}

/// The flags a memory object is created with.
#[derive(Debug, Clone, Copy, PartialEq, Eq, Hash, Structural)]
#[non_exhaustive]
pub struct MemFlags {
    pub access: MemAccess,
    pub host_access: MemAccess,
    pub host: HostPtr,
}

/// The `cl_mem_flags` that encode a set of memory flags.
pub open spec fn mem_flags_bits(f: MemFlags) -> u64 {
    access_bits(f.access) | host_ptr_bits(f.host) | host_access_bits(f.host_access)
}

/// The memory flags that a `cl_mem_flags` value selects.
pub open spec fn mem_flags_of_bits(bits: u64) -> MemFlags {
    MemFlags {
        access: access_of_bits(bits),
        host_access: host_access_of_bits(bits),
        host: host_ptr_of_bits(bits),
    }
}

impl MemFlags {
    /// Flags with the given kernel access and host pointer mode; the host
    /// may read and write.
    pub fn new(access: MemAccess, host: HostPtr) -> (f: Self)
        ensures
            f == (MemFlags { access, host_access: MemAccess { read: true, write: true }, host }),
    {
        Self { access, host, host_access: MemAccess::read_write() }
    }

    pub fn with_host_access(access: MemAccess, host_access: MemAccess, host: HostPtr) -> (f: Self)
        ensures
            f == (MemFlags { access, host_access, host }),
    {
        Self { access, host, host_access }
    }

    /// Decodes `bits`.
    pub fn from_bits(bits: u64) -> (f: Self)
        ensures
            f == mem_flags_of_bits(bits),
    {
        let access = MemAccess::from_bits(bits);
        let host_access = MemAccess::from_bits_host(bits);
        let host = HostPtr::from_bits(bits);
        Self { access, host_access, host }
    }

    /// Encodes the flags.
    pub fn to_bits(self) -> (bits: u64)
        ensures
            bits == mem_flags_bits(self),
    {
        self.access.to_bits() | self.host.to_bits() | self.host_access.to_bits_host()
    }
}

impl Default for MemFlags {
    fn default() -> (f: Self)
        ensures
            f == (MemFlags {
                access: MemAccess { read: true, write: true },
                host_access: MemAccess { read: true, write: true },
                host: HostPtr::Other(false, false),
            }),
    {
        Self { access: MemAccess::read_write(), host_access: MemAccess::read_write(), host: HostPtr::none() }
    }
}

/// Decoding the encoding of a kernel-side access gives it back.
pub proof fn law_access_roundtrip(a: MemAccess)
    ensures
        access_of_bits(access_bits(a)) == a,
{
    let r = a.read;
    let w = a.write;
    let x = access_bits(a);
    assert(x == (if r && w { 1u64 } else if r { 4u64 } else if w { 2u64 } else { 0u64 }));
    assert((x & (1u64 | 4u64) != 0u64) == r && (x & (1u64 | 2u64) != 0u64) == w) by (bit_vector)
        requires
            x == (if r && w { 1u64 } else if r { 4u64 } else if w { 2u64 } else { 0u64 }),
    ;
}

/// Decoding the encoding of a host-side access gives it back.
pub proof fn law_host_access_roundtrip(a: MemAccess)
    ensures
        host_access_of_bits(host_access_bits(a)) == a,
{
    let r = a.read;
    let w = a.write;
    let x = host_access_bits(a);
    assert(x == (if r && w { 0u64 } else if r { 256u64 } else if w { 128u64 } else { 512u64 }));
    assert(((x & 512u64 != 0u64) == (!r && !w)) && (x & 512u64 == 0u64 ==> ((x & 128u64 == 0u64)
        == r && (x & 256u64 == 0u64) == w))) by (bit_vector)
        requires
            x == (if r && w { 0u64 } else if r { 256u64 } else if w { 128u64 } else { 512u64 }),
    ;
}

/// Decoding the encoding of a host pointer mode gives it back.
pub proof fn law_host_ptr_roundtrip(h: HostPtr)
    ensures
        host_ptr_of_bits(host_ptr_bits(h)) == h,
{
    match h {
        HostPtr::Use => {
            assert(8u64 & 8u64 != 0u64) by (bit_vector);
        },
        HostPtr::Other(al, co) => {
            let x = host_ptr_bits(h);
            assert(x == (if al { 16u64 } else { 0u64 }) | (if co { 32u64 } else { 0u64 }));
            assert(x & 8u64 == 0u64 && (x & 16u64 != 0u64) == al && (x & 32u64 != 0u64) == co)
                by (bit_vector)
                requires
                    x == (if al { 16u64 } else { 0u64 }) | (if co { 32u64 } else { 0u64 }),
            ;
        },
    }
}

/// Decoding the encoding of a full set of memory flags gives it back.
pub proof fn law_mem_flags_roundtrip(f: MemFlags)
    ensures
        mem_flags_of_bits(mem_flags_bits(f)) == f,
{
    let r = f.access.read;
    let w = f.access.write;
    let hr = f.host_access.read;
    let hw = f.host_access.write;
    let bits = mem_flags_bits(f);
    let a = access_bits(f.access);
    let h = host_access_bits(f.host_access);
    assert(a == (if r && w { 1u64 } else if r { 4u64 } else if w { 2u64 } else { 0u64 }));
    assert(h == (if hr && hw { 0u64 } else if hr { 256u64 } else if hw { 128u64 } else { 512u64 }));
    match f.host {
        HostPtr::Use => {
            assert(bits == a | 8u64 | h);
            assert((bits & (1u64 | 4u64) != 0u64) == r && (bits & (1u64 | 2u64) != 0u64) == w
                && bits & 8u64 != 0u64 && ((bits & 512u64 != 0u64) == (!hr && !hw)) && (bits
                & 512u64 == 0u64 ==> ((bits & 128u64 == 0u64) == hr && (bits & 256u64 == 0u64)
                == hw))) by (bit_vector)
                requires
                    a == (if r && w { 1u64 } else if r { 4u64 } else if w { 2u64 } else { 0u64 }),
                    h == (if hr && hw { 0u64 } else if hr { 256u64 } else if hw { 128u64 } else {
                        512u64
                    }),
                    bits == a | 8u64 | h,
            ;
        },
        HostPtr::Other(al, co) => {
            let p = host_ptr_bits(f.host);
            assert(p == (if al { 16u64 } else { 0u64 }) | (if co { 32u64 } else { 0u64 }));
            assert(bits == a | p | h);
            assert((bits & (1u64 | 4u64) != 0u64) == r && (bits & (1u64 | 2u64) != 0u64) == w
                && bits & 8u64 == 0u64 && (bits & 16u64 != 0u64) == al && (bits & 32u64 != 0u64)
                == co && ((bits & 512u64 != 0u64) == (!hr && !hw)) && (bits & 512u64 == 0u64 ==> (
                (bits & 128u64 == 0u64) == hr && (bits & 256u64 == 0u64) == hw))) by (bit_vector)
                requires
                    a == (if r && w { 1u64 } else if r { 4u64 } else if w { 2u64 } else { 0u64 }),
                    h == (if hr && hw { 0u64 } else if hr { 256u64 } else if hw { 128u64 } else {
                        512u64
                    }),
                    p == (if al { 16u64 } else { 0u64 }) | (if co { 32u64 } else { 0u64 }),
                    bits == a | p | h,
            ;
        },
    }
}

/// Each host-side access is encoded by the OpenCL flag of its name: read-only
/// by `CL_MEM_HOST_READ_ONLY` (256), write-only by `CL_MEM_HOST_WRITE_ONLY`
/// (128), no access by `CL_MEM_HOST_NO_ACCESS` (512) and read-write by no flag,
/// so no encoding sets two of the three host-access flags, which OpenCL refuses.
pub proof fn law_host_access_flags(a: MemAccess)
    ensures
        host_access_bits(MemAccess { read: true, write: false }) == 256u64,
        host_access_bits(MemAccess { read: false, write: true }) == 128u64,
        host_access_bits(MemAccess { read: false, write: false }) == 512u64,
        host_access_bits(MemAccess { read: true, write: true }) == 0u64,
        host_access_bits(a) == 0u64 || host_access_bits(a) == 128u64 || host_access_bits(a) == 256u64
            || host_access_bits(a) == 512u64,
{
}

/// Each kernel-side access is encoded by the OpenCL flag of its name:
/// read-write by `CL_MEM_READ_WRITE` (1), write-only by `CL_MEM_WRITE_ONLY` (2),
/// read-only by `CL_MEM_READ_ONLY` (4) and no access by no flag, so no encoding
/// sets two of the three access flags.
pub proof fn law_access_flags(a: MemAccess)
    ensures
        access_bits(MemAccess { read: true, write: true }) == 1u64,
        access_bits(MemAccess { read: false, write: true }) == 2u64,
        access_bits(MemAccess { read: true, write: false }) == 4u64,
        access_bits(MemAccess { read: false, write: false }) == 0u64,
        access_bits(a) == 0u64 || access_bits(a) == 1u64 || access_bits(a) == 2u64 || access_bits(a)
            == 4u64,
{
}

} // verus!
