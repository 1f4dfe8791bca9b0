//! Device information: capabilities, partitioning schemes and the decoding of
//! the values that device queries return.
use vstd::prelude::*;
use crate::cl;
use crate::buffer::flags::MemAccess;
use crate::base::words::{has_word, words};

verus! {

/// The OpenCL device type.
#[derive(Debug, Clone, Copy, PartialEq, Eq, Hash, Structural)]
pub struct DeviceType {
    bits: u64,
}

impl DeviceType {
    /// Every flag that the set can hold.
    pub open spec fn all_bits() -> u64 {
        30u64
    }

    /// The bits of the set.
    pub closed spec fn spec_bits(&self) -> u64 {
        self.bits
    }

    /// A host processor.
    pub fn cpu() -> (f: Self)
        ensures
            f.spec_bits() == 2u64,
    {
        Self { bits: 2 }
    }

    /// A graphics processor.
    pub fn gpu() -> (f: Self)
        ensures
            f.spec_bits() == 4u64,
    {
        Self { bits: 4 }
    }

    /// A dedicated accelerator.
    pub fn accelerator() -> (f: Self)
        ensures
            f.spec_bits() == 8u64,
    {
        Self { bits: 8 }
    }

    /// The type written `CL_DEVICE_TYPE_CUSTOM` by OpenCL.
    pub fn default_type() -> (f: Self)
        ensures
            f.spec_bits() == 16u64,
    {
        Self { bits: 16 }
    }

    /// The empty set.
    pub fn empty() -> (f: Self)
        ensures
            f.spec_bits() == 0,
    {
        Self { bits: 0 }
    }

    /// The set of every flag.
    pub fn all() -> (f: Self)
        ensures
            f.spec_bits() == Self::all_bits(),
    {
        Self { bits: 30 }
    }

    /// The bits of the set.
    pub fn bits(&self) -> (b: u64)
        ensures
            b == self.spec_bits(),
    {
        self.bits
    }

    /// The set with bits `bits`, or `None` when `bits` holds a bit that is no flag.
    pub fn from_bits(bits: u64) -> (f: Option<Self>)
        ensures
            bits & !Self::all_bits() == 0 ==> (f matches Some(x) && x.spec_bits() == bits),
            bits & !Self::all_bits() != 0 ==> f is None,
    {
        if bits & !30u64 == 0 {
            Some(Self { bits })
        } else {
            None
        }
    }

    /// The set of the flags among `bits`; other bits are dropped.
    pub fn from_bits_truncate(bits: u64) -> (f: Self)
        ensures
            f.spec_bits() == bits & Self::all_bits(),
    {
        Self { bits: bits & 30 }
    }

    /// Whether the set holds no flag.
    pub fn is_empty(&self) -> (b: bool)
        ensures
            b == (self.spec_bits() == 0),
    {
        self.bits == 0
    }

    /// Whether every flag of `other` is in the set.
    pub fn contains(&self, other: Self) -> (b: bool)
        ensures
            b == (self.spec_bits() & other.spec_bits() == other.spec_bits()),
    {
        self.bits & other.bits == other.bits
    }

    /// The flags in either set.
    pub fn union(self, other: Self) -> (f: Self)
        ensures
            f.spec_bits() == self.spec_bits() | other.spec_bits(),
    {
        Self { bits: self.bits | other.bits }
    }

    /// The flags in both sets.
    pub fn intersection(self, other: Self) -> (f: Self)
        ensures
            f.spec_bits() == self.spec_bits() & other.spec_bits(),
    {
        Self { bits: self.bits & other.bits }
    }
}


/// The floating-point capability of an OpenCL device.
#[derive(Debug, Clone, Copy, PartialEq, Eq, Hash, Structural)]
pub struct FpConfig {
    bits: u64,
}

impl FpConfig {
    /// Every flag that the set can hold.
    pub open spec fn all_bits() -> u64 {
        255u64
    }

    /// The bits of the set.
    pub closed spec fn spec_bits(&self) -> u64 {
        self.bits
    }

    /// Denorms are supported.
    pub fn denorm() -> (f: Self)
        ensures
            f.spec_bits() == 1u64,
    {
        Self { bits: 1 }
    }

    /// INF and quiet NaNs are supported.
    pub fn inf_nan() -> (f: Self)
        ensures
            f.spec_bits() == 2u64,
    {
        Self { bits: 2 }
    }

    /// Round to nearest even rounding mode supported.
    pub fn round_to_nearest() -> (f: Self)
        ensures
            f.spec_bits() == 4u64,
    {
        Self { bits: 4 }
    }

    /// Round to zero rounding mode supported.
    pub fn round_to_zero() -> (f: Self)
        ensures
            f.spec_bits() == 8u64,
    {
        Self { bits: 8 }
    }

    /// Round to positive and negative infinity rounding modes supported.
    pub fn round_to_inf() -> (f: Self)
        ensures
            f.spec_bits() == 16u64,
    {
        Self { bits: 16 }
    }

    /// IEEE754-2008 fused multiply-add is supported.
    pub fn fma() -> (f: Self)
        ensures
            f.spec_bits() == 32u64,
    {
        Self { bits: 32 }
    }

    /// Basic floating-point operations are implemented in software.
    pub fn soft_float() -> (f: Self)
        ensures
            f.spec_bits() == 64u64,
    {
        Self { bits: 64 }
    }

    /// Divide and sqrt are correctly rounded as defined by the IEEE754 specification.
    pub fn correctly_rounded_divide_sqrt() -> (f: Self)
        ensures
            f.spec_bits() == 128u64,
    {
        Self { bits: 128 }
    }

    /// The empty set.
    pub fn empty() -> (f: Self)
        ensures
            f.spec_bits() == 0,
    {
        Self { bits: 0 }
    }

    /// The set of every flag.
    pub fn all() -> (f: Self)
        ensures
            f.spec_bits() == Self::all_bits(),
    {
        Self { bits: 255 }
    }

    /// The bits of the set.
    pub fn bits(&self) -> (b: u64)
        ensures
            b == self.spec_bits(),
    {
        self.bits
    }

    /// The set with bits `bits`, or `None` when `bits` holds a bit that is no flag.
    pub fn from_bits(bits: u64) -> (f: Option<Self>)
        ensures
            bits & !Self::all_bits() == 0 ==> (f matches Some(x) && x.spec_bits() == bits),
            bits & !Self::all_bits() != 0 ==> f is None,
    {
        if bits & !255u64 == 0 {
            Some(Self { bits })
        } else {
            None
        }
    }

    /// The set of the flags among `bits`; other bits are dropped.
    pub fn from_bits_truncate(bits: u64) -> (f: Self)
        ensures
            f.spec_bits() == bits & Self::all_bits(),
    {
        Self { bits: bits & 255 }
    }

    /// Whether the set holds no flag.
    pub fn is_empty(&self) -> (b: bool)
        ensures
            b == (self.spec_bits() == 0),
    {
        self.bits == 0
    }

    /// Whether every flag of `other` is in the set.
    pub fn contains(&self, other: Self) -> (b: bool)
        ensures
            b == (self.spec_bits() & other.spec_bits() == other.spec_bits()),
    {
        self.bits & other.bits == other.bits
    }

    /// The flags in either set.
    pub fn union(self, other: Self) -> (f: Self)
        ensures
            f.spec_bits() == self.spec_bits() | other.spec_bits(),
    {
        Self { bits: self.bits | other.bits }
    }

    /// The flags in both sets.
    pub fn intersection(self, other: Self) -> (f: Self)
        ensures
            f.spec_bits() == self.spec_bits() & other.spec_bits(),
    {
        Self { bits: self.bits & other.bits }
    }
}


/// The execution capabilities of an OpenCL device.
#[derive(Debug, Clone, Copy, PartialEq, Eq, Hash, Structural)]
pub struct ExecCapabilities {
    bits: u64,
}

impl ExecCapabilities {
    /// Every flag that the set can hold.
    pub open spec fn all_bits() -> u64 {
        3u64
    }

    /// The bits of the set.
    pub closed spec fn spec_bits(&self) -> u64 {
        self.bits
    }

    /// The device can run OpenCL kernels.
    pub fn kernel() -> (f: Self)
        ensures
            f.spec_bits() == 1u64,
    {
        Self { bits: 1 }
    }

    /// The device can run native kernels.
    pub fn native_kernel() -> (f: Self)
        ensures
            f.spec_bits() == 2u64,
    {
        Self { bits: 2 }
    }

    /// The empty set.
    pub fn empty() -> (f: Self)
        ensures
            f.spec_bits() == 0,
    {
        Self { bits: 0 }
    }

    /// The set of every flag.
    pub fn all() -> (f: Self)
        ensures
            f.spec_bits() == Self::all_bits(),
    {
        Self { bits: 3 }
    }

    /// The bits of the set.
    pub fn bits(&self) -> (b: u64)
        ensures
            b == self.spec_bits(),
    {
        self.bits
    }

    /// The set with bits `bits`, or `None` when `bits` holds a bit that is no flag.
    pub fn from_bits(bits: u64) -> (f: Option<Self>)
        ensures
            bits & !Self::all_bits() == 0 ==> (f matches Some(x) && x.spec_bits() == bits),
            bits & !Self::all_bits() != 0 ==> f is None,
    {
        if bits & !3u64 == 0 {
            Some(Self { bits })
        } else {
            None
        }
    }

    /// The set of the flags among `bits`; other bits are dropped.
    pub fn from_bits_truncate(bits: u64) -> (f: Self)
        ensures
            f.spec_bits() == bits & Self::all_bits(),
    {
        Self { bits: bits & 3 }
    }

    /// Whether the set holds no flag.
    pub fn is_empty(&self) -> (b: bool)
        ensures
            b == (self.spec_bits() == 0),
    {
        self.bits == 0
    }

    /// Whether every flag of `other` is in the set.
    pub fn contains(&self, other: Self) -> (b: bool)
        ensures
            b == (self.spec_bits() & other.spec_bits() == other.spec_bits()),
    {
        self.bits & other.bits == other.bits
    }

    /// The flags in either set.
    pub fn union(self, other: Self) -> (f: Self)
        ensures
            f.spec_bits() == self.spec_bits() | other.spec_bits(),
    {
        Self { bits: self.bits | other.bits }
    }

    /// The flags in both sets.
    pub fn intersection(self, other: Self) -> (f: Self)
        ensures
            f.spec_bits() == self.spec_bits() & other.spec_bits(),
    {
        Self { bits: self.bits & other.bits }
    }
}


/// The shared virtual memory capabilities of an OpenCL device.
#[derive(Debug, Clone, Copy, PartialEq, Eq, Hash, Structural)]
pub struct SvmCapability {
    bits: u64,
}

impl SvmCapability {
    /// Every flag that the set can hold.
    pub open spec fn all_bits() -> u64 {
        15u64
    }

    /// The bits of the set.
    pub closed spec fn spec_bits(&self) -> u64 {
        self.bits
    }

    /// Coarse-grain buffer sharing.
    pub fn coarse_grain_buffer() -> (f: Self)
        ensures
            f.spec_bits() == 1u64,
    {
        Self { bits: 1 }
    }

    /// Fine-grain buffer sharing.
    pub fn fine_grain_buffer() -> (f: Self)
        ensures
            f.spec_bits() == 2u64,
    {
        Self { bits: 2 }
    }

    /// Sharing of the host's entire virtual memory.
    pub fn fine_grain_system() -> (f: Self)
        ensures
            f.spec_bits() == 4u64,
    {
        Self { bits: 4 }
    }

    /// Atomic operations across the host and the devices.
    pub fn atomics() -> (f: Self)
        ensures
            f.spec_bits() == 8u64,
    {
        Self { bits: 8 }
    }

    /// The empty set.
    pub fn empty() -> (f: Self)
        ensures
            f.spec_bits() == 0,
    {
        Self { bits: 0 }
    }

    /// The set of every flag.
    pub fn all() -> (f: Self)
        ensures
            f.spec_bits() == Self::all_bits(),
    {
        Self { bits: 15 }
    }

    /// The bits of the set.
    pub fn bits(&self) -> (b: u64)
        ensures
            b == self.spec_bits(),
    {
        self.bits
    }

    /// The set with bits `bits`, or `None` when `bits` holds a bit that is no flag.
    pub fn from_bits(bits: u64) -> (f: Option<Self>)
        ensures
            bits & !Self::all_bits() == 0 ==> (f matches Some(x) && x.spec_bits() == bits),
            bits & !Self::all_bits() != 0 ==> f is None,
    {
        if bits & !15u64 == 0 {
            Some(Self { bits })
        } else {
            None
        }
    }

    /// The set of the flags among `bits`; other bits are dropped.
    pub fn from_bits_truncate(bits: u64) -> (f: Self)
        ensures
            f.spec_bits() == bits & Self::all_bits(),
    {
        Self { bits: bits & 15 }
    }

    /// Whether the set holds no flag.
    pub fn is_empty(&self) -> (b: bool)
        ensures
            b == (self.spec_bits() == 0),
    {
        self.bits == 0
    }

    /// Whether every flag of `other` is in the set.
    pub fn contains(&self, other: Self) -> (b: bool)
        ensures
            b == (self.spec_bits() & other.spec_bits() == other.spec_bits()),
    {
        self.bits & other.bits == other.bits
    }

    /// The flags in either set.
    pub fn union(self, other: Self) -> (f: Self)
        ensures
            f.spec_bits() == self.spec_bits() | other.spec_bits(),
    {
        Self { bits: self.bits | other.bits }
    }

    /// The flags in both sets.
    pub fn intersection(self, other: Self) -> (f: Self)
        ensures
            f.spec_bits() == self.spec_bits() & other.spec_bits(),
    {
        Self { bits: self.bits & other.bits }
    }
}


/// Type of local memory supported.
#[derive(Debug, Clone, Copy, PartialEq, Eq, Hash, Structural)]
pub enum LocalMemType {
    /// Dedicated local memory storage such as SRAM.
    Local,
    /// Local memory is a part of global memory.
    Global,
}

impl LocalMemType {
    /// The `cl_device_local_mem_type` value.
    pub fn code(self) -> (c: u32)
        ensures
            c == (match self {
                LocalMemType::Local => cl::CL_LOCAL,
                LocalMemType::Global => cl::CL_GLOBAL,
            }),
    {
        match self {
            LocalMemType::Local => cl::CL_LOCAL,
            LocalMemType::Global => cl::CL_GLOBAL,
        }
    }

    /// The local memory type with code `c`, if there is one.
    pub fn from_code(c: u32) -> (t: Option<Self>)
        ensures
            c == cl::CL_LOCAL ==> t == Some(LocalMemType::Local),
            c == cl::CL_GLOBAL ==> t == Some(LocalMemType::Global),
            c != cl::CL_LOCAL && c != cl::CL_GLOBAL ==> t is None,
    {
        if c == cl::CL_LOCAL {
            Some(LocalMemType::Local)
        } else if c == cl::CL_GLOBAL {
            Some(LocalMemType::Global)
        } else {
            None
        }
    }
}

/// The access that a global memory cache type (`cl_device_mem_cache_type`) allows.
pub fn mem_cache_access(code: u32) -> (a: MemAccess)
    requires
        code == cl::CL_NONE || code == cl::CL_READ_ONLY_CACHE || code == cl::CL_READ_WRITE_CACHE,
    ensures
        code == cl::CL_NONE ==> a == (MemAccess { read: false, write: false }),
        code == cl::CL_READ_ONLY_CACHE ==> a == (MemAccess { read: true, write: false }),
        code == cl::CL_READ_WRITE_CACHE ==> a == (MemAccess { read: true, write: true }),
{
    if code == cl::CL_NONE {
        MemAccess::none()
    } else if code == cl::CL_READ_ONLY_CACHE {
        MemAccess::read_only()
    } else {
        MemAccess::read_write()
    }
}

/// Memory orders of atomic operations.
#[derive(Debug, Clone, Copy, PartialEq, Eq, Hash, Structural)]
pub enum AtomicOrder {
    Relaxed,
    Release,
    Acquire,
    AcqRel,
    SeqCst,
}

/// Scope of the memory ordering constraints of atomic operations.
#[derive(Debug, Clone, Copy, PartialEq, Eq, Hash, Structural)]
#[non_exhaustive]
pub enum AtomicScope {
    /// Constraints that apply to all work-items in a work-group.
    WorkGroup,
    /// Constraints that apply to all work-items executing on the device.
    Device,
    /// Constraints that apply to all work-items across all devices that share SVM memory with the host.
    AllDevices,
}

/// The memory orders and scopes a device supports for atomic operations.
#[derive(Debug, Clone, Copy, PartialEq, Eq, Hash, Structural)]
#[non_exhaustive]
pub struct AtomicCapabilities {
    /// The strongest memory order supported.
    pub order: AtomicOrder,
    /// Support for memory ordering constraints that apply to a single work-item.
    pub work_item_scope: bool,
    /// The widest scope supported.
    pub scope: AtomicScope,
}

/// The strongest memory order in `bits`, if any.
pub open spec fn order_of_bits(bits: u64) -> Option<AtomicOrder> {
    if bits & cl::CL_DEVICE_ATOMIC_ORDER_SEQ_CST != 0 {
        Some(AtomicOrder::SeqCst)
    } else if bits & cl::CL_DEVICE_ATOMIC_ORDER_ACQ_REL != 0 {
        Some(AtomicOrder::AcqRel)
    } else if bits & cl::CL_DEVICE_ATOMIC_ORDER_RELAXED != 0 {
        Some(AtomicOrder::Relaxed)
    } else {
        None
    }
}

/// The widest scope in `bits`, if any.
pub open spec fn scope_of_bits(bits: u64) -> Option<AtomicScope> {
    if bits & cl::CL_DEVICE_ATOMIC_SCOPE_ALL_DEVICES != 0 {
        Some(AtomicScope::AllDevices)
    } else if bits & cl::CL_DEVICE_ATOMIC_SCOPE_DEVICE != 0 {
        Some(AtomicScope::Device)
    } else if bits & cl::CL_DEVICE_ATOMIC_SCOPE_WORK_GROUP != 0 {
        Some(AtomicScope::WorkGroup)
    } else {
        None
    }
}

/// The decoded order is the strongest order whose bit is set, and the decoded
/// scope the widest scope whose bit is set: sequentially consistent over
/// acquire-release over relaxed, all devices over device over work-group. There
/// is an order exactly when one of the three order bits is set, and a scope
/// exactly when one of the three scope bits is set, so relaxed atomics with a
/// work-group scope, the least OpenCL asks of a device, decode to capabilities.
pub proof fn law_atomic_capabilities(bits: u64)
    ensures
        order_of_bits(bits) is Some <==> bits & 7u64 != 0,
        order_of_bits(bits) == Some(AtomicOrder::SeqCst) <==> bits & 4u64 != 0,
        order_of_bits(bits) == Some(AtomicOrder::AcqRel) <==> bits & 4u64 == 0 && bits & 2u64 != 0,
        order_of_bits(bits) == Some(AtomicOrder::Relaxed) <==> bits & 6u64 == 0 && bits & 1u64 != 0,
        scope_of_bits(bits) is Some <==> bits & 112u64 != 0,
        scope_of_bits(bits) == Some(AtomicScope::AllDevices) <==> bits & 64u64 != 0,
        scope_of_bits(bits) == Some(AtomicScope::Device) <==> bits & 64u64 == 0 && bits & 32u64 != 0,
        scope_of_bits(bits) == Some(AtomicScope::WorkGroup) <==> bits & 96u64 == 0 && bits & 16u64 != 0,
{
    assert((bits & 7u64 != 0) == (bits & 4u64 != 0 || bits & 2u64 != 0 || bits & 1u64 != 0))
        by (bit_vector);
    assert((bits & 6u64 == 0) == (bits & 4u64 == 0 && bits & 2u64 == 0)) by (bit_vector);
    assert((bits & 112u64 != 0) == (bits & 64u64 != 0 || bits & 32u64 != 0 || bits & 16u64 != 0))
        by (bit_vector);
    assert((bits & 96u64 == 0) == (bits & 64u64 == 0 && bits & 32u64 == 0)) by (bit_vector);
}

impl AtomicCapabilities {
    /// Decodes `cl_device_atomic_capabilities`; `None` when no order or no scope is given.
    pub fn from_bits(bits: u64) -> (c: Option<Self>)
        ensures
            match (order_of_bits(bits), scope_of_bits(bits)) {
                (Some(order), Some(scope)) => c == Some(
                    AtomicCapabilities {
                        order,
                        work_item_scope: bits & cl::CL_DEVICE_ATOMIC_SCOPE_WORK_ITEM != 0,
                        scope,
                    },
                ),
                _ => c is None,
            },
    {
        let work_item_scope = bits & cl::CL_DEVICE_ATOMIC_SCOPE_WORK_ITEM != 0;
        let order = if bits & cl::CL_DEVICE_ATOMIC_ORDER_SEQ_CST != 0 {
            AtomicOrder::SeqCst
        } else if bits & cl::CL_DEVICE_ATOMIC_ORDER_ACQ_REL != 0 {
            AtomicOrder::AcqRel
        } else if bits & cl::CL_DEVICE_ATOMIC_ORDER_RELAXED != 0 {
            AtomicOrder::Relaxed
        } else {
            return None;
        };
        let scope = if bits & cl::CL_DEVICE_ATOMIC_SCOPE_ALL_DEVICES != 0 {
            AtomicScope::AllDevices
        } else if bits & cl::CL_DEVICE_ATOMIC_SCOPE_DEVICE != 0 {
            AtomicScope::Device
        } else if bits & cl::CL_DEVICE_ATOMIC_SCOPE_WORK_GROUP != 0 {
            AtomicScope::WorkGroup
        } else {
            return None;
        };
        Some(Self { order, work_item_scope, scope })
    }
}

/// Device-side enqueue capabilities.
#[derive(Debug, Clone, Copy, PartialEq, Eq, Hash, Structural)]
#[non_exhaustive]
pub enum DeviceEnqueueCapabilities {
    /// Device supports device-side enqueue and on-device queues.
    Supported,
    /// Device supports a replaceable default on-device queue.
    ReplaceableDefault,
}

impl DeviceEnqueueCapabilities {
    /// Decodes `cl_device_device_enqueue_capabilities`; `None` when neither capability is given.
    pub fn from_bits(bits: u64) -> (c: Option<Self>)
        ensures
            bits & cl::CL_DEVICE_QUEUE_REPLACEABLE_DEFAULT != 0 ==> c == Some(
                DeviceEnqueueCapabilities::ReplaceableDefault,
            ),
            bits & cl::CL_DEVICE_QUEUE_REPLACEABLE_DEFAULT == 0 && bits & cl::CL_DEVICE_QUEUE_SUPPORTED
                != 0 ==> c == Some(DeviceEnqueueCapabilities::Supported),
            bits & cl::CL_DEVICE_QUEUE_REPLACEABLE_DEFAULT == 0 && bits & cl::CL_DEVICE_QUEUE_SUPPORTED
                == 0 ==> c is None,
    {
        if bits & cl::CL_DEVICE_QUEUE_REPLACEABLE_DEFAULT != 0 {
            return Some(Self::ReplaceableDefault);
        }
        if bits & cl::CL_DEVICE_QUEUE_SUPPORTED != 0 {
            return Some(Self::Supported);
        }
        None
    }
}

/// Affinity domains along which a device may be partitioned.
#[derive(Debug, Clone, Copy, PartialEq, Eq, Hash, Structural)]
#[non_exhaustive]
pub enum AffinityDomain {
    /// Compute units that share a NUMA node.
    Numa,
    /// Compute units that share a level 4 data cache.
    L4Cache,
    /// Compute units that share a level 3 data cache.
    L3Cache,
    /// Compute units that share a level 2 data cache.
    L2Cache,
    /// Compute units that share a level 1 data cache.
    L1Cache,
    /// The next partitionable affinity domain.
    NextPartitionable,
}

/// The `cl_device_affinity_domain` value of each affinity domain.
pub open spec fn affinity_code(d: AffinityDomain) -> u64 {
    match d {
        AffinityDomain::Numa => cl::CL_DEVICE_AFFINITY_DOMAIN_NUMA,
        AffinityDomain::L4Cache => cl::CL_DEVICE_AFFINITY_DOMAIN_L4_CACHE,
        AffinityDomain::L3Cache => cl::CL_DEVICE_AFFINITY_DOMAIN_L3_CACHE,
        AffinityDomain::L2Cache => cl::CL_DEVICE_AFFINITY_DOMAIN_L2_CACHE,
        AffinityDomain::L1Cache => cl::CL_DEVICE_AFFINITY_DOMAIN_L1_CACHE,
        AffinityDomain::NextPartitionable => cl::CL_DEVICE_AFFINITY_DOMAIN_NEXT_PARTITIONABLE,
    }
}

/// Whether `c` is the code of some affinity domain.
pub open spec fn is_affinity_code(c: u64) -> bool {
    c == 1 || c == 2 || c == 4 || c == 8 || c == 16 || c == 32
}

impl AffinityDomain {
    /// The `cl_device_affinity_domain` value.
    pub fn code(self) -> (c: u64)
        ensures
            c == affinity_code(self),
    {
        match self {
            AffinityDomain::Numa => cl::CL_DEVICE_AFFINITY_DOMAIN_NUMA,
            AffinityDomain::L4Cache => cl::CL_DEVICE_AFFINITY_DOMAIN_L4_CACHE,
            AffinityDomain::L3Cache => cl::CL_DEVICE_AFFINITY_DOMAIN_L3_CACHE,
            AffinityDomain::L2Cache => cl::CL_DEVICE_AFFINITY_DOMAIN_L2_CACHE,
            AffinityDomain::L1Cache => cl::CL_DEVICE_AFFINITY_DOMAIN_L1_CACHE,
            AffinityDomain::NextPartitionable => cl::CL_DEVICE_AFFINITY_DOMAIN_NEXT_PARTITIONABLE,
        }
    }

    /// The affinity domain with code `c`, if there is one.
    pub fn from_code(c: u64) -> (d: Option<Self>)
        ensures
            is_affinity_code(c) ==> (d matches Some(x) && affinity_code(x) == c && x
                == affinity_of_code(c)),
            !is_affinity_code(c) ==> d is None,
    {
        if c == cl::CL_DEVICE_AFFINITY_DOMAIN_NUMA {
            Some(AffinityDomain::Numa)
        } else if c == cl::CL_DEVICE_AFFINITY_DOMAIN_L4_CACHE {
            Some(AffinityDomain::L4Cache)
        } else if c == cl::CL_DEVICE_AFFINITY_DOMAIN_L3_CACHE {
            Some(AffinityDomain::L3Cache)
        } else if c == cl::CL_DEVICE_AFFINITY_DOMAIN_L2_CACHE {
            Some(AffinityDomain::L2Cache)
        } else if c == cl::CL_DEVICE_AFFINITY_DOMAIN_L1_CACHE {
            Some(AffinityDomain::L1Cache)
        } else if c == cl::CL_DEVICE_AFFINITY_DOMAIN_NEXT_PARTITIONABLE {
            Some(AffinityDomain::NextPartitionable)
        } else {
            None
        }
    }
}

/// A scheme for partitioning a device into sub-devices.
#[derive(Debug, Clone, PartialEq, Eq, Hash)]
#[non_exhaustive]
pub enum PartitionProperty {
    /// Sub-devices of `n` compute units each, as many as fit.
    Equally(u32),
    /// One sub-device per count, with that many compute units; counts are never zero.
    Counts(Vec<u32>),
    /// Sub-devices of compute units that share part of a cache hierarchy.
    AffinityDomain(AffinityDomain),
}

/// The abstract value of a [`PartitionProperty`].
#[verifier::ext_equal]
pub enum PartitionSpec {
    Equally(u32),
    Counts(Seq<u32>),
    AffinityDomain(AffinityDomain),
}

impl View for PartitionProperty {
    type V = PartitionSpec;

    open spec fn view(&self) -> PartitionSpec {
        match self {
            PartitionProperty::Equally(n) => PartitionSpec::Equally(*n),
            PartitionProperty::Counts(v) => PartitionSpec::Counts(v@),
            PartitionProperty::AffinityDomain(d) => PartitionSpec::AffinityDomain(*d),
        }
    }
}

/// The counts of a `CL_DEVICE_PARTITION_BY_COUNTS` list: the values up to the
/// first zero; `None` when a value before it does not fit a positive `u32`.
pub open spec fn counts_of_list(s: Seq<isize>) -> Option<Seq<u32>>
    decreases s.len(),
{
    if s.len() == 0 || s[0] == 0 {
        Some(Seq::empty())
    } else if 1 <= s[0] <= u32::MAX {
        match counts_of_list(s.drop_first()) {
            Some(rest) => Some(seq![s[0] as u32] + rest),
            None => None,
        }
    } else {
        None
    }
}

/// Whether [`PartitionProperty::from_slice`] accepts `bits`: a known scheme
/// with its value, or no scheme at all.
pub open spec fn partition_list_ok(bits: Seq<isize>) -> bool {
    ||| bits.len() == 0
    ||| bits[0] == 0
    ||| (bits[0] == cl::CL_DEVICE_PARTITION_EQUALLY && bits.len() >= 2)
    ||| (bits[0] == cl::CL_DEVICE_PARTITION_BY_AFFINITY_DOMAIN && bits.len() >= 2 && is_affinity_code(
        bits[1] as u64,
    ))
    ||| bits[0] == cl::CL_DEVICE_PARTITION_BY_COUNTS
}

/// Whether [`PartitionProperty::from_slice`] can read `bits`.
pub fn partition_list_valid(bits: &[isize]) -> (b: bool)
    ensures
        b == partition_list_ok(bits@),
{
    let n = bits.len();
    if n == 0 || bits[0] == 0 || bits[0] == cl::CL_DEVICE_PARTITION_BY_COUNTS {
        return true;
    }
    if n < 2 {
        return false;
    }
    if bits[0] == cl::CL_DEVICE_PARTITION_EQUALLY {
        return true;
    }
    let c = bits[1] as u64;
    bits[0] == cl::CL_DEVICE_PARTITION_BY_AFFINITY_DOMAIN && (c == 1 || c == 2 || c == 4 || c == 8
        || c == 16 || c == 32)
}

/// What [`PartitionProperty::from_slice`] reads from a partition property list.
pub open spec fn partition_of_list(bits: Seq<isize>) -> Option<PartitionSpec> {
    if bits.len() == 0 || bits[0] == 0 {
        None
    } else if bits[0] == cl::CL_DEVICE_PARTITION_EQUALLY {
        Some(PartitionSpec::Equally(bits[1] as u32))
    } else if bits[0] == cl::CL_DEVICE_PARTITION_BY_AFFINITY_DOMAIN {
        Some(PartitionSpec::AffinityDomain(affinity_of_code(bits[1] as u64)))
    } else {
        match counts_of_list(bits.drop_first()) {
            Some(c) => Some(PartitionSpec::Counts(c)),
            None => None,
        }
    }
}

/// The affinity domain with a given code.
pub open spec fn affinity_of_code(c: u64) -> AffinityDomain {
    if c == 1 {
        AffinityDomain::Numa
    } else if c == 2 {
        AffinityDomain::L4Cache
    } else if c == 4 {
        AffinityDomain::L3Cache
    } else if c == 8 {
        AffinityDomain::L2Cache
    } else if c == 16 {
        AffinityDomain::L1Cache
    } else {
        AffinityDomain::NextPartitionable
    }
}

/// The zero-terminated partition property list that encodes a scheme.
pub open spec fn partition_list_bits(p: PartitionSpec) -> Seq<isize> {
    match p {
        PartitionSpec::Equally(n) => seq![cl::CL_DEVICE_PARTITION_EQUALLY, n as isize, 0isize],
        PartitionSpec::AffinityDomain(d) => seq![
            cl::CL_DEVICE_PARTITION_BY_AFFINITY_DOMAIN,
            affinity_code(d) as isize,
            0isize,
        ],
        PartitionSpec::Counts(c) => seq![cl::CL_DEVICE_PARTITION_BY_COUNTS] + c.map_values(
            |x: u32| x as isize,
        ) + seq![cl::CL_DEVICE_PARTITION_BY_COUNTS_LIST_END],
    }
}

/// Whether a scheme can be written as a property list: counts are positive,
/// and every value fits `isize`.
pub open spec fn partition_writable(p: PartitionSpec) -> bool {
    match p {
        PartitionSpec::Equally(n) => n <= isize::MAX,
        PartitionSpec::AffinityDomain(_) => true,
        PartitionSpec::Counts(c) => forall|i: int| 0 <= i < c.len() ==> 0 < #[trigger] c[i] <= isize::MAX,
    }
}

impl PartitionProperty {
    /// Reads a partition property list as returned by the OpenCL runtime.
    pub fn from_slice(bits: &[isize]) -> (p: Option<Self>)
        requires
            partition_list_ok(bits@),
        ensures
            match partition_of_list(bits@) {
                Some(v) => p matches Some(x) && x@ == v,
                None => p is None,
            },
    {
        let n = bits.len();
        if n == 0 || bits[0] == 0 {
            return None;
        }
        if bits[0] == cl::CL_DEVICE_PARTITION_EQUALLY {
            return Some(Self::Equally(bits[1] as u32));
        }
        if bits[0] == cl::CL_DEVICE_PARTITION_BY_AFFINITY_DOMAIN {
            return match AffinityDomain::from_code(bits[1] as u64) {
                Some(d) => Some(Self::AffinityDomain(d)),
                None => None,
            };
        }
        let mut result: Vec<u32> = Vec::new();
        let mut i: usize = 1;
        let ghost rest = bits@.drop_first();
        loop
            invariant_except_break
                1 <= i <= n,
                n == bits@.len(),
                bits@[0] == cl::CL_DEVICE_PARTITION_BY_COUNTS,
                rest == bits@.drop_first(),
                counts_of_list(rest) == match counts_of_list(bits@.skip(i as int)) {
                    Some(c) => Some(result@ + c),
                    None => None::<Seq<u32>>,
                },
            ensures
                counts_of_list(rest) == Some(result@),
            decreases n - i,
        {
            if i >= n {
                assert(bits@.skip(i as int).len() == 0);
                assert(result@ + Seq::<u32>::empty() =~= result@);
                break;
            }
            let v = bits[i];
            assert(bits@.skip(i as int)[0] == v);
            assert(bits@.skip(i as int).drop_first() =~= bits@.skip(i as int + 1));
            if v == 0 {
                assert(result@ + Seq::<u32>::empty() =~= result@);
                break;
            }
            if v < 1 || (v as i64) > 4294967295i64 {
                assert(!(1 <= v <= u32::MAX));
                assert(counts_of_list(bits@.skip(i as int)) is None);
                assert(counts_of_list(rest) is None);
                assert(partition_of_list(bits@) is None);
                return None;
            }
            result.push(v as u32);
            proof {
                let tail = bits@.skip(i as int + 1);
                match counts_of_list(tail) {
                    Some(c) => {
                        assert(result@ + c =~= result@.drop_last() + (seq![v as u32] + c));
                    },
                    None => {},
                }
            }
            i = i + 1;
        }
        Some(Self::Counts(result))
    }

    /// The zero-terminated partition property list for `clCreateSubDevices`.
    pub fn to_bits(&self) -> (bits: Vec<isize>)
        requires
            partition_writable(self@),
        ensures
            bits@ == partition_list_bits(self@),
    {
        match self {
            Self::Equally(n) => vec![cl::CL_DEVICE_PARTITION_EQUALLY, *n as isize, 0],
            Self::AffinityDomain(x) => vec![
                cl::CL_DEVICE_PARTITION_BY_AFFINITY_DOMAIN,
                x.code() as isize,
                0,
            ],
            Self::Counts(x) => {
                let mut result: Vec<isize> = Vec::new();
                result.push(cl::CL_DEVICE_PARTITION_BY_COUNTS);
                let mut i: usize = 0;
                while i < x.len()
                    invariant
                        i <= x@.len(),
                        result@ == seq![cl::CL_DEVICE_PARTITION_BY_COUNTS] + x@.take(i as int).map_values(
                            |c: u32| c as isize,
                        ),
                    decreases x@.len() - i,
                {
                    result.push(x[i] as isize);
                    i = i + 1;
                    assert(result@ =~= seq![cl::CL_DEVICE_PARTITION_BY_COUNTS] + x@.take(
                        i as int,
                    ).map_values(|c: u32| c as isize));
                }
                result.push(cl::CL_DEVICE_PARTITION_BY_COUNTS_LIST_END);
                assert(x@.take(x@.len() as int) =~= x@);
                result
            },
        }
    }
}

proof fn lemma_counts_roundtrip(c: Seq<u32>, tail: Seq<isize>)
    requires
        forall|i: int| 0 <= i < c.len() ==> 0 < #[trigger] c[i] <= isize::MAX,
        tail.len() > 0 && tail[0] == 0,
    ensures
        counts_of_list(c.map_values(|x: u32| x as isize) + tail) == Some(c),
    decreases c.len(),
{
    let s = c.map_values(|x: u32| x as isize) + tail;
    if c.len() == 0 {
        assert(s =~= tail);
    } else {
        assert(s.drop_first() =~= c.drop_first().map_values(|x: u32| x as isize) + tail);
        assert forall|i: int| 0 <= i < c.drop_first().len() implies 0 < #[trigger] c.drop_first()[i]
            <= isize::MAX by {
            assert(c.drop_first()[i] == c[i + 1]);
        }
        lemma_counts_roundtrip(c.drop_first(), tail);
        assert(s[0] == c[0] as isize);
        assert(seq![c[0]] + c.drop_first() =~= c);
    }
}

/// Reading back the property list of a writable partitioning scheme gives it back.
pub proof fn law_partition_roundtrip(p: PartitionSpec)
    requires
        partition_writable(p),
    ensures
        partition_list_ok(partition_list_bits(p)),
        partition_of_list(partition_list_bits(p)) == Some(p),
{
    match p {
        PartitionSpec::Counts(c) => {
            let bits = partition_list_bits(p);
            let tail = seq![cl::CL_DEVICE_PARTITION_BY_COUNTS_LIST_END];
            assert(bits.drop_first() =~= c.map_values(|x: u32| x as isize) + tail);
            lemma_counts_roundtrip(c, tail);
        },
        PartitionSpec::AffinityDomain(d) => {
        },
        PartitionSpec::Equally(n) => {
        },
    }
}

/// Whether a device's extensions string names the half-precision extension
/// `cl_khr_fp16` as one of its whitespace-separated words.
pub fn has_f16(extensions: &str) -> (r: bool)
    ensures
        r == words(extensions@).contains("cl_khr_fp16"@),
{
    has_word(extensions, "cl_khr_fp16")
}

/// Whether a device's extensions string names the double-precision extension
/// `cl_khr_fp64` as one of its whitespace-separated words.
pub fn has_f64(extensions: &str) -> (r: bool)
    ensures
        r == words(extensions@).contains("cl_khr_fp64"@),
{
    has_word(extensions, "cl_khr_fp64")
}

} // verus!
