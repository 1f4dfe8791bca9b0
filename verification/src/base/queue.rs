//! Command-queue properties and their encodings.
use vstd::prelude::*;
use crate::cl;
use crate::base::version::{Version, pack_version};

verus! {

/// Whether the commands of a queue run in order, out of order, or on the device.
#[derive(Debug, Clone, Copy, PartialEq, Eq, Hash, Structural)]
#[non_exhaustive]
pub enum OutOfOrderExec {
    /// The commands in the command-queue are executed out-of-order.
    Enabled,
    /// Commands are executed in-order.
    Disabled,
    /// A device queue, whose commands are executed out-of-order; the flag
    /// tells whether it is the default device queue.
    OnDevice(bool),
}

/// The `cl_command_queue_properties` bits that encode an execution mode.
pub open spec fn exec_bits(e: OutOfOrderExec) -> u64 {
    match e {
        OutOfOrderExec::Enabled => 1,
        OutOfOrderExec::OnDevice(false) => 5,
        OutOfOrderExec::OnDevice(true) => 13,
        OutOfOrderExec::Disabled => 0,
    }
}

/// The execution mode that a set of `cl_command_queue_properties` selects.
pub open spec fn exec_of_bits(v: u64) -> OutOfOrderExec {
    if v & 1 == 0 {
        OutOfOrderExec::Disabled
    } else if v & 4 == 0 {
        OutOfOrderExec::Enabled
    } else if v & 8 == 0 {
        OutOfOrderExec::OnDevice(false)
    } else {
        OutOfOrderExec::OnDevice(true)
    }
}

impl OutOfOrderExec {
    /// Decodes the execution mode of `v`.
    pub fn from_bits(v: u64) -> (e: Self)
        ensures
            e == exec_of_bits(v),
    {
        if v & cl::CL_QUEUE_OUT_OF_ORDER_EXEC_MODE_ENABLE == 0 {
            return Self::Disabled;
        }
        if v & cl::CL_QUEUE_ON_DEVICE == 0 {
            return Self::Enabled;
        }
        if v & cl::CL_QUEUE_ON_DEVICE_DEFAULT == 0 {
            return Self::OnDevice(false);
        }
        Self::OnDevice(true)
    }

    /// Encodes the execution mode.
    pub fn to_bits(self) -> (v: u64)
        ensures
            v == exec_bits(self),
    {
        let on_device = cl::CL_QUEUE_ON_DEVICE | cl::CL_QUEUE_OUT_OF_ORDER_EXEC_MODE_ENABLE;
        let on_device_default = cl::CL_QUEUE_ON_DEVICE_DEFAULT | on_device;
        assert(on_device == 5 && on_device_default == 13) by (bit_vector)
            requires
                on_device == 4u64 | 1u64,
                on_device_default == 8u64 | on_device,
        ;
        match self {
            Self::Enabled => cl::CL_QUEUE_OUT_OF_ORDER_EXEC_MODE_ENABLE,
            Self::OnDevice(false) => on_device,
            Self::OnDevice(true) => on_device_default,
            Self::Disabled => 0,
        }
    }
}

impl From<bool> for OutOfOrderExec {
    fn from(v: bool) -> (e: Self) {
        if v {
            return Self::Enabled;
        }
        Self::Disabled
    }
}

impl vstd::std_specs::convert::FromSpecImpl<bool> for OutOfOrderExec {
    open spec fn obeys_from_spec() -> bool {
        true
    }

    open spec fn from_spec(v: bool) -> Self {
        if v {
            OutOfOrderExec::Enabled
        } else {
            OutOfOrderExec::Disabled
        }
    }
}

impl Default for OutOfOrderExec {
    fn default() -> (e: Self)
        ensures
            e == OutOfOrderExec::Disabled,
    {
        Self::Disabled
    }
}

/// The properties of a command queue.
#[derive(Debug, Clone, Copy, PartialEq, Eq, Hash, Structural)]
#[non_exhaustive]
pub struct CommandQueueProperties {
    /// Whether the commands queued in the command-queue are executed in-order or out-of-order.
    pub out_of_order_exec: OutOfOrderExec,
    /// Whether profiling of the commands is enabled.
    pub profiling: bool,
}

/// The `cl_command_queue_properties` that encode a set of queue properties.
pub open spec fn queue_props_bits(p: CommandQueueProperties) -> u64 {
    exec_bits(p.out_of_order_exec) | (if p.profiling { 2u64 } else { 0u64 })
}

/// The queue properties that a `cl_command_queue_properties` value selects.
pub open spec fn queue_props_of_bits(v: u64) -> CommandQueueProperties {
    CommandQueueProperties { out_of_order_exec: exec_of_bits(v), profiling: v & 2 != 0 }
}

impl CommandQueueProperties {
    pub fn new(out_of_order_exec: OutOfOrderExec, profiling: bool) -> (p: Self)
        ensures
            p == (CommandQueueProperties { out_of_order_exec, profiling }),
    {
        Self { out_of_order_exec, profiling }
    }

    pub fn const_new(out_of_order_exec: OutOfOrderExec, profiling: bool) -> (p: Self)
        ensures
            p == (CommandQueueProperties { out_of_order_exec, profiling }),
    {
        Self { out_of_order_exec, profiling }
    }

    /// Decodes `v`.
    pub fn from_bits(v: u64) -> (p: Self)
        ensures
            p == queue_props_of_bits(v),
    {
        let out_of_order_exec = OutOfOrderExec::from_bits(v);
        let profiling = v & cl::CL_QUEUE_PROFILING_ENABLE != 0;
        Self { out_of_order_exec, profiling }
    }

    /// Encodes the properties.
    pub fn to_bits(self) -> (v: u64)
        ensures
            v == queue_props_bits(self),
    {
        let mut bits = self.out_of_order_exec.to_bits();
        if self.profiling {
            bits = bits | cl::CL_QUEUE_PROFILING_ENABLE;
        }
        assert(bits | 0u64 == bits) by (bit_vector);
        bits
    }
}

impl Default for CommandQueueProperties {
    /// In-order execution, without profiling.
    fn default() -> (p: Self)
        ensures
            p == (CommandQueueProperties {
                out_of_order_exec: OutOfOrderExec::Disabled,
                profiling: false,
            }),
    {
        Self { out_of_order_exec: OutOfOrderExec::Disabled, profiling: false }
    }
}

/// Decoding the encoding of queue properties gives them back.
pub proof fn law_queue_props_roundtrip(p: CommandQueueProperties)
    ensures
        queue_props_of_bits(queue_props_bits(p)) == p,
{
    let e = exec_bits(p.out_of_order_exec);
    let pr = p.profiling;
    let v = queue_props_bits(p);
    assert(e == 0 || e == 1 || e == 5 || e == 13);
    assert(v == e | (if pr { 2u64 } else { 0u64 }));
    assert((v & 2u64 != 0u64) == pr && v & 1u64 == e & 1u64 && v & 4u64 == e & 4u64 && v & 8u64
        == e & 8u64) by (bit_vector)
        requires
            v == e | (if pr { 2u64 } else { 0u64 }),
            e == 0 || e == 1 || e == 5 || e == 13,
    ;
    assert(0u64 & 1u64 == 0u64 && 1u64 & 1u64 != 0u64 && 1u64 & 4u64 == 0u64 && 5u64 & 1u64 != 0u64
        && 5u64 & 4u64 != 0u64 && 5u64 & 8u64 == 0u64 && 13u64 & 1u64 != 0u64 && 13u64 & 4u64
        != 0u64 && 13u64 & 8u64 != 0u64) by (bit_vector);
}

/// Properties of a command queue, with the size of a device queue.
#[derive(Debug, Clone, Copy, PartialEq, Eq, Hash, Structural)]
#[non_exhaustive]
pub struct QueueProperties {
    pub props: CommandQueueProperties,
    /// The size of the device queue in bytes, when one is asked for (never zero).
    pub size: Option<u32>,
}

/// Whether `bits` is a property list that [`QueueProperties::from_bits`] can read:
/// empty, or keys (`CL_QUEUE_PROPERTIES`, `CL_QUEUE_SIZE`) with their values,
/// ended by a zero key after at most two pairs; sizes fit in `u32`.
pub open spec fn queue_list_ok(bits: Seq<u64>) -> bool {
    bits.len() == 0 || {
        &&& bits.len() >= 1
        &&& (bits[0] == 0 || (bits.len() >= 3 && (bits[0] == cl::CL_QUEUE_PROPERTIES || (bits[0]
            == cl::CL_QUEUE_SIZE && bits[1] <= u32::MAX)) && (bits[2] == 0 || (bits.len() >= 4 && (
        bits[2] == cl::CL_QUEUE_PROPERTIES || (bits[2] == cl::CL_QUEUE_SIZE && bits[3]
            <= u32::MAX))))))
    }
}

/// Whether [`QueueProperties::from_bits`] can read `bits`.
pub fn queue_list_valid(bits: &[u64]) -> (b: bool)
    ensures
        b == queue_list_ok(bits@),
{
    let n = bits.len();
    if n == 0 || bits[0] == 0 {
        return true;
    }
    if n < 3 {
        return false;
    }
    let first = bits[0] == cl::CL_QUEUE_PROPERTIES || (bits[0] == cl::CL_QUEUE_SIZE && bits[1]
        <= 0xffff_ffffu64);
    if !first {
        return false;
    }
    bits[2] == 0 || (n >= 4 && (bits[2] == cl::CL_QUEUE_PROPERTIES || (bits[2] == cl::CL_QUEUE_SIZE
        && bits[3] <= 0xffff_ffffu64)))
}

/// A `u32` size read from a property list: zero stands for no size.
pub open spec fn size_of_value(v: u64) -> Option<u32> {
    if v == 0 {
        None
    } else {
        Some(v as u32)
    }
}

/// Applies one key/value pair of a property list.
pub open spec fn apply_queue_pair(q: QueueProperties, key: u64, value: u64) -> QueueProperties {
    if key == cl::CL_QUEUE_PROPERTIES {
        QueueProperties { props: queue_props_of_bits(value), ..q }
    } else {
        QueueProperties { size: size_of_value(value), ..q }
    }
}

/// What [`QueueProperties::from_bits`] reads from a property list.
pub open spec fn queue_props_of_list(bits: Seq<u64>) -> QueueProperties {
    let start = QueueProperties {
        props: CommandQueueProperties { out_of_order_exec: OutOfOrderExec::Disabled, profiling: false },
        size: None,
    };
    if bits.len() == 0 || bits[0] == 0 {
        start
    } else {
        let first = apply_queue_pair(start, bits[0], bits[1]);
        if bits[2] == 0 {
            first
        } else {
            apply_queue_pair(first, bits[2], bits[3])
        }
    }
}

/// The zero-terminated property list that encodes queue properties.
pub open spec fn queue_list_bits(q: QueueProperties) -> Seq<u64> {
    match q.size {
        Some(size) => seq![
            cl::CL_QUEUE_PROPERTIES,
            queue_props_bits(q.props),
            cl::CL_QUEUE_SIZE,
            size as u64,
            0u64,
        ],
        None => seq![cl::CL_QUEUE_PROPERTIES, queue_props_bits(q.props), 0u64],
    }
}

impl QueueProperties {
    pub fn new(props: CommandQueueProperties, size: Option<u32>) -> (q: Self)
        requires
            size matches Some(s) ==> s != 0,
        ensures
            q == (QueueProperties { props, size }),
    {
        Self { props, size }
    }

    pub fn const_new(props: CommandQueueProperties, size: Option<u32>) -> (q: Self)
        requires
            size matches Some(s) ==> s != 0,
        ensures
            q == (QueueProperties { props, size }),
    {
        Self { props, size }
    }

    /// The zero-terminated property list for `clCreateCommandQueueWithProperties`.
    pub fn to_bits(self) -> (bits: Vec<u64>)
        requires
            self.size matches Some(s) ==> s != 0,
        ensures
            bits@ == queue_list_bits(self),
    {
        let props = self.props.to_bits();
        match self.size {
            Some(size) => vec![
                cl::CL_QUEUE_PROPERTIES,
                props,
                cl::CL_QUEUE_SIZE,
                size as u64,
                0,
            ],
            None => vec![cl::CL_QUEUE_PROPERTIES, props, 0],
        }
    }

    /// Reads a property list as returned by the OpenCL runtime.
    pub fn from_bits(bits: &[u64]) -> (q: Self)
        requires
            queue_list_ok(bits@),
        ensures
            q == queue_props_of_list(bits@),
    {
        let mut q = Self {
            props: CommandQueueProperties { out_of_order_exec: OutOfOrderExec::Disabled, profiling: false },
            size: None,
        };
        if bits.len() == 0 {
            return q;
        }
        if bits[0] == 0 {
            return q;
        }
        q = Self::apply_pair(q, bits[0], bits[1]);
        if bits[2] == 0 {
            return q;
        }
        Self::apply_pair(q, bits[2], bits[3])
    }

    fn apply_pair(q: Self, key: u64, value: u64) -> (r: Self)
        requires
            key == cl::CL_QUEUE_PROPERTIES || (key == cl::CL_QUEUE_SIZE && value <= u32::MAX),
        ensures
            r == apply_queue_pair(q, key, value),
    {
        if key == cl::CL_QUEUE_PROPERTIES {
            Self { props: CommandQueueProperties::from_bits(value), size: q.size }
        } else {
            let size = value as u32;
            Self { props: q.props, size: if size == 0 { None } else { Some(size) } }
        }
    }
}

impl Default for QueueProperties {
    fn default() -> (q: Self)
        ensures
            q == (QueueProperties {
                props: CommandQueueProperties { out_of_order_exec: OutOfOrderExec::Disabled, profiling: false },
                size: None,
            }),
    {
        Self {
            props: CommandQueueProperties { out_of_order_exec: OutOfOrderExec::Disabled, profiling: false },
            size: None,
        }
    }
}

impl From<CommandQueueProperties> for QueueProperties {
    fn from(props: CommandQueueProperties) -> (q: Self) {
        Self::new(props, None)
    }
}

impl vstd::std_specs::convert::FromSpecImpl<CommandQueueProperties> for QueueProperties {
    open spec fn obeys_from_spec() -> bool {
        true
    }

    open spec fn from_spec(v: CommandQueueProperties) -> Self {
        QueueProperties { props: v, size: None }
    }
}

/// Reading back the property list of queue properties gives them back,
/// whenever the size is not zero.
pub proof fn law_queue_list_roundtrip(q: QueueProperties)
    requires
        q.size matches Some(s) ==> s != 0,
    ensures
        queue_list_ok(queue_list_bits(q)),
        queue_props_of_list(queue_list_bits(q)) == q,
{
    law_queue_props_roundtrip(q.props);
}

/// Whether command queues of a context whose devices all support OpenCL
/// `common` are created from a property list (`clCreateCommandQueueWithProperties`,
/// OpenCL 2.0 and later), rather than from the property bits alone.
pub fn queue_takes_property_list(common: Version) -> (b: bool)
    ensures
        b == (common.bits() >= pack_version(2, 0, 0)),
{
    !common.is_older_than(&Version::cl2())
}

} // verus!
