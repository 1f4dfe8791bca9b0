//! Numeric values of the OpenCL API that the library encodes and decodes.
//!
//! These are the values fixed by the Khronos OpenCL headers (`cl.h`); they are
//! the same values that the raw bindings expose under the same names.
use vstd::prelude::*;

verus! {

// Error codes
pub const CL_SUCCESS: i32 = 0;
pub const CL_DEVICE_NOT_FOUND: i32 = -1;
pub const CL_DEVICE_NOT_AVAILABLE: i32 = -2;
pub const CL_COMPILER_NOT_AVAILABLE: i32 = -3;
pub const CL_MEM_OBJECT_ALLOCATION_FAILURE: i32 = -4;
pub const CL_OUT_OF_RESOURCES: i32 = -5;
pub const CL_OUT_OF_HOST_MEMORY: i32 = -6;
pub const CL_PROFILING_INFO_NOT_AVAILABLE: i32 = -7;
pub const CL_MEM_COPY_OVERLAP: i32 = -8;
pub const CL_IMAGE_FORMAT_MISMATCH: i32 = -9;
pub const CL_IMAGE_FORMAT_NOT_SUPPORTED: i32 = -10;
pub const CL_BUILD_PROGRAM_FAILURE: i32 = -11;
pub const CL_MAP_FAILURE: i32 = -12;
pub const CL_MISALIGNED_SUB_BUFFER_OFFSET: i32 = -13;
pub const CL_EXEC_STATUS_ERROR_FOR_EVENTS_IN_WAIT_LIST: i32 = -14;
pub const CL_COMPILE_PROGRAM_FAILURE: i32 = -15;
pub const CL_LINKER_NOT_AVAILABLE: i32 = -16;
pub const CL_LINK_PROGRAM_FAILURE: i32 = -17;
pub const CL_DEVICE_PARTITION_FAILED: i32 = -18;
pub const CL_KERNEL_ARG_INFO_NOT_AVAILABLE: i32 = -19;
pub const CL_INVALID_VALUE: i32 = -30;
pub const CL_INVALID_DEVICE_TYPE: i32 = -31;
pub const CL_INVALID_PLATFORM: i32 = -32;
pub const CL_INVALID_DEVICE: i32 = -33;
pub const CL_INVALID_CONTEXT: i32 = -34;
pub const CL_INVALID_QUEUE_PROPERTIES: i32 = -35;
pub const CL_INVALID_COMMAND_QUEUE: i32 = -36;
pub const CL_INVALID_HOST_PTR: i32 = -37;
pub const CL_INVALID_MEM_OBJECT: i32 = -38;
pub const CL_INVALID_IMAGE_FORMAT_DESCRIPTOR: i32 = -39;
pub const CL_INVALID_IMAGE_SIZE: i32 = -40;
pub const CL_INVALID_SAMPLER: i32 = -41;
pub const CL_INVALID_BINARY: i32 = -42;
pub const CL_INVALID_BUILD_OPTIONS: i32 = -43;
pub const CL_INVALID_PROGRAM: i32 = -44;
pub const CL_INVALID_PROGRAM_EXECUTABLE: i32 = -45;
pub const CL_INVALID_KERNEL_NAME: i32 = -46;
pub const CL_INVALID_KERNEL_DEFINITION: i32 = -47;
pub const CL_INVALID_KERNEL: i32 = -48;
pub const CL_INVALID_ARG_INDEX: i32 = -49;
pub const CL_INVALID_ARG_VALUE: i32 = -50;
pub const CL_INVALID_ARG_SIZE: i32 = -51;
pub const CL_INVALID_KERNEL_ARGS: i32 = -52;
pub const CL_INVALID_WORK_DIMENSION: i32 = -53;
pub const CL_INVALID_WORK_GROUP_SIZE: i32 = -54;
pub const CL_INVALID_WORK_ITEM_SIZE: i32 = -55;
pub const CL_INVALID_GLOBAL_OFFSET: i32 = -56;
pub const CL_INVALID_EVENT_WAIT_LIST: i32 = -57;
pub const CL_INVALID_EVENT: i32 = -58;
pub const CL_INVALID_OPERATION: i32 = -59;
pub const CL_INVALID_GL_OBJECT: i32 = -60;
pub const CL_INVALID_BUFFER_SIZE: i32 = -61;
pub const CL_INVALID_MIP_LEVEL: i32 = -62;
pub const CL_INVALID_GLOBAL_WORK_SIZE: i32 = -63;
pub const CL_INVALID_PROPERTY: i32 = -64;
pub const CL_INVALID_IMAGE_DESCRIPTOR: i32 = -65;
pub const CL_INVALID_COMPILER_OPTIONS: i32 = -66;
pub const CL_INVALID_LINKER_OPTIONS: i32 = -67;
pub const CL_INVALID_DEVICE_PARTITION_COUNT: i32 = -68;
pub const CL_INVALID_PIPE_SIZE: i32 = -69;
pub const CL_INVALID_DEVICE_QUEUE: i32 = -70;
pub const CL_INVALID_SPEC_ID: i32 = -71;
pub const CL_MAX_SIZE_RESTRICTION_EXCEEDED: i32 = -72;

// cl_mem_flags
pub const CL_MEM_READ_WRITE: u64 = 1;
pub const CL_MEM_WRITE_ONLY: u64 = 2;
pub const CL_MEM_READ_ONLY: u64 = 4;
pub const CL_MEM_USE_HOST_PTR: u64 = 8;
pub const CL_MEM_ALLOC_HOST_PTR: u64 = 16;
pub const CL_MEM_COPY_HOST_PTR: u64 = 32;
pub const CL_MEM_HOST_WRITE_ONLY: u64 = 128;
pub const CL_MEM_HOST_READ_ONLY: u64 = 256;
pub const CL_MEM_HOST_NO_ACCESS: u64 = 512;

// cl_command_queue_properties
pub const CL_QUEUE_OUT_OF_ORDER_EXEC_MODE_ENABLE: u64 = 1;
pub const CL_QUEUE_PROFILING_ENABLE: u64 = 2;
pub const CL_QUEUE_ON_DEVICE: u64 = 4;
pub const CL_QUEUE_ON_DEVICE_DEFAULT: u64 = 8;

// cl_queue_properties keys
pub const CL_QUEUE_PROPERTIES: u64 = 0x1093;
pub const CL_QUEUE_SIZE: u64 = 0x1094;

// cl_context_properties keys
pub const CL_CONTEXT_PLATFORM: isize = 0x1084;
pub const CL_CONTEXT_INTEROP_USER_SYNC: isize = 0x1085;

// cl_device_partition_property
pub const CL_DEVICE_PARTITION_EQUALLY: isize = 0x1086;
pub const CL_DEVICE_PARTITION_BY_COUNTS: isize = 0x1087;
pub const CL_DEVICE_PARTITION_BY_COUNTS_LIST_END: isize = 0;
pub const CL_DEVICE_PARTITION_BY_AFFINITY_DOMAIN: isize = 0x1088;

// cl_device_affinity_domain
pub const CL_DEVICE_AFFINITY_DOMAIN_NUMA: u64 = 1;
pub const CL_DEVICE_AFFINITY_DOMAIN_L4_CACHE: u64 = 2;
pub const CL_DEVICE_AFFINITY_DOMAIN_L3_CACHE: u64 = 4;
pub const CL_DEVICE_AFFINITY_DOMAIN_L2_CACHE: u64 = 8;
pub const CL_DEVICE_AFFINITY_DOMAIN_L1_CACHE: u64 = 16;
pub const CL_DEVICE_AFFINITY_DOMAIN_NEXT_PARTITIONABLE: u64 = 32;

// cl_device_atomic_capabilities
pub const CL_DEVICE_ATOMIC_ORDER_RELAXED: u64 = 1;
pub const CL_DEVICE_ATOMIC_ORDER_ACQ_REL: u64 = 2;
pub const CL_DEVICE_ATOMIC_ORDER_SEQ_CST: u64 = 4;
pub const CL_DEVICE_ATOMIC_SCOPE_WORK_ITEM: u64 = 8;
pub const CL_DEVICE_ATOMIC_SCOPE_WORK_GROUP: u64 = 16;
pub const CL_DEVICE_ATOMIC_SCOPE_DEVICE: u64 = 32;
pub const CL_DEVICE_ATOMIC_SCOPE_ALL_DEVICES: u64 = 64;

// cl_device_device_enqueue_capabilities
pub const CL_DEVICE_QUEUE_SUPPORTED: u64 = 1;
pub const CL_DEVICE_QUEUE_REPLACEABLE_DEFAULT: u64 = 2;

// cl_device_mem_cache_type
pub const CL_NONE: u32 = 0;
pub const CL_READ_ONLY_CACHE: u32 = 1;
pub const CL_READ_WRITE_CACHE: u32 = 2;

// cl_device_local_mem_type
pub const CL_LOCAL: u32 = 1;
pub const CL_GLOBAL: u32 = 2;

// cl_kernel_arg_address_qualifier
pub const CL_KERNEL_ARG_ADDRESS_GLOBAL: u32 = 0x119B;
pub const CL_KERNEL_ARG_ADDRESS_LOCAL: u32 = 0x119C;
pub const CL_KERNEL_ARG_ADDRESS_CONSTANT: u32 = 0x119D;
pub const CL_KERNEL_ARG_ADDRESS_PRIVATE: u32 = 0x119E;

// cl_kernel_arg_access_qualifier
pub const CL_KERNEL_ARG_ACCESS_READ_ONLY: u32 = 0x11A0;
pub const CL_KERNEL_ARG_ACCESS_WRITE_ONLY: u32 = 0x11A1;
pub const CL_KERNEL_ARG_ACCESS_READ_WRITE: u32 = 0x11A2;
pub const CL_KERNEL_ARG_ACCESS_NONE: u32 = 0x11A3;

// cl_mem_object_type
pub const CL_MEM_OBJECT_BUFFER: u32 = 0x10F0;
pub const CL_MEM_OBJECT_IMAGE2D: u32 = 0x10F1;
pub const CL_MEM_OBJECT_IMAGE3D: u32 = 0x10F2;
pub const CL_MEM_OBJECT_PIPE: u32 = 0x10F7;

// cl_version layout
pub const CL_VERSION_MAJOR_BITS: u32 = 10;
pub const CL_VERSION_MINOR_BITS: u32 = 10;
pub const CL_VERSION_PATCH_BITS: u32 = 12;
pub const CL_VERSION_MAJOR_MASK: u32 = 1023;
pub const CL_VERSION_MINOR_MASK: u32 = 1023;
pub const CL_VERSION_PATCH_MASK: u32 = 4095;

} // verus!
