//! Errors reported by the OpenCL runtime and by the library itself.
use vstd::prelude::*;
use crate::cl;

verus! {

/// The kind of an OpenCL error, one variant per error code of the OpenCL API.
#[derive(Debug, Clone, Copy, PartialEq, Eq, Hash, Structural)]
pub enum ErrorType {
    DeviceNotFound,
    DeviceNotAvailable,
    CompilerNotAvailable,
    MemObjectAllocationFailure,
    OutOfResources,
    OutOfHostMemory,
    ProfilingInfoNotAvailable,
    MemCopyOverlap,
    ImageFormatMismatch,
    ImageFormatNotSupported,
    BuildProgramFailure,
    MapFailure,
    MisalignedSubBufferOffset,
    ExecStatusErrorForEventsInWaitList,
    CompileProgramFailure,
    LinkerNotAvailable,
    LinkProgramFailure,
    DevicePartitionFailed,
    KernelArgInfoNotAvailable,
    InvalidValue,
    InvalidDeviceType,
    InvalidPlatform,
    InvalidDevice,
    InvalidContext,
    InvalidQueueProperties,
    InvalidCommandQueue,
    InvalidHostPtr,
    InvalidMemObject,
    InvalidImageFormatDescriptor,
    InvalidImageSize,
    InvalidSampler,
    InvalidBinary,
    InvalidBuildOptions,
    InvalidProgram,
    InvalidProgramExecutable,
    InvalidKernelName,
    InvalidKernelDefinition,
    InvalidKernel,
    InvalidArgIndex,
    InvalidArgValue,
    InvalidArgSize,
    InvalidKernelArgs,
    InvalidWorkDimension,
    InvalidWorkGroupSize,
    InvalidWorkItemSize,
    InvalidGlobalOffset,
    InvalidEventWaitList,
    InvalidEvent,
    InvalidOperation,
    InvalidGlObject,
    InvalidBufferSize,
    InvalidMipLevel,
    InvalidGlobalWorkSize,
    InvalidProperty,
    InvalidImageDescriptor,
    InvalidCompilerOptions,
    InvalidLinkerOptions,
    InvalidDevicePartitionCount,
    InvalidPipeSize,
    InvalidDeviceQueue,
    InvalidSpecId,
    MaxSizeRestrictionExceeded,
    /// Reported by Nvidia drivers on an illegal buffer action.
    NvidiaIllegalBufferAction,
}

/// Alias under which parts of the library name [`ErrorType`].
pub type ErrorKind = ErrorType;

/// The OpenCL error code of each error kind.
pub open spec fn error_code(ty: ErrorType) -> i32 {
    match ty {
        ErrorType::DeviceNotFound => cl::CL_DEVICE_NOT_FOUND,
        ErrorType::DeviceNotAvailable => cl::CL_DEVICE_NOT_AVAILABLE,
        ErrorType::CompilerNotAvailable => cl::CL_COMPILER_NOT_AVAILABLE,
        ErrorType::MemObjectAllocationFailure => cl::CL_MEM_OBJECT_ALLOCATION_FAILURE,
        ErrorType::OutOfResources => cl::CL_OUT_OF_RESOURCES,
        ErrorType::OutOfHostMemory => cl::CL_OUT_OF_HOST_MEMORY,
        ErrorType::ProfilingInfoNotAvailable => cl::CL_PROFILING_INFO_NOT_AVAILABLE,
        ErrorType::MemCopyOverlap => cl::CL_MEM_COPY_OVERLAP,
        ErrorType::ImageFormatMismatch => cl::CL_IMAGE_FORMAT_MISMATCH,
        ErrorType::ImageFormatNotSupported => cl::CL_IMAGE_FORMAT_NOT_SUPPORTED,
        ErrorType::BuildProgramFailure => cl::CL_BUILD_PROGRAM_FAILURE,
        ErrorType::MapFailure => cl::CL_MAP_FAILURE,
        ErrorType::MisalignedSubBufferOffset => cl::CL_MISALIGNED_SUB_BUFFER_OFFSET,
        ErrorType::ExecStatusErrorForEventsInWaitList => cl::CL_EXEC_STATUS_ERROR_FOR_EVENTS_IN_WAIT_LIST,
        ErrorType::CompileProgramFailure => cl::CL_COMPILE_PROGRAM_FAILURE,
        ErrorType::LinkerNotAvailable => cl::CL_LINKER_NOT_AVAILABLE,
        ErrorType::LinkProgramFailure => cl::CL_LINK_PROGRAM_FAILURE,
        ErrorType::DevicePartitionFailed => cl::CL_DEVICE_PARTITION_FAILED,
        ErrorType::KernelArgInfoNotAvailable => cl::CL_KERNEL_ARG_INFO_NOT_AVAILABLE,
        ErrorType::InvalidValue => cl::CL_INVALID_VALUE,
        ErrorType::InvalidDeviceType => cl::CL_INVALID_DEVICE_TYPE,
        ErrorType::InvalidPlatform => cl::CL_INVALID_PLATFORM,
        ErrorType::InvalidDevice => cl::CL_INVALID_DEVICE,
        ErrorType::InvalidContext => cl::CL_INVALID_CONTEXT,
        ErrorType::InvalidQueueProperties => cl::CL_INVALID_QUEUE_PROPERTIES,
        ErrorType::InvalidCommandQueue => cl::CL_INVALID_COMMAND_QUEUE,
        ErrorType::InvalidHostPtr => cl::CL_INVALID_HOST_PTR,
        ErrorType::InvalidMemObject => cl::CL_INVALID_MEM_OBJECT,
        ErrorType::InvalidImageFormatDescriptor => cl::CL_INVALID_IMAGE_FORMAT_DESCRIPTOR,
        ErrorType::InvalidImageSize => cl::CL_INVALID_IMAGE_SIZE,
        ErrorType::InvalidSampler => cl::CL_INVALID_SAMPLER,
        ErrorType::InvalidBinary => cl::CL_INVALID_BINARY,
        ErrorType::InvalidBuildOptions => cl::CL_INVALID_BUILD_OPTIONS,
        ErrorType::InvalidProgram => cl::CL_INVALID_PROGRAM,
        ErrorType::InvalidProgramExecutable => cl::CL_INVALID_PROGRAM_EXECUTABLE,
        ErrorType::InvalidKernelName => cl::CL_INVALID_KERNEL_NAME,
        ErrorType::InvalidKernelDefinition => cl::CL_INVALID_KERNEL_DEFINITION,
        ErrorType::InvalidKernel => cl::CL_INVALID_KERNEL,
        ErrorType::InvalidArgIndex => cl::CL_INVALID_ARG_INDEX,
        ErrorType::InvalidArgValue => cl::CL_INVALID_ARG_VALUE,
        ErrorType::InvalidArgSize => cl::CL_INVALID_ARG_SIZE,
        ErrorType::InvalidKernelArgs => cl::CL_INVALID_KERNEL_ARGS,
        ErrorType::InvalidWorkDimension => cl::CL_INVALID_WORK_DIMENSION,
        ErrorType::InvalidWorkGroupSize => cl::CL_INVALID_WORK_GROUP_SIZE,
        ErrorType::InvalidWorkItemSize => cl::CL_INVALID_WORK_ITEM_SIZE,
        ErrorType::InvalidGlobalOffset => cl::CL_INVALID_GLOBAL_OFFSET,
        ErrorType::InvalidEventWaitList => cl::CL_INVALID_EVENT_WAIT_LIST,
        ErrorType::InvalidEvent => cl::CL_INVALID_EVENT,
        ErrorType::InvalidOperation => cl::CL_INVALID_OPERATION,
        ErrorType::InvalidGlObject => cl::CL_INVALID_GL_OBJECT,
        ErrorType::InvalidBufferSize => cl::CL_INVALID_BUFFER_SIZE,
        ErrorType::InvalidMipLevel => cl::CL_INVALID_MIP_LEVEL,
        ErrorType::InvalidGlobalWorkSize => cl::CL_INVALID_GLOBAL_WORK_SIZE,
        ErrorType::InvalidProperty => cl::CL_INVALID_PROPERTY,
        ErrorType::InvalidImageDescriptor => cl::CL_INVALID_IMAGE_DESCRIPTOR,
        ErrorType::InvalidCompilerOptions => cl::CL_INVALID_COMPILER_OPTIONS,
        ErrorType::InvalidLinkerOptions => cl::CL_INVALID_LINKER_OPTIONS,
        ErrorType::InvalidDevicePartitionCount => cl::CL_INVALID_DEVICE_PARTITION_COUNT,
        ErrorType::InvalidPipeSize => cl::CL_INVALID_PIPE_SIZE,
        ErrorType::InvalidDeviceQueue => cl::CL_INVALID_DEVICE_QUEUE,
        ErrorType::InvalidSpecId => cl::CL_INVALID_SPEC_ID,
        ErrorType::MaxSizeRestrictionExceeded => cl::CL_MAX_SIZE_RESTRICTION_EXCEEDED,
        ErrorType::NvidiaIllegalBufferAction => -9999i32,
    }
}

/// Whether `code` is the code of some error kind: OpenCL's error codes run
/// from -1 to -19 and from -30 to -72, and Nvidia adds -9999.
pub open spec fn is_error_code(code: i32) -> bool {
    ||| -19 <= code <= -1
    ||| -72 <= code <= -30
    ||| code == -9999
}

impl ErrorType {
    /// The OpenCL error code of this kind.
    pub fn as_i32(self) -> (code: i32)
        ensures
            code == error_code(self),
    {
        match self {
            ErrorType::DeviceNotFound => cl::CL_DEVICE_NOT_FOUND,
            ErrorType::DeviceNotAvailable => cl::CL_DEVICE_NOT_AVAILABLE,
            ErrorType::CompilerNotAvailable => cl::CL_COMPILER_NOT_AVAILABLE,
            ErrorType::MemObjectAllocationFailure => cl::CL_MEM_OBJECT_ALLOCATION_FAILURE,
            ErrorType::OutOfResources => cl::CL_OUT_OF_RESOURCES,
            ErrorType::OutOfHostMemory => cl::CL_OUT_OF_HOST_MEMORY,
            ErrorType::ProfilingInfoNotAvailable => cl::CL_PROFILING_INFO_NOT_AVAILABLE,
            ErrorType::MemCopyOverlap => cl::CL_MEM_COPY_OVERLAP,
            ErrorType::ImageFormatMismatch => cl::CL_IMAGE_FORMAT_MISMATCH,
            ErrorType::ImageFormatNotSupported => cl::CL_IMAGE_FORMAT_NOT_SUPPORTED,
            ErrorType::BuildProgramFailure => cl::CL_BUILD_PROGRAM_FAILURE,
            ErrorType::MapFailure => cl::CL_MAP_FAILURE,
            ErrorType::MisalignedSubBufferOffset => cl::CL_MISALIGNED_SUB_BUFFER_OFFSET,
            ErrorType::ExecStatusErrorForEventsInWaitList => cl::CL_EXEC_STATUS_ERROR_FOR_EVENTS_IN_WAIT_LIST,
            ErrorType::CompileProgramFailure => cl::CL_COMPILE_PROGRAM_FAILURE,
            ErrorType::LinkerNotAvailable => cl::CL_LINKER_NOT_AVAILABLE,
            ErrorType::LinkProgramFailure => cl::CL_LINK_PROGRAM_FAILURE,
            ErrorType::DevicePartitionFailed => cl::CL_DEVICE_PARTITION_FAILED,
            ErrorType::KernelArgInfoNotAvailable => cl::CL_KERNEL_ARG_INFO_NOT_AVAILABLE,
            ErrorType::InvalidValue => cl::CL_INVALID_VALUE,
            ErrorType::InvalidDeviceType => cl::CL_INVALID_DEVICE_TYPE,
            ErrorType::InvalidPlatform => cl::CL_INVALID_PLATFORM,
            ErrorType::InvalidDevice => cl::CL_INVALID_DEVICE,
            ErrorType::InvalidContext => cl::CL_INVALID_CONTEXT,
            ErrorType::InvalidQueueProperties => cl::CL_INVALID_QUEUE_PROPERTIES,
            ErrorType::InvalidCommandQueue => cl::CL_INVALID_COMMAND_QUEUE,
            ErrorType::InvalidHostPtr => cl::CL_INVALID_HOST_PTR,
            ErrorType::InvalidMemObject => cl::CL_INVALID_MEM_OBJECT,
            ErrorType::InvalidImageFormatDescriptor => cl::CL_INVALID_IMAGE_FORMAT_DESCRIPTOR,
            ErrorType::InvalidImageSize => cl::CL_INVALID_IMAGE_SIZE,
            ErrorType::InvalidSampler => cl::CL_INVALID_SAMPLER,
            ErrorType::InvalidBinary => cl::CL_INVALID_BINARY,
            ErrorType::InvalidBuildOptions => cl::CL_INVALID_BUILD_OPTIONS,
            ErrorType::InvalidProgram => cl::CL_INVALID_PROGRAM,
            ErrorType::InvalidProgramExecutable => cl::CL_INVALID_PROGRAM_EXECUTABLE,
            ErrorType::InvalidKernelName => cl::CL_INVALID_KERNEL_NAME,
            ErrorType::InvalidKernelDefinition => cl::CL_INVALID_KERNEL_DEFINITION,
            ErrorType::InvalidKernel => cl::CL_INVALID_KERNEL,
            ErrorType::InvalidArgIndex => cl::CL_INVALID_ARG_INDEX,
            ErrorType::InvalidArgValue => cl::CL_INVALID_ARG_VALUE,
            ErrorType::InvalidArgSize => cl::CL_INVALID_ARG_SIZE,
            ErrorType::InvalidKernelArgs => cl::CL_INVALID_KERNEL_ARGS,
            ErrorType::InvalidWorkDimension => cl::CL_INVALID_WORK_DIMENSION,
            ErrorType::InvalidWorkGroupSize => cl::CL_INVALID_WORK_GROUP_SIZE,
            ErrorType::InvalidWorkItemSize => cl::CL_INVALID_WORK_ITEM_SIZE,
            ErrorType::InvalidGlobalOffset => cl::CL_INVALID_GLOBAL_OFFSET,
            ErrorType::InvalidEventWaitList => cl::CL_INVALID_EVENT_WAIT_LIST,
            ErrorType::InvalidEvent => cl::CL_INVALID_EVENT,
            ErrorType::InvalidOperation => cl::CL_INVALID_OPERATION,
            ErrorType::InvalidGlObject => cl::CL_INVALID_GL_OBJECT,
            ErrorType::InvalidBufferSize => cl::CL_INVALID_BUFFER_SIZE,
            ErrorType::InvalidMipLevel => cl::CL_INVALID_MIP_LEVEL,
            ErrorType::InvalidGlobalWorkSize => cl::CL_INVALID_GLOBAL_WORK_SIZE,
            ErrorType::InvalidProperty => cl::CL_INVALID_PROPERTY,
            ErrorType::InvalidImageDescriptor => cl::CL_INVALID_IMAGE_DESCRIPTOR,
            ErrorType::InvalidCompilerOptions => cl::CL_INVALID_COMPILER_OPTIONS,
            ErrorType::InvalidLinkerOptions => cl::CL_INVALID_LINKER_OPTIONS,
            ErrorType::InvalidDevicePartitionCount => cl::CL_INVALID_DEVICE_PARTITION_COUNT,
            ErrorType::InvalidPipeSize => cl::CL_INVALID_PIPE_SIZE,
            ErrorType::InvalidDeviceQueue => cl::CL_INVALID_DEVICE_QUEUE,
            ErrorType::InvalidSpecId => cl::CL_INVALID_SPEC_ID,
            ErrorType::MaxSizeRestrictionExceeded => cl::CL_MAX_SIZE_RESTRICTION_EXCEEDED,
            ErrorType::NvidiaIllegalBufferAction => -9999i32,
        }
    }

    /// The error kind whose OpenCL code is `code`, if there is one.
    pub fn from_code(code: i32) -> (res: Option<ErrorType>)
        ensures
            match res {
                Some(ty) => error_code(ty) == code,
                None => !is_error_code(code),
            },
    {
        let r = if code == -9999i32 {
            Some(ErrorType::NvidiaIllegalBufferAction)
        }
        else if code == cl::CL_DEVICE_NOT_FOUND {
            Some(ErrorType::DeviceNotFound)
        }
        else if code == cl::CL_DEVICE_NOT_AVAILABLE {
            Some(ErrorType::DeviceNotAvailable)
        }
        else if code == cl::CL_COMPILER_NOT_AVAILABLE {
            Some(ErrorType::CompilerNotAvailable)
        }
        else if code == cl::CL_MEM_OBJECT_ALLOCATION_FAILURE {
            Some(ErrorType::MemObjectAllocationFailure)
        }
        else if code == cl::CL_OUT_OF_RESOURCES {
            Some(ErrorType::OutOfResources)
        }
        else if code == cl::CL_OUT_OF_HOST_MEMORY {
            Some(ErrorType::OutOfHostMemory)
        }
        else if code == cl::CL_PROFILING_INFO_NOT_AVAILABLE {
            Some(ErrorType::ProfilingInfoNotAvailable)
        }
        else if code == cl::CL_MEM_COPY_OVERLAP {
            Some(ErrorType::MemCopyOverlap)
        }
        else if code == cl::CL_IMAGE_FORMAT_MISMATCH {
            Some(ErrorType::ImageFormatMismatch)
        }
        else if code == cl::CL_IMAGE_FORMAT_NOT_SUPPORTED {
            Some(ErrorType::ImageFormatNotSupported)
        }
        else if code == cl::CL_BUILD_PROGRAM_FAILURE {
            Some(ErrorType::BuildProgramFailure)
        }
        else if code == cl::CL_MAP_FAILURE {
            Some(ErrorType::MapFailure)
        }
        else if code == cl::CL_MISALIGNED_SUB_BUFFER_OFFSET {
            Some(ErrorType::MisalignedSubBufferOffset)
        }
        else if code == cl::CL_EXEC_STATUS_ERROR_FOR_EVENTS_IN_WAIT_LIST {
            Some(ErrorType::ExecStatusErrorForEventsInWaitList)
        }
        else if code == cl::CL_COMPILE_PROGRAM_FAILURE {
            Some(ErrorType::CompileProgramFailure)
        }
        else if code == cl::CL_LINKER_NOT_AVAILABLE {
            Some(ErrorType::LinkerNotAvailable)
        }
        else if code == cl::CL_LINK_PROGRAM_FAILURE {
            Some(ErrorType::LinkProgramFailure)
        }
        else if code == cl::CL_DEVICE_PARTITION_FAILED {
            Some(ErrorType::DevicePartitionFailed)
        }
        else if code == cl::CL_KERNEL_ARG_INFO_NOT_AVAILABLE {
            Some(ErrorType::KernelArgInfoNotAvailable)
        }
        else if code == cl::CL_INVALID_VALUE {
            Some(ErrorType::InvalidValue)
        }
        else if code == cl::CL_INVALID_DEVICE_TYPE {
            Some(ErrorType::InvalidDeviceType)
        }
        else if code == cl::CL_INVALID_PLATFORM {
            Some(ErrorType::InvalidPlatform)
        }
        else if code == cl::CL_INVALID_DEVICE {
            Some(ErrorType::InvalidDevice)
        }
        else if code == cl::CL_INVALID_CONTEXT {
            Some(ErrorType::InvalidContext)
        }
        else if code == cl::CL_INVALID_QUEUE_PROPERTIES {
            Some(ErrorType::InvalidQueueProperties)
        }
        else if code == cl::CL_INVALID_COMMAND_QUEUE {
            Some(ErrorType::InvalidCommandQueue)
        }
        else if code == cl::CL_INVALID_HOST_PTR {
            Some(ErrorType::InvalidHostPtr)
        }
        else if code == cl::CL_INVALID_MEM_OBJECT {
            Some(ErrorType::InvalidMemObject)
        }
        else if code == cl::CL_INVALID_IMAGE_FORMAT_DESCRIPTOR {
            Some(ErrorType::InvalidImageFormatDescriptor)
        }
        else if code == cl::CL_INVALID_IMAGE_SIZE {
            Some(ErrorType::InvalidImageSize)
        }
        else if code == cl::CL_INVALID_SAMPLER {
            Some(ErrorType::InvalidSampler)
        }
        else if code == cl::CL_INVALID_BINARY {
            Some(ErrorType::InvalidBinary)
        }
        else if code == cl::CL_INVALID_BUILD_OPTIONS {
            Some(ErrorType::InvalidBuildOptions)
        }
        else if code == cl::CL_INVALID_PROGRAM {
            Some(ErrorType::InvalidProgram)
        }
        else if code == cl::CL_INVALID_PROGRAM_EXECUTABLE {
            Some(ErrorType::InvalidProgramExecutable)
        }
        else if code == cl::CL_INVALID_KERNEL_NAME {
            Some(ErrorType::InvalidKernelName)
        }
        else if code == cl::CL_INVALID_KERNEL_DEFINITION {
            Some(ErrorType::InvalidKernelDefinition)
        }
        else if code == cl::CL_INVALID_KERNEL {
            Some(ErrorType::InvalidKernel)
        }
        else if code == cl::CL_INVALID_ARG_INDEX {
            Some(ErrorType::InvalidArgIndex)
        }
        else if code == cl::CL_INVALID_ARG_VALUE {
            Some(ErrorType::InvalidArgValue)
        }
        else if code == cl::CL_INVALID_ARG_SIZE {
            Some(ErrorType::InvalidArgSize)
        }
        else if code == cl::CL_INVALID_KERNEL_ARGS {
            Some(ErrorType::InvalidKernelArgs)
        }
        else if code == cl::CL_INVALID_WORK_DIMENSION {
            Some(ErrorType::InvalidWorkDimension)
        }
        else if code == cl::CL_INVALID_WORK_GROUP_SIZE {
            Some(ErrorType::InvalidWorkGroupSize)
        }
        else if code == cl::CL_INVALID_WORK_ITEM_SIZE {
            Some(ErrorType::InvalidWorkItemSize)
        }
        else if code == cl::CL_INVALID_GLOBAL_OFFSET {
            Some(ErrorType::InvalidGlobalOffset)
        }
        else if code == cl::CL_INVALID_EVENT_WAIT_LIST {
            Some(ErrorType::InvalidEventWaitList)
        }
        else if code == cl::CL_INVALID_EVENT {
            Some(ErrorType::InvalidEvent)
        }
        else if code == cl::CL_INVALID_OPERATION {
            Some(ErrorType::InvalidOperation)
        }
        else if code == cl::CL_INVALID_GL_OBJECT {
            Some(ErrorType::InvalidGlObject)
        }
        else if code == cl::CL_INVALID_BUFFER_SIZE {
            Some(ErrorType::InvalidBufferSize)
        }
        else if code == cl::CL_INVALID_MIP_LEVEL {
            Some(ErrorType::InvalidMipLevel)
        }
        else if code == cl::CL_INVALID_GLOBAL_WORK_SIZE {
            Some(ErrorType::InvalidGlobalWorkSize)
        }
        else if code == cl::CL_INVALID_PROPERTY {
            Some(ErrorType::InvalidProperty)
        }
        else if code == cl::CL_INVALID_IMAGE_DESCRIPTOR {
            Some(ErrorType::InvalidImageDescriptor)
        }
        else if code == cl::CL_INVALID_COMPILER_OPTIONS {
            Some(ErrorType::InvalidCompilerOptions)
        }
        else if code == cl::CL_INVALID_LINKER_OPTIONS {
            Some(ErrorType::InvalidLinkerOptions)
        }
        else if code == cl::CL_INVALID_DEVICE_PARTITION_COUNT {
            Some(ErrorType::InvalidDevicePartitionCount)
        }
        else if code == cl::CL_INVALID_PIPE_SIZE {
            Some(ErrorType::InvalidPipeSize)
        }
        else if code == cl::CL_INVALID_DEVICE_QUEUE {
            Some(ErrorType::InvalidDeviceQueue)
        }
        else if code == cl::CL_INVALID_SPEC_ID {
            Some(ErrorType::InvalidSpecId)
        }
        else if code == cl::CL_MAX_SIZE_RESTRICTION_EXCEEDED {
            Some(ErrorType::MaxSizeRestrictionExceeded)
        }
        else {
            None
        };
        proof {
            if r is None {
                assert forall|ty: ErrorType| error_code(ty) != code by {
                    match ty {
                        ErrorType::DeviceNotFound => {},
                        ErrorType::DeviceNotAvailable => {},
                        ErrorType::CompilerNotAvailable => {},
                        ErrorType::MemObjectAllocationFailure => {},
                        ErrorType::OutOfResources => {},
                        ErrorType::OutOfHostMemory => {},
                        ErrorType::ProfilingInfoNotAvailable => {},
                        ErrorType::MemCopyOverlap => {},
                        ErrorType::ImageFormatMismatch => {},
                        ErrorType::ImageFormatNotSupported => {},
                        ErrorType::BuildProgramFailure => {},
                        ErrorType::MapFailure => {},
                        ErrorType::MisalignedSubBufferOffset => {},
                        ErrorType::ExecStatusErrorForEventsInWaitList => {},
                        ErrorType::CompileProgramFailure => {},
                        ErrorType::LinkerNotAvailable => {},
                        ErrorType::LinkProgramFailure => {},
                        ErrorType::DevicePartitionFailed => {},
                        ErrorType::KernelArgInfoNotAvailable => {},
                        ErrorType::InvalidValue => {},
                        ErrorType::InvalidDeviceType => {},
                        ErrorType::InvalidPlatform => {},
                        ErrorType::InvalidDevice => {},
                        ErrorType::InvalidContext => {},
                        ErrorType::InvalidQueueProperties => {},
                        ErrorType::InvalidCommandQueue => {},
                        ErrorType::InvalidHostPtr => {},
                        ErrorType::InvalidMemObject => {},
                        ErrorType::InvalidImageFormatDescriptor => {},
                        ErrorType::InvalidImageSize => {},
                        ErrorType::InvalidSampler => {},
                        ErrorType::InvalidBinary => {},
                        ErrorType::InvalidBuildOptions => {},
                        ErrorType::InvalidProgram => {},
                        ErrorType::InvalidProgramExecutable => {},
                        ErrorType::InvalidKernelName => {},
                        ErrorType::InvalidKernelDefinition => {},
                        ErrorType::InvalidKernel => {},
                        ErrorType::InvalidArgIndex => {},
                        ErrorType::InvalidArgValue => {},
                        ErrorType::InvalidArgSize => {},
                        ErrorType::InvalidKernelArgs => {},
                        ErrorType::InvalidWorkDimension => {},
                        ErrorType::InvalidWorkGroupSize => {},
                        ErrorType::InvalidWorkItemSize => {},
                        ErrorType::InvalidGlobalOffset => {},
                        ErrorType::InvalidEventWaitList => {},
                        ErrorType::InvalidEvent => {},
                        ErrorType::InvalidOperation => {},
                        ErrorType::InvalidGlObject => {},
                        ErrorType::InvalidBufferSize => {},
                        ErrorType::InvalidMipLevel => {},
                        ErrorType::InvalidGlobalWorkSize => {},
                        ErrorType::InvalidProperty => {},
                        ErrorType::InvalidImageDescriptor => {},
                        ErrorType::InvalidCompilerOptions => {},
                        ErrorType::InvalidLinkerOptions => {},
                        ErrorType::InvalidDevicePartitionCount => {},
                        ErrorType::InvalidPipeSize => {},
                        ErrorType::InvalidDeviceQueue => {},
                        ErrorType::InvalidSpecId => {},
                        ErrorType::MaxSizeRestrictionExceeded => {},
                        ErrorType::NvidiaIllegalBufferAction => {},
                    }
                }
            }
        }
        r
    }
}

/// Two kinds with the same code are the same kind.
pub proof fn law_error_code_injective(a: ErrorType, b: ErrorType)
    ensures
        error_code(a) == error_code(b) ==> a == b,
{
}

/// The code of every error kind is an error code.
pub proof fn law_error_codes(ty: ErrorType)
    ensures
        is_error_code(error_code(ty)),
{
}


/// Each error kind carries the OpenCL status code of the constant of its name
/// (`CL_INVALID_WORK_GROUP_SIZE` is -54, `CL_INVALID_WORK_ITEM_SIZE` is -55,
/// and so on), as the OpenCL headers number them; Nvidia's illegal buffer
/// action is -9999.
pub proof fn law_error_codes_are_opencl_codes()
    ensures
        error_code(ErrorType::DeviceNotFound) == -1i32,
        error_code(ErrorType::DeviceNotAvailable) == -2i32,
        error_code(ErrorType::CompilerNotAvailable) == -3i32,
        error_code(ErrorType::MemObjectAllocationFailure) == -4i32,
        error_code(ErrorType::OutOfResources) == -5i32,
        error_code(ErrorType::OutOfHostMemory) == -6i32,
        error_code(ErrorType::ProfilingInfoNotAvailable) == -7i32,
        error_code(ErrorType::MemCopyOverlap) == -8i32,
        error_code(ErrorType::ImageFormatMismatch) == -9i32,
        error_code(ErrorType::ImageFormatNotSupported) == -10i32,
        error_code(ErrorType::BuildProgramFailure) == -11i32,
        error_code(ErrorType::MapFailure) == -12i32,
        error_code(ErrorType::MisalignedSubBufferOffset) == -13i32,
        error_code(ErrorType::ExecStatusErrorForEventsInWaitList) == -14i32,
        error_code(ErrorType::CompileProgramFailure) == -15i32,
        error_code(ErrorType::LinkerNotAvailable) == -16i32,
        error_code(ErrorType::LinkProgramFailure) == -17i32,
        error_code(ErrorType::DevicePartitionFailed) == -18i32,
        error_code(ErrorType::KernelArgInfoNotAvailable) == -19i32,
        error_code(ErrorType::InvalidValue) == -30i32,
        error_code(ErrorType::InvalidDeviceType) == -31i32,
        error_code(ErrorType::InvalidPlatform) == -32i32,
        error_code(ErrorType::InvalidDevice) == -33i32,
        error_code(ErrorType::InvalidContext) == -34i32,
        error_code(ErrorType::InvalidQueueProperties) == -35i32,
        error_code(ErrorType::InvalidCommandQueue) == -36i32,
        error_code(ErrorType::InvalidHostPtr) == -37i32,
        error_code(ErrorType::InvalidMemObject) == -38i32,
        error_code(ErrorType::InvalidImageFormatDescriptor) == -39i32,
        error_code(ErrorType::InvalidImageSize) == -40i32,
        error_code(ErrorType::InvalidSampler) == -41i32,
        error_code(ErrorType::InvalidBinary) == -42i32,
        error_code(ErrorType::InvalidBuildOptions) == -43i32,
        error_code(ErrorType::InvalidProgram) == -44i32,
        error_code(ErrorType::InvalidProgramExecutable) == -45i32,
        error_code(ErrorType::InvalidKernelName) == -46i32,
        error_code(ErrorType::InvalidKernelDefinition) == -47i32,
        error_code(ErrorType::InvalidKernel) == -48i32,
        error_code(ErrorType::InvalidArgIndex) == -49i32,
        error_code(ErrorType::InvalidArgValue) == -50i32,
        error_code(ErrorType::InvalidArgSize) == -51i32,
        error_code(ErrorType::InvalidKernelArgs) == -52i32,
        error_code(ErrorType::InvalidWorkDimension) == -53i32,
        error_code(ErrorType::InvalidWorkGroupSize) == -54i32,
        error_code(ErrorType::InvalidWorkItemSize) == -55i32,
        error_code(ErrorType::InvalidGlobalOffset) == -56i32,
        error_code(ErrorType::InvalidEventWaitList) == -57i32,
        error_code(ErrorType::InvalidEvent) == -58i32,
        error_code(ErrorType::InvalidOperation) == -59i32,
        error_code(ErrorType::InvalidGlObject) == -60i32,
        error_code(ErrorType::InvalidBufferSize) == -61i32,
        error_code(ErrorType::InvalidMipLevel) == -62i32,
        error_code(ErrorType::InvalidGlobalWorkSize) == -63i32,
        error_code(ErrorType::InvalidProperty) == -64i32,
        error_code(ErrorType::InvalidImageDescriptor) == -65i32,
        error_code(ErrorType::InvalidCompilerOptions) == -66i32,
        error_code(ErrorType::InvalidLinkerOptions) == -67i32,
        error_code(ErrorType::InvalidDevicePartitionCount) == -68i32,
        error_code(ErrorType::InvalidPipeSize) == -69i32,
        error_code(ErrorType::InvalidDeviceQueue) == -70i32,
        error_code(ErrorType::InvalidSpecId) == -71i32,
        error_code(ErrorType::MaxSizeRestrictionExceeded) == -72i32,
        error_code(ErrorType::NvidiaIllegalBufferAction) == -9999i32,
{
}

} // verus!
