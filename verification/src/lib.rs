//! The verified core of an OpenCL wrapper: the encodings of the values that
//! cross the boundary with the OpenCL runtime (property lists, flags,
//! versions, error codes, device capabilities), the byte arithmetic of buffer
//! operations, host-side rectangles, the ordering of reads and writes on a
//! memory object, and the way contexts hand out their command queues.
pub mod cl;
pub mod base;
pub mod buffer;
pub mod event;
pub mod context;
