//! The library's error value and helpers over OpenCL error codes.
use vstd::prelude::*;
use crate::base::error_codes::{ErrorType, error_code, is_error_code};

verus! {

/// Result type used throughout the library.
pub type Result<T> = ::core::result::Result<T, Error>;

/// An error: its kind and an optional description.
#[derive(Debug, Clone, PartialEq, Eq)]
pub struct Error {
    pub ty: ErrorType,
    pub desc: Option<String>,
}

impl Error {
    /// An error of kind `ty` described by `desc`.
    pub fn new(ty: ErrorType, desc: &str) -> (e: Self)
        ensures
            e.ty == ty,
            e.desc matches Some(d) && d@ == desc@,
    {
        Self { ty, desc: Some(desc.to_owned()) }
    }

    /// An error of kind `ty` without a description.
    pub fn from_type(ty: ErrorType) -> (e: Self)
        ensures
            e.ty == ty,
            e.desc is None,
    {
        Self { ty, desc: None }
    }

    /// The error for an OpenCL error code.
    pub fn from_code(code: i32) -> (e: Self)
        requires
            is_error_code(code),
        ensures
            error_code(e.ty) == code,
            e.desc is None,
    {
        match ErrorType::from_code(code) {
            Some(ty) => Self::from_type(ty),
            None => Self::from_type(ErrorType::NvidiaIllegalBufferAction),
        }
    }
}

/// The outcome of an OpenCL call that returned the status `code`: success
/// for `CL_SUCCESS` (zero), the error of that code otherwise.
pub fn check_status(code: i32) -> (r: Result<()>)
    requires
        code == 0 || is_error_code(code),
    ensures
        code == 0 <==> r is Ok,
        r matches Err(e) ==> error_code(e.ty) == code && e.desc is None,
{
    if code == 0 {
        Ok(())
    } else {
        Err(Error::from_code(code))
    }
}

impl From<ErrorType> for Error {
    fn from(ty: ErrorType) -> (e: Self) {
        Self::from_type(ty)
    }
}

impl vstd::std_specs::convert::FromSpecImpl<ErrorType> for Error {
    open spec fn obeys_from_spec() -> bool {
        true
    }

    open spec fn from_spec(v: ErrorType) -> Self {
        Error { ty: v, desc: None }
    }
}

/// The least element of `s`, or `i32::MAX` when `s` is empty.
pub open spec fn seq_min(s: Seq<i32>) -> int
    decreases s.len(),
{
    if s.len() == 0 {
        i32::MAX as int
    } else {
        let rest = seq_min(s.drop_last());
        if (s.last() as int) < rest { s.last() as int } else { rest }
    }
}

/// The greatest element of `s`, or `i32::MIN` when `s` is empty.
pub open spec fn seq_max(s: Seq<i32>) -> int
    decreases s.len(),
{
    if s.len() == 0 {
        i32::MIN as int
    } else {
        let rest = seq_max(s.drop_last());
        if (s.last() as int) > rest { s.last() as int } else { rest }
    }
}

/// The smallest value of `iter`, `i32::MAX` for an empty array.
pub fn min_value<const N: usize>(iter: [i32; N]) -> (min: i32)
    ensures
        min == seq_min(iter@),
{
    let mut min = i32::MAX;
    let mut i: usize = 0;
    while i < N
        invariant
            i <= N,
            iter@.len() == N,
            min == seq_min(iter@.take(i as int)),
        decreases N - i,
    {
        assert(iter@.take(i + 1).drop_last() =~= iter@.take(i as int));
        if iter[i] < min {
            min = iter[i];
        }
        i += 1;
    }
    assert(iter@.take(N as int) =~= iter@);
    min
}

/// The greatest value of `iter`, `i32::MIN` for an empty array.
pub fn max_value<const N: usize>(iter: [i32; N]) -> (max: i32)
    ensures
        max == seq_max(iter@),
{
    let mut max = i32::MIN;
    let mut i: usize = 0;
    while i < N
        invariant
            i <= N,
            iter@.len() == N,
            max == seq_max(iter@.take(i as int)),
        decreases N - i,
    {
        assert(iter@.take(i + 1).drop_last() =~= iter@.take(i as int));
        if iter[i] > max {
            max = iter[i];
        }
        i += 1;
    }
    assert(iter@.take(N as int) =~= iter@);
    max
}

} // verus!
