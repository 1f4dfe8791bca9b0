//! Byte ranges inside a buffer.
use vstd::prelude::*;
use vstd::layout::size_of;
use crate::base::error::{Error, Result};
use crate::base::error_codes::ErrorType;

verus! {

/// A region of a buffer, in bytes: `cb` bytes starting at byte `offset`.
#[derive(Debug, Clone, Copy, PartialEq, Eq, Hash, Structural)]
pub struct BufferRange {
    pub offset: usize,
    pub cb: usize,
}

/// One end of a range of element indices.
#[derive(Debug, Clone, Copy, PartialEq, Eq, Hash, Structural)]
pub enum Bound {
    Included(usize),
    Excluded(usize),
    Unbounded,
}

/// Whether `r` is an error of kind `InvalidBufferSize` described by `desc`.
pub open spec fn is_size_error<A>(r: Result<A>, desc: Seq<char>) -> bool {
    r matches Err(e) && e.ty == ErrorType::InvalidBufferSize && (e.desc matches Some(d) && d@ == desc)
}

/// Whether a count of `n` elements of `sz` bytes overflows `usize`.
pub open spec fn bytes_overflow(n: int, sz: nat) -> bool {
    n * sz > usize::MAX
}

/// Whether computing the byte offset of a start bound overflows.
pub open spec fn start_overflows(start: Bound, sz: nat) -> bool {
    match start {
        Bound::Excluded(x) => x + 1 > usize::MAX || bytes_overflow(x + 1, sz),
        Bound::Included(x) => bytes_overflow(x as int, sz),
        Bound::Unbounded => false,
    }
}

/// The byte offset at which a start bound begins.
pub open spec fn start_bytes(start: Bound, sz: nat) -> int {
    match start {
        Bound::Excluded(x) => (x + 1) * sz,
        Bound::Included(x) => x * sz,
        Bound::Unbounded => 0,
    }
}

/// Whether computing the end of a range overflows while counting its size.
pub open spec fn end_size_overflows(end: Bound, sz: nat) -> bool {
    match end {
        Bound::Excluded(x) => bytes_overflow(x as int, sz),
        Bound::Included(x) => x + 1 > usize::MAX,
        Bound::Unbounded => false,
    }
}

/// Whether computing the end of an inclusive range overflows in the final
/// multiplication.
pub open spec fn end_mul_overflows(end: Bound, sz: nat) -> bool {
    match end {
        Bound::Included(x) => x + 1 <= usize::MAX && bytes_overflow(x + 1, sz),
        _ => false,
    }
}

/// The byte offset at which a range ends (exclusive); `max_size` when unbounded.
pub open spec fn end_bytes(end: Bound, sz: nat, max_size: usize) -> int {
    match end {
        Bound::Excluded(x) => x * sz,
        Bound::Included(x) => (x + 1) * sz,
        Bound::Unbounded => max_size as int,
    }
}

fn mul_or(x: usize, sz: usize, desc: &str) -> (r: Result<usize>)
    ensures
        match r {
            Ok(v) => v == x * sz && !bytes_overflow(x as int, sz as nat),
            Err(e) => bytes_overflow(x as int, sz as nat) && e.ty == ErrorType::InvalidBufferSize && (
            e.desc matches Some(d) && d@ == desc@),
        },
{
    match x.checked_mul(sz) {
        Some(v) => Ok(v),
        None => Err(Error::new(ErrorType::InvalidBufferSize, desc)),
    }
}

fn add_one_or(x: usize, desc: &str) -> (r: Result<usize>)
    ensures
        match r {
            Ok(v) => v == x + 1,
            Err(e) => x + 1 > usize::MAX && e.ty == ErrorType::InvalidBufferSize && (
            e.desc matches Some(d) && d@ == desc@),
        },
{
    match x.checked_add(1) {
        Some(v) => Ok(v),
        None => Err(Error::new(ErrorType::InvalidBufferSize, desc)),
    }
}

impl BufferRange {
    pub fn new(offset: usize, cb: usize) -> (r: Self)
        ensures
            r.offset == offset,
            r.cb == cb,
    {
        Self { offset, cb }
    }

    /// The byte range of `size` elements of type `T` starting at element `offset`.
    pub fn from_parts<T>(offset: usize, size: usize) -> (r: Result<Self>)
        ensures
            bytes_overflow(offset as int, size_of::<T>()) ==> is_size_error(
                r,
                "overflow calculating range offset"@,
            ),
            !bytes_overflow(offset as int, size_of::<T>()) && bytes_overflow(
                size as int,
                size_of::<T>(),
            ) ==> is_size_error(r, "overflow calculating range size"@),
            !bytes_overflow(offset as int, size_of::<T>()) && !bytes_overflow(
                size as int,
                size_of::<T>(),
            ) ==> r == Ok::<BufferRange, Error>(
                BufferRange {
                    offset: (offset * size_of::<T>()) as usize,
                    cb: (size * size_of::<T>()) as usize,
                },
            ),
    {
        let sz = ::core::mem::size_of::<T>();
        let offset = match mul_or(offset, sz, "overflow calculating range offset") {
            Ok(x) => x,
            Err(e) => return Err(e),
        };
        let size = match mul_or(size, sz, "overflow calculating range size") {
            Ok(x) => x,
            Err(e) => return Err(e),
        };
        Ok(Self::new(offset, size))
    }

    /// The byte range of the bytes `start..end`; an unbounded end stands for `max_size`.
    pub fn from_byte_range(start: Bound, end: Bound, max_size: usize) -> (r: Result<Self>)
        requires
            Self::range_fits(start, end, 1) ==> start_bytes(start, 1) <= end_bytes(end, 1, max_size),
        ensures
            Self::range_outcome(r, start, end, 1, max_size),
    {
        proof {
            broadcast use vstd::layout::layout_of_primitives;
        }
        Self::from_range::<u8>(start, end, max_size)
    }

    /// Whether none of the computations of [`BufferRange::from_range`] overflows.
    pub open spec fn range_fits(start: Bound, end: Bound, sz: nat) -> bool {
        !start_overflows(start, sz) && !end_size_overflows(end, sz) && !end_mul_overflows(end, sz)
    }

    /// What [`BufferRange::from_range`] gives when nothing overflows.
    pub open spec fn range_value(start: Bound, end: Bound, sz: nat, max_size: usize) -> BufferRange {
        BufferRange {
            offset: start_bytes(start, sz) as usize,
            cb: (end_bytes(end, sz, max_size) - start_bytes(start, sz)) as usize,
        }
    }

    /// The outcome of [`BufferRange::from_range`] for elements of `sz` bytes.
    pub open spec fn range_outcome(r: Result<Self>, start: Bound, end: Bound, sz: nat, max_size: usize) -> bool {
        &&& start_overflows(start, sz) ==> is_size_error(r, "overflow calculating range offset"@)
        &&& !start_overflows(start, sz) && end_size_overflows(end, sz) ==> is_size_error(
            r,
            "overflow calculating range size"@,
        )
        &&& !start_overflows(start, sz) && !end_size_overflows(end, sz) && end_mul_overflows(end, sz)
            ==> is_size_error(r, "overflow calculating range offset"@)
        &&& Self::range_fits(start, end, sz) ==> r == Ok::<BufferRange, Error>(
            Self::range_value(start, end, sz, max_size),
        )
    }

    /// The byte range of the elements of type `T` with indices from `start` to `end`;
    /// an unbounded end stands for the byte `max_size`.
    pub fn from_range<T>(start: Bound, end: Bound, max_size: usize) -> (r: Result<Self>)
        requires
            Self::range_fits(start, end, size_of::<T>()) ==> start_bytes(start, size_of::<T>())
                <= end_bytes(end, size_of::<T>(), max_size),
        ensures
            Self::range_outcome(r, start, end, size_of::<T>(), max_size),
    {
        let sz = ::core::mem::size_of::<T>();
        let offset = match start {
            Bound::Excluded(x) => {
                let x1 = match add_one_or(x, "overflow calculating range offset") {
                    Ok(v) => v,
                    Err(e) => return Err(e),
                };
                match mul_or(x1, sz, "overflow calculating range offset") {
                    Ok(v) => v,
                    Err(e) => return Err(e),
                }
            },
            Bound::Included(x) => match mul_or(x, sz, "overflow calculating range offset") {
                Ok(v) => v,
                Err(e) => return Err(e),
            },
            Bound::Unbounded => 0,
        };
        let end_bytes = match end {
            Bound::Excluded(x) => match mul_or(x, sz, "overflow calculating range size") {
                Ok(v) => v,
                Err(e) => return Err(e),
            },
            Bound::Included(x) => {
                let x1 = match add_one_or(x, "overflow calculating range size") {
                    Ok(v) => v,
                    Err(e) => return Err(e),
                };
                match mul_or(x1, sz, "overflow calculating range offset") {
                    Ok(v) => v,
                    Err(e) => return Err(e),
                }
            },
            Bound::Unbounded => max_size,
        };
        Ok(Self::new(offset, end_bytes - offset))
    }
}

/// The start and the length of the bytes `start..end` of a buffer of `size`
/// bytes, where an unbounded end stands for the end of the buffer.
pub fn offset_cb_plain(start: Bound, end: Bound, size: usize) -> (r: (usize, usize))
    requires
        start matches Bound::Excluded(x) ==> x < usize::MAX,
        end matches Bound::Included(x) ==> x < usize::MAX,
        start_bytes(start, 1) <= end_bytes(end, 1, size),
    ensures
        r.0 == start_bytes(start, 1),
        r.1 == end_bytes(end, 1, size) - start_bytes(start, 1),
{
    let offset = match start {
        Bound::Excluded(x) => x + 1,
        Bound::Included(x) => x,
        Bound::Unbounded => 0,
    };
    let end = match end {
        Bound::Excluded(x) => x,
        Bound::Included(x) => x + 1,
        Bound::Unbounded => size,
    };
    (offset, end - offset)
}

/// Whether the range of elements of type `T` with indices from `start` to
/// `end` (an unbounded end standing for the byte `max_size`) starts no later
/// than it ends, whenever [`BufferRange::from_range`] gets as far as comparing
/// them; a range whose bounds overflow is left to `from_range` to refuse.
pub fn range_ordered<T>(start: Bound, end: Bound, max_size: usize) -> (b: bool)
    ensures
        b == (BufferRange::range_fits(start, end, size_of::<T>()) ==> start_bytes(start, size_of::<T>())
            <= end_bytes(end, size_of::<T>(), max_size)),
{
    let sz = ::core::mem::size_of::<T>();
    let first: Option<usize> = match start {
        Bound::Excluded(x) => match x.checked_add(1) {
            Some(x1) => x1.checked_mul(sz),
            None => None,
        },
        Bound::Included(x) => x.checked_mul(sz),
        Bound::Unbounded => Some(0),
    };
    let last: Option<usize> = match end {
        Bound::Excluded(x) => x.checked_mul(sz),
        Bound::Included(x) => match x.checked_add(1) {
            Some(x1) => x1.checked_mul(sz),
            None => None,
        },
        Bound::Unbounded => Some(max_size),
    };
    match (first, last) {
        (Some(a), Some(b)) => a <= b,
        _ => true,
    }
}

} // verus!
