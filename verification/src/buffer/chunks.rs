//! Chunks of a buffer: the ranges of consecutive, equally long slices.
use vstd::prelude::*;
use vstd::layout::size_of;
use crate::base::error::Result;
use crate::buffer::range::{BufferRange, bytes_overflow, is_size_error};

verus! {

/// The range of the chunk of `len` elements that starts at element `offset`
/// of a buffer of `buf_len` elements of type `T`, and the offset of the chunk
/// after it; `None` when the chunk does not fit in the buffer.
pub fn next_chunk<T>(offset: usize, len: usize, buf_len: usize) -> (r: Option<Result<(BufferRange, usize)>>)
    requires
        offset + len <= usize::MAX,
    ensures
        offset + len > buf_len ==> r is None,
        offset + len <= buf_len ==> match r {
            None => false,
            Some(res) => {
                &&& bytes_overflow(offset as int, size_of::<T>()) ==> is_size_error(res, "overflow calculating range offset"@)
                &&& !bytes_overflow(offset as int, size_of::<T>()) && bytes_overflow(len as int, size_of::<T>())
                    ==> is_size_error(res, "overflow calculating range size"@)
                &&& !bytes_overflow(offset as int, size_of::<T>()) && !bytes_overflow(len as int, size_of::<T>())
                    ==> (res matches Ok(p) && p.0.offset == offset * size_of::<T>() && p.0.cb == len * size_of::<T>()
                    && p.1 == offset + len)
            },
        },
{
    let next_offset = offset + len;
    if next_offset > buf_len {
        return None;
    }
    match BufferRange::from_parts::<T>(offset, len) {
        Ok(range) => Some(Ok((range, next_offset))),
        Err(e) => Some(Err(e)),
    }
}

/// The range of the chunk `n` chunks after the one at element `offset`, and
/// the offset of the chunk after it; `None` when it does not fit in the buffer.
pub fn nth_chunk<T>(offset: usize, len: usize, n: usize, buf_len: usize) -> (r: Option<Result<(BufferRange, usize)>>)
    requires
        offset + (n + 1) * len <= usize::MAX,
    ensures
        offset + (n + 1) * len > buf_len ==> r is None,
        offset + (n + 1) * len <= buf_len ==> match r {
            None => false,
            Some(res) => {
                let start = offset + n * len;
                &&& bytes_overflow(start, size_of::<T>()) ==> is_size_error(res, "overflow calculating range offset"@)
                &&& !bytes_overflow(start, size_of::<T>()) && bytes_overflow(len as int, size_of::<T>())
                    ==> is_size_error(res, "overflow calculating range size"@)
                &&& !bytes_overflow(start, size_of::<T>()) && !bytes_overflow(len as int, size_of::<T>())
                    ==> (res matches Ok(p) && p.0.offset == start * size_of::<T>() && p.0.cb == len * size_of::<T>()
                    && p.1 == offset + (n + 1) * len)
            },
        },
{
    proof {
        assert(n * len <= (n + 1) * len) by (nonlinear_arith);
        assert((n + 1) * len == n * len + len) by (nonlinear_arith);
    }
    let start = offset + n * len;
    let next_offset = start + len;
    if next_offset > buf_len {
        return None;
    }
    match BufferRange::from_parts::<T>(start, len) {
        Ok(range) => Some(Ok((range, next_offset))),
        Err(e) => Some(Err(e)),
    }
}

/// The range of the elements after the last whole chunk, or `None` when the
/// chunks fill the rest of the buffer exactly.
pub fn remainder_range<T>(offset: usize, len: usize, buf_len: usize) -> (r: Result<Option<BufferRange>>)
    requires
        len > 0,
        offset <= buf_len,
    ensures
        ({
            let rem = (buf_len - offset) % (len as int);
            let start = buf_len - rem;
            if rem == 0 {
                r matches Ok(x) && x is None
            } else if bytes_overflow(start, size_of::<T>()) {
                r matches Err(e) && is_size_error(Err::<(), _>(e), "overflow calculating range offset"@)
            } else if bytes_overflow(rem, size_of::<T>()) {
                r matches Err(e) && is_size_error(Err::<(), _>(e), "overflow calculating range size"@)
            } else {
                r matches Ok(x) && x matches Some(b) && b.offset == start * size_of::<T>() && b.cb == rem
                    * size_of::<T>()
            }
        }),
{
    let rem_len = (buf_len - offset) % len;
    proof {
        let rest: int = buf_len - offset;
        assert(rest % (len as int) <= rest) by (nonlinear_arith)
            requires
                len > 0,
                rest >= 0,
        ;
    }
    if rem_len == 0 {
        return Ok(None);
    }
    match BufferRange::from_parts::<T>(buf_len - rem_len, rem_len) {
        Ok(range) => Ok(Some(range)),
        Err(e) => Err(e),
    }
}

/// The number of whole chunks left.
pub fn chunks_left(offset: usize, len: usize, buf_len: usize) -> (n: usize)
    requires
        len > 0,
        offset <= buf_len,
    ensures
        n == (buf_len - offset) / (len as int),
{
    (buf_len - offset) / len
}

/// The whole chunks that are left and the remainder after them cover the
/// rest of the buffer exactly: the remainder starts where the last whole chunk
/// ends, and is shorter than a chunk.
pub proof fn law_chunks_cover(offset: usize, len: usize, buf_len: usize)
    requires
        len > 0,
        offset <= buf_len,
    ensures
        ({
            let rest = buf_len - offset;
            let whole = rest / (len as int);
            let rem = rest % (len as int);
            &&& offset + whole * len + rem == buf_len
            &&& 0 <= rem < len
            &&& buf_len - rem == offset + whole * len
        }),
{
    let rest: int = buf_len - offset;
    assert(rest == (rest / (len as int)) * len + rest % (len as int) && 0 <= rest % (len as int) < len)
        by (nonlinear_arith)
        requires
            len > 0,
            rest >= 0,
    ;
}

} // verus!
