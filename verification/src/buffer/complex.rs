//! The arithmetic of buffer operations: element offsets and sizes in bytes.
use vstd::prelude::*;
use vstd::layout::size_of;
use crate::base::error::{Error, Result};
use crate::base::error_codes::ErrorType;
use crate::buffer::range::BufferRange;

verus! {

/// Whether `r` is an `InvalidValue` error without a description.
pub open spec fn is_invalid_value<A>(r: Result<A>) -> bool {
    r matches Err(e) && e.ty == ErrorType::InvalidValue && e.desc is None
}

fn bytes_or_invalid<T>(n: usize) -> (r: Result<usize>)
    ensures
        n * size_of::<T>() <= usize::MAX ==> r == Ok::<usize, Error>((n * size_of::<T>()) as usize),
        n * size_of::<T>() > usize::MAX ==> is_invalid_value(r),
{
    match n.checked_mul(::core::mem::size_of::<T>()) {
        Some(x) => Ok(x),
        None => Err(Error::from_type(ErrorType::InvalidValue)),
    }
}

/// The byte offsets `(source, destination)` and the byte size of a copy of
/// elements of type `T` between buffers, as `Buffer::copy_to` computes them:
/// missing offsets are zero, and a missing size runs to the end of the
/// source, which is `src_size` bytes long.
pub fn copy_to_args<T>(
    src_offset: Option<usize>,
    dst_offset: Option<usize>,
    size: Option<usize>,
    src_size: usize,
) -> (r: Result<(usize, usize, usize)>)
    requires
        size is None && src_offset.unwrap_or(0) * size_of::<T>() <= usize::MAX ==> src_size
            >= src_offset.unwrap_or(0) * size_of::<T>(),
    ensures
        ({
            let so = src_offset.unwrap_or(0) * size_of::<T>();
            let dof = dst_offset.unwrap_or(0) * size_of::<T>();
            if so > usize::MAX || dof > usize::MAX {
                is_invalid_value(r)
            } else {
                match size {
                    Some(n) => if n * size_of::<T>() > usize::MAX {
                        is_invalid_value(r)
                    } else {
                        r == Ok::<(usize, usize, usize), Error>(
                            (so as usize, dof as usize, (n * size_of::<T>()) as usize),
                        )
                    },
                    None => r == Ok::<(usize, usize, usize), Error>(
                        (so as usize, dof as usize, (src_size - so) as usize),
                    ),
                }
            }
        }),
{
    let so = match bytes_or_invalid::<T>(src_offset.unwrap_or(0)) {
        Ok(x) => x,
        Err(e) => return Err(e),
    };
    let dof = match bytes_or_invalid::<T>(dst_offset.unwrap_or(0)) {
        Ok(x) => x,
        Err(e) => return Err(e),
    };
    let n = match size {
        Some(x) => match bytes_or_invalid::<T>(x) {
            Ok(v) => v,
            Err(e) => return Err(e),
        },
        None => src_size - so,
    };
    Ok((so, dof, n))
}

/// The byte range of the element at index `idx` of a buffer of `T`.
pub fn element_range<T>(idx: usize) -> (r: BufferRange)
    requires
        (idx + 1) * size_of::<T>() <= usize::MAX,
    ensures
        r.offset == idx * size_of::<T>(),
        r.cb == size_of::<T>(),
{
    proof {
        assert(idx * size_of::<T>() <= (idx + 1) * size_of::<T>()) by (nonlinear_arith);
        assert(size_of::<T>() <= (idx + 1) * size_of::<T>()) by (nonlinear_arith);
    }
    let sz = ::core::mem::size_of::<T>();
    BufferRange::new(idx * sz, sz)
}

/// The number of elements of type `T` in `size` bytes.
pub fn len_in_elements<T>(size: usize) -> (n: usize)
    requires
        size_of::<T>() > 0,
    ensures
        n == size / (size_of::<T>() as usize),
{
    size / ::core::mem::size_of::<T>()
}

} // verus!
