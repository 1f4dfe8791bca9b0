//! Rectangular buffers: pitches, sizes and the parameters of rectangular copies.
use vstd::prelude::*;
use vstd::layout::size_of;
use crate::base::error::{Error, Result};
use crate::base::error_codes::ErrorType;
use crate::event::RawEvent;

pub mod host;

verus! {

/// Bytes in a row of `width` elements of type `T`.
pub fn row_pitch<T>(width: usize) -> (p: usize)
    requires
        width * size_of::<T>() <= usize::MAX,
    ensures
        p == width * size_of::<T>(),
{
    width * ::core::mem::size_of::<T>()
}

/// Bytes in a slice of `height` rows of `width` elements of type `T`.
pub fn slice_pitch<T>(width: usize, height: usize) -> (p: usize)
    requires
        width * size_of::<T>() <= usize::MAX,
        height * (width * size_of::<T>()) <= usize::MAX,
    ensures
        p == height * (width * size_of::<T>()),
{
    height * row_pitch::<T>(width)
}

/// The row pitch and the slice pitch of a `width` by `height` rectangle of `T`.
pub fn row_and_slice_pitch<T>(width: usize, height: usize) -> (p: (usize, usize))
    requires
        width * size_of::<T>() <= usize::MAX,
        height * (width * size_of::<T>()) <= usize::MAX,
    ensures
        p.0 == width * size_of::<T>(),
        p.1 == height * (width * size_of::<T>()),
{
    let row = row_pitch::<T>(width);
    (row, height * row)
}

/// The number of elements of a `width` by `height` rectangular buffer; an
/// `InvalidBufferSize` error when it is zero or overflows.
pub fn rect_len(width: usize, height: usize) -> (r: Result<usize>)
    ensures
        width * height == 0 || width * height > usize::MAX ==> (r matches Err(e) && e.ty
            == ErrorType::InvalidBufferSize && (e.desc matches Some(d) && d@
            == "overflow multiplying 'rows' and 'cols'"@)),
        0 < width * height <= usize::MAX ==> r == Ok::<usize, Error>((width * height) as usize),
{
    match width.checked_mul(height) {
        Some(0) => Err(Error::new(ErrorType::InvalidBufferSize, "overflow multiplying 'rows' and 'cols'")),
        None => Err(Error::new(ErrorType::InvalidBufferSize, "overflow multiplying 'rows' and 'cols'")),
        Some(len) => Ok(len),
    }
}

/// The byte-level parameters of a rectangular copy between a buffer and host memory.
#[derive(Debug, Clone, Copy, PartialEq, Eq)]
pub struct RectCopyParams {
    pub buffer_origin: [usize; 3],
    pub host_origin: [usize; 3],
    pub region: [usize; 3],
    pub host_row_pitch: usize,
}

/// The parameters of a copy of a `region` (columns, rows) of elements of type
/// `T`, from element offset `offset_src` of the buffer to element offset
/// `offset_dst` of a host rectangle `host_width` elements wide.
pub fn rect_copy_params<T>(
    host_width: usize,
    offset_src: [usize; 2],
    offset_dst: [usize; 2],
    region: [usize; 2],
) -> (p: RectCopyParams)
    requires
        host_width * size_of::<T>() <= usize::MAX,
        offset_src[0] * size_of::<T>() <= usize::MAX,
        offset_dst[0] * size_of::<T>() <= usize::MAX,
        region[0] * size_of::<T>() <= usize::MAX,
    ensures
        p.host_row_pitch == host_width * size_of::<T>(),
        p.buffer_origin@ == seq![(offset_src[0] * size_of::<T>()) as usize, offset_src[1], 0usize],
        p.host_origin@ == seq![(offset_dst[0] * size_of::<T>()) as usize, offset_dst[1], 0usize],
        p.region@ == seq![(region[0] * size_of::<T>()) as usize, region[1], 1usize],
{
    let sz = ::core::mem::size_of::<T>();
    let p = RectCopyParams {
        buffer_origin: [offset_src[0] * sz, offset_src[1], 0],
        host_origin: [offset_dst[0] * sz, offset_dst[1], 0],
        region: [region[0] * sz, region[1], 1],
        host_row_pitch: host_width * sz,
    };
    assert(p.buffer_origin@ =~= seq![(offset_src[0] * size_of::<T>()) as usize, offset_src[1], 0usize]);
    assert(p.host_origin@ =~= seq![(offset_dst[0] * size_of::<T>()) as usize, offset_dst[1], 0usize]);
    assert(p.region@ =~= seq![(region[0] * size_of::<T>()) as usize, region[1], 1usize]);
    p
}

/// A pending read of a rectangular buffer region into a host rectangle.
pub struct ReadIntoBufferRect2D<Src, Dst> {
    event: RawEvent,
    dst: Dst,
    src: Src,
}

impl<Src, Dst> ReadIntoBufferRect2D<Src, Dst> {
    /// The read made by `event`.
    pub fn from_parts(event: RawEvent, src: Src, dst: Dst) -> (r: Self)
        ensures
            r.event() == event,
            r.source() == src,
            r.destination() == dst,
    {
        Self { event, dst, src }
    }

    pub closed spec fn event(&self) -> RawEvent {
        self.event
    }

    pub closed spec fn source(&self) -> Src {
        self.src
    }

    pub closed spec fn destination(&self) -> Dst {
        self.dst
    }

    /// The event of the read.
    pub fn as_raw(&self) -> (e: &RawEvent)
        ensures
            *e == self.event(),
    {
        &self.event
    }

    /// Ends the read: the error it failed with, or the source and the destination.
    pub fn consume(self, err: Option<Error>) -> (r: Result<(Src, Dst)>)
        ensures
            r == crate::buffer::events::finish(err, (self.source(), self.destination())),
    {
        if let Some(err) = err {
            return Err(err);
        }
        Ok((self.src, self.dst))
    }
}

/// A pending write of a host rectangle into a rectangular buffer region.
pub struct WriteBufferRect2D<Dst, Src> {
    event: RawEvent,
    src: Src,
    dst: Dst,
}

impl<Dst, Src> WriteBufferRect2D<Dst, Src> {
    /// The write made by `event`.
    pub fn from_parts(event: RawEvent, src: Src, dst: Dst) -> (w: Self)
        ensures
            w.event() == event,
            w.source() == src,
            w.destination() == dst,
    {
        Self { event, src, dst }
    }

    pub closed spec fn event(&self) -> RawEvent {
        self.event
    }

    pub closed spec fn source(&self) -> Src {
        self.src
    }

    pub closed spec fn destination(&self) -> Dst {
        self.dst
    }

    /// The event of the write.
    pub fn as_raw(&self) -> (e: &RawEvent)
        ensures
            *e == self.event(),
    {
        &self.event
    }

    /// Ends the write: the error it failed with, or the source and the destination.
    pub fn consume(self, err: Option<Error>) -> (r: Result<(Src, Dst)>)
        ensures
            r == crate::buffer::events::finish(err, (self.source(), self.destination())),
    {
        if let Some(err) = err {
            return Err(err);
        }
        Ok((self.src, self.dst))
    }
}

} // verus!
