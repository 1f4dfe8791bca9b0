//! Pending buffer operations: an event together with the memory it works on.
use vstd::prelude::*;
use vstd::layout::size_of;
use crate::base::error::{Error, Result};
use crate::buffer::range::BufferRange;
use crate::event::RawEvent;

verus! {

/// A pending copy from `src` to `dst`.
pub struct CopyBuffer<Src, Dst> {
    event: RawEvent,
    src: Src,
    dst: Dst,
}

/// The byte offsets and size of a copy of `len` elements of type `T` from
/// element `offset_src` to element `offset_dst`.
pub fn copy_byte_args<T>(offset_src: usize, offset_dst: usize, len: usize) -> (r: (usize, usize, usize))
    requires
        offset_src * size_of::<T>() <= usize::MAX,
        offset_dst * size_of::<T>() <= usize::MAX,
        len * size_of::<T>() <= usize::MAX,
    ensures
        r.0 == offset_src * size_of::<T>(),
        r.1 == offset_dst * size_of::<T>(),
        r.2 == len * size_of::<T>(),
{
    let sz = ::core::mem::size_of::<T>();
    (offset_src * sz, offset_dst * sz, len * sz)
}

/// The outcome of a finished operation: the error it failed with, or `value`.
pub open spec fn finish<A>(err: Option<Error>, value: A) -> Result<A> {
    match err {
        Some(e) => Err(e),
        None => Ok(value),
    }
}

impl<Src, Dst> CopyBuffer<Src, Dst> {
    /// The copy made by `event`.
    pub fn from_parts(event: RawEvent, src: Src, dst: Dst) -> (c: Self)
        ensures
            c.event() == event,
            c.source() == src,
            c.destination() == dst,
    {
        Self { event, src, dst }
    }

    pub closed spec fn event(&self) -> RawEvent {
        self.event
    }

    pub closed spec fn source(&self) -> Src {
        self.src
    }

    pub closed spec fn destination(&self) -> Dst {
        self.dst
    }

    /// The event of the copy.
    pub fn as_raw(&self) -> (e: &RawEvent)
        ensures
            *e == self.event(),
    {
        &self.event
    }

    /// Ends the copy: the error it failed with, or both memory objects.
    pub fn consume(self, err: Option<Error>) -> (r: Result<(Src, Dst)>)
        ensures
            r == finish(err, (self.source(), self.destination())),
    {
        if let Some(err) = err {
            return Err(err);
        }
        Ok((self.src, self.dst))
    }
}

/// A pending fill of `dst`.
pub struct FillBuffer<Dst> {
    event: RawEvent,
    dst: Dst,
}

impl<Dst> FillBuffer<Dst> {
    /// The fill made by `event`.
    pub fn from_parts(event: RawEvent, dst: Dst) -> (f: Self)
        ensures
            f.event() == event,
            f.destination() == dst,
    {
        Self { event, dst }
    }

    pub closed spec fn event(&self) -> RawEvent {
        self.event
    }

    pub closed spec fn destination(&self) -> Dst {
        self.dst
    }

    /// The event of the fill.
    pub fn as_raw(&self) -> (e: &RawEvent)
        ensures
            *e == self.event(),
    {
        &self.event
    }

    /// Ends the fill: the error it failed with, or the filled memory object.
    pub fn consume(self, err: Option<Error>) -> (r: Result<Dst>)
        ensures
            r == finish(err, self.destination()),
    {
        if let Some(err) = err {
            return Err(err);
        }
        Ok(self.dst)
    }
}

/// A pending read of a buffer into a new vector.
pub struct ReadBuffer<T, Src> {
    event: RawEvent,
    dst: Vec<T>,
    src: Src,
}

/// A [`ReadBuffer`] that also returns its source on completion.
pub struct ReadBufferWithSrc<T, Src>(ReadBuffer<T, Src>);

/// The number of elements of type `T` in the byte range `range`.
pub fn element_count<T>(range: BufferRange) -> (n: usize)
    requires
        size_of::<T>() > 0,
    ensures
        n == range.cb / (size_of::<T>() as usize),
{
    range.cb / ::core::mem::size_of::<T>()
}

impl<T, Src> ReadBuffer<T, Src> {
    /// The read made by `event` into `dst`.
    pub fn from_parts(event: RawEvent, dst: Vec<T>, src: Src) -> (r: Self)
        ensures
            r.event() == event,
            r.values() == dst@,
            r.source() == src,
    {
        Self { event, dst, src }
    }

    pub closed spec fn event(&self) -> RawEvent {
        self.event
    }

    pub closed spec fn values(&self) -> Seq<T> {
        self.dst@
    }

    pub closed spec fn source(&self) -> Src {
        self.src
    }

    /// Wraps the read so that it also returns its source on completion.
    pub fn with_src(self) -> (r: ReadBufferWithSrc<T, Src>)
        ensures
            r.inner() == self,
    {
        ReadBufferWithSrc(self)
    }

    /// The event of the read.
    pub fn as_raw(&self) -> (e: &RawEvent)
        ensures
            *e == self.event(),
    {
        &self.event
    }

    /// Ends the read: the error it failed with, or the values read.
    pub fn consume(self, err: Option<Error>) -> (r: Result<Vec<T>>)
        ensures
            err matches Some(e) ==> r == Err::<Vec<T>, Error>(e),
            err is None ==> (r matches Ok(v) && v@ == self.values()),
    {
        if let Some(err) = err {
            return Err(err);
        }
        Ok(self.dst)
    }
}

impl<T, Src> ReadBufferWithSrc<T, Src> {
    pub closed spec fn inner(&self) -> ReadBuffer<T, Src> {
        self.0
    }

    /// The event of the read.
    pub fn as_raw(&self) -> (e: &RawEvent)
        ensures
            *e == self.inner().event(),
    {
        self.0.as_raw()
    }

    /// Ends the read: the error it failed with, or the values read and the source.
    pub fn consume(self, err: Option<Error>) -> (r: Result<(Vec<T>, Src)>)
        ensures
            err matches Some(e) ==> r == Err::<(Vec<T>, Src), Error>(e),
            err is None ==> (r matches Ok(p) && p.0@ == self.inner().values() && p.1
                == self.inner().source()),
    {
        if let Some(err) = err {
            return Err(err);
        }
        let ReadBuffer { event: _, dst, src } = self.0;
        Ok((dst, src))
    }
}

/// A pending read of a buffer into existing memory.
pub struct ReadBufferInto<Src, Dst> {
    event: RawEvent,
    src: Src,
    dst: Dst,
}

impl<Src, Dst> ReadBufferInto<Src, Dst> {
    /// The read made by `event` from `src` into `dst`.
    pub fn from_parts(event: RawEvent, src: Src, dst: Dst) -> (r: Self)
        ensures
            r.event() == event,
            r.source() == src,
            r.destination() == dst,
    {
        Self { event, src, dst }
    }

    pub closed spec fn event(&self) -> RawEvent {
        self.event
    }

    pub closed spec fn source(&self) -> Src {
        self.src
    }

    pub closed spec fn destination(&self) -> Dst {
        self.dst
    }

    /// The event of the read.
    pub fn as_raw(&self) -> (e: &RawEvent)
        ensures
            *e == self.event(),
    {
        &self.event
    }

    /// Ends the read: the error it failed with, or the source and the filled destination.
    pub fn consume(self, err: Option<Error>) -> (r: Result<(Src, Dst)>)
        ensures
            r == finish(err, (self.source(), self.destination())),
    {
        if let Some(err) = err {
            return Err(err);
        }
        Ok((self.src, self.dst))
    }
}

/// A pending write into a buffer.
pub struct WriteBuffer<Src, Dst> {
    event: RawEvent,
    src: Src,
    dst: Dst,
}

impl<Src, Dst> WriteBuffer<Src, Dst> {
    /// The write made by `event` from `src` into `dst`.
    pub fn from_parts(event: RawEvent, src: Src, dst: Dst) -> (w: Self)
        ensures
            w.event() == event,
            w.source() == src,
            w.destination() == dst,
    {
        Self { event, src, dst }
    }

    pub closed spec fn event(&self) -> RawEvent {
        self.event
    }

    pub closed spec fn source(&self) -> Src {
        self.src
    }

    pub closed spec fn destination(&self) -> Dst {
        self.dst
    }

    /// The event of the write.
    pub fn as_raw(&self) -> (e: &RawEvent)
        ensures
            *e == self.event(),
    {
        &self.event
    }

    /// Ends the write: the error it failed with, or nothing.
    pub fn consume(self, err: Option<Error>) -> (r: Result<()>)
        ensures
            r == finish(err, ()),
    {
        if let Some(err) = err {
            return Err(err);
        }
        Ok(())
    }
}

} // verus!
