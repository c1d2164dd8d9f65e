//! Views over the contents of a mapped buffer.
//!
//! A view is handed out when a buffer is mapped and is given back to release
//! the mapping. It is no copy of the contents: it says which buffer is
//! mapped and how many elements can be seen.

use crate::buffer::{Buffer, Mapping};
use crate::command::Command;
use gl::types::GLuint;
use vstd::prelude::*;

verus! {

/// What a view stands for: the identity of the mapped buffer and the number
/// of elements that can be seen through the view.
pub struct MapState {
    pub id: GLuint,
    pub len: usize,
}

/// A view through which the elements of a buffer are read.
#[derive(Debug, PartialEq, Eq)]
pub struct ReadBufferMap {
    id: GLuint,
    len: usize,
}

/// A view through which the elements of a buffer are read and written.
#[derive(Debug, PartialEq, Eq)]
pub struct WriteBufferMap {
    id: GLuint,
    len: usize,
}

impl View for ReadBufferMap {
    type V = MapState;

    closed spec fn view(&self) -> MapState {
        MapState { id: self.id, len: self.len }
    }
}

impl View for WriteBufferMap {
    type V = MapState;

    closed spec fn view(&self) -> MapState {
        MapState { id: self.id, len: self.len }
    }
}

impl ReadBufferMap {
    /// The view that a buffer hands out when it is mapped for reading.
    pub(crate) fn over(id: GLuint, len: usize) -> (r: ReadBufferMap)
        ensures
            r@ == (MapState { id, len }),
    {
        ReadBufferMap { id, len }
    }

    /// The identity of the mapped buffer.
    pub fn id(&self) -> (r: GLuint)
        ensures
            r == self@.id,
    {
        self.id
    }

    /// The number of elements that can be seen.
    pub fn len(&self) -> (r: usize)
        ensures
            r == self@.len,
    {
        self.len
    }

    /// Ends the mapping that handed out this view.
    ///
    /// Where `buff` is the buffer that handed it out and the mapping is still
    /// live, the buffer is unmapped and `true` is returned. Anywhere else
    /// nothing happens and `false` is returned.
    pub fn release(self, buff: &mut Buffer, calls: &mut Vec<Command>) -> (released: bool)
        requires
            old(buff).wf(),
        ensures
            final(buff).wf(),
            released == old(buff)@.holds(Mapping::Read { len: self@.len }, self@.id),
            released ==> final(buff)@ == old(buff)@.mapped(Mapping::Unmapped),
            released ==> final(calls)@ == old(calls)@ + old(buff)@.unmap_calls(),
            !released ==> final(buff)@ == old(buff)@,
            !released ==> final(calls)@ == old(calls)@,
    {
        buff.unmap(Mapping::Read { len: self.len }, self.id, calls)
    }
}

impl WriteBufferMap {
    /// The view that a buffer hands out when it is mapped for writing.
    pub(crate) fn over(id: GLuint, len: usize) -> (r: WriteBufferMap)
        ensures
            r@ == (MapState { id, len }),
    {
        WriteBufferMap { id, len }
    }

    /// The identity of the mapped buffer.
    pub fn id(&self) -> (r: GLuint)
        ensures
            r == self@.id,
    {
        self.id
    }

    /// The number of elements that can be seen.
    pub fn len(&self) -> (r: usize)
        ensures
            r == self@.len,
    {
        self.len
    }

    /// Ends the mapping that handed out this view.
    ///
    /// Where `buff` is the buffer that handed it out and the mapping is still
    /// live, the buffer is unmapped, its element count becomes the length of
    /// the view, and `true` is returned. Anywhere else nothing happens and
    /// `false` is returned.
    pub fn release(self, buff: &mut Buffer, calls: &mut Vec<Command>) -> (released: bool)
        requires
            old(buff).wf(),
        ensures
            final(buff).wf(),
            released == old(buff)@.holds(Mapping::Write { len: self@.len }, self@.id),
            released ==> final(buff)@ == old(buff)@.mapped(Mapping::Unmapped).resized(self@.len),
            released ==> final(calls)@ == old(calls)@ + old(buff)@.unmap_calls(),
            !released ==> final(buff)@ == old(buff)@,
            !released ==> final(calls)@ == old(calls)@,
    {
        buff.unmap(Mapping::Write { len: self.len }, self.id, calls)
    }
}

} // verus!
