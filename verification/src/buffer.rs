//! Buffers: blocks of memory that the rendering backend holds.

use crate::bufferdata::ElementType;
use crate::buffermap::{MapState, ReadBufferMap, WriteBufferMap};
use crate::buffertype::{BufferAcces, BufferType};
use crate::command::{bound_buffer, keeps_bindings, lemma_bound_buffer_stays, Command};
use crate::error::Error;
use crate::glenum::{gl_out_of_memory, gl_read_only, gl_read_write};
use crate::primitive::Primitive;
use gl::types::{GLenum, GLuint};
use vstd::prelude::*;

verus! {

/// Whether a buffer is mapped into memory, and if so, for what and with how
/// many elements in view.
#[derive(Clone, Copy, PartialEq, Eq, Structural, Debug)]
pub enum Mapping {
    Unmapped,
    Read { len: usize },
    Write { len: usize },
}

/// What is known of a buffer.
pub struct BufferState {
    /// The identity that the backend gave the buffer.
    pub id: GLuint,
    /// The target that the buffer is bound to.
    pub kind: BufferType,
    /// The usage policy that the buffer was created with.
    pub acces: BufferAcces,
    /// The number of bytes of one element.
    pub element_size: GLuint,
    /// The attributes of one element.
    pub prototype: Seq<(Primitive, GLuint)>,
    /// The recorded number of elements.
    pub len: usize,
    /// The number of elements that were allocated.
    pub capacity: usize,
    /// The live mapping.
    pub mapping: Mapping,
}

impl BufferState {
    /// The recorded number of elements and the view of a live mapping lie
    /// within what was allocated, and every byte of it can be addressed.
    pub open spec fn wf(self) -> bool {
        &&& self.id != 0
        &&& self.len <= self.capacity
        &&& self.capacity * self.element_size <= isize::MAX
        &&& match self.mapping {
            Mapping::Unmapped => true,
            Mapping::Read { len } => len <= self.capacity,
            Mapping::Write { len } => len <= self.capacity,
        }
    }

    /// Whether `len` elements of `element_size` bytes cannot be had under
    /// the identity `id`: `0` is the identity of no buffer, and no more
    /// bytes can be asked for than `isize::MAX`.
    pub open spec fn cannot_allocate(id: GLuint, element_size: GLuint, len: usize) -> bool {
        id == 0 || len * element_size > isize::MAX
    }

    /// Whether `status`, an error that the backend reports, says that the
    /// backend has run out of memory.
    pub open spec fn is_refusal(status: GLenum) -> bool {
        status == 0x0505
    }

    /// A buffer that has just been created with `len` elements.
    pub open spec fn created(
        id: GLuint,
        kind: BufferType,
        acces: BufferAcces,
        element: ElementType,
        len: usize,
    ) -> BufferState {
        BufferState {
            id,
            kind,
            acces,
            element_size: element.size,
            prototype: element.prototype@,
            len,
            capacity: len,
            mapping: Mapping::Unmapped,
        }
    }

    /// The call that makes this buffer the current one of its target.
    pub open spec fn bind_call(self) -> Command {
        Command::BindBuffer { target: self.kind.spec_value(), id: self.id }
    }

    /// The calls that allocate the buffer and fill it.
    pub open spec fn upload_calls(self) -> Seq<Command> {
        seq![
            self.bind_call(),
            Command::BufferData {
                target: self.kind.spec_value(),
                size: (self.capacity * self.element_size) as usize,
                usage: self.acces.spec_value(),
            },
        ]
    }

    /// Whether `len` elements from element `offset` on reach past what was
    /// allocated.
    pub open spec fn out_of_range(self, len: usize, offset: GLuint) -> bool {
        offset + len > self.capacity
    }

    /// The calls that overwrite `len` elements from element `offset` on.
    pub open spec fn update_calls(self, len: usize, offset: GLuint) -> Seq<Command> {
        seq![
            self.bind_call(),
            Command::BufferSubData {
                target: self.kind.spec_value(),
                offset: (offset * self.element_size) as usize,
                size: (len * self.element_size) as usize,
            },
        ]
    }

    /// This buffer with `len` as the recorded number of elements.
    pub open spec fn resized(self, len: usize) -> BufferState {
        BufferState { len, ..self }
    }

    pub open spec fn is_mapped(self) -> bool {
        self.mapping != Mapping::Unmapped
    }

    /// This buffer with `mapping` as its mapping.
    pub open spec fn mapped(self, mapping: Mapping) -> BufferState {
        BufferState { mapping, ..self }
    }

    /// The calls that map the buffer with the given access.
    pub open spec fn map_calls(self, access: GLenum) -> Seq<Command> {
        seq![self.bind_call(), Command::MapBuffer { target: self.kind.spec_value(), access }]
    }

    /// The calls that release the mapping of the buffer.
    pub open spec fn unmap_calls(self) -> Seq<Command> {
        seq![self.bind_call(), Command::UnmapBuffer { target: self.kind.spec_value() }]
    }

    /// Whether a view of buffer `id` that stands for `mapping` is the live
    /// view of this buffer.
    pub open spec fn holds(self, mapping: Mapping, id: GLuint) -> bool {
        self.id == id && self.mapping == mapping && mapping != Mapping::Unmapped
    }
}

/// Mapping a buffer for writing and releasing the view leaves the buffer as
/// it was: not mapped, and with the number of elements that the view showed.
/// So a mapping that follows shows as many elements as the view that was
/// written through.
pub proof fn lemma_write_cycle_restores_buffer(state: BufferState)
    requires
        state.wf(),
        !state.is_mapped(),
    ensures
        ({
            let view = Mapping::Write { len: state.len };
            let during = state.mapped(view);
            &&& during.wf()
            &&& during.is_mapped()
            &&& during.holds(view, state.id)
            &&& during.mapped(Mapping::Unmapped).resized(state.len) == state
        }),
{
}

/// Every operation on a buffer that asks something of the backend leaves
/// the buffer as the current one of its target: creating it, updating it,
/// mapping it and releasing the mapping.
pub proof fn lemma_operations_bind_the_buffer(
    state: BufferState,
    before: Seq<Command>,
    len: usize,
    offset: GLuint,
    access: GLenum,
)
    ensures
        bound_buffer(before + state.upload_calls(), state.kind.spec_value()) == Some(state.id),
        bound_buffer(before + state.update_calls(len, offset), state.kind.spec_value()) == Some(
            state.id,
        ),
        bound_buffer(before + state.map_calls(access), state.kind.spec_value()) == Some(state.id),
        bound_buffer(before + state.unmap_calls(), state.kind.spec_value()) == Some(state.id),
        bound_buffer(before.push(state.bind_call()), state.kind.spec_value()) == Some(state.id),
{
    let target = state.kind.spec_value();
    let bound = before.push(state.bind_call());
    assert forall|calls: Seq<Command>|
        calls.len() == 2 && calls[0] == state.bind_call() && keeps_bindings(
            calls[1],
        ) implies #[trigger] bound_buffer(before + calls, target) == Some(state.id) by {
        lemma_bound_buffer_stays(before, target, state.id, seq![calls[1]]);
        assert(before + calls =~= bound + seq![calls[1]]);
    }
    lemma_bound_buffer_stays(before, target, state.id, Seq::empty());
    assert(bound + Seq::<Command>::empty() =~= bound);
}

/// No operation changes how many elements a buffer has room for, nor what
/// the buffer is: recording another number of elements and changing the
/// mapping are all that happens to a buffer after it was created.
pub proof fn lemma_allocation_is_fixed(state: BufferState, len: usize, mapping: Mapping)
    ensures
        state.resized(len).capacity == state.capacity,
        state.mapped(mapping).capacity == state.capacity,
        state.resized(len).id == state.id,
        state.mapped(mapping).id == state.id,
        state.resized(len).upload_calls() == state.upload_calls(),
        state.mapped(mapping).upload_calls() == state.upload_calls(),
{
}

/// A handle to a block of memory that the rendering backend holds.
#[derive(Debug)]
pub struct Buffer {
    id: GLuint,
    kind: BufferType,
    acces: BufferAcces,
    element: ElementType,
    len: usize,
    capacity: usize,
    mapping: Mapping,
}

impl View for Buffer {
    type V = BufferState;

    closed spec fn view(&self) -> BufferState {
        BufferState {
            id: self.id,
            kind: self.kind,
            acces: self.acces,
            element_size: self.element.size,
            prototype: self.element.prototype@,
            len: self.len,
            capacity: self.capacity,
            mapping: self.mapping,
        }
    }
}

impl Buffer {
    pub open spec fn wf(&self) -> bool {
        self@.wf()
    }

    /// Records a buffer of `len` elements under the identity `id`, which the
    /// backend has generated, and asks for its storage to be allocated and
    /// filled.
    pub fn new(
        id: GLuint,
        kind: BufferType,
        acces: BufferAcces,
        element: ElementType,
        len: usize,
        calls: &mut Vec<Command>,
    ) -> (r: Result<Buffer, Error>)
        ensures
            match r {
                Ok(buffer) => {
                    &&& !BufferState::cannot_allocate(id, element.size, len)
                    &&& buffer@ == BufferState::created(id, kind, acces, element, len)
                    &&& buffer.wf()
                    &&& final(calls)@ == old(calls)@ + buffer@.upload_calls()
                },
                Err(e) => {
                    &&& BufferState::cannot_allocate(id, element.size, len)
                    &&& e == Error::AllocationError
                    &&& final(calls)@ == old(calls)@
                },
            },
    {
        if id == 0 {
            return Err(Error::AllocationError);
        }
        let size = match len.checked_mul(element.size as usize) {
            Some(size) => size,
            None => {
                return Err(Error::AllocationError);
            },
        };
        if size > isize::MAX as usize {
            return Err(Error::AllocationError);
        }
        let buffer = Buffer {
            id,
            kind,
            acces,
            element,
            len,
            capacity: len,
            mapping: Mapping::Unmapped,
        };
        let target = kind.value();
        calls.push(Command::BindBuffer { target, id });
        calls.push(Command::BufferData { target, size, usage: acces.value() });
        assert(final(calls)@ =~= old(calls)@ + buffer@.upload_calls());
        Ok(buffer)
    }

    /// Takes note of the error that the backend reports after it was asked
    /// for the storage of the buffer. Where the backend has run out of
    /// memory, the buffer is given up and its identity is asked to be freed.
    /// With any other report the buffer stays as it is.
    pub fn allocated(self, status: GLenum, calls: &mut Vec<Command>) -> (r: Result<Buffer, Error>)
        ensures
            match r {
                Ok(buffer) => {
                    &&& !BufferState::is_refusal(status)
                    &&& buffer@ == self@
                    &&& final(calls)@ == old(calls)@
                },
                Err(e) => {
                    &&& BufferState::is_refusal(status)
                    &&& e == Error::AllocationError
                    &&& final(calls)@ == old(calls)@.push(Command::DeleteBuffers { id: self@.id })
                },
            },
    {
        if status == gl_out_of_memory() {
            calls.push(Command::DeleteBuffers { id: self.id });
            Err(Error::AllocationError)
        } else {
            Ok(self)
        }
    }

    pub fn id(&self) -> (r: GLuint)
        ensures
            r == self@.id,
    {
        self.id
    }

    /// The target that the buffer is bound to.
    pub fn kind(&self) -> (r: BufferType)
        ensures
            r == self@.kind,
    {
        self.kind
    }

    /// The usage policy that the buffer was created with.
    pub fn acces(&self) -> (r: BufferAcces)
        ensures
            r == self@.acces,
    {
        self.acces
    }

    /// The layout of one element.
    pub fn element(&self) -> (r: &ElementType)
        ensures
            r.size == self@.element_size,
            r.prototype@ == self@.prototype,
    {
        &self.element
    }

    /// The recorded number of elements.
    pub fn len(&self) -> (r: usize)
        ensures
            r == self@.len,
    {
        self.len
    }

    /// The number of elements that were allocated.
    pub fn capacity(&self) -> (r: usize)
        ensures
            r == self@.capacity,
    {
        self.capacity
    }

    pub fn is_mapped(&self) -> (r: bool)
        ensures
            r == self@.is_mapped(),
    {
        match self.mapping {
            Mapping::Unmapped => false,
            _ => true,
        }
    }

    /// Asks for the buffer to be made the current one of its target.
    pub fn bind(&self, calls: &mut Vec<Command>)
        ensures
            final(calls)@ == old(calls)@.push(self@.bind_call()),
    {
        calls.push(Command::BindBuffer { target: self.kind.value(), id: self.id });
    }

    /// Asks for `len` elements to be overwritten from element `offset` on,
    /// and records `len` as the number of elements.
    ///
    /// The range has to lie within what was allocated: the buffer does not
    /// grow.
    pub fn update(&mut self, len: usize, offset: GLuint, calls: &mut Vec<Command>) -> (r: Result<
        (),
        Error,
    >)
        requires
            old(self).wf(),
        ensures
            final(self).wf(),
            match r {
                Ok(()) => {
                    &&& !old(self)@.out_of_range(len, offset)
                    &&& final(self)@ == old(self)@.resized(len)
                    &&& final(calls)@ == old(calls)@ + old(self)@.update_calls(len, offset)
                },
                Err(e) => {
                    &&& old(self)@.out_of_range(len, offset)
                    &&& e == (Error::RangeError { offset, len, capacity: old(self)@.capacity })
                    &&& final(self)@ == old(self)@
                    &&& final(calls)@ == old(calls)@
                },
            },
    {
        if len > self.capacity || offset as usize > self.capacity - len {
            return Err(Error::RangeError { offset, len, capacity: self.capacity });
        }
        let element_size = self.element.size as usize;
        assert(offset * element_size <= self.capacity * element_size && len * element_size
            <= self.capacity * element_size) by (nonlinear_arith)
            requires
                offset <= self.capacity,
                len <= self.capacity,
                0 <= element_size,
        ;
        let target = self.kind.value();
        calls.push(Command::BindBuffer { target, id: self.id });
        calls.push(
            Command::BufferSubData {
                target,
                offset: offset as usize * element_size,
                size: len * element_size,
            },
        );
        self.len = len;
        assert(final(calls)@ =~= old(calls)@ + old(self)@.update_calls(len, offset));
        Ok(())
    }

    /// Maps the buffer for reading. The view shows as many elements as are
    /// recorded.
    ///
    /// A buffer has one mapping at a time.
    pub fn read(&mut self, calls: &mut Vec<Command>) -> (r: Result<ReadBufferMap, Error>)
        requires
            old(self).wf(),
        ensures
            final(self).wf(),
            match r {
                Ok(map) => {
                    &&& !old(self)@.is_mapped()
                    &&& map@ == (MapState { id: old(self)@.id, len: old(self)@.len })
                    &&& final(self)@ == old(self)@.mapped(Mapping::Read { len: old(self)@.len })
                    &&& final(calls)@ == old(calls)@ + old(self)@.map_calls(0x88B8)
                },
                Err(e) => {
                    &&& old(self)@.is_mapped()
                    &&& e == Error::AlreadyMappedError
                    &&& final(self)@ == old(self)@
                    &&& final(calls)@ == old(calls)@
                },
            },
    {
        if self.is_mapped() {
            return Err(Error::AlreadyMappedError);
        }
        let target = self.kind.value();
        calls.push(Command::BindBuffer { target, id: self.id });
        calls.push(Command::MapBuffer { target, access: gl_read_only() });
        self.mapping = Mapping::Read { len: self.len };
        assert(final(calls)@ =~= old(calls)@ + old(self)@.map_calls(0x88B8));
        Ok(ReadBufferMap::over(self.id, self.len))
    }

    /// Maps the buffer for reading and writing. The view shows as many
    /// elements as are recorded.
    ///
    /// Only a buffer of dynamic usage can be written through a mapping, and
    /// a buffer has one mapping at a time. Where both stand in the way, the
    /// usage is reported.
    pub fn write(&mut self, calls: &mut Vec<Command>) -> (r: Result<WriteBufferMap, Error>)
        requires
            old(self).wf(),
        ensures
            final(self).wf(),
            match r {
                Ok(map) => {
                    &&& old(self)@.acces == BufferAcces::DynamicBuffer
                    &&& !old(self)@.is_mapped()
                    &&& map@ == (MapState { id: old(self)@.id, len: old(self)@.len })
                    &&& final(self)@ == old(self)@.mapped(Mapping::Write { len: old(self)@.len })
                    &&& final(calls)@ == old(calls)@ + old(self)@.map_calls(0x88BA)
                },
                Err(e) => {
                    &&& e == if old(self)@.acces == BufferAcces::StaticBuffer {
                        Error::CapabilityError
                    } else {
                        Error::AlreadyMappedError
                    }
                    &&& old(self)@.acces == BufferAcces::StaticBuffer || old(self)@.is_mapped()
                    &&& final(self)@ == old(self)@
                    &&& final(calls)@ == old(calls)@
                },
            },
    {
        match self.acces {
            BufferAcces::StaticBuffer => {
                return Err(Error::CapabilityError);
            },
            BufferAcces::DynamicBuffer => {},
        }
        if self.is_mapped() {
            return Err(Error::AlreadyMappedError);
        }
        let target = self.kind.value();
        calls.push(Command::BindBuffer { target, id: self.id });
        calls.push(Command::MapBuffer { target, access: gl_read_write() });
        self.mapping = Mapping::Write { len: self.len };
        assert(final(calls)@ =~= old(calls)@ + old(self)@.map_calls(0x88BA));
        Ok(WriteBufferMap::over(self.id, self.len))
    }

    /// Ends the live mapping where a view of buffer `id` that stands for
    /// `mapping` is the live view of this buffer. A view that was written
    /// through leaves its length as the recorded number of elements.
    pub(crate) fn unmap(&mut self, mapping: Mapping, id: GLuint, calls: &mut Vec<Command>) -> (released:
        bool)
        requires
            old(self).wf(),
        ensures
            final(self).wf(),
            released == old(self)@.holds(mapping, id),
            released ==> final(self)@ == match mapping {
                Mapping::Write { len } => old(self)@.mapped(Mapping::Unmapped).resized(len),
                _ => old(self)@.mapped(Mapping::Unmapped),
            },
            released ==> final(calls)@ == old(calls)@ + old(self)@.unmap_calls(),
            !released ==> final(self)@ == old(self)@,
            !released ==> final(calls)@ == old(calls)@,
    {
        let live = match (self.mapping, mapping) {
            (Mapping::Read { len: seen }, Mapping::Read { len }) => seen == len,
            (Mapping::Write { len: seen }, Mapping::Write { len }) => seen == len,
            _ => false,
        };
        if self.id != id || !live {
            return false;
        }
        let target = self.kind.value();
        calls.push(Command::BindBuffer { target, id: self.id });
        if let Mapping::Write { len } = mapping {
            self.len = len;
        }
        calls.push(Command::UnmapBuffer { target });
        self.mapping = Mapping::Unmapped;
        assert(final(calls)@ =~= old(calls)@ + old(self)@.unmap_calls());
        true
    }

    /// Gives the buffer up and asks for its storage to be freed.
    pub fn delete(self, calls: &mut Vec<Command>)
        ensures
            final(calls)@ == old(calls)@.push(Command::DeleteBuffers { id: self@.id }),
    {
        calls.push(Command::DeleteBuffers { id: self.id });
    }
}

} // verus!
