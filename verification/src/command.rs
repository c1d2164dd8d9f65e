//! The calls that the rendering backend is asked to make.

use gl::types::{GLboolean, GLenum, GLuint};
use vstd::prelude::*;

verus! {

/// How one attribute of an element is wired to one shader input.
#[derive(Clone, Copy, PartialEq, Eq, Structural, Debug)]
pub struct AttributePoint {
    /// The shader input slot.
    pub location: GLuint,
    /// The number of components.
    pub size: GLuint,
    /// The type tag of one component.
    pub ty: GLenum,
    /// Whether integer components are mapped to the unit range.
    pub normalized: GLboolean,
    /// The distance in bytes from one element to the next.
    pub stride: GLuint,
    /// The distance in bytes from the start of an element to the attribute.
    pub offset: GLuint,
}

/// One call to the rendering backend. Where the backend wants a pointer to
/// the data, the caller that holds the data supplies it.
#[derive(Clone, Copy, PartialEq, Eq, Structural, Debug)]
pub enum Command {
    /// Make buffer `id` the current one of `target`.
    BindBuffer { target: GLenum, id: GLuint },
    /// Allocate `size` bytes for the current buffer of `target` and fill them.
    BufferData { target: GLenum, size: usize, usage: GLenum },
    /// Overwrite `size` bytes of the current buffer of `target` from byte
    /// `offset` on.
    BufferSubData { target: GLenum, offset: usize, size: usize },
    /// Map the current buffer of `target` into memory.
    MapBuffer { target: GLenum, access: GLenum },
    /// Release the mapping of the current buffer of `target`.
    UnmapBuffer { target: GLenum },
    /// Free buffer `id`.
    DeleteBuffers { id: GLuint },
    /// Make vertex array `id` the current one.
    BindVertexArray { id: GLuint },
    /// Switch on the attribute slot `index` of the current vertex array.
    EnableVertexAttribArray { index: GLuint },
    /// Wire an attribute of the current array buffer to a slot of the current
    /// vertex array.
    VertexAttribPointer { point: AttributePoint },
    /// Draw `count` vertices from vertex `first` on.
    DrawArrays { mode: GLenum, first: GLuint, count: GLuint },
    /// Draw `count` vertices picked by the indices of type `ty` that start at
    /// byte `first` of the current element array buffer.
    DrawElements { mode: GLenum, count: GLuint, ty: GLenum, first: GLuint },
    /// Free vertex array `id`.
    DeleteVertexArrays { id: GLuint },
}

/// The buffer that is the current one of `target` once `calls` have been
/// made; `None` where no call among them says, or where the buffer that was
/// current has been freed.
pub open spec fn bound_buffer(calls: Seq<Command>, target: GLenum) -> Option<GLuint>
    decreases calls.len(),
{
    if calls.len() == 0 {
        None
    } else {
        let before = bound_buffer(calls.drop_last(), target);
        match calls.last() {
            Command::BindBuffer { target: bound, id } => if bound == target {
                Some(id)
            } else {
                before
            },
            Command::DeleteBuffers { id } => if before == Some(id) {
                None
            } else {
                before
            },
            _ => before,
        }
    }
}

/// The vertex array that is the current one once `calls` have been made;
/// `None` where no call among them says, or where the vertex array that was
/// current has been freed.
pub open spec fn bound_vertex_array(calls: Seq<Command>) -> Option<GLuint>
    decreases calls.len(),
{
    if calls.len() == 0 {
        None
    } else {
        let before = bound_vertex_array(calls.drop_last());
        match calls.last() {
            Command::BindVertexArray { id } => Some(id),
            Command::DeleteVertexArrays { id } => if before == Some(id) {
                None
            } else {
                before
            },
            _ => before,
        }
    }
}

/// Whether `call` leaves the current buffers and the current vertex array
/// as they are.
pub open spec fn keeps_bindings(call: Command) -> bool {
    match call {
        Command::BindBuffer { .. } => false,
        Command::DeleteBuffers { .. } => false,
        Command::BindVertexArray { .. } => false,
        Command::DeleteVertexArrays { .. } => false,
        _ => true,
    }
}

/// After a buffer has been bound and calls have been made that leave the
/// bindings as they are, the buffer is the current one of its target.
pub proof fn lemma_bound_buffer_stays(
    before: Seq<Command>,
    target: GLenum,
    id: GLuint,
    after: Seq<Command>,
)
    requires
        forall|i: int| 0 <= i < after.len() ==> keeps_bindings(#[trigger] after[i]),
    ensures
        bound_buffer(before.push(Command::BindBuffer { target, id }) + after, target) == Some(id),
    decreases after.len(),
{
    let bound = before.push(Command::BindBuffer { target, id });
    if after.len() == 0 {
        assert(bound + after =~= bound);
        assert(bound.drop_last() =~= before);
    } else {
        lemma_bound_buffer_stays(before, target, id, after.drop_last());
        assert((bound + after).drop_last() =~= bound + after.drop_last());
        assert(keeps_bindings(after[after.len() - 1]));
    }
}

/// After a vertex array has been bound and calls have been made that bind
/// and free no vertex array, the vertex array is the current one.
pub proof fn lemma_bound_vertex_array_stays(before: Seq<Command>, id: GLuint, after: Seq<Command>)
    requires
        forall|i: int|
            0 <= i < after.len() ==> !(#[trigger] after[i] is BindVertexArray) && !(
            after[i] is DeleteVertexArrays),
    ensures
        bound_vertex_array(before.push(Command::BindVertexArray { id }) + after) == Some(id),
    decreases after.len(),
{
    let bound = before.push(Command::BindVertexArray { id });
    if after.len() == 0 {
        assert(bound + after =~= bound);
    } else {
        lemma_bound_vertex_array_stays(before, id, after.drop_last());
        assert((bound + after).drop_last() =~= bound + after.drop_last());
        assert(!(after[after.len() - 1] is BindVertexArray));
    }
}

} // verus!
