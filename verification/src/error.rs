//! What can go wrong when buffers and vertex arrays are set up.

use gl::types::GLuint;
use vstd::prelude::*;

verus! {

/// A configuration error. None of them is worth retrying: the call that
/// returned it has changed nothing and recorded no backend call.
#[derive(Clone, Copy, PartialEq, Eq, Structural, Debug)]
pub enum Error {
    /// The backend gave no storage: it handed out no identity, the requested
    /// size is more than it can be asked for, or it ran out of memory.
    AllocationError,
    /// A range of `len` elements starting at element `offset` does not lie
    /// within the `capacity` elements that were allocated.
    RangeError { offset: GLuint, len: usize, capacity: usize },
    /// The operation is not permitted under the buffer's usage policy.
    CapabilityError,
    /// The attributes of a prototype take `prototype_size` bytes, but one
    /// element takes `object_size`.
    LayoutError { prototype_size: u128, object_size: GLuint },
    /// The attribute slot `slot` was asked for, but `limit` is the last one
    /// that the vertex array has.
    CapacityError { limit: GLuint, slot: u64 },
    /// The buffer is mapped already.
    AlreadyMappedError,
}

} // verus!
