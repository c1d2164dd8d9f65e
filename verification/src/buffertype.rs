//! The binding target and the usage policy of a buffer.

use crate::glenum::{
    gl_array_buffer, gl_dynamic_draw, gl_element_array_buffer, gl_static_draw,
};
use gl::types::GLenum;
use vstd::prelude::*;

verus! {

/// What a buffer stores, which decides the target it is bound to.
#[derive(Clone, Copy, PartialEq, Eq, Structural, Debug)]
pub enum BufferType {
    /// Vertex attribute storage.
    ArrayBuffer,
    /// Index storage.
    ElementArrayBuffer,
}

impl BufferType {
    /// The binding target by which the rendering backend knows this kind.
    pub open spec fn spec_value(self) -> GLenum {
        match self {
            BufferType::ArrayBuffer => 0x8892,
            BufferType::ElementArrayBuffer => 0x8893,
        }
    }

    pub fn value(&self) -> (r: GLenum)
        ensures
            r == self.spec_value(),
    {
        match self {
            BufferType::ArrayBuffer => gl_array_buffer(),
            BufferType::ElementArrayBuffer => gl_element_array_buffer(),
        }
    }
}

/// How often the contents of a buffer change after the first upload.
#[derive(Clone, Copy, PartialEq, Eq, Structural, Debug)]
pub enum BufferAcces {
    /// Uploaded once; never mapped for writing.
    StaticBuffer,
    /// Updated often; may be mapped for writing.
    DynamicBuffer,
}

impl BufferAcces {
    /// The usage hint by which the rendering backend knows this policy.
    pub open spec fn spec_value(self) -> GLenum {
        match self {
            BufferAcces::StaticBuffer => 0x88E4,
            BufferAcces::DynamicBuffer => 0x88E8,
        }
    }

    pub fn value(&self) -> (r: GLenum)
        ensures
            r == self.spec_value(),
    {
        match self {
            BufferAcces::StaticBuffer => gl_static_draw(),
            BufferAcces::DynamicBuffer => gl_dynamic_draw(),
        }
    }
}

} // verus!
