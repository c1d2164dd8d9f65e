//! Scalar kinds of which the fields of a buffer element are made.

use crate::glenum::{
    gl_byte, gl_double, gl_float, gl_int, gl_short, gl_unsigned_byte, gl_unsigned_int,
    gl_unsigned_short,
};
use gl::types::{GLenum, GLuint};
use vstd::prelude::*;

verus! {

/// The scalar kind of one attribute of an element.
///
/// `Nothing` stands for a span of bytes that no shader input reads: one byte
/// per component.
#[derive(Clone, Copy, PartialEq, Eq, Structural, Debug)]
pub enum Primitive {
    Byte,
    UByte,
    Short,
    UShort,
    Int,
    UInt,
    Float,
    Double,
    Nothing,
}

impl Primitive {
    /// The type tag by which the rendering backend knows this kind; `0` for
    /// `Nothing`, which the backend never sees.
    pub open spec fn spec_value(self) -> GLenum {
        match self {
            Primitive::Byte => 0x1400,
            Primitive::UByte => 0x1401,
            Primitive::Short => 0x1402,
            Primitive::UShort => 0x1403,
            Primitive::Int => 0x1404,
            Primitive::UInt => 0x1405,
            Primitive::Float => 0x1406,
            Primitive::Double => 0x140A,
            Primitive::Nothing => 0,
        }
    }

    /// The number of bytes that one component of this kind takes.
    pub open spec fn spec_size(self) -> GLuint {
        match self {
            Primitive::Byte | Primitive::UByte | Primitive::Nothing => 1,
            Primitive::Short | Primitive::UShort => 2,
            Primitive::Int | Primitive::UInt | Primitive::Float => 4,
            Primitive::Double => 8,
        }
    }

    pub fn value(&self) -> (r: GLenum)
        ensures
            r == self.spec_value(),
    {
        match self {
            Primitive::Byte => gl_byte(),
            Primitive::UByte => gl_unsigned_byte(),
            Primitive::Short => gl_short(),
            Primitive::UShort => gl_unsigned_short(),
            Primitive::Int => gl_int(),
            Primitive::UInt => gl_unsigned_int(),
            Primitive::Float => gl_float(),
            Primitive::Double => gl_double(),
            Primitive::Nothing => 0,
        }
    }

    pub fn size(&self) -> (r: GLuint)
        ensures
            r == self.spec_size(),
    {
        match self {
            Primitive::Byte => 1,
            Primitive::UByte => 1,
            Primitive::Short => 2,
            Primitive::UShort => 2,
            Primitive::Int => 4,
            Primitive::UInt => 4,
            Primitive::Float => 4,
            Primitive::Double => 8,
            Primitive::Nothing => 1,
        }
    }
}

/// Two kinds that the backend sees have the same tag only if they are the
/// same kind.
pub proof fn lemma_value_injective(a: Primitive, b: Primitive)
    requires
        a.spec_value() == b.spec_value(),
    ensures
        a == b,
{
}

/// A scalar type whose values can index the vertices of a draw call.
pub trait IndexPrimitive {
    /// The type tag by which the rendering backend knows the index type.
    fn value() -> GLenum;
}

impl IndexPrimitive for u8 {
    fn value() -> (r: GLenum)
        ensures
            r == Primitive::UByte.spec_value(),
    {
        gl_unsigned_byte()
    }
}

impl IndexPrimitive for i16 {
    fn value() -> (r: GLenum)
        ensures
            r == Primitive::Short.spec_value(),
    {
        gl_short()
    }
}

impl IndexPrimitive for u16 {
    fn value() -> (r: GLenum)
        ensures
            r == Primitive::UShort.spec_value(),
    {
        gl_unsigned_short()
    }
}

impl IndexPrimitive for i32 {
    fn value() -> (r: GLenum)
        ensures
            r == Primitive::Int.spec_value(),
    {
        gl_int()
    }
}

impl IndexPrimitive for u32 {
    fn value() -> (r: GLenum)
        ensures
            r == Primitive::UInt.spec_value(),
    {
        gl_unsigned_int()
    }
}

} // verus!
