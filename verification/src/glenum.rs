//! The numeric identifiers of the OpenGL bindings that the descriptors of this
//! crate map to. Each function below hands out one constant of the `gl` crate;
//! its value is stated as the OpenGL registry gives it and is taken on trust.

use gl::types::{GLboolean, GLenum};
use vstd::prelude::*;

verus! {

/// `gl::BYTE`, the type tag of a signed 8-bit component: `0x1400`.
#[verifier::external_body]
pub(crate) fn gl_byte() -> (r: GLenum)
    ensures
        r == 0x1400,
{
    gl::BYTE
}

/// `gl::UNSIGNED_BYTE`, the type tag of an unsigned 8-bit component: `0x1401`.
#[verifier::external_body]
pub(crate) fn gl_unsigned_byte() -> (r: GLenum)
    ensures
        r == 0x1401,
{
    gl::UNSIGNED_BYTE
}

/// `gl::SHORT`, the type tag of a signed 16-bit component: `0x1402`.
#[verifier::external_body]
pub(crate) fn gl_short() -> (r: GLenum)
    ensures
        r == 0x1402,
{
    gl::SHORT
}

/// `gl::UNSIGNED_SHORT`, the type tag of an unsigned 16-bit component: `0x1403`.
#[verifier::external_body]
pub(crate) fn gl_unsigned_short() -> (r: GLenum)
    ensures
        r == 0x1403,
{
    gl::UNSIGNED_SHORT
}

/// `gl::INT`, the type tag of a signed 32-bit component: `0x1404`.
#[verifier::external_body]
pub(crate) fn gl_int() -> (r: GLenum)
    ensures
        r == 0x1404,
{
    gl::INT
}

/// `gl::UNSIGNED_INT`, the type tag of an unsigned 32-bit component: `0x1405`.
#[verifier::external_body]
pub(crate) fn gl_unsigned_int() -> (r: GLenum)
    ensures
        r == 0x1405,
{
    gl::UNSIGNED_INT
}

/// `gl::FLOAT`, the type tag of a 32-bit floating-point component: `0x1406`.
#[verifier::external_body]
pub(crate) fn gl_float() -> (r: GLenum)
    ensures
        r == 0x1406,
{
    gl::FLOAT
}

/// `gl::DOUBLE`, the type tag of a 64-bit floating-point component: `0x140A`.
#[verifier::external_body]
pub(crate) fn gl_double() -> (r: GLenum)
    ensures
        r == 0x140A,
{
    gl::DOUBLE
}

/// `gl::FALSE`, the boolean that leaves integer attributes unnormalized: `0`.
#[verifier::external_body]
pub(crate) fn gl_false() -> (r: GLboolean)
    ensures
        r == 0,
{
    gl::FALSE
}

/// `gl::POINTS`, the draw mode of isolated points: `0x0000`.
#[verifier::external_body]
pub(crate) fn gl_points() -> (r: GLenum)
    ensures
        r == 0x0000,
{
    gl::POINTS
}

/// `gl::LINES`, the draw mode of separate line segments: `0x0001`.
#[verifier::external_body]
pub(crate) fn gl_lines() -> (r: GLenum)
    ensures
        r == 0x0001,
{
    gl::LINES
}

/// `gl::LINE_LOOP`, the draw mode of a closed line strip: `0x0002`.
#[verifier::external_body]
pub(crate) fn gl_line_loop() -> (r: GLenum)
    ensures
        r == 0x0002,
{
    gl::LINE_LOOP
}

/// `gl::LINE_STRIP`, the draw mode of a connected line strip: `0x0003`.
#[verifier::external_body]
pub(crate) fn gl_line_strip() -> (r: GLenum)
    ensures
        r == 0x0003,
{
    gl::LINE_STRIP
}

/// `gl::TRIANGLES`, the draw mode of separate triangles: `0x0004`.
#[verifier::external_body]
pub(crate) fn gl_triangles() -> (r: GLenum)
    ensures
        r == 0x0004,
{
    gl::TRIANGLES
}

/// `gl::TRIANGLE_STRIP`, the draw mode of a triangle strip: `0x0005`.
#[verifier::external_body]
pub(crate) fn gl_triangle_strip() -> (r: GLenum)
    ensures
        r == 0x0005,
{
    gl::TRIANGLE_STRIP
}

/// `gl::TRIANGLE_FAN`, the draw mode of a triangle fan: `0x0006`.
#[verifier::external_body]
pub(crate) fn gl_triangle_fan() -> (r: GLenum)
    ensures
        r == 0x0006,
{
    gl::TRIANGLE_FAN
}

/// `gl::QUADS`, the draw mode of separate quadrilaterals: `0x0007`.
#[verifier::external_body]
pub(crate) fn gl_quads() -> (r: GLenum)
    ensures
        r == 0x0007,
{
    gl::QUADS
}

/// `gl::LINES_ADJACENCY`, the draw mode of line segments with adjacent
/// vertices: `0x000A`.
#[verifier::external_body]
pub(crate) fn gl_lines_adjacency() -> (r: GLenum)
    ensures
        r == 0x000A,
{
    gl::LINES_ADJACENCY
}

/// `gl::LINE_STRIP_ADJACENCY`, the draw mode of a line strip with adjacent
/// vertices: `0x000B`.
#[verifier::external_body]
pub(crate) fn gl_line_strip_adjacency() -> (r: GLenum)
    ensures
        r == 0x000B,
{
    gl::LINE_STRIP_ADJACENCY
}

/// `gl::TRIANGLES_ADJACENCY`, the draw mode of triangles with adjacent
/// vertices: `0x000C`.
#[verifier::external_body]
pub(crate) fn gl_triangles_adjacency() -> (r: GLenum)
    ensures
        r == 0x000C,
{
    gl::TRIANGLES_ADJACENCY
}

/// `gl::TRIANGLE_STRIP_ADJACENCY`, the draw mode of a triangle strip with
/// adjacent vertices: `0x000D`.
#[verifier::external_body]
pub(crate) fn gl_triangle_strip_adjacency() -> (r: GLenum)
    ensures
        r == 0x000D,
{
    gl::TRIANGLE_STRIP_ADJACENCY
}

/// `gl::PATCHES`, the draw mode of tessellation patches: `0x000E`.
#[verifier::external_body]
pub(crate) fn gl_patches() -> (r: GLenum)
    ensures
        r == 0x000E,
{
    gl::PATCHES
}

/// `gl::ARRAY_BUFFER`, the binding target of vertex attribute storage:
/// `0x8892`.
#[verifier::external_body]
pub(crate) fn gl_array_buffer() -> (r: GLenum)
    ensures
        r == 0x8892,
{
    gl::ARRAY_BUFFER
}

/// `gl::ELEMENT_ARRAY_BUFFER`, the binding target of index storage: `0x8893`.
#[verifier::external_body]
pub(crate) fn gl_element_array_buffer() -> (r: GLenum)
    ensures
        r == 0x8893,
{
    gl::ELEMENT_ARRAY_BUFFER
}

/// `gl::STATIC_DRAW`, the usage hint of data uploaded once: `0x88E4`.
#[verifier::external_body]
pub(crate) fn gl_static_draw() -> (r: GLenum)
    ensures
        r == 0x88E4,
{
    gl::STATIC_DRAW
}

/// `gl::DYNAMIC_DRAW`, the usage hint of data updated often: `0x88E8`.
#[verifier::external_body]
pub(crate) fn gl_dynamic_draw() -> (r: GLenum)
    ensures
        r == 0x88E8,
{
    gl::DYNAMIC_DRAW
}

/// `gl::READ_ONLY`, the access of a mapping that is only read: `0x88B8`.
#[verifier::external_body]
pub(crate) fn gl_read_only() -> (r: GLenum)
    ensures
        r == 0x88B8,
{
    gl::READ_ONLY
}

/// `gl::READ_WRITE`, the access of a mapping that is read and written:
/// `0x88BA`.
#[verifier::external_body]
pub(crate) fn gl_read_write() -> (r: GLenum)
    ensures
        r == 0x88BA,
{
    gl::READ_WRITE
}

/// `gl::OUT_OF_MEMORY`, the error that is reported when there is not enough
/// memory left to carry out a call: `0x0505`.
#[verifier::external_body]
pub(crate) fn gl_out_of_memory() -> (r: GLenum)
    ensures
        r == 0x0505,
{
    gl::OUT_OF_MEMORY
}

} // verus!
