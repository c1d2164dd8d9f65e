//! Primitive topologies of a draw call.

use crate::glenum::{
    gl_line_loop, gl_line_strip, gl_line_strip_adjacency, gl_lines, gl_lines_adjacency,
    gl_patches, gl_points, gl_quads, gl_triangle_fan, gl_triangle_strip,
    gl_triangle_strip_adjacency, gl_triangles, gl_triangles_adjacency,
};
use gl::types::GLenum;
use vstd::prelude::*;

verus! {

/// How the vertices of a draw call are assembled into shapes.
#[derive(Clone, Copy, PartialEq, Eq, Structural, Debug)]
pub enum Format {
    Points,
    LineStrip,
    LineLoop,
    Lines,
    LineStripAdj,
    LinesAdj,
    TriangleStrip,
    TriangleFan,
    Triangles,
    TriangleStripAdj,
    TriangleAdj,
    Patches,
    Quard,
}

impl Format {
    /// The draw mode by which the rendering backend knows this topology.
    pub open spec fn spec_value(self) -> GLenum {
        match self {
            Format::Points => 0x0000,
            Format::Lines => 0x0001,
            Format::LineLoop => 0x0002,
            Format::LineStrip => 0x0003,
            Format::Triangles => 0x0004,
            Format::TriangleStrip => 0x0005,
            Format::TriangleFan => 0x0006,
            Format::Quard => 0x0007,
            Format::LinesAdj => 0x000A,
            Format::LineStripAdj => 0x000B,
            Format::TriangleAdj => 0x000C,
            Format::TriangleStripAdj => 0x000D,
            Format::Patches => 0x000E,
        }
    }

    pub fn value(&self) -> (r: GLenum)
        ensures
            r == self.spec_value(),
    {
        match self {
            Format::Points => gl_points(),
            Format::LineStrip => gl_line_strip(),
            Format::LineLoop => gl_line_loop(),
            Format::Lines => gl_lines(),
            Format::LineStripAdj => gl_line_strip_adjacency(),
            Format::LinesAdj => gl_lines_adjacency(),
            Format::TriangleStrip => gl_triangle_strip(),
            Format::TriangleFan => gl_triangle_fan(),
            Format::Triangles => gl_triangles(),
            Format::TriangleStripAdj => gl_triangle_strip_adjacency(),
            Format::TriangleAdj => gl_triangles_adjacency(),
            Format::Patches => gl_patches(),
            Format::Quard => gl_quads(),
        }
    }
}

/// Distinct topologies have distinct draw modes.
pub proof fn lemma_value_injective(a: Format, b: Format)
    requires
        a.spec_value() == b.spec_value(),
    ensures
        a == b,
{
}

} // verus!
