//! Typed state for GPU buffers and vertex arrays: what is bound where, which
//! attribute layout the elements of a buffer have, and which calls the
//! rendering backend has to make to bring itself in line.
//!
//! Nothing here talks to the backend. Every operation on a buffer or a
//! vertex array takes the list of calls recorded so far and appends the calls
//! that it asks for; whoever owns the rendering context performs them in
//! order, and hands in what the backend gave out: the identity of a new
//! buffer or vertex array.
//!
//! Beside that stand a few things that programs around the backend share:
//! the index list of a grid of quads, a stick figure for a canvas, and two
//! small helpers.

use vstd::prelude::*;
use vstd::std_specs::cmp::PartialOrdSpec;

pub mod buffer;
pub mod bufferdata;
pub mod buffermap;
pub mod buffertype;
pub mod command;
pub mod error;
pub mod format;
mod glenum;
pub mod grid;
pub mod primitive;
pub mod stickman;
pub mod vao;

pub use crate::buffer::Buffer;
pub use crate::bufferdata::{BufferData, ElementType};
pub use crate::buffermap::{ReadBufferMap, WriteBufferMap};
pub use crate::buffertype::{BufferAcces, BufferType};
pub use crate::command::{AttributePoint, Command};
pub use crate::error::Error;
pub use crate::format::Format;
pub use crate::primitive::{IndexPrimitive, Primitive};
pub use crate::stickman::{Point, StickMan};
pub use crate::vao::Vao;

verus! {

/// Runs `f` on `v` and returns what `f` left there.
pub fn get_value<T, F>(v: T, f: F) -> (r: T) where F: FnOnce(&mut T) -> ()
    requires
        forall|m: &mut T| *m == v ==> call_requires(f, (m,)),
    ensures
        exists|m: &mut T| *m == v && call_ensures(f, (m,), ()) && r == *final(m),
{
    let mut v = v;
    f(&mut v);
    v
}

/// Restricts `v` to the closed range from `v0` to `v1`: `v1` where `v` is
/// greater than `v1`, else `v0` where `v` is less than `v0`, else `v`.
pub fn clamp<T: PartialOrd>(v0: T, v1: T, v: T) -> (r: T)
    ensures
        T::obeys_partial_cmp_spec() ==> r == (if v.partial_cmp_spec(&v1) == Some(
            core::cmp::Ordering::Greater,
        ) {
            v1
        } else if v.partial_cmp_spec(&v0) == Some(core::cmp::Ordering::Less) {
            v0
        } else {
            v
        }),
        exists|above: bool| #[trigger]
            call_ensures(T::gt, (&v, &v1), above) && if above {
                r == v1
            } else {
                exists|below: bool| #[trigger]
                    call_ensures(T::lt, (&v, &v0), below) && r == (if below {
                        v0
                    } else {
                        v
                    })
            },
{
    if v > v1 {
        v1
    } else if v < v0 {
        v0
    } else {
        v
    }
}

} // verus!
