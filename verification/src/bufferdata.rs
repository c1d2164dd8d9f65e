//! The layout of one buffer element: how many bytes it takes and which
//! attributes it is made of.

use crate::primitive::Primitive;
use gl::types::GLuint;
use vstd::prelude::*;

verus! {

/// The number of bytes that one prototype entry spans.
pub open spec fn entry_size(entry: (Primitive, GLuint)) -> nat {
    (entry.0.spec_size() * entry.1) as nat
}

/// The number of bytes that the first `n` entries of `prototype` span
/// together.
pub open spec fn bytes_before(prototype: Seq<(Primitive, GLuint)>, n: int) -> nat
    decreases n,
{
    if n <= 0 {
        0
    } else {
        bytes_before(prototype, n - 1) + entry_size(prototype[n - 1])
    }
}

/// The number of bytes that all entries of `prototype` span together.
pub open spec fn prototype_size(prototype: Seq<(Primitive, GLuint)>) -> nat {
    bytes_before(prototype, prototype.len() as int)
}

/// No entry spans more than eight bytes per component.
pub proof fn lemma_entry_size_bound(entry: (Primitive, GLuint))
    ensures
        entry_size(entry) <= 8 * entry.1,
        entry_size(entry) <= 0x7_ffff_fff8,
{
    assert(entry.0.spec_size() * entry.1 <= 8 * entry.1) by (nonlinear_arith)
        requires
            0 <= entry.0.spec_size() <= 8,
            0 <= entry.1,
    ;
}

/// A longer prefix spans at least as many bytes as a shorter one.
pub proof fn lemma_bytes_before_monotonic(prototype: Seq<(Primitive, GLuint)>, m: int, n: int)
    requires
        m <= n,
    ensures
        bytes_before(prototype, m) <= bytes_before(prototype, n),
    decreases n - m,
{
    if m < n {
        lemma_bytes_before_monotonic(prototype, m, n - 1);
    }
}

/// A prefix of `n` entries spans at most `n` times the most that one entry
/// can span.
pub proof fn lemma_bytes_before_bound(prototype: Seq<(Primitive, GLuint)>, n: int)
    requires
        0 <= n,
    ensures
        bytes_before(prototype, n) <= n * 0x7_ffff_fff8,
    decreases n,
{
    if n > 0 {
        lemma_bytes_before_bound(prototype, n - 1);
        lemma_entry_size_bound(prototype[n - 1]);
    }
}

/// Adds up the bytes that the entries of `prototype` span.
pub fn prototype_len(prototype: &Vec<(Primitive, GLuint)>) -> (r: u128)
    ensures
        r == prototype_size(prototype@),
{
    let mut total: u128 = 0;
    let mut i: usize = 0;
    while i < prototype.len()
        invariant
            i <= prototype.len(),
            total == bytes_before(prototype@, i as int),
        decreases prototype.len() - i,
    {
        let (ty, count) = prototype[i];
        proof {
            lemma_bytes_before_bound(prototype@, i as int);
            lemma_entry_size_bound(prototype@[i as int]);
        }
        let span: u64 = (ty.size() as u64) * (count as u64);
        total = total + (span as u128);
        i += 1;
    }
    total
}

/// What the binder has to know of an element type.
#[derive(PartialEq, Eq, Debug)]
pub struct ElementType {
    /// The number of bytes that one element takes in memory.
    pub size: GLuint,
    /// The attributes that one element is made of, in the order in which
    /// they lie in memory.
    pub prototype: Vec<(Primitive, GLuint)>,
}

impl ElementType {
    pub fn new(size: GLuint, prototype: Vec<(Primitive, GLuint)>) -> (r: Self)
        ensures
            r.size == size,
            r.prototype == prototype,
    {
        ElementType { size, prototype }
    }

    /// The layout of `T`, as `T` declares it.
    pub fn of<T: BufferData>() -> (r: Self)
        requires
            vstd::layout::size_of::<T>() <= u32::MAX,
        ensures
            r.size == vstd::layout::size_of::<T>(),
            call_ensures(T::prototype, (), r.prototype),
    {
        ElementType { size: core::mem::size_of::<T>() as GLuint, prototype: T::prototype() }
    }
}

/// An element type that says which attributes it is made of.
pub trait BufferData: Sized {
    /// The attributes of one element, in the order in which they lie in
    /// memory.
    fn prototype() -> Vec<(Primitive, GLuint)>;
}

/// The prototype of an element that is `count` components of one kind and
/// nothing else: a scalar, or a short array of scalars.
pub open spec fn uniform_prototype(kind: Primitive, count: GLuint) -> Seq<(Primitive, GLuint)> {
    seq![(kind, count)]
}

/// A prototype of one entry spans what that entry spans.
pub proof fn lemma_uniform_prototype_size(kind: Primitive, count: GLuint)
    ensures
        prototype_size(uniform_prototype(kind, count)) == kind.spec_size() * count,
{
    let p = uniform_prototype(kind, count);
    assert(bytes_before(p, 1) == bytes_before(p, 0) + entry_size(p[0]));
    assert(bytes_before(p, 0) == 0);
}

/// The prototypes of the integer scalars span as many bytes as the scalars
/// take in memory.
pub proof fn lemma_scalars_fill_their_elements()
    ensures
        prototype_size(uniform_prototype(Primitive::Byte, 1)) == vstd::layout::size_of::<i8>(),
        prototype_size(uniform_prototype(Primitive::UByte, 1)) == vstd::layout::size_of::<u8>(),
        prototype_size(uniform_prototype(Primitive::Short, 1)) == vstd::layout::size_of::<i16>(),
        prototype_size(uniform_prototype(Primitive::UShort, 1)) == vstd::layout::size_of::<u16>(),
        prototype_size(uniform_prototype(Primitive::Int, 1)) == vstd::layout::size_of::<i32>(),
        prototype_size(uniform_prototype(Primitive::UInt, 1)) == vstd::layout::size_of::<u32>(),
{
    broadcast use vstd::layout::layout_of_primitives;

    lemma_uniform_prototype_size(Primitive::Byte, 1);
    lemma_uniform_prototype_size(Primitive::UByte, 1);
    lemma_uniform_prototype_size(Primitive::Short, 1);
    lemma_uniform_prototype_size(Primitive::UShort, 1);
    lemma_uniform_prototype_size(Primitive::Int, 1);
    lemma_uniform_prototype_size(Primitive::UInt, 1);
}

impl BufferData for i8 {
    fn prototype() -> (r: Vec<(Primitive, GLuint)>)
        ensures
            r@ == uniform_prototype(Primitive::Byte, 1),
    {
        let r = vec![(Primitive::Byte, 1)];
        assert(r@ =~= uniform_prototype(Primitive::Byte, 1));
        r
    }
}

impl BufferData for u8 {
    fn prototype() -> (r: Vec<(Primitive, GLuint)>)
        ensures
            r@ == uniform_prototype(Primitive::UByte, 1),
    {
        let r = vec![(Primitive::UByte, 1)];
        assert(r@ =~= uniform_prototype(Primitive::UByte, 1));
        r
    }
}

impl BufferData for i16 {
    fn prototype() -> (r: Vec<(Primitive, GLuint)>)
        ensures
            r@ == uniform_prototype(Primitive::Short, 1),
    {
        let r = vec![(Primitive::Short, 1)];
        assert(r@ =~= uniform_prototype(Primitive::Short, 1));
        r
    }
}

impl BufferData for u16 {
    fn prototype() -> (r: Vec<(Primitive, GLuint)>)
        ensures
            r@ == uniform_prototype(Primitive::UShort, 1),
    {
        let r = vec![(Primitive::UShort, 1)];
        assert(r@ =~= uniform_prototype(Primitive::UShort, 1));
        r
    }
}

impl BufferData for i32 {
    fn prototype() -> (r: Vec<(Primitive, GLuint)>)
        ensures
            r@ == uniform_prototype(Primitive::Int, 1),
    {
        let r = vec![(Primitive::Int, 1)];
        assert(r@ =~= uniform_prototype(Primitive::Int, 1));
        r
    }
}

impl BufferData for u32 {
    fn prototype() -> (r: Vec<(Primitive, GLuint)>)
        ensures
            r@ == uniform_prototype(Primitive::UInt, 1),
    {
        let r = vec![(Primitive::UInt, 1)];
        assert(r@ =~= uniform_prototype(Primitive::UInt, 1));
        r
    }
}

impl BufferData for [i16; 2] {
    fn prototype() -> (r: Vec<(Primitive, GLuint)>)
        ensures
            r@ == uniform_prototype(Primitive::Short, 2),
    {
        let r = vec![(Primitive::Short, 2)];
        assert(r@ =~= uniform_prototype(Primitive::Short, 2));
        r
    }
}

impl BufferData for [i16; 3] {
    fn prototype() -> (r: Vec<(Primitive, GLuint)>)
        ensures
            r@ == uniform_prototype(Primitive::Short, 3),
    {
        let r = vec![(Primitive::Short, 3)];
        assert(r@ =~= uniform_prototype(Primitive::Short, 3));
        r
    }
}

impl BufferData for [i16; 4] {
    fn prototype() -> (r: Vec<(Primitive, GLuint)>)
        ensures
            r@ == uniform_prototype(Primitive::Short, 4),
    {
        let r = vec![(Primitive::Short, 4)];
        assert(r@ =~= uniform_prototype(Primitive::Short, 4));
        r
    }
}

impl BufferData for [u16; 2] {
    fn prototype() -> (r: Vec<(Primitive, GLuint)>)
        ensures
            r@ == uniform_prototype(Primitive::UShort, 2),
    {
        let r = vec![(Primitive::UShort, 2)];
        assert(r@ =~= uniform_prototype(Primitive::UShort, 2));
        r
    }
}

impl BufferData for [u16; 3] {
    fn prototype() -> (r: Vec<(Primitive, GLuint)>)
        ensures
            r@ == uniform_prototype(Primitive::UShort, 3),
    {
        let r = vec![(Primitive::UShort, 3)];
        assert(r@ =~= uniform_prototype(Primitive::UShort, 3));
        r
    }
}

impl BufferData for [u16; 4] {
    fn prototype() -> (r: Vec<(Primitive, GLuint)>)
        ensures
            r@ == uniform_prototype(Primitive::UShort, 4),
    {
        let r = vec![(Primitive::UShort, 4)];
        assert(r@ =~= uniform_prototype(Primitive::UShort, 4));
        r
    }
}

impl BufferData for [i32; 2] {
    fn prototype() -> (r: Vec<(Primitive, GLuint)>)
        ensures
            r@ == uniform_prototype(Primitive::Int, 2),
    {
        let r = vec![(Primitive::Int, 2)];
        assert(r@ =~= uniform_prototype(Primitive::Int, 2));
        r
    }
}

impl BufferData for [i32; 3] {
    fn prototype() -> (r: Vec<(Primitive, GLuint)>)
        ensures
            r@ == uniform_prototype(Primitive::Int, 3),
    {
        let r = vec![(Primitive::Int, 3)];
        assert(r@ =~= uniform_prototype(Primitive::Int, 3));
        r
    }
}

impl BufferData for [i32; 4] {
    fn prototype() -> (r: Vec<(Primitive, GLuint)>)
        ensures
            r@ == uniform_prototype(Primitive::Int, 4),
    {
        let r = vec![(Primitive::Int, 4)];
        assert(r@ =~= uniform_prototype(Primitive::Int, 4));
        r
    }
}

impl BufferData for [u32; 2] {
    fn prototype() -> (r: Vec<(Primitive, GLuint)>)
        ensures
            r@ == uniform_prototype(Primitive::UInt, 2),
    {
        let r = vec![(Primitive::UInt, 2)];
        assert(r@ =~= uniform_prototype(Primitive::UInt, 2));
        r
    }
}

impl BufferData for [u32; 3] {
    fn prototype() -> (r: Vec<(Primitive, GLuint)>)
        ensures
            r@ == uniform_prototype(Primitive::UInt, 3),
    {
        let r = vec![(Primitive::UInt, 3)];
        assert(r@ =~= uniform_prototype(Primitive::UInt, 3));
        r
    }
}

impl BufferData for [u32; 4] {
    fn prototype() -> (r: Vec<(Primitive, GLuint)>)
        ensures
            r@ == uniform_prototype(Primitive::UInt, 4),
    {
        let r = vec![(Primitive::UInt, 4)];
        assert(r@ =~= uniform_prototype(Primitive::UInt, 4));
        r
    }
}

} // verus!
