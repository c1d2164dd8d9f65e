//! Vertex arrays: which attributes of which buffers feed which shader inputs.

use crate::buffer::{Buffer, BufferState};
use crate::bufferdata::{bytes_before, prototype_len, prototype_size};
use crate::command::{
    bound_buffer, bound_vertex_array, lemma_bound_buffer_stays, lemma_bound_vertex_array_stays,
    AttributePoint, Command,
};
use crate::error::Error;
use crate::format::Format;
use crate::glenum::gl_false;
use crate::primitive::Primitive;
use gl::types::GLuint;
use std::collections::HashMap;
use vstd::prelude::*;

verus! {

/// The attribute that entry `i` of `prototype` becomes when the first entry
/// is wired to the slot `location` and one element takes `stride` bytes: it
/// takes the slot `location + i` and starts where the entries before it end.
pub open spec fn attribute_at(
    prototype: Seq<(Primitive, GLuint)>,
    location: GLuint,
    stride: GLuint,
    i: int,
) -> AttributePoint {
    AttributePoint {
        location: (location + i) as GLuint,
        size: prototype[i].1,
        ty: prototype[i].0.spec_value(),
        normalized: 0,
        stride,
        offset: bytes_before(prototype, i) as GLuint,
    }
}

/// The attributes that the first `n` entries of `prototype` become, in
/// order. An entry of kind `Nothing` takes its slot and its bytes but
/// becomes no attribute.
pub open spec fn layout_upto(
    prototype: Seq<(Primitive, GLuint)>,
    location: GLuint,
    stride: GLuint,
    n: int,
) -> Seq<AttributePoint>
    decreases n,
{
    if n <= 0 {
        Seq::empty()
    } else {
        let before = layout_upto(prototype, location, stride, n - 1);
        if prototype[n - 1].0 == Primitive::Nothing {
            before
        } else {
            before.push(attribute_at(prototype, location, stride, n - 1))
        }
    }
}

/// The attributes that `prototype` becomes.
pub open spec fn layout(
    prototype: Seq<(Primitive, GLuint)>,
    location: GLuint,
    stride: GLuint,
) -> Seq<AttributePoint> {
    layout_upto(prototype, location, stride, prototype.len() as int)
}

/// Whether the slot of some entry of `prototype` lies past `location_count`
/// when the first entry takes the slot `location`.
pub open spec fn out_of_slots(
    location_count: GLuint,
    location: GLuint,
    prototype: Seq<(Primitive, GLuint)>,
) -> bool {
    prototype.len() > 0 && location + prototype.len() - 1 > location_count
}

/// The first slot past `location_count` that is asked for when slots are
/// handed out from `location` upwards.
pub open spec fn first_slot_past(location_count: GLuint, location: GLuint) -> int {
    if location > location_count {
        location as int
    } else {
        location_count + 1
    }
}

/// What generating the attributes of `prototype` comes to, for an element of
/// `object_size` bytes, from the slot `location` on, with `location_count`
/// as the last slot there is. The sizes are held against each other first.
pub open spec fn generated(
    location_count: GLuint,
    object_size: GLuint,
    location: GLuint,
    prototype: Seq<(Primitive, GLuint)>,
) -> Result<Seq<AttributePoint>, Error> {
    if prototype_size(prototype) != object_size {
        Err(
            Error::LayoutError {
                prototype_size: prototype_size(prototype) as u128,
                object_size,
            },
        )
    } else if out_of_slots(location_count, location, prototype) {
        Err(
            Error::CapacityError {
                limit: location_count,
                slot: first_slot_past(location_count, location) as u64,
            },
        )
    } else {
        Ok(layout(prototype, location, object_size))
    }
}

/// What is known of a vertex array.
pub struct VaoState {
    /// The identity that the backend gave the vertex array.
    pub id: GLuint,
    /// The topology that it is drawn with.
    pub format: Format,
    /// The last attribute slot that it has.
    pub location_count: GLuint,
    /// The attributes that are recorded for each registered buffer, by the
    /// identity of the buffer.
    pub bindings: Map<GLuint, Seq<AttributePoint>>,
}

/// What registering a buffer comes to.
pub struct Registration {
    /// The vertex array after the call.
    pub state: VaoState,
    /// What the call returns.
    pub result: Result<Option<GLuint>, Error>,
    /// The calls that the backend is asked to make.
    pub calls: Seq<Command>,
}

impl VaoState {
    /// No recorded attribute takes a slot past the last one, the attributes
    /// of one buffer take slots that go up from one to the next, and the
    /// slot after the last one is a number.
    pub open spec fn wf(self) -> bool {
        &&& self.location_count < u32::MAX
        &&& forall|id: GLuint, i: int|
            self.bindings.contains_key(id) && 0 <= i < self.bindings[id].len()
                ==> #[trigger] self.bindings[id][i].location <= self.location_count
        &&& forall|id: GLuint, i: int, j: int|
            self.bindings.contains_key(id) && 0 <= i < j < self.bindings[id].len() ==> (
            #[trigger] self.bindings[id][i]).location < (#[trigger] self.bindings[id][j]).location
    }

    /// A vertex array that has just been created.
    pub open spec fn created(id: GLuint, format: Format, locations: GLuint) -> VaoState {
        VaoState { id, format, location_count: locations, bindings: Map::empty() }
    }

    /// The calls that make a new vertex array current and switch on its
    /// slots, from `0` up to but not including `location_count`.
    pub open spec fn enable_calls(self) -> Seq<Command> {
        seq![Command::BindVertexArray { id: self.id }] + Seq::new(
            self.location_count as nat,
            |i: int| Command::EnableVertexAttribArray { index: i as GLuint },
        )
    }

    /// Whether the buffer `buffer` is registered and its first attribute
    /// takes the slot `location`.
    pub open spec fn is_current(self, location: GLuint, buffer: GLuint) -> bool {
        &&& self.bindings.contains_key(buffer)
        &&& self.bindings[buffer].len() > 0
        &&& self.bindings[buffer][0].location == location
    }

    /// The calls that wire `bindings` to the buffer `vbo`: the vertex array
    /// and the buffer are made current, then each attribute is wired.
    pub open spec fn rebind_calls(self, vbo: BufferState, bindings: Seq<AttributePoint>) -> Seq<
        Command,
    > {
        seq![Command::BindVertexArray { id: self.id }, vbo.bind_call()] + bindings.map_values(
            |point: AttributePoint| Command::VertexAttribPointer { point },
        )
    }

    /// The calls that wire every entry of `prototype` without holding it
    /// against anything: for entry `i`, the slot `i` is switched on and the
    /// entry's attribute is wired to the slot `location + i`, with the bytes
    /// that the entries span together as the stride.
    pub open spec fn prototype_calls(prototype: Seq<(Primitive, GLuint)>, location: GLuint) -> Seq<
        Command,
    > {
        Seq::new(
            2 * prototype.len(),
            |k: int|
                if k % 2 == 0 {
                    Command::EnableVertexAttribArray { index: (k / 2) as GLuint }
                } else {
                    Command::VertexAttribPointer {
                        point: attribute_at(
                            prototype,
                            location,
                            prototype_size(prototype) as GLuint,
                            k / 2,
                        ),
                    }
                },
        )
    }

    /// The attribute that is `count` components of kind `primitive` with
    /// `pre_offset` bytes before it and `post_offset` bytes after it in the
    /// element. The backend is told that the components are floats.
    pub open spec fn lone_attribute(
        id: GLuint,
        pre_offset: GLuint,
        primitive: Primitive,
        count: GLuint,
        post_offset: GLuint,
    ) -> AttributePoint {
        AttributePoint {
            location: id,
            size: count,
            ty: Primitive::Float.spec_value(),
            normalized: 0,
            stride: (pre_offset + count * primitive.spec_size() + post_offset) as GLuint,
            offset: pre_offset,
        }
    }

    /// This vertex array with `bindings` recorded for `buffer`.
    pub open spec fn registered(self, buffer: GLuint, bindings: Seq<AttributePoint>) -> VaoState {
        VaoState { bindings: self.bindings.insert(buffer, bindings), ..self }
    }

    /// What registering the buffer `vbo` from the slot `location` on comes
    /// to.
    ///
    /// A buffer that is registered with its first attribute at `location`
    /// is left alone. A buffer that is registered otherwise has its recorded
    /// attributes wired again, as they are. A buffer that is not registered
    /// has its attributes generated, wired and recorded; what is returned
    /// then is the slot `location` plus the number of attributes.
    pub open spec fn bind_vbo(self, location: GLuint, vbo: BufferState) -> Registration {
        if self.is_current(location, vbo.id) {
            Registration { state: self, result: Ok(None), calls: Seq::empty() }
        } else if self.bindings.contains_key(vbo.id) {
            Registration {
                state: self,
                result: Ok(None),
                calls: self.rebind_calls(vbo, self.bindings[vbo.id]),
            }
        } else {
            match generated(self.location_count, vbo.element_size, location, vbo.prototype) {
                Ok(bindings) => Registration {
                    state: self.registered(vbo.id, bindings),
                    result: Ok(Some((location + bindings.len()) as GLuint)),
                    calls: self.rebind_calls(vbo, bindings),
                },
                Err(e) => Registration { state: self, result: Err(e), calls: Seq::empty() },
            }
        }
    }
}

/// The first `n` entries become at most `n` attributes. Each attribute comes
/// from an entry that is not `Nothing` and is that entry's attribute; the
/// attributes stand in the order of their entries.
pub proof fn lemma_layout_upto(
    prototype: Seq<(Primitive, GLuint)>,
    location: GLuint,
    stride: GLuint,
    n: int,
)
    requires
        0 <= n <= prototype.len(),
        location + n <= u32::MAX + 1,
    ensures
        layout_upto(prototype, location, stride, n).len() <= n,
        forall|j: int|
            0 <= j < layout_upto(prototype, location, stride, n).len() ==> {
                let point = #[trigger] layout_upto(prototype, location, stride, n)[j];
                let i = point.location - location;
                &&& j <= i < n
                &&& prototype[i].0 != Primitive::Nothing
                &&& point == attribute_at(prototype, location, stride, i)
            },
        forall|j: int, k: int|
            0 <= j < k < layout_upto(prototype, location, stride, n).len() ==> (
            #[trigger] layout_upto(prototype, location, stride, n)[j]).location < (
            #[trigger] layout_upto(prototype, location, stride, n)[k]).location,
    decreases n,
{
    if n > 0 {
        lemma_layout_upto(prototype, location, stride, n - 1);
    }
}

/// Where no entry is `Nothing`, every entry becomes an attribute, and the
/// attributes take consecutive slots from `location` on.
pub proof fn lemma_layout_upto_dense(
    prototype: Seq<(Primitive, GLuint)>,
    location: GLuint,
    stride: GLuint,
    n: int,
)
    requires
        0 <= n <= prototype.len(),
        forall|i: int| 0 <= i < n ==> (#[trigger] prototype[i]).0 != Primitive::Nothing,
    ensures
        layout_upto(prototype, location, stride, n).len() == n,
        forall|i: int|
            0 <= i < n ==> #[trigger] layout_upto(prototype, location, stride, n)[i]
                == attribute_at(prototype, location, stride, i),
    decreases n,
{
    if n > 0 {
        lemma_layout_upto_dense(prototype, location, stride, n - 1);
    }
}

/// Where the first entry is not `Nothing`, it becomes the first attribute,
/// which takes the slot `location`.
pub proof fn lemma_layout_starts_at_location(
    prototype: Seq<(Primitive, GLuint)>,
    location: GLuint,
    stride: GLuint,
    n: int,
)
    requires
        1 <= n <= prototype.len(),
        prototype[0].0 != Primitive::Nothing,
    ensures
        layout_upto(prototype, location, stride, n).len() >= 1,
        layout_upto(prototype, location, stride, n)[0] == attribute_at(
            prototype,
            location,
            stride,
            0,
        ),
        layout_upto(prototype, location, stride, n)[0].location == location,
    decreases n,
{
    if n > 1 {
        lemma_layout_starts_at_location(prototype, location, stride, n - 1);
    } else {
        assert(layout_upto(prototype, location, stride, 0) =~= Seq::empty());
    }
}

/// The layout belongs to the element, not to the place where it is wired:
/// from another slot on, the same entries become as many attributes, which
/// differ from the first ones in nothing but the slot, and in the slot by
/// as much as the first slots differ.
pub proof fn lemma_layout_moves_with_location(
    prototype: Seq<(Primitive, GLuint)>,
    location: GLuint,
    other: GLuint,
    stride: GLuint,
    n: int,
)
    requires
        0 <= n <= prototype.len(),
        location + n <= u32::MAX + 1,
        other + n <= u32::MAX + 1,
    ensures
        layout_upto(prototype, location, stride, n).len() == layout_upto(
            prototype,
            other,
            stride,
            n,
        ).len(),
        forall|j: int|
            0 <= j < layout_upto(prototype, location, stride, n).len() ==> {
                let here = #[trigger] layout_upto(prototype, location, stride, n)[j];
                let there = layout_upto(prototype, other, stride, n)[j];
                &&& there.location - other == here.location - location
                &&& there == AttributePoint { location: there.location, ..here }
            },
    decreases n,
{
    if n > 0 {
        lemma_layout_moves_with_location(prototype, location, other, stride, n - 1);
    }
}

/// What holds of the attributes that are generated: they take slots from
/// `location` up to the last slot, share the size of the element as their
/// stride, are not normalized, and lie within the element, one after the
/// other without a gap but for the entries that are `Nothing`.
pub proof fn lemma_generated_attributes(
    location_count: GLuint,
    object_size: GLuint,
    location: GLuint,
    prototype: Seq<(Primitive, GLuint)>,
)
    requires
        generated(location_count, object_size, location, prototype) is Ok,
    ensures
        ({
            let bindings = generated(location_count, object_size, location, prototype)->Ok_0;
            &&& bindings.len() <= prototype.len()
            &&& bindings.len() > 0 ==> location + bindings.len() <= location_count + 1
            &&& forall|j: int|
                0 <= j < bindings.len() ==> {
                    let point = #[trigger] bindings[j];
                    let i = point.location - location;
                    &&& j <= i < prototype.len()
                    &&& location <= point.location <= location_count
                    &&& prototype[i].0 != Primitive::Nothing
                    &&& point.size == prototype[i].1
                    &&& point.ty == prototype[i].0.spec_value()
                    &&& point.normalized == 0
                    &&& point.stride == object_size
                    &&& point.offset == bytes_before(prototype, i)
                    &&& point.offset + prototype[i].0.spec_size() * prototype[i].1
                        <= object_size
                }
            &&& forall|j: int, k: int|
                0 <= j < k < bindings.len() ==> (#[trigger] bindings[j]).location < (
                #[trigger] bindings[k]).location
        }),
{
    let n = prototype.len() as int;
    let bindings = layout(prototype, location, object_size);
    assert(generated(location_count, object_size, location, prototype) == Ok::<
        Seq<AttributePoint>,
        Error,
    >(bindings));
    lemma_layout_upto(prototype, location, object_size, n);
    assert forall|j: int| 0 <= j < bindings.len() implies {
        let point = #[trigger] bindings[j];
        let i = point.location - location;
        &&& j <= i < prototype.len()
        &&& location <= point.location <= location_count
        &&& prototype[i].0 != Primitive::Nothing
        &&& point.size == prototype[i].1
        &&& point.ty == prototype[i].0.spec_value()
        &&& point.normalized == 0
        &&& point.stride == object_size
        &&& point.offset == bytes_before(prototype, i)
        &&& point.offset + prototype[i].0.spec_size() * prototype[i].1 <= object_size
    } by {
        let point = bindings[j];
        let i = point.location - location;
        assert(point == attribute_at(prototype, location, object_size, i));
        crate::bufferdata::lemma_bytes_before_monotonic(prototype, i, n);
        crate::bufferdata::lemma_bytes_before_monotonic(prototype, i + 1, n);
        assert(bytes_before(prototype, i + 1) == bytes_before(prototype, i)
            + crate::bufferdata::entry_size(prototype[i]));
    }
}

/// Wiring the attributes of a buffer leaves the vertex array as the current
/// one, and the buffer as the current one of its target.
pub proof fn lemma_wiring_binds(
    state: VaoState,
    vbo: BufferState,
    bindings: Seq<AttributePoint>,
    before: Seq<Command>,
)
    ensures
        bound_vertex_array(before + state.rebind_calls(vbo, bindings)) == Some(state.id),
        bound_buffer(before + state.rebind_calls(vbo, bindings), vbo.kind.spec_value()) == Some(
            vbo.id,
        ),
{
    let pointers = bindings.map_values(
        |point: AttributePoint| Command::VertexAttribPointer { point },
    );
    let array = Command::BindVertexArray { id: state.id };
    let calls = before + state.rebind_calls(vbo, bindings);
    lemma_bound_buffer_stays(before.push(array), vbo.kind.spec_value(), vbo.id, pointers);
    assert(calls =~= before.push(array).push(vbo.bind_call()) + pointers);
    lemma_bound_vertex_array_stays(before, state.id, seq![vbo.bind_call()] + pointers);
    assert(calls =~= before.push(array) + (seq![vbo.bind_call()] + pointers));
}

/// Registering a buffer keeps a vertex array well-formed.
pub proof fn lemma_bind_vbo_preserves_wf(state: VaoState, location: GLuint, vbo: BufferState)
    requires
        state.wf(),
    ensures
        state.bind_vbo(location, vbo).state.wf(),
{
    let after = state.bind_vbo(location, vbo).state;
    if after != state {
        let bindings = generated(
            state.location_count,
            vbo.element_size,
            location,
            vbo.prototype,
        )->Ok_0;
        lemma_generated_attributes(state.location_count, vbo.element_size, location, vbo.prototype);
        assert forall|id: GLuint, i: int|
            after.bindings.contains_key(id) && 0 <= i < after.bindings[id].len() implies (
        #[trigger] after.bindings[id][i]).location <= after.location_count by {
            if id != vbo.id {
                assert(state.bindings.contains_key(id));
                assert(after.bindings[id] == state.bindings[id]);
            }
        }
        assert forall|id: GLuint, i: int, j: int|
            after.bindings.contains_key(id) && 0 <= i < j < after.bindings[id].len() implies (
        #[trigger] after.bindings[id][i]).location < (
        #[trigger] after.bindings[id][j]).location by {
            if id != vbo.id {
                assert(state.bindings.contains_key(id));
                assert(after.bindings[id] == state.bindings[id]);
            }
        }
    }
}

/// A registration returns a next free slot only for an element that its
/// attributes fill exactly. A buffer that is not registered and whose
/// attributes do not fill its element is turned down with a `LayoutError`
/// that names both sizes.
pub proof fn lemma_registration_needs_exact_layout(
    state: VaoState,
    location: GLuint,
    vbo: BufferState,
)
    ensures
        state.bind_vbo(location, vbo).result matches Ok(Some(_)) ==> prototype_size(
            vbo.prototype,
        ) == vbo.element_size,
        !state.bindings.contains_key(vbo.id) && prototype_size(vbo.prototype) != vbo.element_size
            ==> state.bind_vbo(location, vbo).result == Err::<Option<GLuint>, Error>(
            Error::LayoutError {
                prototype_size: prototype_size(vbo.prototype) as u128,
                object_size: vbo.element_size,
            },
        ),
{
}

/// A registration that fails leaves the vertex array as it was and asks
/// nothing of the backend. A buffer that is not registered, whose attributes
/// fill its element and would take a slot past the last one, is turned down
/// with a `CapacityError` that names the last slot and the first slot past
/// it that was asked for.
pub proof fn lemma_failed_registration_changes_nothing(
    state: VaoState,
    location: GLuint,
    vbo: BufferState,
)
    ensures
        state.bind_vbo(location, vbo).result is Err ==> {
            &&& state.bind_vbo(location, vbo).state == state
            &&& state.bind_vbo(location, vbo).calls == Seq::<Command>::empty()
        },
        !state.bindings.contains_key(vbo.id) && prototype_size(vbo.prototype) == vbo.element_size
            && out_of_slots(state.location_count, location, vbo.prototype) ==> state.bind_vbo(
            location,
            vbo,
        ).result == Err::<Option<GLuint>, Error>(
            Error::CapacityError {
                limit: state.location_count,
                slot: first_slot_past(state.location_count, location) as u64,
            },
        ),
{
}

/// Registering a buffer a second time from the same slot on does nothing:
/// the vertex array stays as the first registration left it, and nothing is
/// asked of the backend.
///
/// This is so where the first entry of the prototype becomes an attribute.
/// A prototype that starts with `Nothing` has its first attribute at a later
/// slot, and a prototype without attributes has none.
pub proof fn lemma_registering_twice_does_nothing(
    state: VaoState,
    location: GLuint,
    vbo: BufferState,
)
    requires
        state.bind_vbo(location, vbo).result matches Ok(Some(_)),
        vbo.prototype.len() > 0,
        vbo.prototype[0].0 != Primitive::Nothing,
    ensures
        ({
            let first = state.bind_vbo(location, vbo);
            let second = first.state.bind_vbo(location, vbo);
            &&& second.state == first.state
            &&& second.result == Ok::<Option<GLuint>, Error>(None)
            &&& second.calls == Seq::<Command>::empty()
        }),
{
    lemma_layout_starts_at_location(
        vbo.prototype,
        location,
        vbo.element_size,
        vbo.prototype.len() as int,
    );
}

/// Registering a buffer again from another slot on generates nothing anew:
/// the vertex array stays as the first registration left it, and what is
/// asked of the backend is what the first registration asked, attribute by
/// attribute, with the offsets and strides of the first registration.
///
/// Where the other slot is the slot of the first attribute, nothing is asked
/// at all; this comes about only where the prototype starts with `Nothing`.
pub proof fn lemma_registering_elsewhere_reuses_layout(
    state: VaoState,
    location: GLuint,
    other: GLuint,
    vbo: BufferState,
)
    requires
        state.bind_vbo(location, vbo).result matches Ok(Some(_)),
    ensures
        ({
            let first = state.bind_vbo(location, vbo);
            let second = first.state.bind_vbo(other, vbo);
            &&& second.state == first.state
            &&& second.result == Ok::<Option<GLuint>, Error>(None)
            &&& second.calls == first.calls || second.calls == Seq::<Command>::empty()
            &&& other != location && vbo.prototype.len() > 0 && vbo.prototype[0].0
                != Primitive::Nothing ==> second.calls == first.calls
            &&& first.calls == first.state.rebind_calls(
                vbo,
                layout(vbo.prototype, location, vbo.element_size),
            )
        }),
{
    let first = state.bind_vbo(location, vbo);
    assert(first.state.rebind_calls(vbo, first.state.bindings[vbo.id]) == state.rebind_calls(
        vbo,
        first.state.bindings[vbo.id],
    ));
    if vbo.prototype.len() > 0 && vbo.prototype[0].0 != Primitive::Nothing {
        lemma_layout_starts_at_location(
            vbo.prototype,
            location,
            vbo.element_size,
            vbo.prototype.len() as int,
        );
    }
}

/// A handle to a vertex array of the rendering backend, with the table of
/// the buffers that are registered with it.
#[derive(Debug)]
pub struct Vao {
    id: GLuint,
    format: Format,
    bindings: HashMap<GLuint, Vec<AttributePoint>>,
    location_count: GLuint,
}

impl View for Vao {
    type V = VaoState;

    closed spec fn view(&self) -> VaoState {
        VaoState {
            id: self.id,
            format: self.format,
            location_count: self.location_count,
            bindings: Map::new(
                |id: GLuint| self.bindings@.contains_key(id),
                |id: GLuint| self.bindings@[id]@,
            ),
        }
    }
}

impl Vao {
    pub open spec fn wf(&self) -> bool {
        self@.wf()
    }

    /// Records a vertex array under the identity `id`, which the backend has
    /// generated, and asks for it to be made current and for its slots to be
    /// switched on.
    ///
    /// `locations` is the last slot that an attribute may take. The slot
    /// after it has to be a number, so it is less than `u32::MAX`.
    pub fn new(id: GLuint, format: Format, locations: GLuint, calls: &mut Vec<Command>) -> (r: Vao)
        requires
            locations < u32::MAX,
        ensures
            r.wf(),
            r@ == VaoState::created(id, format, locations),
            final(calls)@ == old(calls)@ + r@.enable_calls(),
    {
        let vao = Vao { id, format, bindings: HashMap::new(), location_count: locations };
        assert(vao@.bindings =~= Map::empty());
        vao.bind(calls);
        let mut i: GLuint = 0;
        while i < locations
            invariant
                i <= locations,
                vao@ == VaoState::created(id, format, locations),
                calls@ == old(calls)@ + seq![Command::BindVertexArray { id }] + Seq::new(
                    i as nat,
                    |k: int| Command::EnableVertexAttribArray { index: k as GLuint },
                ),
            decreases locations - i,
        {
            calls.push(Command::EnableVertexAttribArray { index: i });
            i += 1;
        }
        assert(calls@ =~= old(calls)@ + vao@.enable_calls());
        vao
    }

    pub fn id(&self) -> (r: GLuint)
        ensures
            r == self@.id,
    {
        self.id
    }

    /// The topology that the vertex array is drawn with.
    pub fn format(&self) -> (r: Format)
        ensures
            r == self@.format,
    {
        self.format
    }

    /// The last attribute slot that the vertex array has.
    pub fn location_count(&self) -> (r: GLuint)
        ensures
            r == self@.location_count,
    {
        self.location_count
    }

    /// The attributes that are recorded for the buffer `buffer`, if it is
    /// registered.
    pub fn bindings(&self, buffer: GLuint) -> (r: Option<&Vec<AttributePoint>>)
        ensures
            match r {
                Some(bindings) => self@.bindings.contains_key(buffer) && bindings@
                    == self@.bindings[buffer],
                None => !self@.bindings.contains_key(buffer),
            },
    {
        broadcast use vstd::std_specs::hash::group_hash_axioms;

        self.bindings.get(&buffer)
    }

    /// Asks for the vertex array to be made the current one.
    pub fn bind(&self, calls: &mut Vec<Command>)
        ensures
            final(calls)@ == old(calls)@.push(Command::BindVertexArray { id: self@.id }),
    {
        calls.push(Command::BindVertexArray { id: self.id });
    }

    /// Registers the buffer `vbo` from the slot `location` on.
    ///
    /// A buffer whose first recorded attribute takes the slot `location` is
    /// left alone: nothing is asked of the backend. A buffer that is recorded
    /// otherwise has its recorded attributes wired again, as they were
    /// generated. In both cases `None` is returned. A buffer that is not
    /// recorded has its attributes generated, wired and recorded, and the
    /// slot `location` plus the number of attributes is returned. Where the
    /// attributes cannot be generated, nothing is recorded and nothing is
    /// asked of the backend.
    pub fn bind_vbo(&mut self, location: GLuint, vbo: &Buffer, calls: &mut Vec<Command>) -> (r:
        Result<Option<GLuint>, Error>)
        requires
            old(self).wf(),
        ensures
            final(self).wf(),
            final(self)@ == old(self)@.bind_vbo(location, vbo@).state,
            r == old(self)@.bind_vbo(location, vbo@).result,
            final(calls)@ == old(calls)@ + old(self)@.bind_vbo(location, vbo@).calls,
    {
        broadcast use vstd::std_specs::hash::group_hash_axioms;

        let id = vbo.id();
        match self.bindings.get(&id) {
            Some(bindings) => {
                if bindings.len() == 0 || bindings[0].location != location {
                    self.rebind_vbo(vbo, bindings, calls);
                } else {
                    assert(calls@ =~= old(calls)@ + Seq::<Command>::empty());
                }
                return Ok(None);
            },
            None => {},
        }
        let element = vbo.element();
        let bindings = match self.generate_binding(element.size, location, &element.prototype) {
            Ok(bindings) => bindings,
            Err(e) => {
                assert(calls@ =~= old(calls)@ + Seq::<Command>::empty());
                return Err(e);
            },
        };
        proof {
            lemma_layout_upto(
                vbo@.prototype,
                location,
                vbo@.element_size,
                vbo@.prototype.len() as int,
            );
        }
        self.rebind_vbo(vbo, &bindings, calls);
        let next = location + bindings.len() as GLuint;
        let ghost recorded = bindings@;
        self.bindings.insert(id, bindings);
        assert(self@.bindings =~= old(self)@.bindings.insert(id, recorded));
        Ok(Some(next))
    }

    /// Asks for `bindings` to be wired to the buffer `vbo`, after the vertex
    /// array and the buffer have been made current.
    fn rebind_vbo(&self, vbo: &Buffer, bindings: &Vec<AttributePoint>, calls: &mut Vec<Command>)
        ensures
            final(calls)@ == old(calls)@ + self@.rebind_calls(vbo@, bindings@),
    {
        self.bind(calls);
        vbo.bind(calls);
        let mut i: usize = 0;
        while i < bindings.len()
            invariant
                i <= bindings.len(),
                calls@ == old(calls)@ + self@.rebind_calls(vbo@, bindings@.take(i as int)),
            decreases bindings.len() - i,
        {
            calls.push(Command::VertexAttribPointer { point: bindings[i] });
            assert(calls@ =~= old(calls)@ + self@.rebind_calls(
                vbo@,
                bindings@.take(i + 1 as int),
            ));
            i += 1;
        }
        assert(bindings@.take(i as int) =~= bindings@);
    }

    /// Lays the attributes of `prototype` out for an element of
    /// `object_size` bytes, with the first entry at the slot `location`.
    ///
    /// The entries have to fill the element exactly. Each entry takes the
    /// next slot, and no slot may lie past the last one of the vertex array.
    /// The attributes are packed: each starts where the one before it ends,
    /// and all of them have the size of the element as their stride.
    pub fn generate_binding(
        &self,
        object_size: GLuint,
        location: GLuint,
        prototype: &Vec<(Primitive, GLuint)>,
    ) -> (r: Result<Vec<AttributePoint>, Error>)
        ensures
            match r {
                Ok(bindings) => generated(self@.location_count, object_size, location, prototype@)
                    == Ok::<Seq<AttributePoint>, Error>(bindings@),
                Err(e) => generated(self@.location_count, object_size, location, prototype@)
                    == Err::<Seq<AttributePoint>, Error>(e),
            },
    {
        let size = prototype_len(prototype);
        if size != object_size as u128 {
            return Err(Error::LayoutError { prototype_size: size, object_size });
        }
        let mut offset: GLuint = 0;
        let mut bindings: Vec<AttributePoint> = Vec::new();
        let mut id: usize = 0;
        while id < prototype.len()
            invariant
                id <= prototype.len(),
                prototype_size(prototype@) == object_size,
                offset == bytes_before(prototype@, id as int),
                bindings@ == layout_upto(prototype@, location, object_size, id as int),
                id > 0 ==> location + id - 1 <= self.location_count,
            decreases prototype.len() - id,
        {
            if id as u64 + location as u64 > self.location_count as u64 {
                return Err(
                    Error::CapacityError {
                        limit: self.location_count,
                        slot: id as u64 + location as u64,
                    },
                );
            }
            let (ty, count) = prototype[id];
            proof {
                crate::bufferdata::lemma_bytes_before_monotonic(
                    prototype@,
                    id + 1,
                    prototype@.len() as int,
                );
            }
            match ty {
                Primitive::Nothing => {},
                _ => {
                    bindings.push(
                        AttributePoint {
                            location: id as GLuint + location,
                            size: count,
                            ty: ty.value(),
                            normalized: gl_false(),
                            stride: object_size,
                            offset,
                        },
                    );
                },
            }
            offset = offset + ty.size() * count;
            id += 1;
        }
        Ok(bindings)
    }

    /// Asks for every entry of `prototype` to be wired to the current array
    /// buffer, the first entry to the slot `location`, after the vertex array
    /// has been made current. Nothing is held against anything and nothing
    /// is recorded; an entry of kind `Nothing` is wired like any other.
    ///
    /// The bytes that the entries span together, and the slot of each entry,
    /// have to be numbers of 32 bits.
    pub fn bind_prototype(
        &self,
        location: GLuint,
        prototype: &Vec<(Primitive, GLuint)>,
        calls: &mut Vec<Command>,
    )
        requires
            prototype_size(prototype@) <= u32::MAX,
            location + prototype@.len() <= u32::MAX + 1,
        ensures
            final(calls)@ == old(calls)@.push(Command::BindVertexArray { id: self@.id })
                + VaoState::prototype_calls(prototype@, location),
    {
        let size = prototype_len(prototype) as GLuint;
        self.bind(calls);
        let ghost bound = calls@;
        let mut offset: GLuint = 0;
        let mut id: usize = 0;
        while id < prototype.len()
            invariant
                id <= prototype.len(),
                location + prototype@.len() <= u32::MAX + 1,
                size == prototype_size(prototype@),
                offset == bytes_before(prototype@, id as int),
                calls@ == bound + VaoState::prototype_calls(prototype@, location).take(2 * id),
            decreases prototype.len() - id,
        {
            let (ty, count) = prototype[id];
            proof {
                crate::bufferdata::lemma_bytes_before_monotonic(
                    prototype@,
                    id + 1,
                    prototype@.len() as int,
                );
            }
            calls.push(Command::EnableVertexAttribArray { index: id as GLuint });
            calls.push(
                Command::VertexAttribPointer {
                    point: AttributePoint {
                        location: id as GLuint + location,
                        size: count,
                        ty: ty.value(),
                        normalized: gl_false(),
                        stride: size,
                        offset,
                    },
                },
            );
            assert(calls@ =~= bound + VaoState::prototype_calls(prototype@, location).take(
                2 * (id + 1),
            ));
            offset = offset + ty.size() * count;
            id += 1;
        }
        assert(VaoState::prototype_calls(prototype@, location).take(2 * id)
            =~= VaoState::prototype_calls(prototype@, location));
    }

    /// Asks for one attribute to be wired to the current array buffer at the
    /// slot `id`, after the vertex array has been made current and the slot
    /// has been switched on. The element is `pre_offset` bytes, then `count`
    /// components of kind `primitive`, then `post_offset` bytes.
    ///
    /// The size of the element has to be a number of 32 bits.
    pub fn bind_attribute(
        &self,
        id: GLuint,
        pre_offset: GLuint,
        primitive: Primitive,
        count: GLuint,
        post_offset: GLuint,
        calls: &mut Vec<Command>,
    )
        requires
            pre_offset + count * primitive.spec_size() + post_offset <= u32::MAX,
        ensures
            final(calls)@ == old(calls)@ + seq![
                Command::BindVertexArray { id: self@.id },
                Command::EnableVertexAttribArray { index: id },
                Command::VertexAttribPointer {
                    point: VaoState::lone_attribute(id, pre_offset, primitive, count, post_offset),
                },
            ],
    {
        self.bind(calls);
        calls.push(Command::EnableVertexAttribArray { index: id });
        calls.push(
            Command::VertexAttribPointer {
                point: AttributePoint {
                    location: id,
                    size: count,
                    ty: crate::glenum::gl_float(),
                    normalized: gl_false(),
                    stride: pre_offset + count * primitive.size() + post_offset,
                    offset: pre_offset,
                },
            },
        );
        assert(calls@ =~= old(calls)@ + seq![
            Command::BindVertexArray { id: self@.id },
            Command::EnableVertexAttribArray { index: id },
            Command::VertexAttribPointer {
                point: VaoState::lone_attribute(id, pre_offset, primitive, count, post_offset),
            },
        ]);
    }

    /// Asks for `len` vertices to be drawn from vertex `i0` on.
    pub fn draw_arrays(&self, i0: GLuint, len: GLuint, calls: &mut Vec<Command>)
        ensures
            final(calls)@ == old(calls)@.push(
                Command::DrawArrays { mode: self@.format.spec_value(), first: i0, count: len },
            ),
    {
        calls.push(Command::DrawArrays { mode: self.format.value(), first: i0, count: len });
    }

    /// Asks for `len` vertices to be drawn that the indices of kind `ty`
    /// pick, from byte `i0` of the current index storage on.
    pub fn draw_elements(&self, len: GLuint, ty: Primitive, i0: GLuint, calls: &mut Vec<Command>)
        ensures
            final(calls)@ == old(calls)@.push(
                Command::DrawElements {
                    mode: self@.format.spec_value(),
                    count: len,
                    ty: ty.spec_value(),
                    first: i0,
                },
            ),
    {
        calls.push(
            Command::DrawElements {
                mode: self.format.value(),
                count: len,
                ty: ty.value(),
                first: i0,
            },
        );
    }

    /// Gives the vertex array up and asks for it to be freed.
    pub fn delete(self, calls: &mut Vec<Command>)
        ensures
            final(calls)@ == old(calls)@.push(Command::DeleteVertexArrays { id: self@.id }),
    {
        calls.push(Command::DeleteVertexArrays { id: self.id });
    }
}

} // verus!
