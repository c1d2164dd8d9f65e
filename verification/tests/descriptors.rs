use simple_gl::bufferdata::{prototype_len, BufferData, ElementType};
use simple_gl::buffertype::{BufferAcces, BufferType};
use simple_gl::format::Format;
use simple_gl::primitive::{IndexPrimitive, Primitive};
use simple_gl::{clamp, get_value};

struct QuadVertex {
    position: [f32; 2],
    weight: f32,
}

impl BufferData for QuadVertex {
    fn prototype() -> Vec<(Primitive, u32)> {
        vec![(Primitive::Float, 2), (Primitive::Float, 1)]
    }
}

#[test]
fn primitive_values_are_those_of_the_bindings() {
    assert_eq!(Primitive::Byte.value(), gl::BYTE);
    assert_eq!(Primitive::UByte.value(), gl::UNSIGNED_BYTE);
    assert_eq!(Primitive::Short.value(), gl::SHORT);
    assert_eq!(Primitive::UShort.value(), gl::UNSIGNED_SHORT);
    assert_eq!(Primitive::Int.value(), gl::INT);
    assert_eq!(Primitive::UInt.value(), gl::UNSIGNED_INT);
    assert_eq!(Primitive::Float.value(), gl::FLOAT);
    assert_eq!(Primitive::Double.value(), gl::DOUBLE);
}

#[test]
fn primitive_values_are_the_registry_numbers() {
    assert_eq!(Primitive::Byte.value(), 0x1400);
    assert_eq!(Primitive::UByte.value(), 0x1401);
    assert_eq!(Primitive::Short.value(), 0x1402);
    assert_eq!(Primitive::UShort.value(), 0x1403);
    assert_eq!(Primitive::Int.value(), 0x1404);
    assert_eq!(Primitive::UInt.value(), 0x1405);
    assert_eq!(Primitive::Float.value(), 0x1406);
    assert_eq!(Primitive::Double.value(), 0x140A);
    assert_eq!(Primitive::Nothing.value(), 0);
}

#[test]
fn primitive_sizes_are_those_of_the_scalars() {
    assert_eq!(Primitive::Byte.size() as usize, std::mem::size_of::<i8>());
    assert_eq!(Primitive::UByte.size() as usize, std::mem::size_of::<u8>());
    assert_eq!(Primitive::Short.size() as usize, std::mem::size_of::<i16>());
    assert_eq!(Primitive::UShort.size() as usize, std::mem::size_of::<u16>());
    assert_eq!(Primitive::Int.size() as usize, std::mem::size_of::<i32>());
    assert_eq!(Primitive::UInt.size() as usize, std::mem::size_of::<u32>());
    assert_eq!(Primitive::Float.size() as usize, std::mem::size_of::<f32>());
    assert_eq!(Primitive::Double.size() as usize, std::mem::size_of::<f64>());
    assert_eq!(Primitive::Nothing.size(), 1);
}

#[test]
fn format_values_are_those_of_the_bindings() {
    assert_eq!(Format::Points.value(), gl::POINTS);
    assert_eq!(Format::LineStrip.value(), gl::LINE_STRIP);
    assert_eq!(Format::LineLoop.value(), gl::LINE_LOOP);
    assert_eq!(Format::Lines.value(), gl::LINES);
    assert_eq!(Format::LineStripAdj.value(), gl::LINE_STRIP_ADJACENCY);
    assert_eq!(Format::LinesAdj.value(), gl::LINES_ADJACENCY);
    assert_eq!(Format::TriangleStrip.value(), gl::TRIANGLE_STRIP);
    assert_eq!(Format::TriangleFan.value(), gl::TRIANGLE_FAN);
    assert_eq!(Format::Triangles.value(), gl::TRIANGLES);
    assert_eq!(Format::TriangleStripAdj.value(), gl::TRIANGLE_STRIP_ADJACENCY);
    assert_eq!(Format::TriangleAdj.value(), gl::TRIANGLES_ADJACENCY);
    assert_eq!(Format::Patches.value(), gl::PATCHES);
    assert_eq!(Format::Quard.value(), gl::QUADS);
}

#[test]
fn format_values_are_the_registry_numbers() {
    assert_eq!(Format::Points.value(), 0x0000);
    assert_eq!(Format::Lines.value(), 0x0001);
    assert_eq!(Format::LineLoop.value(), 0x0002);
    assert_eq!(Format::LineStrip.value(), 0x0003);
    assert_eq!(Format::Triangles.value(), 0x0004);
    assert_eq!(Format::TriangleStrip.value(), 0x0005);
    assert_eq!(Format::TriangleFan.value(), 0x0006);
    assert_eq!(Format::Quard.value(), 0x0007);
    assert_eq!(Format::LinesAdj.value(), 0x000A);
    assert_eq!(Format::LineStripAdj.value(), 0x000B);
    assert_eq!(Format::TriangleAdj.value(), 0x000C);
    assert_eq!(Format::TriangleStripAdj.value(), 0x000D);
    assert_eq!(Format::Patches.value(), 0x000E);
}

#[test]
fn buffer_targets_and_usages_are_those_of_the_bindings() {
    assert_eq!(BufferType::ArrayBuffer.value(), gl::ARRAY_BUFFER);
    assert_eq!(BufferType::ElementArrayBuffer.value(), gl::ELEMENT_ARRAY_BUFFER);
    assert_eq!(BufferAcces::StaticBuffer.value(), gl::STATIC_DRAW);
    assert_eq!(BufferAcces::DynamicBuffer.value(), gl::DYNAMIC_DRAW);
    assert_eq!(BufferType::ArrayBuffer.value(), 0x8892);
    assert_eq!(BufferType::ElementArrayBuffer.value(), 0x8893);
    assert_eq!(BufferAcces::StaticBuffer.value(), 0x88E4);
    assert_eq!(BufferAcces::DynamicBuffer.value(), 0x88E8);
}

#[test]
fn element_type_of_a_declared_struct() {
    let e = ElementType::of::<QuadVertex>();
    assert_eq!(e.size, 12);
    assert_eq!(e.prototype, vec![(Primitive::Float, 2), (Primitive::Float, 1)]);
    assert_eq!(prototype_len(&e.prototype), 12);
    let v = QuadVertex { position: [0.5, 0.25], weight: 1.0 };
    assert_eq!(v.position[0] + v.position[1] + v.weight, 1.75);
}

#[test]
fn element_types_of_the_integer_scalars() {
    assert_eq!(ElementType::of::<i8>(), ElementType::new(1, vec![(Primitive::Byte, 1)]));
    assert_eq!(ElementType::of::<u8>(), ElementType::new(1, vec![(Primitive::UByte, 1)]));
    assert_eq!(ElementType::of::<i16>(), ElementType::new(2, vec![(Primitive::Short, 1)]));
    assert_eq!(ElementType::of::<u16>(), ElementType::new(2, vec![(Primitive::UShort, 1)]));
    assert_eq!(ElementType::of::<i32>(), ElementType::new(4, vec![(Primitive::Int, 1)]));
    assert_eq!(ElementType::of::<u32>(), ElementType::new(4, vec![(Primitive::UInt, 1)]));
}

#[test]
fn element_types_of_the_integer_arrays() {
    assert_eq!(ElementType::of::<[i16; 2]>(), ElementType::new(4, vec![(Primitive::Short, 2)]));
    assert_eq!(ElementType::of::<[i16; 3]>(), ElementType::new(6, vec![(Primitive::Short, 3)]));
    assert_eq!(ElementType::of::<[i16; 4]>(), ElementType::new(8, vec![(Primitive::Short, 4)]));
    assert_eq!(ElementType::of::<[u16; 2]>(), ElementType::new(4, vec![(Primitive::UShort, 2)]));
    assert_eq!(ElementType::of::<[u16; 3]>(), ElementType::new(6, vec![(Primitive::UShort, 3)]));
    assert_eq!(ElementType::of::<[u16; 4]>(), ElementType::new(8, vec![(Primitive::UShort, 4)]));
    assert_eq!(ElementType::of::<[i32; 2]>(), ElementType::new(8, vec![(Primitive::Int, 2)]));
    assert_eq!(ElementType::of::<[i32; 3]>(), ElementType::new(12, vec![(Primitive::Int, 3)]));
    assert_eq!(ElementType::of::<[i32; 4]>(), ElementType::new(16, vec![(Primitive::Int, 4)]));
    assert_eq!(ElementType::of::<[u32; 2]>(), ElementType::new(8, vec![(Primitive::UInt, 2)]));
    assert_eq!(ElementType::of::<[u32; 3]>(), ElementType::new(12, vec![(Primitive::UInt, 3)]));
    assert_eq!(ElementType::of::<[u32; 4]>(), ElementType::new(16, vec![(Primitive::UInt, 4)]));
}

#[test]
fn the_integer_element_types_fill_their_elements() {
    let all = vec![
        ElementType::of::<i8>(),
        ElementType::of::<u16>(),
        ElementType::of::<i32>(),
        ElementType::of::<[i16; 3]>(),
        ElementType::of::<[u32; 4]>(),
    ];
    for e in all {
        assert_eq!(prototype_len(&e.prototype), e.size as u128);
    }
}

#[test]
fn prototype_len_adds_up_the_spans() {
    assert_eq!(prototype_len(&vec![]), 0);
    assert_eq!(prototype_len(&vec![(Primitive::Double, 3)]), 24);
    assert_eq!(prototype_len(&vec![(Primitive::Nothing, 5)]), 5);
    assert_eq!(
        prototype_len(&vec![(Primitive::Byte, 3), (Primitive::Short, 2), (Primitive::Float, 4)]),
        3 + 4 + 16
    );
    assert_eq!(prototype_len(&vec![(Primitive::Float, 0), (Primitive::UInt, 1)]), 4);
}

#[test]
fn prototype_len_does_not_wrap() {
    let p = vec![(Primitive::Double, u32::MAX), (Primitive::Double, u32::MAX)];
    assert_eq!(prototype_len(&p), 2 * 8 * (u32::MAX as u128));
    let q = vec![(Primitive::Int, 0x4000_0000)];
    assert_eq!(prototype_len(&q), 0x1_0000_0000);
}

#[test]
fn clamp_restricts_to_the_range() {
    assert_eq!(clamp(0.0, 1.0, 1.5), 1.0);
    assert_eq!(clamp(0.0, 1.0, -0.5), 0.0);
    assert_eq!(clamp(0.0, 1.0, 0.25), 0.25);
    assert_eq!(clamp(0.0, 1.0, 0.0), 0.0);
    assert_eq!(clamp(0.0, 1.0, 1.0), 1.0);
    assert_eq!(clamp(0, 10, 11), 10);
    assert_eq!(clamp(0, 10, -1), 0);
    assert_eq!(clamp(0, 10, 7), 7);
}

#[test]
fn clamp_looks_at_the_upper_bound_first() {
    assert_eq!(clamp(5, 3, 4), 3);
    assert_eq!(clamp(5, 3, 2), 5);
    assert_eq!(clamp(5, 3, 3), 5);
}

#[test]
fn clamp_hands_back_what_cannot_be_ordered() {
    assert!(clamp(0.0, 1.0, f64::NAN).is_nan());
}

#[test]
fn get_value_returns_what_the_callback_left() {
    assert_eq!(get_value(0u32, |id: &mut u32| *id = 7), 7);
    assert_eq!(get_value(1i32, |_: &mut i32| ()), 1);
    assert_eq!(get_value(vec![1, 2], |v: &mut Vec<i32>| v.push(3)), vec![1, 2, 3]);
}

#[test]
fn index_types_have_the_tags_of_their_kinds() {
    assert_eq!(<u8 as IndexPrimitive>::value(), gl::UNSIGNED_BYTE);
    assert_eq!(<i16 as IndexPrimitive>::value(), gl::SHORT);
    assert_eq!(<u16 as IndexPrimitive>::value(), gl::UNSIGNED_SHORT);
    assert_eq!(<i32 as IndexPrimitive>::value(), gl::INT);
    assert_eq!(<u32 as IndexPrimitive>::value(), gl::UNSIGNED_INT);
    assert_eq!(<u32 as IndexPrimitive>::value(), Primitive::UInt.value());
    assert_eq!(<u16 as IndexPrimitive>::value(), 0x1403);
}
