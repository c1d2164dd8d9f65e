use simple_gl::buffer::Buffer;
use simple_gl::bufferdata::ElementType;
use simple_gl::buffertype::{BufferAcces, BufferType};
use simple_gl::command::Command;
use simple_gl::error::Error;
use simple_gl::primitive::Primitive;

fn quad_vertex() -> ElementType {
    ElementType::new(12, vec![(Primitive::Float, 2), (Primitive::Float, 1)])
}

fn dynamic_quad(id: u32, calls: &mut Vec<Command>) -> Buffer {
    Buffer::new(id, BufferType::ArrayBuffer, BufferAcces::DynamicBuffer, quad_vertex(), 4, calls)
        .unwrap()
}

fn static_quad(id: u32, calls: &mut Vec<Command>) -> Buffer {
    Buffer::new(id, BufferType::ArrayBuffer, BufferAcces::StaticBuffer, quad_vertex(), 4, calls)
        .unwrap()
}

#[test]
fn a_new_buffer_is_bound_and_uploaded() {
    let mut calls = Vec::new();
    let buffer = dynamic_quad(7, &mut calls);
    assert_eq!(buffer.id(), 7);
    assert_eq!(buffer.kind(), BufferType::ArrayBuffer);
    assert_eq!(buffer.acces(), BufferAcces::DynamicBuffer);
    assert_eq!(buffer.len(), 4);
    assert_eq!(buffer.capacity(), 4);
    assert!(!buffer.is_mapped());
    assert_eq!(buffer.element(), &quad_vertex());
    assert_eq!(
        calls,
        vec![
            Command::BindBuffer { target: gl::ARRAY_BUFFER, id: 7 },
            Command::BufferData { target: gl::ARRAY_BUFFER, size: 48, usage: gl::DYNAMIC_DRAW },
        ]
    );
}

#[test]
fn a_new_index_buffer_goes_to_the_index_target() {
    let mut calls = vec![Command::BindVertexArray { id: 1 }];
    let buffer = Buffer::new(
        3,
        BufferType::ElementArrayBuffer,
        BufferAcces::StaticBuffer,
        ElementType::of::<u32>(),
        6,
        &mut calls,
    )
    .unwrap();
    assert_eq!(buffer.len(), 6);
    assert_eq!(
        calls,
        vec![
            Command::BindVertexArray { id: 1 },
            Command::BindBuffer { target: gl::ELEMENT_ARRAY_BUFFER, id: 3 },
            Command::BufferData {
                target: gl::ELEMENT_ARRAY_BUFFER,
                size: 24,
                usage: gl::STATIC_DRAW,
            },
        ]
    );
}

#[test]
fn an_empty_buffer_can_be_created() {
    let mut calls = Vec::new();
    let buffer = Buffer::new(
        9,
        BufferType::ArrayBuffer,
        BufferAcces::DynamicBuffer,
        quad_vertex(),
        0,
        &mut calls,
    )
    .unwrap();
    assert_eq!(buffer.len(), 0);
    assert_eq!(buffer.capacity(), 0);
    assert_eq!(
        calls[1],
        Command::BufferData { target: gl::ARRAY_BUFFER, size: 0, usage: gl::DYNAMIC_DRAW }
    );
}

#[test]
fn no_identity_is_an_allocation_error() {
    let mut calls = vec![Command::BindVertexArray { id: 1 }];
    let r = Buffer::new(
        0,
        BufferType::ArrayBuffer,
        BufferAcces::DynamicBuffer,
        quad_vertex(),
        4,
        &mut calls,
    );
    assert_eq!(r.unwrap_err(), Error::AllocationError);
    assert_eq!(calls, vec![Command::BindVertexArray { id: 1 }]);
}

#[test]
fn more_bytes_than_can_be_asked_for_is_an_allocation_error() {
    let mut calls = Vec::new();
    let r = Buffer::new(
        5,
        BufferType::ArrayBuffer,
        BufferAcces::DynamicBuffer,
        quad_vertex(),
        usize::MAX,
        &mut calls,
    );
    assert_eq!(r.unwrap_err(), Error::AllocationError);
    let r = Buffer::new(
        5,
        BufferType::ArrayBuffer,
        BufferAcces::DynamicBuffer,
        ElementType::of::<u16>(),
        isize::MAX as usize / 2 + 1,
        &mut calls,
    );
    assert_eq!(r.unwrap_err(), Error::AllocationError);
    assert!(calls.is_empty());
}

#[test]
fn the_most_bytes_that_can_be_asked_for_are_granted() {
    let mut calls = Vec::new();
    let len = isize::MAX as usize / 2;
    let buffer = Buffer::new(
        5,
        BufferType::ArrayBuffer,
        BufferAcces::DynamicBuffer,
        ElementType::of::<u16>(),
        len,
        &mut calls,
    )
    .unwrap();
    assert_eq!(buffer.capacity(), len);
    assert_eq!(
        calls[1],
        Command::BufferData { target: gl::ARRAY_BUFFER, size: len * 2, usage: gl::DYNAMIC_DRAW }
    );
}

#[test]
fn bind_asks_for_the_buffer_at_its_target() {
    let mut calls = Vec::new();
    let buffer = dynamic_quad(7, &mut calls);
    calls.clear();
    buffer.bind(&mut calls);
    assert_eq!(calls, vec![Command::BindBuffer { target: gl::ARRAY_BUFFER, id: 7 }]);
}

#[test]
fn update_overwrites_a_range_and_records_its_length() {
    let mut calls = Vec::new();
    let mut buffer = dynamic_quad(7, &mut calls);
    calls.clear();
    assert_eq!(buffer.update(2, 1, &mut calls), Ok(()));
    assert_eq!(buffer.len(), 2);
    assert_eq!(buffer.capacity(), 4);
    assert_eq!(
        calls,
        vec![
            Command::BindBuffer { target: gl::ARRAY_BUFFER, id: 7 },
            Command::BufferSubData { target: gl::ARRAY_BUFFER, offset: 12, size: 24 },
        ]
    );
}

#[test]
fn update_may_reach_the_end_of_the_allocation() {
    let mut calls = Vec::new();
    let mut buffer = dynamic_quad(7, &mut calls);
    assert_eq!(buffer.update(1, 3, &mut calls), Ok(()));
    assert_eq!(buffer.update(4, 0, &mut calls), Ok(()));
    assert_eq!(buffer.update(0, 4, &mut calls), Ok(()));
    assert_eq!(buffer.len(), 0);
    assert_eq!(
        calls[7],
        Command::BufferSubData { target: gl::ARRAY_BUFFER, offset: 48, size: 0 }
    );
}

#[test]
fn update_past_the_allocation_is_a_range_error() {
    let mut calls = Vec::new();
    let mut buffer = dynamic_quad(7, &mut calls);
    let before = calls.clone();
    assert_eq!(
        buffer.update(2, 3, &mut calls),
        Err(Error::RangeError { offset: 3, len: 2, capacity: 4 })
    );
    assert_eq!(
        buffer.update(5, 0, &mut calls),
        Err(Error::RangeError { offset: 0, len: 5, capacity: 4 })
    );
    assert_eq!(
        buffer.update(0, 5, &mut calls),
        Err(Error::RangeError { offset: 5, len: 0, capacity: 4 })
    );
    assert_eq!(buffer.len(), 4);
    assert_eq!(buffer.capacity(), 4);
    assert_eq!(calls, before);
}

#[test]
fn update_with_a_range_beyond_all_numbers_is_a_range_error() {
    let mut calls = Vec::new();
    let mut buffer = dynamic_quad(7, &mut calls);
    assert_eq!(
        buffer.update(usize::MAX, u32::MAX, &mut calls),
        Err(Error::RangeError { offset: u32::MAX, len: usize::MAX, capacity: 4 })
    );
    assert_eq!(buffer.len(), 4);
}

#[test]
fn a_shrunk_buffer_keeps_its_allocation() {
    let mut calls = Vec::new();
    let mut buffer = dynamic_quad(7, &mut calls);
    assert_eq!(buffer.update(1, 0, &mut calls), Ok(()));
    assert_eq!(buffer.len(), 1);
    assert_eq!(buffer.update(3, 1, &mut calls), Ok(()));
    assert_eq!(buffer.len(), 3);
    assert_eq!(
        buffer.update(4, 1, &mut calls),
        Err(Error::RangeError { offset: 1, len: 4, capacity: 4 })
    );
}

#[test]
fn read_maps_the_recorded_elements() {
    let mut calls = Vec::new();
    let mut buffer = static_quad(7, &mut calls);
    calls.clear();
    let map = buffer.read(&mut calls).unwrap();
    assert_eq!(map.id(), 7);
    assert_eq!(map.len(), 4);
    assert!(buffer.is_mapped());
    assert_eq!(
        calls,
        vec![
            Command::BindBuffer { target: gl::ARRAY_BUFFER, id: 7 },
            Command::MapBuffer { target: gl::ARRAY_BUFFER, access: gl::READ_ONLY },
        ]
    );
    assert_eq!(gl::READ_ONLY, 0x88B8);
}

#[test]
fn write_maps_the_recorded_elements() {
    let mut calls = Vec::new();
    let mut buffer = dynamic_quad(7, &mut calls);
    assert_eq!(buffer.update(3, 0, &mut calls), Ok(()));
    calls.clear();
    let map = buffer.write(&mut calls).unwrap();
    assert_eq!(map.id(), 7);
    assert_eq!(map.len(), 3);
    assert!(buffer.is_mapped());
    assert_eq!(
        calls,
        vec![
            Command::BindBuffer { target: gl::ARRAY_BUFFER, id: 7 },
            Command::MapBuffer { target: gl::ARRAY_BUFFER, access: gl::READ_WRITE },
        ]
    );
    assert_eq!(gl::READ_WRITE, 0x88BA);
}

#[test]
fn write_on_a_static_buffer_is_a_capability_error() {
    let mut calls = Vec::new();
    let mut buffer = static_quad(7, &mut calls);
    let before = calls.clone();
    assert_eq!(buffer.write(&mut calls).unwrap_err(), Error::CapabilityError);
    assert!(!buffer.is_mapped());
    assert_eq!(calls, before);
    assert!(buffer.read(&mut calls).is_ok());
}

#[test]
fn write_on_a_mapped_static_buffer_reports_the_usage() {
    let mut calls = Vec::new();
    let mut buffer = static_quad(7, &mut calls);
    let map = buffer.read(&mut calls).unwrap();
    assert_eq!(buffer.write(&mut calls).unwrap_err(), Error::CapabilityError);
    assert!(map.release(&mut buffer, &mut calls));
}

#[test]
fn a_second_mapping_is_an_already_mapped_error() {
    let mut calls = Vec::new();
    let mut buffer = dynamic_quad(7, &mut calls);
    let map = buffer.read(&mut calls).unwrap();
    let before = calls.clone();
    assert_eq!(buffer.read(&mut calls).unwrap_err(), Error::AlreadyMappedError);
    assert_eq!(buffer.write(&mut calls).unwrap_err(), Error::AlreadyMappedError);
    assert_eq!(calls, before);
    assert!(map.release(&mut buffer, &mut calls));
    let map = buffer.write(&mut calls).unwrap();
    assert_eq!(buffer.read(&mut calls).unwrap_err(), Error::AlreadyMappedError);
    assert_eq!(buffer.write(&mut calls).unwrap_err(), Error::AlreadyMappedError);
    assert!(map.release(&mut buffer, &mut calls));
    assert!(buffer.read(&mut calls).is_ok());
}

#[test]
fn release_binds_and_unmaps() {
    let mut calls = Vec::new();
    let mut buffer = dynamic_quad(7, &mut calls);
    let map = buffer.read(&mut calls).unwrap();
    calls.clear();
    assert!(map.release(&mut buffer, &mut calls));
    assert!(!buffer.is_mapped());
    assert_eq!(
        calls,
        vec![
            Command::BindBuffer { target: gl::ARRAY_BUFFER, id: 7 },
            Command::UnmapBuffer { target: gl::ARRAY_BUFFER },
        ]
    );
}

#[test]
fn a_view_releases_only_the_mapping_that_handed_it_out() {
    let mut calls = Vec::new();
    let mut one = dynamic_quad(7, &mut calls);
    let mut other = dynamic_quad(8, &mut calls);
    let of_one = one.read(&mut calls).unwrap();
    let of_other = other.write(&mut calls).unwrap();
    let before = calls.clone();
    assert!(!of_one.release(&mut other, &mut calls));
    assert!(!of_other.release(&mut one, &mut calls));
    assert!(one.is_mapped());
    assert!(other.is_mapped());
    assert_eq!(calls, before);
}

#[test]
fn a_view_of_another_mapping_of_the_buffer_releases_nothing() {
    let mut calls = Vec::new();
    let mut buffer = dynamic_quad(7, &mut calls);
    let mut twin = dynamic_quad(7, &mut calls);
    let read = twin.read(&mut calls).unwrap();
    let write = buffer.write(&mut calls).unwrap();
    assert!(!read.release(&mut buffer, &mut calls));
    assert!(buffer.is_mapped());
    assert!(write.release(&mut buffer, &mut calls));
    assert!(!buffer.is_mapped());
}

#[test]
fn a_view_is_released_once() {
    let mut calls = Vec::new();
    let mut buffer = dynamic_quad(7, &mut calls);
    let mut twin = dynamic_quad(7, &mut calls);
    let first = buffer.read(&mut calls).unwrap();
    let same = twin.read(&mut calls).unwrap();
    assert!(first.release(&mut buffer, &mut calls));
    let before = calls.clone();
    assert!(!same.release(&mut buffer, &mut calls));
    assert_eq!(calls, before);
}

#[test]
fn releasing_a_written_view_records_its_length() {
    let mut calls = Vec::new();
    let mut buffer = dynamic_quad(7, &mut calls);
    let map = buffer.write(&mut calls).unwrap();
    assert_eq!(buffer.update(1, 0, &mut calls), Ok(()));
    assert_eq!(buffer.len(), 1);
    assert!(map.release(&mut buffer, &mut calls));
    assert_eq!(buffer.len(), 4);
}

#[test]
fn releasing_a_read_view_leaves_the_length() {
    let mut calls = Vec::new();
    let mut buffer = dynamic_quad(7, &mut calls);
    let map = buffer.read(&mut calls).unwrap();
    assert_eq!(buffer.update(1, 0, &mut calls), Ok(()));
    assert!(map.release(&mut buffer, &mut calls));
    assert_eq!(buffer.len(), 1);
}

#[test]
fn a_write_cycle_is_followed_by_a_read_of_as_many_elements() {
    let mut calls = Vec::new();
    let mut buffer = dynamic_quad(7, &mut calls);
    calls.clear();
    let written = buffer.write(&mut calls).unwrap();
    let seen = written.len();
    assert!(written.release(&mut buffer, &mut calls));
    let read = buffer.read(&mut calls).unwrap();
    assert_eq!(read.len(), seen);
    assert_eq!(read.id(), 7);
    let bind = Command::BindBuffer { target: gl::ARRAY_BUFFER, id: 7 };
    assert_eq!(
        calls,
        vec![
            bind,
            Command::MapBuffer { target: gl::ARRAY_BUFFER, access: gl::READ_WRITE },
            bind,
            Command::UnmapBuffer { target: gl::ARRAY_BUFFER },
            bind,
            Command::MapBuffer { target: gl::ARRAY_BUFFER, access: gl::READ_ONLY },
        ]
    );
}

#[test]
fn delete_frees_the_buffer() {
    let mut calls = Vec::new();
    let buffer = dynamic_quad(7, &mut calls);
    calls.clear();
    buffer.delete(&mut calls);
    assert_eq!(calls, vec![Command::DeleteBuffers { id: 7 }]);
}

#[test]
fn a_backend_out_of_memory_is_an_allocation_error() {
    let mut calls = Vec::new();
    let buffer = dynamic_quad(7, &mut calls);
    calls.clear();
    let r = buffer.allocated(gl::OUT_OF_MEMORY, &mut calls);
    assert_eq!(r.unwrap_err(), Error::AllocationError);
    assert_eq!(calls, vec![Command::DeleteBuffers { id: 7 }]);
    assert_eq!(gl::OUT_OF_MEMORY, 0x0505);
}

#[test]
fn a_backend_that_reports_nothing_leaves_the_buffer() {
    let mut calls = Vec::new();
    let buffer = dynamic_quad(7, &mut calls);
    calls.clear();
    let buffer = buffer.allocated(gl::NO_ERROR, &mut calls).unwrap();
    assert_eq!(buffer.id(), 7);
    assert_eq!(buffer.len(), 4);
    assert_eq!(buffer.capacity(), 4);
    let buffer = buffer.allocated(gl::INVALID_ENUM, &mut calls).unwrap();
    assert_eq!(buffer.len(), 4);
    assert!(calls.is_empty());
}
