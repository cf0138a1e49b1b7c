use gl_obj::buffer::{Buffer, BufferError, DYNAMIC_STORAGE};
use gl_obj::command::Command;
use gl_obj::format::ElementType;
use std::collections::HashMap;

const ALL_TYPES: [ElementType; 8] = [
    ElementType::F32,
    ElementType::Vec2,
    ElementType::Vec3,
    ElementType::Vec4,
    ElementType::I32,
    ElementType::U32,
    ElementType::UVec2,
    ElementType::UVec3,
];

/// A device that keeps what it is given.
fn buffer_device_perform(memory: &mut HashMap<u32, Vec<u8>>, c: Command, host: &mut [u8]) {
    match c {
        Command::BufferStorage { buffer, size, .. } => {
            memory.insert(buffer, host[..size].to_vec());
        }
        Command::WriteBuffer { buffer, offset, size } => {
            memory.get_mut(&buffer).unwrap()[offset..offset + size].copy_from_slice(&host[..size]);
        }
        Command::ReadBuffer { buffer, offset, size } => {
            host.copy_from_slice(&memory[&buffer][offset..offset + size]);
        }
        _ => panic!("not a host transfer"),
    }
}

fn pattern(n: usize) -> Vec<u8> {
    (0..n).map(|i| (i * 31 + 7) as u8).collect()
}

fn round_trip_of(element: ElementType, count: usize) {
    let mut data = pattern(count * element.stride());
    let original = data.clone();
    let mut memory = HashMap::new();
    let (buffer, upload) = Buffer::new(9, element, &data, 0).unwrap();
    assert_eq!(buffer.len() as usize, count);
    buffer_device_perform(&mut memory, upload, &mut data);

    let mut back = vec![0xAAu8; original.len()];
    let read = buffer.copy_data(element, &back).unwrap();
    buffer_device_perform(&mut memory, read, &mut back);
    assert_eq!(back, original);

    let (mut fresh, read_all) = buffer.get_data(element).unwrap();
    assert_eq!(fresh.len(), original.len());
    buffer_device_perform(&mut memory, read_all, &mut fresh);
    assert_eq!(fresh, original);
}

#[test]
fn round_trip_of_empty_array() {
    for e in ALL_TYPES {
        round_trip_of(e, 0);
    }
}

#[test]
fn round_trip_of_one_element() {
    for e in ALL_TYPES {
        round_trip_of(e, 1);
    }
}

#[test]
fn round_trip_of_1024_elements() {
    for e in ALL_TYPES {
        round_trip_of(e, 1024);
    }
}

#[test]
fn strides_are_four_bytes_per_component() {
    let strides: Vec<usize> = ALL_TYPES.iter().map(|e| e.stride()).collect();
    assert_eq!(strides, vec![4, 8, 12, 16, 4, 4, 8, 12]);
    let components: Vec<usize> = ALL_TYPES.iter().map(|e| e.components()).collect();
    assert_eq!(components, vec![1, 2, 3, 4, 1, 1, 2, 3]);
}

#[test]
fn create_gives_empty_buffer() {
    let b = Buffer::create(17);
    assert_eq!(b.handle(), 17);
    assert_eq!(b.len(), 0);
    assert_eq!(b.element(), None);
    assert_eq!(b.flags(), 0);
    assert_eq!(b.size_in_bytes(), 0);
}

#[test]
fn storage_records_count_and_type() {
    let mut b = Buffer::create(3);
    let data = pattern(5 * 12);
    let c = b.storage(ElementType::Vec3, &data, 0x100).unwrap();
    assert_eq!(c, Command::BufferStorage { buffer: 3, size: 60, flags: 0x100 });
    assert_eq!(b.len(), 5);
    assert_eq!(b.handle(), 3);
    assert_eq!(b.element(), Some(ElementType::Vec3));
    assert_eq!(b.flags(), 0x100);
    assert_eq!(b.size_in_bytes(), 60);
}

#[test]
fn new_is_create_then_storage() {
    let data = pattern(32);
    let (b, c) = Buffer::new(4, ElementType::Vec4, &data, 0).unwrap();
    assert_eq!(c, Command::BufferStorage { buffer: 4, size: 32, flags: 0 });
    assert_eq!(b.len(), 2);
    assert_eq!(b.element(), Some(ElementType::Vec4));
}

#[test]
fn storage_twice_is_turned_down() {
    let data = pattern(8);
    let (mut b, _) = Buffer::new(4, ElementType::Vec2, &data, 0).unwrap();
    assert_eq!(b.storage(ElementType::Vec2, &data, 0), Err(BufferError::AlreadyStored));
    assert_eq!(b.storage(ElementType::F32, &pattern(4), 0), Err(BufferError::AlreadyStored));
    assert_eq!(b.len(), 1);
    assert_eq!(b.element(), Some(ElementType::Vec2));
}

#[test]
fn storage_of_partial_element_is_turned_down() {
    let mut b = Buffer::create(1);
    assert_eq!(b.storage(ElementType::Vec2, &pattern(12), 0), Err(BufferError::SizeMismatch));
    assert_eq!(b.storage(ElementType::Vec3, &pattern(16), 0), Err(BufferError::SizeMismatch));
    assert_eq!(b.len(), 0);
    assert_eq!(b.element(), None);
    assert!(matches!(Buffer::new(1, ElementType::F32, &pattern(3), 0), Err(BufferError::SizeMismatch)));
    assert!(b.storage(ElementType::Vec3, &pattern(24), 0).is_ok());
}

#[test]
fn read_with_other_type_always_fails() {
    for stored in ALL_TYPES {
        let data = pattern(48 * 4);
        let (b, _) = Buffer::new(2, stored, &data, 0).unwrap();
        for asked in ALL_TYPES {
            let host = vec![0u8; data.len()];
            let r = b.copy_data(asked, &host);
            let all = b.get_data(asked);
            if asked == stored {
                assert!(r.is_ok());
                assert!(all.is_ok());
            } else {
                assert_eq!(r, Err(BufferError::TypeMismatch));
                assert_eq!(all.err(), Some(BufferError::TypeMismatch));
            }
        }
    }
}

#[test]
fn read_before_storage_is_a_type_mismatch() {
    let b = Buffer::create(5);
    assert_eq!(b.copy_data(ElementType::F32, &[]), Err(BufferError::TypeMismatch));
    assert_eq!(b.get_data(ElementType::F32).err(), Some(BufferError::TypeMismatch));
}

#[test]
fn read_into_wrong_length_always_fails() {
    let data = pattern(10 * 8);
    let (b, _) = Buffer::new(2, ElementType::Vec2, &data, 0).unwrap();
    for n in [0usize, 1, 72, 79, 81, 88, 160, 4096] {
        let host = vec![0u8; n];
        assert_eq!(b.copy_data(ElementType::Vec2, &host), Err(BufferError::SizeMismatch));
    }
    let host = vec![0u8; 80];
    assert_eq!(
        b.copy_data(ElementType::Vec2, &host),
        Ok(Command::ReadBuffer { buffer: 2, offset: 0, size: 80 })
    );
}

#[test]
fn type_is_checked_before_length() {
    let (b, _) = Buffer::new(2, ElementType::Vec2, &pattern(16), 0).unwrap();
    assert_eq!(b.copy_data(ElementType::Vec4, &[0u8; 3]), Err(BufferError::TypeMismatch));
}

#[test]
fn get_data_allocates_whole_store() {
    let (b, _) = Buffer::new(6, ElementType::UVec3, &pattern(36), 0).unwrap();
    let (host, c) = b.get_data(ElementType::UVec3).unwrap();
    assert_eq!(host, vec![0u8; 36]);
    assert_eq!(c, Command::ReadBuffer { buffer: 6, offset: 0, size: 36 });
}

#[test]
fn release_names_the_buffer() {
    let (b, _) = Buffer::new(6, ElementType::U32, &pattern(8), 0).unwrap();
    assert_eq!(b.release(), Command::DeleteBuffer { buffer: 6 });
    assert_eq!(Buffer::create(77).release(), Command::DeleteBuffer { buffer: 77 });
}

#[test]
fn write_needs_dynamic_storage() {
    let data = pattern(24);
    let (fixed, _) = Buffer::new(2, ElementType::Vec3, &data, 0).unwrap();
    assert_eq!(fixed.write(ElementType::Vec3, &data), Err(BufferError::Immutable));
    let (fixed, _) = Buffer::new(2, ElementType::Vec3, &data, 0x0200 | 0x0001).unwrap();
    assert_eq!(fixed.write(ElementType::Vec3, &data), Err(BufferError::Immutable));
    let (dynamic, _) = Buffer::new(2, ElementType::Vec3, &data, DYNAMIC_STORAGE).unwrap();
    assert_eq!(
        dynamic.write(ElementType::Vec3, &data),
        Ok(Command::WriteBuffer { buffer: 2, offset: 0, size: 24 })
    );
    let (dynamic, _) = Buffer::new(2, ElementType::Vec3, &data, 0x0300).unwrap();
    assert!(dynamic.write(ElementType::Vec3, &data).is_ok());
    assert_eq!(DYNAMIC_STORAGE, 0x0100);
}

#[test]
fn write_with_other_type_always_fails() {
    for stored in ALL_TYPES {
        let data = pattern(48 * 4);
        for flags in [0, DYNAMIC_STORAGE] {
            let (b, _) = Buffer::new(2, stored, &data, flags).unwrap();
            for asked in ALL_TYPES {
                if asked != stored {
                    assert_eq!(b.write(asked, &data), Err(BufferError::TypeMismatch));
                    assert_eq!(b.write(asked, &[]), Err(BufferError::TypeMismatch));
                }
            }
        }
    }
    assert_eq!(Buffer::create(1).write(ElementType::F32, &[]), Err(BufferError::TypeMismatch));
}

#[test]
fn write_of_wrong_length_always_fails() {
    let data = pattern(10 * 8);
    for flags in [0, DYNAMIC_STORAGE] {
        let (b, _) = Buffer::new(2, ElementType::Vec2, &data, flags).unwrap();
        for n in [0usize, 72, 79, 81, 88, 160] {
            assert_eq!(b.write(ElementType::Vec2, &pattern(n)), Err(BufferError::SizeMismatch));
        }
    }
}

#[test]
fn round_trip_after_write() {
    let mut first = pattern(64);
    let mut memory = HashMap::new();
    let (b, upload) = Buffer::new(3, ElementType::Vec4, &first, DYNAMIC_STORAGE).unwrap();
    buffer_device_perform(&mut memory, upload, &mut first);
    let mut second: Vec<u8> = (0..64).map(|i| 255 - i as u8).collect();
    let expected = second.clone();
    let write = b.write(ElementType::Vec4, &second).unwrap();
    buffer_device_perform(&mut memory, write, &mut second);
    let (mut back, read) = b.get_data(ElementType::Vec4).unwrap();
    buffer_device_perform(&mut memory, read, &mut back);
    assert_eq!(back, expected);
}
