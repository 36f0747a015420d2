//! Growth behaviour of the typed GPU buffer model.

use render_core::buffer::{Buffer, BufferUsage};
use render_core::device::GraphicsDevice;

fn storage_usage() -> BufferUsage {
    BufferUsage {
        copy_dst: true,
        map_read: false,
        uniform: false,
        storage: true,
        indirect: false,
        vertex: false,
    }
}

#[test]
fn write_within_capacity_keeps_allocation() {
    let mut device = GraphicsDevice::new(256);
    let mut buffer = Buffer::with_capacity(&mut device, storage_usage(), 48, 128 * 48);
    let id_before = buffer.id;

    let reallocated = buffer.write(&mut device, 100);

    assert!(!reallocated);
    assert_eq!(buffer.id, id_before);
    assert_eq!(buffer.capacity, 128 * 48);
    assert_eq!(buffer.count(), 100);
}

#[test]
fn write_past_capacity_reallocates_once() {
    let mut device = GraphicsDevice::new(256);
    let mut buffer = Buffer::with_capacity(&mut device, storage_usage(), 48, 128 * 48);
    let id_before = buffer.id;

    let first = buffer.write(&mut device, 130);
    assert!(first);
    assert_ne!(buffer.id, id_before);
    assert_eq!(buffer.capacity, 130 * 48);

    // The shrinking write afterwards neither reallocates nor shrinks.
    let id_grown = buffer.id;
    let second = buffer.write(&mut device, 60);
    assert!(!second);
    assert_eq!(buffer.id, id_grown);
    assert_eq!(buffer.capacity, 130 * 48);
    assert_eq!(buffer.count(), 60);
}

#[test]
fn capacity_never_shrinks_across_many_writes() {
    let mut device = GraphicsDevice::new(256);
    let mut buffer = Buffer::with_capacity(&mut device, storage_usage(), 4, 16);

    let mut largest = buffer.capacity;
    for count in [10u64, 3, 25, 7, 25, 1] {
        buffer.write(&mut device, count);
        assert!(buffer.capacity >= largest);
        largest = buffer.capacity;
    }
    assert_eq!(largest, 100);
}

#[test]
fn usage_flags_are_fixed_at_creation() {
    let mut device = GraphicsDevice::new(256);
    let mut buffer = Buffer::with_capacity(&mut device, storage_usage(), 4, 16);
    buffer.write(&mut device, 50);
    assert_eq!(buffer.usage, storage_usage());
}
