//! Growable, strongly typed GPU buffer model with staged uploads.

use vstd::prelude::*;

use crate::device::GraphicsDevice;

verus! {

/// Usage flags of a buffer allocation, fixed at creation.
#[derive(Clone, Copy, PartialEq, Eq, Structural, Debug)]
pub struct BufferUsage {
    pub copy_dst: bool,
    pub map_read: bool,
    pub uniform: bool,
    pub storage: bool,
    pub indirect: bool,
    pub vertex: bool,
}

/// A typed GPU buffer: a backing allocation of `capacity` bytes holding
/// `count` staged elements of `element_size` bytes each.
///
/// The allocation only ever grows.  Writing more bytes than the current
/// capacity replaces the allocation (a fresh `id`) and reports the
/// reallocation to the caller, so that bind groups referencing the old
/// allocation can be rebuilt; writing less never shrinks it.
#[derive(Clone, Copy, PartialEq, Eq, Structural, Debug)]
pub struct Buffer {
    /// Identity of the current backing allocation.
    pub id: u64,
    /// Size in bytes of one element of the buffer's element type.
    pub element_size: u64,
    /// Size in bytes of the backing allocation.
    pub capacity: u64,
    /// Number of elements staged by the most recent write.
    pub count: u64,
    /// Usage flags the allocation was created with.
    pub usage: BufferUsage,
}

impl Buffer {
    /// A buffer is well formed when its element size is positive and
    /// byte computations over it cannot overflow.
    pub open spec fn well_formed(self) -> bool {
        1 <= self.element_size && self.capacity <= u64::MAX as int
    }

    /// Bytes needed to hold `count` elements.
    pub open spec fn bytes_for(self, count: u64) -> int {
        count * self.element_size
    }

    /// Creates a buffer with an initial backing allocation of
    /// `capacity` bytes and no staged elements.
    pub fn with_capacity(
        device: &mut GraphicsDevice,
        usage: BufferUsage,
        element_size: u64,
        capacity: u64,
    ) -> (result: Buffer)
        requires
            old(device).next_id < u64::MAX,
            element_size >= 1,
        ensures
            result == (Buffer {
                id: old(device).next_id,
                element_size,
                capacity,
                count: 0,
                usage,
            }),
            result.well_formed(),
            final(device).next_id == old(device).next_id + 1,
            final(device).min_uniform_buffer_offset_alignment == old(
                device,
            ).min_uniform_buffer_offset_alignment,
    {
        Buffer { id: device.fresh_id(), element_size, capacity, count: 0, usage }
    }

    /// Stages `count` elements into the buffer, growing the backing
    /// allocation first when the data does not fit.  Returns whether
    /// the allocation was replaced, in which case every bind group
    /// referencing the buffer must be rebuilt.
    ///
    /// The capacity never shrinks, and a write that fits leaves the
    /// allocation untouched.
    pub fn write(&mut self, device: &mut GraphicsDevice, count: u64) -> (reallocated: bool)
        requires
            old(self).well_formed(),
            old(device).next_id < u64::MAX,
            old(self).bytes_for(count) <= u64::MAX as int,
        ensures
            final(self).element_size == old(self).element_size,
            final(self).usage == old(self).usage,
            final(self).count == count,
            final(self).well_formed(),
            old(self).bytes_for(count) <= old(self).capacity ==> {
                &&& !reallocated
                &&& final(self).id == old(self).id
                &&& final(self).capacity == old(self).capacity
                &&& *final(device) == *old(device)
            },
            old(self).bytes_for(count) > old(self).capacity ==> {
                &&& reallocated
                &&& final(self).id == old(device).next_id
                &&& final(self).capacity == old(self).bytes_for(count)
                &&& final(device).next_id == old(device).next_id + 1
            },
            final(self).capacity >= old(self).capacity,
            (*final(self), reallocated) == old(self).spec_write(*old(device), count),
            final(device).min_uniform_buffer_offset_alignment == old(
                device,
            ).min_uniform_buffer_offset_alignment,
            final(device).next_id <= old(device).next_id + 1,
    {
        let needed = count * self.element_size;
        if needed > self.capacity {
            self.id = device.fresh_id();
            self.capacity = needed;
            self.count = count;
            true
        } else {
            self.count = count;
            false
        }
    }

    /// Number of elements staged by the most recent write.
    pub fn count(&self) -> (result: u64)
        ensures
            result == self.count,
    {
        self.count
    }
}

/// Capacity is monotone under writes: staging a smaller batch after a
/// larger one never shrinks the backing allocation, and never replaces
/// it.  Growing past the capacity replaces the allocation exactly once:
/// the write that grows reports one reallocation, and the following
/// smaller write reports none.
pub proof fn lemma_buffer_growth_monotone(
    buffer: Buffer,
    device: GraphicsDevice,
    first: u64,
    second: u64,
)
    requires
        buffer.well_formed(),
        device.next_id <= u64::MAX - 2,
        second <= first,
        buffer.bytes_for(first) <= u64::MAX as int,
    ensures
        ({
            let (after_first, reallocated_first) = buffer.spec_write(device, first);
            let (after_second, reallocated_second) = after_first.spec_write(device, second);
            &&& after_second.capacity >= after_first.capacity
            &&& !reallocated_second
            &&& after_second.id == after_first.id
            &&& buffer.bytes_for(first) > buffer.capacity ==> reallocated_first
        }),
{
    let (after_first, _) = buffer.spec_write(device, first);
    assert(second * buffer.element_size <= first * buffer.element_size) by (nonlinear_arith)
        requires
            second <= first,
            buffer.element_size >= 1,
    ;
    assert(after_first.bytes_for(second) <= after_first.capacity);
}

impl Buffer {
    /// The value and reallocation flag [`Buffer::write`] produces, as a
    /// mathematical function of the buffer and the device state.
    pub open spec fn spec_write(self, device: GraphicsDevice, count: u64) -> (Buffer, bool) {
        if self.bytes_for(count) > self.capacity {
            (
                Buffer {
                    id: device.next_id,
                    capacity: (count * self.element_size) as u64,
                    count,
                    ..self
                },
                true,
            )
        } else {
            (Buffer { count, ..self }, false)
        }
    }
}

} // verus!
