//! The layout of a buffer of equally sized instances and the byte ranges
//! that its operations address.

use crate::vulkan::Handle;
use vstd::prelude::*;

verus! {

/// A size that stands for "from the offset to the end".
pub const WHOLE_SIZE: u64 = 0xFFFF_FFFF_FFFF_FFFF;

/// What the driver is asked for when a buffer is created. The buffer is
/// owned by one queue family at a time.
#[derive(Clone, Copy, PartialEq, Eq, Debug, Structural)]
pub struct BufferCreateInfo {
    pub size: u64,
    pub usage: u32,
    pub memory_properties: u32,
}

/// A range of a buffer's memory, as mapped, flushed or invalidated.
#[derive(Clone, Copy, PartialEq, Eq, Debug, Structural)]
pub struct MemoryRange {
    pub memory: Handle,
    pub offset: u64,
    pub size: u64,
}

/// A range of a buffer as a shader sees it through a descriptor.
#[derive(Clone, Copy, PartialEq, Eq, Debug, Structural)]
pub struct DescriptorBufferInfo {
    pub buffer: Handle,
    pub offset: u64,
    pub range: u64,
}

/// Where in the mapped memory a write lands and how many bytes it has.
#[derive(Clone, Copy, PartialEq, Eq, Debug, Structural)]
pub struct WriteRange {
    pub offset: u64,
    pub len: u64,
}

/// What to hand back to the driver when a buffer is given up, in this
/// order: the mapping where there is one, the buffer, its memory.
#[derive(Clone, Copy, PartialEq, Eq, Debug, Structural)]
pub struct BufferTeardown {
    pub unmap: bool,
    pub buffer: Handle,
    pub memory: Handle,
}

/// A buffer of `instance_count` instances, each in a slot of
/// `alignment_size` bytes.
#[derive(Clone, Copy, Debug)]
pub struct Buffer {
    mapped: bool,
    buffer: Handle,
    memory: Handle,
    buffer_size: u64,
    instance_count: usize,
    instance_size: u64,
    alignment_size: u64,
    usage_flags: u32,
    memory_property_flags: u32,
}

/// The state of a `Buffer`.
pub struct BufferView {
    pub mapped: bool,
    pub buffer: Handle,
    pub memory: Handle,
    pub buffer_size: u64,
    pub instance_count: usize,
    pub instance_size: u64,
    pub alignment_size: u64,
    pub usage_flags: u32,
    pub memory_property_flags: u32,
}

impl View for Buffer {
    type V = BufferView;

    closed spec fn view(&self) -> BufferView {
        BufferView {
            mapped: self.mapped,
            buffer: self.buffer,
            memory: self.memory,
            buffer_size: self.buffer_size,
            instance_count: self.instance_count,
            instance_size: self.instance_size,
            alignment_size: self.alignment_size,
            usage_flags: self.usage_flags,
            memory_property_flags: self.memory_property_flags,
        }
    }
}

/// The offset alignment asked for, where none means none.
pub open spec fn alignment_of(min_offset_alignment: Option<u64>) -> u64 {
    match min_offset_alignment {
        Some(alignment) => alignment,
        None => 0,
    }
}

/// The size of the slot of an instance: the instance's size rounded up to
/// the alignment by masking, which is aligned where the alignment is a power
/// of two; the instance's size itself where no alignment is asked for.
pub open spec fn slot_size(instance_size: u64, alignment: u64) -> u64 {
    if alignment > 0 {
        ((instance_size + alignment - 1) as u64) & !((alignment - 1) as u64)
    } else {
        instance_size
    }
}

/// Whether a buffer of this shape can be laid out in 64 bits.
pub open spec fn layout_fits(instance_size: u64, instance_count: usize, alignment: u64) -> bool {
    &&& instance_size + alignment <= u64::MAX
    &&& slot_size(instance_size, alignment) * instance_count <= u64::MAX
}

/// A given size, or the whole.
pub open spec fn size_or_whole(size: Option<u64>) -> u64 {
    match size {
        Some(size) => size,
        None => WHOLE_SIZE,
    }
}

/// A given offset, or the start.
pub open spec fn offset_or_start(offset: Option<u64>) -> u64 {
    match offset {
        Some(offset) => offset,
        None => 0,
    }
}

/// For an alignment that is a power of two, the slot is the instance's size
/// rounded up to the alignment: none of its bits below the alignment is set,
/// it holds the instance, and it exceeds it by less than the alignment.
pub proof fn lemma_slot_size_rounds_up(instance_size: u64, alignment: u64)
    requires
        alignment > 0,
        alignment & ((alignment - 1) as u64) == 0,
        instance_size + alignment <= u64::MAX,
    ensures
        slot_size(instance_size, alignment) & ((alignment - 1) as u64) == 0,
        instance_size <= slot_size(instance_size, alignment) < instance_size + alignment,
{
    let slot = slot_size(instance_size, alignment);
    assert(slot & ((alignment - 1) as u64) == 0 && instance_size <= slot && slot - instance_size
        < alignment) by (bit_vector)
        requires
            alignment > 0,
            alignment & ((alignment - 1) as u64) == 0,
            instance_size <= 0xFFFF_FFFF_FFFF_FFFFu64 - alignment,
            slot == ((instance_size + alignment - 1) as u64) & !((alignment - 1) as u64),
    ;
}

impl Buffer {
    /// The slot size of an instance under the given alignment.
    fn alignment(instance_size: u64, min_offset_alignment: u64) -> (size: u64)
        requires
            instance_size + min_offset_alignment <= u64::MAX,
        ensures
            size == slot_size(instance_size, min_offset_alignment),
    {
        if min_offset_alignment > 0 {
            (instance_size + min_offset_alignment - 1) & !(min_offset_alignment - 1)
        } else {
            instance_size
        }
    }

    /// What to ask of the driver for a buffer of `instance_count` instances
    /// of `instance_size` bytes each.
    pub fn create_info(
        instance_size: u64,
        instance_count: usize,
        usage_flags: u32,
        memory_property_flags: u32,
        min_offset_alignment: Option<u64>,
    ) -> (info: BufferCreateInfo)
        requires
            layout_fits(instance_size, instance_count, alignment_of(min_offset_alignment)),
        ensures
            info == (BufferCreateInfo {
                size: (slot_size(instance_size, alignment_of(min_offset_alignment))
                    * instance_count) as u64,
                usage: usage_flags,
                memory_properties: memory_property_flags,
            }),
    {
        let min_offset_alignment = match min_offset_alignment {
            Some(offset) => offset,
            None => 0,
        };
        let alignment_size = Self::alignment(instance_size, min_offset_alignment);
        BufferCreateInfo {
            size: alignment_size * (instance_count as u64),
            usage: usage_flags,
            memory_properties: memory_property_flags,
        }
    }

    /// The buffer that the driver created as `buffer` on `memory` for the
    /// request that `create_info` makes of the same shape. It is not mapped.
    pub fn new(
        buffer: Handle,
        memory: Handle,
        instance_size: u64,
        instance_count: usize,
        usage_flags: u32,
        memory_property_flags: u32,
        min_offset_alignment: Option<u64>,
    ) -> (made: Self)
        requires
            layout_fits(instance_size, instance_count, alignment_of(min_offset_alignment)),
        ensures
            made@ == (BufferView {
                mapped: false,
                buffer,
                memory,
                buffer_size: (slot_size(instance_size, alignment_of(min_offset_alignment))
                    * instance_count) as u64,
                instance_count,
                instance_size,
                alignment_size: slot_size(instance_size, alignment_of(min_offset_alignment)),
                usage_flags,
                memory_property_flags,
            }),
    {
        let min_offset_alignment = match min_offset_alignment {
            Some(offset) => offset,
            None => 0,
        };
        let alignment_size = Self::alignment(instance_size, min_offset_alignment);
        Buffer {
            mapped: false,
            buffer,
            memory,
            buffer_size: alignment_size * (instance_count as u64),
            instance_count,
            instance_size,
            alignment_size,
            usage_flags,
            memory_property_flags,
        }
    }

    /// Gives up the buffer.
    pub fn destroy(self) -> (teardown: BufferTeardown)
        ensures
            teardown == (BufferTeardown {
                unmap: self@.mapped,
                buffer: self@.buffer,
                memory: self@.memory,
            }),
    {
        BufferTeardown { unmap: self.mapped, buffer: self.buffer, memory: self.memory }
    }

    /// The range of memory to map: from `offset`, or the start, over `size`
    /// bytes, or to the end. A buffer without a handle or without memory
    /// cannot be mapped.
    pub fn map(&self, size: Option<u64>, offset: Option<u64>) -> (range: MemoryRange)
        requires
            self@.buffer.raw != 0,
            self@.memory.raw != 0,
        ensures
            range == (MemoryRange {
                memory: self@.memory,
                offset: offset_or_start(offset),
                size: size_or_whole(size),
            }),
    {
        self.range(size, offset)
    }

    /// Takes note that the memory is now mapped.
    pub fn set_mapped(&mut self)
        ensures
            final(self)@ == (BufferView { mapped: true, ..old(self)@ }),
    {
        self.mapped = true;
    }

    /// Forgets the mapping and says whether there was one to undo.
    pub fn unmap(&mut self) -> (was_mapped: bool)
        ensures
            was_mapped == old(self)@.mapped,
            final(self)@ == (BufferView { mapped: false, ..old(self)@ }),
    {
        let was_mapped = self.mapped;
        self.mapped = false;
        was_mapped
    }

    /// Where a write of `size` bytes at `offset` lands in the mapped memory.
    /// A write of the whole covers the buffer from its start, whatever the
    /// offset.
    pub fn write_to_buffer(&self, size: Option<u64>, offset: Option<u64>) -> (range: WriteRange)
        requires
            self@.mapped,
        ensures
            range == if size_or_whole(size) == WHOLE_SIZE {
                WriteRange { offset: 0, len: self@.buffer_size }
            } else {
                WriteRange { offset: offset_or_start(offset), len: size_or_whole(size) }
            },
    {
        let size = match size {
            Some(size) => size,
            None => WHOLE_SIZE,
        };
        let offset = match offset {
            Some(offset) => offset,
            None => 0,
        };
        if size == WHOLE_SIZE {
            WriteRange { offset: 0, len: self.buffer_size }
        } else {
            WriteRange { offset, len: size }
        }
    }

    /// The range of memory from `offset`, or the start, over `size` bytes,
    /// or to the end.
    fn range(&self, size: Option<u64>, offset: Option<u64>) -> (range: MemoryRange)
        ensures
            range == (MemoryRange {
                memory: self@.memory,
                offset: offset_or_start(offset),
                size: size_or_whole(size),
            }),
    {
        MemoryRange {
            memory: self.memory,
            offset: match offset {
                Some(offset) => offset,
                None => 0,
            },
            size: match size {
                Some(size) => size,
                None => WHOLE_SIZE,
            },
        }
    }

    /// The range of memory to flush to the device.
    pub fn flush(&self, size: Option<u64>, offset: Option<u64>) -> (range: MemoryRange)
        ensures
            range == (MemoryRange {
                memory: self@.memory,
                offset: offset_or_start(offset),
                size: size_or_whole(size),
            }),
    {
        self.range(size, offset)
    }

    /// The range of the buffer that a descriptor shows.
    pub fn descriptor_info(&self, size: Option<u64>, offset: Option<u64>) -> (info:
        DescriptorBufferInfo)
        ensures
            info == (DescriptorBufferInfo {
                buffer: self@.buffer,
                offset: offset_or_start(offset),
                range: size_or_whole(size),
            }),
    {
        DescriptorBufferInfo {
            buffer: self.buffer,
            offset: match offset {
                Some(offset) => offset,
                None => 0,
            },
            range: match size {
                Some(size) => size,
                None => WHOLE_SIZE,
            },
        }
    }

    /// The range of memory to invalidate on the host.
    pub fn invalidate(&self, size: Option<u64>, offset: Option<u64>) -> (range: MemoryRange)
        ensures
            range == (MemoryRange {
                memory: self@.memory,
                offset: offset_or_start(offset),
                size: size_or_whole(size),
            }),
    {
        self.range(size, offset)
    }

    /// Where a write of instance `index` lands: in its slot, over the size
    /// of an instance.
    pub fn write_to_index(&self, index: u64) -> (range: WriteRange)
        requires
            self@.mapped,
            index * self@.alignment_size <= u64::MAX,
        ensures
            range == if self@.instance_size == WHOLE_SIZE {
                WriteRange { offset: 0, len: self@.buffer_size }
            } else {
                WriteRange {
                    offset: (index * self@.alignment_size) as u64,
                    len: self@.instance_size,
                }
            },
    {
        self.write_to_buffer(Some(self.instance_size), Some(index * self.alignment_size))
    }

    /// The range of memory to flush for instance `index`: its slot.
    pub fn flush_index(&self, index: u64) -> (range: MemoryRange)
        requires
            index * self@.alignment_size <= u64::MAX,
        ensures
            range == (MemoryRange {
                memory: self@.memory,
                offset: (index * self@.alignment_size) as u64,
                size: self@.alignment_size,
            }),
    {
        self.flush(Some(self.alignment_size), Some(index * self.alignment_size))
    }

    /// The slot of instance `index` as a descriptor shows it.
    pub fn descriptor_info_for_index(&self, index: u64) -> (info: DescriptorBufferInfo)
        requires
            index * self@.alignment_size <= u64::MAX,
        ensures
            info == (DescriptorBufferInfo {
                buffer: self@.buffer,
                offset: (index * self@.alignment_size) as u64,
                range: self@.alignment_size,
            }),
    {
        self.descriptor_info(Some(self.alignment_size), Some(index * self.alignment_size))
    }

    /// The range of memory to invalidate for instance `index`: its slot.
    pub fn invalidate_index(&self, index: u64) -> (range: MemoryRange)
        requires
            index * self@.alignment_size <= u64::MAX,
        ensures
            range == (MemoryRange {
                memory: self@.memory,
                offset: (index * self@.alignment_size) as u64,
                size: self@.alignment_size,
            }),
    {
        self.invalidate(Some(self.alignment_size), Some(index * self.alignment_size))
    }

    /// The driver's handle of the buffer.
    pub fn buffer(&self) -> (handle: Handle)
        ensures
            handle == self@.buffer,
    {
        self.buffer
    }

    /// Whether the memory is mapped.
    pub fn mapped_memory(&self) -> (mapped: bool)
        ensures
            mapped == self@.mapped,
    {
        self.mapped
    }

    /// The number of instances, cut to 32 bits.
    pub fn instance_count(&self) -> (count: u32)
        ensures
            count == self@.instance_count as u32,
    {
        #[verifier::truncate]
        (self.instance_count as u32)
    }

    /// The size of an instance.
    pub fn instance_size(&self) -> (size: u64)
        ensures
            size == self@.instance_size,
    {
        self.instance_size
    }

    /// The size of the slot of an instance.
    pub fn alignment_size(&self) -> (size: u64)
        ensures
            size == self@.alignment_size,
    {
        self.alignment_size
    }

    /// What the buffer is used for.
    pub fn usage_flags(&self) -> (flags: u32)
        ensures
            flags == self@.usage_flags,
    {
        self.usage_flags
    }

    /// The properties of the buffer's memory.
    pub fn memory_property_flags(&self) -> (flags: u32)
        ensures
            flags == self@.memory_property_flags,
    {
        self.memory_property_flags
    }

    /// The size of the buffer in bytes.
    pub fn buffer_size(&self) -> (size: u64)
        ensures
            size == self@.buffer_size,
    {
        self.buffer_size
    }
}

} // verus!
