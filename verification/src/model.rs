//! A mesh on the GPU: how its vertices and indices get there and how it is
//! bound and drawn.

use crate::buffer::{Buffer, BufferCreateInfo, BufferTeardown, BufferView};
use crate::vulkan::{
    Handle, BUFFER_USAGE_INDEX_BUFFER, BUFFER_USAGE_TRANSFER_DST, BUFFER_USAGE_TRANSFER_SRC,
    BUFFER_USAGE_VERTEX_BUFFER, MEMORY_PROPERTY_DEVICE_LOCAL, MEMORY_PROPERTY_HOST_COHERENT,
    MEMORY_PROPERTY_HOST_VISIBLE,
};
use vstd::prelude::*;

verus! {

/// The size of an index in bytes.
pub const INDEX_SIZE: u64 = 4;

/// How a list of equally sized items gets into device-local memory: it is
/// written to a staging buffer that the host can see, copied from there to
/// the buffer that stays, and the staging buffer is given up.
#[derive(Clone, Copy, PartialEq, Eq, Debug, Structural)]
pub struct Upload {
    pub item_size: u64,
    pub item_count: usize,
    pub staging: BufferCreateInfo,
    pub target: BufferCreateInfo,
    /// How many bytes are copied from the one to the other.
    pub copy_size: u64,
}

/// The buffers to bind before a mesh is drawn. The vertex buffer goes to
/// binding 0 at offset 0; the index buffer, where there is one, holds
/// 32-bit indices from offset 0.
#[derive(Clone, Copy, PartialEq, Eq, Debug, Structural)]
pub struct ModelBinding {
    pub vertex_buffer: Handle,
    pub index_buffer: Option<Handle>,
}

/// The draw command of a mesh: one instance, from the first vertex or
/// index.
#[derive(Clone, Copy, PartialEq, Eq, Debug, Structural)]
pub enum DrawCall {
    Indexed { index_count: u32 },
    Vertices { vertex_count: u32 },
}

/// A mesh on the GPU.
#[derive(Clone, Copy, Debug)]
pub struct Model {
    vertex_buffer: Buffer,
    vertex_count: u32,
    index_buffer: Option<Buffer>,
    index_count: u32,
}

/// The state of a `Model`.
pub struct ModelView {
    pub vertex_buffer: BufferView,
    pub vertex_count: u32,
    pub index_buffer: Option<BufferView>,
    pub index_count: u32,
}

impl View for Model {
    type V = ModelView;

    closed spec fn view(&self) -> ModelView {
        ModelView {
            vertex_buffer: self.vertex_buffer@,
            vertex_count: self.vertex_count,
            index_buffer: match self.index_buffer {
                Some(buffer) => Some(buffer@),
                None => None,
            },
            index_count: self.index_count,
        }
    }
}

/// The upload of `item_count` items of `item_size` bytes into a buffer of
/// the given usage.
pub open spec fn upload_of(item_size: u64, item_count: usize, usage: u32) -> Upload {
    Upload {
        item_size,
        item_count,
        staging: BufferCreateInfo {
            size: (item_size * item_count) as u64,
            usage: BUFFER_USAGE_TRANSFER_SRC,
            memory_properties: MEMORY_PROPERTY_HOST_VISIBLE | MEMORY_PROPERTY_HOST_COHERENT,
        },
        target: BufferCreateInfo {
            size: (item_size * item_count) as u64,
            usage: usage | BUFFER_USAGE_TRANSFER_DST,
            memory_properties: MEMORY_PROPERTY_DEVICE_LOCAL,
        },
        copy_size: (item_size * item_count) as u64,
    }
}

impl Model {
    /// How `vertex_count` vertices of `vertex_size` bytes each get into a
    /// vertex buffer. A mesh has at least one triangle.
    pub fn create_vertex_buffers(vertex_size: u64, vertex_count: usize) -> (upload: Upload)
        requires
            vertex_count >= 3,
            vertex_size * vertex_count <= u64::MAX,
        ensures
            upload == upload_of(vertex_size, vertex_count, BUFFER_USAGE_VERTEX_BUFFER),
    {
        Self::upload(vertex_size, vertex_count, BUFFER_USAGE_VERTEX_BUFFER)
    }

    /// How `index_count` indices get into an index buffer. A mesh without
    /// indices has no index buffer.
    pub fn create_index_buffers(index_count: usize) -> (upload: Option<Upload>)
        requires
            INDEX_SIZE * index_count <= u64::MAX,
        ensures
            index_count == 0 ==> upload is None,
            index_count > 0 ==> upload == Some(
                upload_of(INDEX_SIZE, index_count, BUFFER_USAGE_INDEX_BUFFER),
            ),
    {
        if index_count == 0 {
            None
        } else {
            Some(Self::upload(INDEX_SIZE, index_count, BUFFER_USAGE_INDEX_BUFFER))
        }
    }

    fn upload(item_size: u64, item_count: usize, usage: u32) -> (upload: Upload)
        requires
            item_size * item_count <= u64::MAX,
        ensures
            upload == upload_of(item_size, item_count, usage),
    {
        let size = item_size * (item_count as u64);
        Upload {
            item_size,
            item_count,
            staging: Buffer::create_info(
                item_size,
                item_count,
                BUFFER_USAGE_TRANSFER_SRC,
                MEMORY_PROPERTY_HOST_VISIBLE | MEMORY_PROPERTY_HOST_COHERENT,
                None,
            ),
            target: Buffer::create_info(
                item_size,
                item_count,
                usage | BUFFER_USAGE_TRANSFER_DST,
                MEMORY_PROPERTY_DEVICE_LOCAL,
                None,
            ),
            copy_size: size,
        }
    }

    /// The mesh whose vertices and indices were uploaded to the given
    /// buffers. The counts are kept in 32 bits, as draw commands take them.
    pub fn new(
        vertex_buffer: Buffer,
        vertex_count: usize,
        index_buffer: Option<Buffer>,
        index_count: usize,
    ) -> (model: Self)
        requires
            vertex_count >= 3,
            index_buffer is Some <==> index_count > 0,
        ensures
            model@ == (ModelView {
                vertex_buffer: vertex_buffer@,
                vertex_count: vertex_count as u32,
                index_buffer: match index_buffer {
                    Some(buffer) => Some(buffer@),
                    None => None,
                },
                index_count: index_count as u32,
            }),
    {
        Model {
            vertex_buffer,
            vertex_count: #[verifier::truncate]
            (vertex_count as u32),
            index_buffer,
            index_count: #[verifier::truncate]
            (index_count as u32),
        }
    }

    /// Whether the mesh is drawn by indices.
    pub fn has_index_buffer(&self) -> (indexed: bool)
        ensures
            indexed == (self@.index_buffer is Some),
    {
        self.index_buffer.is_some()
    }

    /// Gives up the mesh: the vertex buffer first, then the index buffer
    /// where there is one.
    pub fn destroy(self) -> (teardown: (BufferTeardown, Option<BufferTeardown>))
        ensures
            teardown.0 == (BufferTeardown {
                unmap: self@.vertex_buffer.mapped,
                buffer: self@.vertex_buffer.buffer,
                memory: self@.vertex_buffer.memory,
            }),
            teardown.1 == match self@.index_buffer {
                Some(buffer) => Some(
                    BufferTeardown {
                        unmap: buffer.mapped,
                        buffer: buffer.buffer,
                        memory: buffer.memory,
                    },
                ),
                None => None,
            },
    {
        let vertex = self.vertex_buffer.destroy();
        let index = match self.index_buffer {
            Some(buffer) => Some(buffer.destroy()),
            None => None,
        };
        (vertex, index)
    }

    /// The buffers to bind before drawing.
    pub fn bind(&self) -> (binding: ModelBinding)
        ensures
            binding == (ModelBinding {
                vertex_buffer: self@.vertex_buffer.buffer,
                index_buffer: match self@.index_buffer {
                    Some(buffer) => Some(buffer.buffer),
                    None => None,
                },
            }),
    {
        ModelBinding {
            vertex_buffer: self.vertex_buffer.buffer(),
            index_buffer: match self.index_buffer {
                Some(buffer) => Some(buffer.buffer()),
                None => None,
            },
        }
    }

    /// The draw command: by indices where the mesh has them, else by
    /// vertices.
    pub fn draw(&self) -> (call: DrawCall)
        ensures
            call == match self@.index_buffer {
                Some(_) => DrawCall::Indexed { index_count: self@.index_count },
                None => DrawCall::Vertices { vertex_count: self@.vertex_count },
            },
    {
        if self.index_buffer.is_some() {
            DrawCall::Indexed { index_count: self.index_count }
        } else {
            DrawCall::Vertices { vertex_count: self.vertex_count }
        }
    }
}

} // verus!
