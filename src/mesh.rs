//! Vertex and index payload of a piece of geometry, with its buffers.
use vstd::prelude::*;

use crate::buffer::{
    align_up, fits_aligned, payload_bytes, Buffer, BufferError, MemoryLocation, USAGE_INDEX_BUFFER,
    USAGE_VERTEX_BUFFER,
};

verus! {

/// Immutable geometry: vertices of type `V`, triangle indices, and the two
/// buffers that hold them on the device.
pub struct Mesh<V> {
    pub vertices: Vec<V>,
    pub indices: Vec<u32>,
    pub vertex_buffer: Buffer,
    pub index_buffer: Buffer,
}

impl<V> Mesh<V> {
    /// Both buffers are well formed and hold exactly this mesh's payload.
    pub open spec fn wf(&self) -> bool {
        &&& self.vertex_buffer.wf()
        &&& self.index_buffer.wf()
        &&& self.vertex_buffer.written == payload_bytes::<V>(self.vertices@.len() as int)
        &&& self.index_buffer.written == payload_bytes::<u32>(self.indices@.len() as int)
    }

    /// Whether buffers for this many vertices and indices can be sized.
    pub open spec fn sizes_fit(n_vertices: int, n_indices: int) -> bool {
        &&& payload_bytes::<V>(n_vertices) <= u64::MAX
        &&& fits_aligned(payload_bytes::<V>(n_vertices))
        &&& payload_bytes::<u32>(n_indices) <= u64::MAX
        &&& fits_aligned(payload_bytes::<u32>(n_indices))
    }

    /// A mesh whose vertex and index buffers are sized for exactly its payload
    /// (rounded up to the alignment) and filled with it.
    pub fn from_vertices(vertices: Vec<V>, indices: Vec<u32>) -> (r: Result<Self, BufferError>)
        ensures
            r is Ok <==> Self::sizes_fit(vertices@.len() as int, indices@.len() as int),
            r matches Ok(m) ==> {
                &&& m.wf()
                &&& m.vertices@ == vertices@
                &&& m.indices@ == indices@
                &&& m.vertex_buffer.size == align_up(payload_bytes::<V>(vertices@.len() as int))
                &&& m.index_buffer.size == align_up(payload_bytes::<u32>(indices@.len() as int))
                &&& m.vertex_buffer.usage == USAGE_VERTEX_BUFFER
                &&& m.index_buffer.usage == USAGE_INDEX_BUFFER
                &&& m.vertex_buffer.location == MemoryLocation::CpuToGpu
                &&& m.index_buffer.location == MemoryLocation::CpuToGpu
            },
            r matches Err(e) ==> e == BufferError::SizeOverflow,
    {
        let vertex_bytes = match crate::buffer::byte_size(vertices.as_slice()) {
            Some(b) => b,
            None => return Err(BufferError::SizeOverflow),
        };
        let mut vertex_buffer = Buffer::create(
            vertex_bytes,
            USAGE_VERTEX_BUFFER,
            MemoryLocation::CpuToGpu,
        )?;
        let index_bytes = match crate::buffer::byte_size(indices.as_slice()) {
            Some(b) => b,
            None => return Err(BufferError::SizeOverflow),
        };
        let mut index_buffer = Buffer::create(index_bytes, USAGE_INDEX_BUFFER, MemoryLocation::CpuToGpu)?;
        vertex_buffer.copy_memory(vertices.as_slice())?;
        index_buffer.copy_memory(indices.as_slice())?;
        Ok(Mesh { vertices, indices, vertex_buffer, index_buffer })
    }
}

} // verus!
