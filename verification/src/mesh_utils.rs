//! The buffers that hold a mesh on the device.

use vstd::prelude::*;
use crate::memory_utils::{buffer_create_info, BufferCreateInfo};
use crate::model::{Model, ModelData};
use crate::vulkan::{
    buffer_usage_bits, memory_device_local, memory_host_coherent, memory_host_visible,
    memory_property_bits, usage_index_buffer, usage_transfer_dst, usage_transfer_src,
    usage_vertex_buffer,
};

verus! {

/// Bytes of one vertex position: three single-precision numbers.
pub const VERTEX_SIZE: u64 = 12;

/// Bytes of one index.
pub const INDEX_SIZE: u64 = 4;

/// The four buffers of a mesh. Vertices and indices are written by the host
/// into a staging buffer each and copied from there, once, into buffers in
/// device-local memory.
#[derive(Debug, Clone, Copy, PartialEq, Eq, Structural)]
pub struct VulkanMesh {
    pub vertex_staging_buffer: BufferCreateInfo,
    pub vertex_buffer: BufferCreateInfo,
    pub vertex_buffer_size: u64,
    pub index_staging_buffer: BufferCreateInfo,
    pub index_buffer: BufferCreateInfo,
    pub index_buffer_size: u64,
    pub index_count: u32,
}

/// Why a mesh cannot be uploaded.
#[derive(Debug, Clone, Copy, PartialEq, Eq, Structural)]
pub enum MeshError {
    /// The mesh has more indices than one draw can take, or more vertex
    /// bytes than a buffer size can say.
    TooLarge,
}

/// Whether the mesh fits: its index count in 32 bits and its vertex bytes in
/// 64.
pub open spec fn uploadable(m: ModelData) -> bool {
    m.indices.len() <= u32::MAX && m.verts.len() * VERTEX_SIZE <= u64::MAX
}

/// The buffers of an uploadable mesh.
pub open spec fn mesh_buffers(m: ModelData) -> VulkanMesh {
    let vertex_buffer_size = (m.verts.len() * VERTEX_SIZE) as u64;
    let index_buffer_size = (m.indices.len() * INDEX_SIZE) as u64;
    let host = memory_host_visible() | memory_host_coherent();
    VulkanMesh {
        vertex_staging_buffer: BufferCreateInfo {
            size: vertex_buffer_size,
            usage: usage_transfer_src() | usage_vertex_buffer(),
            memory_properties: host,
        },
        vertex_buffer: BufferCreateInfo {
            size: vertex_buffer_size,
            usage: usage_transfer_dst() | usage_vertex_buffer(),
            memory_properties: memory_device_local(),
        },
        vertex_buffer_size,
        index_staging_buffer: BufferCreateInfo {
            size: index_buffer_size,
            usage: usage_transfer_src() | usage_index_buffer(),
            memory_properties: host,
        },
        index_buffer: BufferCreateInfo {
            size: index_buffer_size,
            usage: usage_transfer_dst() | usage_index_buffer(),
            memory_properties: memory_device_local(),
        },
        index_buffer_size,
        index_count: m.indices.len() as u32,
    }
}

impl VulkanMesh {
    /// Sizes and kinds of the buffers for a mesh. Fails exactly when the
    /// mesh does not fit.
    pub fn from_model(model: &Model) -> (mesh: Result<VulkanMesh, MeshError>)
        ensures
            uploadable(model@) ==> mesh == Ok::<VulkanMesh, MeshError>(mesh_buffers(model@)),
            !uploadable(model@) ==> mesh == Err::<VulkanMesh, MeshError>(MeshError::TooLarge),
    {
        let vert_count = model.verts.len();
        let index_count = model.indices.len();
        if index_count > u32::MAX as usize || vert_count as u64 > u64::MAX / VERTEX_SIZE {
            return Err(MeshError::TooLarge);
        }
        let vertex_buffer_size: u64 = (vert_count as u64) * VERTEX_SIZE;
        let index_buffer_size: u64 = (index_count as u64) * INDEX_SIZE;
        let usage = buffer_usage_bits();
        let memory = memory_property_bits();
        let host = memory.host_visible | memory.host_coherent;
        Ok(
            VulkanMesh {
                vertex_staging_buffer: buffer_create_info(
                    vertex_buffer_size,
                    usage.transfer_src | usage.vertex_buffer,
                    host,
                ),
                vertex_buffer: buffer_create_info(
                    vertex_buffer_size,
                    usage.transfer_dst | usage.vertex_buffer,
                    memory.device_local,
                ),
                vertex_buffer_size,
                index_staging_buffer: buffer_create_info(
                    index_buffer_size,
                    usage.transfer_src | usage.index_buffer,
                    host,
                ),
                index_buffer: buffer_create_info(
                    index_buffer_size,
                    usage.transfer_dst | usage.index_buffer,
                    memory.device_local,
                ),
                index_buffer_size,
                index_count: index_count as u32,
            },
        )
    }
}

} // verus!
