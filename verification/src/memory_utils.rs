//! Allocation of the memory behind a buffer.

use vstd::prelude::*;
use crate::physical_device::{
    find_memorytype_index, is_first_memory_type, MemoryRequirements, MemoryType,
};

verus! {

/// The buffer to create: its size in bytes and its raw usage flags. Every
/// buffer of the engine is used by one queue family only.
#[derive(Debug, Clone, Copy, PartialEq, Eq, Structural)]
pub struct BufferCreateInfo {
    pub size: u64,
    /// Raw `VkBufferUsageFlags`.
    pub usage: u32,
    /// Raw `VkMemoryPropertyFlags` that the buffer's memory must have.
    pub memory_properties: u32,
}

/// The allocation to make for a resource, which is then bound at offset 0.
#[derive(Debug, Clone, Copy, PartialEq, Eq, Structural)]
pub struct MemoryAllocateInfo {
    pub allocation_size: u64,
    pub memory_type_index: u32,
}

/// Describes a buffer of `size` bytes.
pub fn buffer_create_info(size: u64, usage: u32, memory_properties: u32) -> (info:
    BufferCreateInfo)
    ensures
        info == (BufferCreateInfo { size, usage, memory_properties }),
{
    BufferCreateInfo { size, usage, memory_properties }
}

/// Chooses the memory for a buffer that was created and reports these
/// requirements: as many bytes as it requires, from the first memory type
/// that it allows and that has the wanted properties. `None` when the device
/// has no such memory type.
pub fn create_buffer(
    memory_types: &Vec<MemoryType>,
    memory_reqs: &MemoryRequirements,
    memory_properties: u32,
) -> (allocation: Option<MemoryAllocateInfo>)
    ensures
        match allocation {
            Some(a) => a.allocation_size == memory_reqs.size && is_first_memory_type(
                memory_types@,
                memory_reqs.memory_type_bits,
                memory_properties,
                Some(a.memory_type_index),
            ),
            None => is_first_memory_type(
                memory_types@,
                memory_reqs.memory_type_bits,
                memory_properties,
                None,
            ),
        },
{
    match find_memorytype_index(memory_types, memory_reqs, memory_properties) {
        Some(index) => Some(
            MemoryAllocateInfo { allocation_size: memory_reqs.size, memory_type_index: index },
        ),
        None => None,
    }
}

} // verus!
