//! Choice of queue families, memory types and physical devices from the
//! property lists that the driver reports.

use vstd::prelude::*;
use crate::vulkan::{contains, flags_contain, queue_compute, queue_flag_bits, queue_graphics, queue_transfer};

verus! {

/// What the driver reports of one queue family, as plain values.
#[derive(Clone, Copy, Debug)]
pub struct QueueFamilyProperties {
    /// Raw `VkQueueFlags` of the family.
    pub queue_flags: u32,
    /// Number of queues the family offers.
    pub queue_count: u32,
}

/// The three kinds of queue family the engine looks for.
#[derive(Clone, Copy, Debug, PartialEq, Eq, Structural)]
pub enum QueueRole {
    /// Graphics and compute together.
    GraphicsGeneral,
    /// Compute without graphics.
    AsyncCompute,
    /// Transfer without graphics or compute.
    Transfer,
}

/// Whether a family with these flags can serve in `role`.
pub open spec fn serves(queue_flags: u32, role: QueueRole) -> bool {
    match role {
        QueueRole::GraphicsGeneral => flags_contain(queue_flags, queue_graphics())
            && flags_contain(queue_flags, queue_compute()),
        QueueRole::AsyncCompute => flags_contain(queue_flags, queue_compute())
            && !flags_contain(queue_flags, queue_graphics()),
        QueueRole::Transfer => flags_contain(queue_flags, queue_transfer())
            && !flags_contain(queue_flags, queue_graphics())
            && !flags_contain(queue_flags, queue_compute()),
    }
}

/// `found` is the index of the first family that serves in `role`, or `None`
/// when no family with an index that fits in 32 bits does.
pub open spec fn is_first_family(
    families: Seq<QueueFamilyProperties>,
    role: QueueRole,
    found: Option<u32>,
) -> bool {
    match found {
        Some(i) => {
            &&& (i as int) < families.len()
            &&& serves(families[i as int].queue_flags, role)
            &&& forall|j: int| 0 <= j < i ==> !serves(#[trigger] families[j].queue_flags, role)
        },
        None => forall|j: int|
            0 <= j < families.len() && j <= u32::MAX ==> !serves(
                #[trigger] families[j].queue_flags,
                role,
            ),
    }
}

/// Index of the first family that serves in `role`.
pub fn first_family(families: &Vec<QueueFamilyProperties>, role: QueueRole) -> (found: Option<u32>)
    ensures
        is_first_family(families@, role, found),
{
    let bits = queue_flag_bits();
    let mut i: usize = 0;
    while i < families.len() && i <= u32::MAX as usize
        invariant
            i <= families.len(),
            bits.graphics == queue_graphics(),
            bits.compute == queue_compute(),
            bits.transfer == queue_transfer(),
            forall|j: int| 0 <= j < i ==> !serves(#[trigger] families@[j].queue_flags, role),
        decreases families.len() - i,
    {
        let flags = families[i].queue_flags;
        let graphics = contains(flags, bits.graphics);
        let compute = contains(flags, bits.compute);
        let transfer = contains(flags, bits.transfer);
        let hit = match role {
            QueueRole::GraphicsGeneral => graphics && compute,
            QueueRole::AsyncCompute => compute && !graphics,
            QueueRole::Transfer => transfer && !graphics && !compute,
        };
        if hit {
            return Some(i as u32);
        }
        i += 1;
    }
    None
}

/// Queue family chosen for each role; a role that no family serves stays
/// `None`.
#[derive(Copy, Clone, Debug)]
pub struct QueueFamilyIndices {
    pub graphics_general: Option<u32>,
    pub async_compute: Option<u32>,
    pub transfer: Option<u32>,
}

impl QueueFamilyIndices {
    /// Three independent first-match scans over the family list.
    pub fn new(queue_family_properties: &Vec<QueueFamilyProperties>) -> (indices: Self)
        ensures
            is_first_family(
                queue_family_properties@,
                QueueRole::GraphicsGeneral,
                indices.graphics_general,
            ),
            is_first_family(
                queue_family_properties@,
                QueueRole::AsyncCompute,
                indices.async_compute,
            ),
            is_first_family(queue_family_properties@, QueueRole::Transfer, indices.transfer),
    {
        QueueFamilyIndices {
            graphics_general: first_family(queue_family_properties, QueueRole::GraphicsGeneral),
            async_compute: first_family(queue_family_properties, QueueRole::AsyncCompute),
            transfer: first_family(queue_family_properties, QueueRole::Transfer),
        }
    }
}

/// One memory type of a physical device, as plain values.
#[derive(Clone, Copy, Debug)]
pub struct MemoryType {
    /// Raw `VkMemoryPropertyFlags` of the type.
    pub property_flags: u32,
    /// Heap the type allocates from.
    pub heap_index: u32,
}

/// What a buffer or image asks of the memory bound to it.
#[derive(Clone, Copy, Debug)]
pub struct MemoryRequirements {
    pub size: u64,
    pub alignment: u64,
    /// Bit `i` is set when memory type `i` may back the resource.
    pub memory_type_bits: u32,
}

/// Whether memory type `index` is allowed by `memory_type_bits` and has all
/// of the property `flags`.
pub open spec fn memory_type_fits(
    memory_types: Seq<MemoryType>,
    memory_type_bits: u32,
    flags: u32,
    index: int,
) -> bool {
    &&& 0 <= index < memory_types.len()
    &&& index < 32
    &&& (1u32 << (index as u32)) & memory_type_bits != 0
    &&& flags_contain(memory_types[index].property_flags, flags)
}

/// `found` is the lowest index of a fitting memory type, or `None` when
/// there is none.
pub open spec fn is_first_memory_type(
    memory_types: Seq<MemoryType>,
    memory_type_bits: u32,
    flags: u32,
    found: Option<u32>,
) -> bool {
    match found {
        Some(i) => {
            &&& memory_type_fits(memory_types, memory_type_bits, flags, i as int)
            &&& forall|j: int|
                0 <= j < i ==> !#[trigger] memory_type_fits(
                    memory_types,
                    memory_type_bits,
                    flags,
                    j,
                )
        },
        None => forall|j: int|
            !#[trigger] memory_type_fits(memory_types, memory_type_bits, flags, j),
    }
}

/// First memory type, in the device's order, that the requirements allow and
/// that has every requested property flag.
pub fn find_memorytype_index(
    memory_types: &Vec<MemoryType>,
    memory_req: &MemoryRequirements,
    flags: u32,
) -> (found: Option<u32>)
    ensures
        is_first_memory_type(memory_types@, memory_req.memory_type_bits, flags, found),
{
    let mut i: usize = 0;
    while i < memory_types.len() && i < 32
        invariant
            i <= memory_types.len(),
            i <= 32,
            forall|j: int|
                0 <= j < i ==> !#[trigger] memory_type_fits(
                    memory_types@,
                    memory_req.memory_type_bits,
                    flags,
                    j,
                ),
        decreases memory_types.len() - i,
    {
        let shift: u32 = i as u32;
        if (1u32 << shift) & memory_req.memory_type_bits != 0 && contains(
            memory_types[i].property_flags,
            flags,
        ) {
            return Some(shift);
        }
        i += 1;
    }
    None
}

/// Whether any queue family of a device can present to the surface.
pub open spec fn supports_surface(family_support: Seq<bool>) -> bool {
    exists|j: int| 0 <= j < family_support.len() && family_support[j]
}

/// Positions of the devices that support the surface, in ascending order.
pub open spec fn supporting_devices(surface_support: Seq<Vec<bool>>) -> Seq<usize>
    decreases surface_support.len(),
{
    if surface_support.len() == 0 {
        Seq::empty()
    } else {
        let rest = supporting_devices(surface_support.drop_last());
        if supports_surface(surface_support.last()@) {
            rest.push((surface_support.len() - 1) as usize)
        } else {
            rest
        }
    }
}

/// Whether one device has a queue family that can present.
fn any_family_supports(family_support: &Vec<bool>) -> (yes: bool)
    ensures
        yes == supports_surface(family_support@),
{
    let mut j: usize = 0;
    while j < family_support.len()
        invariant
            j <= family_support.len(),
            forall|k: int| 0 <= k < j ==> !family_support@[k],
        decreases family_support.len() - j,
    {
        if family_support[j] {
            return true;
        }
        j += 1;
    }
    false
}

/// Keeps the devices that can present to a surface. `surface_support[d][q]`
/// says whether queue family `q` of device `d` supports the surface; the
/// result lists the positions `d` that have at least one such family.
pub fn get_physical_devices_supporting_surface(surface_support: &Vec<Vec<bool>>) -> (kept: Vec<
    usize,
>)
    ensures
        kept@ == supporting_devices(surface_support@),
{
    let mut kept: Vec<usize> = Vec::new();
    let mut d: usize = 0;
    while d < surface_support.len()
        invariant
            d <= surface_support.len(),
            kept@ == supporting_devices(surface_support@.take(d as int)),
        decreases surface_support.len() - d,
    {
        let yes = any_family_supports(&surface_support[d]);
        proof {
            let next = surface_support@.take(d + 1);
            assert(next.drop_last() == surface_support@.take(d as int));
            assert(next.last() == surface_support@[d as int]);
        }
        if yes {
            kept.push(d);
        }
        d += 1;
    }
    proof {
        assert(surface_support@.take(d as int) == surface_support@);
    }
    kept
}

/// What device selection reads of one physical device.
#[derive(Clone, Copy, Debug)]
pub struct PhysicalDeviceFeatures {
    pub shader_object: bool,
    pub dynamic_rendering: bool,
    pub synchronization2: bool,
    pub shader_draw_parameters: bool,
}

/// Whether a device offers every feature the engine cannot run without.
pub open spec fn is_suitable(features: PhysicalDeviceFeatures) -> bool {
    &&& features.shader_object
    &&& features.dynamic_rendering
    &&& features.synchronization2
    &&& features.shader_draw_parameters
}

/// Picks the first enumerated device that offers the required features.
/// `None` means that no device can run the engine, which is fatal for
/// engine construction.
pub fn select_physical_device(physical_devices: &Vec<PhysicalDeviceFeatures>) -> (chosen: Option<
    usize,
>)
    ensures
        match chosen {
            Some(i) => {
                &&& i < physical_devices@.len()
                &&& is_suitable(physical_devices@[i as int])
                &&& forall|j: int| 0 <= j < i ==> !is_suitable(#[trigger] physical_devices@[j])
            },
            None => forall|j: int|
                0 <= j < physical_devices@.len() ==> !is_suitable(#[trigger] physical_devices@[j]),
        },
{
    let mut i: usize = 0;
    while i < physical_devices.len()
        invariant
            i <= physical_devices.len(),
            forall|j: int| 0 <= j < i ==> !is_suitable(#[trigger] physical_devices@[j]),
        decreases physical_devices.len() - i,
    {
        let f = &physical_devices[i];
        if f.shader_object && f.dynamic_rendering && f.synchronization2
            && f.shader_draw_parameters {
            return Some(i);
        }
        i += 1;
    }
    None
}

/// No family serves in two roles, so the families chosen for the three
/// roles differ from each other and a device can be asked for one queue of
/// each.
pub proof fn lemma_roles_are_disjoint(queue_flags: u32, a: QueueRole, b: QueueRole)
    requires
        serves(queue_flags, a),
        serves(queue_flags, b),
    ensures
        a == b,
{
}

} // verus!
