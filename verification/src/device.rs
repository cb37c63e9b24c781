//! What the instance and the logical device are created with.

use vstd::prelude::*;
use crate::physical_device::{
    is_first_family, lemma_roles_are_disjoint, QueueFamilyIndices, QueueFamilyProperties, QueueRole,
};
use crate::vulkan::packed_api_version;

verus! {

/// An instance extension to enable.
#[derive(Debug, Clone, Copy, PartialEq, Eq, Structural)]
pub enum InstanceExtension {
    /// The extension with this position among those that the display
    /// requires for presentation.
    Display(usize),
    /// The debug messenger extension.
    DebugUtils,
}

/// What the instance is created with. Application and engine both go by
/// the engine's name, with version 0.
#[derive(Debug, Clone)]
pub struct InstanceCreateInfo {
    /// Packed Vulkan version asked for.
    pub api_version: u32,
    /// Whether the validation layer is enabled.
    pub validation_layer: bool,
    pub extensions: Vec<InstanceExtension>,
}

/// The extensions of an instance: those the display requires, in their
/// order, then the debug messenger extension when validation is asked for.
pub open spec fn instance_extensions(enable_validation: bool, display_extensions: nat) -> Seq<
    InstanceExtension,
> {
    let display = Seq::new(display_extensions, |i: int| InstanceExtension::Display(i as usize));
    if enable_validation {
        display.push(InstanceExtension::DebugUtils)
    } else {
        display
    }
}

/// Chooses what the instance is created with: Vulkan 1.3, the validation
/// layer and the debug messenger extension when validation is asked for,
/// and the extensions that the display requires. `display_extensions` is
/// the number of those; without a display there are none.
pub fn create_instance(enable_validation: bool, display_extensions: Option<usize>) -> (info:
    InstanceCreateInfo)
    ensures
        info.api_version == packed_api_version(0, 1, 3, 0),
        info.validation_layer == enable_validation,
        info.extensions@ == instance_extensions(
            enable_validation,
            match display_extensions {
                Some(n) => n as nat,
                None => 0,
            },
        ),
{
    let count = match display_extensions {
        Some(n) => n,
        None => 0,
    };
    let mut extensions: Vec<InstanceExtension> = Vec::new();
    let mut i: usize = 0;
    while i < count
        invariant
            i <= count,
            extensions@ == Seq::new(i as nat, |k: int| InstanceExtension::Display(k as usize)),
        decreases count - i,
    {
        extensions.push(InstanceExtension::Display(i));
        i += 1;
        assert(extensions@ =~= Seq::new(
            i as nat,
            |k: int| InstanceExtension::Display(k as usize),
        ));
    }
    if enable_validation {
        extensions.push(InstanceExtension::DebugUtils);
    }
    InstanceCreateInfo {
        api_version: ash::vk::make_api_version(0, 1, 3, 0),
        validation_layer: enable_validation,
        extensions,
    }
}

/// A device extension to enable.
#[derive(Debug, Clone, Copy, PartialEq, Eq, Structural)]
pub enum DeviceExtension {
    ShaderObject,
    Swapchain,
}

/// What the logical device is created with. Every feature named here is
/// one the engine cannot run without.
#[derive(Debug, Clone)]
pub struct DeviceCreateInfo {
    /// Queue families to create one queue from, each with priority one.
    pub queue_families: Vec<u32>,
    pub extensions: Vec<DeviceExtension>,
    pub shader_object: bool,
    pub shader_draw_parameters: bool,
    pub synchronization2: bool,
    pub dynamic_rendering: bool,
}

/// The family of a role as a list: one entry where the role is served.
pub open spec fn family_list(family: Option<u32>) -> Seq<u32> {
    match family {
        Some(index) => seq![index],
        None => Seq::empty(),
    }
}

/// The families a device creates queues from: graphics, then compute, then
/// transfer, leaving out the roles that no family serves.
pub open spec fn device_queue_families(indices: QueueFamilyIndices) -> Seq<u32> {
    family_list(indices.graphics_general) + family_list(indices.async_compute) + family_list(
        indices.transfer,
    )
}

/// The extensions of a device: shader objects always, the swapchain
/// only where there is a display to present to.
pub open spec fn device_extensions(headless: bool) -> Seq<DeviceExtension> {
    if headless {
        seq![DeviceExtension::ShaderObject]
    } else {
        seq![DeviceExtension::ShaderObject, DeviceExtension::Swapchain]
    }
}

/// Chooses what the logical device is created with.
pub fn create_device(queue_family_indices: QueueFamilyIndices, headless: bool) -> (info:
    DeviceCreateInfo)
    ensures
        info.queue_families@ == device_queue_families(queue_family_indices),
        info.extensions@ == device_extensions(headless),
        info.shader_object,
        info.shader_draw_parameters,
        info.synchronization2,
        info.dynamic_rendering,
{
    let mut queue_families: Vec<u32> = Vec::new();
    if let Some(graphics_index) = queue_family_indices.graphics_general {
        queue_families.push(graphics_index);
    }
    if let Some(compute_index) = queue_family_indices.async_compute {
        queue_families.push(compute_index);
    }
    if let Some(transfer_index) = queue_family_indices.transfer {
        queue_families.push(transfer_index);
    }
    assert(queue_families@ =~= device_queue_families(queue_family_indices));
    let mut extensions: Vec<DeviceExtension> = Vec::new();
    extensions.push(DeviceExtension::ShaderObject);
    if !headless {
        extensions.push(DeviceExtension::Swapchain);
    }
    assert(extensions@ =~= device_extensions(headless));
    DeviceCreateInfo {
        queue_families,
        extensions,
        shader_object: true,
        shader_draw_parameters: true,
        synchronization2: true,
        dynamic_rendering: true,
    }
}

/// The families chosen by first-match scans differ from each other, so a
/// device is never asked twice for queues of one family.
pub proof fn lemma_queue_families_differ(
    families: Seq<QueueFamilyProperties>,
    indices: QueueFamilyIndices,
)
    requires
        is_first_family(families, QueueRole::GraphicsGeneral, indices.graphics_general),
        is_first_family(families, QueueRole::AsyncCompute, indices.async_compute),
        is_first_family(families, QueueRole::Transfer, indices.transfer),
    ensures
        device_queue_families(indices).no_duplicates(),
{
    let chosen = device_queue_families(indices);
    assert forall|i: int, j: int| 0 <= i < chosen.len() && 0 <= j < chosen.len() && i != j implies chosen[i]
        != chosen[j] by {
        if chosen[i] == chosen[j] {
            let flags = families[chosen[i] as int].queue_flags;
            if let Some(g) = indices.graphics_general {
                if let Some(c) = indices.async_compute {
                    if g == c {
                        lemma_roles_are_disjoint(
                            flags,
                            QueueRole::GraphicsGeneral,
                            QueueRole::AsyncCompute,
                        );
                    }
                }
                if let Some(t) = indices.transfer {
                    if g == t {
                        lemma_roles_are_disjoint(
                            flags,
                            QueueRole::GraphicsGeneral,
                            QueueRole::Transfer,
                        );
                    }
                }
            }
            if let Some(c) = indices.async_compute {
                if let Some(t) = indices.transfer {
                    if c == t {
                        lemma_roles_are_disjoint(
                            flags,
                            QueueRole::AsyncCompute,
                            QueueRole::Transfer,
                        );
                    }
                }
            }
        }
    }
}

} // verus!
