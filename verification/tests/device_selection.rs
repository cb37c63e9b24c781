use ash::vk;
use varre_engine::device::{create_device, create_instance, DeviceExtension, InstanceExtension};
use varre_engine::engine::{EngineError, VulkanEngine};
use varre_engine::memory_utils::create_buffer;
use varre_engine::physical_device::{
    find_memorytype_index, first_family, get_physical_devices_supporting_surface,
    select_physical_device, MemoryRequirements, MemoryType, PhysicalDeviceFeatures,
    QueueFamilyIndices, QueueFamilyProperties, QueueRole,
};

fn family(queue_flags: vk::QueueFlags) -> QueueFamilyProperties {
    QueueFamilyProperties { queue_flags: queue_flags.as_raw(), queue_count: 1 }
}

fn typical_families() -> Vec<QueueFamilyProperties> {
    vec![
        family(vk::QueueFlags::GRAPHICS | vk::QueueFlags::COMPUTE | vk::QueueFlags::TRANSFER),
        family(vk::QueueFlags::COMPUTE | vk::QueueFlags::TRANSFER),
        family(vk::QueueFlags::TRANSFER | vk::QueueFlags::SPARSE_BINDING),
    ]
}

fn suitable() -> PhysicalDeviceFeatures {
    PhysicalDeviceFeatures {
        shader_object: true,
        dynamic_rendering: true,
        synchronization2: true,
        shader_draw_parameters: true,
    }
}

#[test]
fn lib_test_create_instance() {
    let info = create_instance(true, None);
    assert_eq!(info.api_version, vk::make_api_version(0, 1, 3, 0));
    assert_eq!(info.api_version, 0x0040_3000);
    assert!(info.validation_layer);
    assert_eq!(info.extensions, vec![InstanceExtension::DebugUtils]);
}

#[test]
fn lib_test_create_device() {
    let chosen = select_physical_device(&vec![suitable()]);
    assert_eq!(chosen, Some(0));
    let queue_family_indices = QueueFamilyIndices::new(&typical_families());
    let info = create_device(queue_family_indices, false);
    assert_eq!(info.queue_families, vec![0, 1, 2]);
    assert_eq!(info.extensions, vec![DeviceExtension::ShaderObject, DeviceExtension::Swapchain]);
    assert!(info.shader_object && info.dynamic_rendering);
    assert!(info.synchronization2 && info.shader_draw_parameters);
}

#[test]
fn lib_test_create_engine() {
    let indices = QueueFamilyIndices::new(&typical_families());
    let engine = VulkanEngine::new(true, true, indices).expect("Failed to create VarreEngine");
    assert_eq!(engine.graphics_queue_family(), 0);
    assert_eq!(engine.window_state(), None);
    assert_eq!(engine.context_state(), None);
}

#[test]
fn engine_needs_a_graphics_queue() {
    let indices = QueueFamilyIndices::new(&vec![family(vk::QueueFlags::TRANSFER)]);
    assert_eq!(indices.graphics_general, None);
    let refused = VulkanEngine::new(false, true, indices);
    assert!(matches!(refused, Err(EngineError::NoGraphicsQueue)));
}

#[test]
fn instance_lists_display_extensions_before_debug_utils() {
    let info = create_instance(true, Some(2));
    assert_eq!(
        info.extensions,
        vec![
            InstanceExtension::Display(0),
            InstanceExtension::Display(1),
            InstanceExtension::DebugUtils
        ]
    );
    let quiet = create_instance(false, Some(2));
    assert!(!quiet.validation_layer);
    assert_eq!(quiet.extensions, vec![InstanceExtension::Display(0), InstanceExtension::Display(1)]);
    assert!(create_instance(false, None).extensions.is_empty());
}

#[test]
fn headless_device_has_no_swapchain_extension() {
    let indices = QueueFamilyIndices {
        graphics_general: Some(4),
        async_compute: None,
        transfer: Some(1),
    };
    let info = create_device(indices, true);
    assert_eq!(info.queue_families, vec![4, 1]);
    assert_eq!(info.extensions, vec![DeviceExtension::ShaderObject]);
}

#[test]
fn queue_families_are_found_by_first_match() {
    let indices = QueueFamilyIndices::new(&typical_families());
    assert_eq!(indices.graphics_general, Some(0));
    assert_eq!(indices.async_compute, Some(1));
    assert_eq!(indices.transfer, Some(2));
}

#[test]
fn queue_families_skip_what_does_not_serve() {
    let families = vec![
        family(vk::QueueFlags::TRANSFER),
        family(vk::QueueFlags::GRAPHICS),
        family(vk::QueueFlags::COMPUTE),
        family(vk::QueueFlags::GRAPHICS | vk::QueueFlags::COMPUTE),
        family(vk::QueueFlags::GRAPHICS | vk::QueueFlags::COMPUTE),
        family(vk::QueueFlags::COMPUTE),
    ];
    let indices = QueueFamilyIndices::new(&families);
    assert_eq!(indices.graphics_general, Some(3));
    assert_eq!(indices.async_compute, Some(2));
    assert_eq!(indices.transfer, Some(0));
    assert_eq!(first_family(&families, QueueRole::GraphicsGeneral), Some(3));
}

#[test]
fn absent_queue_capabilities_are_none() {
    let indices = QueueFamilyIndices::new(&Vec::new());
    assert_eq!(indices.graphics_general, None);
    assert_eq!(indices.async_compute, None);
    assert_eq!(indices.transfer, None);
    let only_graphics = QueueFamilyIndices::new(&vec![family(vk::QueueFlags::GRAPHICS)]);
    assert_eq!(only_graphics.graphics_general, None);
    assert_eq!(only_graphics.async_compute, None);
    assert_eq!(only_graphics.transfer, None);
}

fn memory_types() -> Vec<MemoryType> {
    let host = (vk::MemoryPropertyFlags::HOST_VISIBLE | vk::MemoryPropertyFlags::HOST_COHERENT)
        .as_raw();
    vec![
        MemoryType { property_flags: vk::MemoryPropertyFlags::DEVICE_LOCAL.as_raw(), heap_index: 0 },
        MemoryType { property_flags: host, heap_index: 1 },
        MemoryType {
            property_flags: host | vk::MemoryPropertyFlags::DEVICE_LOCAL.as_raw(),
            heap_index: 0,
        },
    ]
}

#[test]
fn memory_type_is_first_allowed_with_all_flags() {
    let device_local = vk::MemoryPropertyFlags::DEVICE_LOCAL.as_raw();
    let host = (vk::MemoryPropertyFlags::HOST_VISIBLE | vk::MemoryPropertyFlags::HOST_COHERENT)
        .as_raw();
    let all = MemoryRequirements { size: 64, alignment: 16, memory_type_bits: 0b111 };
    assert_eq!(find_memorytype_index(&memory_types(), &all, device_local), Some(0));
    assert_eq!(find_memorytype_index(&memory_types(), &all, host), Some(1));
    assert_eq!(find_memorytype_index(&memory_types(), &all, host | device_local), Some(2));
    let not_first = MemoryRequirements { size: 64, alignment: 16, memory_type_bits: 0b110 };
    assert_eq!(find_memorytype_index(&memory_types(), &not_first, device_local), Some(2));
    assert_eq!(find_memorytype_index(&memory_types(), &not_first, 0), Some(1));
}

#[test]
fn memory_type_may_be_missing() {
    let cached = vk::MemoryPropertyFlags::HOST_CACHED.as_raw();
    let all = MemoryRequirements { size: 64, alignment: 16, memory_type_bits: 0b111 };
    assert_eq!(find_memorytype_index(&memory_types(), &all, cached), None);
    let none = MemoryRequirements { size: 64, alignment: 16, memory_type_bits: 0 };
    assert_eq!(find_memorytype_index(&memory_types(), &none, 0), None);
    let beyond = MemoryRequirements { size: 64, alignment: 16, memory_type_bits: 0b1000 };
    assert_eq!(find_memorytype_index(&memory_types(), &beyond, 0), None);
    assert_eq!(find_memorytype_index(&Vec::new(), &all, 0), None);
}

#[test]
fn memory_types_past_the_mask_are_never_chosen() {
    let types: Vec<MemoryType> =
        (0..40).map(|_| MemoryType { property_flags: 1, heap_index: 0 }).collect();
    let last = MemoryRequirements { size: 1, alignment: 1, memory_type_bits: 1 << 31 };
    assert_eq!(find_memorytype_index(&types, &last, 1), Some(31));
    let wants_two = MemoryRequirements { size: 1, alignment: 1, memory_type_bits: u32::MAX };
    assert_eq!(find_memorytype_index(&types, &wants_two, 2), None);
}

#[test]
fn buffer_memory_takes_required_size_and_first_fitting_type() {
    let host = (vk::MemoryPropertyFlags::HOST_VISIBLE | vk::MemoryPropertyFlags::HOST_COHERENT)
        .as_raw();
    let reqs = MemoryRequirements { size: 4096, alignment: 256, memory_type_bits: 0b110 };
    let allocation = create_buffer(&memory_types(), &reqs, host).unwrap();
    assert_eq!(allocation.allocation_size, 4096);
    assert_eq!(allocation.memory_type_index, 1);
    let cached = vk::MemoryPropertyFlags::HOST_CACHED.as_raw();
    assert_eq!(create_buffer(&memory_types(), &reqs, cached), None);
}

#[test]
fn devices_supporting_surface_keep_their_order() {
    let support = vec![
        vec![false, false],
        vec![false, true],
        vec![],
        vec![true],
        vec![false, false, true, true],
    ];
    assert_eq!(get_physical_devices_supporting_surface(&support), vec![1, 3, 4]);
    assert!(get_physical_devices_supporting_surface(&Vec::new()).is_empty());
    assert!(get_physical_devices_supporting_surface(&vec![vec![false]]).is_empty());
}

#[test]
fn first_suitable_device_is_selected() {
    let lacking = PhysicalDeviceFeatures { shader_object: false, ..suitable() };
    let no_dynamic = PhysicalDeviceFeatures { dynamic_rendering: false, ..suitable() };
    assert_eq!(select_physical_device(&vec![lacking, no_dynamic, suitable(), suitable()]), Some(2));
    assert_eq!(select_physical_device(&vec![suitable(), lacking]), Some(0));
}

#[test]
fn no_suitable_device_is_a_failure() {
    let no_sync = PhysicalDeviceFeatures { synchronization2: false, ..suitable() };
    let no_params = PhysicalDeviceFeatures { shader_draw_parameters: false, ..suitable() };
    assert_eq!(select_physical_device(&vec![no_sync, no_params]), None);
    assert_eq!(select_physical_device(&Vec::new()), None);
}
