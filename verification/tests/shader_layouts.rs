use ash::vk;
use varre_engine::shader_utils::{
    convert_binding, create_shader_object, get_next_stages, group_bindings,
    make_descriptor_set_layouts, DescriptorSetLayoutBinding, Shader, ShaderError, ShaderID,
    ShaderStage, ToVkShaderStage, VkDescriptorSetLayoutBinding, VulkanShader,
};

const VERTEX: u32 = vk::ShaderStageFlags::VERTEX.as_raw();
const TESSELLATION_CONTROL: u32 = vk::ShaderStageFlags::TESSELLATION_CONTROL.as_raw();
const TESSELLATION_EVALUATION: u32 = vk::ShaderStageFlags::TESSELLATION_EVALUATION.as_raw();
const GEOMETRY: u32 = vk::ShaderStageFlags::GEOMETRY.as_raw();
const FRAGMENT: u32 = vk::ShaderStageFlags::FRAGMENT.as_raw();
const COMPUTE: u32 = vk::ShaderStageFlags::COMPUTE.as_raw();
const TASK: u32 = vk::ShaderStageFlags::TASK_EXT.as_raw();
const MESH: u32 = vk::ShaderStageFlags::MESH_EXT.as_raw();
const RAYGEN: u32 = vk::ShaderStageFlags::RAYGEN_KHR.as_raw();

fn binding(set: u32, binding: u32) -> VkDescriptorSetLayoutBinding {
    VkDescriptorSetLayoutBinding {
        set,
        binding,
        descriptor_type: vk::DescriptorType::UNIFORM_BUFFER.as_raw() as u32,
        descriptor_count: 1,
        stage_flags: VERTEX,
    }
}

static BINDINGS_1_0_1: [VkDescriptorSetLayoutBinding; 3] = [
    VkDescriptorSetLayoutBinding {
        set: 1,
        binding: 0,
        descriptor_type: 6,
        descriptor_count: 1,
        stage_flags: 1,
    },
    VkDescriptorSetLayoutBinding {
        set: 0,
        binding: 0,
        descriptor_type: 6,
        descriptor_count: 2,
        stage_flags: 16,
    },
    VkDescriptorSetLayoutBinding {
        set: 1,
        binding: 1,
        descriptor_type: 1,
        descriptor_count: 3,
        stage_flags: 17,
    },
];

fn shader(stage: ShaderStage, entry_point: &'static str) -> Shader {
    Shader {
        id: ShaderID::BasicModelVertex,
        spv: &[3, 2, 35, 7],
        stage,
        entry_point,
        descriptor_set_layout_bindings: &BINDINGS_1_0_1,
    }
}

#[test]
fn stages_convert_to_their_flag_bits() {
    assert_eq!(ShaderStage::Vertex.to_vk(), VERTEX);
    assert_eq!(ShaderStage::TessellationControl.to_vk(), TESSELLATION_CONTROL);
    assert_eq!(ShaderStage::TessellationEvaluation.to_vk(), TESSELLATION_EVALUATION);
    assert_eq!(ShaderStage::Geometry.to_vk(), GEOMETRY);
    assert_eq!(ShaderStage::Fragment.to_vk(), FRAGMENT);
    assert_eq!(ShaderStage::Compute.to_vk(), COMPUTE);
    assert_eq!(ShaderStage::Task.to_vk(), TASK);
    assert_eq!(ShaderStage::Mesh.to_vk(), MESH);
    assert_eq!(ShaderStage::Raygen.to_vk(), RAYGEN);
}

#[test]
fn stage_flag_bits_have_their_values() {
    assert_eq!(ShaderStage::Vertex.to_vk(), 0x1);
    assert_eq!(ShaderStage::TessellationControl.to_vk(), 0x2);
    assert_eq!(ShaderStage::TessellationEvaluation.to_vk(), 0x4);
    assert_eq!(ShaderStage::Geometry.to_vk(), 0x8);
    assert_eq!(ShaderStage::Fragment.to_vk(), 0x10);
    assert_eq!(ShaderStage::Compute.to_vk(), 0x20);
    assert_eq!(ShaderStage::Task.to_vk(), 0x40);
    assert_eq!(ShaderStage::Mesh.to_vk(), 0x80);
    assert_eq!(ShaderStage::Raygen.to_vk(), 0x100);
}

#[test]
fn next_stage_of_vertex() {
    assert_eq!(get_next_stages(VERTEX), Some(TESSELLATION_CONTROL | GEOMETRY | FRAGMENT));
    assert_eq!(get_next_stages(VERTEX), Some(0x1A));
}

#[test]
fn next_stage_of_tessellation_control() {
    assert_eq!(get_next_stages(TESSELLATION_CONTROL), Some(TESSELLATION_EVALUATION));
}

#[test]
fn next_stage_of_tessellation_evaluation() {
    assert_eq!(get_next_stages(TESSELLATION_EVALUATION), Some(GEOMETRY | FRAGMENT));
    assert_eq!(get_next_stages(TESSELLATION_EVALUATION), Some(0x18));
}

#[test]
fn next_stage_of_geometry() {
    assert_eq!(get_next_stages(GEOMETRY), Some(FRAGMENT));
}

#[test]
fn next_stage_of_task() {
    assert_eq!(get_next_stages(TASK), Some(MESH));
}

#[test]
fn next_stage_of_mesh() {
    assert_eq!(get_next_stages(MESH), Some(FRAGMENT));
}

#[test]
fn terminal_stages_have_no_next_stage() {
    assert_eq!(get_next_stages(FRAGMENT), Some(0));
    assert_eq!(get_next_stages(COMPUTE), Some(0));
    assert_eq!(get_next_stages(RAYGEN), Some(0));
}

#[test]
fn unknown_stage_is_refused() {
    assert_eq!(get_next_stages(0), None);
    assert_eq!(get_next_stages(VERTEX | FRAGMENT), None);
    assert_eq!(get_next_stages(vk::ShaderStageFlags::ANY_HIT_KHR.as_raw()), None);
    assert_eq!(get_next_stages(vk::ShaderStageFlags::ALL_GRAPHICS.as_raw()), None);
    assert_eq!(get_next_stages(u32::MAX), None);
}

#[test]
fn every_stage_has_an_entry_in_the_stage_graph() {
    let stages = [
        ShaderStage::Vertex,
        ShaderStage::TessellationControl,
        ShaderStage::TessellationEvaluation,
        ShaderStage::Geometry,
        ShaderStage::Fragment,
        ShaderStage::Compute,
        ShaderStage::Task,
        ShaderStage::Mesh,
        ShaderStage::Raygen,
    ];
    for stage in stages {
        assert!(get_next_stages(stage.to_vk()).is_some());
    }
}

#[test]
fn bindings_of_sets_1_0_1_give_two_layouts() {
    let layouts = group_bindings(&BINDINGS_1_0_1);
    assert_eq!(layouts.len(), 2);
    assert_eq!(layouts[0].set, 0);
    assert_eq!(layouts[1].set, 1);
    assert_eq!(
        layouts[0].bindings,
        vec![DescriptorSetLayoutBinding {
            binding: 0,
            descriptor_type: 6,
            descriptor_count: 2,
            stage_flags: 16
        }]
    );
    assert_eq!(
        layouts[1].bindings,
        vec![
            DescriptorSetLayoutBinding {
                binding: 0,
                descriptor_type: 6,
                descriptor_count: 1,
                stage_flags: 1
            },
            DescriptorSetLayoutBinding {
                binding: 1,
                descriptor_type: 1,
                descriptor_count: 3,
                stage_flags: 17
            },
        ]
    );
}

#[test]
fn grouping_is_ascending_and_keeps_listing_order() {
    let bindings = vec![
        binding(7, 0),
        binding(2, 5),
        binding(7, 1),
        binding(0, 9),
        binding(2, 4),
        binding(7, 2),
    ];
    let layouts = group_bindings(&bindings);
    let sets: Vec<u32> = layouts.iter().map(|l| l.set).collect();
    assert_eq!(sets, vec![0, 2, 7]);
    let slots: Vec<Vec<u32>> =
        layouts.iter().map(|l| l.bindings.iter().map(|b| b.binding).collect()).collect();
    assert_eq!(slots, vec![vec![9], vec![5, 4], vec![0, 1, 2]]);
}

#[test]
fn shader_without_bindings_has_no_layouts() {
    let plain = Shader {
        id: ShaderID::TriangleVertex,
        spv: &[],
        stage: ShaderStage::Vertex,
        entry_point: "main",
        descriptor_set_layout_bindings: &[],
    };
    assert!(make_descriptor_set_layouts(&plain).is_empty());
    assert!(group_bindings(&[]).is_empty());
}

#[test]
fn shader_layouts_are_grouped_from_its_bindings() {
    let layouts = make_descriptor_set_layouts(&shader(ShaderStage::Vertex, "main"));
    assert_eq!(layouts.len(), 2);
    assert_eq!(layouts[0].bindings.len(), 1);
    assert_eq!(layouts[1].bindings.len(), 2);
}

#[test]
fn converted_binding_drops_the_set() {
    let raw = VkDescriptorSetLayoutBinding {
        set: 9,
        binding: 3,
        descriptor_type: 7,
        descriptor_count: 4,
        stage_flags: 0x11,
    };
    assert_eq!(
        convert_binding(&raw),
        DescriptorSetLayoutBinding {
            binding: 3,
            descriptor_type: 7,
            descriptor_count: 4,
            stage_flags: 0x11
        }
    );
    let extension_type = VkDescriptorSetLayoutBinding {
        descriptor_type: vk::DescriptorType::ACCELERATION_STRUCTURE_KHR.as_raw() as u32,
        ..raw
    };
    assert_eq!(convert_binding(&extension_type).descriptor_type, 1_000_150_000);
    let wrapped = VkDescriptorSetLayoutBinding { descriptor_type: u32::MAX, ..raw };
    assert_eq!(convert_binding(&wrapped).descriptor_type, -1);
}

#[test]
fn shader_object_is_derived_from_record() {
    let info = create_shader_object(&shader(ShaderStage::Vertex, "main")).unwrap();
    assert_eq!(info.stage, VERTEX);
    assert_eq!(info.next_stage, TESSELLATION_CONTROL | GEOMETRY | FRAGMENT);
    assert_eq!(info.code, &[3, 2, 35, 7]);
    assert_eq!(info.entry_point, "main");
    assert_eq!(info.set_layouts.len(), 2);
    let fragment = create_shader_object(&shader(ShaderStage::Fragment, "fs_main")).unwrap();
    assert_eq!(fragment.stage, FRAGMENT);
    assert_eq!(fragment.next_stage, 0);
    assert_eq!(fragment.entry_point, "fs_main");
}

#[test]
fn entry_point_with_nul_is_refused() {
    let refused = create_shader_object(&shader(ShaderStage::Vertex, "ma\0in"));
    assert!(matches!(refused, Err(ShaderError::InvalidEntryPoint)));
    let trailing = create_shader_object(&shader(ShaderStage::Vertex, "main\0"));
    assert!(matches!(trailing, Err(ShaderError::InvalidEntryPoint)));
    assert!(create_shader_object(&shader(ShaderStage::Vertex, "")).is_ok());
    assert!(create_shader_object(&shader(ShaderStage::Vertex, "h\u{e9}llo")).is_ok());
}

#[test]
fn vulkan_shader_pairs_object_and_stage() {
    let bound = VulkanShader::from_shader(&shader(ShaderStage::Mesh, "main"), 0xABCD);
    assert_eq!(bound, VulkanShader { stage: MESH, shader: 0xABCD });
}
