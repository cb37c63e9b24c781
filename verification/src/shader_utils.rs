//! Shader records, the stage graph and the descriptor set layouts that a
//! shader object is created with.

use vstd::prelude::*;
use vstd::string::StrSliceExecFns;
use crate::vulkan::{
    shader_stage_bits, stage_compute, stage_fragment, stage_geometry, stage_mesh, stage_raygen,
    stage_task, stage_tessellation_control, stage_tessellation_evaluation, stage_vertex,
};

verus! {

/// The pipeline stage a shader is compiled for.
#[derive(Debug, Clone, Copy, PartialEq, Eq, Structural)]
pub enum ShaderStage {
    Vertex,
    TessellationControl,
    TessellationEvaluation,
    Geometry,
    Fragment,
    Compute,
    Task,
    Mesh,
    Raygen,
}

/// Names of the shaders that ship with the engine.
#[derive(Debug, Clone, Copy, PartialEq, Eq, Hash, Structural)]
pub enum ShaderID {
    TriangleVertex,
    TriangleFragment,
    BasicModelVertex,
    BasicModelFragment,
}

/// One resource binding of a shader, as plain integers: the set it belongs
/// to, its slot in the set, and the raw descriptor type, count and stage
/// flags.
#[derive(Debug, Clone, Copy, PartialEq, Eq, Structural)]
pub struct VkDescriptorSetLayoutBinding {
    pub set: u32,
    pub binding: u32,
    pub descriptor_type: u32,
    pub descriptor_count: u32,
    pub stage_flags: u32,
}

/// A compiled shader with what is needed to create a shader object from it.
#[derive(Debug, Clone, Copy)]
pub struct Shader {
    pub id: ShaderID,
    /// The shader binary.
    pub spv: &'static [u8],
    pub stage: ShaderStage,
    pub entry_point: &'static str,
    pub descriptor_set_layout_bindings: &'static [VkDescriptorSetLayoutBinding],
}

/// Raw `VkShaderStageFlagBits` of a stage.
pub open spec fn stage_flag(stage: ShaderStage) -> u32 {
    match stage {
        ShaderStage::Vertex => stage_vertex(),
        ShaderStage::TessellationControl => stage_tessellation_control(),
        ShaderStage::TessellationEvaluation => stage_tessellation_evaluation(),
        ShaderStage::Geometry => stage_geometry(),
        ShaderStage::Fragment => stage_fragment(),
        ShaderStage::Compute => stage_compute(),
        ShaderStage::Task => stage_task(),
        ShaderStage::Mesh => stage_mesh(),
        ShaderStage::Raygen => stage_raygen(),
    }
}

/// Conversion of a stage to its Vulkan flag bit.
pub trait ToVkShaderStage {
    /// The flag bit, as a value of specifications.
    spec fn vk_flag(&self) -> u32;

    /// The flag bit.
    fn to_vk(&self) -> (bits: u32)
        ensures
            bits == self.vk_flag(),
    ;
}

impl ToVkShaderStage for ShaderStage {
    open spec fn vk_flag(&self) -> u32 {
        stage_flag(*self)
    }

    fn to_vk(&self) -> (bits: u32) {
        let stages = shader_stage_bits();
        match self {
            ShaderStage::Vertex => stages.vertex,
            ShaderStage::Fragment => stages.fragment,
            ShaderStage::Compute => stages.compute,
            ShaderStage::Geometry => stages.geometry,
            ShaderStage::TessellationControl => stages.tessellation_control,
            ShaderStage::TessellationEvaluation => stages.tessellation_evaluation,
            ShaderStage::Task => stages.task,
            ShaderStage::Mesh => stages.mesh,
            ShaderStage::Raygen => stages.raygen,
        }
    }
}

/// The stage graph: for the flag bit of each stage, the mask of the stages
/// that may follow it in a pipeline; `None` for a word that is not the flag
/// bit of exactly one known stage.
pub open spec fn next_stages(stage: u32) -> Option<u32> {
    if stage == stage_vertex() {
        Some(stage_tessellation_control() | stage_geometry() | stage_fragment())
    } else if stage == stage_tessellation_control() {
        Some(stage_tessellation_evaluation())
    } else if stage == stage_tessellation_evaluation() {
        Some(stage_geometry() | stage_fragment())
    } else if stage == stage_geometry() {
        Some(stage_fragment())
    } else if stage == stage_task() {
        Some(stage_mesh())
    } else if stage == stage_mesh() {
        Some(stage_fragment())
    } else if stage == stage_fragment() || stage == stage_compute() || stage == stage_raygen() {
        Some(0u32)
    } else {
        None
    }
}

/// Mask of the stages that may follow `stage`. An unknown stage has no
/// answer.
pub fn get_next_stages(stage: u32) -> (next: Option<u32>)
    ensures
        next == next_stages(stage),
{
    let stages = shader_stage_bits();
    if stage == stages.vertex {
        Some(stages.tessellation_control | stages.geometry | stages.fragment)
    } else if stage == stages.tessellation_control {
        Some(stages.tessellation_evaluation)
    } else if stage == stages.tessellation_evaluation {
        Some(stages.geometry | stages.fragment)
    } else if stage == stages.geometry {
        Some(stages.fragment)
    } else if stage == stages.task {
        Some(stages.mesh)
    } else if stage == stages.mesh {
        Some(stages.fragment)
    } else if stage == stages.fragment || stage == stages.compute || stage == stages.raygen {
        Some(0)
    } else {
        None
    }
}

/// Every stage of [`ShaderStage`] has an entry in the stage graph, and the
/// stages that end a pipeline are followed by none.
pub proof fn lemma_known_stages_have_next(stage: ShaderStage)
    ensures
        next_stages(stage_flag(stage)) is Some,
        (stage == ShaderStage::Fragment || stage == ShaderStage::Compute || stage
            == ShaderStage::Raygen) <==> next_stages(stage_flag(stage)) == Some(0u32),
{
    assert(stage_tessellation_control() | stage_geometry() | stage_fragment() != 0u32)
        by (bit_vector);
    assert(stage_geometry() | stage_fragment() != 0u32) by (bit_vector);
}

/// A binding as the device takes it: without the set index, which is given
/// by the layout the binding is part of.
#[derive(Debug, Clone, Copy, PartialEq, Eq, Structural)]
pub struct DescriptorSetLayoutBinding {
    pub binding: u32,
    /// Raw `VkDescriptorType`.
    pub descriptor_type: i32,
    pub descriptor_count: u32,
    /// Raw `VkShaderStageFlags`.
    pub stage_flags: u32,
}

/// The binding `b` without its set index.
pub open spec fn converted(b: VkDescriptorSetLayoutBinding) -> DescriptorSetLayoutBinding {
    DescriptorSetLayoutBinding {
        binding: b.binding,
        descriptor_type: b.descriptor_type as i32,
        descriptor_count: b.descriptor_count,
        stage_flags: b.stage_flags,
    }
}

/// Drops the set index of a binding.
pub fn convert_binding(b: &VkDescriptorSetLayoutBinding) -> (out: DescriptorSetLayoutBinding)
    ensures
        out == converted(*b),
{
    DescriptorSetLayoutBinding {
        binding: b.binding,
        descriptor_type: #[verifier::truncate]
        (b.descriptor_type as i32),
        descriptor_count: b.descriptor_count,
        stage_flags: b.stage_flags,
    }
}

/// The bindings of one descriptor set.
#[derive(Debug, Clone)]
pub struct DescriptorSetLayout {
    pub set: u32,
    pub bindings: Vec<DescriptorSetLayoutBinding>,
}

/// The bindings that belong to `set`, converted, in the order in which they
/// are listed.
pub open spec fn bindings_of_set(
    bindings: Seq<VkDescriptorSetLayoutBinding>,
    set: u32,
) -> Seq<DescriptorSetLayoutBinding>
    decreases bindings.len(),
{
    if bindings.len() == 0 {
        Seq::empty()
    } else {
        let rest = bindings_of_set(bindings.drop_last(), set);
        if bindings.last().set == set {
            rest.push(converted(bindings.last()))
        } else {
            rest
        }
    }
}

/// Whether some binding belongs to `set`.
pub open spec fn uses_set(bindings: Seq<VkDescriptorSetLayoutBinding>, set: u32) -> bool {
    exists|k: int| 0 <= k < bindings.len() && #[trigger] bindings[k].set == set
}

/// Whether one of the layouts is that of `set`.
pub open spec fn has_layout(layouts: Seq<DescriptorSetLayout>, set: u32) -> bool {
    exists|i: int| 0 <= i < layouts.len() && (#[trigger] layouts[i]).set == set
}

/// `layouts` groups `bindings` by set: one layout for each set index that
/// occurs, in ascending order of set index, each with exactly the bindings
/// of its set.
pub open spec fn is_grouping(
    bindings: Seq<VkDescriptorSetLayoutBinding>,
    layouts: Seq<DescriptorSetLayout>,
) -> bool {
    &&& forall|i: int, j: int|
        0 <= i < j < layouts.len() ==> (#[trigger] layouts[i]).set < (#[trigger] layouts[j]).set
    &&& forall|i: int|
        0 <= i < layouts.len() ==> uses_set(bindings, (#[trigger] layouts[i]).set)
            && layouts[i].bindings@ == bindings_of_set(bindings, layouts[i].set)
    &&& forall|k: int|
        0 <= k < bindings.len() ==> has_layout(layouts, (#[trigger] bindings[k]).set)
}

/// The set indices that occur among the bindings, each once, ascending.
fn distinct_sets(bindings: &[VkDescriptorSetLayoutBinding]) -> (sets: Vec<u32>)
    ensures
        forall|a: int, b: int| 0 <= a < b < sets@.len() ==> sets@[a] < sets@[b],
        forall|a: int| 0 <= a < sets@.len() ==> uses_set(bindings@, #[trigger] sets@[a]),
        forall|k: int|
            0 <= k < bindings@.len() ==> sets@.contains((#[trigger] bindings@[k]).set),
{
    let mut sets: Vec<u32> = Vec::new();
    let mut i: usize = 0;
    while i < bindings.len()
        invariant
            i <= bindings@.len(),
            forall|a: int, b: int| 0 <= a < b < sets@.len() ==> sets@[a] < sets@[b],
            forall|a: int| 0 <= a < sets@.len() ==> uses_set(bindings@, #[trigger] sets@[a]),
            forall|k: int| 0 <= k < i ==> sets@.contains((#[trigger] bindings@[k]).set),
        decreases bindings@.len() - i,
    {
        let set = bindings[i].set;
        let mut p: usize = 0;
        while p < sets.len() && sets[p] < set
            invariant
                p <= sets@.len(),
                forall|a: int| 0 <= a < p ==> sets@[a] < set,
            decreases sets@.len() - p,
        {
            p += 1;
        }
        if p < sets.len() && sets[p] == set {
            assert(sets@.contains(set));
        } else {
            let ghost before = sets@;
            sets.insert(p, set);
            proof {
                assert(sets@ == before.insert(p as int, set));
                assert(sets@[p as int] == set);
                assert(sets@.contains(set));
                assert forall|k: int| 0 <= k < i implies sets@.contains(
                    (#[trigger] bindings@[k]).set,
                ) by {
                    let v = bindings@[k].set;
                    let a = choose|a: int| 0 <= a < before.len() && before[a] == v;
                    if a < p {
                        assert(sets@[a] == v);
                    } else {
                        assert(sets@[a + 1] == v);
                    }
                }
                assert forall|a: int| 0 <= a < sets@.len() implies uses_set(
                    bindings@,
                    #[trigger] sets@[a],
                ) by {
                    if a < p {
                        assert(sets@[a] == before[a]);
                    } else if a == p {
                        assert(bindings@[i as int].set == set);
                    } else {
                        assert(sets@[a] == before[a - 1]);
                    }
                }
                assert forall|a: int, b: int| 0 <= a < b < sets@.len() implies sets@[a]
                    < sets@[b] by {
                    if b < p {
                        assert(sets@[a] == before[a] && sets@[b] == before[b]);
                    } else if b == p {
                        assert(sets@[a] == before[a]);
                    } else if a < p {
                        assert(sets@[a] == before[a] && sets@[b] == before[b - 1]);
                    } else if a == p {
                        assert(sets@[b] == before[b - 1]);
                    } else {
                        assert(sets@[a] == before[a - 1] && sets@[b] == before[b - 1]);
                    }
                }
            }
        }
        i += 1;
    }
    sets
}

/// The converted bindings of one set, in the order in which they are listed.
fn collect_set(bindings: &[VkDescriptorSetLayoutBinding], set: u32) -> (out: Vec<
    DescriptorSetLayoutBinding,
>)
    ensures
        out@ == bindings_of_set(bindings@, set),
{
    let mut out: Vec<DescriptorSetLayoutBinding> = Vec::new();
    let mut i: usize = 0;
    while i < bindings.len()
        invariant
            i <= bindings@.len(),
            out@ == bindings_of_set(bindings@.take(i as int), set),
        decreases bindings@.len() - i,
    {
        proof {
            let next = bindings@.take(i + 1);
            assert(next.drop_last() == bindings@.take(i as int));
            assert(next.last() == bindings@[i as int]);
        }
        if bindings[i].set == set {
            out.push(convert_binding(&bindings[i]));
        }
        i += 1;
    }
    proof {
        assert(bindings@.take(i as int) == bindings@);
    }
    out
}

/// Groups bindings by set index.
pub fn group_bindings(bindings: &[VkDescriptorSetLayoutBinding]) -> (layouts: Vec<
    DescriptorSetLayout,
>)
    ensures
        is_grouping(bindings@, layouts@),
{
    let sets = distinct_sets(bindings);
    let mut layouts: Vec<DescriptorSetLayout> = Vec::new();
    let mut a: usize = 0;
    while a < sets.len()
        invariant
            a <= sets@.len(),
            layouts@.len() == a,
            forall|x: int, y: int| 0 <= x < y < sets@.len() ==> sets@[x] < sets@[y],
            forall|x: int| 0 <= x < sets@.len() ==> uses_set(bindings@, #[trigger] sets@[x]),
            forall|i: int|
                0 <= i < a ==> (#[trigger] layouts@[i]).set == sets@[i] && layouts@[i].bindings@
                    == bindings_of_set(bindings@, sets@[i]),
        decreases sets@.len() - a,
    {
        let set = sets[a];
        let group = collect_set(bindings, set);
        layouts.push(DescriptorSetLayout { set, bindings: group });
        a += 1;
    }
    proof {
        assert forall|i: int, j: int| 0 <= i < j < layouts@.len() implies (
        #[trigger] layouts@[i]).set < (#[trigger] layouts@[j]).set by {
            assert(sets@[i] < sets@[j]);
        }
        assert forall|i: int| 0 <= i < layouts@.len() implies uses_set(
            bindings@,
            (#[trigger] layouts@[i]).set,
        ) && layouts@[i].bindings@ == bindings_of_set(bindings@, layouts@[i].set) by {
            assert(uses_set(bindings@, sets@[i]));
        }
        assert forall|k: int| 0 <= k < bindings@.len() implies has_layout(
            layouts@,
            (#[trigger] bindings@[k]).set,
        ) by {
            let v = bindings@[k].set;
            assert(sets@.contains(v));
            let i = choose|i: int| 0 <= i < sets@.len() && sets@[i] == v;
            assert(layouts@[i].set == v);
        }
    }
    layouts
}

/// The descriptor set layouts of a shader: one per set index that its
/// bindings name, lowest set index first. A shader without bindings has
/// none.
pub fn make_descriptor_set_layouts(shader: &Shader) -> (layouts: Vec<DescriptorSetLayout>)
    ensures
        is_grouping(shader.descriptor_set_layout_bindings@, layouts@),
        shader.descriptor_set_layout_bindings@.len() == 0 ==> layouts@.len() == 0,
{
    let layouts = group_bindings(shader.descriptor_set_layout_bindings);
    proof {
        if shader.descriptor_set_layout_bindings@.len() == 0 && layouts@.len() > 0 {
            assert(uses_set(shader.descriptor_set_layout_bindings@, layouts@[0].set));
        }
    }
    layouts
}

/// What a shader object is created from.
#[derive(Debug, Clone)]
pub struct ShaderCreateInfo {
    /// Raw `VkShaderStageFlagBits` of the shader's own stage.
    pub stage: u32,
    /// Raw `VkShaderStageFlags` of the stages that may follow.
    pub next_stage: u32,
    /// The shader binary.
    pub code: &'static [u8],
    /// Name of the entry point, to be passed with a terminating NUL.
    pub entry_point: &'static str,
    pub set_layouts: Vec<DescriptorSetLayout>,
}

/// Why no shader object can be created from a record.
#[derive(Debug, Clone, Copy, PartialEq, Eq, Structural)]
pub enum ShaderError {
    /// The entry point's name holds a NUL character.
    InvalidEntryPoint,
}

/// Whether a name holds a NUL character, and so cannot be passed as a C
/// string.
pub open spec fn has_nul(name: Seq<char>) -> bool {
    exists|i: int| 0 <= i < name.len() && name[i] == '\0'
}

/// Whether `name` holds a NUL character.
fn contains_nul(name: &str) -> (yes: bool)
    ensures
        yes == has_nul(name@),
{
    let n = name.unicode_len();
    let mut i: usize = 0;
    while i < n
        invariant
            i <= n,
            n == name@.len(),
            forall|j: int| 0 <= j < i ==> name@[j] != '\0',
        decreases n - i,
    {
        if name.get_char(i) == '\0' {
            return true;
        }
        i += 1;
    }
    false
}

/// Whether `info` is what the shader object of `shader` is created from:
/// the shader's binary and entry point, its stage's flag bit, the stages
/// that the stage graph lets follow, and its bindings grouped by set.
pub open spec fn describes(info: ShaderCreateInfo, shader: Shader) -> bool {
    &&& info.stage == stage_flag(shader.stage)
    &&& Some(info.next_stage) == next_stages(stage_flag(shader.stage))
    &&& info.code == shader.spv
    &&& info.entry_point == shader.entry_point
    &&& is_grouping(shader.descriptor_set_layout_bindings@, info.set_layouts@)
}

/// Derives what a shader object is created from: the stage's flag bit, the
/// stages that may follow it by the stage graph, and the descriptor set
/// layouts grouped from the shader's bindings. Fails exactly when the entry
/// point's name holds a NUL character.
pub fn create_shader_object(shader: &Shader) -> (info: Result<ShaderCreateInfo, ShaderError>)
    ensures
        has_nul(shader.entry_point@) <==> info == Err::<ShaderCreateInfo, ShaderError>(
            ShaderError::InvalidEntryPoint,
        ),
        !has_nul(shader.entry_point@) ==> info is Ok && describes(info->Ok_0, *shader),
{
    if contains_nul(shader.entry_point) {
        return Err(ShaderError::InvalidEntryPoint);
    }
    let stage = shader.stage.to_vk();
    proof {
        lemma_known_stages_have_next(shader.stage);
    }
    let next_stage = match get_next_stages(stage) {
        Some(mask) => mask,
        None => 0,
    };
    Ok(
        ShaderCreateInfo {
            stage,
            next_stage,
            code: shader.spv,
            entry_point: shader.entry_point,
            set_layouts: make_descriptor_set_layouts(shader),
        },
    )
}

/// A created shader object with the stage it is bound to.
#[derive(Debug, Clone, Copy, PartialEq, Eq, Structural)]
pub struct VulkanShader {
    /// Raw `VkShaderStageFlagBits`.
    pub stage: u32,
    /// Raw handle of the shader object.
    pub shader: u64,
}

impl VulkanShader {
    /// Pairs the object created from `shader` with the shader's stage.
    pub fn from_shader(shader: &Shader, object: u64) -> (bound: Self)
        ensures
            bound.stage == stage_flag(shader.stage),
            bound.shader == object,
    {
        VulkanShader { stage: shader.stage.to_vk(), shader: object }
    }
}

} // verus!
