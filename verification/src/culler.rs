//! The culler: its layouts and pipelines.

use vstd::prelude::*;

use crate::cull_data::{culling_uniforms_size, uniform_size};
use crate::resources::{
    new_storage_entry, BindGroupLayoutDescriptor, BindGroupLayoutEntry, BindGroupLayoutId,
    ComputePipelineDescriptor, PipelineId, PipelineLayoutDescriptor, PipelineLayoutId,
    PushConstantRange, ShaderStage,
};

verus! {

/// Bytes of a word.
pub const WORD_SIZE: usize = 4;

/// Bytes before the first draw call of the indirect buffer: the number of draw
/// calls, padded.
pub const INDIRECT_HEADER_SIZE: usize = 16;

/// Bytes of one draw call.
pub const DRAW_CALL_SIZE: usize = 20;

/// Objects that one workgroup of a culling shader works on.
pub const WORKGROUP_SIZE: usize = 256;

/// Culls objects on the GPU.
pub struct GpuCuller {
    pub atomic_bgl: BindGroupLayoutDescriptor,
    pub atomic_pll: PipelineLayoutDescriptor,
    pub atomic_pipeline: ComputePipelineDescriptor,
    pub prefix_bgl: BindGroupLayoutDescriptor,
    pub prefix_pll: PipelineLayoutDescriptor,
    pub prefix_sum_pll: PipelineLayoutDescriptor,
    pub prefix_cull_pipeline: ComputePipelineDescriptor,
    pub prefix_sum_pipeline: ComputePipelineDescriptor,
    pub prefix_output_pipeline: ComputePipelineDescriptor,
    /// Words that the frustum of the camera takes up.
    pub frustum_words: usize,
    /// Bytes that the shaders put out for each object.
    pub per_object_size: usize,
}

/// The bind group layout for culling with atomics: the input, the output and the
/// draw calls.
pub open spec fn atomic_entries(frustum_words: nat, per_object_size: nat) -> Seq<
    BindGroupLayoutEntry,
> {
    seq![
        crate::resources::storage_entry(0, true, uniform_size(frustum_words)),
        crate::resources::storage_entry(1, false, per_object_size),
        crate::resources::storage_entry(2, false, (INDIRECT_HEADER_SIZE + DRAW_CALL_SIZE) as nat),
    ]
}

/// The bind group layout for culling with a prefix sum: the input, two buffers
/// of marks, the output and the draw calls.
pub open spec fn prefix_entries(frustum_words: nat, per_object_size: nat) -> Seq<
    BindGroupLayoutEntry,
> {
    seq![
        crate::resources::storage_entry(0, true, uniform_size(frustum_words)),
        crate::resources::storage_entry(1, false, WORD_SIZE as nat),
        crate::resources::storage_entry(2, false, WORD_SIZE as nat),
        crate::resources::storage_entry(3, false, per_object_size),
        crate::resources::storage_entry(4, false, (INDIRECT_HEADER_SIZE + DRAW_CALL_SIZE) as nat),
    ]
}

/// A pipeline runs the `main` of one shader file.
pub open spec fn is_pipeline(
    pipeline: ComputePipelineDescriptor,
    id: PipelineId,
    label: Seq<char>,
    module: Seq<char>,
    shader_file: Seq<char>,
) -> bool {
    &&& pipeline.label@ == label
    &&& pipeline.layout == crate::resources::pipeline_layout(id)
    &&& pipeline.module@ == module
    &&& pipeline.shader_file@ == shader_file
    &&& pipeline.entry_point@ == "main"@
}

/// A pipeline layout takes one bind group and the given push constants.
pub open spec fn is_pipeline_layout(
    layout: PipelineLayoutDescriptor,
    id: PipelineLayoutId,
    label: Seq<char>,
    push_constant_ranges: Seq<PushConstantRange>,
) -> bool {
    &&& layout.label@ == label
    &&& layout.bind_group_layout == crate::resources::pipeline_layout_group(id)
    &&& layout.push_constant_ranges@ == push_constant_ranges
}

impl GpuCuller {
    /// The bind group layout of an identifier. What culling has put out is bound
    /// by a layout that is not the culler's own.
    pub open spec fn layout_entries(self, id: BindGroupLayoutId) -> Option<
        Seq<BindGroupLayoutEntry>,
    > {
        match id {
            BindGroupLayoutId::Atomic => Some(self.atomic_bgl.entries@),
            BindGroupLayoutId::Prefix => Some(self.prefix_bgl.entries@),
            BindGroupLayoutId::CulledObject => None,
        }
    }

    /// The culler's layouts and pipelines are those for its sizes.
    pub open spec fn well_formed(self) -> bool {
        let stride = PushConstantRange { stages: ShaderStage::Compute, start: 0, end: 4 };
        let frustum_words = self.frustum_words as nat;
        let per_object_size = self.per_object_size as nat;
        &&& uniform_size(frustum_words) <= usize::MAX
        &&& self.atomic_bgl.label@ == "atomic culling pll"@
        &&& self.atomic_bgl.entries@ == atomic_entries(frustum_words, per_object_size)
        &&& self.prefix_bgl.label@ == "prefix culling pll"@
        &&& self.prefix_bgl.entries@ == prefix_entries(frustum_words, per_object_size)
        &&& is_pipeline_layout(
            self.atomic_pll,
            PipelineLayoutId::Atomic,
            "atomic culling pll"@,
            seq![],
        )
        &&& is_pipeline_layout(
            self.prefix_pll,
            PipelineLayoutId::Prefix,
            "prefix culling pll"@,
            seq![],
        )
        &&& is_pipeline_layout(
            self.prefix_sum_pll,
            PipelineLayoutId::PrefixSum,
            "prefix sum pll"@,
            seq![stride],
        )
        &&& is_pipeline(
            self.atomic_pipeline,
            PipelineId::Atomic,
            "atomic culling pl"@,
            "cull-atomic-cull"@,
            "cull-atomic-cull.comp.spv"@,
        )
        &&& is_pipeline(
            self.prefix_cull_pipeline,
            PipelineId::PrefixCull,
            "prefix cull pl"@,
            "cull-prefix-cull"@,
            "cull-prefix-cull.comp.spv"@,
        )
        &&& is_pipeline(
            self.prefix_sum_pipeline,
            PipelineId::PrefixSum,
            "prefix sum pl"@,
            "cull-prefix-sum"@,
            "cull-prefix-sum.comp.spv"@,
        )
        &&& is_pipeline(
            self.prefix_output_pipeline,
            PipelineId::PrefixOutput,
            "prefix output pl"@,
            "cull-prefix-output"@,
            "cull-prefix-output.comp.spv"@,
        )
    }

    /// A culler for frustums of so many words and outputs of so many bytes per
    /// object.
    pub fn new(frustum_words: usize, per_object_size: usize) -> (culler: Self)
        requires
            uniform_size(frustum_words as nat) <= usize::MAX,
        ensures
            culler.well_formed(),
            culler.frustum_words == frustum_words,
            culler.per_object_size == per_object_size,
            culler.atomic_bgl.label@ == "atomic culling pll"@,
            culler.atomic_bgl.entries@ == seq![
                BindGroupLayoutEntry {
                    binding: 0,
                    visibility: ShaderStage::Compute,
                    read_only: true,
                    has_dynamic_offset: false,
                    min_binding_size: Some(((36 + culler.frustum_words) as int / 4 * 16) as u64),
                    count: None,
                },
                BindGroupLayoutEntry {
                    binding: 1,
                    visibility: ShaderStage::Compute,
                    read_only: false,
                    has_dynamic_offset: false,
                    min_binding_size: (if culler.per_object_size == 0 { None } else { Some(culler.per_object_size as u64) }),
                    count: None,
                },
                BindGroupLayoutEntry {
                    binding: 2,
                    visibility: ShaderStage::Compute,
                    read_only: false,
                    has_dynamic_offset: false,
                    min_binding_size: Some(36u64),
                    count: None,
                },
            ],
            culler.prefix_bgl.label@ == "prefix culling pll"@,
            culler.prefix_bgl.entries@ == seq![
                BindGroupLayoutEntry {
                    binding: 0,
                    visibility: ShaderStage::Compute,
                    read_only: true,
                    has_dynamic_offset: false,
                    min_binding_size: Some(((36 + culler.frustum_words) as int / 4 * 16) as u64),
                    count: None,
                },
                BindGroupLayoutEntry {
                    binding: 1,
                    visibility: ShaderStage::Compute,
                    read_only: false,
                    has_dynamic_offset: false,
                    min_binding_size: Some(4u64),
                    count: None,
                },
                BindGroupLayoutEntry {
                    binding: 2,
                    visibility: ShaderStage::Compute,
                    read_only: false,
                    has_dynamic_offset: false,
                    min_binding_size: Some(4u64),
                    count: None,
                },
                BindGroupLayoutEntry {
                    binding: 3,
                    visibility: ShaderStage::Compute,
                    read_only: false,
                    has_dynamic_offset: false,
                    min_binding_size: (if culler.per_object_size == 0 { None } else { Some(culler.per_object_size as u64) }),
                    count: None,
                },
                BindGroupLayoutEntry {
                    binding: 4,
                    visibility: ShaderStage::Compute,
                    read_only: false,
                    has_dynamic_offset: false,
                    min_binding_size: Some(36u64),
                    count: None,
                },
            ],
            culler.atomic_pll.label@ == "atomic culling pll"@,
            culler.atomic_pll.bind_group_layout == BindGroupLayoutId::Atomic,
            culler.atomic_pll.push_constant_ranges@.len() == 0,
            culler.prefix_pll.label@ == "prefix culling pll"@,
            culler.prefix_pll.bind_group_layout == BindGroupLayoutId::Prefix,
            culler.prefix_pll.push_constant_ranges@.len() == 0,
            culler.prefix_sum_pll.label@ == "prefix sum pll"@,
            culler.prefix_sum_pll.bind_group_layout == BindGroupLayoutId::Prefix,
            culler.prefix_sum_pll.push_constant_ranges@ == seq![
                PushConstantRange { stages: ShaderStage::Compute, start: 0, end: 4 },
            ],
            culler.atomic_pipeline.label@ == "atomic culling pl"@,
            culler.atomic_pipeline.layout == PipelineLayoutId::Atomic,
            culler.atomic_pipeline.module@ == "cull-atomic-cull"@,
            culler.atomic_pipeline.shader_file@ == culler.atomic_pipeline.module@ + ".comp.spv"@,
            culler.atomic_pipeline.entry_point@ == "main"@,
            culler.prefix_cull_pipeline.label@ == "prefix cull pl"@,
            culler.prefix_cull_pipeline.layout == PipelineLayoutId::Prefix,
            culler.prefix_cull_pipeline.module@ == "cull-prefix-cull"@,
            culler.prefix_cull_pipeline.shader_file@ == culler.prefix_cull_pipeline.module@ + ".comp.spv"@,
            culler.prefix_cull_pipeline.entry_point@ == "main"@,
            culler.prefix_sum_pipeline.label@ == "prefix sum pl"@,
            culler.prefix_sum_pipeline.layout == PipelineLayoutId::PrefixSum,
            culler.prefix_sum_pipeline.module@ == "cull-prefix-sum"@,
            culler.prefix_sum_pipeline.shader_file@ == culler.prefix_sum_pipeline.module@ + ".comp.spv"@,
            culler.prefix_sum_pipeline.entry_point@ == "main"@,
            culler.prefix_output_pipeline.label@ == "prefix output pl"@,
            culler.prefix_output_pipeline.layout == PipelineLayoutId::Prefix,
            culler.prefix_output_pipeline.module@ == "cull-prefix-output"@,
            culler.prefix_output_pipeline.shader_file@ == culler.prefix_output_pipeline.module@ + ".comp.spv"@,
            culler.prefix_output_pipeline.entry_point@ == "main"@,
    {
        let uniforms: usize = culling_uniforms_size(frustum_words);
        let draw_calls: usize = INDIRECT_HEADER_SIZE + DRAW_CALL_SIZE;
        let culler = GpuCuller {
            atomic_bgl: BindGroupLayoutDescriptor {
                label: "atomic culling pll",
                entries: vec![
                    new_storage_entry(0, true, uniforms),
                    new_storage_entry(1, false, per_object_size),
                    new_storage_entry(2, false, draw_calls),
                ],
            },
            atomic_pll: PipelineLayoutDescriptor {
                label: "atomic culling pll",
                bind_group_layout: BindGroupLayoutId::Atomic,
                push_constant_ranges: Vec::new(),
            },
            atomic_pipeline: ComputePipelineDescriptor {
                label: "atomic culling pl",
                layout: PipelineLayoutId::Atomic,
                module: "cull-atomic-cull",
                shader_file: "cull-atomic-cull.comp.spv",
                entry_point: "main",
            },
            prefix_bgl: BindGroupLayoutDescriptor {
                label: "prefix culling pll",
                entries: vec![
                    new_storage_entry(0, true, uniforms),
                    new_storage_entry(1, false, WORD_SIZE),
                    new_storage_entry(2, false, WORD_SIZE),
                    new_storage_entry(3, false, per_object_size),
                    new_storage_entry(4, false, draw_calls),
                ],
            },
            prefix_pll: PipelineLayoutDescriptor {
                label: "prefix culling pll",
                bind_group_layout: BindGroupLayoutId::Prefix,
                push_constant_ranges: Vec::new(),
            },
            prefix_sum_pll: PipelineLayoutDescriptor {
                label: "prefix sum pll",
                bind_group_layout: BindGroupLayoutId::Prefix,
                push_constant_ranges: vec![
                    PushConstantRange { stages: ShaderStage::Compute, start: 0, end: 4 },
                ],
            },
            prefix_cull_pipeline: ComputePipelineDescriptor {
                label: "prefix cull pl",
                layout: PipelineLayoutId::Prefix,
                module: "cull-prefix-cull",
                shader_file: "cull-prefix-cull.comp.spv",
                entry_point: "main",
            },
            prefix_sum_pipeline: ComputePipelineDescriptor {
                label: "prefix sum pl",
                layout: PipelineLayoutId::PrefixSum,
                module: "cull-prefix-sum",
                shader_file: "cull-prefix-sum.comp.spv",
                entry_point: "main",
            },
            prefix_output_pipeline: ComputePipelineDescriptor {
                label: "prefix output pl",
                layout: PipelineLayoutId::Prefix,
                module: "cull-prefix-output",
                shader_file: "cull-prefix-output.comp.spv",
                entry_point: "main",
            },
            frustum_words,
            per_object_size,
        };
        proof {
            let stride = PushConstantRange { stages: ShaderStage::Compute, start: 0, end: 4 };
            assert(culler.atomic_bgl.entries@ =~= atomic_entries(
                frustum_words as nat,
                per_object_size as nat,
            ));
            assert(culler.prefix_bgl.entries@ =~= prefix_entries(
                frustum_words as nat,
                per_object_size as nat,
            ));
            assert(culler.atomic_pll.push_constant_ranges@ =~= seq![]);
            assert(culler.prefix_pll.push_constant_ranges@ =~= seq![]);
            assert(culler.prefix_sum_pll.push_constant_ranges@ =~= seq![stride]);
            law_culler_layouts(culler);
            law_culler_pipelines(culler);
        }
        culler
    }
}

/// The layouts of a culler, entry by entry.
pub proof fn law_culler_layouts(culler: GpuCuller)
    requires
        culler.well_formed(),
    ensures
        culler.atomic_bgl.label@ == "atomic culling pll"@,
        culler.atomic_bgl.entries@ == seq![
            BindGroupLayoutEntry {
                binding: 0,
                visibility: ShaderStage::Compute,
                read_only: true,
                has_dynamic_offset: false,
                min_binding_size: Some(((36 + culler.frustum_words) as int / 4 * 16) as u64),
                count: None,
            },
            BindGroupLayoutEntry {
                binding: 1,
                visibility: ShaderStage::Compute,
                read_only: false,
                has_dynamic_offset: false,
                min_binding_size: (if culler.per_object_size == 0 { None } else { Some(culler.per_object_size as u64) }),
                count: None,
            },
            BindGroupLayoutEntry {
                binding: 2,
                visibility: ShaderStage::Compute,
                read_only: false,
                has_dynamic_offset: false,
                min_binding_size: Some(36u64),
                count: None,
            },
        ],
        culler.prefix_bgl.label@ == "prefix culling pll"@,
        culler.prefix_bgl.entries@ == seq![
            BindGroupLayoutEntry {
                binding: 0,
                visibility: ShaderStage::Compute,
                read_only: true,
                has_dynamic_offset: false,
                min_binding_size: Some(((36 + culler.frustum_words) as int / 4 * 16) as u64),
                count: None,
            },
            BindGroupLayoutEntry {
                binding: 1,
                visibility: ShaderStage::Compute,
                read_only: false,
                has_dynamic_offset: false,
                min_binding_size: Some(4u64),
                count: None,
            },
            BindGroupLayoutEntry {
                binding: 2,
                visibility: ShaderStage::Compute,
                read_only: false,
                has_dynamic_offset: false,
                min_binding_size: Some(4u64),
                count: None,
            },
            BindGroupLayoutEntry {
                binding: 3,
                visibility: ShaderStage::Compute,
                read_only: false,
                has_dynamic_offset: false,
                min_binding_size: (if culler.per_object_size == 0 { None } else { Some(culler.per_object_size as u64) }),
                count: None,
            },
            BindGroupLayoutEntry {
                binding: 4,
                visibility: ShaderStage::Compute,
                read_only: false,
                has_dynamic_offset: false,
                min_binding_size: Some(36u64),
                count: None,
            },
        ],
        culler.atomic_pll.label@ == "atomic culling pll"@,
        culler.atomic_pll.bind_group_layout == BindGroupLayoutId::Atomic,
        culler.atomic_pll.push_constant_ranges@.len() == 0,
        culler.prefix_pll.label@ == "prefix culling pll"@,
        culler.prefix_pll.bind_group_layout == BindGroupLayoutId::Prefix,
        culler.prefix_pll.push_constant_ranges@.len() == 0,
        culler.prefix_sum_pll.label@ == "prefix sum pll"@,
        culler.prefix_sum_pll.bind_group_layout == BindGroupLayoutId::Prefix,
        culler.prefix_sum_pll.push_constant_ranges@ == seq![
            PushConstantRange { stages: ShaderStage::Compute, start: 0, end: 4 },
        ],
{
}

/// The pipelines of a culler: each runs the `main` of the shader module that it
/// is for, and the file of a module has the module's name.
pub proof fn law_culler_pipelines(culler: GpuCuller)
    requires
        culler.well_formed(),
    ensures
        culler.atomic_pipeline.label@ == "atomic culling pl"@,
        culler.atomic_pipeline.layout == PipelineLayoutId::Atomic,
        culler.atomic_pipeline.module@ == "cull-atomic-cull"@,
        culler.atomic_pipeline.shader_file@ == culler.atomic_pipeline.module@ + ".comp.spv"@,
        culler.atomic_pipeline.entry_point@ == "main"@,
        culler.prefix_cull_pipeline.label@ == "prefix cull pl"@,
        culler.prefix_cull_pipeline.layout == PipelineLayoutId::Prefix,
        culler.prefix_cull_pipeline.module@ == "cull-prefix-cull"@,
        culler.prefix_cull_pipeline.shader_file@ == culler.prefix_cull_pipeline.module@ + ".comp.spv"@,
        culler.prefix_cull_pipeline.entry_point@ == "main"@,
        culler.prefix_sum_pipeline.label@ == "prefix sum pl"@,
        culler.prefix_sum_pipeline.layout == PipelineLayoutId::PrefixSum,
        culler.prefix_sum_pipeline.module@ == "cull-prefix-sum"@,
        culler.prefix_sum_pipeline.shader_file@ == culler.prefix_sum_pipeline.module@ + ".comp.spv"@,
        culler.prefix_sum_pipeline.entry_point@ == "main"@,
        culler.prefix_output_pipeline.label@ == "prefix output pl"@,
        culler.prefix_output_pipeline.layout == PipelineLayoutId::Prefix,
        culler.prefix_output_pipeline.module@ == "cull-prefix-output"@,
        culler.prefix_output_pipeline.shader_file@ == culler.prefix_output_pipeline.module@ + ".comp.spv"@,
        culler.prefix_output_pipeline.entry_point@ == "main"@,
{
    reveal_strlit(".comp.spv");
    reveal_strlit("cull-atomic-cull");
    reveal_strlit("cull-atomic-cull.comp.spv");
    reveal_strlit("cull-prefix-cull");
    reveal_strlit("cull-prefix-cull.comp.spv");
    reveal_strlit("cull-prefix-sum");
    reveal_strlit("cull-prefix-sum.comp.spv");
    reveal_strlit("cull-prefix-output");
    reveal_strlit("cull-prefix-output.comp.spv");
    assert(culler.atomic_pipeline.shader_file@ =~= culler.atomic_pipeline.module@ + ".comp.spv"@);
    assert(culler.prefix_cull_pipeline.shader_file@ =~= culler.prefix_cull_pipeline.module@
        + ".comp.spv"@);
    assert(culler.prefix_sum_pipeline.shader_file@ =~= culler.prefix_sum_pipeline.module@
        + ".comp.spv"@);
    assert(culler.prefix_output_pipeline.shader_file@ =~= culler.prefix_output_pipeline.module@
        + ".comp.spv"@);
}

} // verus!
