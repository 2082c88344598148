//! Descriptions of GPU resources.
//!
//! These are what the culler decides about buffers, layouts and pipelines. They
//! name each other by small identifiers; a device turns them into the real
//! things.

use vstd::prelude::*;

verus! {

/// A stage of a pipeline.
#[derive(Clone, Copy, Debug, PartialEq, Eq, Structural)]
pub enum ShaderStage {
    Vertex,
    Fragment,
    Compute,
}

/// The layouts of bind groups.
#[derive(Clone, Copy, Debug, PartialEq, Eq, Structural)]
pub enum BindGroupLayoutId {
    /// For culling in one pass, with atomics.
    Atomic,
    /// For culling with a prefix sum.
    Prefix,
    /// For reading what culling has put out.
    CulledObject,
}

/// The layouts of pipelines.
#[derive(Clone, Copy, Debug, PartialEq, Eq, Structural)]
pub enum PipelineLayoutId {
    Atomic,
    Prefix,
    PrefixSum,
}

/// The compute pipelines.
#[derive(Clone, Copy, Debug, PartialEq, Eq, Structural)]
pub enum PipelineId {
    /// Culls each object and appends its draw call at once.
    Atomic,
    /// Marks which objects are visible.
    PrefixCull,
    /// Does one step of a prefix sum over the marks.
    PrefixSum,
    /// Writes the draw calls of the visible objects.
    PrefixOutput,
}

/// The bind groups of a culling pass.
#[derive(Clone, Copy, Debug, PartialEq, Eq, Structural)]
pub enum BindGroupId {
    Atomic,
    PrefixA,
    PrefixB,
}

/// The buffers of a culling pass.
#[derive(Clone, Copy, Debug, PartialEq, Eq, Structural)]
pub enum BufferId {
    /// The uniforms and the records of the objects.
    Input,
    /// One half of the memory of the prefix sum.
    ResultA,
    /// The other half of the memory of the prefix sum.
    ResultB,
    /// What the shaders that draw read of the visible objects.
    Output,
    /// The draw calls of the visible objects.
    Indirect,
}

/// A storage buffer in the layout of a bind group.
#[derive(Clone, Copy, Debug, PartialEq, Eq)]
pub struct BindGroupLayoutEntry {
    pub binding: u32,
    pub visibility: ShaderStage,
    pub read_only: bool,
    pub has_dynamic_offset: bool,
    /// The fewest bytes that may be bound. Nothing is checked if there is none.
    pub min_binding_size: Option<u64>,
    /// The length, if an array of buffers is bound.
    pub count: Option<u32>,
}

#[derive(Debug, PartialEq, Eq)]
pub struct BindGroupLayoutDescriptor {
    pub label: &'static str,
    pub entries: Vec<BindGroupLayoutEntry>,
}

/// A range of bytes of the push constants.
#[derive(Clone, Copy, Debug, PartialEq, Eq)]
pub struct PushConstantRange {
    pub stages: ShaderStage,
    pub start: u32,
    pub end: u32,
}

#[derive(Debug, PartialEq, Eq)]
pub struct PipelineLayoutDescriptor {
    pub label: &'static str,
    pub bind_group_layout: BindGroupLayoutId,
    pub push_constant_ranges: Vec<PushConstantRange>,
}

#[derive(Clone, Copy, Debug, PartialEq, Eq)]
pub struct ComputePipelineDescriptor {
    pub label: &'static str,
    pub layout: PipelineLayoutId,
    /// The label of the shader module.
    pub module: &'static str,
    /// The file that holds the shader.
    pub shader_file: &'static str,
    pub entry_point: &'static str,
}

/// What a buffer is for.
#[derive(Clone, Copy, Debug, PartialEq, Eq)]
pub struct BufferUsages {
    pub storage: bool,
    pub indirect: bool,
    pub vertex: bool,
}

#[derive(Clone, Copy, Debug, PartialEq, Eq)]
pub struct BufferDescriptor {
    pub label: &'static str,
    /// The size in bytes.
    pub size: u64,
    pub usage: BufferUsages,
    pub mapped_at_creation: bool,
}

/// A buffer with its first contents.
#[derive(Debug, PartialEq, Eq)]
pub struct BufferInitDescriptor {
    pub label: &'static str,
    pub contents: Vec<u8>,
    pub usage: BufferUsages,
}

/// Whole buffers, bound one after the other, from binding 0.
#[derive(Debug, PartialEq, Eq)]
pub struct BindGroupDescriptor {
    pub label: &'static str,
    pub layout: BindGroupLayoutId,
    pub buffers: Vec<BufferId>,
}

/// Shaders may read and write the buffer, and that is all.
pub open spec fn storage_only() -> BufferUsages {
    BufferUsages { storage: true, indirect: false, vertex: false }
}

/// The fewest bytes that may be bound, as a layout has it: no bound at all, if
/// that is zero.
pub open spec fn binding_size(size: nat) -> Option<u64> {
    if size == 0 {
        None
    } else {
        Some(size as u64)
    }
}

/// The layout entry of one storage buffer that compute shaders see.
pub open spec fn storage_entry(binding: u32, read_only: bool, size: nat) -> BindGroupLayoutEntry {
    BindGroupLayoutEntry {
        binding,
        visibility: ShaderStage::Compute,
        read_only,
        has_dynamic_offset: false,
        min_binding_size: binding_size(size),
        count: None,
    }
}

/// The layout of the bind groups that a pipeline layout takes.
pub open spec fn pipeline_layout_group(layout: PipelineLayoutId) -> BindGroupLayoutId {
    match layout {
        PipelineLayoutId::Atomic => BindGroupLayoutId::Atomic,
        PipelineLayoutId::Prefix => BindGroupLayoutId::Prefix,
        PipelineLayoutId::PrefixSum => BindGroupLayoutId::Prefix,
    }
}

/// The layout of a pipeline.
pub open spec fn pipeline_layout(pipeline: PipelineId) -> PipelineLayoutId {
    match pipeline {
        PipelineId::Atomic => PipelineLayoutId::Atomic,
        PipelineId::PrefixCull => PipelineLayoutId::Prefix,
        PipelineId::PrefixSum => PipelineLayoutId::PrefixSum,
        PipelineId::PrefixOutput => PipelineLayoutId::Prefix,
    }
}

/// The layout of a bind group.
pub open spec fn group_layout(group: BindGroupId) -> BindGroupLayoutId {
    match group {
        BindGroupId::Atomic => BindGroupLayoutId::Atomic,
        BindGroupId::PrefixA => BindGroupLayoutId::Prefix,
        BindGroupId::PrefixB => BindGroupLayoutId::Prefix,
    }
}

/// The buffers of a bind group, from binding 0.
pub open spec fn group_buffers(group: BindGroupId) -> Seq<BufferId> {
    match group {
        BindGroupId::Atomic => seq![BufferId::Input, BufferId::Output, BufferId::Indirect],
        BindGroupId::PrefixA => seq![
            BufferId::Input,
            BufferId::ResultA,
            BufferId::ResultB,
            BufferId::Output,
            BufferId::Indirect,
        ],
        BindGroupId::PrefixB => seq![
            BufferId::Input,
            BufferId::ResultB,
            BufferId::ResultA,
            BufferId::Output,
            BufferId::Indirect,
        ],
    }
}

/// Shaders may read and write the buffer, and that is all.
pub(crate) fn new_storage_only() -> (usage: BufferUsages)
    ensures
        usage == storage_only(),
{
    BufferUsages { storage: true, indirect: false, vertex: false }
}

/// The layout entry of one storage buffer that compute shaders see.
pub(crate) fn new_storage_entry(binding: u32, read_only: bool, size: usize) -> (entry:
    BindGroupLayoutEntry)
    ensures
        entry == storage_entry(binding, read_only, size as nat),
{
    let min_binding_size: Option<u64> = if size == 0 {
        None
    } else {
        Some(size as u64)
    };
    BindGroupLayoutEntry {
        binding,
        visibility: ShaderStage::Compute,
        read_only,
        has_dynamic_offset: false,
        min_binding_size,
        count: None,
    }
}

/// The bind groups of the prefix sum are the same but for the two buffers of
/// marks, which are the other way round; the group for atomics has no marks.
/// Each pipeline takes the groups that are made for it.
pub proof fn law_bind_groups()
    ensures
        group_buffers(BindGroupId::PrefixA) == seq![
            BufferId::Input,
            BufferId::ResultA,
            BufferId::ResultB,
            BufferId::Output,
            BufferId::Indirect,
        ],
        group_buffers(BindGroupId::PrefixB) == group_buffers(BindGroupId::PrefixA).update(
            1,
            BufferId::ResultB,
        ).update(2, BufferId::ResultA),
        group_buffers(BindGroupId::Atomic) == seq![
            BufferId::Input,
            BufferId::Output,
            BufferId::Indirect,
        ],
        forall|pipeline: PipelineId, group: BindGroupId|
            #![trigger pipeline_layout(pipeline), group_layout(group)]
            (pipeline_layout_group(pipeline_layout(pipeline)) == group_layout(group)) <==> ((
            pipeline == PipelineId::Atomic) == (group == BindGroupId::Atomic)),
{
}

} // verus!
