//! Culling a group of objects.

use vstd::arithmetic::power2::pow2;
use vstd::prelude::*;

use crate::cull_data::{build_cull_data, truncate, GPUCullingUniforms};
use crate::culler::{GpuCuller, DRAW_CALL_SIZE, INDIRECT_HEADER_SIZE, WORD_SIZE, WORKGROUP_SIZE};
use crate::draw::{GPUIndirectData, RenderCommand};
use crate::pass::{record_atomic_pass, record_prefix_pass, workgroup_count, ComputeCommand, Step};
use crate::resources::{
    new_storage_only, BindGroupDescriptor, BindGroupId, BindGroupLayoutEntry, BindGroupLayoutId,
    BufferDescriptor, BufferId, BufferInitDescriptor, BufferUsages, PipelineId,
};
use crate::scene::{
    CameraManager, InternalObject, MaterialManager, ObjectManager, TransparencyType,
};
use crate::sorting::Sorting;

verus! {

/// What is culled.
pub struct GpuCullerCullArgs<'a> {
    pub materials: &'a MaterialManager,
    pub camera: &'a CameraManager,
    pub objects: &'a mut ObjectManager,
    /// The squared distance of each object of the group to the camera. Not
    /// looked at if the group is not sorted.
    pub distances: &'a Vec<u32>,
    /// The group of objects.
    pub transparency: TransparencyType,
    pub sort: Option<Sorting>,
}

/// How objects are culled.
#[derive(Clone, Copy, Debug, PartialEq, Eq, Structural)]
pub enum CullMode {
    /// In one pass. The order of the objects is lost.
    Atomic,
    /// With a prefix sum. The order of the objects is kept.
    Prefix,
}

/// A compute pass that culls.
#[derive(Debug, PartialEq, Eq)]
pub struct CullPass {
    pub label: &'static str,
    pub input_buffer: BufferInitDescriptor,
    /// The buffers of marks.
    pub result_buffers: Vec<(BufferId, BufferDescriptor)>,
    pub bind_groups: Vec<(BindGroupId, BindGroupDescriptor)>,
    pub commands: Vec<ComputeCommand>,
}

/// What culling makes.
#[derive(Debug, PartialEq, Eq)]
pub struct CulledObjectSet {
    pub output_buffer: BufferDescriptor,
    /// The pass to be run. There is none if there are no objects.
    pub pass: Option<CullPass>,
    pub output_bg: BindGroupDescriptor,
    pub calls: GPUIndirectData,
}

/// A buffer that is not mapped, with the given properties.
pub open spec fn is_buffer(
    buffer: BufferDescriptor,
    label: Seq<char>,
    size: nat,
    usage: BufferUsages,
) -> bool {
    &&& buffer.label@ == label
    &&& buffer.size == size
    &&& buffer.usage == usage
    &&& !buffer.mapped_at_creation
}

/// A bind group of a pass: its identifier, and the buffers that go with it.
pub open spec fn is_bind_group(
    group: (BindGroupId, BindGroupDescriptor),
    id: BindGroupId,
    label: Seq<char>,
) -> bool {
    &&& group.0 == id
    &&& group.1.label@ == label
    &&& group.1.layout == crate::resources::group_layout(id)
    &&& group.1.buffers@ == crate::resources::group_buffers(id)
}

/// The number of workgroups for so many objects, as far as it fits in a word.
pub open spec fn workgroups(objects: nat) -> u32 {
    crate::cull_data::low_word((objects + WORKGROUP_SIZE - 1) / WORKGROUP_SIZE as int)
}

/// The pass that culls so many objects.
pub open spec fn is_cull_pass(pass: CullPass, mode: CullMode, objects: nat) -> bool {
    let usage = crate::resources::storage_only();
    &&& pass.input_buffer.label@ == "culling inputs"@
    &&& pass.input_buffer.usage == usage
    &&& match mode {
        CullMode::Prefix => {
            &&& pass.label@ == "prefix cull"@
            &&& pass.result_buffers@.len() == 2
            &&& pass.result_buffers@[0].0 == BufferId::ResultA
            &&& is_buffer(
                pass.result_buffers@[0].1,
                "cull result index buffer A"@,
                objects * WORD_SIZE as nat,
                usage,
            )
            &&& pass.result_buffers@[1].0 == BufferId::ResultB
            &&& is_buffer(
                pass.result_buffers@[1].1,
                "cull result index buffer B"@,
                objects * WORD_SIZE as nat,
                usage,
            )
            &&& pass.bind_groups@.len() == 2
            &&& is_bind_group(pass.bind_groups@[0], BindGroupId::PrefixA, "prefix cull A bg"@)
            &&& is_bind_group(pass.bind_groups@[1], BindGroupId::PrefixB, "prefix cull B bg"@)
            &&& crate::pass::performs_all(
                pass.commands@,
                crate::pass::prefix_steps(
                    crate::cull_data::low_word(objects as int) as nat,
                    workgroups(objects),
                ),
            )
        },
        CullMode::Atomic => {
            &&& pass.label@ == "atomic cull"@
            &&& pass.result_buffers@.len() == 0
            &&& pass.bind_groups@.len() == 1
            &&& is_bind_group(pass.bind_groups@[0], BindGroupId::Atomic, "atomic culling bg"@)
            &&& crate::pass::performs_all(
                pass.commands@,
                crate::pass::atomic_steps(workgroups(objects)),
            )
        },
    }
}

fn storage_buffer(label: &'static str, size: usize) -> (buffer: BufferDescriptor)
    ensures
        is_buffer(buffer, label@, size as nat, crate::resources::storage_only()),
{
    BufferDescriptor { label, size: size as u64, usage: new_storage_only(), mapped_at_creation: false }
}

/// Plans the pass that culls so many objects, whose input buffer holds `data`.
pub fn plan_cull_pass(mode: CullMode, objects: usize, data: Vec<u8>) -> (pass: CullPass)
    requires
        objects * WORD_SIZE <= usize::MAX,
        objects + WORKGROUP_SIZE - 1 <= usize::MAX,
        mode == CullMode::Prefix ==> crate::cull_data::low_word(objects as int) <= 0x8000_0000,
    ensures
        is_cull_pass(pass, mode, objects as nat),
        pass.input_buffer.contents@ == data@,
        pass.input_buffer.label@ == "culling inputs"@,
        pass.input_buffer.usage == (BufferUsages { storage: true, indirect: false, vertex: false }),
        mode is Prefix ==> {
            &&& pass.label@ == "prefix cull"@
            &&& pass.result_buffers@.len() == 2
            &&& pass.result_buffers@[0].0 == BufferId::ResultA
            &&& pass.result_buffers@[0].1.label@ == "cull result index buffer A"@
            &&& pass.result_buffers@[0].1.size == 4 * objects
            &&& pass.result_buffers@[0].1.usage == (BufferUsages { storage: true, indirect: false, vertex: false })
            &&& !pass.result_buffers@[0].1.mapped_at_creation
            &&& pass.result_buffers@[1].0 == BufferId::ResultB
            &&& pass.result_buffers@[1].1.label@ == "cull result index buffer B"@
            &&& pass.result_buffers@[1].1.size == 4 * objects
            &&& pass.result_buffers@[1].1.usage == (BufferUsages { storage: true, indirect: false, vertex: false })
            &&& !pass.result_buffers@[1].1.mapped_at_creation
            &&& pass.bind_groups@.len() == 2
            &&& pass.bind_groups@[0].0 == BindGroupId::PrefixA
            &&& pass.bind_groups@[0].1.label@ == "prefix cull A bg"@
            &&& pass.bind_groups@[0].1.layout == BindGroupLayoutId::Prefix
            &&& pass.bind_groups@[0].1.buffers@ == seq![BufferId::Input, BufferId::ResultA, BufferId::ResultB, BufferId::Output, BufferId::Indirect]
            &&& pass.bind_groups@[1].0 == BindGroupId::PrefixB
            &&& pass.bind_groups@[1].1.label@ == "prefix cull B bg"@
            &&& pass.bind_groups@[1].1.layout == BindGroupLayoutId::Prefix
            &&& pass.bind_groups@[1].1.buffers@ == seq![BufferId::Input, BufferId::ResultB, BufferId::ResultA, BufferId::Output, BufferId::Indirect]
        },
        mode is Atomic ==> {
            &&& pass.label@ == "atomic cull"@
            &&& pass.result_buffers@.len() == 0
            &&& pass.bind_groups@.len() == 1
            &&& pass.bind_groups@[0].0 == BindGroupId::Atomic
            &&& pass.bind_groups@[0].1.label@ == "atomic culling bg"@
            &&& pass.bind_groups@[0].1.layout == BindGroupLayoutId::Atomic
            &&& pass.bind_groups@[0].1.buffers@ == seq![BufferId::Input, BufferId::Output, BufferId::Indirect]
        },
        forall|i: int|
            0 <= i < pass.commands@.len() && (#[trigger] pass.commands@[i]) is Dispatch ==> {
                &&& pass.commands@[i]->x == (objects + 255) / 256 % 0x1_0000_0000
                &&& pass.commands@[i]->y == 1
                &&& pass.commands@[i]->z == 1
                &&& 0 < objects <= u32::MAX ==> 256 * (pass.commands@[i]->x - 1) < objects <= 256
                    * pass.commands@[i]->x
            },
        mode is Prefix && 1 <= objects <= 0x8000_0000 ==> {
            forall|steps: Seq<Step>, marks: Map<BufferId, Seq<nat>>, visible: Seq<nat>|
                crate::pass::performs_all(pass.commands@, steps) && visible.len() == objects ==> {
                    let end = #[trigger] crate::scan::after_steps(
                        crate::scan::start_of_pass(marks),
                        steps,
                        visible,
                    );
                    &&& end is Some
                    &&& end->0.output == Some(crate::scan::prefix_sums(visible))
                }
        },
{
    let input_buffer = BufferInitDescriptor {
        label: "culling inputs",
        contents: data,
        usage: new_storage_only(),
    };
    let workgroup_count: u32 = workgroup_count(objects);
    let pass = match mode {
        CullMode::Prefix => {
            let buffer_a = storage_buffer("cull result index buffer A", objects * WORD_SIZE);
            let buffer_b = storage_buffer("cull result index buffer B", objects * WORD_SIZE);
            let bg_a = BindGroupDescriptor {
                label: "prefix cull A bg",
                layout: BindGroupLayoutId::Prefix,
                buffers: vec![
                    BufferId::Input,
                    BufferId::ResultA,
                    BufferId::ResultB,
                    BufferId::Output,
                    BufferId::Indirect,
                ],
            };
            let bg_b = BindGroupDescriptor {
                label: "prefix cull B bg",
                layout: BindGroupLayoutId::Prefix,
                buffers: vec![
                    BufferId::Input,
                    BufferId::ResultB,
                    BufferId::ResultA,
                    BufferId::Output,
                    BufferId::Indirect,
                ],
            };
            assert(bg_a.buffers@ =~= crate::resources::group_buffers(BindGroupId::PrefixA));
            assert(bg_b.buffers@ =~= crate::resources::group_buffers(BindGroupId::PrefixB));
            CullPass {
                label: "prefix cull",
                input_buffer,
                result_buffers: vec![
                    (BufferId::ResultA, buffer_a),
                    (BufferId::ResultB, buffer_b),
                ],
                bind_groups: vec![(BindGroupId::PrefixA, bg_a), (BindGroupId::PrefixB, bg_b)],
                commands: record_prefix_pass(truncate(objects), workgroup_count),
            }
        },
        CullMode::Atomic => {
            let bg = BindGroupDescriptor {
                label: "atomic culling bg",
                layout: BindGroupLayoutId::Atomic,
                buffers: vec![BufferId::Input, BufferId::Output, BufferId::Indirect],
            };
            assert(bg.buffers@ =~= crate::resources::group_buffers(BindGroupId::Atomic));
            CullPass {
                label: "atomic cull",
                input_buffer,
                result_buffers: Vec::new(),
                bind_groups: vec![(BindGroupId::Atomic, bg)],
                commands: record_atomic_pass(workgroup_count),
            }
        },
    };
    proof {
        lemma_planned_pass(pass, mode, objects as nat);
    }
    pass
}

/// What is to be known of a planned pass.
proof fn lemma_planned_pass(pass: CullPass, mode: CullMode, objects: nat)
    requires
        is_cull_pass(pass, mode, objects),
    ensures
        pass.input_buffer.label@ == "culling inputs"@,
        pass.input_buffer.usage == (BufferUsages { storage: true, indirect: false, vertex: false }),
        mode is Prefix ==> {
            &&& pass.label@ == "prefix cull"@
            &&& pass.result_buffers@.len() == 2
            &&& pass.result_buffers@[0].0 == BufferId::ResultA
            &&& pass.result_buffers@[0].1.label@ == "cull result index buffer A"@
            &&& pass.result_buffers@[0].1.size == 4 * objects
            &&& pass.result_buffers@[0].1.usage == (BufferUsages { storage: true, indirect: false, vertex: false })
            &&& !pass.result_buffers@[0].1.mapped_at_creation
            &&& pass.result_buffers@[1].0 == BufferId::ResultB
            &&& pass.result_buffers@[1].1.label@ == "cull result index buffer B"@
            &&& pass.result_buffers@[1].1.size == 4 * objects
            &&& pass.result_buffers@[1].1.usage == (BufferUsages { storage: true, indirect: false, vertex: false })
            &&& !pass.result_buffers@[1].1.mapped_at_creation
            &&& pass.bind_groups@.len() == 2
            &&& pass.bind_groups@[0].0 == BindGroupId::PrefixA
            &&& pass.bind_groups@[0].1.label@ == "prefix cull A bg"@
            &&& pass.bind_groups@[0].1.layout == BindGroupLayoutId::Prefix
            &&& pass.bind_groups@[0].1.buffers@ == seq![BufferId::Input, BufferId::ResultA, BufferId::ResultB, BufferId::Output, BufferId::Indirect]
            &&& pass.bind_groups@[1].0 == BindGroupId::PrefixB
            &&& pass.bind_groups@[1].1.label@ == "prefix cull B bg"@
            &&& pass.bind_groups@[1].1.layout == BindGroupLayoutId::Prefix
            &&& pass.bind_groups@[1].1.buffers@ == seq![BufferId::Input, BufferId::ResultB, BufferId::ResultA, BufferId::Output, BufferId::Indirect]
        },
        mode is Atomic ==> {
            &&& pass.label@ == "atomic cull"@
            &&& pass.result_buffers@.len() == 0
            &&& pass.bind_groups@.len() == 1
            &&& pass.bind_groups@[0].0 == BindGroupId::Atomic
            &&& pass.bind_groups@[0].1.label@ == "atomic culling bg"@
            &&& pass.bind_groups@[0].1.layout == BindGroupLayoutId::Atomic
            &&& pass.bind_groups@[0].1.buffers@ == seq![BufferId::Input, BufferId::Output, BufferId::Indirect]
        },
        forall|i: int|
            0 <= i < pass.commands@.len() && (#[trigger] pass.commands@[i]) is Dispatch ==> {
                &&& pass.commands@[i]->x == (objects + 255) / 256 % 0x1_0000_0000
                &&& pass.commands@[i]->y == 1
                &&& pass.commands@[i]->z == 1
                &&& 0 < objects <= u32::MAX ==> 256 * (pass.commands@[i]->x - 1) < objects <= 256
                    * pass.commands@[i]->x
            },
        mode is Prefix && 1 <= objects <= 0x8000_0000 ==> {
            forall|steps: Seq<Step>, marks: Map<BufferId, Seq<nat>>, visible: Seq<nat>|
                crate::pass::performs_all(pass.commands@, steps) && visible.len() == objects ==> {
                    let end = #[trigger] crate::scan::after_steps(
                        crate::scan::start_of_pass(marks),
                        steps,
                        visible,
                    );
                    &&& end is Some
                    &&& end->0.output == Some(crate::scan::prefix_sums(visible))
                }
        },
{
    law_cull_pass_parts(pass, mode, objects);
    if mode is Prefix && 1 <= objects <= 0x8000_0000 {
        assert forall|steps: Seq<Step>, marks: Map<BufferId, Seq<nat>>, visible: Seq<nat>|
            crate::pass::performs_all(pass.commands@, steps) && visible.len() == objects implies {
            let end = #[trigger] crate::scan::after_steps(
                crate::scan::start_of_pass(marks),
                steps,
                visible,
            );
            &&& end is Some
            &&& end->0.output == Some(crate::scan::prefix_sums(visible))
        } by {
            law_cull_pass_commands_sum(pass, objects, steps, marks, visible);
        }
    }
}

impl GpuCuller {
    /// What culling makes of so many objects, but for the contents of the input
    /// buffer.
    pub open spec fn is_culled_set(self, set: CulledObjectSet, objects: nat) -> bool {
        &&& is_buffer(
            set.output_buffer,
            "culling output"@,
            (if objects == 0 {
                1
            } else {
                objects
            }) * self.per_object_size as nat,
            crate::resources::storage_only(),
        )
        &&& set.output_bg.label@ == "culling input bg"@
        &&& set.output_bg.layout == BindGroupLayoutId::CulledObject
        &&& set.output_bg.buffers@ == seq![BufferId::Output]
        &&& is_buffer(
            set.calls.indirect_buffer,
            "indirect buffer"@,
            objects * DRAW_CALL_SIZE as nat + INDIRECT_HEADER_SIZE as nat,
            (BufferUsages { storage: true, indirect: true, vertex: true }),
        )
        &&& set.calls.count == objects
        &&& set.pass is Some <==> objects != 0
        &&& set.pass matches Some(pass) ==> is_cull_pass(pass, CullMode::Prefix, objects)
    }

    /// Plans the culling of a group of objects. If they are to be sorted, they are
    /// sorted first, and stay so. They are culled with a prefix sum, sorted or not.
    pub fn cull(&self, args: GpuCullerCullArgs<'_>) -> (set: CulledObjectSet)
        requires
            args.camera.frustum@.len() == self.frustum_words,
            crate::cull_data::materials_known(
                args.materials@,
                old(args.objects).objects(args.transparency.key()),
            ),
            args.sort is Some ==> args.distances@.len() == old(args.objects).objects(
                args.transparency.key(),
            ).len(),
            crate::cull_data::cull_data_size(
                self.frustum_words as nat,
                old(args.objects).objects(args.transparency.key()).len(),
            ) <= usize::MAX,
            old(args.objects).objects(args.transparency.key()).len() * self.per_object_size
                <= usize::MAX,
            crate::cull_data::low_word(
                old(args.objects).objects(args.transparency.key()).len() as int,
            ) <= 0x8000_0000,
        ensures
            final(args.objects)@.dom() == old(args.objects)@.dom(),
            forall|other: u64|
                other != args.transparency.key() && #[trigger] old(args.objects)@.contains_key(other)
                    ==> final(args.objects)@[other] == old(args.objects)@[other],
            match args.sort {
                Some(sorting) => crate::sorting::is_sorted_copy(
                    sorting,
                    old(args.objects).objects(args.transparency.key()),
                    args.distances@,
                    final(args.objects).objects(args.transparency.key()),
                ),
                None => final(args.objects)@ == old(args.objects)@,
            },
            self.is_culled_set(set, old(args.objects).objects(args.transparency.key()).len()),
            set.pass matches Some(pass) ==> crate::bytes::is_image(
                pass.input_buffer.contents@,
                crate::cull_data::cull_image(
                    GPUCullingUniforms {
                        view: args.camera.view,
                        view_proj: args.camera.view_proj,
                        frustum: &args.camera.frustum,
                        object_count: crate::cull_data::low_word(
                            old(args.objects).objects(args.transparency.key()).len() as int,
                        ),
                    },
                    args.materials@,
                    final(args.objects).objects(args.transparency.key()),
                ),
            ),
            set.pass matches Some(pass) ==> pass.input_buffer.contents@.len()
                == crate::cull_data::cull_data_size(
                self.frustum_words as nat,
                old(args.objects).objects(args.transparency.key()).len(),
            ),
            set.output_buffer.label@ == "culling output"@,
            old(args.objects).objects(args.transparency.key()).len() == 0 ==> set.output_buffer.size == self.per_object_size,
            old(args.objects).objects(args.transparency.key()).len() > 0 ==> set.output_buffer.size == old(args.objects).objects(args.transparency.key()).len() * self.per_object_size,
            set.output_buffer.usage == (BufferUsages { storage: true, indirect: false, vertex: false }),
            !set.output_buffer.mapped_at_creation,
            set.output_bg.label@ == "culling input bg"@,
            set.output_bg.layout == BindGroupLayoutId::CulledObject,
            set.output_bg.buffers@ == seq![BufferId::Output],
            set.calls.indirect_buffer.label@ == "indirect buffer"@,
            set.calls.indirect_buffer.size == 20 * old(args.objects).objects(args.transparency.key()).len() + 16,
            set.calls.indirect_buffer.usage == (BufferUsages {
                storage: true,
                indirect: true,
                vertex: true,
            }),
            !set.calls.indirect_buffer.mapped_at_creation,
            set.calls.count == old(args.objects).objects(args.transparency.key()).len(),
            set.pass is None <==> old(args.objects).objects(args.transparency.key()).len() == 0,
            set.pass matches Some(pass) ==> {
                &&& pass.input_buffer.label@ == "culling inputs"@
                &&& pass.input_buffer.usage == (BufferUsages { storage: true, indirect: false, vertex: false })
                &&& pass.input_buffer.contents@ == crate::bytes::words_to_bytes(
                    crate::bytes::machine_order(),
                    crate::cull_data::cull_image(
                        GPUCullingUniforms {
                            view: args.camera.view,
                            view_proj: args.camera.view_proj,
                            frustum: &args.camera.frustum,
                            object_count: (old(args.objects).objects(args.transparency.key()).len() as int % 0x1_0000_0000) as u32,
                        },
                        args.materials@,
                        final(args.objects).objects(args.transparency.key()),
                    ),
                )
                &&& pass.label@ == "prefix cull"@
                &&& pass.result_buffers@.len() == 2
                &&& pass.result_buffers@[0].0 == BufferId::ResultA
                &&& pass.result_buffers@[0].1.label@ == "cull result index buffer A"@
                &&& pass.result_buffers@[0].1.size == 4 * old(args.objects).objects(args.transparency.key()).len()
                &&& pass.result_buffers@[0].1.usage == (BufferUsages { storage: true, indirect: false, vertex: false })
                &&& !pass.result_buffers@[0].1.mapped_at_creation
                &&& pass.result_buffers@[1].0 == BufferId::ResultB
                &&& pass.result_buffers@[1].1.label@ == "cull result index buffer B"@
                &&& pass.result_buffers@[1].1.size == 4 * old(args.objects).objects(args.transparency.key()).len()
                &&& pass.result_buffers@[1].1.usage == (BufferUsages { storage: true, indirect: false, vertex: false })
                &&& !pass.result_buffers@[1].1.mapped_at_creation
                &&& pass.bind_groups@.len() == 2
                &&& pass.bind_groups@[0].0 == BindGroupId::PrefixA
                &&& pass.bind_groups@[0].1.label@ == "prefix cull A bg"@
                &&& pass.bind_groups@[0].1.layout == BindGroupLayoutId::Prefix
                &&& pass.bind_groups@[0].1.buffers@ == seq![BufferId::Input, BufferId::ResultA, BufferId::ResultB, BufferId::Output, BufferId::Indirect]
                &&& pass.bind_groups@[1].0 == BindGroupId::PrefixB
                &&& pass.bind_groups@[1].1.label@ == "prefix cull B bg"@
                &&& pass.bind_groups@[1].1.layout == BindGroupLayoutId::Prefix
                &&& pass.bind_groups@[1].1.buffers@ == seq![BufferId::Input, BufferId::ResultB, BufferId::ResultA, BufferId::Output, BufferId::Indirect]
            },
            set.pass matches Some(pass) ==> {
                forall|i: int|
                    0 <= i < pass.commands@.len() && (#[trigger] pass.commands@[i]) is Dispatch ==> {
                        &&& pass.commands@[i]->x == (old(args.objects).objects(args.transparency.key()).len() + 255) / 256 % 0x1_0000_0000
                        &&& pass.commands@[i]->y == 1
                        &&& pass.commands@[i]->z == 1
                        &&& 0 < old(args.objects).objects(args.transparency.key()).len() <= u32::MAX ==> 256 * (pass.commands@[i]->x - 1) < old(args.objects).objects(args.transparency.key()).len() <= 256
                            * pass.commands@[i]->x
                    }
            },
            set.pass matches Some(pass) ==> old(args.objects).objects(args.transparency.key()).len() <= 0x8000_0000 ==> {
                forall|steps: Seq<Step>, marks: Map<BufferId, Seq<nat>>, visible: Seq<nat>|
                    crate::pass::performs_all(pass.commands@, steps) && visible.len() == old(args.objects).objects(args.transparency.key()).len() ==> {
                        let end = #[trigger] crate::scan::after_steps(
                            crate::scan::start_of_pass(marks),
                            steps,
                            visible,
                        );
                        &&& end is Some
                        &&& end->0.output == Some(crate::scan::prefix_sums(visible))
                    }
            },
    {
        let key: u64 = args.transparency.key();
        let ghost before = args.objects.objects(key);
        if let Some(sorting) = args.sort {
            args.objects.sort_objects(key, sorting, args.distances);
            proof {
                crate::sorting::law_sort_keeps_items(
                    sorting,
                    before,
                    args.distances@,
                    args.objects.objects(key),
                );
            }
        }
        let none: Vec<InternalObject> = Vec::new();
        let objects: &[InternalObject] = match args.objects.get_objects(key) {
            Some(objects) => objects.as_slice(),
            None => none.as_slice(),
        };
        let count: usize = objects.len();
        let uniforms = GPUCullingUniforms {
            view: args.camera.view,
            view_proj: args.camera.view_proj,
            frustum: &args.camera.frustum,
            object_count: truncate(count),
        };
        let data = build_cull_data(&uniforms, args.materials, objects);
        let output_count: usize = if count == 0 {
            1
        } else {
            count
        };
        let output_buffer = storage_buffer("culling output", output_count * self.per_object_size);
        let indirect_buffer = BufferDescriptor {
            label: "indirect buffer",
            size: (count * DRAW_CALL_SIZE + INDIRECT_HEADER_SIZE) as u64,
            usage: BufferUsages { storage: true, indirect: true, vertex: true },
            mapped_at_creation: false,
        };
        let pass: Option<CullPass> = if count != 0 {
            Some(plan_cull_pass(CullMode::Prefix, count, data))
        } else {
            None
        };
        let output_bg = BindGroupDescriptor {
            label: "culling input bg",
            layout: BindGroupLayoutId::CulledObject,
            buffers: vec![BufferId::Output],
        };
        assert(output_bg.buffers@ =~= seq![BufferId::Output]);
        let set = CulledObjectSet {
            output_buffer,
            pass,
            output_bg,
            calls: GPUIndirectData { indirect_buffer, count },
        };
        proof {
            law_culled_set_parts(*self, set, count as nat);
        }
        set
    }
}

/// The size in bytes of a buffer of a pass.
pub open spec fn bound_size(set: CulledObjectSet, pass: CullPass, buffer: BufferId) -> nat {
    match buffer {
        BufferId::Input => pass.input_buffer.contents@.len(),
        BufferId::ResultA => pass.result_buffers@[0].1.size as nat,
        BufferId::ResultB => pass.result_buffers@[1].1.size as nat,
        BufferId::Output => set.output_buffer.size as nat,
        BufferId::Indirect => set.calls.indirect_buffer.size as nat,
    }
}

/// A bind group fits a layout: it has a buffer for each entry, at the entry's
/// binding, and none is smaller than the entry asks for.
pub open spec fn fits_layout(
    set: CulledObjectSet,
    pass: CullPass,
    group: BindGroupDescriptor,
    entries: Seq<BindGroupLayoutEntry>,
) -> bool {
    &&& group.buffers@.len() == entries.len()
    &&& forall|i: int|
        0 <= i < entries.len() ==> {
            &&& (#[trigger] entries[i]).binding == i
            &&& entries[i].min_binding_size matches Some(size) ==> size <= bound_size(
                set,
                pass,
                group.buffers@[i],
            )
        }
}

/// Each bind group of a pass fits the layout that the culler has for it.
pub proof fn law_bind_groups_fit(
    culler: GpuCuller,
    set: CulledObjectSet,
    objects: nat,
    group: int,
)
    requires
        culler.well_formed(),
        culler.is_culled_set(set, objects),
        set.pass matches Some(pass) && pass.input_buffer.contents@.len()
            == crate::cull_data::cull_data_size(culler.frustum_words as nat, objects),
        0 <= group < set.pass->0.bind_groups@.len(),
    ensures
        ({
            let descriptor = set.pass->0.bind_groups@[group].1;
            let entries = culler.layout_entries(descriptor.layout);
            &&& entries is Some
            &&& fits_layout(set, set.pass->0, descriptor, entries->0)
        }),
{
    assert(objects * culler.per_object_size as nat >= culler.per_object_size) by (nonlinear_arith)
        requires
            objects >= 1,
            culler.per_object_size >= 0,
    ;
}

/// Drawing stays inside the buffer of draw calls: the draw calls come after the
/// counter, and as many as may be drawn fit in.
pub proof fn law_draws_stay_inside(culler: GpuCuller, set: CulledObjectSet, objects: nat)
    requires
        culler.is_culled_set(set, objects),
        objects != 0,
    ensures
        ({
            let size = set.calls.indirect_buffer.size;
            let commands = crate::draw::draw_commands(set.calls.count as nat);
            &&& commands.len() == 2
            &&& commands[0] matches RenderCommand::SetVertexBuffer { slot, buffer, offset }
            &&& buffer == BufferId::Indirect
            &&& offset < size
            &&& commands[1] matches RenderCommand::MultiDrawIndexedIndirectCount {
                indirect_buffer,
                indirect_offset,
                count_buffer,
                count_offset,
                max_count,
            }
            &&& indirect_buffer == BufferId::Indirect
            &&& count_buffer == BufferId::Indirect
            &&& count_offset + WORD_SIZE <= indirect_offset
            &&& indirect_offset + max_count * DRAW_CALL_SIZE <= size
            &&& max_count <= objects
        }),
{
}

/// Where there are no objects, nothing is run on the device and nothing is drawn.
pub proof fn law_nothing_from_nothing(culler: GpuCuller, set: CulledObjectSet)
    requires
        culler.is_culled_set(set, 0),
    ensures
        set.pass is None,
        crate::draw::draw_commands(set.calls.count as nat) == Seq::<RenderCommand>::empty(),
{
}

/// The pass that culls objects writes the draw calls by the prefix sums of the
/// marks of the visible ones.
pub proof fn law_cull_pass_sums(marks: Map<BufferId, Seq<nat>>, visible: Seq<nat>)
    requires
        visible.len() <= u32::MAX,
    ensures
        ({
            let end = crate::scan::after_steps(
                crate::scan::start_of_pass(marks),
                crate::pass::prefix_steps(
                    crate::cull_data::low_word(visible.len() as int) as nat,
                    workgroups(visible.len()),
                ),
                visible,
            );
            &&& end is Some
            &&& end->0.output == Some(crate::scan::prefix_sums(visible))
        }),
{
    crate::scan::law_workgroups_reach_all(visible.len());
    crate::scan::law_prefix_pass_sums(marks, visible, workgroups(visible.len()));
}

/// The buffers and bind groups of a pass, one by one, and the size of its
/// dispatches: as many workgroups of 256 as reach every object, and not one more.
pub proof fn law_cull_pass_parts(pass: CullPass, mode: CullMode, objects: nat)
    requires
        is_cull_pass(pass, mode, objects),
    ensures
        pass.input_buffer.label@ == "culling inputs"@,
        pass.input_buffer.usage == (BufferUsages { storage: true, indirect: false, vertex: false }),
        mode is Prefix ==> {
            &&& pass.label@ == "prefix cull"@
            &&& pass.result_buffers@.len() == 2
            &&& pass.result_buffers@[0].0 == BufferId::ResultA
            &&& pass.result_buffers@[0].1.label@ == "cull result index buffer A"@
            &&& pass.result_buffers@[0].1.size == 4 * objects
            &&& pass.result_buffers@[0].1.usage == (BufferUsages { storage: true, indirect: false, vertex: false })
            &&& !pass.result_buffers@[0].1.mapped_at_creation
            &&& pass.result_buffers@[1].0 == BufferId::ResultB
            &&& pass.result_buffers@[1].1.label@ == "cull result index buffer B"@
            &&& pass.result_buffers@[1].1.size == 4 * objects
            &&& pass.result_buffers@[1].1.usage == (BufferUsages { storage: true, indirect: false, vertex: false })
            &&& !pass.result_buffers@[1].1.mapped_at_creation
            &&& pass.bind_groups@.len() == 2
            &&& pass.bind_groups@[0].0 == BindGroupId::PrefixA
            &&& pass.bind_groups@[0].1.label@ == "prefix cull A bg"@
            &&& pass.bind_groups@[0].1.layout == BindGroupLayoutId::Prefix
            &&& pass.bind_groups@[0].1.buffers@ == seq![BufferId::Input, BufferId::ResultA, BufferId::ResultB, BufferId::Output, BufferId::Indirect]
            &&& pass.bind_groups@[1].0 == BindGroupId::PrefixB
            &&& pass.bind_groups@[1].1.label@ == "prefix cull B bg"@
            &&& pass.bind_groups@[1].1.layout == BindGroupLayoutId::Prefix
            &&& pass.bind_groups@[1].1.buffers@ == seq![BufferId::Input, BufferId::ResultB, BufferId::ResultA, BufferId::Output, BufferId::Indirect]
        },
        mode is Atomic ==> {
            &&& pass.label@ == "atomic cull"@
            &&& pass.result_buffers@.len() == 0
            &&& pass.bind_groups@.len() == 1
            &&& pass.bind_groups@[0].0 == BindGroupId::Atomic
            &&& pass.bind_groups@[0].1.label@ == "atomic culling bg"@
            &&& pass.bind_groups@[0].1.layout == BindGroupLayoutId::Atomic
            &&& pass.bind_groups@[0].1.buffers@ == seq![BufferId::Input, BufferId::Output, BufferId::Indirect]
        },
        forall|i: int|
            0 <= i < pass.commands@.len() && (#[trigger] pass.commands@[i]) is Dispatch ==> {
                &&& pass.commands@[i]->x == (objects + 255) / 256 % 0x1_0000_0000
                &&& pass.commands@[i]->y == 1
                &&& pass.commands@[i]->z == 1
                &&& 0 < objects <= u32::MAX ==> 256 * (pass.commands@[i]->x - 1) < objects <= 256
                    * pass.commands@[i]->x
            },
{
    let count = crate::cull_data::low_word(objects as int) as nat;
    match mode {
        CullMode::Prefix => {
            crate::pass::law_prefix_commands(pass.commands@, count, workgroups(objects));
        },
        CullMode::Atomic => {
            let steps = crate::pass::atomic_steps(workgroups(objects));
            assert forall|i: int|
                0 <= i < pass.commands@.len() && (
                #[trigger] pass.commands@[i]) is Dispatch implies pass.commands@[i] == (
            ComputeCommand::Dispatch { x: workgroups(objects), y: 1, z: 1 }) by {
                assert(crate::pass::performs(pass.commands@[i], steps[i]));
            }
        },
    }
}

/// The commands of a pass with a prefix sum, place by place. The strides double
/// from 1 on, as long as they are shorter than the objects are many, and the two
/// groups alternate.
pub proof fn law_cull_pass_commands(pass: CullPass, objects: nat)
    requires
        is_cull_pass(pass, CullMode::Prefix, objects),
    ensures
        pass.commands@.len() >= 7,
        (pass.commands@.len() - 7) % 3 == 0,
        objects % 0x1_0000_0000 <= pow2(((pass.commands@.len() - 7) / 3) as nat),
        pass.commands@.len() > 7 ==> pow2(((pass.commands@.len() - 10) / 3) as nat) < objects % 0x1_0000_0000,
        pass.commands@[0] == ComputeCommand::SetPipeline(PipelineId::PrefixCull),
        pass.commands@[1] == (ComputeCommand::SetBindGroup { index: 0, group: BindGroupId::PrefixA }),
        pass.commands@[2] == (ComputeCommand::Dispatch { x: ((objects + 255) / 256 % 0x1_0000_0000) as u32, y: 1, z: 1 }),
        pass.commands@[3] == ComputeCommand::SetPipeline(PipelineId::PrefixSum),
        forall|i: int|
            4 <= i < pass.commands@.len() - 3 ==> if i % 3 == 1 {
                &&& #[trigger] pass.commands@[i] matches ComputeCommand::SetPushConstants { offset, data }
                &&& offset == 0
                &&& data@ == crate::bytes::words_to_bytes(
                    crate::bytes::machine_order(),
                    seq![pow2(((i - 4) / 3) as nat) as u32],
                )
            } else if i % 3 == 2 {
                pass.commands@[i] == (ComputeCommand::SetBindGroup {
                    index: 0,
                    group: if (i - 4) / 3 % 2 == 0 {
                        BindGroupId::PrefixA
                    } else {
                        BindGroupId::PrefixB
                    },
                })
            } else {
                pass.commands@[i] == (ComputeCommand::Dispatch { x: ((objects + 255) / 256 % 0x1_0000_0000) as u32, y: 1, z: 1 })
            },
        pass.commands@[pass.commands@.len() - 3] == ComputeCommand::SetPipeline(PipelineId::PrefixOutput),
        pass.commands@[pass.commands@.len() - 2] == (ComputeCommand::SetBindGroup {
            index: 0,
            group: if (pass.commands@.len() - 7) / 3 % 2 == 0 {
                BindGroupId::PrefixA
            } else {
                BindGroupId::PrefixB
            },
        }),
        pass.commands@[pass.commands@.len() - 1] == (ComputeCommand::Dispatch { x: ((objects + 255) / 256 % 0x1_0000_0000) as u32, y: 1, z: 1 }),
{
    let count = crate::cull_data::low_word(objects as int) as nat;
    crate::pass::law_prefix_commands(pass.commands@, count, workgroups(objects));
    assert(workgroups(objects) == ((objects + 255) / 256 % 0x1_0000_0000) as u32);
}

/// The commands of a pass with a prefix sum do what the pass is for: whatever
/// steps they are taken for, these are in order, and the draw calls are written
/// by the sums of the marks of the visible objects.
pub proof fn law_cull_pass_commands_sum(
    pass: CullPass,
    objects: nat,
    steps: Seq<Step>,
    marks: Map<BufferId, Seq<nat>>,
    visible: Seq<nat>,
)
    requires
        is_cull_pass(pass, CullMode::Prefix, objects),
        1 <= objects <= 0x8000_0000,
        crate::pass::performs_all(pass.commands@, steps),
        visible.len() == objects,
    ensures
        ({
            let end = crate::scan::after_steps(crate::scan::start_of_pass(marks), steps, visible);
            &&& end is Some
            &&& end->0.output == Some(crate::scan::prefix_sums(visible))
            &&& end->0.output->0.len() == objects
            &&& end->0.output->0[0] == visible[0]
            &&& forall|i: int|
                0 < i < objects ==> #[trigger] end->0.output->0[i] == end->0.output->0[i - 1]
                    + visible[i]
        }),
        forall|i: int|
            0 <= i < pass.commands@.len() && (#[trigger] pass.commands@[i]) is Dispatch ==> 256 * (
            pass.commands@[i]->x - 1) < objects <= 256 * pass.commands@[i]->x,
{
    crate::pass::law_commands_tell_steps(
        pass.commands@,
        steps,
        crate::pass::prefix_steps(
            crate::cull_data::low_word(objects as int) as nat,
            workgroups(objects),
        ),
    );
    law_cull_pass_sums(marks, visible);
    crate::scan::law_sums_add_up(visible);
    law_cull_pass_parts(pass, CullMode::Prefix, objects);
}

/// Culling with atomics is in order too.
pub proof fn law_atomic_commands_in_order(
    pass: CullPass,
    objects: nat,
    steps: Seq<Step>,
    marks: Map<BufferId, Seq<nat>>,
    visible: Seq<nat>,
)
    requires
        is_cull_pass(pass, CullMode::Atomic, objects),
        objects <= u32::MAX,
        crate::pass::performs_all(pass.commands@, steps),
        visible.len() == objects,
    ensures
        crate::scan::after_steps(crate::scan::start_of_pass(marks), steps, visible) is Some,
{
    crate::pass::law_commands_tell_steps(
        pass.commands@,
        steps,
        crate::pass::atomic_steps(workgroups(objects)),
    );
    crate::scan::law_workgroups_reach_all(objects);
    crate::scan::law_atomic_pass_in_order(marks, visible, workgroups(objects));
}

/// The buffers of a culled set: room for the output of each object, and of one
/// if there are none; and 20 bytes for each draw call after 16 bytes for their
/// number. There is a pass just if there are objects.
pub proof fn law_culled_set_parts(culler: GpuCuller, set: CulledObjectSet, objects: nat)
    requires
        culler.is_culled_set(set, objects),
    ensures
        set.output_buffer.label@ == "culling output"@,
        objects == 0 ==> set.output_buffer.size == culler.per_object_size,
        objects > 0 ==> set.output_buffer.size == objects * culler.per_object_size,
        set.output_buffer.usage == (BufferUsages { storage: true, indirect: false, vertex: false }),
        !set.output_buffer.mapped_at_creation,
        set.output_bg.label@ == "culling input bg"@,
        set.output_bg.layout == BindGroupLayoutId::CulledObject,
        set.output_bg.buffers@ == seq![BufferId::Output],
        set.calls.indirect_buffer.label@ == "indirect buffer"@,
        set.calls.indirect_buffer.size == 20 * objects + 16,
        set.calls.indirect_buffer.usage == (BufferUsages {
            storage: true,
            indirect: true,
            vertex: true,
        }),
        !set.calls.indirect_buffer.mapped_at_creation,
        set.calls.count == objects,
        set.pass is None <==> objects == 0,
{
    assert(1nat * culler.per_object_size as nat == culler.per_object_size);
}

/// Drawing takes in every object: the draw calls that may be drawn are as many as
/// the objects, and fill the buffer to its end.
pub proof fn law_draws_reach_all(culler: GpuCuller, set: CulledObjectSet, objects: nat)
    requires
        culler.is_culled_set(set, objects),
        0 < objects <= u32::MAX,
    ensures
        ({
            let draw = crate::draw::draw_commands(set.calls.count as nat)[1];
            &&& draw matches RenderCommand::MultiDrawIndexedIndirectCount {
                indirect_buffer,
                indirect_offset,
                count_buffer,
                count_offset,
                max_count,
            }
            &&& max_count == objects
            &&& indirect_offset + 20 * max_count == set.calls.indirect_buffer.size
        }),
{
    crate::draw::law_draws_every_object(objects);
}

} // verus!
