use gpu_culling::cull::{plan_cull_pass, CullMode, CullPass, CulledObjectSet, GpuCullerCullArgs};
use gpu_culling::cull_data::{build_cull_data, GPUCullingUniforms};
use gpu_culling::culler::GpuCuller;
use gpu_culling::draw::{run, GPUIndirectData, RenderCommand};
use gpu_culling::pass::{record_atomic_pass, record_prefix_pass, workgroup_count, ComputeCommand};
use gpu_culling::resources::{
    BindGroupDescriptor, BindGroupId, BindGroupLayoutId, BufferDescriptor, BufferId, BufferUsages,
    PipelineId, PipelineLayoutId, PushConstantRange, ShaderStage,
};
use gpu_culling::scene::{
    CameraManager, InternalObject, MaterialManager, ObjectManager, TransparencyType,
};
use gpu_culling::sorting::Sorting;

const FRUSTUM_WORDS: usize = 20;
const PER_OBJECT_SIZE: usize = 192;

fn object(seed: u32) -> InternalObject {
    InternalObject {
        material: 1,
        transform: [seed; 16],
        sphere: [seed; 4],
        location: [seed; 3],
        start_idx: seed,
        count: 3,
        vertex_offset: 0,
    }
}

fn camera() -> CameraManager {
    CameraManager {
        view: [1; 16],
        view_proj: [2; 16],
        frustum: vec![3; FRUSTUM_WORDS],
    }
}

fn materials() -> MaterialManager {
    let mut materials = MaterialManager::new();
    materials.set_internal_index(1, 6);
    materials
}

fn scene(seeds: &[u32]) -> ObjectManager {
    let mut objects = ObjectManager::new();
    for seed in seeds {
        objects.add(TransparencyType::Blend.key(), object(*seed));
    }
    objects
}

fn cull(objects: &mut ObjectManager, distances: &[f32], sort: Option<Sorting>) -> CulledObjectSet {
    let bits: Vec<u32> = distances.iter().map(|d| d.to_bits()).collect();
    GpuCuller::new(FRUSTUM_WORDS, PER_OBJECT_SIZE).cull(GpuCullerCullArgs {
        materials: &materials(),
        camera: &camera(),
        objects,
        distances: &bits,
        transparency: TransparencyType::Blend,
        sort,
    })
}

fn storage() -> BufferUsages {
    BufferUsages { storage: true, indirect: false, vertex: false }
}

fn dispatch(x: u32) -> ComputeCommand {
    ComputeCommand::Dispatch { x, y: 1, z: 1 }
}

fn bind(group: BindGroupId) -> ComputeCommand {
    ComputeCommand::SetBindGroup { index: 0, group }
}

fn stride(stride: u32) -> ComputeCommand {
    ComputeCommand::SetPushConstants { offset: 0, data: stride.to_ne_bytes().to_vec() }
}

#[test]
fn layouts_ask_for_the_least_sizes() {
    let culler = GpuCuller::new(FRUSTUM_WORDS, PER_OBJECT_SIZE);
    let sizes: Vec<Option<u64>> =
        culler.prefix_bgl.entries.iter().map(|e| e.min_binding_size).collect();
    assert_eq!(sizes, vec![Some(224), Some(4), Some(4), Some(192), Some(36)]);
    let sizes: Vec<Option<u64>> =
        culler.atomic_bgl.entries.iter().map(|e| e.min_binding_size).collect();
    assert_eq!(sizes, vec![Some(224), Some(192), Some(36)]);
    for bgl in [&culler.prefix_bgl, &culler.atomic_bgl] {
        for (i, entry) in bgl.entries.iter().enumerate() {
            assert_eq!(entry.binding, i as u32);
            assert_eq!(entry.read_only, i == 0);
            assert_eq!(entry.visibility, ShaderStage::Compute);
            assert!(!entry.has_dynamic_offset);
            assert_eq!(entry.count, None);
        }
    }
    assert_eq!(culler.prefix_bgl.label, "prefix culling pll");
    assert_eq!(culler.atomic_bgl.label, "atomic culling pll");
}

#[test]
fn a_size_of_zero_asks_for_nothing() {
    let culler = GpuCuller::new(0, 0);
    assert_eq!(culler.atomic_bgl.entries[1].min_binding_size, None);
    assert_eq!(culler.prefix_bgl.entries[3].min_binding_size, None);
}

#[test]
fn pipelines_have_their_shaders() {
    let culler = GpuCuller::new(FRUSTUM_WORDS, PER_OBJECT_SIZE);
    assert_eq!(culler.atomic_pipeline.label, "atomic culling pl");
    assert_eq!(culler.atomic_pipeline.layout, PipelineLayoutId::Atomic);
    assert_eq!(culler.atomic_pipeline.shader_file, "cull-atomic-cull.comp.spv");
    assert_eq!(culler.prefix_cull_pipeline.label, "prefix cull pl");
    assert_eq!(culler.prefix_cull_pipeline.layout, PipelineLayoutId::Prefix);
    assert_eq!(culler.prefix_cull_pipeline.module, "cull-prefix-cull");
    assert_eq!(culler.prefix_sum_pipeline.layout, PipelineLayoutId::PrefixSum);
    assert_eq!(culler.prefix_sum_pipeline.shader_file, "cull-prefix-sum.comp.spv");
    assert_eq!(culler.prefix_output_pipeline.layout, PipelineLayoutId::Prefix);
    assert_eq!(culler.prefix_output_pipeline.entry_point, "main");
    assert_eq!(culler.atomic_pll.bind_group_layout, BindGroupLayoutId::Atomic);
    assert!(culler.atomic_pll.push_constant_ranges.is_empty());
    assert_eq!(culler.prefix_pll.bind_group_layout, BindGroupLayoutId::Prefix);
    assert!(culler.prefix_pll.push_constant_ranges.is_empty());
    assert_eq!(culler.prefix_sum_pll.label, "prefix sum pll");
    assert_eq!(culler.prefix_sum_pll.bind_group_layout, BindGroupLayoutId::Prefix);
    assert_eq!(
        culler.prefix_sum_pll.push_constant_ranges,
        vec![PushConstantRange { stages: ShaderStage::Compute, start: 0, end: 4 }]
    );
}

#[test]
fn workgroups_reach_every_object() {
    assert_eq!(workgroup_count(0), 0);
    assert_eq!(workgroup_count(1), 1);
    assert_eq!(workgroup_count(256), 1);
    assert_eq!(workgroup_count(257), 2);
    assert_eq!(workgroup_count(1 << 40), 0);
}

#[test]
fn one_object_needs_no_sum() {
    assert_eq!(
        record_prefix_pass(1, 1),
        vec![
            ComputeCommand::SetPipeline(PipelineId::PrefixCull),
            bind(BindGroupId::PrefixA),
            dispatch(1),
            ComputeCommand::SetPipeline(PipelineId::PrefixSum),
            ComputeCommand::SetPipeline(PipelineId::PrefixOutput),
            bind(BindGroupId::PrefixA),
            dispatch(1),
        ]
    );
}

#[test]
fn strides_double_and_groups_alternate() {
    assert_eq!(
        record_prefix_pass(5, 9),
        vec![
            ComputeCommand::SetPipeline(PipelineId::PrefixCull),
            bind(BindGroupId::PrefixA),
            dispatch(9),
            ComputeCommand::SetPipeline(PipelineId::PrefixSum),
            stride(1),
            bind(BindGroupId::PrefixA),
            dispatch(9),
            stride(2),
            bind(BindGroupId::PrefixB),
            dispatch(9),
            stride(4),
            bind(BindGroupId::PrefixA),
            dispatch(9),
            ComputeCommand::SetPipeline(PipelineId::PrefixOutput),
            bind(BindGroupId::PrefixB),
            dispatch(9),
        ]
    );
}

#[test]
fn the_longest_sum_takes_thirty_one_steps() {
    assert_eq!(record_prefix_pass(0x8000_0000, 1).len(), 4 + 3 * 31 + 3);
    assert_eq!(record_prefix_pass(4, 1).len(), 4 + 3 * 2 + 3);
    assert_eq!(record_prefix_pass(0, 0).len(), 7);
}

#[test]
fn atomics_take_one_dispatch() {
    assert_eq!(
        record_atomic_pass(3),
        vec![
            ComputeCommand::SetPipeline(PipelineId::Atomic),
            bind(BindGroupId::Atomic),
            dispatch(3),
        ]
    );
    let pass = plan_cull_pass(CullMode::Atomic, 600, vec![1, 2]);
    assert_eq!(pass.label, "atomic cull");
    assert_eq!(pass.input_buffer.contents, vec![1, 2]);
    assert!(pass.result_buffers.is_empty());
    assert_eq!(
        pass.bind_groups,
        vec![(
            BindGroupId::Atomic,
            BindGroupDescriptor {
                label: "atomic culling bg",
                layout: BindGroupLayoutId::Atomic,
                buffers: vec![BufferId::Input, BufferId::Output, BufferId::Indirect],
            }
        )]
    );
    assert_eq!(pass.commands, record_atomic_pass(3));
}

/// Runs a recorded pass the way the shaders would, on the marks of visible
/// objects, and gives the sums that the last shader reads.
fn simulate(pass: &CullPass, visible: &[u32]) -> Vec<u32> {
    let mut marks = [vec![90; visible.len()], vec![91; visible.len()]];
    let slot = |id: BufferId| if id == BufferId::ResultA { 0 } else { 1 };
    let mut pipeline = None;
    let mut group = None;
    let mut stride = 0;
    let mut sums = Vec::new();
    for command in &pass.commands {
        match command {
            ComputeCommand::SetPipeline(id) => pipeline = Some(*id),
            ComputeCommand::SetBindGroup { group: id, .. } => {
                group = pass.bind_groups.iter().find(|g| g.0 == *id)
            }
            ComputeCommand::SetPushConstants { data, .. } => {
                stride = u32::from_ne_bytes([data[0], data[1], data[2], data[3]]) as usize
            }
            ComputeCommand::Dispatch { x, .. } => {
                assert!(*x as usize * 256 >= visible.len());
                let buffers = &group.unwrap().1.buffers;
                let (source, target) = (slot(buffers[1]), slot(buffers[2]));
                match pipeline.unwrap() {
                    PipelineId::PrefixCull => marks[source] = visible.to_vec(),
                    PipelineId::PrefixSum => {
                        marks[target] = (0..visible.len())
                            .map(|i| {
                                let before = if i >= stride { marks[source][i - stride] } else { 0 };
                                marks[source][i] + before
                            })
                            .collect()
                    }
                    PipelineId::PrefixOutput => sums = marks[source].clone(),
                    PipelineId::Atomic => unreachable!(),
                }
            }
        }
    }
    sums
}

#[test]
fn passes_sum_up_the_marks() {
    for count in [1usize, 2, 3, 4, 5, 7, 8, 9, 255, 256, 257, 1000] {
        let visible: Vec<u32> = (0..count as u32).map(|i| (i * i + i / 3) % 2).collect();
        let pass = plan_cull_pass(CullMode::Prefix, count, Vec::new());
        let mut total = 0;
        let mut expected = Vec::new();
        for mark in &visible {
            total += mark;
            expected.push(total);
        }
        assert_eq!(simulate(&pass, &visible), expected);
    }
}

#[test]
fn culling_plans_buffers_and_pass() {
    let mut objects = scene(&[10, 20, 30]);
    let set = cull(&mut objects, &[], None);
    assert_eq!(
        set.output_buffer,
        BufferDescriptor {
            label: "culling output",
            size: 3 * 192,
            usage: storage(),
            mapped_at_creation: false,
        }
    );
    assert_eq!(
        set.calls,
        GPUIndirectData {
            indirect_buffer: BufferDescriptor {
                label: "indirect buffer",
                size: 76,
                usage: BufferUsages { storage: true, indirect: true, vertex: true },
                mapped_at_creation: false,
            },
            count: 3,
        }
    );
    assert_eq!(
        set.output_bg,
        BindGroupDescriptor {
            label: "culling input bg",
            layout: BindGroupLayoutId::CulledObject,
            buffers: vec![BufferId::Output],
        }
    );
    let pass = set.pass.unwrap();
    assert_eq!(pass.label, "prefix cull");
    assert_eq!(pass.input_buffer.label, "culling inputs");
    assert_eq!(pass.input_buffer.usage, storage());
    let frustum = vec![3; FRUSTUM_WORDS];
    let uniforms = GPUCullingUniforms {
        view: [1; 16],
        view_proj: [2; 16],
        frustum: &frustum,
        object_count: 3,
    };
    let data = build_cull_data(&uniforms, &materials(), &[object(10), object(20), object(30)]);
    assert_eq!(pass.input_buffer.contents, data);
    for (i, label) in
        ["cull result index buffer A", "cull result index buffer B"].into_iter().enumerate()
    {
        let id = if i == 0 { BufferId::ResultA } else { BufferId::ResultB };
        assert_eq!(pass.result_buffers[i].0, id);
        assert_eq!(
            pass.result_buffers[i].1,
            BufferDescriptor { label, size: 12, usage: storage(), mapped_at_creation: false }
        );
    }
    assert_eq!(pass.bind_groups[0].1.label, "prefix cull A bg");
    assert_eq!(pass.bind_groups[1].1.label, "prefix cull B bg");
    assert_eq!(
        pass.bind_groups[1].1.buffers,
        vec![
            BufferId::Input,
            BufferId::ResultB,
            BufferId::ResultA,
            BufferId::Output,
            BufferId::Indirect,
        ]
    );
    assert_eq!(pass.commands, record_prefix_pass(3, 1));
    assert_eq!(
        objects.get_objects(2).unwrap(),
        &vec![object(10), object(20), object(30)]
    );
}

#[test]
fn culling_sorts_the_group_and_the_data() {
    let mut objects = scene(&[10, 20, 30]);
    objects.add(0, object(1));
    let set = cull(&mut objects, &[5.0, 9.0, 1.0], Some(Sorting::BackToFront));
    let sorted = vec![object(20), object(10), object(30)];
    assert_eq!(objects.get_objects(2).unwrap(), &sorted);
    assert_eq!(objects.get_objects(0).unwrap(), &vec![object(1)]);
    let frustum = vec![3; FRUSTUM_WORDS];
    let uniforms = GPUCullingUniforms {
        view: [1; 16],
        view_proj: [2; 16],
        frustum: &frustum,
        object_count: 3,
    };
    assert_eq!(
        set.pass.unwrap().input_buffer.contents,
        build_cull_data(&uniforms, &materials(), &sorted)
    );
    cull(&mut objects, &[9.0, 5.0, 1.0], Some(Sorting::FrontToBack));
    assert_eq!(
        objects.get_objects(2).unwrap(),
        &vec![object(30), object(10), object(20)]
    );
}

#[test]
fn nothing_is_run_or_drawn_without_objects() {
    let mut objects = ObjectManager::new();
    let set = cull(&mut objects, &[], Some(Sorting::FrontToBack));
    assert!(set.pass.is_none());
    assert_eq!(set.output_buffer.size, 192);
    assert_eq!(set.calls.indirect_buffer.size, 16);
    assert_eq!(set.calls.count, 0);
    assert!(run(&set.calls).is_empty());
    assert!(objects.get_objects(2).is_none());
}

#[test]
fn bind_groups_fit_their_layouts() {
    for count in [1usize, 2, 300] {
        let seeds: Vec<u32> = (0..count as u32).collect();
        let set = cull(&mut scene(&seeds), &[], None);
        let culler = GpuCuller::new(FRUSTUM_WORDS, PER_OBJECT_SIZE);
        let pass = set.pass.as_ref().unwrap();
        for (_, group) in &pass.bind_groups {
            assert_eq!(group.layout, BindGroupLayoutId::Prefix);
            assert_eq!(group.buffers.len(), culler.prefix_bgl.entries.len());
            for (buffer, entry) in group.buffers.iter().zip(&culler.prefix_bgl.entries) {
                let size = match buffer {
                    BufferId::Input => pass.input_buffer.contents.len() as u64,
                    BufferId::ResultA => pass.result_buffers[0].1.size,
                    BufferId::ResultB => pass.result_buffers[1].1.size,
                    BufferId::Output => set.output_buffer.size,
                    BufferId::Indirect => set.calls.indirect_buffer.size,
                };
                assert!(size >= entry.min_binding_size.unwrap());
            }
        }
    }
}

#[test]
fn drawing_reads_behind_the_counter() {
    let set = cull(&mut scene(&[1, 2]), &[], None);
    assert_eq!(
        run(&set.calls),
        vec![
            RenderCommand::SetVertexBuffer { slot: 7, buffer: BufferId::Indirect, offset: 16 },
            RenderCommand::MultiDrawIndexedIndirectCount {
                indirect_buffer: BufferId::Indirect,
                indirect_offset: 16,
                count_buffer: BufferId::Indirect,
                count_offset: 0,
                max_count: 2,
            },
        ]
    );
    assert!(16 + 2 * 20 <= set.calls.indirect_buffer.size);
}
