//! The compute pass that culls.
//!
//! Culling either runs one shader that appends draw calls with atomics, or marks
//! the visible objects, sums up the marks, and writes each draw call at the
//! place that its sum gives. The sum is done in steps of growing stride, back
//! and forth between two buffers.

use vstd::arithmetic::power2::{lemma2_to64, lemma_pow2_pos, lemma_pow2_unfold, pow2};
use vstd::prelude::*;

use crate::bytes::cast_words;
use crate::cull_data::truncate;
use crate::culler::WORKGROUP_SIZE;
use crate::resources::{BindGroupId, PipelineId};

verus! {

/// A command of a compute pass.
#[derive(Debug, PartialEq, Eq)]
pub enum ComputeCommand {
    SetPipeline(PipelineId),
    SetBindGroup { index: u32, group: BindGroupId },
    SetPushConstants { offset: u32, data: Vec<u8> },
    Dispatch { x: u32, y: u32, z: u32 },
}

/// What a command of a culling pass is for.
pub enum Step {
    /// Runs this pipeline from now on.
    Pipeline(PipelineId),
    /// Runs it on the buffers of this group.
    BindGroup(BindGroupId),
    /// Sums over this distance.
    Stride(u32),
    /// Runs the pipeline, in so many workgroups.
    Dispatch(u32),
}

/// The command does the step.
pub open spec fn performs(command: ComputeCommand, step: Step) -> bool {
    match step {
        Step::Pipeline(pipeline) => command == ComputeCommand::SetPipeline(pipeline),
        Step::BindGroup(group) => command == (ComputeCommand::SetBindGroup { index: 0, group }),
        Step::Stride(stride) => {
            &&& command matches ComputeCommand::SetPushConstants { offset, data }
            &&& offset == 0
            &&& data@ == crate::bytes::words_to_bytes(
                crate::bytes::machine_order(),
                seq![stride],
            )
            &&& crate::bytes::is_image(data@, seq![stride])
        },
        Step::Dispatch(workgroups) => command == (ComputeCommand::Dispatch {
            x: workgroups,
            y: 1,
            z: 1,
        }),
    }
}

/// The commands do the steps, one each.
pub open spec fn performs_all(commands: Seq<ComputeCommand>, steps: Seq<Step>) -> bool {
    &&& commands.len() == steps.len()
    &&& forall|i: int| 0 <= i < steps.len() ==> performs(#[trigger] commands[i], steps[i])
}

/// The steps that a prefix sum over so many marks takes: as often as doubling
/// goes from 1 to their number.
pub open spec fn scan_passes(marks: nat) -> nat
    decreases marks,
{
    if marks <= 1 {
        0
    } else {
        1 + scan_passes((marks + 1) / 2)
    }
}

/// The bind group whose first buffer of marks holds what `passes` steps of the
/// sum have put out.
pub open spec fn group_after(passes: nat) -> BindGroupId {
    if passes % 2 == 0 {
        BindGroupId::PrefixA
    } else {
        BindGroupId::PrefixB
    }
}

/// Marking the visible objects, and so many steps of the sum.
pub open spec fn scan_steps(passes: nat, workgroups: u32) -> Seq<Step>
    decreases passes,
{
    if passes == 0 {
        seq![
            Step::Pipeline(PipelineId::PrefixCull),
            Step::BindGroup(BindGroupId::PrefixA),
            Step::Dispatch(workgroups),
            Step::Pipeline(PipelineId::PrefixSum),
        ]
    } else {
        let before = (passes - 1) as nat;
        scan_steps(before, workgroups).push(Step::Stride(pow2(before) as u32)).push(
            Step::BindGroup(group_after(before)),
        ).push(Step::Dispatch(workgroups))
    }
}

/// Culling so many objects with a prefix sum.
pub open spec fn prefix_steps(objects: nat, workgroups: u32) -> Seq<Step> {
    let passes = scan_passes(objects);
    scan_steps(passes, workgroups).push(Step::Pipeline(PipelineId::PrefixOutput)).push(
        Step::BindGroup(group_after(passes)),
    ).push(Step::Dispatch(workgroups))
}

/// Culling with atomics.
pub open spec fn atomic_steps(workgroups: u32) -> Seq<Step> {
    seq![
        Step::Pipeline(PipelineId::Atomic),
        Step::BindGroup(BindGroupId::Atomic),
        Step::Dispatch(workgroups),
    ]
}

/// The number of workgroups for so many objects.
pub fn workgroup_count(objects: usize) -> (workgroups: u32)
    requires
        objects + WORKGROUP_SIZE - 1 <= usize::MAX,
    ensures
        workgroups == crate::cull_data::low_word(
            (objects + WORKGROUP_SIZE - 1) / WORKGROUP_SIZE as int,
        ),
        workgroups == (objects + 255) / 256 % 0x1_0000_0000,
        0 < objects <= u32::MAX ==> 256 * (workgroups - 1) < objects <= 256 * workgroups,
{
    truncate((objects + (WORKGROUP_SIZE - 1)) / WORKGROUP_SIZE)
}

/// Records culling with a prefix sum.
pub fn record_prefix_pass(object_count: u32, workgroups: u32) -> (commands: Vec<ComputeCommand>)
    requires
        object_count <= 0x8000_0000,
    ensures
        performs_all(commands@, prefix_steps(object_count as nat, workgroups)),
        commands@.len() >= 7,
        (commands@.len() - 7) % 3 == 0,
        object_count <= pow2(((commands@.len() - 7) / 3) as nat),
        commands@.len() > 7 ==> pow2(((commands@.len() - 10) / 3) as nat) < object_count,
        commands@[0] == ComputeCommand::SetPipeline(PipelineId::PrefixCull),
        commands@[1] == (ComputeCommand::SetBindGroup { index: 0, group: BindGroupId::PrefixA }),
        commands@[2] == (ComputeCommand::Dispatch { x: workgroups, y: 1, z: 1 }),
        commands@[3] == ComputeCommand::SetPipeline(PipelineId::PrefixSum),
        forall|i: int|
            4 <= i < commands@.len() - 3 ==> if i % 3 == 1 {
                &&& #[trigger] commands@[i] matches ComputeCommand::SetPushConstants { offset, data }
                &&& offset == 0
                &&& data@ == crate::bytes::words_to_bytes(
                    crate::bytes::machine_order(),
                    seq![pow2(((i - 4) / 3) as nat) as u32],
                )
            } else if i % 3 == 2 {
                commands@[i] == (ComputeCommand::SetBindGroup {
                    index: 0,
                    group: if (i - 4) / 3 % 2 == 0 {
                        BindGroupId::PrefixA
                    } else {
                        BindGroupId::PrefixB
                    },
                })
            } else {
                commands@[i] == (ComputeCommand::Dispatch { x: workgroups, y: 1, z: 1 })
            },
        commands@[commands@.len() - 3] == ComputeCommand::SetPipeline(PipelineId::PrefixOutput),
        commands@[commands@.len() - 2] == (ComputeCommand::SetBindGroup {
            index: 0,
            group: if (commands@.len() - 7) / 3 % 2 == 0 {
                BindGroupId::PrefixA
            } else {
                BindGroupId::PrefixB
            },
        }),
        commands@[commands@.len() - 1] == (ComputeCommand::Dispatch { x: workgroups, y: 1, z: 1 }),
        forall|i: int|
            0 <= i < commands@.len() && (#[trigger] commands@[i]) is Dispatch ==> commands@[i] == (
            ComputeCommand::Dispatch { x: workgroups, y: 1, z: 1 }),
{
    let mut commands: Vec<ComputeCommand> = Vec::new();
    commands.push(ComputeCommand::SetPipeline(PipelineId::PrefixCull));
    commands.push(ComputeCommand::SetBindGroup { index: 0, group: BindGroupId::PrefixA });
    commands.push(ComputeCommand::Dispatch { x: workgroups, y: 1, z: 1 });
    commands.push(ComputeCommand::SetPipeline(PipelineId::PrefixSum));
    let mut stride: u32 = 1;
    let mut iteration: u32 = 0;
    proof {
        lemma2_to64();
        law_scan_passes(object_count as nat, 0);
    }
    while stride < object_count
        invariant
            object_count <= 0x8000_0000,
            stride == pow2(iteration as nat),
            iteration <= 31,
            iteration <= scan_passes(object_count as nat),
            performs_all(commands@, scan_steps(iteration as nat, workgroups)),
        decreases 31 - iteration,
    {
        proof {
            lemma2_to64();
            if iteration == 31 {
                assert(pow2(31) == 0x8000_0000);
            }
            lemma_pow2_unfold((iteration + 1) as nat);
            law_scan_passes(object_count as nat, iteration as nat);
            assert(stride << 1 == 2 * stride) by (bit_vector)
                requires
                    stride < 0x8000_0000,
            ;
        }
        let group = if iteration % 2 == 0 {
            BindGroupId::PrefixA
        } else {
            BindGroupId::PrefixB
        };
        let constants = [stride];
        assert(constants@ =~= seq![stride]);
        let data = cast_words(constants.as_slice());
        commands.push(ComputeCommand::SetPushConstants { offset: 0, data });
        commands.push(ComputeCommand::SetBindGroup { index: 0, group });
        commands.push(ComputeCommand::Dispatch { x: workgroups, y: 1, z: 1 });
        stride = stride << 1;
        iteration = iteration + 1;
    }
    proof {
        law_scan_passes(object_count as nat, iteration as nat);
    }
    let group = if iteration % 2 == 0 {
        BindGroupId::PrefixA
    } else {
        BindGroupId::PrefixB
    };
    commands.push(ComputeCommand::SetPipeline(PipelineId::PrefixOutput));
    commands.push(ComputeCommand::SetBindGroup { index: 0, group });
    commands.push(ComputeCommand::Dispatch { x: workgroups, y: 1, z: 1 });
    proof {
        assert(performs_all(commands@, prefix_steps(object_count as nat, workgroups)));
        law_prefix_commands(commands@, object_count as nat, workgroups);
    }
    commands
}

/// Records culling with atomics.
pub fn record_atomic_pass(workgroups: u32) -> (commands: Vec<ComputeCommand>)
    ensures
        performs_all(commands@, atomic_steps(workgroups)),
        commands@ == seq![
            ComputeCommand::SetPipeline(PipelineId::Atomic),
            ComputeCommand::SetBindGroup { index: 0, group: BindGroupId::Atomic },
            ComputeCommand::Dispatch { x: workgroups, y: 1, z: 1 },
        ],
{
    let mut commands: Vec<ComputeCommand> = Vec::new();
    commands.push(ComputeCommand::SetPipeline(PipelineId::Atomic));
    commands.push(ComputeCommand::SetBindGroup { index: 0, group: BindGroupId::Atomic });
    commands.push(ComputeCommand::Dispatch { x: workgroups, y: 1, z: 1 });
    commands
}

/// A step of the sum is still to be done just as long as its stride is shorter
/// than the marks are many.
pub proof fn law_scan_passes(marks: nat, pass: nat)
    ensures
        pass < scan_passes(marks) <==> pow2(pass) < marks,
    decreases marks,
{
    lemma_pow2_pos(pass);
    if marks <= 1 {
    } else if pass == 0 {
        lemma2_to64();
    } else {
        law_scan_passes((marks + 1) / 2, (pass - 1) as nat);
        lemma_pow2_unfold(pass);
    }
}

/// What a command has to be to do a step.
pub proof fn law_command_of_step(command: ComputeCommand, step: Step)
    requires
        performs(command, step),
    ensures
        step matches Step::Pipeline(pipeline) ==> command == ComputeCommand::SetPipeline(pipeline),
        step matches Step::BindGroup(group) ==> command == (ComputeCommand::SetBindGroup {
            index: 0,
            group,
        }),
        step matches Step::Stride(stride) ==> {
            &&& command matches ComputeCommand::SetPushConstants { offset, data }
            &&& offset == 0
            &&& data@ == crate::bytes::words_to_bytes(
                crate::bytes::machine_order(),
                seq![stride],
            )
        },
        step matches Step::Dispatch(workgroups) ==> command == (ComputeCommand::Dispatch {
            x: workgroups,
            y: 1,
            z: 1,
        }),
{
}

/// Each command of a pass does one step and no other.
pub proof fn law_commands_tell_steps(commands: Seq<ComputeCommand>, a: Seq<Step>, b: Seq<Step>)
    requires
        performs_all(commands, a),
        performs_all(commands, b),
    ensures
        a == b,
{
    assert forall|i: int| 0 <= i < a.len() implies a[i] == b[i] by {
        assert(performs(commands[i], a[i]));
        assert(performs(commands[i], b[i]));
        if let Step::Stride(x) = a[i] {
            if let Step::Stride(y) = b[i] {
                crate::bytes::law_word_image_is_unique(crate::bytes::machine_order(), x, y);
            }
        }
    }
    assert(a =~= b);
}

/// The commands of a pass with a prefix sum, place by place. Objects are marked
/// first. Then the strides double, from 1 up to the last that is shorter than
/// the objects are many, and the two groups alternate. The group whose turn it
/// is then is read last. All dispatches are of one size.
pub proof fn law_prefix_commands(commands: Seq<ComputeCommand>, objects: nat, workgroups: u32)
    requires
        performs_all(commands, prefix_steps(objects, workgroups)),
    ensures
        commands.len() >= 7,
        (commands.len() - 7) % 3 == 0,
        objects <= pow2(((commands.len() - 7) / 3) as nat),
        commands.len() > 7 ==> pow2(((commands.len() - 10) / 3) as nat) < objects,
        commands[0] == ComputeCommand::SetPipeline(PipelineId::PrefixCull),
        commands[1] == (ComputeCommand::SetBindGroup { index: 0, group: BindGroupId::PrefixA }),
        commands[2] == (ComputeCommand::Dispatch { x: workgroups, y: 1, z: 1 }),
        commands[3] == ComputeCommand::SetPipeline(PipelineId::PrefixSum),
        forall|i: int|
            4 <= i < commands.len() - 3 ==> if i % 3 == 1 {
                &&& #[trigger] commands[i] matches ComputeCommand::SetPushConstants { offset, data }
                &&& offset == 0
                &&& data@ == crate::bytes::words_to_bytes(
                    crate::bytes::machine_order(),
                    seq![pow2(((i - 4) / 3) as nat) as u32],
                )
            } else if i % 3 == 2 {
                commands[i] == (ComputeCommand::SetBindGroup {
                    index: 0,
                    group: if (i - 4) / 3 % 2 == 0 {
                        BindGroupId::PrefixA
                    } else {
                        BindGroupId::PrefixB
                    },
                })
            } else {
                commands[i] == (ComputeCommand::Dispatch { x: workgroups, y: 1, z: 1 })
            },
        commands[commands.len() - 3] == ComputeCommand::SetPipeline(PipelineId::PrefixOutput),
        commands[commands.len() - 2] == (ComputeCommand::SetBindGroup {
            index: 0,
            group: if (commands.len() - 7) / 3 % 2 == 0 {
                BindGroupId::PrefixA
            } else {
                BindGroupId::PrefixB
            },
        }),
        commands[commands.len() - 1] == (ComputeCommand::Dispatch { x: workgroups, y: 1, z: 1 }),
        forall|i: int|
            0 <= i < commands.len() && (#[trigger] commands[i]) is Dispatch ==> commands[i] == (
            ComputeCommand::Dispatch { x: workgroups, y: 1, z: 1 }),
{
    let passes = scan_passes(objects);
    let steps = prefix_steps(objects, workgroups);
    let scan = scan_steps(passes, workgroups);
    law_scan_passes(objects, passes);
    if passes > 0 {
        law_scan_passes(objects, (passes - 1) as nat);
    }
    lemma_scan_steps_places(passes, workgroups);
    assert forall|i: int| 0 <= i < scan.len() implies steps[i] == scan[i] by {}
    assert(performs(commands[0], steps[0]));
    assert(performs(commands[1], steps[1]));
    assert(performs(commands[2], steps[2]));
    assert(performs(commands[3], steps[3]));
    assert(performs(commands[4int + 3 * passes], steps[4int + 3 * passes]));
    assert(performs(commands[5int + 3 * passes], steps[5int + 3 * passes]));
    assert(performs(commands[6int + 3 * passes], steps[6int + 3 * passes]));
    assert(commands.len() == 7 + 3 * passes);
    assert forall|i: int| 4 <= i < commands.len() - 3 implies performs(
        #[trigger] commands[i],
        scan[i],
    ) by {
        assert(performs(commands[i], steps[i]));
        assert(steps[i] == scan[i]);
    }
    assert forall|i: int|
        0 <= i < commands.len() && (#[trigger] commands[i]) is Dispatch implies commands[i] == (
    ComputeCommand::Dispatch { x: workgroups, y: 1, z: 1 }) by {
        assert(performs(commands[i], steps[i]));
        if i < scan.len() {
            assert(scan[i] is Dispatch);
            assert(scan[i] == Step::Dispatch(workgroups));
        }
    }
}

/// The steps of the sum, place by place.
proof fn lemma_scan_steps_places(passes: nat, workgroups: u32)
    ensures
        ({
            let steps = scan_steps(passes, workgroups);
            &&& steps.len() == 4 + 3 * passes
            &&& steps[0] == Step::Pipeline(PipelineId::PrefixCull)
            &&& steps[1] == Step::BindGroup(BindGroupId::PrefixA)
            &&& steps[2] == Step::Dispatch(workgroups)
            &&& steps[3] == Step::Pipeline(PipelineId::PrefixSum)
            &&& forall|i: int|
                4 <= i < steps.len() ==> (#[trigger] steps[i]) == if i % 3 == 1 {
                    Step::Stride(pow2(((i - 4) / 3) as nat) as u32)
                } else if i % 3 == 2 {
                    Step::BindGroup(group_after(((i - 4) / 3) as nat))
                } else {
                    Step::Dispatch(workgroups)
                }
            &&& forall|i: int|
                0 <= i < steps.len() && (#[trigger] steps[i]) is Dispatch ==> steps[i]
                    == Step::Dispatch(workgroups)
        }),
    decreases passes,
{
    if passes > 0 {
        lemma_scan_steps_places((passes - 1) as nat, workgroups);
    }
}

} // verus!
