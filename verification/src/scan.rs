//! What a culling pass works out.
//!
//! A model of the culling shaders, as far as the marks of visible objects go,
//! and the laws that the recorded passes keep on it.

use vstd::arithmetic::power2::{lemma2_to64, lemma_pow2_pos, lemma_pow2_unfold, pow2};
use vstd::prelude::*;

use crate::culler::WORKGROUP_SIZE;
use crate::pass::Step;
use crate::resources::{BindGroupId, BufferId, PipelineId};

verus! {

/// The sum of the marks from `lo` up to `hi`.
pub open spec fn range_sum(marks: Seq<nat>, lo: int, hi: int) -> nat
    decreases hi - lo,
{
    if lo >= hi {
        0
    } else {
        range_sum(marks, lo, hi - 1) + marks[hi - 1]
    }
}

/// For each mark, the sum of the marks up to it and with it.
pub open spec fn prefix_sums(marks: Seq<nat>) -> Seq<nat> {
    Seq::new(marks.len(), |i: int| range_sum(marks, 0, i + 1))
}

/// One step of the sum: to each mark, the one that lies a stride before it is
/// added, if there is one.
pub open spec fn scan_step(marks: Seq<nat>, stride: int) -> Seq<nat> {
    Seq::new(
        marks.len(),
        |i: int|
            if i >= stride {
                marks[i] + marks[i - stride]
            } else {
                marks[i]
            },
    )
}

/// What a compute pass has set, and what is in its buffers of marks.
pub struct PassState {
    pub pipeline: Option<PipelineId>,
    pub group: Option<BindGroupId>,
    pub stride: Option<u32>,
    pub marks: Map<BufferId, Seq<nat>>,
    /// The sums by which the draw calls were written.
    pub output: Option<Seq<nat>>,
}

/// The state in which a pass begins: nothing is set.
pub open spec fn start_of_pass(marks: Map<BufferId, Seq<nat>>) -> PassState {
    PassState { pipeline: None, group: None, stride: None, marks, output: None }
}

/// The buffer of marks that a shader of the prefix sum starts from.
pub open spec fn source_buffer(group: BindGroupId) -> BufferId {
    crate::resources::group_buffers(group)[1]
}

/// The buffer of marks into which a step of the sum is written.
pub open spec fn target_buffer(group: BindGroupId) -> BufferId {
    crate::resources::group_buffers(group)[2]
}

/// A pipeline can run on the buffers of a group.
pub open spec fn accepts(pipeline: PipelineId, group: BindGroupId) -> bool {
    crate::resources::pipeline_layout_group(crate::resources::pipeline_layout(pipeline))
        == crate::resources::group_layout(group)
}

/// The state after a step, if the step is in order. A dispatch is in order if a
/// pipeline and a group that it accepts are set, if the workgroups reach every
/// object, and, for a step of the sum, if its stride is set.
pub open spec fn after_step(state: PassState, step: Step, visible: Seq<nat>) -> Option<PassState> {
    match step {
        Step::Pipeline(pipeline) => Some(PassState { pipeline: Some(pipeline), ..state }),
        Step::BindGroup(group) => Some(PassState { group: Some(group), ..state }),
        Step::Stride(stride) => Some(PassState { stride: Some(stride), ..state }),
        Step::Dispatch(workgroups) => match (state.pipeline, state.group) {
            (Some(pipeline), Some(group)) => if accepts(pipeline, group) && WORKGROUP_SIZE
                * workgroups >= visible.len() {
                after_dispatch(state, pipeline, group, visible)
            } else {
                None
            },
            _ => None,
        },
    }
}

/// The state after a pipeline ran on the buffers of a group.
pub open spec fn after_dispatch(
    state: PassState,
    pipeline: PipelineId,
    group: BindGroupId,
    visible: Seq<nat>,
) -> Option<PassState> {
    match pipeline {
        PipelineId::Atomic => Some(state),
        PipelineId::PrefixCull => Some(
            PassState { marks: state.marks.insert(source_buffer(group), visible), ..state },
        ),
        PipelineId::PrefixSum => match state.stride {
            Some(stride) => Some(
                PassState {
                    marks: state.marks.insert(
                        target_buffer(group),
                        scan_step(state.marks[source_buffer(group)], stride as int),
                    ),
                    ..state
                },
            ),
            None => None,
        },
        PipelineId::PrefixOutput => Some(
            PassState { output: Some(state.marks[source_buffer(group)]), ..state },
        ),
    }
}

/// The state after all the steps, if each of them is in order.
pub open spec fn after_steps(state: PassState, steps: Seq<Step>, visible: Seq<nat>) -> Option<
    PassState,
>
    decreases steps.len(),
{
    if steps.len() == 0 {
        Some(state)
    } else {
        match after_steps(state, steps.drop_last(), visible) {
            Some(before) => after_step(before, steps.last(), visible),
            None => None,
        }
    }
}

/// Culling with a prefix sum is in order from the first step to the last, and
/// the draw calls are written by the prefix sums of the marks of the visible
/// objects, whatever the buffers held before.
pub proof fn law_prefix_pass_sums(
    marks: Map<BufferId, Seq<nat>>,
    visible: Seq<nat>,
    workgroups: u32,
)
    requires
        visible.len() <= 0x1_0000_0000,
        WORKGROUP_SIZE * workgroups >= visible.len(),
    ensures
        ({
            let end = after_steps(
                start_of_pass(marks),
                crate::pass::prefix_steps(visible.len(), workgroups),
                visible,
            );
            &&& end is Some
            &&& end->0.output == Some(prefix_sums(visible))
        }),
{
    let start = start_of_pass(marks);
    let passes = crate::pass::scan_passes(visible.len());
    lemma_after_scan(start, visible, workgroups, passes);
    crate::pass::law_scan_passes(visible.len(), passes);
    assert(partial_sums(visible, passes) =~= prefix_sums(visible));
    let steps = crate::pass::scan_steps(passes, workgroups);
    lemma_after_push(start, steps, Step::Pipeline(PipelineId::PrefixOutput), visible);
    let steps = steps.push(Step::Pipeline(PipelineId::PrefixOutput));
    let group = crate::pass::group_after(passes);
    lemma_after_push(start, steps, Step::BindGroup(group), visible);
    let steps = steps.push(Step::BindGroup(group));
    lemma_after_push(start, steps, Step::Dispatch(workgroups), visible);
}

/// Culling with atomics is in order from the first step to the last.
pub proof fn law_atomic_pass_in_order(
    marks: Map<BufferId, Seq<nat>>,
    visible: Seq<nat>,
    workgroups: u32,
)
    requires
        WORKGROUP_SIZE * workgroups >= visible.len(),
    ensures
        after_steps(
            start_of_pass(marks),
            crate::pass::atomic_steps(workgroups),
            visible,
        ) is Some,
{
    let start = start_of_pass(marks);
    let steps = Seq::<Step>::empty();
    lemma_after_push(start, steps, Step::Pipeline(PipelineId::Atomic), visible);
    let steps = steps.push(Step::Pipeline(PipelineId::Atomic));
    lemma_after_push(start, steps, Step::BindGroup(BindGroupId::Atomic), visible);
    let steps = steps.push(Step::BindGroup(BindGroupId::Atomic));
    lemma_after_push(start, steps, Step::Dispatch(workgroups), visible);
    assert(steps.push(Step::Dispatch(workgroups)) =~= crate::pass::atomic_steps(workgroups));
}

/// The workgroups reach every object, and no workgroup is idle.
pub proof fn law_workgroups_reach_all(objects: nat)
    requires
        objects <= WORKGROUP_SIZE * u32::MAX,
    ensures
        ({
            let workgroups = crate::cull_data::low_word(
                (objects + WORKGROUP_SIZE - 1) / WORKGROUP_SIZE as int,
            );
            &&& WORKGROUP_SIZE * workgroups >= objects
            &&& WORKGROUP_SIZE * (workgroups - 1) < objects || objects == 0
        }),
{
}

/// By the prefix sums, visible objects are numbered from 1, in the order in
/// which they came, and no two have the same number.
pub proof fn law_sums_keep_order(visible: Seq<nat>, i: int, j: int)
    requires
        forall|k: int| 0 <= k < visible.len() ==> (#[trigger] visible[k]) <= 1,
        0 <= i < j < visible.len(),
        visible[i] == 1,
        visible[j] == 1,
    ensures
        1 <= prefix_sums(visible)[i] < prefix_sums(visible)[j] <= visible.len(),
{
    lemma_range_split(visible, 0, i + 1, j);
    lemma_range_bounded(visible, 0, j + 1);
}

/// The first sum is the first mark, and each sum is the one before it and its own
/// mark.
pub proof fn law_sums_add_up(marks: Seq<nat>)
    ensures
        prefix_sums(marks).len() == marks.len(),
        marks.len() > 0 ==> prefix_sums(marks)[0] == marks[0],
        forall|i: int|
            0 < i < marks.len() ==> #[trigger] prefix_sums(marks)[i] == prefix_sums(marks)[i - 1]
                + marks[i],
{
    reveal_with_fuel(range_sum, 2);
}

/// One step of the sum leaves the marks before the stride as they are, and adds
/// to each other one the mark a stride before it.
pub proof fn law_scan_step(marks: Seq<nat>, stride: int, i: int)
    requires
        0 <= i < marks.len(),
        0 < stride,
    ensures
        scan_step(marks, stride).len() == marks.len(),
        i < stride ==> scan_step(marks, stride)[i] == marks[i],
        i >= stride ==> scan_step(marks, stride)[i] == marks[i - stride] + marks[i],
{
}

/// The marks after so many steps of the sum: each is the sum of as many marks
/// as the next stride is long, or of all that there are.
pub open spec fn partial_sums(marks: Seq<nat>, passes: nat) -> Seq<nat> {
    Seq::new(marks.len(), |i: int| range_sum(marks, window_start(i, passes), i + 1))
}

/// The first mark that has gone into the `i`th sum.
pub open spec fn window_start(i: int, passes: nat) -> int {
    if i + 1 >= pow2(passes) {
        i + 1 - pow2(passes)
    } else {
        0
    }
}

proof fn lemma_range_split(marks: Seq<nat>, lo: int, mid: int, hi: int)
    requires
        lo <= mid <= hi,
    ensures
        range_sum(marks, lo, hi) == range_sum(marks, lo, mid) + range_sum(marks, mid, hi),
    decreases hi - mid,
{
    if mid < hi {
        lemma_range_split(marks, lo, mid, hi - 1);
    }
}

proof fn lemma_range_bounded(marks: Seq<nat>, lo: int, hi: int)
    requires
        forall|k: int| 0 <= k < marks.len() ==> (#[trigger] marks[k]) <= 1,
        0 <= lo <= hi <= marks.len(),
    ensures
        range_sum(marks, lo, hi) <= hi - lo,
    decreases hi - lo,
{
    if lo < hi {
        lemma_range_bounded(marks, lo, hi - 1);
    }
}

proof fn lemma_partial_step(marks: Seq<nat>, passes: nat)
    ensures
        scan_step(partial_sums(marks, passes), pow2(passes) as int) == partial_sums(
            marks,
            passes + 1,
        ),
{
    let stride = pow2(passes) as int;
    let before = partial_sums(marks, passes);
    lemma_pow2_pos(passes);
    lemma_pow2_unfold(passes + 1);
    assert forall|i: int| 0 <= i < marks.len() implies scan_step(before, stride)[i]
        == partial_sums(marks, passes + 1)[i] by {
        if i >= stride {
            lemma_range_split(
                marks,
                window_start(i - stride, passes),
                i - stride + 1,
                i + 1,
            );
        }
    }
    assert(scan_step(before, stride) =~= partial_sums(marks, passes + 1));
}

proof fn lemma_after_push(state: PassState, steps: Seq<Step>, step: Step, visible: Seq<nat>)
    ensures
        after_steps(state, steps.push(step), visible) == match after_steps(state, steps, visible) {
            Some(before) => after_step(before, step, visible),
            None => None,
        },
{
    assert(steps.push(step).drop_last() =~= steps);
}

/// After so many steps of the sum, the buffer from which the next step starts
/// holds the sums so far.
proof fn lemma_after_scan(start: PassState, visible: Seq<nat>, workgroups: u32, passes: nat)
    requires
        visible.len() <= 0x1_0000_0000,
        WORKGROUP_SIZE * workgroups >= visible.len(),
        passes <= crate::pass::scan_passes(visible.len()),
    ensures
        ({
            let end = after_steps(start, crate::pass::scan_steps(passes, workgroups), visible);
            &&& end is Some
            &&& end->0.pipeline == Some(PipelineId::PrefixSum)
            &&& end->0.marks[source_buffer(crate::pass::group_after(passes))] == partial_sums(
                visible,
                passes,
            )
        }),
    decreases passes,
{
    if passes == 0 {
        let steps = Seq::<Step>::empty();
        lemma_after_push(start, steps, Step::Pipeline(PipelineId::PrefixCull), visible);
        let steps = steps.push(Step::Pipeline(PipelineId::PrefixCull));
        lemma_after_push(start, steps, Step::BindGroup(BindGroupId::PrefixA), visible);
        let steps = steps.push(Step::BindGroup(BindGroupId::PrefixA));
        lemma_after_push(start, steps, Step::Dispatch(workgroups), visible);
        let steps = steps.push(Step::Dispatch(workgroups));
        lemma_after_push(start, steps, Step::Pipeline(PipelineId::PrefixSum), visible);
        let steps = steps.push(Step::Pipeline(PipelineId::PrefixSum));
        assert(steps =~= crate::pass::scan_steps(0, workgroups));
        lemma2_to64();
        assert forall|i: int| 0 <= i < visible.len() implies visible[i] == partial_sums(
            visible,
            0,
        )[i] by {
            reveal_with_fuel(range_sum, 2);
        }
        assert(visible =~= partial_sums(visible, 0));
    } else {
        let before = (passes - 1) as nat;
        let group = crate::pass::group_after(before);
        lemma_after_scan(start, visible, workgroups, before);
        crate::pass::law_scan_passes(visible.len(), before);
        let stride = pow2(before) as u32;
        let steps = crate::pass::scan_steps(before, workgroups);
        lemma_after_push(start, steps, Step::Stride(stride), visible);
        let steps = steps.push(Step::Stride(stride));
        lemma_after_push(start, steps, Step::BindGroup(group), visible);
        let steps = steps.push(Step::BindGroup(group));
        lemma_after_push(start, steps, Step::Dispatch(workgroups), visible);
        lemma_partial_step(visible, before);
        assert(target_buffer(group) == source_buffer(crate::pass::group_after(passes)));
    }
}

} // verus!
