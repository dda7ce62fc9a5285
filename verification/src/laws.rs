//! Laws of the lifecycle protocol, proved over the specification model.
//!
//! Each lemma here states a property of the transition system in
//! [`crate::protocol`] for every input it speaks of; the executable
//! operations are specified as exactly those transitions, so these laws
//! carry over to every verified caller of the container.

use std::sync::Arc;
use vstd::prelude::*;

use crate::protocol::LifecycleOp;
use crate::protocol::TemporalResourceState;
use crate::protocol::TemporalView;
use crate::protocol::apply_op;
use crate::protocol::export_enabled;
use crate::protocol::init_view;
use crate::protocol::op_enabled;
use crate::types::AccessType;
use crate::types::ExportedHandle;

verus! {

/// A sequence of operations is enabled from `v` when each operation is
/// enabled in the state left by those before it.
pub open spec fn ops_enabled<Res>(v: TemporalView<Res>, ops: Seq<LifecycleOp>) -> bool
    decreases ops.len(),
{
    ops.len() == 0 || (op_enabled(v, ops[0]) && ops_enabled(apply_op(v, ops[0]), ops.drop_first()))
}

/// The state reached by applying a sequence of operations from `v`.
pub open spec fn apply_ops<Res>(v: TemporalView<Res>, ops: Seq<LifecycleOp>) -> TemporalView<Res>
    decreases ops.len(),
{
    if ops.len() == 0 {
        v
    } else {
        apply_ops(apply_op(v, ops[0]), ops.drop_first())
    }
}

/// One enabled operation keeps the container invariant and moves the
/// lifecycle tag only along the cycle
/// `Default -> Imported -> Exported -> Default`, or leaves the container
/// untouched (a retire with no export pending).
pub proof fn lemma_lifecycle_step<Res>(v: TemporalView<Res>, op: LifecycleOp)
    requires
        v.wf(),
        op_enabled(v, op),
    ensures
        apply_op(v, op).wf(),
        ({
            let w = apply_op(v, op);
            ||| (v.state == TemporalResourceState::Default
                && w.state == TemporalResourceState::Imported)
            ||| (v.state == TemporalResourceState::Imported
                && w.state == TemporalResourceState::Exported)
            ||| (v.state == TemporalResourceState::Exported
                && w.state == TemporalResourceState::Default)
            ||| w == v
        }),
{
}

/// For every sequence of enabled operations, the container invariant holds
/// in every state the sequence passes through; together with
/// [`lemma_lifecycle_step`] this pins the lifecycle tag to the three defined
/// values and its transitions to the cycle, for all operation sequences.
pub proof fn lemma_lifecycle_sequences<Res>(v: TemporalView<Res>, ops: Seq<LifecycleOp>)
    requires
        v.wf(),
        ops_enabled(v, ops),
    ensures
        apply_ops(v, ops).wf(),
    decreases ops.len(),
{
    if ops.len() > 0 {
        lemma_lifecycle_step(v, ops[0]);
        lemma_lifecycle_sequences(apply_op(v, ops[0]), ops.drop_first());
    }
}

/// Export is never enabled on a freshly constructed container: the resource
/// must be imported into a graph build first.
pub proof fn lemma_no_export_after_construction<Res>(resource: Arc<Res>, token: ExportedHandle)
    ensures
        init_view(resource).wf(),
        !op_enabled(init_view::<Res>(resource), LifecycleOp::Export(token)),
{
}

/// Export is never enabled twice without an intervening retire: after an
/// export the container is `Exported`, not `Imported`.
pub proof fn lemma_no_double_export<Res>(
    v: TemporalView<Res>,
    first: ExportedHandle,
    second: ExportedHandle,
)
    requires
        export_enabled(v),
    ensures
        !op_enabled(apply_op(v, LifecycleOp::Export(first)), LifecycleOp::Export(second)),
{
}

/// Retire without a pending export is a no-op, and therefore idempotent:
/// retiring twice in a row leaves the container exactly as it was, whatever
/// access descriptions the two calls would have carried.
pub proof fn lemma_retire_noop_idempotent<Res>(
    v: TemporalView<Res>,
    first: AccessType,
    second: AccessType,
)
    requires
        v.last_rg_handle is None,
    ensures
        apply_op(v, LifecycleOp::Retire(first)) == v,
        apply_op(apply_op(v, LifecycleOp::Retire(first)), LifecycleOp::Retire(second)) == v,
{
}

/// The round trip of one frame: from an idle container, import, export, and
/// a retire answered with access description `reported` end with the
/// container idle again, holding exactly `reported`, with no token pending
/// and the owned resource untouched.
pub proof fn lemma_round_trip<Res>(
    v: TemporalView<Res>,
    token: ExportedHandle,
    reported: AccessType,
)
    requires
        v.wf(),
        v.state == TemporalResourceState::Default,
    ensures
        ({
            let w = apply_op(
                apply_op(apply_op(v, LifecycleOp::Import), LifecycleOp::Export(token)),
                LifecycleOp::Retire(reported),
            );
            &&& w.wf()
            &&& w.state == TemporalResourceState::Default
            &&& w.access_type == reported
            &&& w.last_rg_handle is None
            &&& w.resource == v.resource
        }),
{
}

/// One simulated frame: either the resource is skipped, or it goes through
/// import, export, and a retire answered with some access description.
pub open spec fn frame_step<Res>(
    v: TemporalView<Res>,
    used: Option<(ExportedHandle, AccessType)>,
) -> TemporalView<Res> {
    match used {
        Some((token, reported)) => apply_op(
            apply_op(apply_op(v, LifecycleOp::Import), LifecycleOp::Export(token)),
            LifecycleOp::Retire(reported),
        ),
        None => v,
    }
}

/// The state after a run of simulated frames, each optionally using the
/// resource.
pub open spec fn apply_frames<Res>(
    v: TemporalView<Res>,
    frames: Seq<Option<(ExportedHandle, AccessType)>>,
) -> TemporalView<Res>
    decreases frames.len(),
{
    if frames.len() == 0 {
        v
    } else {
        apply_frames(frame_step(v, frames[0]), frames.drop_first())
    }
}

/// Every operation of one frame is enabled in turn, and the frame returns
/// the container to idle.
pub proof fn lemma_frame_returns_to_default<Res>(
    v: TemporalView<Res>,
    used: Option<(ExportedHandle, AccessType)>,
)
    requires
        v.wf(),
        v.state == TemporalResourceState::Default,
    ensures
        frame_step(v, used).wf(),
        frame_step(v, used).state == TemporalResourceState::Default,
        used matches Some((token, reported)) ==> ops_enabled(
            v,
            seq![
                LifecycleOp::Import,
                LifecycleOp::Export(token),
                LifecycleOp::Retire(reported),
            ],
        ),
{
    match used {
        Some((token, reported)) => {
            let ops = seq![
                LifecycleOp::Import,
                LifecycleOp::Export(token),
                LifecycleOp::Retire(reported),
            ];
            let tail1 = ops.drop_first();
            let tail2 = tail1.drop_first();
            let tail3 = tail2.drop_first();
            assert(tail1 =~= seq![LifecycleOp::Export(token), LifecycleOp::Retire(reported)]);
            assert(tail2 =~= seq![LifecycleOp::Retire(reported)]);
            assert(tail3.len() == 0);
            let v1 = apply_op(v, ops[0]);
            let v2 = apply_op(v1, tail1[0]);
            let v3 = apply_op(v2, tail2[0]);
            assert(ops_enabled(v3, tail3));
            assert(ops_enabled(v2, tail2));
            assert(ops_enabled(v1, tail1));
            assert(ops_enabled(v, ops));
        },
        None => {},
    }
}

/// After any number of simulated frames, each optionally using the resource,
/// a container that started idle is idle again: the lifecycle never leaks
/// into a new frame.
pub proof fn lemma_frames_return_to_default<Res>(
    v: TemporalView<Res>,
    frames: Seq<Option<(ExportedHandle, AccessType)>>,
)
    requires
        v.wf(),
        v.state == TemporalResourceState::Default,
    ensures
        apply_frames(v, frames).wf(),
        apply_frames(v, frames).state == TemporalResourceState::Default,
    decreases frames.len(),
{
    if frames.len() > 0 {
        lemma_frame_returns_to_default(v, frames[0]);
        lemma_frames_return_to_default(frame_step(v, frames[0]), frames.drop_first());
    }
}

} // verus!
