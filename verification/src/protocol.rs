//! The lifecycle state machine, at the specification level.
//!
//! A temporal resource cycles through three phases every frame it is used:
//! idle (`Default`), admitted into the current graph build (`Imported`), and
//! awaiting the post-execution access state (`Exported`). This module gives
//! the mathematical model of that machine — the view of a container, the
//! three operations as transition functions, and when each is enabled — and
//! proves the protocol's laws over it. The executable container in
//! [`crate::temporal`] is specified against these transition functions.

use std::sync::Arc;
use vstd::prelude::*;

use crate::types::AccessType;
use crate::types::ExportedHandle;

verus! {

/// The lifecycle tag of a temporal resource.
///
/// `Default`: idle, the stored access state is authoritative, eligible for
/// import. `Imported`: registered in an in-progress graph build, eligible
/// for export. `Exported`: registered for post-execution state retrieval,
/// eligible for retire.
#[derive(PartialEq, Eq, Structural, Clone, Copy, Debug)]
pub enum TemporalResourceState {
    Default,
    Imported,
    Exported,
}

/// Specification-level view of a temporal container: the shared resource it
/// owns, its last known access state, the pending export token (present only
/// while `Exported`), and the lifecycle tag.
pub ghost struct TemporalView<Res> {
    pub resource: Arc<Res>,
    pub access_type: AccessType,
    pub last_rg_handle: Option<ExportedHandle>,
    pub state: TemporalResourceState,
}

impl<Res> TemporalView<Res> {
    /// The container invariant: an export token is pending if and only if
    /// the resource is in the `Exported` phase.
    pub open spec fn wf(self) -> bool {
        self.last_rg_handle is Some <==> self.state == TemporalResourceState::Exported
    }
}

/// The view a freshly constructed container has: no access yet, no pending
/// export, idle.
pub open spec fn init_view<Res>(resource: Arc<Res>) -> TemporalView<Res> {
    TemporalView {
        resource,
        access_type: AccessType::Nothing,
        last_rg_handle: None,
        state: TemporalResourceState::Default,
    }
}

/// One lifecycle operation, with the value the outside world contributes to
/// it: export stores the token the graph minted, and retire stores the final
/// access description the retired graph reported for the pending token.
pub ghost enum LifecycleOp {
    Import,
    Export(ExportedHandle),
    Retire(AccessType),
}

/// Import admits an idle resource into the current graph build.
pub open spec fn import_enabled<Res>(v: TemporalView<Res>) -> bool {
    v.state == TemporalResourceState::Default
}

/// Export requires the resource to have been admitted into this build first;
/// anything else is a protocol violation.
pub open spec fn export_enabled<Res>(v: TemporalView<Res>) -> bool {
    v.state == TemporalResourceState::Imported
}

/// Retire may always be called; when a token is pending it must coexist with
/// the `Exported` phase (which also rules out double retirement).
pub open spec fn retire_enabled<Res>(v: TemporalView<Res>) -> bool {
    v.last_rg_handle is Some ==> v.state == TemporalResourceState::Exported
}

/// When an operation may be invoked on a container in view `v`.
pub open spec fn op_enabled<Res>(v: TemporalView<Res>, op: LifecycleOp) -> bool {
    match op {
        LifecycleOp::Import => import_enabled(v),
        LifecycleOp::Export(_) => export_enabled(v),
        LifecycleOp::Retire(_) => retire_enabled(v),
    }
}

/// The effect of one operation on the container.
///
/// Import only moves the tag: the stored access state is read by the graph,
/// not changed. Export stores the minted token and moves the tag. Retire is
/// a no-op when no export is pending; otherwise it overwrites the access
/// state with the reported one, clears the token, and returns the resource
/// to idle. No operation touches the owned resource.
pub open spec fn apply_op<Res>(v: TemporalView<Res>, op: LifecycleOp) -> TemporalView<Res> {
    match op {
        LifecycleOp::Import => TemporalView { state: TemporalResourceState::Imported, ..v },
        LifecycleOp::Export(token) => TemporalView {
            state: TemporalResourceState::Exported,
            last_rg_handle: Some(token),
            ..v
        },
        LifecycleOp::Retire(access_type) => {
            if v.last_rg_handle is Some {
                TemporalView {
                    state: TemporalResourceState::Default,
                    last_rg_handle: None,
                    access_type,
                    ..v
                }
            } else {
                v
            }
        },
    }
}

} // verus!
