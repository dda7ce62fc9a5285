//! The executable temporal container and the graph-facing operations.
//!
//! [`Temporal`] owns one persistent GPU resource (shared with whatever else
//! references it across frames), its last known access state, and its
//! lifecycle tag. The three operations are split between this container and
//! a render graph: the container-side transitions are the verified methods
//! here, each specified as one step of [`crate::protocol::apply_op`], and
//! the [`RgTemporalExt`] / [`RetiredRgTemporalExt`] traits say what a graph
//! type must do to the container when it performs the full operation.

use std::sync::Arc;
use vstd::prelude::*;

use crate::protocol::LifecycleOp;
use crate::protocol::TemporalResourceState;
use crate::protocol::TemporalView;
use crate::protocol::apply_op;
use crate::protocol::export_enabled;
use crate::protocol::import_enabled;
use crate::protocol::init_view;
use crate::protocol::retire_enabled;
use crate::types::AccessType;
use crate::types::ExportedHandle;
use crate::types::Handle;

verus! {

/// Relies on `std::sync::Arc::clone`: the clone is another pointer to the
/// same allocation, so it carries the same value.
#[verifier::external_body]
pub(crate) fn clone_arc<T>(v: &Arc<T>) -> (res: Arc<T>)
    ensures
        res == *v,
{
    v.clone()
}

/// A persistent resource together with the cross-frame bookkeeping the
/// lifecycle protocol needs. One instance exists per temporal GPU object and
/// lives as long as the owning subsystem, independent of any single frame.
pub struct Temporal<Res> {
    resource: Arc<Res>,
    access_type: AccessType,
    last_rg_handle: Option<ExportedHandle>,
    state: TemporalResourceState,
}

impl<Res> View for Temporal<Res> {
    type V = TemporalView<Res>;

    closed spec fn view(&self) -> TemporalView<Res> {
        TemporalView {
            resource: self.resource,
            access_type: self.access_type,
            last_rg_handle: self.last_rg_handle,
            state: self.state,
        }
    }
}

impl<Res> Temporal<Res> {
    /// Construct a container owning `resource`: no access yet, no pending
    /// export, idle. Construction cannot fail.
    pub fn new(resource: Arc<Res>) -> (t: Self)
        ensures
            t@ == init_view(resource),
    {
        Self {
            resource,
            access_type: AccessType::Nothing,
            last_rg_handle: None,
            state: TemporalResourceState::Default,
        }
    }

    /// The export token pending from the current cycle, if any; a pure
    /// accessor for diagnostics and ordering checks by callers.
    pub fn last_rg_handle(&self) -> (r: Option<ExportedHandle>)
        ensures
            r == self@.last_rg_handle,
    {
        self.last_rg_handle
    }

    /// Container side of import: move the tag to `Imported` and hand out
    /// what the graph needs to register the resource — a shared reference to
    /// it and the access state its entry barrier must be computed from.
    pub fn begin_import(&mut self) -> (r: (Arc<Res>, AccessType))
        requires
            import_enabled(old(self)@),
        ensures
            final(self)@ == apply_op(old(self)@, LifecycleOp::Import),
            r.0 == old(self)@.resource,
            r.1 == old(self)@.access_type,
    {
        self.state = TemporalResourceState::Imported;
        (clone_arc(&self.resource), self.access_type)
    }

    /// Container side of export: store the token the graph minted and move
    /// the tag to `Exported`. The access state is not touched — the new one
    /// becomes known only after the graph has executed.
    pub fn record_export(&mut self, token: ExportedHandle)
        requires
            export_enabled(old(self)@),
        ensures
            final(self)@ == apply_op(old(self)@, LifecycleOp::Export(token)),
    {
        self.last_rg_handle = Some(token);
        self.state = TemporalResourceState::Exported;
    }

    /// Container side of retire, for a resource that was exported this
    /// cycle: overwrite the access state with the one the retired graph
    /// reported, clear the pending token, and return to idle. This is the
    /// only place the access state is ever updated.
    pub fn complete_retire(&mut self, access_type: AccessType)
        requires
            old(self)@.last_rg_handle is Some,
            old(self)@.state == TemporalResourceState::Exported,
        ensures
            final(self)@ == apply_op(old(self)@, LifecycleOp::Retire(access_type)),
    {
        self.access_type = access_type;
        self.last_rg_handle = None;
        self.state = TemporalResourceState::Default;
    }
}

/// What a render-graph builder does with a temporal resource during a graph
/// build. An implementor registers the resource with the graph; the contract
/// pins both sides of each operation: the container moves by exactly one
/// protocol step, and the build's own records grow by exactly the entry
/// registered, identified by the returned handle or token.
pub trait RgTemporalExt<Res> {
    /// The resources this build has registered so far, each with the access
    /// state it entered the build in; a handle minted by this build is an
    /// index into them.
    spec fn recorded_imports(&self) -> Seq<(Arc<Res>, AccessType)>;

    /// The terminal access requests this build has recorded so far, each
    /// pairing the index of the imported resource with the access state it
    /// must end the frame in; an export token minted by this build is an
    /// index into them.
    spec fn recorded_exports(&self) -> Seq<(usize, AccessType)>;

    /// Register the container's resource into this graph build, using the
    /// container's current access state as the resource's initial access
    /// description, and return a handle scoped to this build: the build
    /// records exactly that resource with that access state, and the handle
    /// identifies the new record. Callers must not import a resource that is
    /// already in flight: one cycle per resource at a time.
    fn import_temporal(&mut self, temporal: &mut Temporal<Res>) -> (h: Handle)
        requires
            import_enabled(old(temporal)@),
        ensures
            final(temporal)@ == apply_op(old(temporal)@, LifecycleOp::Import),
            final(self).recorded_imports() == old(self).recorded_imports().push(
                (old(temporal)@.resource, old(temporal)@.access_type),
            ),
            final(self).recorded_exports() == old(self).recorded_exports(),
            h.id == old(self).recorded_imports().len(),
    ;

    /// Register that, by the end of this graph's execution, the resource
    /// behind `handle` must end up in the state described by `access_type`,
    /// and return the token redeemable after execution: the build records
    /// exactly that request, and the token identifies the new record. The
    /// resource must have been imported into this build first, and a second
    /// export without an intervening retire is rejected: the container
    /// leaves the `Imported` phase.
    fn export_temporal(
        &mut self,
        handle: Handle,
        temporal: &mut Temporal<Res>,
        access_type: AccessType,
    ) -> (token: ExportedHandle)
        requires
            export_enabled(old(temporal)@),
        ensures
            final(temporal)@ == apply_op(old(temporal)@, LifecycleOp::Export(token)),
            final(temporal)@.last_rg_handle == Some(token),
            !export_enabled(final(temporal)@),
            final(self).recorded_exports() == old(self).recorded_exports().push(
                (handle.id, access_type),
            ),
            final(self).recorded_imports() == old(self).recorded_imports(),
            token.id == old(self).recorded_exports().len(),
    ;
}

/// What a retired (executed) graph does with a temporal resource after the
/// frame: hand back the final access description for a pending export token.
pub trait RetiredRgTemporalExt<Res> {
    /// Whether this retired graph can answer for `token`: the token must
    /// have been minted by the graph build this result came from.
    spec fn exported_valid(&self, token: ExportedHandle) -> bool;

    /// The final access description this retired graph holds for `token`.
    spec fn exported_access(&self, token: ExportedHandle) -> AccessType;

    /// Pull the post-execution access state back into the container. A
    /// container with no pending export token is left untouched — skipping a
    /// resource for a frame is the expected common case, not an error.
    /// Otherwise the pending token must be one of this graph's, and the
    /// container completes one retire step with the access description the
    /// graph reports for it.
    fn retire_temporal(&self, temporal: &mut Temporal<Res>)
        requires
            retire_enabled(old(temporal)@),
            old(temporal)@.last_rg_handle matches Some(token) ==> self.exported_valid(token),
        ensures
            match old(temporal)@.last_rg_handle {
                Some(token) => final(temporal)@ == apply_op(
                    old(temporal)@,
                    LifecycleOp::Retire(self.exported_access(token)),
                ),
                None => final(temporal)@ == old(temporal)@,
            },
    ;
}

} // verus!
