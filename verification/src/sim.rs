//! A simulated render graph.
//!
//! The real render-graph engine (DAG construction, barrier insertion,
//! command recording) is outside this crate; the lifecycle protocol only
//! touches it through [`RgTemporalExt`] and [`RetiredRgTemporalExt`]. This
//! module provides an in-memory stand-in: a builder that records imports and
//! exports, and a retired result that answers export tokens with the access
//! description the export asked for. It exercises the protocol end to end —
//! in tests and in host code that has no GPU behind it — and is the one
//! verified implementation of the two graph traits.

use std::sync::Arc;
use vstd::prelude::*;

use crate::protocol::TemporalResourceState;
use crate::temporal::RetiredRgTemporalExt;
use crate::temporal::clone_arc;
use crate::temporal::RgTemporalExt;
use crate::temporal::Temporal;
use crate::types::AccessType;
use crate::types::ExportedHandle;
use crate::types::Handle;

verus! {

/// A graph build in progress: the resources admitted so far (a handle is an
/// index into them, paired with the access state they were imported with)
/// and the exports requested so far (an export token is an index into them,
/// pairing the exported handle with the requested terminal access).
pub struct SimRenderGraph<Res> {
    imports: Vec<(Arc<Res>, AccessType)>,
    exports: Vec<(usize, AccessType)>,
}

/// The result of executing a [`SimRenderGraph`]: for the simulation, a
/// resource ends the frame in exactly the access state its export requested.
pub struct SimRetiredGraph<Res> {
    imports: Vec<(Arc<Res>, AccessType)>,
    exports: Vec<(usize, AccessType)>,
}

impl<Res> SimRenderGraph<Res> {
    /// The resources imported so far, each with its entry access state.
    pub closed spec fn imports_view(&self) -> Seq<(Arc<Res>, AccessType)> {
        self.imports@
    }

    /// The exports requested so far: imported-handle index and terminal
    /// access state.
    pub closed spec fn exports_view(&self) -> Seq<(usize, AccessType)> {
        self.exports@
    }

    /// An empty graph build: nothing imported, nothing exported.
    pub fn new() -> (rg: Self)
        ensures
            rg.imports_view().len() == 0,
            rg.exports_view().len() == 0,
    {
        Self { imports: Vec::new(), exports: Vec::new() }
    }

    /// Register a resource into this build with the access state it is
    /// entering in; the returned handle is its index among the imports.
    pub fn import(&mut self, resource: Arc<Res>, access_type: AccessType) -> (h: Handle)
        ensures
            final(self).imports_view() == old(self).imports_view().push((resource, access_type)),
            final(self).exports_view() == old(self).exports_view(),
            h.id == old(self).imports_view().len(),
    {
        let h = Handle { id: self.imports.len() };
        self.imports.push((resource, access_type));
        h
    }

    /// Record that the resource behind `handle` must end the frame in the
    /// state `access_type`; the returned token is the index of that record.
    pub fn export(&mut self, handle: Handle, access_type: AccessType) -> (token: ExportedHandle)
        ensures
            final(self).exports_view() == old(self).exports_view().push((handle.id, access_type)),
            final(self).imports_view() == old(self).imports_view(),
            token.id == old(self).exports_view().len(),
    {
        let token = ExportedHandle { id: self.exports.len() };
        self.exports.push((handle.id, access_type));
        token
    }

    /// Execute the build. The simulation records no GPU work, so executing
    /// is carrying the bookkeeping over into the retired result.
    pub fn execute(self) -> (retired: SimRetiredGraph<Res>)
        ensures
            retired.imports_view() == self.imports_view(),
            retired.exports_view() == self.exports_view(),
    {
        SimRetiredGraph { imports: self.imports, exports: self.exports }
    }
}

impl<Res> SimRetiredGraph<Res> {
    /// The resources the executed build had imported.
    pub closed spec fn imports_view(&self) -> Seq<(Arc<Res>, AccessType)> {
        self.imports@
    }

    /// The exports the executed build had recorded.
    pub closed spec fn exports_view(&self) -> Seq<(usize, AccessType)> {
        self.exports@
    }

    /// Redeem an export token: the resource it was minted for, and the
    /// access description the resource ended the frame in.
    pub fn exported_resource(&self, token: ExportedHandle) -> (r: (Arc<Res>, AccessType))
        requires
            self.exported_valid(token),
        ensures
            r.1 == self.exported_access(token),
            r.0 == self.imports_view()[self.exports_view()[token.id as int].0 as int].0,
    {
        let (import_id, access_type) = self.exports[token.id];
        (clone_arc(&self.imports[import_id].0), access_type)
    }
}

impl<Res> RgTemporalExt<Res> for SimRenderGraph<Res> {
    open spec fn recorded_imports(&self) -> Seq<(Arc<Res>, AccessType)> {
        self.imports_view()
    }

    open spec fn recorded_exports(&self) -> Seq<(usize, AccessType)> {
        self.exports_view()
    }

    fn import_temporal(&mut self, temporal: &mut Temporal<Res>) -> (h: Handle) {
        let (resource, access_type) = temporal.begin_import();
        self.import(resource, access_type)
    }

    fn export_temporal(
        &mut self,
        handle: Handle,
        temporal: &mut Temporal<Res>,
        access_type: AccessType,
    ) -> (token: ExportedHandle) {
        let token = self.export(handle, access_type);
        temporal.record_export(token);
        token
    }
}

impl<Res> RetiredRgTemporalExt<Res> for SimRetiredGraph<Res> {
    /// A token is answerable when it indexes a recorded export whose handle
    /// indexes a recorded import — every token minted for a handle of the
    /// same build does. Stated over the public views, so that callers can
    /// discharge it from the build's records.
    open spec fn exported_valid(&self, token: ExportedHandle) -> bool {
        &&& token.id < self.exports_view().len()
        &&& self.exports_view()[token.id as int].0 < self.imports_view().len()
    }

    open spec fn exported_access(&self, token: ExportedHandle) -> AccessType {
        self.exports_view()[token.id as int].1
    }

    fn retire_temporal(&self, temporal: &mut Temporal<Res>) {
        match temporal.last_rg_handle() {
            Some(token) => {
                let (_resource, access_type) = self.exported_resource(token);
                temporal.complete_retire(access_type);
            },
            None => {},
        }
    }
}

/// One whole simulated frame for a single resource: build a graph, import
/// the resource, export it with `target` as its terminal access state,
/// execute, and retire. The container ends idle, holding exactly `target`,
/// with no token pending and the owned resource untouched.
pub fn run_frame<Res>(temporal: &mut Temporal<Res>, target: AccessType)
    requires
        old(temporal)@.wf(),
        old(temporal)@.state == TemporalResourceState::Default,
    ensures
        final(temporal)@.wf(),
        final(temporal)@.state == TemporalResourceState::Default,
        final(temporal)@.access_type == target,
        final(temporal)@.last_rg_handle is None,
        final(temporal)@.resource == old(temporal)@.resource,
{
    let mut rg = SimRenderGraph::new();
    let handle = rg.import_temporal(temporal);
    let token = rg.export_temporal(handle, temporal, target);
    let retired = rg.execute();
    retired.retire_temporal(temporal);
}

} // verus!
