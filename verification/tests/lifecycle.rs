use std::sync::Arc;

use temporal_rg::sim::SimRenderGraph;
use temporal_rg::sim::run_frame;
use temporal_rg::temporal::RetiredRgTemporalExt;
use temporal_rg::temporal::RgTemporalExt;
use temporal_rg::temporal::Temporal;
use temporal_rg::types::AccessType;

#[test]
fn fresh_container_has_no_pending_export() {
    let t: Temporal<u32> = Temporal::new(Arc::new(7));
    assert_eq!(t.last_rg_handle(), None);
}

#[test]
fn retire_on_fresh_container_is_noop() {
    let mut t: Temporal<u32> = Temporal::new(Arc::new(7));
    let retired = SimRenderGraph::<u32>::new().execute();
    retired.retire_temporal(&mut t);
    assert_eq!(t.last_rg_handle(), None);
    // The access state is still the initial one: the next import hands the
    // graph `Nothing`.
    let (_resource, access) = t.begin_import();
    assert_eq!(access, AccessType::Nothing);
}

#[test]
fn retire_noop_twice_leaves_identical_state() {
    let mut t: Temporal<u32> = Temporal::new(Arc::new(7));
    let retired = SimRenderGraph::<u32>::new().execute();
    retired.retire_temporal(&mut t);
    let after_first = t.last_rg_handle();
    retired.retire_temporal(&mut t);
    assert_eq!(t.last_rg_handle(), after_first);
    assert_eq!(t.last_rg_handle(), None);
    let (_resource, access) = t.begin_import();
    assert_eq!(access, AccessType::Nothing);
}

#[test]
fn round_trip_updates_access_state() {
    let mut t: Temporal<u32> = Temporal::new(Arc::new(7));
    let mut rg = SimRenderGraph::new();
    let handle = rg.import_temporal(&mut t);
    let token = rg.export_temporal(handle, &mut t, AccessType::Access(5));
    assert_eq!(t.last_rg_handle(), Some(token));
    let retired = rg.execute();
    retired.retire_temporal(&mut t);
    assert_eq!(t.last_rg_handle(), None);
    // The new access state is the one the export requested and the retired
    // graph reported: the next frame's import hands it to the graph.
    let (_resource, access) = t.begin_import();
    assert_eq!(access, AccessType::Access(5));
}

#[test]
fn imported_resource_shares_the_allocation() {
    let underlying = Arc::new(42u32);
    let mut t = Temporal::new(Arc::clone(&underlying));
    let (resource, _access) = t.begin_import();
    assert!(Arc::ptr_eq(&resource, &underlying));
    assert_eq!(*resource, 42);
}

#[test]
fn retired_graph_returns_the_imported_resource() {
    let underlying = Arc::new(9u32);
    let mut t = Temporal::new(Arc::clone(&underlying));
    let mut rg = SimRenderGraph::new();
    let handle = rg.import_temporal(&mut t);
    let token = rg.export_temporal(handle, &mut t, AccessType::Access(3));
    let retired = rg.execute();
    let (resource, access) = retired.exported_resource(token);
    assert!(Arc::ptr_eq(&resource, &underlying));
    assert_eq!(access, AccessType::Access(3));
    retired.retire_temporal(&mut t);
    assert_eq!(t.last_rg_handle(), None);
}

#[test]
fn two_resources_in_one_graph_keep_their_own_state() {
    let mut a: Temporal<u32> = Temporal::new(Arc::new(1));
    let mut b: Temporal<u32> = Temporal::new(Arc::new(2));
    let mut rg = SimRenderGraph::new();
    let ha = rg.import_temporal(&mut a);
    let hb = rg.import_temporal(&mut b);
    // Handles and tokens index the build's records in registration order.
    assert_eq!(ha.id, 0);
    assert_eq!(hb.id, 1);
    let ta = rg.export_temporal(ha, &mut a, AccessType::Access(10));
    let tb = rg.export_temporal(hb, &mut b, AccessType::Access(20));
    assert_eq!(ta.id, 0);
    assert_eq!(tb.id, 1);
    let retired = rg.execute();
    retired.retire_temporal(&mut a);
    retired.retire_temporal(&mut b);
    let (ra, access_a) = a.begin_import();
    let (rb, access_b) = b.begin_import();
    assert_eq!(access_a, AccessType::Access(10));
    assert_eq!(access_b, AccessType::Access(20));
    assert_eq!(*ra, 1);
    assert_eq!(*rb, 2);
}

#[test]
fn run_frame_lands_on_the_requested_access() {
    let mut t: Temporal<u32> = Temporal::new(Arc::new(7));
    run_frame(&mut t, AccessType::Access(11));
    assert_eq!(t.last_rg_handle(), None);
    run_frame(&mut t, AccessType::Access(12));
    assert_eq!(t.last_rg_handle(), None);
    let (_resource, access) = t.begin_import();
    assert_eq!(access, AccessType::Access(12));
}

#[test]
fn frames_with_and_without_use_return_to_idle() {
    let mut t: Temporal<u32> = Temporal::new(Arc::new(7));
    let mut last_target: AccessType = AccessType::Nothing;
    for frame in 0..10u64 {
        let used = frame % 3 != 1;
        if used {
            let mut rg = SimRenderGraph::new();
            let handle = rg.import_temporal(&mut t);
            let target = AccessType::Access(100 + frame);
            rg.export_temporal(handle, &mut t, target);
            let retired = rg.execute();
            retired.retire_temporal(&mut t);
            last_target = target;
        } else {
            let retired = SimRenderGraph::<u32>::new().execute();
            retired.retire_temporal(&mut t);
        }
        // After every frame the resource is idle again: no export pending.
        assert_eq!(t.last_rg_handle(), None);
    }
    let (_resource, access) = t.begin_import();
    assert_eq!(access, last_target);
}
