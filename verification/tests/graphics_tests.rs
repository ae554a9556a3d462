use wintf::ecs::graphics::{HasGraphicsResources, SurfaceGraphicsDirty};
use wintf::ecs::graphics::{hierarchy_sync_order, plan_surface, SurfacePlan};

#[test]
fn test_default_does_not_need_init() {
    let res = HasGraphicsResources::default();
    assert!(!res.needs_init(), "デフォルト状態では初期化不要");
}

#[test]
fn test_request_init_sets_needs_init() {
    let mut res = HasGraphicsResources::default();
    res.request_init();
    assert!(res.needs_init(), "request_init後は初期化が必要");
}

#[test]
fn test_mark_initialized_clears_needs_init() {
    let mut res = HasGraphicsResources::default();
    res.request_init();
    res.mark_initialized();
    assert!(!res.needs_init(), "mark_initialized後は初期化不要");
}

#[test]
fn test_multiple_request_init() {
    let mut res = HasGraphicsResources::default();
    res.request_init();
    res.mark_initialized();
    res.request_init();
    assert!(res.needs_init(), "再度request_init後は初期化が必要");
}

#[test]
fn test_wrapping_overflow() {
    let mut res = HasGraphicsResources::default();
    for _ in 0..5 {
        res.request_init();
        res.mark_initialized();
    }
    assert!(!res.needs_init(), "複数回のサイクル後も正常動作");
    res.request_init();
    assert!(res.needs_init(), "ラッピング後もneeds_initが正常動作");
}

#[test]
fn test_default_requested_frame_is_zero() {
    let dirty = SurfaceGraphicsDirty::default();
    assert_eq!(dirty.requested_frame, 0, "デフォルトのrequested_frameは0");
}

#[test]
fn test_requested_frame_can_be_updated() {
    let mut dirty = SurfaceGraphicsDirty::default();
    dirty.requested_frame = 42;
    assert_eq!(dirty.requested_frame, 42, "requested_frameを更新できる");
}

// --- further cases ---

#[test]
fn repeated_requests_join_one_initialisation() {
    let mut res = HasGraphicsResources::default();
    res.request_init();
    res.request_init();
    res.mark_initialized();
    assert!(!res.needs_init());
}

#[test]
fn completion_needs_every_resource() {
    let mut res = HasGraphicsResources::default();
    assert!(!res.complete_if_ready(true, true, true));
    res.request_init();
    assert!(!res.complete_if_ready(true, false, true));
    assert!(res.needs_init());
    assert!(res.complete_if_ready(true, true, true));
    assert!(!res.needs_init());
}

#[test]
fn surface_plan_cases() {
    assert_eq!(plan_surface(None, true, (10, 10)), SurfacePlan::Skip);
    assert_eq!(plan_surface(Some((10, 10)), true, (10, 10)), SurfacePlan::Keep);
    assert_eq!(
        plan_surface(Some((10, 10)), false, (10, 10)),
        SurfacePlan::Create { width: 10, height: 10 }
    );
    assert_eq!(
        plan_surface(Some((20, 10)), true, (10, 10)),
        SurfacePlan::Resize { width: 20, height: 10 }
    );
}

#[test]
fn redraw_request_advances_and_wraps() {
    let mut dirty = SurfaceGraphicsDirty::default();
    dirty.request_redraw();
    assert_eq!(dirty.requested_frame, 1);
    dirty.requested_frame = u64::MAX;
    dirty.request_redraw();
    assert_eq!(dirty.requested_frame, 0);
}

#[test]
fn hierarchy_sync_order_puts_parents_first_and_keeps_ties() {
    assert_eq!(hierarchy_sync_order(&vec![2, 1, 2, 0, 1]), vec![3, 1, 4, 0, 2]);
    assert_eq!(hierarchy_sync_order(&vec![]), Vec::<usize>::new());
    assert_eq!(hierarchy_sync_order(&vec![5, 5, 5]), vec![0, 1, 2]);
}
