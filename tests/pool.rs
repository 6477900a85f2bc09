use render_pool::config::{PoolConfig, GATE_CAPACITY, WEAR_THRESHOLD};
use render_pool::operation::{OpStage, RenderError, RenderOperation, StepReport};
use render_pool::pool::{MonitorAction, RenderPool};
use render_pool::recycle::RecycleError;

fn started(config: PoolConfig) -> (RenderPool, u64) {
    let mut pool = RenderPool::new(config, 0);
    let id = pool.begin_recycle().expect("no recycle under way");
    let h = pool.finish_recycle(id, true, 0).expect("first handle published");
    (pool, h)
}

fn enter(pool: &mut RenderPool) -> RenderOperation {
    pool.begin_render().expect("a handle is published").expect("a permit is free")
}

fn run_to_capture(op: &mut RenderOperation, image: Vec<u8>) {
    op.advance(StepReport::Done);
    op.advance(StepReport::Done);
    op.advance(StepReport::Done);
    op.advance(StepReport::Failed);
    assert_eq!(op.stage(), OpStage::Capture);
    op.advance(StepReport::Image(image));
    op.advance(StepReport::Failed);
    assert_eq!(op.stage(), OpStage::Complete);
}

#[test]
fn default_config_values() {
    let c = PoolConfig::default();
    assert_eq!(c.capacity, 2);
    assert_eq!(c.wear_threshold, 500);
    assert_eq!(c.settle_wait_ms, 2000);
    assert_eq!(c.health_period_ms, 30000);
    assert_eq!(c.recycle_pause_ms, 500);
    assert_eq!(GATE_CAPACITY, 2);
    assert_eq!(WEAR_THRESHOLD, 500);
}

#[test]
fn no_handle_fails_fast() {
    let mut pool = RenderPool::new(PoolConfig::default(), 0);
    assert!(matches!(pool.begin_render(), Err(RenderError::BackendUnavailable)));
    assert_eq!(pool.outstanding(), 0);
}

#[test]
fn third_render_waits_for_a_release() {
    let (mut pool, h1) = started(PoolConfig::with_limits(2, 500));
    assert_eq!(h1, 1);
    assert_eq!(pool.snapshot().0, 0);
    let a = enter(&mut pool);
    let b = enter(&mut pool);
    assert_eq!(a.handle(), h1);
    assert_eq!(b.handle(), h1);
    assert_eq!(pool.outstanding(), 2);
    assert!(matches!(pool.begin_render(), Ok(None)));
    assert_eq!(pool.outstanding(), 2);
    let r = pool.finish_render(a, 5);
    assert_eq!(r, Err(RenderError::Abandoned));
    assert_eq!(pool.outstanding(), 1);
    let c = enter(&mut pool);
    assert_eq!(pool.outstanding(), 2);
    pool.finish_render(b, 6).unwrap_err();
    pool.finish_render(c, 7).unwrap_err();
    assert_eq!(pool.outstanding(), 0);
}

#[test]
fn every_error_path_releases_its_permit() {
    let (mut pool, _) = started(PoolConfig::default());

    let mut op = enter(&mut pool);
    op.advance(StepReport::Failed);
    assert_eq!(op.stage(), OpStage::Complete);
    assert_eq!(pool.finish_render(op, 1), Err(RenderError::SurfaceCreationFailed));

    let mut op = enter(&mut pool);
    op.advance(StepReport::Done);
    op.advance(StepReport::Failed);
    assert_eq!(op.stage(), OpStage::CloseSurface);
    op.advance(StepReport::Done);
    assert_eq!(pool.finish_render(op, 2), Err(RenderError::ContentSubmissionFailed));

    let mut op = enter(&mut pool);
    op.advance(StepReport::Done);
    op.advance(StepReport::Done);
    op.advance(StepReport::Done);
    op.advance(StepReport::Done);
    op.advance(StepReport::Failed);
    op.advance(StepReport::Done);
    assert_eq!(pool.finish_render(op, 3), Err(RenderError::CaptureFailed));

    assert_eq!(pool.outstanding(), 0);
    assert_eq!(pool.snapshot(), (0, 0));
}

#[test]
fn success_returns_image_and_counts() {
    let (mut pool, _) = started(PoolConfig::default());
    let mut op = enter(&mut pool);
    run_to_capture(&mut op, vec![137, 80, 78, 71]);
    assert_eq!(pool.finish_render(op, 42), Ok(vec![137, 80, 78, 71]));
    assert_eq!(pool.snapshot(), (1, 42));
    assert_eq!(pool.outstanding(), 0);
}

#[test]
fn wear_threshold_triggers_recycle() {
    let (mut pool, h1) = started(PoolConfig::with_limits(2, 1));
    assert_eq!(pool.poll_monitor(true), MonitorAction::Idle);
    let mut op = enter(&mut pool);
    run_to_capture(&mut op, vec![1]);
    pool.finish_render(op, 10).unwrap();
    assert_eq!(pool.snapshot().0, 1);
    let id = match pool.poll_monitor(true) {
        MonitorAction::Recycle(id) => id,
        other => panic!("expected a recycle, got {:?}", other),
    };
    assert!(pool.recycling());
    assert_eq!(pool.poll_monitor(true), MonitorAction::Idle);
    assert_eq!(pool.finish_recycle(id, true, 20), Ok(id));
    assert_eq!(pool.snapshot(), (0, 20));
    let h2 = pool.current_handle().unwrap();
    assert_ne!(h2, h1);
    assert!(h2 > h1);
}

#[test]
fn failed_construction_keeps_old_handle() {
    let (mut pool, h1) = started(PoolConfig::default());
    let id = pool.begin_recycle().unwrap();
    assert_eq!(pool.begin_recycle(), None);
    assert_eq!(pool.finish_recycle(id, false, 3), Err(RecycleError::ConstructionFailed));
    assert_eq!(pool.current_handle(), Some(h1));
    assert!(!pool.recycling());
    let mut op = enter(&mut pool);
    assert_eq!(op.handle(), h1);
    run_to_capture(&mut op, vec![9, 9]);
    assert_eq!(pool.finish_render(op, 4), Ok(vec![9, 9]));
    assert_eq!(pool.snapshot(), (1, 4));
}

#[test]
fn stale_recycle_finish_is_refused() {
    let (mut pool, h1) = started(PoolConfig::default());
    assert_eq!(pool.finish_recycle(77, true, 1), Err(RecycleError::NotInProgress));
    assert_eq!(pool.current_handle(), Some(h1));
}

#[test]
fn inflight_operation_survives_publication() {
    let (mut pool, h1) = started(PoolConfig::default());
    let mut old_op = enter(&mut pool);
    let id = pool.begin_recycle().unwrap();
    pool.finish_recycle(id, true, 5).unwrap();
    let new_op = enter(&mut pool);
    assert_eq!(new_op.handle(), id);
    assert_eq!(old_op.handle(), h1);
    run_to_capture(&mut old_op, vec![7]);
    assert_eq!(pool.finish_render(old_op, 6), Ok(vec![7]));
    // a success on the superseded handle does not wear the new one
    assert_eq!(pool.snapshot(), (0, 5));
    pool.finish_render(new_op, 7).unwrap_err();
    assert_eq!(pool.outstanding(), 0);
}

#[test]
fn shutdown_is_idempotent() {
    let (mut pool, _) = started(PoolConfig::default());
    assert!(pool.initiate_shutdown());
    assert!(!pool.initiate_shutdown());
    assert!(!pool.initiate_shutdown());
    assert!(pool.shutdown_requested());
    assert!(pool.monitor_running());
    assert_eq!(pool.poll_monitor(false), MonitorAction::Exit);
    assert!(!pool.monitor_running());
    assert_eq!(pool.poll_monitor(true), MonitorAction::Exit);
}

#[test]
fn shutdown_wins_over_wear() {
    let (mut pool, _) = started(PoolConfig::with_limits(2, 0));
    pool.initiate_shutdown();
    assert_eq!(pool.poll_monitor(true), MonitorAction::Exit);
    assert!(!pool.recycling());
}

#[test]
fn shutdown_leaves_inflight_operations() {
    let (mut pool, _) = started(PoolConfig::default());
    let mut op = enter(&mut pool);
    pool.initiate_shutdown();
    run_to_capture(&mut op, vec![3]);
    assert_eq!(pool.finish_render(op, 1), Ok(vec![3]));
    assert_eq!(pool.outstanding(), 0);
}

#[test]
fn zero_capacity_never_admits() {
    let (mut pool, _) = started(PoolConfig::with_limits(0, 500));
    assert!(matches!(pool.begin_render(), Ok(None)));
}

#[test]
fn operation_from_another_pool_changes_nothing() {
    let (mut a, _) = started(PoolConfig::default());
    let mut b = RenderPool::new(PoolConfig::default(), 0);
    for _ in 0..2 {
        let id = b.begin_recycle().unwrap();
        b.finish_recycle(id, true, 0).unwrap();
    }
    assert_eq!(b.current_handle(), Some(2));
    let op = enter(&mut a);
    let _other = enter(&mut b);
    b.finish_render(op, 1).unwrap_err();
    assert_eq!(b.outstanding(), 1);
    assert_eq!(a.outstanding(), 1);
}
