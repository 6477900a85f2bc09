use render_pool::gate::ConcurrencyGate;
use render_pool::models::RenderResponse;
use render_pool::monitor::{decide_wake, MonitorDecision};
use render_pool::recycle::{HandleSlot, RecycleError};
use render_pool::shutdown::ShutdownCoordinator;
use render_pool::stats::UsageStats;

#[test]
fn stats_record_and_reset() {
    let mut s = UsageStats::new(10);
    assert_eq!(s.snapshot(), (0, 10));
    s.record_success(11);
    s.record_success(12);
    assert_eq!(s.snapshot(), (2, 12));
    s.reset(20);
    assert_eq!(s.snapshot(), (0, 20));
}

#[test]
fn stats_count_stays_at_largest_value() {
    let mut s = UsageStats { render_count: u64::MAX, last_activity: 0 };
    s.record_success(5);
    assert_eq!(s.snapshot(), (u64::MAX, 5));
}

#[test]
fn monitor_rule() {
    assert_eq!(decide_wake(false, true, 500, 500), MonitorDecision::Recycle);
    assert_eq!(decide_wake(false, true, 499, 500), MonitorDecision::Idle);
    assert_eq!(decide_wake(false, false, 900, 500), MonitorDecision::Idle);
    assert_eq!(decide_wake(true, true, 900, 500), MonitorDecision::Exit);
    assert_eq!(decide_wake(true, false, 0, 500), MonitorDecision::Exit);
}

#[test]
fn coordinator_signals_once() {
    let mut c = ShutdownCoordinator::new();
    assert!(!c.is_requested());
    assert!(c.initiate_shutdown());
    assert!(!c.initiate_shutdown());
    assert!(c.is_requested());
}

#[test]
fn gate_counts_permits() {
    let mut g = ConcurrencyGate::new(2);
    assert_eq!(g.capacity(), 2);
    let a = g.try_acquire(7).unwrap();
    let b = g.try_acquire(7).unwrap();
    assert_eq!(a.slot(), 0);
    assert_eq!(b.slot(), 1);
    assert_eq!(b.tag(), 7);
    assert!(g.try_acquire(7).is_none());
    assert_eq!(g.outstanding(), 2);
    assert!(g.release(a));
    assert_eq!(g.outstanding(), 1);
    let c = g.try_acquire(8).unwrap();
    assert_eq!(c.slot(), 0);
    assert!(g.release(b));
    assert!(g.release(c));
    assert_eq!(g.outstanding(), 0);
}

#[test]
fn slot_keeps_old_handle_on_failure() {
    let mut s = HandleSlot::new();
    assert_eq!(s.current(), None);
    let first = s.begin().unwrap();
    assert_eq!(s.finish(first, true), Ok(1));
    let second = s.begin().unwrap();
    assert_eq!(s.pending(), Some(second));
    assert_eq!(s.begin(), None);
    assert_eq!(s.finish(second, false), Err(RecycleError::ConstructionFailed));
    assert_eq!(s.current(), Some(1));
    assert_eq!(s.finish(second, true), Err(RecycleError::NotInProgress));
    let third = s.begin().unwrap();
    assert_eq!(s.finish(third, true), Ok(2));
}

#[test]
fn failure_response() {
    let r = RenderResponse::failure("boom".to_string());
    assert!(!r.success);
    assert_eq!(r.message, "boom");
}
