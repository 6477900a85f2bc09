use vstd::prelude::*;
use crate::gate::{busy, busy_with, first_free, lemma_busy_bounds, lemma_busy_full, lemma_busy_update, lemma_first_free};
use crate::operation::OpView;
use crate::recycle::finish_result;
use crate::pool::{
    admit_next, admit_result, begin_recycle_next, finish_recycle_next, finish_render_next,
    poll_monitor_next, poll_monitor_result, shutdown_next, MonitorAction, PoolState,
};

verus! {

/// Every transition of the pool keeps it well formed, so each reachable
/// state satisfies the bound of `lemma_gate_bounds_handle_use`.
pub proof fn lemma_transitions_keep_wf(s: PoolState, o: OpView, id: u64, built: bool, now: u64, timer_fired: bool)
    requires
        s.wf(),
    ensures
        admit_next(s).wf(),
        finish_render_next(s, o, now).wf(),
        begin_recycle_next(s).wf(),
        finish_recycle_next(s, id, built, now).wf(),
        poll_monitor_next(s, timer_fired).wf(),
        shutdown_next(s).wf(),
{
    lemma_first_free(s.slots);
    if first_free(s.slots) == s.slots.len() {
        lemma_busy_full(s.slots);
    }
}

/// In a well-formed pool, neither the operations bound to one handle nor
/// those in flight overall can exceed the capacity. A new permit is
/// granted only while fewer than that many are held.
pub proof fn lemma_gate_bounds_handle_use(s: PoolState, h: u64)
    requires
        s.wf(),
    ensures
        busy_with(s.slots, h) <= busy(s.slots) <= s.config.capacity,
        admit_result(s) matches Ok(Some(_)) ==> busy(s.slots) < s.config.capacity
            && busy(admit_next(s).slots) == busy(s.slots) + 1,
{
    lemma_busy_bounds(s.slots, h);
    lemma_first_free(s.slots);
    if first_free(s.slots) == s.slots.len() {
        lemma_busy_full(s.slots);
    }
    if admit_result(s) is Ok && s.slot.current is Some && busy(s.slots) < s.slots.len() {
        lemma_busy_update(s.slots, first_free(s.slots), s.slot.current);
    }
}

/// The state after handing back `ops` in order.
pub open spec fn finish_all(s: PoolState, ops: Seq<OpView>, now: u64) -> PoolState
    decreases ops.len(),
{
    if ops.len() == 0 {
        s
    } else {
        finish_render_next(finish_all(s, ops.drop_last(), now), ops.last(), now)
    }
}

pub open spec fn distinct_slots(ops: Seq<OpView>) -> bool {
    forall|i: int, j: int| 0 <= i < j < ops.len() ==> ops[i].slot != ops[j].slot
}

proof fn lemma_finish_all(s: PoolState, ops: Seq<OpView>, now: u64)
    requires
        s.wf(),
        distinct_slots(ops),
        forall|i: int| 0 <= i < ops.len() ==> s.holds(#[trigger] ops[i]),
    ensures
        finish_all(s, ops, now).wf(),
        busy(finish_all(s, ops, now).slots) + ops.len() == busy(s.slots),
        forall|o: OpView| s.holds(o) && (forall|i: int| 0 <= i < ops.len() ==> (#[trigger] ops[i]).slot != o.slot)
            ==> finish_all(s, ops, now).holds(o),
    decreases ops.len(),
{
    if ops.len() > 0 {
        let init = ops.drop_last();
        assert forall|i: int| 0 <= i < init.len() implies s.holds(#[trigger] init[i]) by {
            assert(init[i] == ops[i]);
        }
        lemma_finish_all(s, init, now);
        let p = finish_all(s, init, now);
        let last = ops.last();
        assert(s.holds(ops[ops.len() - 1]));
        assert forall|i: int| 0 <= i < init.len() implies (#[trigger] init[i]).slot != last.slot by {
            assert(init[i] == ops[i]);
        }
        assert(p.holds(last));
        lemma_busy_update(p.slots, last.slot as int, None);
        assert forall|o: OpView| s.holds(o) && (forall|i: int| 0 <= i < ops.len() ==> (#[trigger] ops[i]).slot != o.slot)
            implies finish_all(s, ops, now).holds(o) by {
            assert forall|i: int| 0 <= i < init.len() implies (#[trigger] init[i]).slot != o.slot by {
                assert(init[i] == ops[i]);
            }
            assert(ops[ops.len() - 1].slot != o.slot);
        }
    }
}

/// Once every operation that holds a permit has been handed back, whatever
/// its outcome, no permit is outstanding: each is released exactly once.
pub proof fn lemma_all_returned_all_released(s: PoolState, ops: Seq<OpView>, now: u64)
    requires
        s.wf(),
        distinct_slots(ops),
        forall|i: int| 0 <= i < ops.len() ==> s.holds(#[trigger] ops[i]),
        ops.len() == busy(s.slots),
    ensures
        busy(finish_all(s, ops, now).slots) == 0,
{
    lemma_finish_all(s, ops, now);
}

/// When the render count has reached the wear threshold, a timer wake-up of
/// a running monitor starts a recycle, and once the replacement is published
/// the counters read zero and the handle identity is newer than before.
pub proof fn lemma_wear_triggers_recycle(s: PoolState, now: u64)
    requires
        s.wf(),
        s.monitor_running,
        !s.shutdown_requested,
        s.stats.render_count >= s.config.wear_threshold,
        s.slot.pending is None,
        s.slot.next_id < u64::MAX,
    ensures
        poll_monitor_result(s, true) == MonitorAction::Recycle(s.slot.next_id),
        ({
            let after = finish_recycle_next(poll_monitor_next(s, true), s.slot.next_id, true, now);
            &&& after.stats.render_count == 0
            &&& after.slot.current == Some(s.slot.next_id)
            &&& (s.slot.current matches Some(h) ==> h < s.slot.next_id)
        }),
{
}

/// Publishing a replacement leaves every operation admitted before it
/// holding its permit and bound to the handle it started with; an operation
/// admitted afterwards runs against the new handle only.
pub proof fn lemma_publication_spares_inflight(s: PoolState, o: OpView, id: u64, now: u64)
    requires
        s.wf(),
        s.holds(o),
        s.slot.pending == Some(id),
    ensures
        ({
            let after = finish_recycle_next(s, id, true, now);
            &&& after.slots == s.slots
            &&& after.holds(o)
            &&& after.slot.current == Some(id)
            &&& (admit_result(after) matches Ok(Some(a)) ==> a.1 == id)
            &&& busy(finish_render_next(after, o, now).slots) + 1 == busy(after.slots)
        }),
{
    lemma_busy_update(s.slots, o.slot as int, None);
}

/// Requesting shutdown `n` times.
pub open spec fn shutdown_times(s: PoolState, n: nat) -> PoolState
    decreases n,
{
    if n == 0 {
        s
    } else {
        shutdown_next(shutdown_times(s, (n - 1) as nat))
    }
}

/// Requesting shutdown any positive number of times has the effect of one
/// request: on its next wake-up the monitor exits and stops.
pub proof fn lemma_shutdown_idempotent(s: PoolState, n: nat, timer_fired: bool)
    requires
        n >= 1,
    ensures
        shutdown_times(s, n) == shutdown_next(s),
        poll_monitor_result(shutdown_times(s, n), timer_fired) == MonitorAction::Exit,
        !poll_monitor_next(shutdown_times(s, n), timer_fired).monitor_running,
    decreases n,
{
    assert(shutdown_times(s, 0) == s);
    if n > 1 {
        lemma_shutdown_idempotent(s, (n - 1) as nat, timer_fired);
        assert(shutdown_next(shutdown_next(s)) == shutdown_next(s));
    }
}

/// The render count never decreases except when a recycle publishes a
/// replacement, and that always brings it back to zero.
pub proof fn lemma_count_resets_only_on_recycle(s: PoolState, o: OpView, id: u64, built: bool, now: u64, timer_fired: bool)
    ensures
        admit_next(s).stats.render_count == s.stats.render_count,
        finish_render_next(s, o, now).stats.render_count >= s.stats.render_count,
        begin_recycle_next(s).stats.render_count == s.stats.render_count,
        poll_monitor_next(s, timer_fired).stats.render_count == s.stats.render_count,
        shutdown_next(s).stats.render_count == s.stats.render_count,
        finish_recycle_next(s, id, built, now).stats.render_count
            == if finish_result(s.slot, id, built) is Ok { 0 } else { s.stats.render_count },
{
}

} // verus!
