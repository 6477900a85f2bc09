use vstd::prelude::*;
use crate::config::PoolConfig;
use crate::gate::{busy, first_free, lemma_first_free, ConcurrencyGate};
use crate::monitor::{decide, decide_wake, MonitorDecision};
use crate::operation::{finished_result, outcome_view, OpStage, OpView, RenderError, RenderOperation};
use crate::recycle::{
    begin_next, begin_result, finish_next, finish_result, HandleSlot, RecycleError, SlotState,
};
use crate::shutdown::ShutdownCoordinator;
use crate::stats::{bumped, UsageStats};

verus! {

/// What the monitor loop does after a wake-up.
#[derive(Clone, Copy, Debug, PartialEq, Eq, Structural)]
pub enum MonitorAction {
    /// Sleep until the next wake-up.
    Idle,
    /// Build a replacement backend and finish the recycle with this identity.
    Recycle(u64),
    /// Leave the loop.
    Exit,
}

/// Abstract state of a pool.
pub struct PoolState {
    /// Gate slots: each held one carries the identity of its operation's handle.
    pub slots: Seq<Option<u64>>,
    pub stats: UsageStats,
    pub slot: SlotState,
    pub monitor_running: bool,
    pub shutdown_requested: bool,
    pub config: PoolConfig,
}

impl PoolState {
    pub open spec fn wf(self) -> bool {
        &&& self.slots.len() == self.config.capacity
        &&& self.slot.wf()
    }

    /// Whether the operation `o` still holds its permit in this state.
    pub open spec fn holds(self, o: OpView) -> bool {
        o.slot < self.slots.len() && self.slots[o.slot as int] == Some(o.handle)
    }
}

pub open spec fn initial(config: PoolConfig, now: u64) -> PoolState {
    PoolState {
        slots: Seq::new(config.capacity as nat, |i: int| None::<u64>),
        stats: UsageStats { render_count: 0, last_activity: now },
        slot: SlotState { current: None, next_id: 1, pending: None },
        monitor_running: true,
        shutdown_requested: false,
        config,
    }
}

/// Admission: fail fast without a handle, wait while every permit is held,
/// otherwise take the first free permit for the published handle.
pub open spec fn admit_next(s: PoolState) -> PoolState {
    match s.slot.current {
        Some(h) => if busy(s.slots) < s.slots.len() {
            PoolState { slots: s.slots.update(first_free(s.slots), Some(h)), ..s }
        } else {
            s
        },
        None => s,
    }
}

/// Gate slot and handle of an admitted operation; `Ok(None)` means wait.
pub open spec fn admit_result(s: PoolState) -> Result<Option<(usize, u64)>, RenderError> {
    match s.slot.current {
        Some(h) => if busy(s.slots) < s.slots.len() {
            Ok(Some((first_free(s.slots) as usize, h)))
        } else {
            Ok(None)
        },
        None => Err(RenderError::BackendUnavailable),
    }
}

/// Handing back an operation frees its permit; a success counts toward the
/// wear of the handle only while that handle is still the published one.
pub open spec fn finish_render_next(s: PoolState, o: OpView, now: u64) -> PoolState {
    if s.holds(o) {
        PoolState {
            slots: s.slots.update(o.slot as int, None),
            stats: if o.outcome matches Some(Ok(_)) && s.slot.current == Some(o.handle) {
                UsageStats { render_count: bumped(s.stats.render_count), last_activity: now }
            } else {
                s.stats
            },
            ..s
        }
    } else {
        s
    }
}

pub open spec fn begin_recycle_next(s: PoolState) -> PoolState {
    PoolState { slot: begin_next(s.slot), ..s }
}

/// A published replacement resets the usage counters.
pub open spec fn finish_recycle_next(s: PoolState, id: u64, built: bool, now: u64) -> PoolState {
    PoolState {
        slot: finish_next(s.slot, id, built),
        stats: if finish_result(s.slot, id, built) is Ok {
            UsageStats { render_count: 0, last_activity: now }
        } else {
            s.stats
        },
        ..s
    }
}

pub open spec fn monitor_decision(s: PoolState, timer_fired: bool) -> MonitorDecision {
    if !s.monitor_running {
        MonitorDecision::Exit
    } else {
        decide(s.shutdown_requested, timer_fired, s.stats.render_count, s.config.wear_threshold)
    }
}

pub open spec fn poll_monitor_next(s: PoolState, timer_fired: bool) -> PoolState {
    match monitor_decision(s, timer_fired) {
        MonitorDecision::Exit => PoolState { monitor_running: false, ..s },
        MonitorDecision::Recycle => begin_recycle_next(s),
        MonitorDecision::Idle => s,
    }
}

pub open spec fn poll_monitor_result(s: PoolState, timer_fired: bool) -> MonitorAction {
    match monitor_decision(s, timer_fired) {
        MonitorDecision::Exit => MonitorAction::Exit,
        MonitorDecision::Recycle => match begin_result(s.slot) {
            Some(id) => MonitorAction::Recycle(id),
            None => MonitorAction::Idle,
        },
        MonitorDecision::Idle => MonitorAction::Idle,
    }
}

pub open spec fn shutdown_next(s: PoolState) -> PoolState {
    PoolState { shutdown_requested: true, ..s }
}

/// The pool of one rendering backend slot: admission gate, usage counters,
/// handle slot, monitor state and shutdown flag. A runtime keeps it behind a
/// lock, performs the outside work each transition asks for, and reports back.
pub struct RenderPool {
    config: PoolConfig,
    gate: ConcurrencyGate,
    stats: UsageStats,
    slot: HandleSlot,
    monitor_running: bool,
    shutdown: ShutdownCoordinator,
}

impl RenderPool {
    pub closed spec fn view(&self) -> PoolState {
        PoolState {
            slots: self.gate.view(),
            stats: self.stats,
            slot: self.slot.view(),
            monitor_running: self.monitor_running,
            shutdown_requested: self.shutdown.view(),
            config: self.config,
        }
    }

    /// A pool with no handle yet; the first handle is published by a recycle.
    pub fn new(config: PoolConfig, now: u64) -> (p: RenderPool)
        ensures
            p.view() == initial(config, now),
            p.view().wf(),
    {
        RenderPool {
            config,
            gate: ConcurrencyGate::new(config.capacity),
            stats: UsageStats::new(now),
            slot: HandleSlot::new(),
            monitor_running: true,
            shutdown: ShutdownCoordinator::new(),
        }
    }

    pub fn config(&self) -> (r: PoolConfig)
        ensures
            r == self.view().config,
    {
        self.config
    }

    /// Render count and last activity time, read together.
    pub fn snapshot(&self) -> (r: (u64, u64))
        ensures
            r == (self.view().stats.render_count, self.view().stats.last_activity),
    {
        self.stats.snapshot()
    }

    /// Identity of the published handle.
    pub fn current_handle(&self) -> (r: Option<u64>)
        ensures
            r == self.view().slot.current,
    {
        self.slot.current()
    }

    /// Whether a recycle is under way.
    pub fn recycling(&self) -> (r: bool)
        ensures
            r == self.view().slot.pending is Some,
    {
        self.slot.pending().is_some()
    }

    /// Permits currently held.
    pub fn outstanding(&self) -> (r: usize)
        ensures
            r == busy(self.view().slots),
    {
        self.gate.outstanding()
    }

    pub fn monitor_running(&self) -> (r: bool)
        ensures
            r == self.view().monitor_running,
    {
        self.monitor_running
    }

    pub fn shutdown_requested(&self) -> (r: bool)
        ensures
            r == self.view().shutdown_requested,
    {
        self.shutdown.is_requested()
    }

    /// Admits a render request. `Err(BackendUnavailable)` when no handle is
    /// published, `Ok(None)` while all permits are held (try again after a
    /// release), otherwise an operation bound to the published handle.
    pub fn begin_render(&mut self) -> (r: Result<Option<RenderOperation>, RenderError>)
        requires
            old(self).view().wf(),
        ensures
            final(self).view() == admit_next(old(self).view()),
            final(self).view().wf(),
            r is Err <==> admit_result(old(self).view()) is Err,
            r matches Err(e) ==> admit_result(old(self).view()) == Err::<Option<(usize, u64)>, RenderError>(e),
            r matches Ok(None) ==> admit_result(old(self).view()) == Ok::<Option<(usize, u64)>, RenderError>(None),
            r matches Ok(Some(op)) ==> admit_result(old(self).view()) == Ok::<Option<(usize, u64)>, RenderError>(Some((op.view().slot, op.view().handle)))
                && op.view().stage == OpStage::CreateSurface && op.view().outcome is None,
    {
        match self.slot.current() {
            None => Err(RenderError::BackendUnavailable),
            Some(h) => {
                proof {
                    lemma_first_free(self.gate.view());
                }
                match self.gate.try_acquire(h) {
                    None => Ok(None),
                    Some(t) => Ok(Some(RenderOperation::start(t))),
                }
            },
        }
    }

    /// Takes back an operation: its permit is released whatever happened,
    /// and its result is returned.
    pub fn finish_render(&mut self, op: RenderOperation, now: u64) -> (r: Result<Vec<u8>, RenderError>)
        requires
            old(self).view().wf(),
        ensures
            final(self).view() == finish_render_next(old(self).view(), op.view(), now),
            final(self).view().wf(),
            outcome_view(Some(r)) == finished_result(op.view()),
    {
        let h = op.handle();
        let (t, res) = op.into_parts();
        let success = res.is_ok();
        let released = self.gate.release(t);
        if released && success && self.slot.current() == Some(h) {
            self.stats.record_success(now);
        }
        res
    }

    /// Starts a recycle on request, returning the identity reserved for the
    /// replacement; `None` while another recycle is under way.
    pub fn begin_recycle(&mut self) -> (r: Option<u64>)
        requires
            old(self).view().wf(),
        ensures
            final(self).view() == begin_recycle_next(old(self).view()),
            final(self).view().wf(),
            r == begin_result(old(self).view().slot),
    {
        self.slot.begin()
    }

    /// Ends the recycle `id`. When the replacement was `built` it is
    /// published and the counters reset; otherwise the old handle stays.
    pub fn finish_recycle(&mut self, id: u64, built: bool, now: u64) -> (r: Result<u64, RecycleError>)
        requires
            old(self).view().wf(),
        ensures
            final(self).view() == finish_recycle_next(old(self).view(), id, built, now),
            final(self).view().wf(),
            r == finish_result(old(self).view().slot, id, built),
    {
        let r = self.slot.finish(id, built);
        if r.is_ok() {
            self.stats.reset(now);
        }
        r
    }

    /// One wake-up of the health monitor, by its timer or by the shutdown
    /// signal. Shutdown stops the monitor; a worn handle starts a recycle.
    pub fn poll_monitor(&mut self, timer_fired: bool) -> (r: MonitorAction)
        requires
            old(self).view().wf(),
        ensures
            final(self).view() == poll_monitor_next(old(self).view(), timer_fired),
            final(self).view().wf(),
            r == poll_monitor_result(old(self).view(), timer_fired),
    {
        if !self.monitor_running {
            return MonitorAction::Exit;
        }
        let d = decide_wake(self.shutdown.is_requested(), timer_fired, self.stats.render_count, self.config.wear_threshold);
        match d {
            MonitorDecision::Exit => {
                self.monitor_running = false;
                MonitorAction::Exit
            },
            MonitorDecision::Recycle => match self.slot.begin() {
                Some(id) => MonitorAction::Recycle(id),
                None => MonitorAction::Idle,
            },
            MonitorDecision::Idle => MonitorAction::Idle,
        }
    }

    /// Requests shutdown. Returns `true` only on the first call, the one that
    /// should wake the monitor; operations in flight are not disturbed.
    pub fn initiate_shutdown(&mut self) -> (first: bool)
        requires
            old(self).view().wf(),
        ensures
            final(self).view() == shutdown_next(old(self).view()),
            final(self).view().wf(),
            first == !old(self).view().shutdown_requested,
    {
        self.shutdown.initiate_shutdown()
    }
}

} // verus!
