use vstd::prelude::*;

verus! {

/// What the health monitor does after waking.
#[derive(Clone, Copy, Debug, PartialEq, Eq, Structural)]
pub enum MonitorDecision {
    /// Nothing to do until the next wake-up.
    Idle,
    /// The handle is worn: recycle it.
    Recycle,
    /// Shutdown was requested: leave the loop.
    Exit,
}

/// The monitor's rule. A shutdown request wins over everything and is seen on
/// any wake-up; wear is judged only when the timer fired.
pub open spec fn decide(shutdown_requested: bool, timer_fired: bool, render_count: u64, threshold: u64) -> MonitorDecision {
    if shutdown_requested {
        MonitorDecision::Exit
    } else if timer_fired && render_count >= threshold {
        MonitorDecision::Recycle
    } else {
        MonitorDecision::Idle
    }
}

pub fn decide_wake(shutdown_requested: bool, timer_fired: bool, render_count: u64, threshold: u64) -> (r: MonitorDecision)
    ensures
        r == decide(shutdown_requested, timer_fired, render_count, threshold),
{
    if shutdown_requested {
        MonitorDecision::Exit
    } else if timer_fired && render_count >= threshold {
        MonitorDecision::Recycle
    } else {
        MonitorDecision::Idle
    }
}

} // verus!
