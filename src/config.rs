use vstd::prelude::*;

verus! {

/// Permits in the admission gate.
pub const GATE_CAPACITY: usize = 2;
/// Renders a handle serves before the monitor recycles it.
pub const WEAR_THRESHOLD: u64 = 500;
/// Wait after loading markup, for fonts, animations and scripts to settle.
pub const SETTLE_WAIT_MS: u64 = 2000;
/// Longest wait for the readiness predicate.
pub const READY_TIMEOUT_MS: u64 = 5000;
/// Period of the health monitor.
pub const HEALTH_PERIOD_MS: u64 = 30000;
/// Pause before a replacement backend is started.
pub const RECYCLE_PAUSE_MS: u64 = 500;

/// Fixed tuning of a pool.
#[derive(Clone, Copy, Debug, PartialEq, Eq, Structural)]
pub struct PoolConfig {
    pub capacity: usize,
    pub wear_threshold: u64,
    pub settle_wait_ms: u64,
    pub ready_timeout_ms: u64,
    pub health_period_ms: u64,
    pub recycle_pause_ms: u64,
}

impl PoolConfig {
    /// The standard tuning with another gate capacity and wear threshold.
    pub fn with_limits(capacity: usize, wear_threshold: u64) -> (c: PoolConfig)
        ensures
            c == (PoolConfig {
                capacity,
                wear_threshold,
                settle_wait_ms: SETTLE_WAIT_MS,
                ready_timeout_ms: READY_TIMEOUT_MS,
                health_period_ms: HEALTH_PERIOD_MS,
                recycle_pause_ms: RECYCLE_PAUSE_MS,
            }),
    {
        PoolConfig {
            capacity,
            wear_threshold,
            settle_wait_ms: SETTLE_WAIT_MS,
            ready_timeout_ms: READY_TIMEOUT_MS,
            health_period_ms: HEALTH_PERIOD_MS,
            recycle_pause_ms: RECYCLE_PAUSE_MS,
        }
    }
}

impl Default for PoolConfig {
    fn default() -> (c: PoolConfig)
        ensures
            c == (PoolConfig {
                capacity: GATE_CAPACITY,
                wear_threshold: WEAR_THRESHOLD,
                settle_wait_ms: SETTLE_WAIT_MS,
                ready_timeout_ms: READY_TIMEOUT_MS,
                health_period_ms: HEALTH_PERIOD_MS,
                recycle_pause_ms: RECYCLE_PAUSE_MS,
            }),
    {
        PoolConfig::with_limits(GATE_CAPACITY, WEAR_THRESHOLD)
    }
}

} // verus!
