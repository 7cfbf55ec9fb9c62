use vstd::prelude::*;

verus! {

/// Default ceiling, in seconds, on how long a sender waits for a receiver;
/// the same age bounds how long the sweeper lets an entry live.
pub const DEFAULT_MAX_WAIT_SECS: u64 = 24 * 60 * 60;

/// Default period, in seconds, between two runs of the expiry sweep.
pub const DEFAULT_SWEEP_INTERVAL_SECS: u64 = 300;

/// The configuration the core consumes: the maximum wait and the sweep
/// period, both in whole seconds.
#[derive(Clone, Copy, Debug, PartialEq, Eq, Structural)]
pub struct RelayConfig {
    pub max_wait_secs: u64,
    pub sweep_interval_secs: u64,
}

impl RelayConfig {
    /// The stock configuration: a 24-hour wait ceiling, a 5-minute sweep.
    pub fn standard() -> (r: RelayConfig)
        ensures
            r.max_wait_secs == DEFAULT_MAX_WAIT_SECS,
            r.sweep_interval_secs == DEFAULT_SWEEP_INTERVAL_SECS,
    {
        RelayConfig {
            max_wait_secs: DEFAULT_MAX_WAIT_SECS,
            sweep_interval_secs: DEFAULT_SWEEP_INTERVAL_SECS,
        }
    }
}

} // verus!
