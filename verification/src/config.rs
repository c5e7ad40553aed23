use vstd::prelude::*;

verus! {

/// Upper bound on the number of records collected and dispatched in one cycle.
pub const BATCH_SIZE: usize = 3000;

/// Number of consecutive empty cycles after which the idle delay escalates
/// from the short to the long tier.
pub const IDLE_ESCALATION_THRESHOLD: u64 = 30;

/// Delay before the next cycle while idleness is below the escalation
/// threshold, in milliseconds.
pub const SHORT_DELAY_MS: u64 = 10;

/// Delay before the next cycle once idleness has reached the escalation
/// threshold, in milliseconds.
pub const LONG_DELAY_MS: u64 = 300;

/// Upper bound handed to the broker-level flush issued after each batch is
/// submitted, in milliseconds. The flush is best-effort: delivery handles are
/// awaited afterwards whatever its outcome.
pub const FLUSH_TIMEOUT_MS: u64 = 3000;

} // verus!
