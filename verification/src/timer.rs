use vstd::prelude::*;

verus! {

/// Milliseconds between two ticks of the event source.
pub const TICK_INTERVAL_MS: u64 = 200;

/// How long the event source may block waiting for input: the remainder
/// of the tick interval, or zero once the interval has already elapsed,
/// so that a due tick is never delayed by the wait.
pub fn poll_timeout_ms(elapsed_ms: u64, interval_ms: u64) -> (r: u64)
    ensures
        elapsed_ms < interval_ms ==> r == interval_ms - elapsed_ms,
        elapsed_ms >= interval_ms ==> r == 0,
{
    if elapsed_ms >= interval_ms {
        0
    } else {
        interval_ms - elapsed_ms
    }
}

/// Whether the elapsed time since the last tick means a `Tick` event must
/// be emitted now.
pub fn tick_due(elapsed_ms: u64, interval_ms: u64) -> (r: bool)
    ensures
        r == (elapsed_ms >= interval_ms),
{
    elapsed_ms >= interval_ms
}

} // verus!
