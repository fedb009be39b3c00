use vstd::prelude::*;

verus! {

/// Configuration errors reported by the builder and the runtime setters.
///
/// Every variant is rejected synchronously and leaves the limiter unchanged;
/// none is fatal and none is retried internally.
#[derive(Debug, Clone, Copy, PartialEq, Eq, Structural)]
pub enum Error {
    /// The requested balance exceeds the configured capacity.
    AvailableTokensTooHigh,
    /// The requested capacity is below the refill amount.
    MaxTokensTooLow,
    /// The requested refill amount exceeds the capacity.
    RefillAmountTooHigh,
    /// The requested refill interval does not fit in 64 bits of nanoseconds.
    RefillIntervalTooLong,
}

} // verus!
