//! A token-bucket rate limiter with a lazily computed refill schedule.
//!
//! The bucket holds up to `capacity` tokens and earns `refill_amount` new
//! tokens each time `refill_interval` elapses. No background timer drives the
//! refill: every acquisition first catches the schedule up to the caller's
//! clock reading, then tries to take tokens from the balance. All operations
//! take the current time as a plain nanosecond count, so the whole state
//! machine is deterministic and carries exact contracts.

pub mod errors;
pub mod limiter;

pub use errors::Error;
pub use limiter::Builder;
pub use limiter::Parameters;
pub use limiter::Ratelimiter;
