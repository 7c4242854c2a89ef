//! Admission control for an HTTP service in front of a pool of workers.
//!
//! - [`request_throttler`] rejects requests for a while after the scheduler reports that all
//!   workers are busy.
//! - [`rate_limiter`] admits requests for a model while the utilization of its key/value cache
//!   stays at or below a threshold.
//!
//! Both are sequential: a caller that shares one among threads puts it behind a lock.
//! The operations take the time, and the results of floating-point arithmetic, from outside;
//! what they decide is proved.
pub mod clock;
pub mod utilization;
pub mod rate_limiter;
pub mod rate_limiter_behaviour;
pub mod rate_limiter_laws;
pub mod request_throttler;
pub mod request_throttler_behaviour;
pub mod request_throttler_laws;
