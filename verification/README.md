# service_throttle

Admission control for an HTTP service in front of a pool of workers, verified with Verus.

- `src/request_throttler.rs`: rejects requests for a configured time after all workers were
  reported busy. `src/request_throttler_laws.rs` proves, among other things, that requests are
  rejected exactly while such a report is less than that time ago, or while a throttling window
  lasts that monitoring found. Its premises are that events are handled in the order of the clock
  and that no sleep ends early.
- `src/rate_limiter.rs`: admits requests for a model while its cache utilization is at or below a
  threshold. `src/rate_limiter_laws.rs` holds what is proved of it as a whole.
- `src/utilization.rs`: double-precision amounts, held as bit patterns and ordered by them.
- `src/clock.rs`: what is taken on trust of `std::time`.
- `app/`: both services behind locks, with floating-point arithmetic, listening to a message bus.

The library is sequential and reads nothing but the clock. The two monitoring tasks are step
functions in `src/`: `app/` waits for an event, hands it over, and does what the returned action
says.
