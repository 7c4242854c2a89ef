//! What holds of request throttling as a whole.
use std::time::Instant;
use vstd::prelude::*;

use crate::clock;
use crate::request_throttler;
use crate::request_throttler::{HttpServiceRequestThrottler, MonitorEvent, ThrottlingView};

verus! {

/// A throttler that was not given a time window never rejects a request.
pub proof fn law_disabled_never_throttled(throttler: HttpServiceRequestThrottler, now: int)
    requires
        !throttler.is_enabled,
    ensures
        !throttler.throttled_at(now),
{
}

/// An enabled throttler rejects exactly when its state is throttled.
pub proof fn law_enabled_follows_state(throttler: HttpServiceRequestThrottler, now: int)
    requires
        throttler.is_enabled,
    ensures
        throttler.throttled_at(now) == throttler.request_throttling_state@.throttled_at(now),
{
}

/// Throttling lasts from its activation for exactly the configured duration.
pub proof fn law_window(state: ThrottlingView, activation: int, now: int)
    requires
        activation <= now,
    ensures
        state.activated(activation).throttled_at(now) <==> now < activation + state.duration,
{
}

/// Recovery is final: a state that is no longer throttled stays so until it is activated again.
pub proof fn law_expiry_is_final(state: ThrottlingView, now: int, later: int)
    requires
        now <= later,
        !state.throttled_at(now),
    ensures
        !state.throttled_at(later),
{
}

/// Only the latest activation counts: activating a state again starts its duration anew.
pub proof fn law_activation_restarts_window(state: ThrottlingView, first: int, second: int)
    ensures
        state.activated(first).activated(second) == state.activated(second),
{
}

/// A cleared state is not throttled.
pub proof fn law_cleared_not_throttled(state: ThrottlingView, now: int)
    ensures
        !state.cleared().throttled_at(now),
{
}

/// To trigger an enabled throttler is to report all workers busy at that moment: requests are
/// rejected from there for exactly the configured duration, whatever the state was before.
pub proof fn law_trigger_is_busy_report(
    throttler: HttpServiceRequestThrottler,
    trigger: Instant,
    now: int,
)
    requires
        throttler.is_enabled,
        clock::instant_nanos(trigger) <= now,
    ensures
        throttler.triggered(trigger).is_enabled,
        throttler.triggered(trigger).request_throttling_state@
            == throttler.request_throttling_state@.after_event(
            MonitorEvent::AllWorkersBusy,
            clock::instant_nanos(trigger),
        ),
        throttler.triggered(trigger).throttled_at(now) <==> now < clock::instant_nanos(trigger)
            + throttler.request_throttling_state@.duration,
{
}

/// To trigger a disabled throttler changes nothing.
pub proof fn law_trigger_leaves_disabled_throttler(
    throttler: HttpServiceRequestThrottler,
    trigger: Instant,
)
    requires
        !throttler.is_enabled,
    ensures
        throttler.triggered(trigger) == throttler,
{
}

/// Clearing undoes an activation.
pub proof fn law_clear_undoes_activation(state: ThrottlingView, now: int)
    ensures
        state.activated(now).cleared() == state.cleared(),
        state.start is None ==> state.activated(now).cleared() == state,
{
}

/// To clear a state once its duration has passed changes no later answer.
pub proof fn law_clear_after_window_unobservable(
    state: ThrottlingView,
    activation: int,
    clearing: int,
    now: int,
)
    requires
        activation + state.duration <= clearing <= now,
    ensures
        state.activated(activation).cleared().throttled_at(now) == state.activated(
            activation,
        ).throttled_at(now),
{
}

/// Nothing that the monitor does changes the throttling duration.
pub proof fn law_events_keep_duration(state: ThrottlingView, event: MonitorEvent, now: int)
    ensures
        state.after_event(event, now).duration == state.duration,
{
}

/// A message that cannot be decoded changes neither the state nor the sleep.
pub proof fn law_undecodable_message_ignored(state: ThrottlingView, now: int)
    ensures
        state.after_event(MonitorEvent::UndecodableMessage, now) == state,
        request_throttler::sleep_after(MonitorEvent::UndecodableMessage, state.duration) is None,
{
}

/// The state once the monitor has handled the events of `trace`, each at its position on the
/// clock, one after the other.
pub open spec fn run(state: ThrottlingView, trace: Seq<(int, MonitorEvent)>) -> ThrottlingView
    decreases trace.len(),
{
    if trace.len() == 0 {
        state
    } else {
        run(state, trace.drop_last()).after_event(trace.last().1, trace.last().0)
    }
}

/// The position on the clock at which the sleep ends that was set last in `trace`, unless that is
/// the sleep with which monitoring began.
pub open spec fn sleep_end(duration: nat, trace: Seq<(int, MonitorEvent)>) -> Option<int>
    decreases trace.len(),
{
    if trace.len() == 0 {
        None
    } else {
        match request_throttler::sleep_after(trace.last().1, duration) {
            Some(sleep) => Some(trace.last().0 + sleep),
            None => sleep_end(duration, trace.drop_last()),
        }
    }
}

/// The positions in `trace` never go back.
pub open spec fn in_order(trace: Seq<(int, MonitorEvent)>) -> bool {
    forall|i: int, j: int|
        0 <= i <= j < trace.len() ==> (#[trigger] trace[i]).0 <= (#[trigger] trace[j]).0
}

/// No sleep in `trace` ends before its time, and the sleep with which monitoring began does not
/// end within the throttling window that `state` is in.
pub open spec fn sleeps_in_full(state: ThrottlingView, trace: Seq<(int, MonitorEvent)>) -> bool {
    forall|i: int|
        0 <= i < trace.len() && (#[trigger] trace[i]).1 is SleepElapsed ==> match sleep_end(
            state.duration,
            trace.take(i),
        ) {
            Some(end) => end <= trace[i].0,
            None => !state.throttled_at(trace[i].0),
        }
}

/// The state was not activated after the first event of `trace`.
pub open spec fn precedes(state: ThrottlingView, trace: Seq<(int, MonitorEvent)>) -> bool {
    state.start matches Some(start) ==> trace.len() > 0 ==> start <= trace[0].0
}

/// Whether all workers were reported busy less than `duration` before `now`.
pub open spec fn recently_busy(
    duration: nat,
    trace: Seq<(int, MonitorEvent)>,
    now: int,
) -> bool {
    exists|i: int|
        0 <= i < trace.len() && (#[trigger] trace[i]).1 is AllWorkersBusy && now - trace[i].0
            < duration
}

/// Monitoring keeps the throttling duration, whatever happens.
pub proof fn law_run_keeps_duration(state: ThrottlingView, trace: Seq<(int, MonitorEvent)>)
    ensures
        run(state, trace).duration == state.duration,
    decreases trace.len(),
{
    if trace.len() > 0 {
        law_run_keeps_duration(state, trace.drop_last());
    }
}

/// While throttling is active, the sleep is set to end with the throttling window; and until a
/// sleep is set, the state is as monitoring found it.
pub proof fn law_sleep_ends_with_window(state: ThrottlingView, trace: Seq<(int, MonitorEvent)>)
    ensures
        match sleep_end(state.duration, trace) {
            Some(end) => run(state, trace).start matches Some(start) ==> end == start
                + state.duration,
            None => run(state, trace) == state,
        },
    decreases trace.len(),
{
    if trace.len() > 0 {
        law_sleep_ends_with_window(state, trace.drop_last());
    }
}

/// Where events are handled in the order of the clock and no sleep ends early, requests are
/// rejected exactly while a report that all workers are busy is less than the throttling duration
/// ago, or while the window lasts that monitoring found the state in.
pub proof fn law_throttled_iff_recently_busy(
    state: ThrottlingView,
    trace: Seq<(int, MonitorEvent)>,
    now: int,
)
    requires
        precedes(state, trace),
        in_order(trace),
        sleeps_in_full(state, trace),
        trace.len() > 0 ==> trace.last().0 <= now,
    ensures
        run(state, trace).throttled_at(now) <==> recently_busy(state.duration, trace, now)
            || state.throttled_at(now),
    decreases trace.len(),
{
    if trace.len() > 0 {
        let before = trace.drop_last();
        let (at, event) = trace.last();
        assert(forall|i: int| 0 <= i < before.len() ==> before[i] == trace[i]);
        assert(forall|i: int| 0 <= i < before.len() ==> before.take(i) == trace.take(i));
        assert(trace.take(before.len() as int) == before);
        assert(trace[before.len() as int] == (at, event));
        law_throttled_iff_recently_busy(state, before, at);
        law_throttled_iff_recently_busy(state, before, now);
        law_run_keeps_duration(state, before);
        law_sleep_ends_with_window(state, before);
        match event {
            MonitorEvent::AllWorkersBusy => {
                assert(trace[0].0 <= trace[trace.len() - 1].0);
                if recently_busy(state.duration, trace, now) {
                    let i = choose|i: int|
                        0 <= i < trace.len() && (#[trigger] trace[i]).1 is AllWorkersBusy && now
                            - trace[i].0 < state.duration;
                    assert(trace[i].0 <= trace[trace.len() - 1].0);
                }
            },
            MonitorEvent::SleepElapsed => {
                assert(!run(state, before).throttled_at(at));
                law_expiry_is_final(state, at, now);
                assert forall|i: int|
                    0 <= i < trace.len() && (#[trigger] trace[i]).1 is AllWorkersBusy implies now
                    - trace[i].0 >= state.duration by {
                    assert(before[i] == trace[i]);
                    assert(at - before[i].0 >= state.duration);
                }
            },
            MonitorEvent::UndecodableMessage | MonitorEvent::Cancelled => {
                if recently_busy(state.duration, trace, now) {
                    let i = choose|i: int|
                        0 <= i < trace.len() && (#[trigger] trace[i]).1 is AllWorkersBusy && now
                            - trace[i].0 < state.duration;
                    assert(before[i] == trace[i]);
                }
            },
        }
    }
}

} // verus!
