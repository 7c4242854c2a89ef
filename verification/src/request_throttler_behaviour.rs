//! What the operations of the request throttler do, stated on what goes into them and what comes
//! out of them: fields, readings of the clock and answers.
use std::time::{Duration, Instant};
use vstd::prelude::*;

use crate::clock;
use crate::request_throttler::{
    HttpServiceRequestThrottler, MonitorAction, MonitorEvent, RequestThrottlingMonitor,
    ThrottlingState,
};

verus! {

/// A state that is asked at `now` answers yes exactly while the configured duration, all of it,
/// has not passed since the recorded start. Without a start it answers no.
pub proof fn law_state_answer(state: ThrottlingState, now: Instant, answer: bool)
    requires
        call_ensures(ThrottlingState::is_throttled_at, (&state, now), answer),
    ensures
        state.request_throttling_start is None ==> !answer,
        forall|start: Instant|
            #![trigger clock::instant_nanos(start)]
            state.request_throttling_start == Some(start) && clock::instant_nanos(start)
                <= clock::instant_nanos(now) ==> (answer <==> clock::instant_nanos(now)
                < clock::instant_nanos(start) + clock::duration_nanos(
                state.request_throttling_duration,
            )),
        forall|start: Instant|
            #![trigger clock::instant_nanos(start)]
            state.request_throttling_start == Some(start) && clock::instant_nanos(now)
                < clock::instant_nanos(start) ==> (answer <==> 0 < clock::duration_nanos(
                state.request_throttling_duration,
            )),
{
}

/// A throttler answers as its state does where it is enabled, and no otherwise.
pub proof fn law_throttler_answer(
    throttler: HttpServiceRequestThrottler,
    now: Instant,
    answer: bool,
    state_answer: bool,
)
    requires
        call_ensures(HttpServiceRequestThrottler::is_throttled_at, (&throttler, now), answer),
        call_ensures(
            ThrottlingState::is_throttled_at,
            (&throttler.request_throttling_state, now),
            state_answer,
        ),
    ensures
        answer == (throttler.is_enabled && state_answer),
{
}

/// The time that the model of a state and of a throttler goes by is that of the fields.
pub proof fn law_model_is_that_of_the_fields(
    throttler: HttpServiceRequestThrottler,
    start: Instant,
    now: int,
)
    requires
        throttler.request_throttling_state.request_throttling_start == Some(start),
        clock::instant_nanos(start) <= now,
    ensures
        throttler.request_throttling_state@.throttled_at(now) <==> now < clock::instant_nanos(start)
            + clock::duration_nanos(
            throttler.request_throttling_state.request_throttling_duration,
        ),
        throttler.throttled_at(now) <==> throttler.is_enabled && now < clock::instant_nanos(start)
            + clock::duration_nanos(
            throttler.request_throttling_state.request_throttling_duration,
        ),
        throttler.request_throttling_state@.start == Some(clock::instant_nanos(start)),
        throttler.request_throttling_state@.duration == clock::duration_nanos(
            throttler.request_throttling_state.request_throttling_duration,
        ),
{
}

/// A state that is asked at the present answers by a reading that the clock gave: yes exactly
/// while the configured duration has not passed from the recorded start to that reading.
pub proof fn law_present_state_answer(state: ThrottlingState, start: Instant, answer: bool)
    requires
        call_ensures(ThrottlingState::is_throttled, (&state,), answer),
        state.request_throttling_start == Some(start),
    ensures
        exists|now: Instant| #[trigger]
            call_ensures(Instant::now, (), now) && (clock::instant_nanos(start)
                <= clock::instant_nanos(now) ==> (answer <==> clock::instant_nanos(now)
                < clock::instant_nanos(start) + clock::duration_nanos(
                state.request_throttling_duration,
            ))) && (clock::instant_nanos(now) < clock::instant_nanos(start) ==> (answer <==> 0
                < clock::duration_nanos(state.request_throttling_duration))),
{
    let now = choose|now: Instant| #[trigger]
        call_ensures(Instant::now, (), now) && answer == state@.throttled_at(
            clock::instant_nanos(now),
        );
    assert(call_ensures(Instant::now, (), now));
}

/// An enabled throttler that is asked at the present answers by a reading that the clock gave: yes
/// exactly while the configured duration has not passed from the recorded start to that reading.
pub proof fn law_present_throttler_answer(
    throttler: HttpServiceRequestThrottler,
    start: Instant,
    answer: bool,
)
    requires
        call_ensures(HttpServiceRequestThrottler::is_throttled, (&throttler,), answer),
        throttler.request_throttling_state.request_throttling_start == Some(start),
    ensures
        !throttler.is_enabled ==> !answer,
        throttler.is_enabled ==> exists|now: Instant| #[trigger]
            call_ensures(Instant::now, (), now) && (clock::instant_nanos(start)
                <= clock::instant_nanos(now) ==> (answer <==> clock::instant_nanos(now)
                < clock::instant_nanos(start) + clock::duration_nanos(
                throttler.request_throttling_state.request_throttling_duration,
            ))) && (clock::instant_nanos(now) < clock::instant_nanos(start) ==> (answer <==> 0
                < clock::duration_nanos(
                throttler.request_throttling_state.request_throttling_duration,
            ))),
{
    let now = choose|now: Instant| #[trigger]
        call_ensures(Instant::now, (), now) && answer == throttler.throttled_at(
            clock::instant_nanos(now),
        );
    assert(call_ensures(Instant::now, (), now));
}

/// What was never activated is not throttled at the present.
pub proof fn law_inactive_is_not_throttled(
    throttler: HttpServiceRequestThrottler,
    answer: bool,
    state_answer: bool,
)
    requires
        throttler.request_throttling_state.request_throttling_start is None,
        call_ensures(HttpServiceRequestThrottler::is_throttled, (&throttler,), answer),
        call_ensures(
            ThrottlingState::is_throttled,
            (&throttler.request_throttling_state,),
            state_answer,
        ),
    ensures
        !answer,
        !state_answer,
{
}

/// A new state has no start and the given duration; the default duration is five seconds, and a
/// clone has the same fields.
pub proof fn law_new_states(
    duration: Duration,
    state: ThrottlingState,
    default_state: ThrottlingState,
    copy: ThrottlingState,
)
    requires
        call_ensures(ThrottlingState::new, (duration,), state),
        call_ensures(<ThrottlingState as Default>::default, (), default_state),
        call_ensures(<ThrottlingState as Clone>::clone, (&state,), copy),
    ensures
        state.request_throttling_start is None,
        state.request_throttling_duration == duration,
        default_state.request_throttling_start is None,
        clock::duration_nanos(default_state.request_throttling_duration) == 5_000_000_000,
        copy == state,
{
}

/// To activate a state at `activation` starts its whole duration there, whatever it was before:
/// asked at or after that, it answers yes exactly before the duration has passed.
pub proof fn law_activation_starts_the_duration(
    state: &mut ThrottlingState,
    activation: Instant,
    now: Instant,
    answer: bool,
)
    requires
        call_ensures(ThrottlingState::set_throttling_at, (state, activation), ()),
        call_ensures(ThrottlingState::is_throttled_at, (&*final(state), now), answer),
        clock::instant_nanos(activation) <= clock::instant_nanos(now),
    ensures
        final(state).request_throttling_start == Some(activation),
        final(state).request_throttling_duration == old(state).request_throttling_duration,
        answer <==> clock::instant_nanos(now) < clock::instant_nanos(activation)
            + clock::duration_nanos(old(state).request_throttling_duration),
{
}

/// To activate a state at the present records a reading that the clock gave, and keeps the
/// duration.
pub proof fn law_activation_records_the_present(state: &mut ThrottlingState)
    requires
        call_ensures(ThrottlingState::set_throttling, (state,), ()),
    ensures
        final(state).request_throttling_start is Some,
        call_ensures(Instant::now, (), final(state).request_throttling_start->0),
        final(state).request_throttling_duration == old(state).request_throttling_duration,
{
}

/// A cleared state has no start, keeps its duration, and answers no at any reading.
pub proof fn law_clearing_ends_throttling(state: &mut ThrottlingState, now: Instant, answer: bool)
    requires
        call_ensures(ThrottlingState::clear_throttling, (state,), ()),
        call_ensures(ThrottlingState::is_throttled_at, (&*final(state), now), answer),
    ensures
        final(state).request_throttling_start is None,
        final(state).request_throttling_duration == old(state).request_throttling_duration,
        !answer,
{
}

/// A new throttler is enabled exactly where a window is given, which is then its duration. It is
/// not active yet, and a disabled one has the default duration.
pub proof fn law_new_throttler(window: Option<Duration>, throttler: HttpServiceRequestThrottler)
    requires
        call_ensures(HttpServiceRequestThrottler::new, (window,), throttler),
    ensures
        throttler.is_enabled <==> window is Some,
        throttler.request_throttling_state.request_throttling_start is None,
        window is Some ==> throttler.request_throttling_state.request_throttling_duration
            == window->0,
        window is None ==> clock::duration_nanos(
            throttler.request_throttling_state.request_throttling_duration,
        ) == 5_000_000_000,
{
}

/// An enabled throttler that is triggered answers yes from there exactly for its whole duration,
/// whatever its state was; a disabled one is left as it is, and answers no.
pub proof fn law_trigger_starts_the_duration(
    throttler: &mut HttpServiceRequestThrottler,
    trigger: Instant,
    now: Instant,
    answer: bool,
)
    requires
        call_ensures(
            HttpServiceRequestThrottler::trigger_throttler_for_test_at,
            (throttler, trigger),
            (),
        ),
        call_ensures(
            HttpServiceRequestThrottler::is_throttled_at,
            (&*final(throttler), now),
            answer,
        ),
        clock::instant_nanos(trigger) <= clock::instant_nanos(now),
    ensures
        final(throttler).is_enabled == old(throttler).is_enabled,
        final(throttler).request_throttling_state.request_throttling_duration == old(throttler).request_throttling_state.request_throttling_duration,
        old(throttler).is_enabled ==> final(throttler).request_throttling_state.request_throttling_start == Some(trigger),
        old(throttler).is_enabled ==> (answer <==> clock::instant_nanos(now) < clock::instant_nanos(
            trigger,
        ) + clock::duration_nanos(
            old(throttler).request_throttling_state.request_throttling_duration,
        )),
        !old(throttler).is_enabled ==> *final(throttler) == *old(throttler) && !answer,
{
}

/// To trigger an enabled throttler at the present records a reading that the clock gave; a
/// disabled one is left as it is.
pub proof fn law_trigger_records_the_present(throttler: &mut HttpServiceRequestThrottler)
    requires
        call_ensures(HttpServiceRequestThrottler::trigger_throttler_for_test, (throttler,), ()),
    ensures
        final(throttler).is_enabled == old(throttler).is_enabled,
        final(throttler).request_throttling_state.request_throttling_duration == old(throttler).request_throttling_state.request_throttling_duration,
        old(throttler).is_enabled ==> {
            &&& final(throttler).request_throttling_state.request_throttling_start is Some
            &&& call_ensures(
                Instant::now,
                (),
                final(throttler).request_throttling_state.request_throttling_start->0,
            )
        },
        !old(throttler).is_enabled ==> *final(throttler) == *old(throttler),
{
}

/// There is a monitor exactly for an enabled throttler, and it goes by the throttler's duration.
pub proof fn law_monitor_is_for_enabled_throttlers(
    throttler: HttpServiceRequestThrottler,
    monitor: Option<RequestThrottlingMonitor>,
)
    requires
        call_ensures(HttpServiceRequestThrottler::start_monitoring, (&throttler,), monitor),
    ensures
        monitor is Some <==> throttler.is_enabled,
        monitor is Some ==> monitor->0.request_throttling_duration
            == throttler.request_throttling_state.request_throttling_duration,
{
}

/// A monitor goes on exactly where the subscription succeeded, and then sleeps for the longest
/// duration there is.
pub proof fn law_monitor_needs_a_subscription(
    monitor: RequestThrottlingMonitor,
    subscribed: bool,
    action: MonitorAction,
)
    requires
        call_ensures(RequestThrottlingMonitor::on_subscription, (&monitor, subscribed), action),
    ensures
        action is Shutdown <==> !subscribed,
        action is ResetSleep <==> subscribed,
        action is ResetSleep ==> clock::duration_nanos(action->0)
            == 18_446_744_073_709_551_615_999_999_999,
{
}

/// A report that all workers are busy starts the whole duration of the state where it is handled,
/// and the sleep is set to the monitor's duration.
pub proof fn law_busy_report_starts_the_duration(
    monitor: RequestThrottlingMonitor,
    state: &mut ThrottlingState,
    report: Instant,
    action: MonitorAction,
    now: Instant,
    answer: bool,
)
    requires
        call_ensures(
            RequestThrottlingMonitor::on_event_at,
            (&monitor, state, MonitorEvent::AllWorkersBusy, report),
            action,
        ),
        call_ensures(ThrottlingState::is_throttled_at, (&*final(state), now), answer),
        clock::instant_nanos(report) <= clock::instant_nanos(now),
    ensures
        final(state).request_throttling_start == Some(report),
        final(state).request_throttling_duration == old(state).request_throttling_duration,
        answer <==> clock::instant_nanos(now) < clock::instant_nanos(report)
            + clock::duration_nanos(old(state).request_throttling_duration),
        action == MonitorAction::ResetSleep(monitor.request_throttling_duration),
{
}

/// The end of the sleep ends throttling, and the next sleep is ten years.
pub proof fn law_end_of_sleep_ends_throttling(
    monitor: RequestThrottlingMonitor,
    state: &mut ThrottlingState,
    end: Instant,
    action: MonitorAction,
    now: Instant,
    answer: bool,
)
    requires
        call_ensures(
            RequestThrottlingMonitor::on_event_at,
            (&monitor, state, MonitorEvent::SleepElapsed, end),
            action,
        ),
        call_ensures(ThrottlingState::is_throttled_at, (&*final(state), now), answer),
    ensures
        final(state).request_throttling_start is None,
        final(state).request_throttling_duration == old(state).request_throttling_duration,
        !answer,
        action is ResetSleep,
        clock::duration_nanos(action->0) == 315_360_000_000_000_000,
{
}

/// Neither an undecodable message nor a cancellation changes anything in the state, at whatever
/// reading it is handled; the monitor waits on after the one, with the sleep as it is, and leaves
/// its loop after the other.
pub proof fn law_other_events_leave_the_state(
    monitor: RequestThrottlingMonitor,
    state: &mut ThrottlingState,
    event: MonitorEvent,
    at: Instant,
    action: MonitorAction,
)
    requires
        event is UndecodableMessage || event is Cancelled,
        call_ensures(RequestThrottlingMonitor::on_event_at, (&monitor, state, event, at), action),
    ensures
        *final(state) == *old(state),
        event is UndecodableMessage ==> action is KeepWaiting,
        event is Cancelled ==> action is Shutdown,
{
}

/// The monitor leaves its loop for a cancellation and for nothing else.
pub proof fn law_monitor_stops_only_when_cancelled(
    monitor: RequestThrottlingMonitor,
    state: &mut ThrottlingState,
    event: MonitorEvent,
    at: Instant,
    action: MonitorAction,
)
    requires
        call_ensures(RequestThrottlingMonitor::on_event_at, (&monitor, state, event, at), action),
    ensures
        action is Shutdown <==> event is Cancelled,
{
}

/// To handle an event at the present is to handle it at a reading that the clock gave.
pub proof fn law_present_event(
    monitor: RequestThrottlingMonitor,
    state: &mut ThrottlingState,
    event: MonitorEvent,
    action: MonitorAction,
)
    requires
        call_ensures(RequestThrottlingMonitor::on_event, (&monitor, state, event), action),
    ensures
        final(state).request_throttling_duration == old(state).request_throttling_duration,
        event is AllWorkersBusy ==> {
            &&& final(state).request_throttling_start is Some
            &&& call_ensures(Instant::now, (), final(state).request_throttling_start->0)
            &&& action == MonitorAction::ResetSleep(monitor.request_throttling_duration)
        },
        event is SleepElapsed ==> {
            &&& final(state).request_throttling_start is None
            &&& action is ResetSleep
            &&& clock::duration_nanos(action->0) == 315_360_000_000_000_000
        },
        event is UndecodableMessage ==> *final(state) == *old(state) && action is KeepWaiting,
        event is Cancelled ==> *final(state) == *old(state) && action is Shutdown,
{
}

/// Triggering a throttler and reporting all workers busy to its monitor leave the same state.
pub proof fn law_trigger_and_busy_report_agree(
    throttler: &mut HttpServiceRequestThrottler,
    state: &mut ThrottlingState,
    monitor: RequestThrottlingMonitor,
    at: Instant,
    action: MonitorAction,
)
    requires
        old(throttler).is_enabled,
        *old(state) == old(throttler).request_throttling_state,
        call_ensures(
            HttpServiceRequestThrottler::trigger_throttler_for_test_at,
            (throttler, at),
            (),
        ),
        call_ensures(
            RequestThrottlingMonitor::on_event_at,
            (&monitor, state, MonitorEvent::AllWorkersBusy, at),
            action,
        ),
    ensures
        *final(state) == final(throttler).request_throttling_state,
{
}

/// What the laws on traces take a single event to do is what handling it does.
pub proof fn law_model_of_events(
    monitor: RequestThrottlingMonitor,
    state: &mut ThrottlingState,
    event: MonitorEvent,
    at: Instant,
    action: MonitorAction,
)
    requires
        call_ensures(RequestThrottlingMonitor::on_event_at, (&monitor, state, event, at), action),
    ensures
        final(state)@ == old(state)@.after_event(event, clock::instant_nanos(at)),
        event is AllWorkersBusy ==> old(state)@.after_event(event, clock::instant_nanos(at)).start
            == Some(clock::instant_nanos(at)),
        event is SleepElapsed ==> old(state)@.after_event(
            event,
            clock::instant_nanos(at),
        ).start is None,
        old(state)@.after_event(event, clock::instant_nanos(at)).duration == clock::duration_nanos(
            old(state).request_throttling_duration,
        ),
{
}

} // verus!
