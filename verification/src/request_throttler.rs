//! Temporary rejection of requests while all workers are busy.
//!
//! A scheduler announces that all workers are busy. From that moment on, and for a configured
//! duration, [`HttpServiceRequestThrottler::is_throttled`] tells the request handlers to turn
//! requests away. A further announcement starts the duration anew; without one, throttling ends
//! by itself.
//!
//! Every operation that reads the clock comes in two forms: one that reads it, and one, with a
//! name that ends in `_at`, that takes the reading as an argument.
use std::time::{Duration, Instant};
use vstd::prelude::*;

use crate::clock;

verus! {

/// Seconds for which requests are rejected where nothing else is configured.
pub const DEFAULT_THROTTLING_SECS: u64 = 5;

/// Seconds until a sleep that is not meant to end: ten years.
pub const FAR_FUTURE_SECS: u64 = 315_360_000;

/// Request throttling state that can be shared across request handlers.
#[derive(Debug)]
pub struct ThrottlingState {
    /// When throttling was activated last, unless it was cleared since.
    pub request_throttling_start: Option<Instant>,
    /// For how long throttling lasts once it is activated.
    pub request_throttling_duration: Duration,
}

/// A [`ThrottlingState`] in nanoseconds.
pub struct ThrottlingView {
    /// The position of the activation on the clock.
    pub start: Option<int>,
    /// The length of the throttling window.
    pub duration: nat,
}

impl View for ThrottlingState {
    type V = ThrottlingView;

    open spec fn view(&self) -> ThrottlingView {
        ThrottlingView {
            start: match self.request_throttling_start {
                Some(start) => Some(clock::instant_nanos(start)),
                None => None,
            },
            duration: clock::duration_nanos(self.request_throttling_duration),
        }
    }
}

impl ThrottlingView {
    /// Whether requests are rejected at `now`: less than the duration has passed since the
    /// activation.
    pub open spec fn throttled_at(self, now: int) -> bool {
        match self.start {
            Some(start) => clock::nanos_since(now, start) < self.duration,
            None => false,
        }
    }

    /// The state once throttling is activated at `now`.
    pub open spec fn activated(self, now: int) -> ThrottlingView {
        ThrottlingView { start: Some(now), duration: self.duration }
    }

    /// The state once throttling is cleared.
    pub open spec fn cleared(self) -> ThrottlingView {
        ThrottlingView { start: None, duration: self.duration }
    }

    /// The state once the monitor has handled `event` at `now`.
    pub open spec fn after_event(self, event: MonitorEvent, now: int) -> ThrottlingView {
        match event {
            MonitorEvent::AllWorkersBusy => self.activated(now),
            MonitorEvent::SleepElapsed => self.cleared(),
            MonitorEvent::UndecodableMessage | MonitorEvent::Cancelled => self,
        }
    }
}

impl Default for ThrottlingState {
    fn default() -> (state: Self)
        ensures
            state.request_throttling_start is None,
            state@.duration == DEFAULT_THROTTLING_SECS * clock::NANOS_PER_SEC,
            clock::duration_nanos(state.request_throttling_duration) == 5_000_000_000,
    {
        ThrottlingState {
            request_throttling_start: None,
            request_throttling_duration: Duration::from_secs(DEFAULT_THROTTLING_SECS),
        }
    }
}

impl Clone for ThrottlingState {
    fn clone(&self) -> (state: Self)
        ensures
            state == *self,
    {
        ThrottlingState {
            request_throttling_start: self.request_throttling_start,
            request_throttling_duration: self.request_throttling_duration,
        }
    }
}

impl ThrottlingState {
    /// The state once the monitor has handled `event` at `now`.
    pub open spec fn handled(self, event: MonitorEvent, now: Instant) -> ThrottlingState {
        ThrottlingState {
            request_throttling_start: match event {
                MonitorEvent::AllWorkersBusy => Some(now),
                MonitorEvent::SleepElapsed => None,
                MonitorEvent::UndecodableMessage
                | MonitorEvent::Cancelled => self.request_throttling_start,
            },
            request_throttling_duration: self.request_throttling_duration,
        }
    }

    /// A state that is not throttled, with the given throttling duration.
    pub fn new(request_throttling_duration: Duration) -> (state: Self)
        ensures
            state.request_throttling_start is None,
            state.request_throttling_duration == request_throttling_duration,
    {
        ThrottlingState { request_throttling_start: None, request_throttling_duration }
    }

    /// Check if state is currently request throttled.
    ///
    /// The answer is that of [`ThrottlingState::is_throttled_at`] for the present reading of the
    /// clock. Which reading that is cannot be told; a state that was never activated, or whose
    /// duration is zero, is not throttled at any.
    pub fn is_throttled(&self) -> (throttled: bool)
        ensures
            exists|now: Instant| #[trigger]
                call_ensures(Instant::now, (), now) && throttled == self@.throttled_at(
                    clock::instant_nanos(now),
                ),
            self.request_throttling_start is None ==> !throttled,
            self@.duration == 0 ==> !throttled,
    {
        self.is_throttled_at(Instant::now())
    }

    /// Check if state is request throttled at `now`.
    pub fn is_throttled_at(&self, now: Instant) -> (throttled: bool)
        ensures
            throttled == self@.throttled_at(clock::instant_nanos(now)),
    {
        match self.request_throttling_start {
            Some(start_time) => now.saturating_duration_since(start_time).as_nanos()
                < self.request_throttling_duration.as_nanos(),
            None => false,
        }
    }

    /// Set request throttling state to true and record the start time.
    ///
    /// The start is the present reading of the clock, whichever that is.
    pub fn set_throttling(&mut self)
        ensures
            final(self).request_throttling_start matches Some(now) && call_ensures(
                Instant::now,
                (),
                now,
            ),
            final(self).request_throttling_duration == old(self).request_throttling_duration,
    {
        let now = Instant::now();
        self.set_throttling_at(now);
    }

    /// Set request throttling state to true with `now` for the start time.
    pub fn set_throttling_at(&mut self, now: Instant)
        ensures
            final(self).request_throttling_start == Some(now),
            final(self).request_throttling_duration == old(self).request_throttling_duration,
            final(self)@ == old(self)@.activated(clock::instant_nanos(now)),
    {
        self.request_throttling_start = Some(now);
    }

    /// Set request throttling state to false and clear the start time.
    pub fn clear_throttling(&mut self)
        ensures
            final(self).request_throttling_start is None,
            final(self).request_throttling_duration == old(self).request_throttling_duration,
            final(self)@ == old(self)@.cleared(),
    {
        self.request_throttling_start = None;
    }
}

/// The throttling service that the request handlers ask.
pub struct HttpServiceRequestThrottler {
    /// Whether requests are ever rejected.
    pub is_enabled: bool,
    /// When, and for how long, requests are rejected.
    pub request_throttling_state: ThrottlingState,
}

impl HttpServiceRequestThrottler {
    /// Whether requests are rejected at `now`.
    pub open spec fn throttled_at(&self, now: int) -> bool {
        self.is_enabled && self.request_throttling_state@.throttled_at(now)
    }

    /// The throttler once it is triggered at `now`: throttling starts then, unless the throttler
    /// is disabled.
    pub open spec fn triggered(&self, now: Instant) -> HttpServiceRequestThrottler {
        if self.is_enabled {
            HttpServiceRequestThrottler {
                is_enabled: true,
                request_throttling_state: ThrottlingState {
                    request_throttling_start: Some(now),
                    request_throttling_duration:
                        self.request_throttling_state.request_throttling_duration,
                },
            }
        } else {
            *self
        }
    }

    /// A disabled throttler is in the state that it was made in.
    pub open spec fn well_formed(&self) -> bool {
        !self.is_enabled ==> {
            &&& self.request_throttling_state.request_throttling_start is None
            &&& self.request_throttling_state@.duration == DEFAULT_THROTTLING_SECS
                * clock::NANOS_PER_SEC
        }
    }

    /// A throttler that rejects requests for the given time window after all workers were
    /// reported busy, or a disabled one where no window is given.
    pub fn new(all_workers_busy_rejection_time_window: Option<Duration>) -> (throttler: Self)
        ensures
            throttler.well_formed(),
            throttler.is_enabled == (all_workers_busy_rejection_time_window is Some),
            throttler.request_throttling_state.request_throttling_start is None,
            match all_workers_busy_rejection_time_window {
                Some(window) => throttler.request_throttling_state.request_throttling_duration
                    == window,
                None => throttler.request_throttling_state@.duration == DEFAULT_THROTTLING_SECS
                    * clock::NANOS_PER_SEC,
            },
    {
        HttpServiceRequestThrottler {
            is_enabled: all_workers_busy_rejection_time_window.is_some(),
            request_throttling_state: match all_workers_busy_rejection_time_window {
                Some(window) => ThrottlingState::new(window),
                None => ThrottlingState::default(),
            },
        }
    }

    /// Check if the current underlying state is throttled.
    ///
    /// The answer is that of [`HttpServiceRequestThrottler::is_throttled_at`] for the present
    /// reading of the clock.
    pub fn is_throttled(&self) -> (throttled: bool)
        ensures
            exists|now: Instant| #[trigger]
                call_ensures(Instant::now, (), now) && throttled == self.throttled_at(
                    clock::instant_nanos(now),
                ),
            !self.is_enabled ==> !throttled,
            self.request_throttling_state.request_throttling_start is None ==> !throttled,
            self.request_throttling_state@.duration == 0 ==> !throttled,
    {
        self.is_throttled_at(Instant::now())
    }

    /// Check if the underlying state is throttled at `now`.
    pub fn is_throttled_at(&self, now: Instant) -> (throttled: bool)
        ensures
            throttled == self.throttled_at(clock::instant_nanos(now)),
    {
        if !self.is_enabled {
            return false;
        }
        self.request_throttling_state.is_throttled_at(now)
    }

    /// Start monitoring the request throttling state.
    ///
    /// A disabled throttler has nothing to monitor. For an enabled one, the caller subscribes to
    /// the announcements of busy workers and goes on with the monitor that is returned.
    pub fn start_monitoring(&self) -> (monitor: Option<RequestThrottlingMonitor>)
        ensures
            match monitor {
                Some(monitor) => {
                    &&& self.is_enabled
                    &&& monitor.request_throttling_duration
                        == self.request_throttling_state.request_throttling_duration
                },
                None => !self.is_enabled,
            },
    {
        if !self.is_enabled {
            return None;
        }
        Some(
            RequestThrottlingMonitor {
                request_throttling_duration: self.request_throttling_state.request_throttling_duration,
            },
        )
    }

    /// Test helper to manually trigger the throttling.
    /// This should only be used in tests to simulate throttling without an announcement.
    ///
    /// The effect is that of [`HttpServiceRequestThrottler::trigger_throttler_for_test_at`] for
    /// the present reading of the clock, whichever that is.
    pub fn trigger_throttler_for_test(&mut self)
        ensures
            exists|now: Instant| #[trigger]
                call_ensures(Instant::now, (), now) && *final(self) == old(self).triggered(now),
            old(self).well_formed() ==> final(self).well_formed(),
    {
        self.trigger_throttler_for_test_at(Instant::now());
    }

    /// Test helper to manually trigger the throttling at `now`.
    pub fn trigger_throttler_for_test_at(&mut self, now: Instant)
        ensures
            *final(self) == old(self).triggered(now),
            old(self).well_formed() ==> final(self).well_formed(),
    {
        if !self.is_enabled {
            return;
        }
        self.request_throttling_state.set_throttling_at(now);
    }
}

/// What the monitor waits for.
pub enum MonitorEvent {
    /// A message arrived, and says that all workers are busy.
    AllWorkersBusy,
    /// A message arrived that could not be decoded.
    UndecodableMessage,
    /// The sleep that the monitor last asked for is over.
    SleepElapsed,
    /// The service shuts down.
    Cancelled,
}

/// What the monitor asks of the task that runs it.
pub enum MonitorAction {
    /// Wait for the next event, with the sleep as it is.
    KeepWaiting,
    /// Let the sleep end after this time from now, and wait for the next event.
    ResetSleep(Duration),
    /// Leave the loop.
    Shutdown,
}

impl MonitorAction {
    /// The nanoseconds after which the sleep is to end, where the action sets that anew.
    pub open spec fn sleep_nanos(self) -> Option<nat> {
        match self {
            MonitorAction::ResetSleep(duration) => Some(clock::duration_nanos(duration)),
            MonitorAction::KeepWaiting | MonitorAction::Shutdown => None,
        }
    }
}

/// The nanoseconds for which the monitor sleeps after `event`, where it sets the sleep anew: the
/// throttling duration once throttling is activated, and practically forever once it is cleared.
pub open spec fn sleep_after(event: MonitorEvent, throttling_duration: nat) -> Option<nat> {
    match event {
        MonitorEvent::AllWorkersBusy => Some(throttling_duration),
        MonitorEvent::SleepElapsed => Some((FAR_FUTURE_SECS * clock::NANOS_PER_SEC) as nat),
        MonitorEvent::UndecodableMessage | MonitorEvent::Cancelled => None,
    }
}

/// The decisions of the task that activates throttling when all workers are reported busy, and
/// clears it once the throttling duration has passed.
pub struct RequestThrottlingMonitor {
    /// The throttling duration when the monitor was started.
    pub request_throttling_duration: Duration,
}

impl RequestThrottlingMonitor {
    /// What to do once the subscription to the announcements succeeded or failed: wait with the
    /// longest sleep there is, or give up.
    pub fn on_subscription(&self, subscribed: bool) -> (action: MonitorAction)
        ensures
            match action {
                MonitorAction::ResetSleep(sleep) => {
                    &&& subscribed
                    &&& clock::duration_nanos(sleep) == u64::MAX * clock::NANOS_PER_SEC
                        + 999_999_999
                },
                MonitorAction::Shutdown => !subscribed,
                MonitorAction::KeepWaiting => false,
            },
    {
        if subscribed {
            MonitorAction::ResetSleep(Duration::new(u64::MAX, 999_999_999))
        } else {
            MonitorAction::Shutdown
        }
    }

    /// Handles an event at the present reading of the clock, whichever that is.
    pub fn on_event(&self, state: &mut ThrottlingState, event: MonitorEvent) -> (action:
        MonitorAction)
        ensures
            exists|now: Instant| #[trigger]
                call_ensures(Instant::now, (), now) && *final(state) == old(state).handled(
                    event,
                    now,
                ) && final(state)@ == old(state)@.after_event(event, clock::instant_nanos(now)),
            action.sleep_nanos() == sleep_after(
                event,
                clock::duration_nanos(self.request_throttling_duration),
            ),
            (action is Shutdown) == (event is Cancelled),
            match event {
                MonitorEvent::AllWorkersBusy => action == MonitorAction::ResetSleep(
                    self.request_throttling_duration,
                ),
                MonitorEvent::UndecodableMessage => action is KeepWaiting,
                MonitorEvent::SleepElapsed => action is ResetSleep,
                MonitorEvent::Cancelled => action is Shutdown,
            },
    {
        self.on_event_at(state, event, Instant::now())
    }

    /// Handles an event at `now`.
    pub fn on_event_at(
        &self,
        state: &mut ThrottlingState,
        event: MonitorEvent,
        now: Instant,
    ) -> (action: MonitorAction)
        ensures
            *final(state) == old(state).handled(event, now),
            final(state)@ == old(state)@.after_event(event, clock::instant_nanos(now)),
            action.sleep_nanos() == sleep_after(
                event,
                clock::duration_nanos(self.request_throttling_duration),
            ),
            (action is Shutdown) == (event is Cancelled),
            match event {
                MonitorEvent::AllWorkersBusy => action == MonitorAction::ResetSleep(
                    self.request_throttling_duration,
                ),
                MonitorEvent::UndecodableMessage => action is KeepWaiting,
                MonitorEvent::SleepElapsed => action is ResetSleep,
                MonitorEvent::Cancelled => action is Shutdown,
            },
    {
        match event {
            MonitorEvent::AllWorkersBusy => {
                state.set_throttling_at(now);
                MonitorAction::ResetSleep(self.request_throttling_duration)
            },
            MonitorEvent::UndecodableMessage => MonitorAction::KeepWaiting,
            MonitorEvent::SleepElapsed => {
                state.clear_throttling();
                MonitorAction::ResetSleep(Duration::from_secs(FAR_FUTURE_SECS))
            },
            MonitorEvent::Cancelled => MonitorAction::Shutdown,
        }
    }
}

} // verus!
