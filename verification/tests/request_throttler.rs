use service_throttle::request_throttler::{
    HttpServiceRequestThrottler, MonitorAction, MonitorEvent, ThrottlingState,
};
use std::time::{Duration, Instant};

/// Lets real time pass.
fn sleep(duration: Duration) {
    let runtime = tokio::runtime::Builder::new_current_thread()
        .enable_time()
        .build()
        .unwrap();
    runtime.block_on(async { tokio::time::sleep(duration).await });
}

#[test]
fn test_request_throttling_state_default() {
    let state = ThrottlingState::default();
    assert_eq!(state.request_throttling_start, None);
    assert_eq!(state.request_throttling_duration, Duration::from_secs(5));
}

#[test]
fn test_request_throttling_state_new() {
    let duration = Duration::from_secs(10);
    let state = ThrottlingState::new(duration);
    assert_eq!(state.request_throttling_start, None);
    assert_eq!(state.request_throttling_duration, duration);
}

#[test]
fn test_request_throttling_state_is_request_throttled_when_not_set() {
    let state = ThrottlingState::default();
    assert!(!state.is_throttled());
}

#[test]
fn test_request_throttling_state_is_request_throttled_when_set() {
    let mut state = ThrottlingState::default();
    state.set_throttling();
    assert!(state.is_throttled());
}

#[test]
fn test_request_throttling_state_is_request_throttled_after_expiry() {
    let mut state = ThrottlingState::new(Duration::from_millis(10));
    state.set_throttling();
    assert!(state.is_throttled());

    // Wait for the request throttling to expire
    sleep(Duration::from_millis(21));
    assert!(!state.is_throttled());
}

#[test]
fn test_request_throttling_state_clear_request_throttling() {
    let mut state = ThrottlingState::default();
    state.set_throttling();
    assert!(state.is_throttled());

    state.clear_throttling();
    assert!(!state.is_throttled());
    assert_eq!(state.request_throttling_start, None);
}

#[test]
fn test_http_service_throttling_service_new_enabled() {
    let duration = Duration::from_secs(10);
    let throttling_service = HttpServiceRequestThrottler::new(Some(duration));
    assert!(throttling_service.is_enabled);
    assert_eq!(
        throttling_service
            .request_throttling_state
            .request_throttling_duration,
        duration
    );
}

#[test]
fn test_http_service_throttling_service_new_disabled() {
    let throttling_service = HttpServiceRequestThrottler::new(None);
    assert!(!throttling_service.is_enabled);
    assert_eq!(
        throttling_service
            .request_throttling_state
            .request_throttling_duration,
        Duration::from_secs(5)
    );
}

#[test]
fn test_http_service_request_throttler_is_not_request_throttled_when_disabled() {
    let request_throttler = HttpServiceRequestThrottler::new(None);
    assert!(!request_throttler.is_throttled());
}

#[test]
fn test_http_service_request_throttler_is_not_request_throttled_when_enabled_and_not_set() {
    let request_throttler = HttpServiceRequestThrottler::new(Some(Duration::from_secs(5)));
    assert!(!request_throttler.is_throttled());
}

#[test]
fn test_http_service_request_throttler_is_request_throttled_when_enabled_and_set() {
    let mut request_throttler = HttpServiceRequestThrottler::new(Some(Duration::from_secs(5)));
    request_throttler.request_throttling_state.set_throttling();
    assert!(request_throttler.is_throttled());
}

#[test]
fn test_http_service_request_throttler_is_request_throttled_after_expiry() {
    let mut request_throttler = HttpServiceRequestThrottler::new(Some(Duration::from_millis(10)));
    request_throttler.request_throttling_state.set_throttling();
    assert!(request_throttler.is_throttled());

    // Wait for the request throttling to expire
    sleep(Duration::from_millis(21));
    assert!(!request_throttler.is_throttled());
}

#[test]
fn test_http_service_updates_request_throttling_duration() {
    let mut request_throttler = HttpServiceRequestThrottler::new(Some(Duration::from_secs(1)));
    request_throttler.request_throttling_state.set_throttling();
    assert!(request_throttler.is_throttled());

    sleep(Duration::from_millis(550));

    request_throttler.request_throttling_state.set_throttling();
    assert!(request_throttler.is_throttled());

    sleep(Duration::from_millis(550));

    assert!(request_throttler.is_throttled());
}

#[test]
fn window_ends_after_exactly_the_duration() {
    let start = Instant::now();
    let duration = Duration::new(3, 7);
    let mut state = ThrottlingState::new(duration);
    state.set_throttling_at(start);
    assert_eq!(state.request_throttling_start, Some(start));
    assert!(state.is_throttled_at(start));
    assert!(state.is_throttled_at(start + duration - Duration::from_nanos(1)));
    assert!(!state.is_throttled_at(start + duration));
    assert!(!state.is_throttled_at(start + duration + Duration::from_secs(1)));
}

#[test]
fn reading_before_the_start_counts_as_the_start() {
    let earlier = Instant::now();
    let start = earlier + Duration::from_secs(60);
    let mut state = ThrottlingState::new(Duration::from_secs(1));
    state.set_throttling_at(start);
    assert!(state.is_throttled_at(earlier));
}

#[test]
fn zero_duration_never_throttles() {
    let mut state = ThrottlingState::new(Duration::ZERO);
    state.set_throttling();
    assert!(!state.is_throttled());
    let start = state.request_throttling_start.unwrap();
    assert!(!state.is_throttled_at(start));
}

#[test]
fn longest_duration_throttles() {
    let mut state = ThrottlingState::new(Duration::MAX);
    state.set_throttling();
    assert!(state.is_throttled());
}

#[test]
fn second_activation_restarts_the_window() {
    let start = Instant::now();
    let second = start + Duration::from_secs(4);
    let mut state = ThrottlingState::default();
    state.set_throttling_at(start);
    assert!(!state.is_throttled_at(start + Duration::from_secs(6)));
    state.set_throttling_at(second);
    assert!(state.is_throttled_at(start + Duration::from_secs(6)));
    assert!(!state.is_throttled_at(start + Duration::from_secs(9)));
}

#[test]
fn set_throttling_records_the_present() {
    let before = Instant::now();
    let mut state = ThrottlingState::default();
    state.set_throttling();
    let after = Instant::now();
    let start = state.request_throttling_start.unwrap();
    assert!(before <= start && start <= after);
}

#[test]
fn clone_of_a_state_is_equal_and_independent() {
    let mut state = ThrottlingState::new(Duration::from_secs(2));
    state.set_throttling();
    let copy = state.clone();
    assert_eq!(copy.request_throttling_start, state.request_throttling_start);
    assert_eq!(copy.request_throttling_duration, Duration::from_secs(2));
    state.clear_throttling();
    assert!(copy.is_throttled());
}

#[test]
fn trigger_activates_only_an_enabled_throttler() {
    let mut enabled = HttpServiceRequestThrottler::new(Some(Duration::from_secs(30)));
    enabled.trigger_throttler_for_test();
    assert!(enabled.is_enabled);
    assert!(enabled.is_throttled());
    assert!(!enabled.is_throttled_at(Instant::now() + Duration::from_secs(31)));

    let mut disabled = HttpServiceRequestThrottler::new(None);
    disabled.trigger_throttler_for_test();
    assert!(!disabled.is_throttled());
    assert_eq!(
        disabled.request_throttling_state.request_throttling_start,
        None
    );
}

#[test]
fn trigger_at_replaces_the_start() {
    let first = Instant::now();
    let second = first + Duration::from_secs(20);
    let mut enabled = HttpServiceRequestThrottler::new(Some(Duration::from_secs(30)));
    enabled.trigger_throttler_for_test_at(first);
    enabled.trigger_throttler_for_test_at(second);
    assert!(enabled.is_enabled);
    assert_eq!(
        enabled.request_throttling_state.request_throttling_start,
        Some(second)
    );
    assert_eq!(
        enabled.request_throttling_state.request_throttling_duration,
        Duration::from_secs(30)
    );
    assert!(enabled.is_throttled_at(first + Duration::from_secs(49)));
    assert!(!enabled.is_throttled_at(first + Duration::from_secs(50)));

    let mut disabled = HttpServiceRequestThrottler::new(None);
    disabled.trigger_throttler_for_test_at(first);
    assert_eq!(
        disabled.request_throttling_state.request_throttling_start,
        None
    );
}

#[test]
fn trigger_records_the_present_over_an_earlier_start() {
    let mut throttler = HttpServiceRequestThrottler::new(Some(Duration::from_secs(30)));
    throttler.trigger_throttler_for_test();
    sleep(Duration::from_millis(2));
    let before = Instant::now();
    throttler.trigger_throttler_for_test();
    let after = Instant::now();
    let start = throttler
        .request_throttling_state
        .request_throttling_start
        .unwrap();
    assert!(before <= start && start <= after);
}

#[test]
fn monitoring_goes_on_with_an_active_window() {
    let start = Instant::now();
    let at = |secs: u64| start + Duration::from_secs(secs);
    let mut throttler = HttpServiceRequestThrottler::new(Some(Duration::from_secs(5)));
    throttler.trigger_throttler_for_test_at(at(0));
    let monitor = throttler.start_monitoring().unwrap();
    monitor.on_event_at(
        &mut throttler.request_throttling_state,
        MonitorEvent::UndecodableMessage,
        at(1),
    );
    assert!(throttler.is_throttled_at(at(4)));
    assert!(!throttler.is_throttled_at(at(5)));
    monitor.on_event_at(
        &mut throttler.request_throttling_state,
        MonitorEvent::AllWorkersBusy,
        at(3),
    );
    assert!(throttler.is_throttled_at(at(7)));
    assert!(!throttler.is_throttled_at(at(8)));
}

#[test]
fn disabled_throttler_ignores_its_state() {
    let mut disabled = HttpServiceRequestThrottler::new(None);
    disabled.request_throttling_state.set_throttling();
    assert!(disabled.request_throttling_state.is_throttled());
    assert!(!disabled.is_throttled());
    assert!(!disabled.is_throttled_at(Instant::now()));
}

#[test]
fn monitoring_starts_only_when_enabled() {
    assert!(HttpServiceRequestThrottler::new(None)
        .start_monitoring()
        .is_none());
    let monitor = HttpServiceRequestThrottler::new(Some(Duration::from_secs(8)))
        .start_monitoring()
        .unwrap();
    assert_eq!(monitor.request_throttling_duration, Duration::from_secs(8));
}

#[test]
fn monitor_waits_without_end_after_subscribing_and_gives_up_otherwise() {
    let monitor = HttpServiceRequestThrottler::new(Some(Duration::from_secs(8)))
        .start_monitoring()
        .unwrap();
    match monitor.on_subscription(true) {
        MonitorAction::ResetSleep(sleep) => assert_eq!(sleep, Duration::MAX),
        _ => panic!("the sleep has to be set"),
    }
    assert!(matches!(
        monitor.on_subscription(false),
        MonitorAction::Shutdown
    ));
}

#[test]
fn monitor_handles_each_event() {
    let start = Instant::now();
    let mut throttler = HttpServiceRequestThrottler::new(Some(Duration::from_secs(8)));
    let monitor = throttler.start_monitoring().unwrap();
    let state = &mut throttler.request_throttling_state;

    match monitor.on_event_at(state, MonitorEvent::AllWorkersBusy, start) {
        MonitorAction::ResetSleep(sleep) => assert_eq!(sleep, Duration::from_secs(8)),
        _ => panic!("the sleep has to be set"),
    }
    assert_eq!(state.request_throttling_start, Some(start));

    let later = start + Duration::from_secs(1);
    assert!(matches!(
        monitor.on_event_at(state, MonitorEvent::UndecodableMessage, later),
        MonitorAction::KeepWaiting
    ));
    assert_eq!(state.request_throttling_start, Some(start));

    match monitor.on_event_at(state, MonitorEvent::SleepElapsed, later) {
        MonitorAction::ResetSleep(sleep) => {
            assert_eq!(sleep, Duration::from_secs(10 * 365 * 24 * 60 * 60))
        }
        _ => panic!("the sleep has to be set"),
    }
    assert_eq!(state.request_throttling_start, None);
    assert_eq!(state.request_throttling_duration, Duration::from_secs(8));

    assert!(matches!(
        monitor.on_event_at(state, MonitorEvent::Cancelled, later),
        MonitorAction::Shutdown
    ));
    assert_eq!(state.request_throttling_start, None);
}

#[test]
fn monitor_reads_the_clock() {
    let mut throttler = HttpServiceRequestThrottler::new(Some(Duration::from_secs(30)));
    let monitor = throttler.start_monitoring().unwrap();
    let action = monitor.on_event(
        &mut throttler.request_throttling_state,
        MonitorEvent::AllWorkersBusy,
    );
    assert!(matches!(action, MonitorAction::ResetSleep(_)));
    assert!(throttler.is_throttled());
    monitor.on_event(
        &mut throttler.request_throttling_state,
        MonitorEvent::SleepElapsed,
    );
    assert!(!throttler.is_throttled());
}

#[test]
fn throttled_while_the_latest_report_is_recent() {
    let start = Instant::now();
    let mut throttler = HttpServiceRequestThrottler::new(Some(Duration::from_secs(5)));
    let monitor = throttler.start_monitoring().unwrap();
    let at = |secs: u64| start + Duration::from_secs(secs);

    monitor.on_event_at(
        &mut throttler.request_throttling_state,
        MonitorEvent::AllWorkersBusy,
        at(0),
    );
    monitor.on_event_at(
        &mut throttler.request_throttling_state,
        MonitorEvent::AllWorkersBusy,
        at(3),
    );
    monitor.on_event_at(
        &mut throttler.request_throttling_state,
        MonitorEvent::UndecodableMessage,
        at(6),
    );
    assert!(throttler.is_throttled_at(at(7)));
    assert!(!throttler.is_throttled_at(at(8)));
    monitor.on_event_at(
        &mut throttler.request_throttling_state,
        MonitorEvent::SleepElapsed,
        at(8),
    );
    assert!(!throttler.is_throttled_at(at(8)));
    assert!(!throttler.is_throttled_at(at(100)));
}
