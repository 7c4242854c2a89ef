use service_throttle::rate_limiter::{
    allocation_rate, KVHitRateEvent, KvCacheUtilizationRateLimiter, UtilizationAction,
    UtilizationEvent,
};
use service_throttle::utilization::Utilization;

fn amount(value: f64) -> Utilization {
    Utilization {
        bits: value.to_bits(),
    }
}

fn value(amount: Utilization) -> f64 {
    f64::from_bits(amount.bits)
}

fn plus(a: Utilization, b: Utilization) -> Utilization {
    amount(value(a) + value(b))
}

fn minus(a: Utilization, b: Utilization) -> Utilization {
    amount(value(a) - value(b))
}

fn quotient(a: usize, b: usize) -> Utilization {
    amount(a as f64 / b as f64)
}

fn hit_rate(isl_blocks: usize, overlap_blocks: usize) -> KVHitRateEvent {
    KVHitRateEvent {
        worker_id: 7,
        isl_blocks,
        overlap_blocks,
    }
}

#[test]
fn constants_are_zero_and_one() {
    assert_eq!(Utilization::zero().bits, 0.0f64.to_bits());
    assert_eq!(Utilization::one().bits, 1.0f64.to_bits());
}

#[test]
fn order_is_that_of_the_numbers() {
    let values = [
        f64::NEG_INFINITY,
        f64::MIN,
        -1.5,
        -1.0,
        -f64::MIN_POSITIVE,
        -5e-324,
        -0.0,
        0.0,
        5e-324,
        f64::MIN_POSITIVE,
        0.1,
        1.0,
        1.5,
        f64::MAX,
        f64::INFINITY,
        f64::NAN,
        -f64::NAN,
    ];
    for a in values {
        for b in values {
            assert_eq!(amount(a).is_at_most(amount(b)), a <= b);
        }
    }
}

#[test]
fn max_zero_is_the_maximum_with_zero() {
    let values = [
        f64::NEG_INFINITY,
        -1.0,
        -5e-324,
        -0.0,
        0.0,
        5e-324,
        0.25,
        1.0,
        f64::INFINITY,
        f64::NAN,
        -f64::NAN,
    ];
    for a in values {
        assert_eq!(value(amount(a).max_zero()), a.max(0.0));
    }
}

#[test]
fn default_is_disabled_and_admits() {
    let mut limiter = KvCacheUtilizationRateLimiter::default();
    limiter.register_threshold("model", amount(0.0));
    limiter.add_started_request_utilization("model", amount(100.0), plus);
    assert!(limiter.can_schedule_request("model"));
    assert!(limiter.start_monitoring("model", None).is_none());
}

#[test]
fn new_limiter_admits_every_model() {
    assert!(KvCacheUtilizationRateLimiter::new(true).can_schedule_request("model"));
    assert!(KvCacheUtilizationRateLimiter::new(false).can_schedule_request("model"));
}

#[test]
fn admits_up_to_the_threshold() {
    let mut limiter = KvCacheUtilizationRateLimiter::new(true);
    limiter.register_threshold("model", amount(1.5));
    limiter.add_started_request_utilization("model", amount(0.75), plus);
    limiter.add_started_request_utilization("model", amount(0.75), plus);
    assert!(limiter.can_schedule_request("model"));
    limiter.add_started_request_utilization("model", amount(0.25), plus);
    assert!(!limiter.can_schedule_request("model"));
}

#[test]
fn threshold_is_one_by_default() {
    let mut limiter = KvCacheUtilizationRateLimiter::new(true);
    limiter.add_started_request_utilization("model", amount(1.0), plus);
    assert!(limiter.can_schedule_request("model"));
    limiter.add_started_request_utilization("model", amount(0.125), plus);
    assert!(!limiter.can_schedule_request("model"));
}

#[test]
fn first_threshold_stays() {
    let mut limiter = KvCacheUtilizationRateLimiter::new(true);
    limiter.register_threshold("model", amount(0.5));
    limiter.register_threshold("model", amount(10.0));
    limiter.add_started_request_utilization("model", amount(0.75), plus);
    assert!(!limiter.can_schedule_request("model"));
}

#[test]
fn threshold_that_is_not_a_number_refuses() {
    let mut limiter = KvCacheUtilizationRateLimiter::new(true);
    limiter.register_threshold("model", amount(f64::NAN));
    assert!(!limiter.can_schedule_request("model"));
}

#[test]
fn negative_threshold_refuses_an_idle_model() {
    let mut limiter = KvCacheUtilizationRateLimiter::new(true);
    limiter.register_threshold("model", amount(-0.5));
    assert!(!limiter.can_schedule_request("model"));
}

#[test]
fn finished_request_gives_back_its_utilization() {
    let mut limiter = KvCacheUtilizationRateLimiter::new(true);
    limiter.add_started_request_utilization("model", amount(1.0), plus);
    limiter.add_started_request_utilization("model", amount(0.5), plus);
    assert!(!limiter.can_schedule_request("model"));
    limiter.subtract_finished_request_utilization("model", amount(0.5), minus);
    assert!(limiter.can_schedule_request("model"));
}

#[test]
fn aggregate_does_not_fall_below_zero() {
    let mut limiter = KvCacheUtilizationRateLimiter::new(true);
    limiter.subtract_finished_request_utilization("model", amount(5.0), minus);
    limiter.add_started_request_utilization("model", amount(1.0), plus);
    assert!(limiter.can_schedule_request("model"));
    limiter.add_started_request_utilization("model", amount(0.5), plus);
    assert!(!limiter.can_schedule_request("model"));
}

#[test]
fn difference_that_is_not_a_number_leaves_zero() {
    let mut limiter = KvCacheUtilizationRateLimiter::new(true);
    limiter.register_threshold("model", amount(f64::INFINITY));
    limiter.add_started_request_utilization("model", amount(f64::INFINITY), plus);
    assert!(limiter.can_schedule_request("model"));
    limiter.subtract_finished_request_utilization("model", amount(f64::INFINITY), minus);
    assert!(limiter.can_schedule_request("model"));
    limiter.add_started_request_utilization("model", amount(1.0), plus);
    assert!(limiter.can_schedule_request("model"));
}

#[test]
fn finished_request_never_gets_a_model_refused() {
    let values = [0.0, 5e-324, 0.1, 0.25, 1.0, 3.0, f64::MAX, f64::INFINITY];
    for started in values {
        for finished in values {
            for threshold in values {
                let mut limiter = KvCacheUtilizationRateLimiter::new(true);
                limiter.register_threshold("model", amount(threshold));
                limiter.add_started_request_utilization("model", amount(started), plus);
                if limiter.can_schedule_request("model") {
                    let rate = amount(finished);
                    limiter.subtract_finished_request_utilization("model", rate, minus);
                    assert!(limiter.can_schedule_request("model"));
                }
            }
        }
    }
}

#[test]
fn removed_model_starts_over() {
    let mut limiter = KvCacheUtilizationRateLimiter::new(true);
    limiter.register_threshold("model", amount(0.5));
    limiter.add_started_request_utilization("model", amount(0.75), plus);
    assert!(!limiter.can_schedule_request("model"));
    limiter.remove_rate_limiter_model_entry("model");
    assert!(limiter.can_schedule_request("model"));
    limiter.add_started_request_utilization("model", amount(0.75), plus);
    assert!(limiter.can_schedule_request("model"));
}

#[test]
fn models_are_independent() {
    let mut limiter = KvCacheUtilizationRateLimiter::new(true);
    limiter.add_started_request_utilization("busy", amount(2.0), plus);
    assert!(!limiter.can_schedule_request("busy"));
    assert!(limiter.can_schedule_request("idle"));
    limiter.remove_rate_limiter_model_entry("idle");
    limiter.subtract_finished_request_utilization("idle", amount(2.0), minus);
    assert!(!limiter.can_schedule_request("busy"));
}

#[test]
fn allocation_rate_is_what_the_hit_rate_leaves() {
    let rate = |isl: usize, overlap: usize| {
        value(allocation_rate(&hit_rate(isl, overlap), &quotient, &minus))
    };
    assert_eq!(rate(4, 1), 0.75);
    assert_eq!(rate(4, 4), 0.0);
    assert_eq!(rate(4, 0), 1.0);
    assert_eq!(rate(0, 0), 1.0);
    assert_eq!(rate(0, 3), 1.0);
    assert_eq!(rate(2, 3), -0.5);
    assert_eq!(rate(3, 1), 1.0 - 1.0 / 3.0);
}

#[test]
fn monitor_takes_the_given_threshold_or_one() {
    let limiter = KvCacheUtilizationRateLimiter::new(true);
    let monitor = limiter
        .start_monitoring("model", Some(amount(0.25)))
        .unwrap();
    assert_eq!(monitor.model_name, "model");
    assert_eq!(value(monitor.max_kv_cache_utilization_rate), 0.25);
    let monitor = limiter.start_monitoring("model", None).unwrap();
    assert_eq!(value(monitor.max_kv_cache_utilization_rate), 1.0);
}

#[test]
fn monitor_follows_the_utilization() {
    let mut limiter = KvCacheUtilizationRateLimiter::new(true);
    let monitor = limiter
        .start_monitoring("model", Some(amount(1.25)))
        .unwrap();
    monitor.on_subscribed(&mut limiter);

    let action = monitor.on_event(
        &mut limiter,
        UtilizationEvent::HitRate(hit_rate(4, 1)),
        quotient,
        minus,
        plus,
    );
    assert_eq!(action, UtilizationAction::Added(amount(0.75)));
    assert!(limiter.can_schedule_request("model"));

    let action = monitor.on_event(
        &mut limiter,
        UtilizationEvent::UndecodableMessage,
        quotient,
        minus,
        plus,
    );
    assert_eq!(action, UtilizationAction::KeepWaiting);
    assert!(limiter.can_schedule_request("model"));

    monitor.on_event(
        &mut limiter,
        UtilizationEvent::HitRate(hit_rate(4, 1)),
        quotient,
        minus,
        plus,
    );
    assert!(!limiter.can_schedule_request("model"));
    assert!(limiter.can_schedule_request("other"));

    let action = monitor.on_event(
        &mut limiter,
        UtilizationEvent::StreamEnded,
        quotient,
        minus,
        plus,
    );
    assert_eq!(action, UtilizationAction::Stop);
    assert!(!limiter.can_schedule_request("model"));
}

#[test]
fn monitoring_adds_up_in_order() {
    let mut limiter = KvCacheUtilizationRateLimiter::new(true);
    let events = [(4, 1), (3, 1), (0, 5), (7, 2), (2, 3)];
    let mut expected = 0.125;
    for (isl, overlap) in events {
        let hit = if isl > 0 { overlap as f64 / isl as f64 } else { 0.0 };
        expected += 1.0 - hit;
    }
    let monitor = limiter
        .start_monitoring("model", Some(amount(expected)))
        .unwrap();
    monitor.on_subscribed(&mut limiter);
    limiter.add_started_request_utilization("model", amount(0.125), plus);
    limiter.add_started_request_utilization("other", amount(1.0), plus);
    for (isl, overlap) in events {
        monitor.on_event(
            &mut limiter,
            UtilizationEvent::HitRate(hit_rate(isl, overlap)),
            quotient,
            minus,
            plus,
        );
        monitor.on_event(
            &mut limiter,
            UtilizationEvent::UndecodableMessage,
            quotient,
            minus,
            plus,
        );
    }
    // The threshold is the expected total, so any more is refused and that itself is not.
    assert!(limiter.can_schedule_request("model"));
    let next = f64::from_bits(expected.to_bits() + 1);
    limiter.add_started_request_utilization("model", amount(next - expected), plus);
    assert!(!limiter.can_schedule_request("model"));
    assert!(limiter.can_schedule_request("other"));
}

#[test]
fn start_and_finish_cancel_out() {
    let mut limiter = KvCacheUtilizationRateLimiter::new(true);
    limiter.add_started_request_utilization("model", amount(1.0), plus);
    assert!(limiter.can_schedule_request("model"));
    limiter.add_started_request_utilization("model", amount(0.75), plus);
    assert!(!limiter.can_schedule_request("model"));
    limiter.subtract_finished_request_utilization("model", amount(0.75), minus);
    assert!(limiter.can_schedule_request("model"));
    limiter.add_started_request_utilization("model", amount(0.0), plus);
    assert!(limiter.can_schedule_request("model"));
    limiter.add_started_request_utilization("model", amount(1e-9), plus);
    assert!(!limiter.can_schedule_request("model"));
}
