//! What the operations of the rate limiter do, stated on what goes into them and what comes out of
//! them: the recorded amounts, their bits, and the answers.
use vstd::prelude::*;

use crate::rate_limiter;
use crate::rate_limiter::{
    KVHitRateEvent, KvCacheUtilizationRateLimiter, RateLimiterView, UtilizationAction,
    UtilizationEvent, UtilizationMonitor,
};
use crate::utilization::Utilization;

verus! {

/// Whether `amount` is what `amounts` records of the model, or the amount with the bits `missing`
/// where it records nothing.
pub open spec fn is_recorded(
    amounts: Map<Seq<char>, Utilization>,
    model: Seq<char>,
    missing: u64,
    amount: Utilization,
) -> bool {
    &&& amounts.contains_key(model) ==> amount == amounts[model]
    &&& !amounts.contains_key(model) ==> amount.bits == missing
}

/// A new limiter has nothing recorded, and is enabled as told; the default one is disabled.
pub proof fn law_new_limiters(
    enabled: bool,
    limiter: KvCacheUtilizationRateLimiter,
    default_limiter: KvCacheUtilizationRateLimiter,
)
    requires
        call_ensures(KvCacheUtilizationRateLimiter::new, (enabled,), limiter),
        call_ensures(
            <KvCacheUtilizationRateLimiter as Default>::default,
            (),
            default_limiter,
        ),
    ensures
        limiter@.enabled == enabled,
        !default_limiter@.enabled,
        forall|model: Seq<char>| !#[trigger] limiter@.active.contains_key(model),
        forall|model: Seq<char>| !#[trigger] limiter@.thresholds.contains_key(model),
        forall|model: Seq<char>| !#[trigger] default_limiter@.active.contains_key(model),
        forall|model: Seq<char>| !#[trigger] default_limiter@.thresholds.contains_key(model),
{
}

/// A disabled limiter admits. An enabled one admits exactly where the recorded utilization, or
/// zero, is a number at or below the recorded threshold, or one: by the bits where both are
/// without sign, the other way round where both have one.
pub proof fn law_admission(
    limiter: KvCacheUtilizationRateLimiter,
    model_name: &str,
    utilization: Utilization,
    threshold: Utilization,
    admitted: bool,
)
    requires
        call_ensures(
            KvCacheUtilizationRateLimiter::can_schedule_request,
            (&limiter, model_name),
            admitted,
        ),
        is_recorded(limiter@.active, model_name@, 0, utilization),
        is_recorded(limiter@.thresholds, model_name@, 0x3FF0_0000_0000_0000, threshold),
    ensures
        !limiter@.enabled ==> admitted,
        limiter@.enabled && utilization.bits <= 0x7FF0_0000_0000_0000 && threshold.bits
            <= 0x7FF0_0000_0000_0000 ==> (admitted <==> utilization.bits <= threshold.bits),
        limiter@.enabled && 0x8000_0000_0000_0000 <= utilization.bits <= 0xFFF0_0000_0000_0000
            && 0x8000_0000_0000_0000 <= threshold.bits <= 0xFFF0_0000_0000_0000 ==> (admitted
            <==> threshold.bits <= utilization.bits),
        limiter@.enabled && 0x8000_0000_0000_0000 <= utilization.bits <= 0xFFF0_0000_0000_0000
            && threshold.bits <= 0x7FF0_0000_0000_0000 ==> admitted,
        limiter@.enabled && utilization.bits <= 0x7FF0_0000_0000_0000 && 0x8000_0000_0000_0000
            <= threshold.bits <= 0xFFF0_0000_0000_0000 ==> (admitted <==> utilization.bits == 0
            && threshold.bits == 0x8000_0000_0000_0000),
        limiter@.enabled && 0x7FF0_0000_0000_0000 < utilization.bits < 0x8000_0000_0000_0000
            ==> !admitted,
        limiter@.enabled && 0xFFF0_0000_0000_0000 < utilization.bits ==> !admitted,
        limiter@.enabled && 0x7FF0_0000_0000_0000 < threshold.bits < 0x8000_0000_0000_0000
            ==> !admitted,
        limiter@.enabled && 0xFFF0_0000_0000_0000 < threshold.bits ==> !admitted,
{
}

/// To register a threshold gives it to a model that has none, and does nothing else: a threshold
/// that is there stays, and all utilization, that of the model included, is left as it is.
pub proof fn law_registration(
    limiter: &mut KvCacheUtilizationRateLimiter,
    model_name: &str,
    threshold: Utilization,
)
    requires
        call_ensures(
            KvCacheUtilizationRateLimiter::register_threshold,
            (limiter, model_name, threshold),
            (),
        ),
    ensures
        final(limiter)@.enabled == old(limiter)@.enabled,
        final(limiter)@.active == old(limiter)@.active,
        final(limiter)@.thresholds.contains_key(model_name@),
        !old(limiter)@.thresholds.contains_key(model_name@) ==> final(limiter)@.thresholds[model_name@] == threshold,
        old(limiter)@.thresholds.contains_key(model_name@) ==> final(limiter)@.thresholds == old(limiter)@.thresholds,
        final(limiter)@.thresholds.remove(model_name@) =~= old(limiter)@.thresholds.remove(
            model_name@,
        ),
{
}

/// A model that gets its first threshold, neither it nor the utilization negative, is admitted from
/// there exactly where the utilization recorded before is at or below it.
pub proof fn law_first_threshold_decides(
    limiter: &mut KvCacheUtilizationRateLimiter,
    model_name: &str,
    threshold: Utilization,
    utilization: Utilization,
    admitted: bool,
)
    requires
        old(limiter)@.enabled,
        !old(limiter)@.thresholds.contains_key(model_name@),
        is_recorded(old(limiter)@.active, model_name@, 0, utilization),
        utilization.bits <= 0x7FF0_0000_0000_0000,
        threshold.bits <= 0x7FF0_0000_0000_0000,
        call_ensures(
            KvCacheUtilizationRateLimiter::register_threshold,
            (limiter, model_name, threshold),
            (),
        ),
        call_ensures(
            KvCacheUtilizationRateLimiter::can_schedule_request,
            (&*final(limiter), model_name),
            admitted,
        ),
    ensures
        admitted <==> utilization.bits <= threshold.bits,
{
}

/// A started request leaves the model with the sum of what was recorded, or zero, and the rate, and
/// changes nothing else.
pub proof fn law_started_request<Plus: Fn(Utilization, Utilization) -> Utilization>(
    limiter: &mut KvCacheUtilizationRateLimiter,
    model_name: &str,
    kv_allocation_rate: Utilization,
    plus: Plus,
    utilization: Utilization,
)
    requires
        is_recorded(old(limiter)@.active, model_name@, 0, utilization),
        call_ensures(
            KvCacheUtilizationRateLimiter::add_started_request_utilization::<Plus>,
            (limiter, model_name, kv_allocation_rate, plus),
            (),
        ),
    ensures
        final(limiter)@.active.contains_key(model_name@),
        call_ensures(
            plus,
            (utilization, kv_allocation_rate),
            final(limiter)@.active[model_name@],
        ),
        final(limiter)@.active.remove(model_name@) =~= old(limiter)@.active.remove(model_name@),
        final(limiter)@.thresholds == old(limiter)@.thresholds,
        final(limiter)@.enabled == old(limiter)@.enabled,
{
}

/// A finished request leaves the model with the difference of what was recorded, or zero, and the
/// rate, where that is a number without sign, and with zero otherwise. It changes nothing else.
pub proof fn law_finished_request<Subtract: Fn(Utilization, Utilization) -> Utilization>(
    limiter: &mut KvCacheUtilizationRateLimiter,
    model_name: &str,
    kv_allocation_rate: Utilization,
    subtract: Subtract,
    utilization: Utilization,
)
    requires
        is_recorded(old(limiter)@.active, model_name@, 0, utilization),
        call_ensures(
            KvCacheUtilizationRateLimiter::subtract_finished_request_utilization::<Subtract>,
            (limiter, model_name, kv_allocation_rate, subtract),
            (),
        ),
    ensures
        final(limiter)@.active.contains_key(model_name@),
        exists|difference: Utilization| #[trigger]
            call_ensures(subtract, (utilization, kv_allocation_rate), difference) && (
            difference.bits <= 0x7FF0_0000_0000_0000 ==> final(limiter)@.active[model_name@]
                == difference) && (difference.bits > 0x7FF0_0000_0000_0000 ==> final(limiter)@.active[model_name@].bits == 0),
        final(limiter)@.active.remove(model_name@) =~= old(limiter)@.active.remove(model_name@),
        final(limiter)@.thresholds == old(limiter)@.thresholds,
        final(limiter)@.enabled == old(limiter)@.enabled,
{
    assert(old(limiter)@.utilization(model_name@) == utilization);
}

/// A removed model has neither utilization nor threshold, and is admitted; what is recorded of the
/// others stays.
pub proof fn law_removal(
    limiter: &mut KvCacheUtilizationRateLimiter,
    model_name: &str,
    admitted: bool,
)
    requires
        call_ensures(
            KvCacheUtilizationRateLimiter::remove_rate_limiter_model_entry,
            (limiter, model_name),
            (),
        ),
        call_ensures(
            KvCacheUtilizationRateLimiter::can_schedule_request,
            (&*final(limiter), model_name),
            admitted,
        ),
    ensures
        !final(limiter)@.active.contains_key(model_name@),
        !final(limiter)@.thresholds.contains_key(model_name@),
        final(limiter)@.active.remove(model_name@) =~= old(limiter)@.active.remove(model_name@),
        final(limiter)@.thresholds.remove(model_name@) =~= old(limiter)@.thresholds.remove(
            model_name@,
        ),
        final(limiter)@.enabled == old(limiter)@.enabled,
        admitted,
{
}

/// Two limiters that are enabled alike and record the same of a model give the same answer for it,
/// whatever they record of others.
pub proof fn law_answer_depends_on_the_model_alone(
    first: KvCacheUtilizationRateLimiter,
    second: KvCacheUtilizationRateLimiter,
    model_name: &str,
    first_answer: bool,
    second_answer: bool,
)
    requires
        first@.enabled == second@.enabled,
        first@.active.contains_key(model_name@) == second@.active.contains_key(model_name@),
        first@.active.contains_key(model_name@) ==> first@.active[model_name@]
            == second@.active[model_name@],
        first@.thresholds.contains_key(model_name@) == second@.thresholds.contains_key(
            model_name@,
        ),
        first@.thresholds.contains_key(model_name@) ==> first@.thresholds[model_name@]
            == second@.thresholds[model_name@],
        call_ensures(
            KvCacheUtilizationRateLimiter::can_schedule_request,
            (&first, model_name),
            first_answer,
        ),
        call_ensures(
            KvCacheUtilizationRateLimiter::can_schedule_request,
            (&second, model_name),
            second_answer,
        ),
    ensures
        first_answer == second_answer,
{
}

/// There is a monitor exactly for an enabled limiter. It is for the given model, with the given
/// maximum, or one where none is given.
pub proof fn law_monitor_is_for_enabled_limiters(
    limiter: KvCacheUtilizationRateLimiter,
    model_name: &str,
    max_kv_cache_utilization_rate: Option<Utilization>,
    monitor: Option<UtilizationMonitor>,
)
    requires
        call_ensures(
            KvCacheUtilizationRateLimiter::start_monitoring,
            (&limiter, model_name, max_kv_cache_utilization_rate),
            monitor,
        ),
    ensures
        monitor is Some <==> limiter@.enabled,
        monitor is Some ==> monitor->0.model_name@ == model_name@,
        monitor is Some && max_kv_cache_utilization_rate is Some
            ==> monitor->0.max_kv_cache_utilization_rate == max_kv_cache_utilization_rate->0,
        monitor is Some && max_kv_cache_utilization_rate is None
            ==> monitor->0.max_kv_cache_utilization_rate.bits == 0x3FF0_0000_0000_0000,
{
}

/// A subscribed monitor gives its model its maximum for a threshold, unless the model has one, and
/// leaves all utilization, that of the model included, as it is.
pub proof fn law_subscription(
    monitor: UtilizationMonitor,
    limiter: &mut KvCacheUtilizationRateLimiter,
)
    requires
        call_ensures(UtilizationMonitor::on_subscribed, (&monitor, limiter), ()),
    ensures
        final(limiter)@.enabled == old(limiter)@.enabled,
        final(limiter)@.active == old(limiter)@.active,
        final(limiter)@.thresholds.contains_key(monitor.model_name@),
        !old(limiter)@.thresholds.contains_key(monitor.model_name@) ==> final(limiter)@.thresholds[monitor.model_name@] == monitor.max_kv_cache_utilization_rate,
        old(limiter)@.thresholds.contains_key(monitor.model_name@) ==> final(limiter)@.thresholds
            == old(limiter)@.thresholds,
        final(limiter)@.thresholds.remove(monitor.model_name@) =~= old(limiter)@.thresholds.remove(monitor.model_name@),
{
}

/// The allocation rate is one minus the quotient of the blocks found and the blocks of the input,
/// for every input that has any; for an empty input it is one minus zero.
pub proof fn law_allocation_rate<
    Divide: Fn(usize, usize) -> Utilization,
    Subtract: Fn(Utilization, Utilization) -> Utilization,
>(
    event: KVHitRateEvent,
    divide: Divide,
    subtract: Subtract,
    rate: Utilization,
    one: Utilization,
    zero: Utilization,
)
    requires
        call_ensures(
            rate_limiter::allocation_rate::<Divide, Subtract>,
            (&event, &divide, &subtract),
            rate,
        ),
        one.bits == 0x3FF0_0000_0000_0000,
        zero.bits == 0,
    ensures
        event.isl_blocks > 0 ==> exists|quotient: Utilization| #[trigger]
            call_ensures(divide, (event.overlap_blocks, event.isl_blocks), quotient)
                && call_ensures(subtract, (one, quotient), rate),
        event.isl_blocks == 0 ==> call_ensures(subtract, (one, zero), rate),
{
    law_allocation_rate_relation(event, divide, subtract, rate, one, zero);
}

/// The same of the relation that the contracts speak of, which holds of no other rate.
pub proof fn law_allocation_rate_relation<
    Divide: Fn(usize, usize) -> Utilization,
    Subtract: Fn(Utilization, Utilization) -> Utilization,
>(
    event: KVHitRateEvent,
    divide: Divide,
    subtract: Subtract,
    rate: Utilization,
    one: Utilization,
    zero: Utilization,
)
    requires
        one.bits == 0x3FF0_0000_0000_0000,
        zero.bits == 0,
    ensures
        event.isl_blocks > 0 ==> (rate_limiter::is_allocation_rate(event, divide, subtract, rate)
            <==> exists|quotient: Utilization| #[trigger]
            call_ensures(divide, (event.overlap_blocks, event.isl_blocks), quotient)
                && call_ensures(subtract, (one, quotient), rate)),
        event.isl_blocks == 0 ==> (rate_limiter::is_allocation_rate(event, divide, subtract, rate)
            <==> call_ensures(subtract, (one, zero), rate)),
{
    assert(one == Utilization::one());
    assert(zero == Utilization::zero());
    if rate_limiter::is_allocation_rate(event, divide, subtract, rate) {
        let hit_rate = choose|hit_rate: Utilization| #[trigger]
            rate_limiter::is_hit_rate(event, divide, hit_rate) && call_ensures(
                subtract,
                (Utilization::one(), hit_rate),
                rate,
            );
        assert(rate_limiter::is_hit_rate(event, divide, hit_rate));
    }
    assert(forall|hit_rate: Utilization| #[trigger]
        call_ensures(divide, (event.overlap_blocks, event.isl_blocks), hit_rate)
            && event.isl_blocks > 0 ==> rate_limiter::is_hit_rate(event, divide, hit_rate));
    assert(event.isl_blocks == 0 ==> rate_limiter::is_hit_rate(event, divide, zero));
}

/// The monitor leaves its loop at the end of the stream and at nothing else; it adds for every hit
/// rate event, and for nothing else.
pub proof fn law_step_actions<
    Divide: Fn(usize, usize) -> Utilization,
    Subtract: Fn(Utilization, Utilization) -> Utilization,
    Plus: Fn(Utilization, Utilization) -> Utilization,
>(
    before: RateLimiterView,
    after: RateLimiterView,
    model: Seq<char>,
    event: UtilizationEvent,
    action: UtilizationAction,
    divide: Divide,
    subtract: Subtract,
    plus: Plus,
)
    requires
        rate_limiter::is_step(before, after, model, event, action, divide, subtract, plus),
    ensures
        action is Stop <==> event is StreamEnded,
        action is Added <==> event is HitRate,
        action is KeepWaiting <==> event is UndecodableMessage,
        !(event is HitRate) ==> after == before,
{
}

/// A hit rate event adds one minus the hit rate to the utilization of the monitor's model, names
/// that rate in its action and has the monitor wait on, whatever the event holds. Nothing else is
/// changed.
pub proof fn law_hit_rate_event<
    Divide: Fn(usize, usize) -> Utilization,
    Subtract: Fn(Utilization, Utilization) -> Utilization,
    Plus: Fn(Utilization, Utilization) -> Utilization,
>(
    monitor: UtilizationMonitor,
    limiter: &mut KvCacheUtilizationRateLimiter,
    kv_event: KVHitRateEvent,
    divide: Divide,
    subtract: Subtract,
    plus: Plus,
    action: UtilizationAction,
    utilization: Utilization,
    one: Utilization,
    zero: Utilization,
)
    requires
        call_ensures(
            UtilizationMonitor::on_event::<Divide, Subtract, Plus>,
            (
                &monitor,
                limiter,
                UtilizationEvent::HitRate(kv_event),
                divide,
                subtract,
                plus,
            ),
            action,
        ),
        is_recorded(old(limiter)@.active, monitor.model_name@, 0, utilization),
        one.bits == 0x3FF0_0000_0000_0000,
        zero.bits == 0,
    ensures
        action is Added,
        kv_event.isl_blocks > 0 ==> exists|quotient: Utilization| #[trigger]
            call_ensures(divide, (kv_event.overlap_blocks, kv_event.isl_blocks), quotient)
                && call_ensures(subtract, (one, quotient), action->0),
        kv_event.isl_blocks == 0 ==> call_ensures(subtract, (one, zero), action->0),
        final(limiter)@.active.contains_key(monitor.model_name@),
        call_ensures(
            plus,
            (utilization, action->0),
            final(limiter)@.active[monitor.model_name@],
        ),
        final(limiter)@.active.remove(monitor.model_name@) =~= old(limiter)@.active.remove(
            monitor.model_name@,
        ),
        final(limiter)@.thresholds == old(limiter)@.thresholds,
        final(limiter)@.enabled == old(limiter)@.enabled,
{
    law_allocation_rate_relation(kv_event, divide, subtract, action->0, one, zero);
}

/// What is no hit rate event leaves the limiter as it is. After a message that cannot be decoded
/// the monitor waits on; at the end of the stream it leaves its loop.
pub proof fn law_other_events_leave_the_limiter<
    Divide: Fn(usize, usize) -> Utilization,
    Subtract: Fn(Utilization, Utilization) -> Utilization,
    Plus: Fn(Utilization, Utilization) -> Utilization,
>(
    monitor: UtilizationMonitor,
    limiter: &mut KvCacheUtilizationRateLimiter,
    event: UtilizationEvent,
    divide: Divide,
    subtract: Subtract,
    plus: Plus,
    action: UtilizationAction,
)
    requires
        call_ensures(
            UtilizationMonitor::on_event::<Divide, Subtract, Plus>,
            (&monitor, limiter, event, divide, subtract, plus),
            action,
        ),
        !(event is HitRate),
    ensures
        final(limiter)@ == old(limiter)@,
        event is UndecodableMessage ==> action is KeepWaiting,
        event is StreamEnded ==> action is Stop,
{
}

/// The model of the limiter reads, records and decides by the recorded amounts and their bits.
pub proof fn law_model_is_that_of_the_records(
    limiter: RateLimiterView,
    model: Seq<char>,
    amount: Utilization,
)
    ensures
        is_recorded(limiter.active, model, 0, limiter.utilization(model)),
        is_recorded(limiter.thresholds, model, 0x3FF0_0000_0000_0000, limiter.threshold(model)),
        limiter.with_threshold(model, amount).active == limiter.active,
        limiter.with_threshold(model, amount).enabled == limiter.enabled,
        limiter.with_threshold(model, amount).utilization(model) == limiter.utilization(model),
        limiter.with_threshold(model, amount).thresholds.dom() =~= limiter.thresholds.dom().insert(
            model,
        ),
        limiter.with_utilization(model, amount).thresholds == limiter.thresholds,
        limiter.with_utilization(model, amount).active.dom() =~= limiter.active.dom().insert(model),
        limiter.with_utilization(model, amount).active[model] == amount,
        limiter.without(model).active.dom() =~= limiter.active.dom().remove(model),
        limiter.without(model).thresholds.dom() =~= limiter.thresholds.dom().remove(model),
        limiter.enabled && limiter.utilization(model).bits <= 0x7FF0_0000_0000_0000
            && limiter.threshold(model).bits <= 0x7FF0_0000_0000_0000 ==> (limiter.admits(model)
            <==> limiter.utilization(model).bits <= limiter.threshold(model).bits),
{
}

} // verus!
