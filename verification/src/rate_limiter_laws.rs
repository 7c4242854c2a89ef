//! What holds of the rate limiter as a whole.
use vstd::prelude::*;

use crate::rate_limiter;
use crate::rate_limiter::{RateLimiterView, UtilizationAction, UtilizationEvent};
use crate::utilization::Utilization;

verus! {

/// A disabled limiter admits every request.
pub proof fn law_disabled_admits_everything(limiter: RateLimiterView, model: Seq<char>)
    requires
        !limiter.enabled,
    ensures
        limiter.admits(model),
{
}

/// A model of which nothing is known is admitted.
pub proof fn law_unknown_model_is_admitted(limiter: RateLimiterView, model: Seq<char>)
    requires
        !limiter.active.contains_key(model),
        !limiter.thresholds.contains_key(model),
    ensures
        limiter.admits(model),
{
}

/// An enabled limiter refuses a model whose aggregate utilization exceeds its threshold, or where
/// either of the two is not a number.
pub proof fn law_enabled_refuses_above_threshold(limiter: RateLimiterView, model: Seq<char>)
    requires
        limiter.enabled,
    ensures
        !limiter.admits(model) <==> {
            ||| limiter.utilization(model).not_a_number()
            ||| limiter.threshold(model).not_a_number()
            ||| limiter.utilization(model).rank() > limiter.threshold(model).rank()
        },
{
}

/// The first threshold that a model gets is the one that it keeps.
pub proof fn law_first_threshold_stays(
    limiter: RateLimiterView,
    model: Seq<char>,
    first: Utilization,
    second: Utilization,
)
    ensures
        limiter.with_threshold(model, first).with_threshold(model, second)
            == limiter.with_threshold(model, first),
        !limiter.thresholds.contains_key(model) ==> limiter.with_threshold(model, first).threshold(
            model,
        ) == first,
{
}

/// A recorded aggregate utilization is read back, and replaces the one before.
pub proof fn law_utilization_is_read_back(
    limiter: RateLimiterView,
    model: Seq<char>,
    first: Utilization,
    second: Utilization,
)
    ensures
        limiter.with_utilization(model, first).utilization(model) == first,
        limiter.with_utilization(model, first).with_utilization(model, second)
            =~= limiter.with_utilization(model, second),
        limiter.with_utilization(model, first).threshold(model) == limiter.threshold(model),
{
}

/// What is done to one model leaves every other one as it is.
pub proof fn law_models_are_independent(
    limiter: RateLimiterView,
    model: Seq<char>,
    other: Seq<char>,
    amount: Utilization,
)
    requires
        model != other,
    ensures
        limiter.with_threshold(model, amount).utilization(other) == limiter.utilization(other),
        limiter.with_threshold(model, amount).threshold(other) == limiter.threshold(other),
        limiter.with_threshold(model, amount).admits(other) == limiter.admits(other),
        limiter.with_utilization(model, amount).utilization(other) == limiter.utilization(other),
        limiter.with_utilization(model, amount).threshold(other) == limiter.threshold(other),
        limiter.with_utilization(model, amount).admits(other) == limiter.admits(other),
        limiter.without(model).utilization(other) == limiter.utilization(other),
        limiter.without(model).threshold(other) == limiter.threshold(other),
        limiter.without(model).admits(other) == limiter.admits(other),
{
}

/// Nothing that is done to a model enables or disables the limiter.
pub proof fn law_enabled_never_changes(
    limiter: RateLimiterView,
    model: Seq<char>,
    amount: Utilization,
)
    ensures
        limiter.with_threshold(model, amount).enabled == limiter.enabled,
        limiter.with_utilization(model, amount).enabled == limiter.enabled,
        limiter.without(model).enabled == limiter.enabled,
{
}

/// A removed model is as good as new: it has no utilization and the default threshold, and is
/// admitted.
pub proof fn law_removed_model_starts_over(limiter: RateLimiterView, model: Seq<char>)
    ensures
        limiter.without(model).utilization(model) == Utilization::zero(),
        limiter.without(model).threshold(model) == Utilization::one(),
        limiter.without(model).admits(model),
        limiter.without(model).without(model) =~= limiter.without(model),
{
}

/// Removing a model undoes whatever was recorded of it.
pub proof fn law_remove_undoes_recording(
    limiter: RateLimiterView,
    model: Seq<char>,
    threshold: Utilization,
    utilization: Utilization,
)
    ensures
        limiter.with_threshold(model, threshold).without(model) =~= limiter.without(model),
        limiter.with_utilization(model, utilization).without(model) =~= limiter.without(model),
        !limiter.active.contains_key(model) && !limiter.thresholds.contains_key(model)
            ==> limiter.without(model) =~= limiter,
{
}

/// A model that is refused stays refused while its aggregate utilization grows.
pub proof fn law_growth_never_admits(
    limiter: RateLimiterView,
    model: Seq<char>,
    sum: Utilization,
)
    requires
        limiter.utilization(model).at_most(sum),
        !limiter.admits(model),
    ensures
        !limiter.with_utilization(model, sum).admits(model),
{
}

/// A finished request never leaves a negative aggregate utilization, whatever the difference.
pub proof fn law_finished_request_leaves_no_debt(
    limiter: RateLimiterView,
    model: Seq<char>,
    difference: Utilization,
)
    ensures
        Utilization::zero().at_most(
            limiter.with_utilization(model, difference.floored()).utilization(model),
        ),
{
}

/// A finished request never gets an admitted model refused, where its threshold is not negative:
/// neither if the difference is at most the aggregate utilization, nor if it is not a number.
pub proof fn law_finished_request_never_refuses(
    limiter: RateLimiterView,
    model: Seq<char>,
    difference: Utilization,
)
    requires
        limiter.admits(model),
        difference.not_a_number() || difference.at_most(limiter.utilization(model)),
        Utilization::zero().at_most(limiter.threshold(model)),
    ensures
        limiter.with_utilization(model, difference.floored()).admits(model),
{
}

/// Whether taking an amount that is not negative from another one gives no more than that one, or
/// what is not a number. Double-precision subtraction does so, however it rounds.
pub open spec fn never_grows<Subtract: Fn(Utilization, Utilization) -> Utilization>(
    subtract: Subtract,
) -> bool {
    forall|from: Utilization, amount: Utilization, difference: Utilization|
        #![trigger call_ensures(subtract, (from, amount), difference)]
        Utilization::zero().at_most(amount) && call_ensures(subtract, (from, amount), difference)
            ==> difference.not_a_number() || difference.at_most(from)
}

/// A finished request whose allocation rate is not negative never gets an admitted model refused,
/// where its threshold is not negative.
pub proof fn law_nonnegative_rate_never_refuses<
    Subtract: Fn(Utilization, Utilization) -> Utilization,
>(
    limiter: RateLimiterView,
    model: Seq<char>,
    kv_allocation_rate: Utilization,
    subtract: Subtract,
    difference: Utilization,
)
    requires
        never_grows(subtract),
        Utilization::zero().at_most(kv_allocation_rate),
        Utilization::zero().at_most(limiter.threshold(model)),
        limiter.admits(model),
        call_ensures(subtract, (limiter.utilization(model), kv_allocation_rate), difference),
    ensures
        limiter.with_utilization(model, difference.floored()).admits(model),
{
    law_finished_request_never_refuses(limiter, model, difference);
}

/// Whether `subtract` takes `amount` away again after `plus` has added it to `to`, up to the sign
/// of a zero. Double-precision arithmetic does so wherever it rounds neither result.
pub open spec fn gives_back<
    Plus: Fn(Utilization, Utilization) -> Utilization,
    Subtract: Fn(Utilization, Utilization) -> Utilization,
>(plus: Plus, subtract: Subtract, to: Utilization, amount: Utilization) -> bool {
    forall|sum: Utilization, difference: Utilization|
        #![trigger call_ensures(plus, (to, amount), sum), call_ensures(subtract, (sum, amount), difference)]
        call_ensures(plus, (to, amount), sum) && call_ensures(subtract, (sum, amount), difference)
            ==> !difference.not_a_number() && difference.rank() == to.rank()
}

/// A request that starts and then finishes leaves the limiter deciding as before, where the
/// aggregate utilization was not negative and the arithmetic gives the rate back.
pub proof fn law_finish_undoes_start<
    Plus: Fn(Utilization, Utilization) -> Utilization,
    Subtract: Fn(Utilization, Utilization) -> Utilization,
>(
    before: RateLimiterView,
    between: RateLimiterView,
    model: Seq<char>,
    kv_allocation_rate: Utilization,
    plus: Plus,
    subtract: Subtract,
    difference: Utilization,
)
    requires
        gives_back(plus, subtract, before.utilization(model), kv_allocation_rate),
        Utilization::zero().at_most(before.utilization(model)),
        rate_limiter::is_addition(before, between, model, kv_allocation_rate, plus),
        call_ensures(subtract, (between.utilization(model), kv_allocation_rate), difference),
    ensures
        ({
            let after = between.with_utilization(model, difference.floored());
            &&& after.utilization(model).rank() == before.utilization(model).rank()
            &&& after.admits(model) == before.admits(model)
        }),
{
}

/// Whether `total` is `partial` with the allocation rate of `event` added, where that is a hit
/// rate event, and `partial` itself otherwise.
pub open spec fn is_next_total<
    Divide: Fn(usize, usize) -> Utilization,
    Subtract: Fn(Utilization, Utilization) -> Utilization,
    Plus: Fn(Utilization, Utilization) -> Utilization,
>(
    partial: Utilization,
    event: UtilizationEvent,
    divide: Divide,
    subtract: Subtract,
    plus: Plus,
    total: Utilization,
) -> bool {
    match event {
        UtilizationEvent::HitRate(kv_event) => exists|rate: Utilization| #[trigger]
            rate_limiter::is_allocation_rate(kv_event, divide, subtract, rate) && call_ensures(
                plus,
                (partial, rate),
                total,
            ),
        UtilizationEvent::UndecodableMessage | UtilizationEvent::StreamEnded => total == partial,
    }
}

/// Whether `totals` are `start` and what comes of it as the allocation rates of the hit rate events
/// in `events` are added, one after the other.
pub open spec fn are_totals<
    Divide: Fn(usize, usize) -> Utilization,
    Subtract: Fn(Utilization, Utilization) -> Utilization,
    Plus: Fn(Utilization, Utilization) -> Utilization,
>(
    totals: Seq<Utilization>,
    start: Utilization,
    events: Seq<UtilizationEvent>,
    divide: Divide,
    subtract: Subtract,
    plus: Plus,
) -> bool {
    &&& totals.len() == events.len() + 1
    &&& totals[0] == start
    &&& forall|i: int|
        0 <= i < events.len() ==> is_next_total(
            totals[i],
            #[trigger] events[i],
            divide,
            subtract,
            plus,
            totals[i + 1],
        )
}

/// Whether `total` is `start` with the allocation rate of each hit rate event in `events` added to
/// it, one after the other.
pub open spec fn is_total<
    Divide: Fn(usize, usize) -> Utilization,
    Subtract: Fn(Utilization, Utilization) -> Utilization,
    Plus: Fn(Utilization, Utilization) -> Utilization,
>(
    start: Utilization,
    events: Seq<UtilizationEvent>,
    divide: Divide,
    subtract: Subtract,
    plus: Plus,
    total: Utilization,
) -> bool {
    exists|totals: Seq<Utilization>| #[trigger]
        are_totals(totals, start, events, divide, subtract, plus) && totals.last() == total
}

/// Whether the monitor of the model takes the limiter through `limiters` while it handles
/// `events`, one after the other, with nothing else in between.
pub open spec fn is_run<
    Divide: Fn(usize, usize) -> Utilization,
    Subtract: Fn(Utilization, Utilization) -> Utilization,
    Plus: Fn(Utilization, Utilization) -> Utilization,
>(
    limiters: Seq<RateLimiterView>,
    model: Seq<char>,
    events: Seq<UtilizationEvent>,
    actions: Seq<UtilizationAction>,
    divide: Divide,
    subtract: Subtract,
    plus: Plus,
) -> bool {
    &&& limiters.len() == events.len() + 1
    &&& actions.len() == events.len()
    &&& forall|i: int|
        0 <= i < events.len() ==> rate_limiter::is_step(
            limiters[i],
            limiters[i + 1],
            model,
            #[trigger] events[i],
            actions[i],
            divide,
            subtract,
            plus,
        )
}

/// Monitoring adds up: after any events, the aggregate utilization of the model is the one before
/// them with the allocation rate of each hit rate event added in order, and nothing else has
/// changed.
pub proof fn law_monitoring_adds_up<
    Divide: Fn(usize, usize) -> Utilization,
    Subtract: Fn(Utilization, Utilization) -> Utilization,
    Plus: Fn(Utilization, Utilization) -> Utilization,
>(
    limiters: Seq<RateLimiterView>,
    model: Seq<char>,
    events: Seq<UtilizationEvent>,
    actions: Seq<UtilizationAction>,
    divide: Divide,
    subtract: Subtract,
    plus: Plus,
)
    requires
        is_run(limiters, model, events, actions, divide, subtract, plus),
    ensures
        is_total(
            limiters.first().utilization(model),
            events,
            divide,
            subtract,
            plus,
            limiters.last().utilization(model),
        ),
        limiters.last().enabled == limiters.first().enabled,
        limiters.last().thresholds == limiters.first().thresholds,
        limiters.last().active.remove(model) =~= limiters.first().active.remove(model),
        forall|other: Seq<char>|
            other != model ==> #[trigger] limiters.last().utilization(other)
                == limiters.first().utilization(other),
        forall|other: Seq<char>|
            other != model ==> #[trigger] limiters.last().admits(other)
                == limiters.first().admits(other),
{
    let totals = limiters.map_values(|limiter: RateLimiterView| limiter.utilization(model));
    assert forall|i: int| 0 <= i < events.len() implies is_next_total(
        totals[i],
        #[trigger] events[i],
        divide,
        subtract,
        plus,
        totals[i + 1],
    ) by {
        assert(rate_limiter::is_step(
            limiters[i],
            limiters[i + 1],
            model,
            events[i],
            actions[i],
            divide,
            subtract,
            plus,
        ));
    }
    assert(are_totals(totals, limiters.first().utilization(model), events, divide, subtract, plus));
    lemma_run_leaves_the_rest(
        limiters,
        model,
        events,
        actions,
        divide,
        subtract,
        plus,
        events.len() as int,
    );
    assert forall|other: Seq<char>| other != model implies #[trigger] limiters.last().utilization(
        other,
    ) == limiters.first().utilization(other) by {
        lemma_same_rest(limiters.first(), limiters.last(), model, other);
    }
    assert forall|other: Seq<char>| other != model implies #[trigger] limiters.last().admits(other)
        == limiters.first().admits(other) by {
        lemma_same_rest(limiters.first(), limiters.last(), model, other);
    }
}

/// The first `n` steps of a run change the aggregate utilization of the model alone.
proof fn lemma_run_leaves_the_rest<
    Divide: Fn(usize, usize) -> Utilization,
    Subtract: Fn(Utilization, Utilization) -> Utilization,
    Plus: Fn(Utilization, Utilization) -> Utilization,
>(
    limiters: Seq<RateLimiterView>,
    model: Seq<char>,
    events: Seq<UtilizationEvent>,
    actions: Seq<UtilizationAction>,
    divide: Divide,
    subtract: Subtract,
    plus: Plus,
    n: int,
)
    requires
        is_run(limiters, model, events, actions, divide, subtract, plus),
        0 <= n <= events.len(),
    ensures
        limiters[n].enabled == limiters[0].enabled,
        limiters[n].thresholds == limiters[0].thresholds,
        limiters[n].active.remove(model) =~= limiters[0].active.remove(model),
    decreases n,
{
    if n > 0 {
        lemma_run_leaves_the_rest(
            limiters,
            model,
            events,
            actions,
            divide,
            subtract,
            plus,
            n - 1,
        );
        assert(rate_limiter::is_step(
            limiters[n - 1],
            limiters[n],
            model,
            events[n - 1],
            actions[n - 1],
            divide,
            subtract,
            plus,
        ));
        assert(limiters[n].active.remove(model) =~= limiters[n - 1].active.remove(model));
    }
}

/// Two limiters that differ in the aggregate utilization of one model alone treat every other one
/// alike.
proof fn lemma_same_rest(
    first: RateLimiterView,
    second: RateLimiterView,
    model: Seq<char>,
    other: Seq<char>,
)
    requires
        first.enabled == second.enabled,
        first.thresholds == second.thresholds,
        first.active.remove(model) == second.active.remove(model),
        other != model,
    ensures
        first.utilization(other) == second.utilization(other),
        first.admits(other) == second.admits(other),
{
    assert(first.active.remove(model).contains_key(other) == first.active.contains_key(other));
    assert(second.active.remove(model).contains_key(other) == second.active.contains_key(other));
    if first.active.contains_key(other) {
        assert(first.active.remove(model)[other] == first.active[other]);
        assert(second.active.remove(model)[other] == second.active[other]);
    }
}

/// Whether an operation gives one result for the same operands.
pub open spec fn is_function<A, B, Op: Fn(A, B) -> Utilization>(op: Op) -> bool {
    forall|a: A, b: B, x: Utilization, y: Utilization|
        #![trigger call_ensures(op, (a, b), x), call_ensures(op, (a, b), y)]
        call_ensures(op, (a, b), x) && call_ensures(op, (a, b), y) ==> x == y
}

/// Where the arithmetic gives one result for the same operands, the events determine the total.
pub proof fn law_total_is_determined<
    Divide: Fn(usize, usize) -> Utilization,
    Subtract: Fn(Utilization, Utilization) -> Utilization,
    Plus: Fn(Utilization, Utilization) -> Utilization,
>(
    start: Utilization,
    events: Seq<UtilizationEvent>,
    divide: Divide,
    subtract: Subtract,
    plus: Plus,
    first: Utilization,
    second: Utilization,
)
    requires
        is_function(divide),
        is_function(subtract),
        is_function(plus),
        is_total(start, events, divide, subtract, plus, first),
        is_total(start, events, divide, subtract, plus, second),
    ensures
        first == second,
{
    let first_totals = choose|totals: Seq<Utilization>| #[trigger]
        are_totals(totals, start, events, divide, subtract, plus) && totals.last() == first;
    let second_totals = choose|totals: Seq<Utilization>| #[trigger]
        are_totals(totals, start, events, divide, subtract, plus) && totals.last() == second;
    lemma_totals_agree(
        first_totals,
        second_totals,
        start,
        events,
        divide,
        subtract,
        plus,
        events.len() as int,
    );
}

/// Where the arithmetic gives one result for the same operands, the totals after `n` events agree.
proof fn lemma_totals_agree<
    Divide: Fn(usize, usize) -> Utilization,
    Subtract: Fn(Utilization, Utilization) -> Utilization,
    Plus: Fn(Utilization, Utilization) -> Utilization,
>(
    first: Seq<Utilization>,
    second: Seq<Utilization>,
    start: Utilization,
    events: Seq<UtilizationEvent>,
    divide: Divide,
    subtract: Subtract,
    plus: Plus,
    n: int,
)
    requires
        is_function(divide),
        is_function(subtract),
        is_function(plus),
        are_totals(first, start, events, divide, subtract, plus),
        are_totals(second, start, events, divide, subtract, plus),
        0 <= n <= events.len(),
    ensures
        first[n] == second[n],
    decreases n,
{
    if n > 0 {
        lemma_totals_agree(first, second, start, events, divide, subtract, plus, n - 1);
        let event = events[n - 1];
        assert(is_next_total(first[n - 1], event, divide, subtract, plus, first[n]));
        assert(is_next_total(second[n - 1], event, divide, subtract, plus, second[n]));
    }
}

} // verus!
