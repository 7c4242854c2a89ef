//! Admission of requests by the utilization of the key/value cache.
//!
//! For each model the limiter keeps the aggregate utilization of the requests in flight and a
//! threshold. A request is admitted while the aggregate is at or below the threshold.
//!
//! Amounts are double-precision numbers. The limiter stores and orders them; the operations that
//! need a sum, a difference or a quotient take the arithmetic as an argument.
use vstd::hash_map::StringHashMap;
use vstd::prelude::*;

use crate::utilization::Utilization;

verus! {

/// Rate limiter that monitors the aggregated KV cache utilization across all inflight requests
/// for a given model.
pub struct KvCacheUtilizationRateLimiter {
    /// Whether the rate limiter is enabled
    enabled: bool,
    /// The current aggregate KV cache utilization for each model
    active_requests: StringHashMap<Utilization>,
    /// The maximum allowed aggregate KV cache utilization rate for each model
    max_kv_cache_utilization_rate_thresholds: StringHashMap<Utilization>,
}

/// What a [`KvCacheUtilizationRateLimiter`] holds.
#[verifier::ext_equal]
pub struct RateLimiterView {
    /// Whether requests are ever refused.
    pub enabled: bool,
    /// The aggregate utilization of each model that has one.
    pub active: Map<Seq<char>, Utilization>,
    /// The threshold of each model that has one.
    pub thresholds: Map<Seq<char>, Utilization>,
}

impl RateLimiterView {
    /// The aggregate utilization of a model: zero where none is recorded.
    pub open spec fn utilization(self, model: Seq<char>) -> Utilization {
        if self.active.contains_key(model) {
            self.active[model]
        } else {
            Utilization::zero()
        }
    }

    /// The threshold of a model: one where none is registered.
    pub open spec fn threshold(self, model: Seq<char>) -> Utilization {
        if self.thresholds.contains_key(model) {
            self.thresholds[model]
        } else {
            Utilization::one()
        }
    }

    /// Whether a request for the model is admitted.
    pub open spec fn admits(self, model: Seq<char>) -> bool {
        !self.enabled || self.utilization(model).at_most(self.threshold(model))
    }

    /// The limiter with this threshold for the model, unless the model has one.
    pub open spec fn with_threshold(
        self,
        model: Seq<char>,
        threshold: Utilization,
    ) -> RateLimiterView {
        if self.thresholds.contains_key(model) {
            self
        } else {
            RateLimiterView { thresholds: self.thresholds.insert(model, threshold), ..self }
        }
    }

    /// The limiter with this aggregate utilization for the model.
    pub open spec fn with_utilization(
        self,
        model: Seq<char>,
        utilization: Utilization,
    ) -> RateLimiterView {
        RateLimiterView { active: self.active.insert(model, utilization), ..self }
    }

    /// The limiter without anything about the model.
    pub open spec fn without(self, model: Seq<char>) -> RateLimiterView {
        RateLimiterView {
            enabled: self.enabled,
            active: self.active.remove(model),
            thresholds: self.thresholds.remove(model),
        }
    }
}

impl View for KvCacheUtilizationRateLimiter {
    type V = RateLimiterView;

    closed spec fn view(&self) -> RateLimiterView {
        RateLimiterView {
            enabled: self.enabled,
            active: self.active_requests@,
            thresholds: self.max_kv_cache_utilization_rate_thresholds@,
        }
    }
}

impl Default for KvCacheUtilizationRateLimiter {
    fn default() -> (limiter: Self)
        ensures
            limiter@ == (RateLimiterView {
                enabled: false,
                active: Map::empty(),
                thresholds: Map::empty(),
            }),
    {
        Self::new(false)
    }
}

impl KvCacheUtilizationRateLimiter {
    /// A limiter that knows no model.
    pub fn new(enabled: bool) -> (limiter: Self)
        ensures
            limiter@ == (RateLimiterView { enabled, active: Map::empty(), thresholds: Map::empty() }),
    {
        KvCacheUtilizationRateLimiter {
            enabled,
            active_requests: StringHashMap::new(),
            max_kv_cache_utilization_rate_thresholds: StringHashMap::new(),
        }
    }

    /// The aggregate utilization of a model, zero where none is recorded.
    fn aggregate_utilization(&self, model_name: &str) -> (utilization: Utilization)
        ensures
            utilization == self@.utilization(model_name@),
    {
        match self.active_requests.get(model_name) {
            Some(utilization) => *utilization,
            None => Utilization::zero(),
        }
    }

    /// Start monitoring the KV cache utilization across all inflight requests.
    ///
    /// A disabled limiter has nothing to monitor. For an enabled one, the caller subscribes to
    /// the hit rate events and goes on with the monitor that is returned. Where no maximum is
    /// given it is one.
    pub fn start_monitoring(
        &self,
        model_name: &str,
        max_kv_cache_utilization_rate: Option<Utilization>,
    ) -> (monitor: Option<UtilizationMonitor>)
        ensures
            match monitor {
                Some(monitor) => {
                    &&& self@.enabled
                    &&& monitor.model_name@ == model_name@
                    &&& monitor.max_kv_cache_utilization_rate == (
                    match max_kv_cache_utilization_rate {
                        Some(rate) => rate,
                        None => Utilization::one(),
                    })
                },
                None => !self@.enabled,
            },
    {
        if !self.enabled {
            return None;
        }
        Some(
            UtilizationMonitor {
                model_name: model_name.to_owned(),
                max_kv_cache_utilization_rate: max_kv_cache_utilization_rate.unwrap_or(
                    Utilization::one(),
                ),
            },
        )
    }

    /// Checks if a new request can be scheduled based on the current aggregate utilization.
    pub fn can_schedule_request(&self, model_name: &str) -> (admitted: bool)
        ensures
            admitted == self@.admits(model_name@),
    {
        if !self.enabled {
            return true;
        }
        let aggregate_kv_cache_utilization = self.aggregate_utilization(model_name);
        let max_utilization = match self.max_kv_cache_utilization_rate_thresholds.get(model_name) {
            Some(threshold) => *threshold,
            None => Utilization::one(),
        };
        aggregate_kv_cache_utilization.is_at_most(max_utilization)
    }

    /// Sets the threshold of a model that has none.
    pub fn register_threshold(&mut self, model_name: &str, threshold: Utilization)
        ensures
            final(self)@ == old(self)@.with_threshold(model_name@, threshold),
    {
        if self.max_kv_cache_utilization_rate_thresholds.get(model_name).is_none() {
            self.max_kv_cache_utilization_rate_thresholds.insert(model_name.to_owned(), threshold);
        }
    }

    /// Adds the utilization of a started request to the aggregate utilization.
    ///
    /// `plus` is the sum of two amounts.
    pub fn add_started_request_utilization<Plus: Fn(Utilization, Utilization) -> Utilization>(
        &mut self,
        model_name: &str,
        kv_allocation_rate: Utilization,
        plus: Plus,
    )
        requires
            call_requires(plus, (old(self)@.utilization(model_name@), kv_allocation_rate)),
        ensures
            is_addition(old(self)@, final(self)@, model_name@, kv_allocation_rate, plus),
    {
        let sum = plus(self.aggregate_utilization(model_name), kv_allocation_rate);
        self.active_requests.insert(model_name.to_owned(), sum);
    }

    /// Subtracts the utilization of a finished request from the aggregate utilization, which does
    /// not fall below zero.
    ///
    /// `subtract` is the difference of two amounts.
    pub fn subtract_finished_request_utilization<
        Subtract: Fn(Utilization, Utilization) -> Utilization,
    >(&mut self, model_name: &str, kv_allocation_rate: Utilization, subtract: Subtract)
        requires
            call_requires(subtract, (old(self)@.utilization(model_name@), kv_allocation_rate)),
        ensures
            exists|difference: Utilization| #[trigger]
                call_ensures(
                    subtract,
                    (old(self)@.utilization(model_name@), kv_allocation_rate),
                    difference,
                ) && final(self)@ == old(self)@.with_utilization(
                    model_name@,
                    difference.floored(),
                ),
            Utilization::zero().at_most(final(self)@.utilization(model_name@)),
    {
        let difference = subtract(self.aggregate_utilization(model_name), kv_allocation_rate);
        self.active_requests.insert(model_name.to_owned(), difference.max_zero());
    }

    /// Removes the model entry from the rate limiter.
    pub fn remove_rate_limiter_model_entry(&mut self, model_name: &str)
        ensures
            final(self)@ == old(self)@.without(model_name@),
    {
        self.active_requests.remove(model_name);
        self.max_kv_cache_utilization_rate_thresholds.remove(model_name);
    }
}

/// Whether `after` is `before` with `rate` added by `plus` to the aggregate utilization of the
/// model.
pub open spec fn is_addition<Plus: Fn(Utilization, Utilization) -> Utilization>(
    before: RateLimiterView,
    after: RateLimiterView,
    model: Seq<char>,
    rate: Utilization,
    plus: Plus,
) -> bool {
    exists|sum: Utilization| #[trigger]
        call_ensures(plus, (before.utilization(model), rate), sum) && after
            == before.with_utilization(model, sum)
}

/// How much of a request's input was found in the cache of the worker that it was sent to.
#[derive(Debug, Clone, Copy)]
pub struct KVHitRateEvent {
    /// The worker.
    pub worker_id: i64,
    /// The blocks of the input.
    pub isl_blocks: usize,
    /// The blocks of the input that were found.
    pub overlap_blocks: usize,
}

/// Whether `hit_rate` is the share of the input that was found: the quotient of the blocks, or
/// zero for an empty input.
pub open spec fn is_hit_rate<Divide: Fn(usize, usize) -> Utilization>(
    event: KVHitRateEvent,
    divide: Divide,
    hit_rate: Utilization,
) -> bool {
    if event.isl_blocks > 0 {
        call_ensures(divide, (event.overlap_blocks, event.isl_blocks), hit_rate)
    } else {
        hit_rate == Utilization::zero()
    }
}

/// Whether `rate` is the share of the input for which the request allocates cache: what the hit
/// rate leaves of one.
pub open spec fn is_allocation_rate<
    Divide: Fn(usize, usize) -> Utilization,
    Subtract: Fn(Utilization, Utilization) -> Utilization,
>(event: KVHitRateEvent, divide: Divide, subtract: Subtract, rate: Utilization) -> bool {
    exists|hit_rate: Utilization| #[trigger]
        is_hit_rate(event, divide, hit_rate) && call_ensures(
            subtract,
            (Utilization::one(), hit_rate),
            rate,
        )
}

/// The share of a request's input for which it allocates cache.
///
/// `divide` is the quotient of two counts, and `subtract` the difference of two amounts.
pub fn allocation_rate<
    Divide: Fn(usize, usize) -> Utilization,
    Subtract: Fn(Utilization, Utilization) -> Utilization,
>(event: &KVHitRateEvent, divide: &Divide, subtract: &Subtract) -> (rate: Utilization)
    requires
        event.isl_blocks > 0 ==> call_requires(*divide, (event.overlap_blocks, event.isl_blocks)),
        forall|hit_rate: Utilization|
            is_hit_rate(*event, *divide, hit_rate) ==> #[trigger] call_requires(
                *subtract,
                (Utilization::one(), hit_rate),
            ),
    ensures
        is_allocation_rate(*event, *divide, *subtract, rate),
{
    let hit_rate = if event.isl_blocks > 0 {
        divide(event.overlap_blocks, event.isl_blocks)
    } else {
        Utilization::zero()
    };
    assert(is_hit_rate(*event, *divide, hit_rate));
    subtract(Utilization::one(), hit_rate)
}

/// What the utilization monitor waits for.
pub enum UtilizationEvent {
    /// A message arrived, and tells the hit rate of a request.
    HitRate(KVHitRateEvent),
    /// A message arrived that could not be decoded.
    UndecodableMessage,
    /// There will be no more messages.
    StreamEnded,
}

/// What the utilization monitor asks of the task that runs it.
#[derive(Debug, Clone, Copy, PartialEq, Eq, Structural)]
pub enum UtilizationAction {
    /// Wait for the next event, now that a request with this allocation rate was added.
    Added(Utilization),
    /// Wait for the next event.
    KeepWaiting,
    /// Leave the loop.
    Stop,
}

/// Whether handling `event` for the model turns `before` into `after` and asks for `action`.
pub open spec fn is_step<
    Divide: Fn(usize, usize) -> Utilization,
    Subtract: Fn(Utilization, Utilization) -> Utilization,
    Plus: Fn(Utilization, Utilization) -> Utilization,
>(
    before: RateLimiterView,
    after: RateLimiterView,
    model: Seq<char>,
    event: UtilizationEvent,
    action: UtilizationAction,
    divide: Divide,
    subtract: Subtract,
    plus: Plus,
) -> bool {
    match event {
        UtilizationEvent::HitRate(kv_event) => {
            &&& action matches UtilizationAction::Added(rate)
            &&& is_allocation_rate(kv_event, divide, subtract, rate)
            &&& is_addition(before, after, model, rate, plus)
        },
        UtilizationEvent::UndecodableMessage => {
            &&& action is KeepWaiting
            &&& after == before
        },
        UtilizationEvent::StreamEnded => {
            &&& action is Stop
            &&& after == before
        },
    }
}

/// The decisions of the task that follows the utilization of one model.
pub struct UtilizationMonitor {
    /// The model.
    pub model_name: String,
    /// The threshold that the model gets if it has none.
    pub max_kv_cache_utilization_rate: Utilization,
}

impl UtilizationMonitor {
    /// To be called once the subscription to the hit rate events succeeded: registers the
    /// threshold of the model.
    pub fn on_subscribed(&self, limiter: &mut KvCacheUtilizationRateLimiter)
        ensures
            final(limiter)@ == old(limiter)@.with_threshold(
                self.model_name@,
                self.max_kv_cache_utilization_rate,
            ),
    {
        limiter.register_threshold(self.model_name.as_str(), self.max_kv_cache_utilization_rate);
    }

    /// Handles an event: a hit rate adds what the request allocates to the aggregate utilization
    /// of the model, and a message that cannot be decoded is passed over.
    ///
    /// `divide` is the quotient of two counts, `subtract` the difference of two amounts, and
    /// `plus` their sum.
    pub fn on_event<
        Divide: Fn(usize, usize) -> Utilization,
        Subtract: Fn(Utilization, Utilization) -> Utilization,
        Plus: Fn(Utilization, Utilization) -> Utilization,
    >(
        &self,
        limiter: &mut KvCacheUtilizationRateLimiter,
        event: UtilizationEvent,
        divide: Divide,
        subtract: Subtract,
        plus: Plus,
    ) -> (action: UtilizationAction)
        requires
            forall|overlap: usize, isl: usize| isl > 0 ==> #[trigger]
                call_requires(divide, (overlap, isl)),
            forall|a: Utilization, b: Utilization| #[trigger] call_requires(subtract, (a, b)),
            forall|a: Utilization, b: Utilization| #[trigger] call_requires(plus, (a, b)),
        ensures
            is_step(
                old(limiter)@,
                final(limiter)@,
                self.model_name@,
                event,
                action,
                divide,
                subtract,
                plus,
            ),
    {
        match event {
            UtilizationEvent::HitRate(kv_event) => {
                let rate = allocation_rate(&kv_event, &divide, &subtract);
                limiter.add_started_request_utilization(self.model_name.as_str(), rate, plus);
                UtilizationAction::Added(rate)
            },
            UtilizationEvent::UndecodableMessage => UtilizationAction::KeepWaiting,
            UtilizationEvent::StreamEnded => UtilizationAction::Stop,
        }
    }
}

} // verus!
