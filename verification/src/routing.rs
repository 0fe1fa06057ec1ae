//! The adaptive router: what it has learnt of each provider, how it scores
//! a provider for an intent, and which providers it selects.
//!
//! Latencies are in milliseconds, prices in micro-dollars per thousand
//! tokens, and every rate, score and weight in parts per million.

use vstd::prelude::*;
use vstd::arithmetic::power::pow;
use crate::amount::{add_amount, capped, capped_sum, scale, scaled, PPM};
use crate::error::OmenError;
use crate::multiplexer::{DriverWork, WorkView, work_views};
use crate::store::TextMap;
use crate::text::{decimal, decimal_string, str_eq, texts, utf8_len};
use crate::types::{ChatCompletionRequest, RequestContext};

verus! {

/// The weights of the four marks, where the intent has none of its own.
#[derive(Debug, Clone, Copy, PartialEq, Eq, Structural)]
pub struct RoutingStrategy {
    pub cost_weight: u64,
    pub latency_weight: u64,
    pub quality_weight: u64,
    pub reliability_weight: u64,
}

impl Default for RoutingStrategy {
    fn default() -> (s: Self)
        ensures
            s == (RoutingStrategy {
                cost_weight: 300_000,
                latency_weight: 400_000,
                quality_weight: 200_000,
                reliability_weight: 100_000,
            }),
    {
        RoutingStrategy {
            cost_weight: 300_000,
            latency_weight: 400_000,
            quality_weight: 200_000,
            reliability_weight: 100_000,
        }
    }
}

/// What the router has learnt of one provider.
#[derive(Debug, Clone)]
pub struct ProviderMetrics {
    pub provider_id: String,
    /// Moving average of the latency.
    pub avg_latency_ms: u64,
    /// Moving average of the share of requests that succeeded.
    pub success_rate: u64,
    /// Moving average of the price.
    pub cost_per_1k_tokens: u64,
    pub quality_score: u64,
    pub current_load: u64,
    pub availability: u64,
}

/// The numbers of a provider's metrics.
#[derive(Debug, Clone, Copy, PartialEq, Eq, Structural)]
pub struct Marks {
    pub avg_latency_ms: u64,
    pub success_rate: u64,
    pub cost_per_1k_tokens: u64,
    pub quality_score: u64,
    pub current_load: u64,
    pub availability: u64,
}

impl ProviderMetrics {
    /// The numbers of the metrics.
    pub open spec fn marks(self) -> Marks {
        Marks {
            avg_latency_ms: self.avg_latency_ms,
            success_rate: self.success_rate,
            cost_per_1k_tokens: self.cost_per_1k_tokens,
            quality_score: self.quality_score,
            current_load: self.current_load,
            availability: self.availability,
        }
    }

    /// A copy of the metrics.
    pub fn duplicate(&self) -> (m: Self)
        ensures
            m == *self,
    {
        ProviderMetrics {
            provider_id: self.provider_id.clone(),
            avg_latency_ms: self.avg_latency_ms,
            success_rate: self.success_rate,
            cost_per_1k_tokens: self.cost_per_1k_tokens,
            quality_score: self.quality_score,
            current_load: self.current_load,
            availability: self.availability,
        }
    }
}

/// The marks of a provider of which nothing is known.
pub open spec fn unknown_marks() -> Marks {
    Marks {
        avg_latency_ms: 1000,
        success_rate: 950_000,
        cost_per_1k_tokens: 10_000,
        quality_score: 800_000,
        current_load: 500_000,
        availability: 990_000,
    }
}

/// The marks that a provider starts with: those of an unknown one, with
/// latency, price, quality and availability from the table of known
/// providers.
pub open spec fn seeded_marks(provider_id: Seq<char>) -> Marks {
    seeded_from(provider_id, unknown_marks())
}

/// The marks with latency, price, quality and availability replaced by
/// those of the table of known providers, where the provider is known.
pub open spec fn seeded_from(provider_id: Seq<char>, base: Marks) -> Marks {
    if provider_id == "ollama"@ {
        Marks {
            avg_latency_ms: 500,
            cost_per_1k_tokens: 0,
            quality_score: 700_000,
            availability: 950_000,
            ..base
        }
    } else if provider_id == "openai"@ {
        Marks {
            avg_latency_ms: 1500,
            cost_per_1k_tokens: 30_000,
            quality_score: 900_000,
            availability: 990_000,
            ..base
        }
    } else if provider_id == "anthropic"@ {
        Marks {
            avg_latency_ms: 1200,
            cost_per_1k_tokens: 15_000,
            quality_score: 950_000,
            availability: 980_000,
            ..base
        }
    } else if provider_id == "google"@ {
        Marks {
            avg_latency_ms: 1000,
            cost_per_1k_tokens: 1_250,
            quality_score: 850_000,
            availability: 970_000,
            ..base
        }
    } else if provider_id == "azure"@ {
        Marks {
            avg_latency_ms: 1800,
            cost_per_1k_tokens: 30_000,
            quality_score: 900_000,
            availability: 990_000,
            ..base
        }
    } else if provider_id == "xai"@ {
        Marks {
            avg_latency_ms: 1300,
            cost_per_1k_tokens: 0,
            quality_score: 800_000,
            availability: 950_000,
            ..base
        }
    } else if provider_id == "bedrock"@ {
        Marks {
            avg_latency_ms: 2000,
            cost_per_1k_tokens: 15_000,
            quality_score: 900_000,
            availability: 990_000,
            ..base
        }
    } else {
        base
    }
}

impl Default for ProviderMetrics {
    fn default() -> (m: Self)
        ensures
            m.provider_id@ == Seq::<char>::empty(),
            m.marks() == unknown_marks(),
    {
        ProviderMetrics {
            provider_id: String::new(),
            avg_latency_ms: 1000,
            success_rate: 950_000,
            cost_per_1k_tokens: 10_000,
            quality_score: 800_000,
            current_load: 500_000,
            availability: 990_000,
        }
    }
}

/// The moving average after one sample: nine tenths of the distance to the
/// sample remain, rounded towards the sample.
pub open spec fn ema(old: u64, sample: u64) -> u64 {
    if sample >= old {
        (sample - (9 * (sample - old)) / 10) as u64
    } else {
        (sample + (9 * (old - sample)) / 10) as u64
    }
}

/// The moving average after `n` samples of the same value.
pub open spec fn ema_repeated(old: u64, sample: u64, n: nat) -> u64
    decreases n,
{
    if n == 0 {
        old
    } else {
        ema(ema_repeated(old, sample, (n - 1) as nat), sample)
    }
}

/// The distance between two values.
pub open spec fn distance(a: u64, b: u64) -> int {
    if a >= b {
        a - b
    } else {
        b - a
    }
}

/// Computes [`ema`].
pub fn ema_update(old: u64, sample: u64) -> (r: u64)
    ensures
        r == ema(old, sample),
        10 * distance(r, sample) <= 9 * distance(old, sample),
        distance(r, sample) <= distance(old, sample),
{
    if sample >= old {
        let d: u64 = sample - old;
        let keep: u64 = ((d as u128) * 9 / 10) as u64;
        sample - keep
    } else {
        let d: u64 = old - sample;
        let keep: u64 = ((d as u128) * 9 / 10) as u64;
        sample + keep
    }
}

/// One update leaves at most nine tenths of the distance to the sample, and
/// differs from the exact average `(9·old + sample) / 10` by less than one.
pub proof fn lemma_ema_step(old: u64, sample: u64)
    ensures
        10 * distance(ema(old, sample), sample) <= 9 * distance(old, sample),
        -10 < 10 * ema(old, sample) - (9 * old + sample) < 10,
{
}

/// After `n` samples of the same value `x`, the distance of the average to
/// `x` is at most `(9/10)^n` of what it was: `10^n · |m_n − x| ≤ 9^n · |m_0 − x|`.
pub proof fn lemma_ema_converges(old: u64, sample: u64, n: nat)
    ensures
        pow(10, n) * distance(ema_repeated(old, sample, n), sample) <= pow(9, n) * distance(
            old,
            sample,
        ),
    decreases n,
{
    let d0 = distance(old, sample);
    if n == 0 {
        assert(pow(10, 0) == 1 && pow(9, 0) == 1) by {
            vstd::arithmetic::power::lemma_pow0(10);
            vstd::arithmetic::power::lemma_pow0(9);
        }
    } else {
        let m = (n - 1) as nat;
        let prev = ema_repeated(old, sample, m);
        lemma_ema_converges(old, sample, m);
        lemma_ema_step(prev, sample);
        let dp = distance(prev, sample);
        let dn = distance(ema(prev, sample), sample);
        let a = pow(10, m);
        let b = pow(9, m);
        vstd::arithmetic::power::lemma_pow_positive(10, m);
        vstd::arithmetic::power::lemma_pow_positive(9, m);
        assert(pow(10, n) == 10 * a && pow(9, n) == 9 * b) by {
            reveal(pow);
        }
        assert((10 * a) * dn <= (9 * b) * d0) by (nonlinear_arith)
            requires
                a * dp <= b * d0,
                10 * dn <= 9 * dp,
                a > 0,
                b > 0,
                dn >= 0,
                dp >= 0,
                d0 >= 0,
        ;
    }
}


/// A rate, held at one.
pub open spec fn clamp_ppm(x: u64) -> u64 {
    if x > PPM {
        PPM
    } else {
        x
    }
}

fn clamp_rate(x: u64) -> (r: u64)
    ensures
        r == clamp_ppm(x),
{
    if x > PPM {
        PPM
    } else {
        x
    }
}

/// The latency that an intent aims at, in milliseconds.
pub open spec fn target_latency(intent: Seq<char>) -> u64 {
    if intent == "code"@ {
        2000
    } else if intent == "analysis"@ {
        5000
    } else {
        3000
    }
}

/// The mark for latency. Up to the target it falls from one to four fifths:
/// `1 − 0.2·avg/target`; beyond the target it is `1 − (avg − target)/target`,
/// and zero from twice the target on.
pub open spec fn latency_score(avg_latency_ms: u64, target_latency_ms: u64) -> u64 {
    if avg_latency_ms <= target_latency_ms {
        (PPM - (avg_latency_ms * 200_000) / (target_latency_ms as int)) as u64
    } else {
        let penalty = ((avg_latency_ms - target_latency_ms) * PPM) / (target_latency_ms as int);
        if penalty >= PPM {
            0
        } else {
            (PPM - penalty) as u64
        }
    }
}

/// The mark for cost: `1 − price/0.10`, and zero from ten cents per
/// thousand tokens on.
pub open spec fn cost_score(cost_per_1k: u64) -> u64 {
    if cost_per_1k * 10 >= PPM {
        0
    } else {
        (PPM - cost_per_1k * 10) as u64
    }
}

/// The mark for reliability: success rate times availability.
pub open spec fn reliability_score(m: Marks) -> u64 {
    ((clamp_ppm(m.success_rate) * clamp_ppm(m.availability)) / (PPM as int)) as u64
}

/// What the load leaves of a score: `1 − 0.2·load`.
pub open spec fn load_penalty(m: Marks) -> u64 {
    (PPM - clamp_ppm(m.current_load) / 5) as u64
}

/// The weights of cost, latency, quality and reliability for an intent.
pub open spec fn intent_weights(intent: Seq<char>, strategy: RoutingStrategy) -> (u64, u64, u64, u64) {
    if intent == "code"@ {
        (200_000, 500_000, 200_000, 100_000)
    } else if intent == "tests"@ {
        (300_000, 400_000, 200_000, 100_000)
    } else if intent == "analysis"@ {
        (200_000, 300_000, 400_000, 100_000)
    } else if intent == "explanation"@ {
        (400_000, 200_000, 300_000, 100_000)
    } else if intent == "regex"@ {
        (200_000, 600_000, 100_000, 100_000)
    } else {
        (
            strategy.cost_weight,
            strategy.latency_weight,
            strategy.quality_weight,
            strategy.reliability_weight,
        )
    }
}

/// The weighted sum of the four marks, before the load is taken off.
pub open spec fn weighted_marks(m: Marks, target_latency_ms: u64, weights: (u64, u64, u64, u64)) -> int {
    weights.0 * cost_score(m.cost_per_1k_tokens) + weights.1 * latency_score(
        m.avg_latency_ms,
        target_latency_ms,
    ) + weights.2 * clamp_ppm(m.quality_score) + weights.3 * reliability_score(m)
}

/// The score of a provider for an intent:
/// `(w_c·cost + w_l·latency + w_q·quality + w_r·reliability) · load_penalty`,
/// in parts per million, rounded down.
pub open spec fn provider_score(
    m: Marks,
    target_latency_ms: u64,
    intent: Seq<char>,
    strategy: RoutingStrategy,
) -> u64 {
    capped(
        (weighted_marks(m, target_latency_ms, intent_weights(intent, strategy)) * load_penalty(m))
            / 1_000_000_000_000,
    )
}

/// The marks after a completion was learnt from: the latency and the
/// success move the averages, and so does the price where tokens were used.
pub open spec fn learned(m: Marks, latency_ms: u64, success: bool, cost_usd: u64, tokens_used: u32) -> Marks {
    Marks {
        avg_latency_ms: ema(m.avg_latency_ms, latency_ms),
        success_rate: ema(
            m.success_rate,
            if success {
                PPM
            } else {
                0
            },
        ),
        cost_per_1k_tokens: if tokens_used > 0 {
            ema(m.cost_per_1k_tokens, scaled(cost_usd, 1000, tokens_used as u64))
        } else {
            m.cost_per_1k_tokens
        },
        ..m
    }
}

/// The router's state: the metrics of the providers seen so far, the
/// default weights, and what each user has left to spend.
pub struct AdvancedRouter {
    pub metrics: TextMap<ProviderMetrics>,
    pub strategy: RoutingStrategy,
    /// Micro-dollars left to each user; a user without an entry is not gated.
    pub cost_budgets: TextMap<i64>,
}

/// The marks of a provider: those that are kept, or those it starts with.
pub open spec fn marks_of(metrics: Map<Seq<char>, ProviderMetrics>, provider_id: Seq<char>) -> Marks {
    if metrics.contains_key(provider_id) {
        metrics[provider_id].marks()
    } else {
        seeded_marks(provider_id)
    }
}

/// The marks of a provider among the marks that are kept: those that are
/// kept, or those it starts with.
pub open spec fn marks_in(marks: Map<Seq<char>, Marks>, provider_id: Seq<char>) -> Marks {
    if marks.contains_key(provider_id) {
        marks[provider_id]
    } else {
        seeded_marks(provider_id)
    }
}

/// The marks after the router learnt from the work of drivers, one after
/// the other.
pub open spec fn marks_after_work(marks: Map<Seq<char>, Marks>, work: Seq<WorkView>) -> Map<
    Seq<char>,
    Marks,
>
    decreases work.len(),
{
    if work.len() == 0 {
        marks
    } else {
        let before = marks_after_work(marks, work.drop_last());
        let w = work.last();
        before.insert(
            w.provider_id,
            learned(marks_in(before, w.provider_id), w.latency_ms, w.success, w.cost_usd, w.tokens),
        )
    }
}

/// Whether the metrics that were kept keep their names, and those that
/// were added are named by the id that they are kept under.
pub open spec fn names_kept(
    old: Map<Seq<char>, ProviderMetrics>,
    new: Map<Seq<char>, ProviderMetrics>,
) -> bool {
    &&& forall|id: Seq<char>| #[trigger] old.contains_key(id) ==> new.contains_key(id)
    &&& forall|id: Seq<char>| #[trigger]
        new.contains_key(id) ==> if old.contains_key(id) {
            new[id].provider_id == old[id].provider_id
        } else {
            new[id].provider_id@ == id
        }
}

/// A router that learnt from the work of drivers and then from one
/// completion more has learnt from the work with that completion at its end.
pub proof fn lemma_learns_one_more(
    old: AdvancedRouter,
    mid: AdvancedRouter,
    new: AdvancedRouter,
    others: Seq<WorkView>,
    last: WorkView,
)
    requires
        AdvancedRouter::learns_from_work(old, others, mid),
        AdvancedRouter::learns(
            mid,
            last.provider_id,
            last.latency_ms,
            last.success,
            last.cost_usd,
            last.tokens,
            new,
        ),
    ensures
        AdvancedRouter::learns_from_work(old, others.push(last), new),
{
    assert(others.push(last).drop_last() =~= others);
    assert(marks_in(mid.marks(), last.provider_id) == marks_of(mid.metrics@, last.provider_id));
    assert forall|id: Seq<char>| #[trigger] new.metrics@.contains_key(id) implies if old.metrics@.contains_key(
        id,
    ) {
        new.metrics@[id].provider_id == old.metrics@[id].provider_id
    } else {
        new.metrics@[id].provider_id@ == id
    } by {
        if id != last.provider_id {
            assert(mid.metrics@.contains_key(id));
            assert(new.metrics@[id] == mid.metrics@[id]);
        }
    }
}

impl AdvancedRouter {
    /// Whether `new` is `old` after it learnt from the work of drivers, one
    /// after the other: the strategy and the budgets stay, and no work
    /// leaves the router as it was.
    pub open spec fn learns_from_work(old: AdvancedRouter, work: Seq<WorkView>, new: AdvancedRouter) -> bool {
        &&& new.marks() == marks_after_work(old.marks(), work)
        &&& names_kept(old.metrics@, new.metrics@)
        &&& new.strategy == old.strategy
        &&& new.cost_budgets == old.cost_budgets
        &&& work.len() == 0 ==> new == old
    }

    /// Learns from the work of drivers, one after the other: see
    /// [`AdvancedRouter::learns_from_work`].
    pub fn record_work(&mut self, work: &Vec<DriverWork>)
        ensures
            Self::learns_from_work(*old(self), work_views(work@), *final(self)),
    {
        let ghost before = *self;
        let ghost all = work_views(work@);
        let mut i: usize = 0;
        while i < work.len()
            invariant
                i <= work@.len(),
                all == work_views(work@),
                self.marks() == marks_after_work(before.marks(), all.take(i as int)),
                names_kept(before.metrics@, self.metrics@),
                self.strategy == before.strategy,
                self.cost_budgets == before.cost_budgets,
                i == 0 ==> *self == before,
            decreases work@.len() - i,
        {
            let ghost prior = *self;
            let w = &work[i];
            proof {
                assert(all.take(i + 1).drop_last() =~= all.take(i as int));
                assert(all.take(i + 1).last() == w@);
                assert(marks_in(prior.marks(), w.provider_id@) == marks_of(
                    prior.metrics@,
                    w.provider_id@,
                ));
            }
            self.update_metrics_from_response(
                w.provider_id.as_str(),
                w.latency_ms,
                w.success,
                w.cost_usd,
                w.tokens,
            );
            proof {
                assert forall|id: Seq<char>| #[trigger]
                    self.metrics@.contains_key(id) implies if before.metrics@.contains_key(id) {
                    self.metrics@[id].provider_id == before.metrics@[id].provider_id
                } else {
                    self.metrics@[id].provider_id@ == id
                } by {
                    if id != w.provider_id@ {
                        assert(prior.metrics@.contains_key(id));
                        assert(self.metrics@[id] == prior.metrics@[id]);
                    }
                }
            }
            i += 1;
        }
        proof {
            assert(all.take(i as int) =~= all);
        }
    }

    /// The marks of every provider that the router keeps metrics of.
    pub open spec fn marks(self) -> Map<Seq<char>, Marks> {
        self.metrics@.map_values(|m: ProviderMetrics| m.marks())
    }

    /// A router that has learnt nothing yet and gates no user.
    pub fn new() -> (r: Self)
        ensures
            r.metrics@ == Map::<Seq<char>, ProviderMetrics>::empty(),
            r.cost_budgets@ == Map::<Seq<char>, i64>::empty(),
            r.strategy == (RoutingStrategy {
                cost_weight: 300_000,
                latency_weight: 400_000,
                quality_weight: 200_000,
                reliability_weight: 100_000,
            }),
    {
        AdvancedRouter {
            metrics: TextMap::new(),
            strategy: RoutingStrategy::default(),
            cost_budgets: TextMap::new(),
        }
    }

    /// Replaces what is known of a provider.
    pub fn update_provider_metrics(&mut self, provider_id: &str, metrics: ProviderMetrics)
        ensures
            final(self).metrics@ == old(self).metrics@.insert(provider_id@, metrics),
            final(self).strategy == old(self).strategy,
            final(self).cost_budgets == old(self).cost_budgets,
    {
        self.metrics.insert(String::from_str(provider_id), metrics);
    }

    /// Sets the weights for the intents that have none of their own.
    pub fn set_strategy(&mut self, strategy: RoutingStrategy)
        ensures
            final(self).strategy == strategy,
            final(self).metrics == old(self).metrics,
            final(self).cost_budgets == old(self).cost_budgets,
    {
        self.strategy = strategy;
    }

    /// Sets what a user has left to spend, in micro-dollars.
    pub fn set_user_budget(&mut self, user_id: &str, budget_usd: i64)
        ensures
            final(self).cost_budgets@ == old(self).cost_budgets@.insert(user_id@, budget_usd),
            final(self).metrics == old(self).metrics,
            final(self).strategy == old(self).strategy,
    {
        self.cost_budgets.insert(String::from_str(user_id), budget_usd);
    }

    /// Computes [`target_latency`].
    pub fn latency_target(intent: &str) -> (t: u64)
        ensures
            t == target_latency(intent@),
            t > 0,
    {
        if str_eq(intent, "code") {
            2000
        } else if str_eq(intent, "analysis") {
            5000
        } else {
            3000
        }
    }

    /// Computes [`latency_score`].
    pub fn calculate_latency_score(avg_latency_ms: u64, target_latency_ms: u64) -> (s: u64)
        requires
            target_latency_ms > 0,
        ensures
            s == latency_score(avg_latency_ms, target_latency_ms),
            s <= PPM,
    {
        if avg_latency_ms <= target_latency_ms {
            let off: u128 = (avg_latency_ms as u128) * 200_000 / (target_latency_ms as u128);
            assert(off <= 200_000) by (nonlinear_arith)
                requires
                    off == (avg_latency_ms as int * 200_000) / (target_latency_ms as int),
                    avg_latency_ms <= target_latency_ms,
                    target_latency_ms > 0,
            ;
            PPM - (off as u64)
        } else {
            let over: u64 = avg_latency_ms - target_latency_ms;
            assert(over * PPM <= u64::MAX * PPM) by (nonlinear_arith)
                requires
                    over <= u64::MAX,
            ;
            let penalty: u128 = (over as u128) * (PPM as u128) / (target_latency_ms as u128);
            if penalty >= PPM as u128 {
                0
            } else {
                PPM - (penalty as u64)
            }
        }
    }

    /// Computes [`cost_score`].
    pub fn calculate_cost_score(cost_per_1k: u64) -> (s: u64)
        ensures
            s == cost_score(cost_per_1k),
            s <= PPM,
    {
        if cost_per_1k >= PPM / 10 {
            0
        } else {
            PPM - cost_per_1k * 10
        }
    }

    /// Computes [`intent_weights`].
    pub fn get_intent_weights(&self, intent: &str) -> (w: (u64, u64, u64, u64))
        ensures
            w == intent_weights(intent@, self.strategy),
    {
        if str_eq(intent, "code") {
            (200_000, 500_000, 200_000, 100_000)
        } else if str_eq(intent, "tests") {
            (300_000, 400_000, 200_000, 100_000)
        } else if str_eq(intent, "analysis") {
            (200_000, 300_000, 400_000, 100_000)
        } else if str_eq(intent, "explanation") {
            (400_000, 200_000, 300_000, 100_000)
        } else if str_eq(intent, "regex") {
            (200_000, 600_000, 100_000, 100_000)
        } else {
            (
                self.strategy.cost_weight,
                self.strategy.latency_weight,
                self.strategy.quality_weight,
                self.strategy.reliability_weight,
            )
        }
    }

    /// Computes [`provider_score`].
    pub fn calculate_provider_score(
        &self,
        metrics: &ProviderMetrics,
        target_latency_ms: u64,
        intent: &str,
    ) -> (s: u64)
        requires
            target_latency_ms > 0,
        ensures
            s == provider_score(metrics.marks(), target_latency_ms, intent@, self.strategy),
    {
        let latency = Self::calculate_latency_score(metrics.avg_latency_ms, target_latency_ms);
        let cost = Self::calculate_cost_score(metrics.cost_per_1k_tokens);
        let quality = clamp_rate(metrics.quality_score);
        let sr = clamp_rate(metrics.success_rate);
        let av = clamp_rate(metrics.availability);
        assert(sr * av <= PPM * PPM) by (nonlinear_arith)
            requires
                sr <= PPM,
                av <= PPM,
        ;
        let reliability: u64 = sr * av / PPM;
        assert(reliability <= PPM);
        let (wc, wl, wq, wr) = self.get_intent_weights(intent);
        let ghost bound: int = u64::MAX * PPM;
        assert(wc * cost <= bound && wl * latency <= bound && wq * quality <= bound && wr
            * reliability <= bound) by (nonlinear_arith)
            requires
                wc <= u64::MAX,
                wl <= u64::MAX,
                wq <= u64::MAX,
                wr <= u64::MAX,
                cost <= PPM,
                latency <= PPM,
                quality <= PPM,
                reliability <= PPM,
                bound == u64::MAX * PPM,
        ;
        let total: u128 = (wc as u128) * (cost as u128) + (wl as u128) * (latency as u128) + (
        wq as u128) * (quality as u128) + (wr as u128) * (reliability as u128);
        let penalty: u64 = PPM - clamp_rate(metrics.current_load) / 5;
        assert(total * penalty <= 4 * bound * PPM) by (nonlinear_arith)
            requires
                total <= 4 * bound,
                penalty <= PPM,
                bound >= 0,
        ;
        let q: u128 = total * (penalty as u128) / 1_000_000_000_000;
        if q > u64::MAX as u128 {
            u64::MAX
        } else {
            q as u64
        }
    }

    /// The metrics that a provider starts with.
    pub fn get_default_metrics_for_provider(provider_id: &str, metrics: ProviderMetrics) -> (m:
        ProviderMetrics)
        ensures
            m.provider_id == metrics.provider_id,
            m.marks() == seeded_from(provider_id@, metrics.marks()),
    {
        let mut m = metrics;
        if str_eq(provider_id, "ollama") {
            m.avg_latency_ms = 500;
            m.cost_per_1k_tokens = 0;
            m.quality_score = 700_000;
            m.availability = 950_000;
        } else if str_eq(provider_id, "openai") {
            m.avg_latency_ms = 1500;
            m.cost_per_1k_tokens = 30_000;
            m.quality_score = 900_000;
            m.availability = 990_000;
        } else if str_eq(provider_id, "anthropic") {
            m.avg_latency_ms = 1200;
            m.cost_per_1k_tokens = 15_000;
            m.quality_score = 950_000;
            m.availability = 980_000;
        } else if str_eq(provider_id, "google") {
            m.avg_latency_ms = 1000;
            m.cost_per_1k_tokens = 1_250;
            m.quality_score = 850_000;
            m.availability = 970_000;
        } else if str_eq(provider_id, "azure") {
            m.avg_latency_ms = 1800;
            m.cost_per_1k_tokens = 30_000;
            m.quality_score = 900_000;
            m.availability = 990_000;
        } else if str_eq(provider_id, "xai") {
            m.avg_latency_ms = 1300;
            m.cost_per_1k_tokens = 0;
            m.quality_score = 800_000;
            m.availability = 950_000;
        } else if str_eq(provider_id, "bedrock") {
            m.avg_latency_ms = 2000;
            m.cost_per_1k_tokens = 15_000;
            m.quality_score = 900_000;
            m.availability = 990_000;
        }
        m
    }

    /// What is known of a provider: the metrics that are kept, or those it
    /// starts with.
    pub fn metrics_for(&self, provider_id: &str) -> (m: ProviderMetrics)
        ensures
            m.marks() == marks_of(self.metrics@, provider_id@),
            if self.metrics@.contains_key(provider_id@) {
                m == self.metrics@[provider_id@]
            } else {
                m.provider_id@ == provider_id@
            },
    {
        match self.metrics.get(provider_id) {
            Some(m) => m.duplicate(),
            None => {
                let mut d = ProviderMetrics::default();
                d.provider_id = String::from_str(provider_id);
                Self::get_default_metrics_for_provider(provider_id, d)
            },
        }
    }

    /// Whether `new` is what a completion at a provider makes of `old`: the
    /// provider's averages move a tenth of the way to what was measured.
    /// The metrics of a provider that had none are kept under its id, those
    /// of a provider that had some keep their name, and those of the other
    /// providers stay.
    pub open spec fn learns(
        old: AdvancedRouter,
        provider_id: Seq<char>,
        latency_ms: u64,
        success: bool,
        cost_usd: u64,
        tokens_used: u32,
        new: AdvancedRouter,
    ) -> bool {
        let marks = learned(
            marks_of(old.metrics@, provider_id),
            latency_ms,
            success,
            cost_usd,
            tokens_used,
        );
        &&& new.metrics@.contains_key(provider_id)
        &&& new.metrics@ == old.metrics@.insert(provider_id, new.metrics@[provider_id])
        &&& new.metrics@[provider_id].marks() == marks
        &&& if old.metrics@.contains_key(provider_id) {
            new.metrics@[provider_id].provider_id == old.metrics@[provider_id].provider_id
        } else {
            new.metrics@[provider_id].provider_id@ == provider_id
        }
        &&& new.marks() == old.marks().insert(provider_id, marks)
        &&& new.strategy == old.strategy
        &&& new.cost_budgets == old.cost_budgets
    }

    /// Learns from a completion: see [`AdvancedRouter::learns`].
    pub fn update_metrics_from_response(
        &mut self,
        provider_id: &str,
        latency_ms: u64,
        success: bool,
        cost_usd: u64,
        tokens_used: u32,
    )
        ensures
            Self::learns(
                *old(self),
                provider_id@,
                latency_ms,
                success,
                cost_usd,
                tokens_used,
                *final(self),
            ),
    {
        let ghost before = self.metrics@;
        let mut m = self.metrics_for(provider_id);
        m.avg_latency_ms = ema_update(m.avg_latency_ms, latency_ms);
        m.success_rate = ema_update(
            m.success_rate,
            if success {
                PPM
            } else {
                0
            },
        );
        if tokens_used > 0 {
            let cost_per_1k = scale(cost_usd, 1000, tokens_used as u64);
            m.cost_per_1k_tokens = ema_update(m.cost_per_1k_tokens, cost_per_1k);
        }
        let ghost after = m.marks();
        self.metrics.insert(String::from_str(provider_id), m);
        assert(self.marks() =~= before.map_values(|m: ProviderMetrics| m.marks()).insert(
            provider_id@,
            after,
        ));
    }
}


/// Whether candidate `i` ranks before candidate `j`: by the higher score,
/// and among equal scores by the earlier place.
pub open spec fn ranks_before(scores: Seq<u64>, i: int, j: int) -> bool {
    scores[i] > scores[j] || (scores[i] == scores[j] && i < j)
}

/// Whether `picked` holds the places of the first `k` candidates in
/// descending order of score, ties in the order of the candidates: it is in
/// rank order, and every candidate that is left out ranks after all of it.
pub open spec fn is_top_k(scores: Seq<u64>, k: nat, picked: Seq<usize>) -> bool {
    &&& picked.len() == if k <= scores.len() {
        k
    } else {
        scores.len()
    }
    &&& forall|a: int| 0 <= a < picked.len() ==> (#[trigger] picked[a]) < scores.len()
    &&& forall|a: int, b: int|
        0 <= a < b < picked.len() ==> ranks_before(
            scores,
            #[trigger] picked[a] as int,
            #[trigger] picked[b] as int,
        )
    &&& forall|j: usize, a: int|
        j < scores.len() && 0 <= a < picked.len() && !(#[trigger] picked.contains(j))
            ==> ranks_before(scores, #[trigger] picked[a] as int, j as int)
}

proof fn lemma_all_used(n: nat, picked: Seq<usize>)
    requires
        n <= usize::MAX,
        picked.no_duplicates(),
        forall|a: int| 0 <= a < picked.len() ==> (#[trigger] picked[a]) < n,
        forall|j: usize| j < n ==> #[trigger] picked.contains(j),
    ensures
        picked.len() == n,
{
    let ints = picked.map_values(|x: usize| x as int);
    assert(ints.no_duplicates()) by {
        assert forall|a: int, b: int|
            0 <= a < ints.len() && 0 <= b < ints.len() && a != b implies ints[a] != ints[b] by {
            assert(picked[a] != picked[b]);
        }
    }
    ints.unique_seq_to_set();
    vstd::set_lib::lemma_int_range(0, n as int);
    assert(ints.to_set() =~= vstd::set_lib::set_int_range(0, n as int)) by {
        assert forall|j: int|
            vstd::set_lib::set_int_range(0, n as int).contains(j) implies ints.to_set().contains(
            j,
        ) by {
            assert(picked.contains(j as usize));
            let a = choose|a: int| 0 <= a < picked.len() && picked[a] == j as usize;
            assert(ints[a] == j);
        }
        assert forall|j: int| ints.to_set().contains(j) implies vstd::set_lib::set_int_range(
            0,
            n as int,
        ).contains(j) by {
            let a = choose|a: int| 0 <= a < ints.len() && ints[a] == j;
            assert(picked[a] < n);
        }
    }
}

/// The places of the first `k` candidates by score.
pub fn top_k(scores: &Vec<u64>, k: usize) -> (picked: Vec<usize>)
    ensures
        is_top_k(scores@, k as nat, picked@),
{
    let n: usize = scores.len();
    let m: usize = if k <= n {
        k
    } else {
        n
    };
    let mut picked: Vec<usize> = Vec::new();
    let mut used: Vec<bool> = Vec::new();
    let mut z: usize = 0;
    while z < n
        invariant
            z <= n,
            used@.len() == z,
            forall|j: int| 0 <= j < z ==> !used@[j],
        decreases n - z,
    {
        used.push(false);
        z += 1;
    }
    while picked.len() < m
        invariant
            n == scores@.len(),
            m <= n,
            used@.len() == n,
            picked@.len() <= m,
            picked@.no_duplicates(),
            forall|a: int| 0 <= a < picked@.len() ==> (#[trigger] picked@[a]) < n,
            forall|j: usize| j < n ==> (used@[j as int] <==> #[trigger] picked@.contains(j)),
            forall|a: int, b: int|
                0 <= a < b < picked@.len() ==> ranks_before(
                    scores@,
                    #[trigger] picked@[a] as int,
                    #[trigger] picked@[b] as int,
                ),
            forall|j: usize, a: int|
                j < n && 0 <= a < picked@.len() && !(#[trigger] picked@.contains(j))
                    ==> ranks_before(scores@, #[trigger] picked@[a] as int, j as int),
        decreases m - picked@.len(),
    {
        let mut best: Option<usize> = None;
        let mut j: usize = 0;
        while j < n
            invariant
                j <= n,
                n == scores@.len(),
                used@.len() == n,
                match best {
                    Some(b) => b < j && !used@[b as int] && forall|t: int|
                        0 <= t < j && !(#[trigger] used@[t]) && t != b ==> ranks_before(
                            scores@,
                            b as int,
                            t,
                        ),
                    None => forall|t: int| 0 <= t < j ==> #[trigger] used@[t],
                },
            decreases n - j,
        {
            if !used[j] {
                match best {
                    None => {
                        best = Some(j);
                    },
                    Some(b) => {
                        if scores[j] > scores[b] {
                            best = Some(j);
                        }
                    },
                }
            }
            j += 1;
        }
        match best {
            None => {
                // Not reached: fewer places are picked than there are candidates.
                proof {
                    assert forall|x: usize| x < n implies #[trigger] picked@.contains(x) by {
                        assert(used@[x as int]);
                    }
                    lemma_all_used(n as nat, picked@);
                    assert(false);
                }
            },
            Some(b) => {
                let ghost prior = picked@;
                let ghost was = used@;
                proof {
                    assert(!prior.contains(b));
                }
                picked.push(b);
                used.set(b, true);
                proof {
                    assert forall|x: usize| x < n implies (used@[x as int] <==> #[trigger] picked@.contains(
                        x,
                    )) by {
                        if x == b {
                            assert(picked@[picked@.len() - 1] == b);
                        } else if prior.contains(x) {
                            let a = choose|a: int| 0 <= a < prior.len() && prior[a] == x;
                            assert(picked@[a] == x);
                        } else if picked@.contains(x) {
                            let a = choose|a: int| 0 <= a < picked@.len() && picked@[a] == x;
                            assert(prior[a] == x);
                        }
                    }
                    assert forall|x: usize, a: int|
                        x < n && 0 <= a < picked@.len() && !(#[trigger] picked@.contains(
                            x,
                        )) implies ranks_before(scores@, #[trigger] picked@[a] as int, x as int) by {
                        assert(!prior.contains(x)) by {
                            if prior.contains(x) {
                                let c = choose|c: int| 0 <= c < prior.len() && prior[c] == x;
                                assert(picked@[c] == x);
                            }
                        }
                        assert(!was[x as int]);
                        if a < prior.len() {
                            assert(picked@[a] == prior[a]);
                        }
                    }
                    assert forall|a: int, c: int| 0 <= a < c < picked@.len() implies ranks_before(
                        scores@,
                        #[trigger] picked@[a] as int,
                        #[trigger] picked@[c] as int,
                    ) by {
                        if c == picked@.len() - 1 {
                            assert(picked@[a] == prior[a]);
                        } else {
                            assert(picked@[a] == prior[a] && picked@[c] == prior[c]);
                        }
                    }
                }
            },
        }
    }
    picked
}


/// The place of the best score: the first of the highest.
pub open spec fn best_place(scores: Seq<u64>) -> int
    decreases scores.len(),
{
    if scores.len() <= 1 {
        0
    } else {
        let b = best_place(scores.drop_last());
        if scores.last() > scores[b] {
            scores.len() - 1
        } else {
            b
        }
    }
}

/// The place of the lowest cost: the first of the lowest.
pub open spec fn cheapest_place(costs: Seq<u64>) -> int
    decreases costs.len(),
{
    if costs.len() <= 1 {
        0
    } else {
        let c = cheapest_place(costs.drop_last());
        if costs.last() < costs[c] {
            costs.len() - 1
        } else {
            c
        }
    }
}

/// Computes [`best_place`].
pub fn best_index(scores: &Vec<u64>) -> (b: usize)
    requires
        scores@.len() > 0,
    ensures
        b == best_place(scores@),
        b < scores@.len(),
        forall|j: int| 0 <= j < scores@.len() ==> scores@[j] <= scores@[b as int],
{
    let mut b: usize = 0;
    let mut i: usize = 1;
    assert(scores@.take(1).len() == 1);
    while i < scores.len()
        invariant
            1 <= i <= scores@.len(),
            b < i,
            b == best_place(scores@.take(i as int)),
            forall|j: int| 0 <= j < i ==> scores@[j] <= scores@[b as int],
        decreases scores@.len() - i,
    {
        proof {
            assert(scores@.take(i + 1).drop_last() =~= scores@.take(i as int));
        }
        if scores[i] > scores[b] {
            b = i;
        }
        i += 1;
    }
    assert(scores@.take(i as int) =~= scores@);
    b
}

/// Computes [`cheapest_place`].
pub fn cheapest_index(costs: &Vec<u64>) -> (c: usize)
    requires
        costs@.len() > 0,
    ensures
        c == cheapest_place(costs@),
        c < costs@.len(),
        forall|j: int| 0 <= j < costs@.len() ==> costs@[c as int] <= costs@[j],
{
    let mut c: usize = 0;
    let mut i: usize = 1;
    assert(costs@.take(1).len() == 1);
    while i < costs.len()
        invariant
            1 <= i <= costs@.len(),
            c < i,
            c == cheapest_place(costs@.take(i as int)),
            forall|j: int| 0 <= j < i ==> costs@[c as int] <= costs@[j],
        decreases costs@.len() - i,
    {
        proof {
            assert(costs@.take(i + 1).drop_last() =~= costs@.take(i as int));
        }
        if costs[i] < costs[c] {
            c = i;
        }
        i += 1;
    }
    assert(costs@.take(i as int) =~= costs@);
    c
}

/// The tokens that the messages are estimated at: a quarter of the bytes of
/// each message's text, rounded down.
pub open spec fn input_estimate(messages: Seq<crate::types::ChatMessage>) -> u64
    decreases messages.len(),
{
    if messages.len() == 0 {
        0
    } else {
        capped_sum(
            input_estimate(messages.drop_last()),
            (utf8_len(messages.last().content.text_view()) as usize / 4) as u64,
        )
    }
}

/// The tokens that the answer is estimated at: the request's ceiling, or 500.
pub open spec fn output_estimate(request: ChatCompletionRequest) -> u64 {
    match request.max_tokens {
        Some(n) => n as u64,
        None => 500,
    }
}

/// What a request is estimated to cost at a provider, in micro-dollars.
pub open spec fn request_cost(m: Marks, request: ChatCompletionRequest) -> u64 {
    scaled(
        capped_sum(input_estimate(request.messages@), output_estimate(request)),
        m.cost_per_1k_tokens,
        1000,
    )
}

/// What the selected providers are estimated to cost together: the first
/// for the whole answer, each other for a fifth of it, as it is cancelled
/// early.
pub open spec fn race_cost(selected: Seq<Marks>, request: ChatCompletionRequest) -> u64
    decreases selected.len(),
{
    if selected.len() == 0 {
        0
    } else {
        let share = if selected.len() == 1 {
            output_estimate(request)
        } else {
            output_estimate(request) / 5
        };
        capped_sum(
            race_cost(selected.drop_last(), request),
            scaled(
                capped_sum(input_estimate(request.messages@), share),
                selected.last().cost_per_1k_tokens,
                1000,
            ),
        )
    }
}

/// The latency that the selected providers are estimated to answer in: the
/// lowest of their averages, and 3000 where none is selected.
pub open spec fn race_latency(selected: Seq<Marks>) -> u64
    decreases selected.len(),
{
    if selected.len() == 0 {
        3000
    } else if selected.len() == 1 {
        selected[0].avg_latency_ms
    } else {
        let rest = race_latency(selected.drop_last());
        if selected.last().avg_latency_ms < rest {
            selected.last().avg_latency_ms
        } else {
            rest
        }
    }
}

/// The sum of the reliability marks.
pub open spec fn reliability_sum(selected: Seq<Marks>) -> int
    decreases selected.len(),
{
    if selected.len() == 0 {
        0
    } else {
        reliability_sum(selected.drop_last()) + reliability_score(selected.last())
    }
}

/// The confidence in a selection: the mean reliability, a tenth more where
/// several providers are selected, at most one; one where none is selected.
pub open spec fn confidence(selected: Seq<Marks>) -> u64 {
    if selected.len() == 0 {
        PPM
    } else {
        let mean = reliability_sum(selected) / (selected.len() as int);
        let bonus: int = if selected.len() > 1 {
            100_000
        } else {
            0
        };
        if mean + bonus > PPM {
            PPM
        } else {
            (mean + bonus) as u64
        }
    }
}

/// The marks of a list of metrics.
pub open spec fn marks_list(metrics: Seq<ProviderMetrics>) -> Seq<Marks> {
    Seq::new(metrics.len(), |i: int| metrics[i].marks())
}

/// What the router decided for one request.
#[derive(Debug, Clone)]
pub struct RoutingDecision {
    /// The ids of the selected providers, best first.
    pub selected_providers: Vec<String>,
    /// The places of the selected providers among the candidates.
    pub selected_indices: Vec<usize>,
    pub strategy_used: String,
    pub estimated_cost: u64,
    pub estimated_latency_ms: u64,
    pub confidence_score: u64,
    pub reasoning: Vec<String>,
}

impl AdvancedRouter {
    /// Computes [`input_estimate`].
    pub fn estimate_input(request: &ChatCompletionRequest) -> (n: u64)
        ensures
            n == input_estimate(request.messages@),
    {
        let mut n: u64 = 0;
        let mut i: usize = 0;
        while i < request.messages.len()
            invariant
                i <= request.messages@.len(),
                n == input_estimate(request.messages@.take(i as int)),
            decreases request.messages@.len() - i,
        {
            proof {
                assert(request.messages@.take(i + 1).drop_last() =~= request.messages@.take(i as int));
            }
            let len = request.messages[i].content.len();
            n = add_amount(n, (len / 4) as u64);
            i += 1;
        }
        assert(request.messages@.take(i as int) =~= request.messages@);
        n
    }

    /// Computes [`race_cost`].
    pub fn estimate_total_cost(selected: &Vec<ProviderMetrics>, request: &ChatCompletionRequest) -> (c:
        u64)
        ensures
            c == race_cost(marks_list(selected@), *request),
    {
        let est_in = Self::estimate_input(request);
        let est_out: u64 = match request.max_tokens {
            Some(n) => n as u64,
            None => 500,
        };
        let mut total: u64 = 0;
        let mut i: usize = 0;
        while i < selected.len()
            invariant
                i <= selected@.len(),
                est_in == input_estimate(request.messages@),
                est_out == output_estimate(*request),
                total == race_cost(marks_list(selected@).take(i as int), *request),
            decreases selected@.len() - i,
        {
            proof {
                assert(marks_list(selected@).take(i + 1).drop_last() =~= marks_list(selected@).take(
                    i as int,
                ));
            }
            let share: u64 = if i == 0 {
                est_out
            } else {
                est_out / 5
            };
            let tokens = add_amount(est_in, share);
            total = add_amount(total, scale(tokens, selected[i].cost_per_1k_tokens, 1000));
            i += 1;
        }
        assert(marks_list(selected@).take(i as int) =~= marks_list(selected@));
        total
    }

    /// Computes [`race_latency`].
    pub fn estimate_response_latency(selected: &Vec<ProviderMetrics>) -> (l: u64)
        ensures
            l == race_latency(marks_list(selected@)),
    {
        if selected.len() == 0 {
            return 3000;
        }
        let mut l: u64 = selected[0].avg_latency_ms;
        let mut i: usize = 1;
        assert(marks_list(selected@).take(1).len() == 1);
        while i < selected.len()
            invariant
                1 <= i <= selected@.len(),
                l == race_latency(marks_list(selected@).take(i as int)),
            decreases selected@.len() - i,
        {
            proof {
                assert(marks_list(selected@).take(i + 1).drop_last() =~= marks_list(selected@).take(
                    i as int,
                ));
            }
            if selected[i].avg_latency_ms < l {
                l = selected[i].avg_latency_ms;
            }
            i += 1;
        }
        assert(marks_list(selected@).take(i as int) =~= marks_list(selected@));
        l
    }

    /// Computes [`confidence`].
    pub fn calculate_confidence_score(selected: &Vec<ProviderMetrics>) -> (c: u64)
        ensures
            c == confidence(marks_list(selected@)),
    {
        if selected.len() == 0 {
            return PPM;
        }
        let mut sum: u128 = 0;
        let mut i: usize = 0;
        while i < selected.len()
            invariant
                i <= selected@.len(),
                sum == reliability_sum(marks_list(selected@).take(i as int)),
                sum <= i * PPM,
            decreases selected@.len() - i,
        {
            proof {
                assert(marks_list(selected@).take(i + 1).drop_last() =~= marks_list(selected@).take(
                    i as int,
                ));
            }
            let sr = clamp_rate(selected[i].success_rate);
            let av = clamp_rate(selected[i].availability);
            assert(sr * av <= PPM * PPM) by (nonlinear_arith)
                requires
                    sr <= PPM,
                    av <= PPM,
            ;
            let r: u64 = sr * av / PPM;
            sum = sum + (r as u128);
            i += 1;
        }
        assert(marks_list(selected@).take(i as int) =~= marks_list(selected@));
        let mean: u128 = sum / (selected.len() as u128);
        let bonus: u128 = if selected.len() > 1 {
            100_000
        } else {
            0
        };
        if mean + bonus > PPM as u128 {
            PPM
        } else {
            (mean + bonus) as u64
        }
    }
}


/// The intent of a context: `general` where none was classified.
pub open spec fn intent_text(context: RequestContext) -> Seq<char> {
    match context.intent {
        Some(i) => i@,
        None => "general"@,
    }
}

/// How a user's budget bears on a selection.
pub enum Verdict {
    /// The ranking of all candidates stands.
    Open,
    /// The ranking stands among the candidates that cost no more than this.
    Within(u64),
    /// The one candidate at this place is selected.
    Forced(usize),
    /// The request is refused.
    Blocked,
}

/// How the budget of a user bears on a selection; `remaining` is what the
/// user has left in micro-dollars, `None` for a user without a budget. A
/// user in debt is blocked. A user who cannot pay for the best candidate is
/// forced to the cheapest, and blocked where even that costs more than is
/// left. A user who can pay for the best is given the ranking of the
/// candidates that cost no more than is left: whatever the verdict, no
/// candidate is selected that costs more.
pub open spec fn budget_verdict(remaining: Option<i64>, scores: Seq<u64>, costs: Seq<u64>) -> Verdict {
    match remaining {
        None => Verdict::Open,
        Some(r) => if r < 0 {
            Verdict::Blocked
        } else if scores.len() == 0 {
            Verdict::Open
        } else if r < costs[best_place(scores)] {
            if costs[cheapest_place(costs)] > r {
                Verdict::Blocked
            } else {
                Verdict::Forced(cheapest_place(costs) as usize)
            }
        } else {
            Verdict::Within(r as u64)
        },
    }
}

/// The places of the candidates that cost no more than `limit`, in order.
pub open spec fn within_budget(costs: Seq<u64>, limit: u64) -> Seq<usize>
    decreases costs.len(),
{
    if costs.len() == 0 {
        Seq::empty()
    } else {
        let head = within_budget(costs.drop_last(), limit);
        if costs.last() <= limit {
            head.push((costs.len() - 1) as usize)
        } else {
            head
        }
    }
}

/// The places within a budget are those of the candidates that cost no
/// more than the limit, each once and in ascending order.
pub proof fn lemma_within_budget(costs: Seq<u64>, limit: u64)
    requires
        costs.len() <= usize::MAX,
    ensures
        within_budget(costs, limit).len() <= costs.len(),
        forall|a: int|
            0 <= a < within_budget(costs, limit).len() ==> (#[trigger] within_budget(costs, limit)[a])
                < costs.len() && costs[within_budget(costs, limit)[a] as int] <= limit,
        forall|a: int, b: int|
            0 <= a < b < within_budget(costs, limit).len() ==> (#[trigger] within_budget(
                costs,
                limit,
            )[a]) < (#[trigger] within_budget(costs, limit)[b]),
        forall|j: usize|
            j < costs.len() && costs[j as int] <= limit ==> #[trigger] within_budget(
                costs,
                limit,
            ).contains(j),
    decreases costs.len(),
{
    if costs.len() > 0 {
        let head_costs = costs.drop_last();
        let head = within_budget(head_costs, limit);
        let w = within_budget(costs, limit);
        lemma_within_budget(head_costs, limit);
        assert forall|a: int| 0 <= a < w.len() implies (#[trigger] w[a]) < costs.len() && costs[w[a] as int]
            <= limit by {
            if a < head.len() {
                assert(w[a] == head[a]);
                assert(head_costs[head[a] as int] == costs[head[a] as int]);
            }
        }
        assert forall|a: int, b: int| 0 <= a < b < w.len() implies (#[trigger] w[a]) < (
        #[trigger] w[b]) by {
            assert(w[a] == head[a]);
            if b < head.len() {
                assert(w[b] == head[b]);
            }
        }
        assert forall|j: usize| j < costs.len() && costs[j as int] <= limit implies #[trigger] w.contains(
            j,
        ) by {
            if j < head_costs.len() {
                assert(head_costs[j as int] == costs[j as int]);
                assert(head.contains(j));
                let a = choose|a: int| 0 <= a < head.len() && head[a] == j;
                assert(w[a] == j);
            } else {
                assert(w[w.len() - 1] == j);
            }
        }
    }
}

/// Whether `picked` holds the places of the first `k` by score of the
/// candidates that cost no more than `limit`, ties in the order of the
/// candidates: none of it costs more, it is in rank order, and every
/// candidate within the limit that is left out ranks after all of it.
pub open spec fn is_top_k_within(
    scores: Seq<u64>,
    costs: Seq<u64>,
    limit: u64,
    k: nat,
    picked: Seq<usize>,
) -> bool {
    &&& picked.len() == if k <= within_budget(costs, limit).len() {
        k
    } else {
        within_budget(costs, limit).len()
    }
    &&& forall|a: int|
        0 <= a < picked.len() ==> (#[trigger] picked[a]) < scores.len() && costs[picked[a] as int]
            <= limit
    &&& forall|a: int, b: int|
        0 <= a < b < picked.len() ==> ranks_before(
            scores,
            #[trigger] picked[a] as int,
            #[trigger] picked[b] as int,
        )
    &&& forall|j: usize, a: int|
        j < scores.len() && costs[j as int] <= limit && 0 <= a < picked.len() && !(
        #[trigger] picked.contains(j)) ==> ranks_before(scores, #[trigger] picked[a] as int, j as int)
}

/// Computes [`within_budget`].
pub fn places_within(costs: &Vec<u64>, limit: u64) -> (w: Vec<usize>)
    ensures
        w@ == within_budget(costs@, limit),
{
    let mut w: Vec<usize> = Vec::new();
    let mut i: usize = 0;
    while i < costs.len()
        invariant
            i <= costs@.len(),
            w@ == within_budget(costs@.take(i as int), limit),
        decreases costs@.len() - i,
    {
        proof {
            assert(costs@.take(i + 1).drop_last() =~= costs@.take(i as int));
        }
        if costs[i] <= limit {
            w.push(i);
        }
        i += 1;
    }
    proof {
        assert(costs@.take(i as int) =~= costs@);
    }
    w
}

/// The places of the first `k` by score of the candidates that cost no
/// more than `limit`.
pub fn top_k_within(scores: &Vec<u64>, costs: &Vec<u64>, limit: u64, k: usize) -> (picked: Vec<usize>)
    requires
        scores@.len() == costs@.len(),
    ensures
        is_top_k_within(scores@, costs@, limit, k as nat, picked@),
{
    let n: usize = costs.len();
    let w = places_within(costs, limit);
    proof {
        assert(costs@.len() == n);
        lemma_within_budget(costs@, limit);
    }
    let mut sub: Vec<u64> = Vec::new();
    let mut a: usize = 0;
    while a < w.len()
        invariant
            a <= w@.len(),
            scores@.len() == costs@.len(),
            forall|t: int| 0 <= t < w@.len() ==> (#[trigger] w@[t]) < costs@.len(),
            sub@.len() == a,
            forall|t: int| 0 <= t < a ==> #[trigger] sub@[t] == scores@[w@[t] as int],
        decreases w@.len() - a,
    {
        sub.push(scores[w[a]]);
        a += 1;
    }
    let inner = top_k(&sub, k);
    let mut picked: Vec<usize> = Vec::new();
    let mut b: usize = 0;
    while b < inner.len()
        invariant
            b <= inner@.len(),
            sub@.len() == w@.len(),
            forall|t: int| 0 <= t < inner@.len() ==> (#[trigger] inner@[t]) < sub@.len(),
            picked@.len() == b,
            forall|t: int| 0 <= t < b ==> #[trigger] picked@[t] == w@[inner@[t] as int],
        decreases inner@.len() - b,
    {
        picked.push(w[inner[b]]);
        b += 1;
    }
    proof {
        let wv = w@;
        let iv = inner@;
        let pv = picked@;
        assert forall|x: int, y: int| 0 <= x < y < pv.len() implies ranks_before(
            scores@,
            #[trigger] pv[x] as int,
            #[trigger] pv[y] as int,
        ) by {
            assert(ranks_before(sub@, iv[x] as int, iv[y] as int));
            assert(sub@[iv[x] as int] == scores@[wv[iv[x] as int] as int]);
            assert(sub@[iv[y] as int] == scores@[wv[iv[y] as int] as int]);
            if iv[x] < iv[y] {
                assert(wv[iv[x] as int] < wv[iv[y] as int]);
            }
        }
        assert forall|j: usize, x: int|
            j < scores@.len() && costs@[j as int] <= limit && 0 <= x < pv.len() && !(
            #[trigger] pv.contains(j)) implies ranks_before(scores@, #[trigger] pv[x] as int, j as int) by {
            assert(wv.contains(j));
            let t = choose|t: int| 0 <= t < wv.len() && wv[t] == j;
            if iv.contains(t as usize) {
                let z = choose|z: int| 0 <= z < iv.len() && iv[z] == t as usize;
                assert(pv[z] == j);
                assert(false);
            }
            assert(ranks_before(sub@, iv[x] as int, t));
            assert(sub@[iv[x] as int] == scores@[wv[iv[x] as int] as int]);
            assert(sub@[t] == scores@[j as int]);
            if (iv[x] as int) < t {
                assert(wv[iv[x] as int] < wv[t]);
            }
        }
    }
    picked
}

/// The cheapest place holds a cost that no other undercuts, and is the first such.
pub proof fn lemma_cheapest_place(costs: Seq<u64>)
    requires
        costs.len() > 0,
    ensures
        0 <= cheapest_place(costs) < costs.len(),
        forall|j: int| 0 <= j < costs.len() ==> costs[cheapest_place(costs)] <= #[trigger] costs[j],
        forall|j: int|
            0 <= j < cheapest_place(costs) ==> costs[cheapest_place(costs)] < #[trigger] costs[j],
    decreases costs.len(),
{
    if costs.len() > 1 {
        let head = costs.drop_last();
        lemma_cheapest_place(head);
        assert forall|j: int| 0 <= j < costs.len() implies costs[cheapest_place(costs)]
            <= #[trigger] costs[j] by {
            if j < head.len() {
                assert(head[j] == costs[j]);
            }
        }
        assert forall|j: int| 0 <= j < cheapest_place(costs) implies costs[cheapest_place(costs)]
            < #[trigger] costs[j] by {
            assert(head[j] == costs[j]);
        }
    }
}

/// A user with nothing left is given no candidate that costs money: the
/// request is blocked exactly where every candidate costs money, and else
/// the selection is made among the candidates that cost nothing (a local
/// provider costs nothing), or is the first of them.
pub proof fn lemma_zero_budget(scores: Seq<u64>, costs: Seq<u64>)
    requires
        scores.len() == costs.len(),
        0 < scores.len() <= usize::MAX,
    ensures
        budget_verdict(Some(0i64), scores, costs) is Blocked <==> forall|j: int|
            0 <= j < costs.len() ==> #[trigger] costs[j] > 0,
        budget_verdict(Some(0i64), scores, costs) matches Verdict::Forced(c) ==> c < costs.len() && costs[c as int]
            == 0 && forall|j: int| 0 <= j < c ==> #[trigger] costs[j] > 0,
        budget_verdict(Some(0i64), scores, costs) matches Verdict::Within(limit) ==> limit == 0,
        !(budget_verdict(Some(0i64), scores, costs) is Open),
{
    lemma_cheapest_place(costs);
    lemma_best_place(scores);
}

/// The best place is a place.
pub proof fn lemma_best_place(scores: Seq<u64>)
    requires
        scores.len() > 0,
    ensures
        0 <= best_place(scores) < scores.len(),
    decreases scores.len(),
{
    if scores.len() > 1 {
        lemma_best_place(scores.drop_last());
    }
}

/// Where a candidate costs no more than the limit, some place is within it.
pub proof fn lemma_within_budget_holds(costs: Seq<u64>, limit: u64, j: int)
    requires
        0 <= j < costs.len(),
        costs[j] <= limit,
    ensures
        within_budget(costs, limit).len() > 0,
    decreases costs.len(),
{
    if costs.last() > limit {
        lemma_within_budget_holds(costs.drop_last(), limit, j);
    }
}

/// Under a verdict that ranks within a limit, at least the best candidate
/// is within it.
pub proof fn lemma_within_holds_best(remaining: Option<i64>, scores: Seq<u64>, costs: Seq<u64>)
    requires
        scores.len() == costs.len(),
        budget_verdict(remaining, scores, costs) is Within,
    ensures
        within_budget(costs, budget_verdict(remaining, scores, costs)->Within_0).len() > 0,
{
    let limit = budget_verdict(remaining, scores, costs)->Within_0;
    lemma_best_place(scores);
    lemma_within_budget_holds(costs, limit, best_place(scores));
}

impl AdvancedRouter {
    /// What a user has left to spend, where a budget is set for the user.
    pub open spec fn remaining_for(self, context: RequestContext) -> Option<i64> {
        match context.user_id {
            Some(u) => if self.cost_budgets@.contains_key(u@) {
                Some(self.cost_budgets@[u@])
            } else {
                None
            },
            None => None,
        }
    }

    /// The marks of each candidate.
    pub open spec fn candidate_marks(self, ids: Seq<Seq<char>>) -> Seq<Marks> {
        Seq::new(ids.len(), |i: int| marks_of(self.metrics@, ids[i]))
    }

    /// The score of each candidate for an intent.
    pub open spec fn candidate_scores(self, ids: Seq<Seq<char>>, intent: Seq<char>) -> Seq<u64> {
        Seq::new(
            ids.len(),
            |i: int|
                provider_score(
                    marks_of(self.metrics@, ids[i]),
                    target_latency(intent),
                    intent,
                    self.strategy,
                ),
        )
    }

    /// What the request is estimated to cost at each candidate.
    pub open spec fn candidate_costs(self, ids: Seq<Seq<char>>, request: ChatCompletionRequest) -> Seq<
        u64,
    > {
        Seq::new(ids.len(), |i: int| request_cost(marks_of(self.metrics@, ids[i]), request))
    }

    /// Whether `d` is the decision for a request: the first `k` candidates
    /// by score, of those that the user's budget can pay for where one is
    /// set, or the one candidate that the budget forces, with the
    /// estimates for them.
    pub open spec fn decides(
        self,
        providers: Seq<Seq<char>>,
        request: ChatCompletionRequest,
        context: RequestContext,
        k: usize,
        d: RoutingDecision,
    ) -> bool {
        let intent = intent_text(context);
        let scores = self.candidate_scores(providers, intent);
        let costs = self.candidate_costs(providers, request);
        let marks = self.candidate_marks(providers);
        let places = d.selected_indices@;
        let chosen = Seq::new(places.len(), |a: int| marks[places[a] as int]);
        &&& match budget_verdict(self.remaining_for(context), scores, costs) {
            Verdict::Open => is_top_k(scores, k as nat, places),
            Verdict::Within(limit) => is_top_k_within(scores, costs, limit, k as nat, places),
            Verdict::Forced(c) => places == seq![c],
            Verdict::Blocked => false,
        }
        &&& forall|a: int| 0 <= a < places.len() ==> (#[trigger] places[a]) < providers.len()
        &&& texts(d.selected_providers@) == Seq::new(
            places.len(),
            |a: int| providers[places[a] as int],
        )
        &&& d.strategy_used@ == "advanced_weighted_"@ + intent
        &&& d.estimated_cost == race_cost(chosen, request)
        &&& d.estimated_latency_ms == race_latency(chosen)
        &&& d.confidence_score == confidence(chosen)
        &&& texts(d.reasoning@) == reasons(
            texts(d.selected_providers@),
            Seq::new(places.len(), |a: int| scores[places[a] as int]),
            chosen,
            intent,
            target_latency(intent),
        )
    }

    /// Where a user has a budget, no provider is selected that is estimated
    /// to cost more than is left of it. So a user with nothing left is
    /// given only providers that cost nothing, such as a local one,
    /// whatever the scores of the others.
    pub proof fn lemma_selection_within_budget(
        self,
        providers: Seq<Seq<char>>,
        request: ChatCompletionRequest,
        context: RequestContext,
        k: usize,
        d: RoutingDecision,
    )
        requires
            providers.len() <= usize::MAX,
            self.remaining_for(context) is Some,
            self.decides(providers, request, context, k, d),
        ensures
            forall|a: int|
                0 <= a < d.selected_indices@.len() ==> self.candidate_costs(
                    providers,
                    request,
                )[(#[trigger] d.selected_indices@[a]) as int] <= self.remaining_for(context)->Some_0,
    {
        let costs = self.candidate_costs(providers, request);
        let scores = self.candidate_scores(providers, intent_text(context));
        let places = d.selected_indices@;
        let left = self.remaining_for(context)->Some_0;
        assert forall|a: int| 0 <= a < places.len() implies costs[(#[trigger] places[a]) as int]
            <= left by {
            match budget_verdict(self.remaining_for(context), scores, costs) {
                Verdict::Open => {
                    assert(is_top_k(scores, k as nat, places));
                },
                Verdict::Within(limit) => {
                    assert(is_top_k_within(scores, costs, limit, k as nat, places));
                },
                Verdict::Forced(c) => {
                    lemma_cheapest_place(costs);
                    assert(places[a] == c);
                },
                Verdict::Blocked => {},
            }
        }
    }

    /// The metrics, the score and the estimated cost of each candidate.
    pub fn survey(&self, providers: &Vec<String>, request: &ChatCompletionRequest, intent: &str) -> (r: (
        Vec<ProviderMetrics>,
        Vec<u64>,
        Vec<u64>,
    ))
        ensures
            marks_list(r.0@) == self.candidate_marks(texts(providers@)),
            r.1@ == self.candidate_scores(texts(providers@), intent@),
            r.2@ == self.candidate_costs(texts(providers@), *request),
    {
        let target = Self::latency_target(intent);
        let est_in = Self::estimate_input(request);
        let est_out: u64 = match request.max_tokens {
            Some(n) => n as u64,
            None => 500,
        };
        let tokens = add_amount(est_in, est_out);
        let ghost all_marks = self.candidate_marks(texts(providers@));
        let ghost all_scores = self.candidate_scores(texts(providers@), intent@);
        let ghost all_costs = self.candidate_costs(texts(providers@), *request);
        let mut metrics: Vec<ProviderMetrics> = Vec::new();
        let mut scores: Vec<u64> = Vec::new();
        let mut costs: Vec<u64> = Vec::new();
        let mut i: usize = 0;
        while i < providers.len()
            invariant
                i <= providers@.len(),
                target == target_latency(intent@),
                target > 0,
                tokens == capped_sum(input_estimate(request.messages@), output_estimate(*request)),
                all_marks == self.candidate_marks(texts(providers@)),
                all_scores == self.candidate_scores(texts(providers@), intent@),
                all_costs == self.candidate_costs(texts(providers@), *request),
                marks_list(metrics@) =~= all_marks.take(i as int),
                scores@ =~= all_scores.take(i as int),
                costs@ =~= all_costs.take(i as int),
            decreases providers@.len() - i,
        {
            let m = self.metrics_for(providers[i].as_str());
            scores.push(self.calculate_provider_score(&m, target, intent));
            costs.push(scale(tokens, m.cost_per_1k_tokens, 1000));
            let ghost held = marks_list(metrics@);
            let ghost added = m.marks();
            metrics.push(m);
            assert(marks_list(metrics@) =~= held.push(added));
            i += 1;
        }
        assert(all_marks.take(i as int) =~= all_marks);
        assert(all_scores.take(i as int) =~= all_scores);
        assert(all_costs.take(i as int) =~= all_costs);
        (metrics, scores, costs)
    }

    /// The places of the candidates that are selected under a budget: see [`budget_verdict`].
    pub fn pick_places(remaining: Option<i64>, scores: &Vec<u64>, costs: &Vec<u64>, k: usize) -> (r:
        Result<Vec<usize>, OmenError>)
        requires
            scores@.len() == costs@.len(),
        ensures
            match budget_verdict(remaining, scores@, costs@) {
                Verdict::Open => r is Ok && is_top_k(scores@, k as nat, r->Ok_0@),
                Verdict::Within(limit) => r is Ok && is_top_k_within(
                    scores@,
                    costs@,
                    limit,
                    k as nat,
                    r->Ok_0@,
                ),
                Verdict::Forced(c) => r is Ok && r->Ok_0@ == seq![c] && c < scores@.len(),
                Verdict::Blocked => r is Err && r->Err_0 is BudgetExceeded,
            },
    {
        match remaining {
            None => Ok(top_k(scores, k)),
            Some(r) => {
                if r < 0 {
                    Err(OmenError::BudgetExceeded)
                } else if scores.len() == 0 {
                    Ok(top_k(scores, k))
                } else {
                    let best = best_index(scores);
                    if (r as u64) < costs[best] {
                        let c = cheapest_index(costs);
                        if costs[c] > r as u64 {
                            return Err(OmenError::BudgetExceeded);
                        }
                        let mut one: Vec<usize> = Vec::new();
                        one.push(c);
                        Ok(one)
                    } else {
                        Ok(top_k_within(scores, costs, r as u64, k))
                    }
                }
            },
        }
    }

    /// Selects the providers for a request: the candidates are scored for
    /// the request's intent and the first `k` by score are taken, ties in
    /// the order of the candidates. Where the user has a budget, no
    /// candidate is taken that costs more than is left of it: the budget
    /// may force the cheapest candidate, or refuse the request with
    /// `BudgetExceeded`.
    pub fn select_optimal_providers(
        &self,
        providers: &Vec<String>,
        request: &ChatCompletionRequest,
        context: &RequestContext,
        k: usize,
    ) -> (r: Result<RoutingDecision, OmenError>)
        ensures
            match r {
                Ok(d) => self.decides(texts(providers@), *request, *context, k, d),
                Err(e) => e is BudgetExceeded && budget_verdict(
                    self.remaining_for(*context),
                    self.candidate_scores(texts(providers@), intent_text(*context)),
                    self.candidate_costs(texts(providers@), *request),
                ) is Blocked,
            },
    {
        let intent: String = match &context.intent {
            Some(i) => i.clone(),
            None => String::from_str("general"),
        };
        let target = Self::latency_target(intent.as_str());
        let ghost all_marks = self.candidate_marks(texts(providers@));
        let ghost all_scores = self.candidate_scores(texts(providers@), intent@);
        let ghost all_costs = self.candidate_costs(texts(providers@), *request);
        let (metrics, scores, costs) = self.survey(providers, request, intent.as_str());
        assert(metrics@.len() == marks_list(metrics@).len());
        let remaining: Option<i64> = match &context.user_id {
            Some(u) => match self.cost_budgets.get(u.as_str()) {
                Some(r) => Some(*r),
                None => None,
            },
            None => None,
        };
        let places: Vec<usize> = match Self::pick_places(remaining, &scores, &costs, k) {
            Ok(p) => p,
            Err(e) => {
                return Err(e);
            },
        };
        let ghost chosen = Seq::new(places@.len(), |a: int| all_marks[places@[a] as int]);
        let mut selected: Vec<ProviderMetrics> = Vec::new();
        let mut selected_ids: Vec<String> = Vec::new();
        let mut selected_scores: Vec<u64> = Vec::new();
        let mut a: usize = 0;
        while a < places.len()
            invariant
                a <= places@.len(),
                metrics@.len() == providers@.len(),
                scores@ == all_scores,
                all_scores.len() == providers@.len(),
                all_marks.len() == providers@.len(),
                marks_list(metrics@) == all_marks,
                forall|b: int| 0 <= b < places@.len() ==> (#[trigger] places@[b]) < providers@.len(),
                selected@.len() == a,
                selected_ids@.len() == a,
                selected_scores@.len() == a,
                forall|b: int| 0 <= b < a ==> (#[trigger] selected@[b]).marks() == all_marks[places@[b] as int],
                forall|b: int| 0 <= b < a ==> (#[trigger] selected_ids@[b])@ == providers@[places@[b] as int]@,
                forall|b: int| 0 <= b < a ==> (#[trigger] selected_scores@[b]) == all_scores[places@[b] as int],
            decreases places@.len() - a,
        {
            let p = places[a];
            assert(marks_list(metrics@)[p as int] == metrics@[p as int].marks());
            selected.push(metrics[p].duplicate());
            selected_ids.push(providers[p].clone());
            selected_scores.push(scores[p]);
            a += 1;
        }
        assert(marks_list(selected@) =~= chosen);
        assert(texts(selected_ids@) =~= Seq::new(
            places@.len(),
            |a: int| texts(providers@)[places@[a] as int],
        ));
        assert(selected_scores@ =~= Seq::new(places@.len(), |a: int| all_scores[places@[a] as int]));
        let estimated_cost = Self::estimate_total_cost(&selected, request);
        let estimated_latency_ms = Self::estimate_response_latency(&selected);
        let confidence_score = Self::calculate_confidence_score(&selected);
        let reasoning = Self::generate_reasoning(
            &selected_ids,
            &selected_scores,
            &selected,
            intent.as_str(),
            target,
        );
        let mut strategy_used = String::from_str("advanced_weighted_");
        strategy_used.append(intent.as_str());
        Ok(
            RoutingDecision {
                selected_providers: selected_ids,
                selected_indices: places,
                strategy_used,
                estimated_cost,
                estimated_latency_ms,
                confidence_score,
                reasoning,
            },
        )
    }

    /// The lines that explain a selection: see [`reasons`].
    pub fn generate_reasoning(
        ids: &Vec<String>,
        scores: &Vec<u64>,
        selected: &Vec<ProviderMetrics>,
        intent: &str,
        target_latency_ms: u64,
    ) -> (lines: Vec<String>)
        requires
            ids@.len() == scores@.len(),
            ids@.len() == selected@.len(),
        ensures
            texts(lines@) == reasons(
                texts(ids@),
                scores@,
                marks_list(selected@),
                intent@,
                target_latency_ms,
            ),
    {
        let n = ids.len();
        let mut lines: Vec<String> = Vec::new();
        let mut head = String::from_str("Selected ");
        head.append(decimal_string(n as u64).as_str());
        head.append(" providers for '");
        head.append(intent);
        head.append("' intent");
        lines.push(head);
        let mut second = String::from_str("Target latency: ");
        second.append(decimal_string(target_latency_ms).as_str());
        second.append("ms");
        lines.push(second);
        let ghost opening = texts(lines@);
        assert(opening =~= opening_lines(n as nat, intent@, target_latency_ms));
        let mut i: usize = 0;
        while i < n
            invariant
                i <= n,
                n == ids@.len(),
                n == scores@.len(),
                n == selected@.len(),
                texts(lines@) =~= opening + Seq::new(
                    i as nat,
                    |a: int|
                        reason_line(
                            (a + 1) as nat,
                            texts(ids@)[a],
                            scores@[a],
                            marks_list(selected@)[a],
                        ),
                ),
            decreases n - i,
        {
            let m = &selected[i];
            let mut line = String::from_str("#");
            line.append(decimal_string((i as u64) + 1).as_str());
            line.append(": ");
            line.append(ids[i].as_str());
            line.append(" (score: ");
            line.append(decimal_string(scores[i]).as_str());
            line.append(", latency: ");
            line.append(decimal_string(m.avg_latency_ms).as_str());
            line.append("ms, cost: ");
            line.append(decimal_string(m.cost_per_1k_tokens).as_str());
            line.append("/1k, quality: ");
            line.append(decimal_string(m.quality_score).as_str());
            line.append(")");
            assert(line@ =~= reason_line(
                (i + 1) as nat,
                texts(ids@)[i as int],
                scores@[i as int],
                marks_list(selected@)[i as int],
            ));
            let ghost so_far = texts(lines@);
            lines.push(line);
            assert(texts(lines@) =~= so_far.push(line@));
            i += 1;
        }
        if n > 1 {
            lines.push(String::from_str("Using race strategy for optimal latency"));
        }
        assert(texts(lines@) =~= reasons(
            texts(ids@),
            scores@,
            marks_list(selected@),
            intent@,
            target_latency_ms,
        ));
        lines
    }
}

/// The two lines that open the reasoning.
pub open spec fn opening_lines(n: nat, intent: Seq<char>, target_latency_ms: u64) -> Seq<Seq<char>> {
    seq![
        "Selected "@ + decimal(n) + " providers for '"@ + intent + "' intent"@,
        "Target latency: "@ + decimal(target_latency_ms as nat) + "ms"@,
    ]
}

/// The line of the reasoning for the provider at a place of the selection.
pub open spec fn reason_line(place: nat, id: Seq<char>, score: u64, m: Marks) -> Seq<char> {
    "#"@ + decimal(place) + ": "@ + id + " (score: "@ + decimal(score as nat) + ", latency: "@
        + decimal(m.avg_latency_ms as nat) + "ms, cost: "@ + decimal(m.cost_per_1k_tokens as nat)
        + "/1k, quality: "@ + decimal(m.quality_score as nat) + ")"@
}

/// The reasoning for a selection: how many providers were selected for
/// which intent, the latency aimed at, one line for each provider, and a
/// note where several providers race.
pub open spec fn reasons(
    ids: Seq<Seq<char>>,
    scores: Seq<u64>,
    marks: Seq<Marks>,
    intent: Seq<char>,
    target_latency_ms: u64,
) -> Seq<Seq<char>> {
    opening_lines(ids.len(), intent, target_latency_ms) + Seq::new(
        ids.len(),
        |a: int| reason_line((a + 1) as nat, ids[a], scores[a], marks[a]),
    ) + if ids.len() > 1 {
        seq!["Using race strategy for optimal latency"@]
    } else {
        Seq::<Seq<char>>::empty()
    }
}

} // verus!
