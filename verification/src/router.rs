//! The request pipeline: admission, the choice of providers from what a
//! probe found of them, and what is recorded when a request completes.
//! Everything that waits on the outside world is done by the caller, who
//! hands each answer back as an event.

use vstd::prelude::*;
use crate::amount::{add_amount, capped, scale, scaled};
use crate::auth::{list_has, lists};
use crate::amount::capped_count;
use crate::billing::{BillingManager, LedgerView};
use crate::cache::response_key;
use crate::config::Config;
use crate::rate_limiter::{bucket_of, limits_of, secs_of};
use crate::types::ChatCompletionResponse;
use crate::cache::{CachedResponse, RedisCache};
use crate::error::OmenError;
use crate::multiplexer::{DriverWork, LaunchPlan, MultiplexStrategy, StreamMultiplexer, WorkView, work_views};
use crate::providers::price_per_1k;
use crate::rate_limiter::AdaptiveRateLimiter;
use crate::routing::{AdvancedRouter, RoutingDecision};
use crate::text::{str_eq, texts};
use crate::types::{ChatCompletionRequest, ChatMessage, ContentPart, MessageContent, OmenConfig, RequestContext};

verus! {

/// What a probe found of one provider.
#[derive(Debug, Clone)]
pub struct ProviderReport {
    pub id: String,
    pub healthy: bool,
    /// The ids of the models that the provider lists; `None` where it
    /// could not be asked.
    pub models: Option<Vec<String>>,
}

/// Whether a provider of this id was found healthy.
pub open spec fn is_up(reports: Seq<ProviderReport>, id: Seq<char>) -> bool {
    exists|i: int| 0 <= i < reports.len() && (#[trigger] reports[i]).id@ == id && reports[i].healthy
}

/// Whether a report is of a healthy provider that lists the model.
pub open spec fn serves(report: ProviderReport, model: Seq<char>) -> bool {
    report.healthy && (report.models matches Some(list) && lists(list@, model))
}

/// The ids of the providers that are healthy and list the model, in the
/// order of the reports.
pub open spec fn serving(reports: Seq<ProviderReport>, model: Seq<char>) -> Seq<Seq<char>>
    decreases reports.len(),
{
    if reports.len() == 0 {
        seq![]
    } else if serves(reports.last(), model) {
        serving(reports.drop_last(), model).push(reports.last().id@)
    } else {
        serving(reports.drop_last(), model)
    }
}

/// Those of the ids whose provider was found healthy, in order.
pub open spec fn up_among(reports: Seq<ProviderReport>, ids: Seq<Seq<char>>) -> Seq<Seq<char>>
    decreases ids.len(),
{
    if ids.len() == 0 {
        seq![]
    } else if is_up(reports, ids.last()) {
        up_among(reports, ids.drop_last()).push(ids.last())
    } else {
        up_among(reports, ids.drop_last())
    }
}

/// The order in which the cloud providers are tried for a single answer.
pub open spec fn single_order() -> Seq<Seq<char>> {
    seq!["openai"@, "anthropic"@, "google"@, "azure"@, "xai"@]
}

/// The order in which the cloud providers join the candidates.
pub open spec fn cloud_order() -> Seq<Seq<char>> {
    seq!["anthropic"@, "openai"@, "google"@, "azure"@, "xai"@]
}

/// The local provider, where the intent prefers it and it is healthy.
pub open spec fn local_first(prefers_local: bool, reports: Seq<ProviderReport>) -> Seq<Seq<char>> {
    if prefers_local && is_up(reports, "ollama"@) {
        seq!["ollama"@]
    } else {
        seq![]
    }
}

/// The tokens that an image is estimated at, by its detail.
pub open spec fn image_tokens(detail: Option<Seq<char>>) -> nat {
    match detail {
        Some(d) => if d == "low"@ {
            85
        } else if d == "high"@ {
            765
        } else {
            425
        },
        None => 425,
    }
}

/// The tokens that the images among the parts are estimated at.
pub open spec fn parts_image_tokens(parts: Seq<ContentPart>) -> nat
    decreases parts.len(),
{
    if parts.len() == 0 {
        0
    } else {
        parts_image_tokens(parts.drop_last()) + match parts.last() {
            ContentPart::ImageUrl { image_url } => image_tokens(crate::text::opt_text(image_url.detail)),
            ContentPart::Text { .. } => 0,
        }
    }
}

/// The tokens that the images of the messages are estimated at.
pub open spec fn messages_image_tokens(messages: Seq<ChatMessage>) -> nat
    decreases messages.len(),
{
    if messages.len() == 0 {
        0
    } else {
        messages_image_tokens(messages.drop_last()) + match messages.last().content {
            MessageContent::Parts(parts) => parts_image_tokens(parts@),
            MessageContent::Text(_) => 0,
        }
    }
}

/// The characters of the texts of the messages.
pub open spec fn messages_text_chars(messages: Seq<ChatMessage>) -> nat
    decreases messages.len(),
{
    if messages.len() == 0 {
        0
    } else {
        messages_text_chars(messages.drop_last()) + messages.last().content.text_view().len()
    }
}

/// The tokens that a request is estimated at: a quarter of the characters
/// of its text, rounded up, and what its images are estimated at; at most
/// the largest representable count.
pub open spec fn input_tokens(request: ChatCompletionRequest) -> u32 {
    let n = (messages_text_chars(request.messages@) + 3) / 4 + messages_image_tokens(
        request.messages@,
    );
    if n > u32::MAX {
        u32::MAX
    } else {
        n as u32
    }
}

/// The gateway's state: the providers it may use, what it has learnt of
/// them, and the ledgers and buckets of its tenants.
pub struct OmenRouter {
    /// The intents that go to the local provider first.
    pub prefer_local_for: Vec<String>,
    pub advanced_router: AdvancedRouter,
    pub billing_manager: BillingManager,
    pub rate_limiter: AdaptiveRateLimiter,
    /// The cache, where it is enabled.
    pub cache: Option<RedisCache>,
}

fn report_is_up(reports: &Vec<ProviderReport>, id: &str) -> (b: bool)
    ensures
        b == is_up(reports@, id@),
{
    let mut i: usize = 0;
    while i < reports.len()
        invariant
            i <= reports@.len(),
            forall|j: int| 0 <= j < i ==> !((#[trigger] reports@[j]).id@ == id@ && reports@[j].healthy),
        decreases reports@.len() - i,
    {
        if reports[i].healthy && str_eq(reports[i].id.as_str(), id) {
            return true;
        }
        i += 1;
    }
    false
}

fn push_up(reports: &Vec<ProviderReport>, ids: &Vec<String>, out: &mut Vec<String>)
    ensures
        texts(final(out)@) == texts(old(out)@) + up_among(reports@, texts(ids@)),
{
    let ghost start = texts(out@);
    let mut i: usize = 0;
    assert(texts(ids@).take(0) =~= Seq::<Seq<char>>::empty());
    while i < ids.len()
        invariant
            i <= ids@.len(),
            texts(out@) =~= start + up_among(reports@, texts(ids@).take(i as int)),
        decreases ids@.len() - i,
    {
        proof {
            assert(texts(ids@).take(i + 1).drop_last() =~= texts(ids@).take(i as int));
        }
        if report_is_up(reports, ids[i].as_str()) {
            let ghost held = texts(out@);
            out.push(ids[i].clone());
            assert(texts(out@) =~= held.push(ids@[i as int]@));
        }
        i += 1;
    }
    assert(texts(ids@).take(i as int) =~= texts(ids@));
}

fn names(a: &str, b: &str, c: &str, d: &str, e: &str) -> (v: Vec<String>)
    ensures
        texts(v@) == seq![a@, b@, c@, d@, e@],
{
    let mut v: Vec<String> = Vec::new();
    v.push(String::from_str(a));
    v.push(String::from_str(b));
    v.push(String::from_str(c));
    v.push(String::from_str(d));
    v.push(String::from_str(e));
    assert(texts(v@) =~= seq![a@, b@, c@, d@, e@]);
    v
}

impl OmenRouter {
    /// Whether the intent of a context goes to the local provider first.
    pub open spec fn prefers_local(self, context: RequestContext) -> bool {
        lists(self.prefer_local_for@, crate::routing::intent_text(context))
    }

    fn intent_prefers_local(&self, context: &RequestContext) -> (b: bool)
        ensures
            b == self.prefers_local(*context),
    {
        match &context.intent {
            Some(i) => list_has(&self.prefer_local_for, i.as_str()),
            None => list_has(&self.prefer_local_for, "general"),
        }
    }

    /// Computes [`input_tokens`].
    pub fn estimate_input_tokens(request: &ChatCompletionRequest) -> (n: u32)
        ensures
            n == input_tokens(*request),
    {
        let mut chars: u64 = 0;
        let mut images: u64 = 0;
        let mut i: usize = 0;
        while i < request.messages.len()
            invariant
                i <= request.messages@.len(),
                chars == capped(messages_text_chars(request.messages@.take(i as int)) as int),
                images == capped(messages_image_tokens(request.messages@.take(i as int)) as int),
            decreases request.messages@.len() - i,
        {
            proof {
                assert(request.messages@.take(i + 1).drop_last() =~= request.messages@.take(i as int));
            }
            let m = &request.messages[i];
            let text = m.content.text();
            chars = add_amount(chars, text.as_str().unicode_len() as u64);
            if let MessageContent::Parts(parts) = &m.content {
                let mut sum: u64 = 0;
                let mut j: usize = 0;
                while j < parts.len()
                    invariant
                        j <= parts@.len(),
                        sum == capped(parts_image_tokens(parts@.take(j as int)) as int),
                    decreases parts@.len() - j,
                {
                    proof {
                        assert(parts@.take(j + 1).drop_last() =~= parts@.take(j as int));
                    }
                    if let ContentPart::ImageUrl { image_url } = &parts[j] {
                        let t: u64 = match &image_url.detail {
                            Some(d) => if str_eq(d.as_str(), "low") {
                                85
                            } else if str_eq(d.as_str(), "high") {
                                765
                            } else {
                                425
                            },
                            None => 425,
                        };
                        sum = add_amount(sum, t);
                    }
                    j += 1;
                }
                proof {
                    assert(parts@.take(j as int) =~= parts@);
                }
                images = add_amount(images, sum);
            }
            i += 1;
        }
        proof {
            assert(request.messages@.take(i as int) =~= request.messages@);
        }
        let n: u128 = ((chars as u128) + 3) / 4 + (images as u128);
        if n > u32::MAX as u128 {
            u32::MAX
        } else {
            n as u32
        }
    }

    /// What a completion of `total_tokens` tokens costs at a provider, in
    /// micro-dollars.
    pub fn estimate_provider_cost(provider_id: &str, total_tokens: u32) -> (c: u64)
        ensures
            c == scaled(total_tokens as u64, price_per_1k(provider_id@), 1000),
    {
        let per_1k = crate::providers::price_of(provider_id);
        scale(total_tokens as u64, per_1k, 1000)
    }

    /// The provider for a request that leaves the choice to the gateway:
    /// the local one where the intent prefers it and it is healthy, else
    /// the first healthy cloud provider.
    pub fn select_auto_provider(&self, context: &RequestContext, reports: &Vec<ProviderReport>) -> (r:
        Result<String, OmenError>)
        ensures
            ({
                let choice = local_first(self.prefers_local(*context), reports@) + up_among(
                    reports@,
                    single_order(),
                );
                match r {
                    Ok(id) => choice.len() > 0 && id@ == choice[0],
                    Err(e) => choice.len() == 0 && (e matches OmenError::ProviderUnavailable(m)
                        && m@ == "No providers available"@),
                }
            }),
    {
        let mut choice: Vec<String> = Vec::new();
        if self.intent_prefers_local(context) && report_is_up(reports, "ollama") {
            choice.push(String::from_str("ollama"));
        }
        assert(texts(choice@) =~= local_first(self.prefers_local(*context), reports@));
        let order = names("openai", "anthropic", "google", "azure", "xai");
        push_up(reports, &order, &mut choice);
        if choice.len() == 0 {
            Err(OmenError::ProviderUnavailable(String::from_str("No providers available")))
        } else {
            Ok(choice[0].clone())
        }
    }

    /// The provider for a request: for the model `auto` the gateway's
    /// choice, else the first healthy provider that lists the model.
    pub fn select_provider(&self, model: &str, context: &RequestContext, reports: &Vec<ProviderReport>) -> (r:
        Result<String, OmenError>)
        ensures
            model@ == "auto"@ ==> ({
                let choice = local_first(self.prefers_local(*context), reports@) + up_among(
                    reports@,
                    single_order(),
                );
                match r {
                    Ok(id) => choice.len() > 0 && id@ == choice[0],
                    Err(e) => choice.len() == 0 && e is ProviderUnavailable,
                }
            }),
            model@ != "auto"@ ==> match r {
                Ok(id) => serving(reports@, model@).len() > 0 && id@ == serving(reports@, model@)[0],
                Err(e) => serving(reports@, model@).len() == 0 && (e matches OmenError::ModelNotFound(
                    m,
                ) && m@ == "Model "@ + model@ + " not found or provider unavailable"@),
            },
    {
        if str_eq(model, "auto") {
            return self.select_auto_provider(context, reports);
        }
        let found = Self::select_candidates_by_model(model, reports);
        if found.len() == 0 {
            let mut m = String::from_str("Model ");
            m.append(model);
            m.append(" not found or provider unavailable");
            Err(OmenError::ModelNotFound(m))
        } else {
            Ok(found[0].clone())
        }
    }

    /// The candidates for a request that leaves the choice to the gateway:
    /// the local provider first where the intent prefers it, then every
    /// healthy cloud provider.
    pub fn select_candidates_by_intent(&self, context: &RequestContext, reports: &Vec<ProviderReport>) -> (c:
        Vec<String>)
        ensures
            texts(c@) == local_first(self.prefers_local(*context), reports@) + up_among(
                reports@,
                cloud_order(),
            ),
    {
        let mut c: Vec<String> = Vec::new();
        if self.intent_prefers_local(context) && report_is_up(reports, "ollama") {
            c.push(String::from_str("ollama"));
        }
        assert(texts(c@) =~= local_first(self.prefers_local(*context), reports@));
        let order = names("anthropic", "openai", "google", "azure", "xai");
        push_up(reports, &order, &mut c);
        c
    }

    /// The candidates for a model: every healthy provider that lists it.
    pub fn select_candidates_by_model(model: &str, reports: &Vec<ProviderReport>) -> (c: Vec<String>)
        ensures
            texts(c@) == serving(reports@, model@),
    {
        let mut c: Vec<String> = Vec::new();
        let mut i: usize = 0;
        assert(texts(c@) =~= serving(reports@.take(0), model@));
        while i < reports.len()
            invariant
                i <= reports@.len(),
                texts(c@) =~= serving(reports@.take(i as int), model@),
            decreases reports@.len() - i,
        {
            proof {
                assert(reports@.take(i + 1).drop_last() =~= reports@.take(i as int));
            }
            let r = &reports[i];
            let listed = match &r.models {
                Some(list) => list_has(list, model),
                None => false,
            };
            if r.healthy && listed {
                let ghost held = texts(c@);
                c.push(r.id.clone());
                assert(texts(c@) =~= held.push(r.id@));
            }
            i += 1;
        }
        assert(reports@.take(i as int) =~= reports@);
        c
    }

    /// The candidates of a request under a routing directive, before they
    /// are ranked: the healthy ones of the providers that the directive
    /// allows, or else those that fit the model.
    pub open spec fn candidates(
        self,
        request: ChatCompletionRequest,
        context: RequestContext,
        omen_config: OmenConfig,
        reports: Seq<ProviderReport>,
    ) -> Seq<Seq<char>> {
        match omen_config.providers {
            Some(allowed) => up_among(reports, texts(allowed@)),
            None => if request.model@ == "auto"@ {
                local_first(self.prefers_local(context), reports) + up_among(reports, cloud_order())
            } else {
                serving(reports, request.model@)
            },
        }
    }

    /// The fan-out that a directive asks for: two where it names none.
    pub open spec fn fan_out(omen_config: OmenConfig) -> usize {
        match omen_config.k {
            Some(k) => k as usize,
            None => 2,
        }
    }

    /// Selects the providers for a request under a routing directive: the
    /// candidates are ranked by the adaptive router and the first `k` are
    /// taken. Without a candidate the request fails with
    /// `ProviderUnavailable`; a user's budget may refuse it with
    /// `BudgetExceeded`.
    pub fn select_candidates(
        &self,
        request: &ChatCompletionRequest,
        context: &RequestContext,
        omen_config: &OmenConfig,
        reports: &Vec<ProviderReport>,
    ) -> (r: Result<RoutingDecision, OmenError>)
        ensures
            ({
                let candidates = self.candidates(*request, *context, *omen_config, reports@);
                match r {
                    Ok(d) => candidates.len() > 0 && self.advanced_router.decides(
                        candidates,
                        *request,
                        *context,
                        Self::fan_out(*omen_config),
                        d,
                    ),
                    Err(e) => if candidates.len() == 0 {
                        e matches OmenError::ProviderUnavailable(m) && m@
                            == "No suitable providers found"@
                    } else {
                        e is BudgetExceeded && crate::routing::budget_verdict(
                            self.advanced_router.remaining_for(*context),
                            self.advanced_router.candidate_scores(
                                candidates,
                                crate::routing::intent_text(*context),
                            ),
                            self.advanced_router.candidate_costs(candidates, *request),
                        ) is Blocked
                    },
                }
            }),
    {
        let candidates: Vec<String> = match &omen_config.providers {
            Some(allowed) => {
                let mut c: Vec<String> = Vec::new();
                push_up(reports, allowed, &mut c);
                assert(texts(c@) =~= up_among(reports@, texts(allowed@)));
                c
            },
            None => {
                if str_eq(request.model.as_str(), "auto") {
                    self.select_candidates_by_intent(context, reports)
                } else {
                    Self::select_candidates_by_model(request.model.as_str(), reports)
                }
            },
        };
        if candidates.len() == 0 {
            return Err(
                OmenError::ProviderUnavailable(String::from_str("No suitable providers found")),
            );
        }
        let k: usize = match omen_config.k {
            Some(k) => k as usize,
            None => 2,
        };
        self.advanced_router.select_optimal_providers(&candidates, request, context, k)
    }
}


/// Why a ledger refuses a request.
pub enum Denial {
    /// It does not.
    Nothing,
    /// The day's requests or tokens are used up.
    Rate,
    /// The day's budget is used up.
    Budget,
}

/// Why a ledger refuses a request at `now`: the limit on requests or on
/// tokens counts before the budget.
pub open spec fn denial(ledger: LedgerView, now: i64) -> Denial {
    let used = ledger.usage_tracker.as_of(now);
    if (ledger.tier.requests_per_day matches Some(l) && used.requests_today >= l) || (
    ledger.tier.tokens_per_day matches Some(l) && used.tokens_today >= l) {
        Denial::Rate
    } else if ledger.tier.budget_per_day_usd matches Some(l) && used.cost_today_usd >= l {
        Denial::Budget
    } else {
        Denial::Nothing
    }
}

/// A ledger allows a request exactly where it has no reason to refuse it.
pub proof fn lemma_denial_matches_allows(ledger: LedgerView, now: i64)
    ensures
        ledger.allows(now) <==> denial(ledger, now) is Nothing,
{
}

/// What is to be written to the cache when a request completes.
#[derive(Debug, Clone)]
pub struct CacheWrite {
    pub key: String,
    pub provider_used: String,
    /// Micro-dollars.
    pub cost_usd: u64,
}

/// How the stream of a request is to be run.
#[derive(Debug, Clone)]
pub struct StreamPlan {
    pub decision: RoutingDecision,
    pub multiplexer: StreamMultiplexer,
    pub launch: LaunchPlan,
}

/// How the planning of a stream ends.
pub enum StreamVerdict {
    /// With a plan.
    Planned,
    /// The request is not well-formed.
    Invalid,
    /// No candidate is healthy.
    NoCandidate,
    /// The user's budget refuses the request.
    OverBudget,
    /// The selection leaves the strategy nothing to drive.
    NothingToDrive,
}

/// How a stream ended.
#[derive(Debug, Clone)]
pub struct StreamEnd {
    /// The provider that the stream ended on; none where it was committed
    /// to no provider.
    pub provider: Option<String>,
    /// How many chunks were forwarded.
    pub forwarded: u32,
    /// Whether the stream ended without a failure.
    pub success: bool,
    pub latency_ms: u64,
    /// Whether the output moved to another provider on the way.
    pub upgraded: bool,
    /// What the drivers did that the stream did not end on: those that
    /// lost the race, and the one that an upgrade took the output from.
    pub others: Vec<DriverWork>,
}

/// What is kept of a stream that has ended.
#[derive(Debug, Clone)]
pub struct StreamSummary {
    /// The provider that the stream ended on.
    pub provider: Option<String>,
    /// Whether the output moved to another provider on the way.
    pub upgraded: bool,
    /// How many chunks were forwarded.
    pub forwarded: u32,
    /// What the stream is estimated to have cost at the provider that it
    /// ended on, in micro-dollars; nothing where it ended on none.
    pub cost_usd: u64,
}

/// A hit of the cache: the key, and the entry with the hit counted.
#[derive(Debug, Clone)]
pub struct CacheHit {
    pub key: String,
    pub entry: CachedResponse,
}

/// Where a streamed request stands.
#[derive(Debug, Clone)]
pub enum StreamState {
    Start,
    /// The providers are being probed.
    AwaitingProbe,
    /// The stream runs.
    Streaming,
    Finished,
}

/// What the outside world answered to a step of a streamed request.
#[derive(Debug, Clone)]
pub enum StreamInput {
    /// The request arrived.
    Begin,
    /// What the probe found.
    Probed(Vec<ProviderReport>),
    /// The stream has ended.
    Ended(StreamEnd),
}

/// What the caller of a streamed request is to do next.
#[derive(Debug, Clone)]
pub enum StreamAction {
    /// Probe the providers.
    Probe,
    /// Run the stream as planned.
    Launch(StreamPlan),
    /// Nothing more: the request is done, and this is kept of it.
    Close(StreamSummary),
    /// Fail the request.
    Fail(OmenError),
}

/// Where a request stands in the pipeline.
#[derive(Debug, Clone)]
pub enum PipelineState {
    Start,
    /// The cache was asked for the key.
    AwaitingCache { key: String },
    /// The providers are being probed.
    AwaitingProbe,
    /// The provider was called.
    AwaitingProvider { provider_id: String },
    Finished,
}

/// What the outside world answered.
#[derive(Debug)]
pub enum PipelineEvent {
    /// The request arrived.
    Begin,
    /// The entry that the cache holds under the key.
    CacheReply(Option<CachedResponse>),
    /// What the probe found.
    Probed(Vec<ProviderReport>),
    /// What the provider answered, and how long it took.
    Answered { result: Result<ChatCompletionResponse, OmenError>, latency_ms: u64 },
}

/// What the caller is to do next.
#[derive(Debug, Clone)]
pub enum PipelineAction {
    /// Ask the cache for the key.
    LookUp { key: String },
    /// Probe the providers.
    Probe,
    /// Call the provider.
    Call { provider_id: String },
    /// Answer the request with the response of the entry of a hit, and
    /// write the entry back: the hit is counted in it.
    ReturnHit(CacheHit),
    /// Answer the request; write the answer to the cache where the action
    /// says so.
    Return { response: ChatCompletionResponse, store: Option<CacheWrite> },
    /// Fail the request.
    Fail(OmenError),
}

impl OmenRouter {
    /// A gateway that has learnt nothing yet and has no tenant.
    pub fn new(config: &Config) -> (r: Self)
        ensures
            r.prefer_local_for@ == config.routing.prefer_local_for@,
            r.cache is Some <==> config.cache.enabled,
            r.cache matches Some(c) ==> c.pooled == 0 && c.config.redis_url == config.cache.redis_url
                && c.config.default_ttl_seconds == config.cache.default_ttl_seconds
                && c.config.response_cache_ttl == config.cache.response_cache_ttl
                && c.config.session_cache_ttl == config.cache.session_cache_ttl
                && c.config.rate_limit_ttl == config.cache.rate_limit_ttl
                && c.config.provider_health_ttl == config.cache.provider_health_ttl
                && c.config.max_cache_size_mb == config.cache.max_cache_size_mb,
            r.billing_manager@.ledgers == Map::<Seq<char>, LedgerView>::empty(),
            r.billing_manager@.history == Map::<Seq<char>, Seq<crate::billing::TokenUsage>>::empty(),
            r.advanced_router.cost_budgets@ == Map::<Seq<char>, i64>::empty(),
            r.advanced_router.strategy == (crate::routing::RoutingStrategy {
                cost_weight: 300_000,
                latency_weight: 400_000,
                quality_weight: 200_000,
                reliability_weight: 100_000,
            }),
            r.rate_limiter.buckets@ == Map::<Seq<char>, crate::rate_limiter::RateLimitBucket>::empty(),
            r.advanced_router.metrics@ == Map::<Seq<char>, crate::routing::ProviderMetrics>::empty(),
    {
        let cache = if config.cache.enabled {
            Some(
                RedisCache::new(
                    crate::cache::CacheConfig {
                        redis_url: config.cache.redis_url.clone(),
                        default_ttl_seconds: config.cache.default_ttl_seconds,
                        response_cache_ttl: config.cache.response_cache_ttl,
                        session_cache_ttl: config.cache.session_cache_ttl,
                        rate_limit_ttl: config.cache.rate_limit_ttl,
                        provider_health_ttl: config.cache.provider_health_ttl,
                        max_cache_size_mb: config.cache.max_cache_size_mb,
                    },
                ),
            )
        } else {
            None
        };
        OmenRouter {
            prefer_local_for: crate::text::copy_texts(&config.routing.prefer_local_for),
            advanced_router: AdvancedRouter::new(),
            billing_manager: BillingManager::new(),
            rate_limiter: AdaptiveRateLimiter::new(),
            cache,
        }
    }

    /// The key under which the answer to a request is cached: none where
    /// the cache is off or the request has no tenant.
    pub open spec fn cache_key(self, request: ChatCompletionRequest, context: RequestContext) -> Option<
        Seq<char>,
    > {
        match (self.cache, context.user_id) {
            (Some(_), Some(u)) => Some(
                response_key(u@, request.model@, request.temperature, request.messages@),
            ),
            _ => None,
        }
    }

    /// Computes [`OmenRouter::cache_key`].
    pub fn key_for(&self, request: &ChatCompletionRequest, context: &RequestContext) -> (k: Option<
        String,
    >)
        ensures
            crate::text::opt_text(k) == self.cache_key(*request, *context),
    {
        match (&self.cache, &context.user_id) {
            (Some(cache), Some(u)) => Some(
                cache.generate_response_cache_key(
                    u.as_str(),
                    &request.messages,
                    request.model.as_str(),
                    request.temperature,
                ),
            ),
            _ => None,
        }
    }

    /// Whether `new` and `r` are what admission makes of `old`: a request
    /// without a tenant passes. A tenant gets a ledger; where the ledger
    /// refuses, the request fails and no bucket is touched; else the
    /// request is checked against the tenant's bucket.
    pub open spec fn admission(
        old: OmenRouter,
        request: ChatCompletionRequest,
        context: RequestContext,
        now: u64,
        new: OmenRouter,
        r: Result<(), OmenError>,
    ) -> bool {
        &&& new.prefer_local_for == old.prefer_local_for
        &&& new.advanced_router == old.advanced_router
        &&& new.cache == old.cache
        &&& match context.user_id {
            None => r is Ok && new.billing_manager == old.billing_manager && new.rate_limiter
                == old.rate_limiter,
            Some(u) => {
                let ledger = old.billing_manager@.ledger_of(u@, secs_of(now));
                let config = limits_of(ledger.tier.name);
                let bucket = bucket_of(old.rate_limiter.buckets@, u@, now);
                &&& new.billing_manager@ == old.billing_manager@.ensured(u@, secs_of(now))
                &&& match denial(ledger, secs_of(now)) {
                    Denial::Rate => r is Err && r->Err_0 is RateLimitExceeded && new.rate_limiter
                        == old.rate_limiter,
                    Denial::Budget => r is Err && r->Err_0 is BudgetExceeded && new.rate_limiter
                        == old.rate_limiter,
                    Denial::Nothing => {
                        &&& new.rate_limiter.buckets@ == old.rate_limiter.buckets@.insert(
                            u@,
                            bucket.checked(config, input_tokens(request), now),
                        )
                        &&& r is Ok <==> bucket.as_of(now, config.window_size).admits(
                            config,
                            input_tokens(request),
                        )
                        &&& r is Err ==> r->Err_0 is RateLimitExceeded
                    },
                }
            },
        }
    }

    /// Admits or refuses a request at `now`, a Unix time in milliseconds.
    pub fn check_admission(&mut self, request: &ChatCompletionRequest, context: &RequestContext, now: u64) -> (r:
        Result<(), OmenError>)
        ensures
            Self::admission(*old(self), *request, *context, now, *final(self), r),
    {
        let user: &String = match &context.user_id {
            Some(u) => u,
            None => {
                return Ok(());
            },
        };
        let secs: i64 = (now / 1000) as i64;
        let ledger = self.billing_manager.get_or_create_user_billing(user.as_str(), secs);
        let mut used = ledger.usage_tracker;
        if used.should_reset_daily(secs) {
            used.reset_daily(secs);
        }
        let rate_reached = (match ledger.tier.requests_per_day {
            Some(l) => used.requests_today >= l,
            None => false,
        }) || (match ledger.tier.tokens_per_day {
            Some(l) => used.tokens_today >= l,
            None => false,
        });
        if rate_reached {
            return Err(OmenError::RateLimitExceeded);
        }
        let budget_reached = match ledger.tier.budget_per_day_usd {
            Some(l) => used.cost_today_usd >= l,
            None => false,
        };
        if budget_reached {
            return Err(OmenError::BudgetExceeded);
        }
        let tokens = Self::estimate_input_tokens(request);
        let ghost mid = self.billing_manager@;
        let r = self.rate_limiter.check_rate_limit(
            &mut self.billing_manager,
            user.as_str(),
            tokens,
            now,
        );
        proof {
            assert(self.billing_manager@.ledgers =~= mid.ledgers);
        }
        r
    }

    /// Whether `new` and `write` are what the completion of a request at a
    /// provider makes of `old`: the router learns from every completion;
    /// for a tenant, the completion is charged to the ledger, and the
    /// answer is to be cached where the cache is on.
    pub open spec fn settlement(
        old: OmenRouter,
        request: ChatCompletionRequest,
        context: RequestContext,
        provider_id: Seq<char>,
        response: ChatCompletionResponse,
        latency_ms: u64,
        now: u64,
        new: OmenRouter,
        write: Option<CacheWrite>,
    ) -> bool {
        let input = input_tokens(request);
        let output = response.usage.completion_tokens;
        let cost = scaled(capped_count(input, output) as u64, price_per_1k(provider_id), 1000);
        &&& new.prefer_local_for == old.prefer_local_for
        &&& new.rate_limiter == old.rate_limiter
        &&& new.cache == old.cache
        &&& AdvancedRouter::learns(
            old.advanced_router,
            provider_id,
            latency_ms,
            true,
            cost,
            capped_count(input, output),
            new.advanced_router,
        )
        &&& match context.user_id {
            None => new.billing_manager == old.billing_manager && write is None,
            Some(u) => {
                &&& new.billing_manager@ == old.billing_manager@.with_record(
                    u@,
                    input,
                    output,
                    cost,
                    secs_of(now),
                )
                &&& match old.cache_key(request, context) {
                    Some(k) => write matches Some(w) && w.key@ == k && w.provider_used@
                        == provider_id && w.cost_usd == cost,
                    None => write is None,
                }
            },
        }
    }

    /// Whether `new` is what the failure of a provider makes of `old`: the
    /// router learns that the provider failed, and how long it took;
    /// nothing is charged.
    pub open spec fn failure_noted(
        old: OmenRouter,
        provider_id: Seq<char>,
        latency_ms: u64,
        new: OmenRouter,
    ) -> bool {
        &&& new.prefer_local_for == old.prefer_local_for
        &&& new.rate_limiter == old.rate_limiter
        &&& new.cache == old.cache
        &&& new.billing_manager == old.billing_manager
        &&& AdvancedRouter::learns(
            old.advanced_router,
            provider_id,
            latency_ms,
            false,
            0,
            0,
            new.advanced_router,
        )
    }

    /// Records the completion of a request at a provider.
    pub fn settle(
        &mut self,
        request: &ChatCompletionRequest,
        context: &RequestContext,
        provider_id: &str,
        response: &ChatCompletionResponse,
        latency_ms: u64,
        now: u64,
    ) -> (write: Option<CacheWrite>)
        ensures
            Self::settlement(
                *old(self),
                *request,
                *context,
                provider_id@,
                *response,
                latency_ms,
                now,
                *final(self),
                write,
            ),
    {
        let secs: i64 = (now / 1000) as i64;
        let input = Self::estimate_input_tokens(request);
        let output = response.usage.completion_tokens;
        let total = crate::amount::add_count(input, output);
        let cost = Self::estimate_provider_cost(provider_id, total);
        self.advanced_router.update_metrics_from_response(provider_id, latency_ms, true, cost, total);
        let user: &String = match &context.user_id {
            Some(u) => u,
            None => {
                return None;
            },
        };
        self.billing_manager.record_usage(user.as_str(), input, output, cost, secs);
        match self.key_for(request, context) {
            Some(key) => Some(
                CacheWrite { key, provider_used: String::from_str(provider_id), cost_usd: cost },
            ),
            None => None,
        }
    }
}


impl OmenRouter {
    /// The providers that may answer a request alone, best first.
    pub open spec fn single_choice(
        self,
        model: Seq<char>,
        context: RequestContext,
        reports: Seq<ProviderReport>,
    ) -> Seq<Seq<char>> {
        if model == "auto"@ {
            local_first(self.prefers_local(context), reports) + up_among(reports, single_order())
        } else {
            serving(reports, model)
        }
    }

    /// Whether admission, run on `old`, gives `new` and leads to `next` and
    /// `action`: the providers are probed where the request passes, and the
    /// request fails with the error of admission where it does not.
    pub open spec fn after_admission(
        old: OmenRouter,
        request: ChatCompletionRequest,
        context: RequestContext,
        now: u64,
        new: OmenRouter,
        next: PipelineState,
        action: PipelineAction,
    ) -> bool {
        match action {
            PipelineAction::Probe => next is AwaitingProbe && Self::admission(
                old,
                request,
                context,
                now,
                new,
                Ok(()),
            ),
            PipelineAction::Fail(e) => next is Finished && Self::admission(
                old,
                request,
                context,
                now,
                new,
                Err(e),
            ),
            _ => false,
        }
    }

    /// Whether `new`, `next` and `action` are what one event makes of a
    /// request in `state`.
    ///
    /// A request that is not well-formed fails at once. A request begins
    /// with a look into the cache, where the cache is on and the request
    /// has a tenant, else with admission. A hit answers
    /// the request with the response of the entry that the cache holds,
    /// and the entry is to be written back with the hit counted; nothing
    /// else is touched. A miss goes to admission. Once the providers are
    /// probed, the first that may answer is called, and where there is
    /// none the request fails. An answer is recorded and returned; a
    /// failure of the provider is recorded too, and fails the request. An
    /// event that does not fit the state fails it too.
    pub open spec fn advances(
        old: OmenRouter,
        state: PipelineState,
        event: PipelineEvent,
        request: ChatCompletionRequest,
        context: RequestContext,
        now: u64,
        new: OmenRouter,
        next: PipelineState,
        action: PipelineAction,
    ) -> bool {
        match (state, event) {
            (PipelineState::Start, PipelineEvent::Begin) => if !request.well_formed() {
                new == old && next is Finished && (action matches PipelineAction::Fail(e)
                    && e is InvalidRequest)
            } else {
                match old.cache_key(request, context) {
                    Some(k) => new == old && (next matches PipelineState::AwaitingCache { key }
                        && key@ == k) && (action matches PipelineAction::LookUp { key } && key@ == k),
                    None => Self::after_admission(old, request, context, now, new, next, action),
                }
            },
            (PipelineState::AwaitingCache { key }, PipelineEvent::CacheReply(Some(hit))) => new
                == old && next is Finished && action == PipelineAction::ReturnHit(
                CacheHit { key, entry: hit.hit() },
            ),
            (
                PipelineState::AwaitingCache { key },
                PipelineEvent::CacheReply(None),
            ) => Self::after_admission(old, request, context, now, new, next, action),
            (PipelineState::AwaitingProbe, PipelineEvent::Probed(reports)) => {
                let choice = old.single_choice(request.model@, context, reports@);
                &&& new == old
                &&& if choice.len() > 0 {
                    (next matches PipelineState::AwaitingProvider { provider_id } && provider_id@
                        == choice[0]) && (action matches PipelineAction::Call { provider_id }
                        && provider_id@ == choice[0])
                } else {
                    next is Finished && (action matches PipelineAction::Fail(e) && if request.model@
                        == "auto"@ {
                        e is ProviderUnavailable
                    } else {
                        e is ModelNotFound
                    })
                }
            },
            (
                PipelineState::AwaitingProvider { provider_id },
                PipelineEvent::Answered { result: Ok(answer), latency_ms },
            ) => next is Finished && (action matches PipelineAction::Return { response, store }
                && response == answer && Self::settlement(
                old,
                request,
                context,
                provider_id@,
                answer,
                latency_ms,
                now,
                new,
                store,
            )),
            (
                PipelineState::AwaitingProvider { provider_id },
                PipelineEvent::Answered { result: Err(e), latency_ms },
            ) => next is Finished && action == PipelineAction::Fail(e) && Self::failure_noted(
                old,
                provider_id@,
                latency_ms,
                new,
            ),
            _ => new == old && next is Finished && (action matches PipelineAction::Fail(e)
                && e is Internal),
        }
    }

    fn run_admission(&mut self, request: &ChatCompletionRequest, context: &RequestContext, now: u64) -> (r:
        (PipelineState, PipelineAction))
        ensures
            Self::after_admission(*old(self), *request, *context, now, *final(self), r.0, r.1),
    {
        match self.check_admission(request, context, now) {
            Ok(_) => (PipelineState::AwaitingProbe, PipelineAction::Probe),
            Err(e) => (PipelineState::Finished, PipelineAction::Fail(e)),
        }
    }

    /// Takes a request one step through the pipeline: see [`OmenRouter::advances`].
    /// `now` is a Unix time in milliseconds.
    pub fn chat_completion(
        &mut self,
        state: PipelineState,
        event: PipelineEvent,
        request: &ChatCompletionRequest,
        context: &RequestContext,
        now: u64,
    ) -> (r: (PipelineState, PipelineAction))
        ensures
            Self::advances(*old(self), state, event, *request, *context, now, *final(self), r.0, r.1),
    {
        match (state, event) {
            (PipelineState::Start, PipelineEvent::Begin) => {
                if let Err(e) = request.validate() {
                    return (PipelineState::Finished, PipelineAction::Fail(e));
                }
                match self.key_for(request, context) {
                    Some(key) => {
                        let copy = key.clone();
                        (PipelineState::AwaitingCache { key }, PipelineAction::LookUp { key: copy })
                    },
                    None => self.run_admission(request, context, now),
                }
            },
            (PipelineState::AwaitingCache { key }, PipelineEvent::CacheReply(Some(hit))) => (
                PipelineState::Finished,
                PipelineAction::ReturnHit(CacheHit { key, entry: RedisCache::count_hit(hit) }),
            ),
            (PipelineState::AwaitingCache { key }, PipelineEvent::CacheReply(None)) => {
                self.run_admission(request, context, now)
            },
            (PipelineState::AwaitingProbe, PipelineEvent::Probed(reports)) => {
                match self.select_provider(request.model.as_str(), context, &reports) {
                    Ok(id) => {
                        let copy = id.clone();
                        (
                            PipelineState::AwaitingProvider { provider_id: id },
                            PipelineAction::Call { provider_id: copy },
                        )
                    },
                    Err(e) => (PipelineState::Finished, PipelineAction::Fail(e)),
                }
            },
            (
                PipelineState::AwaitingProvider { provider_id },
                PipelineEvent::Answered { result: Ok(answer), latency_ms },
            ) => {
                let store = self.settle(
                    request,
                    context,
                    provider_id.as_str(),
                    &answer,
                    latency_ms,
                    now,
                );
                (
                    PipelineState::Finished,
                    PipelineAction::Return { response: answer, store },
                )
            },
            (
                PipelineState::AwaitingProvider { provider_id },
                PipelineEvent::Answered { result: Err(e), latency_ms },
            ) => {
                self.advanced_router.update_metrics_from_response(
                    provider_id.as_str(),
                    latency_ms,
                    false,
                    0,
                    0,
                );
                (PipelineState::Finished, PipelineAction::Fail(e))
            },
            _ => (
                PipelineState::Finished,
                PipelineAction::Fail(OmenError::Internal(String::from_str("unexpected event"))),
            ),
        }
    }

    /// The directive of a request that carries none: nothing is named, so
    /// every default applies.
    pub open spec fn no_directive() -> OmenConfig {
        OmenConfig {
            strategy: None,
            k: None,
            providers: None,
            budget_usd: None,
            max_latency_ms: None,
            stickiness: None,
            priority_weights: None,
            min_useful_tokens: None,
        }
    }

    /// The directive that a request is routed under.
    pub open spec fn directive_of(request: ChatCompletionRequest) -> OmenConfig {
        match request.omen {
            Some(o) => o,
            None => Self::no_directive(),
        }
    }

    /// Computes [`OmenRouter::no_directive`].
    pub fn bare_directive() -> (c: OmenConfig)
        ensures
            c == Self::no_directive(),
    {
        OmenConfig {
            strategy: None,
            k: None,
            providers: None,
            budget_usd: None,
            max_latency_ms: None,
            stickiness: None,
            priority_weights: None,
            min_useful_tokens: None,
        }
    }

    /// Whether `plan` is the plan of the stream of a request: the decision
    /// is that of the adaptive router for the request's candidates, the
    /// multiplexer has the selected providers and the ceilings of the
    /// directive, and the launch is what the multiplexer plans for the
    /// directive's strategy.
    pub open spec fn streams(
        self,
        request: ChatCompletionRequest,
        context: RequestContext,
        reports: Seq<ProviderReport>,
        plan: StreamPlan,
    ) -> bool {
        let directive = Self::directive_of(request);
        let candidates = self.candidates(request, context, directive, reports);
        &&& candidates.len() > 0
        &&& self.advanced_router.decides(
            candidates,
            request,
            context,
            Self::fan_out(directive),
            plan.decision,
        )
        &&& plan.multiplexer.providers@ == plan.decision.selected_providers@
        &&& plan.multiplexer.budget_cap == match directive.budget_usd {
            Some(b) => b,
            None => crate::multiplexer::DEFAULT_BUDGET_MICRO_USD,
        }
        &&& plan.multiplexer.max_latency == match directive.max_latency_ms {
            Some(l) => l as u64,
            None => crate::multiplexer::DEFAULT_MAX_LATENCY_MS,
        }
        &&& plan.multiplexer.min_useful_tokens == match directive.min_useful_tokens {
            Some(n) => n as usize,
            None => crate::multiplexer::DEFAULT_MIN_USEFUL_TOKENS,
        }
        &&& plan.multiplexer.plans(crate::multiplexer::strategy_of(directive), Ok(plan.launch))
    }

    /// Whether a strategy has something to drive where a user's budget
    /// forces the one candidate `id`: a race needs a fan-out above zero; a
    /// speculative run drives a local candidate whatever the fan-out.
    pub open spec fn drives_forced(strategy: MultiplexStrategy, id: Seq<char>) -> bool {
        match strategy {
            MultiplexStrategy::Single => true,
            MultiplexStrategy::Race { k } => k > 0,
            MultiplexStrategy::ParallelMerge { k } => k > 0,
            MultiplexStrategy::SpeculateK { k, delay_ms } => crate::multiplexer::is_local_id(id)
                || k > 0,
        }
    }

    /// How the planning of the stream of a request ends. A request that is
    /// not well-formed is invalid. Without a candidate there is nothing to
    /// select. A user's budget may block the request. Else the ranking
    /// selects as many candidates as the fan-out asks for, or the budget
    /// forces one; the stream is planned unless nothing is left to drive,
    /// which is so for a fan-out of zero.
    pub open spec fn stream_verdict(
        self,
        request: ChatCompletionRequest,
        context: RequestContext,
        reports: Seq<ProviderReport>,
    ) -> StreamVerdict {
        let directive = Self::directive_of(request);
        let candidates = self.candidates(request, context, directive, reports);
        if !request.well_formed() {
            StreamVerdict::Invalid
        } else if candidates.len() == 0 {
            StreamVerdict::NoCandidate
        } else {
            match crate::routing::budget_verdict(
                self.advanced_router.remaining_for(context),
                self.advanced_router.candidate_scores(
                    candidates,
                    crate::routing::intent_text(context),
                ),
                self.advanced_router.candidate_costs(candidates, request),
            ) {
                crate::routing::Verdict::Blocked => StreamVerdict::OverBudget,
                crate::routing::Verdict::Open => if Self::fan_out(directive) > 0 {
                    StreamVerdict::Planned
                } else {
                    StreamVerdict::NothingToDrive
                },
                crate::routing::Verdict::Within(_) => if Self::fan_out(directive) > 0 {
                    StreamVerdict::Planned
                } else {
                    StreamVerdict::NothingToDrive
                },
                crate::routing::Verdict::Forced(c) => if Self::drives_forced(
                    crate::multiplexer::strategy_of(directive),
                    candidates[c as int],
                ) {
                    StreamVerdict::Planned
                } else {
                    StreamVerdict::NothingToDrive
                },
            }
        }
    }

    /// Plans the stream of a request: the candidates are selected under
    /// the request's directive and handed to a multiplexer with the
    /// strategy that the directive names, a race of two where it names
    /// none. The plan is owed exactly where [`OmenRouter::stream_verdict`]
    /// says so; each other verdict has its error.
    pub fn stream_chat_completion(
        &self,
        request: &ChatCompletionRequest,
        context: &RequestContext,
        reports: &Vec<ProviderReport>,
    ) -> (r: Result<StreamPlan, OmenError>)
        ensures
            match self.stream_verdict(*request, *context, reports@) {
                StreamVerdict::Planned => r is Ok && self.streams(
                    *request,
                    *context,
                    reports@,
                    r->Ok_0,
                ),
                StreamVerdict::Invalid => r is Err && r->Err_0 is InvalidRequest,
                StreamVerdict::NoCandidate => r matches Err(OmenError::ProviderUnavailable(m))
                    && m@ == "No suitable providers found"@,
                StreamVerdict::OverBudget => r is Err && r->Err_0 is BudgetExceeded,
                StreamVerdict::NothingToDrive => r matches Err(OmenError::ProviderUnavailable(m))
                    && m@ == "No providers available"@,
            },
    {
        if let Err(e) = request.validate() {
            return Err(e);
        }
        let bare = Self::bare_directive();
        let directive: &OmenConfig = match &request.omen {
            Some(o) => o,
            None => &bare,
        };
        let strategy = MultiplexStrategy::from_config(directive);
        let decision = match self.select_candidates(request, context, directive, reports) {
            Ok(d) => d,
            Err(e) => {
                return Err(e);
            },
        };
        let multiplexer = StreamMultiplexer::new(
            crate::text::copy_texts(&decision.selected_providers),
            directive,
        );
        let ghost candidates = self.candidates(*request, *context, *directive, reports@);
        let ghost picked = texts(multiplexer.providers@);
        proof {
            let scores = self.advanced_router.candidate_scores(
                candidates,
                crate::routing::intent_text(*context),
            );
            let costs = self.advanced_router.candidate_costs(candidates, *request);
            let verdict = crate::routing::budget_verdict(
                self.advanced_router.remaining_for(*context),
                scores,
                costs,
            );
            if verdict is Within {
                crate::routing::lemma_within_holds_best(
                    self.advanced_router.remaining_for(*context),
                    scores,
                    costs,
                );
            }
            assert(picked.len() == decision.selected_indices@.len());
            assert(multiplexer.providers@.len() == picked.len());
            if picked.len() > 0 {
                assert(picked[0] == multiplexer.providers@[0]@);
            }
            if crate::multiplexer::has_local(multiplexer.providers@) {
                let i = choose|i: int|
                    0 <= i < multiplexer.providers@.len() && crate::multiplexer::is_local_id(
                        #[trigger] multiplexer.providers@[i]@,
                    );
                assert(picked[i] == multiplexer.providers@[i]@);
            }
        }
        match multiplexer.multiplex_stream(strategy) {
            Ok(launch) => Ok(StreamPlan { decision, multiplexer, launch }),
            Err(e) => Err(e),
        }
    }

    /// The intent of a request: see [`crate::auth::request_intent`].
    pub fn classify_intent(request: &ChatCompletionRequest) -> (intent: Option<String>)
        ensures
            intent matches Some(i) && i@ == crate::auth::request_intent(*request),
    {
        crate::auth::classify_request_intent(request)
    }
}


impl OmenRouter {
    /// The ids of the providers that a probe reported on, in order.
    pub fn list_providers(reports: &Vec<ProviderReport>) -> (ids: Vec<String>)
        ensures
            ids@.len() == reports@.len(),
            forall|i: int| 0 <= i < ids@.len() ==> (#[trigger] ids@[i])@ == reports@[i].id@,
    {
        let mut ids: Vec<String> = Vec::new();
        let mut i: usize = 0;
        while i < reports.len()
            invariant
                i <= reports@.len(),
                ids@.len() == i,
                forall|j: int| 0 <= j < i ==> (#[trigger] ids@[j])@ == reports@[j].id@,
            decreases reports@.len() - i,
        {
            ids.push(reports[i].id.clone());
            i += 1;
        }
        ids
    }

    /// Learns from a completion: see [`AdvancedRouter::update_metrics_from_response`].
    pub fn update_provider_metrics(
        &mut self,
        provider_id: &str,
        latency_ms: u64,
        success: bool,
        cost_usd: u64,
        tokens_used: u32,
    )
        ensures
            AdvancedRouter::learns(
                old(self).advanced_router,
                provider_id@,
                latency_ms,
                success,
                cost_usd,
                tokens_used,
                final(self).advanced_router,
            ),
            final(self).billing_manager == old(self).billing_manager,
            final(self).rate_limiter == old(self).rate_limiter,
            final(self).cache == old(self).cache,
            final(self).prefer_local_for == old(self).prefer_local_for,
    {
        self.advanced_router.update_metrics_from_response(
            provider_id,
            latency_ms,
            success,
            cost_usd,
            tokens_used,
        );
    }

    /// Sets what a user has left to spend, in micro-dollars.
    pub fn set_user_budget(&mut self, user_id: &str, budget_usd: i64)
        ensures
            final(self).advanced_router.cost_budgets@ == old(self).advanced_router.cost_budgets@.insert(
                user_id@,
                budget_usd,
            ),
            final(self).advanced_router.metrics == old(self).advanced_router.metrics,
            final(self).advanced_router.strategy == old(self).advanced_router.strategy,
            final(self).billing_manager == old(self).billing_manager,
            final(self).rate_limiter == old(self).rate_limiter,
            final(self).cache == old(self).cache,
            final(self).prefer_local_for == old(self).prefer_local_for,
    {
        self.advanced_router.set_user_budget(user_id, budget_usd);
    }

    /// Moves a tenant to a tier: see [`BillingManager::update_user_tier`].
    /// `now` is a Unix time in seconds.
    pub fn update_user_tier(&mut self, user_id: &str, tier_name: &str, now: i64) -> (r: Result<
        (),
        OmenError,
    >)
        ensures
            match crate::billing::tier_named(tier_name@) {
                Some(tier) => r is Ok && final(self).billing_manager@ == old(
                    self,
                ).billing_manager@.with_tier(user_id@, tier, now),
                None => r is Err && r->Err_0 is InvalidRequest && final(self).billing_manager == old(
                    self,
                ).billing_manager,
            },
            final(self).advanced_router == old(self).advanced_router,
            final(self).rate_limiter == old(self).rate_limiter,
            final(self).cache == old(self).cache,
            final(self).prefer_local_for == old(self).prefer_local_for,
    {
        self.billing_manager.update_user_tier(user_id, tier_name, now)
    }

    /// Drops the buckets that have been idle for two windows at `now`, a
    /// Unix time in milliseconds.
    pub fn cleanup_rate_limit_buckets(&mut self, now: u64)
        ensures
            final(self).rate_limiter.buckets@ == old(self).rate_limiter.buckets@.remove_keys(
                crate::rate_limiter::idle_keys(old(self).rate_limiter.buckets@, now),
            ),
            final(self).advanced_router == old(self).advanced_router,
            final(self).billing_manager == old(self).billing_manager,
            final(self).cache == old(self).cache,
            final(self).prefer_local_for == old(self).prefer_local_for,
    {
        self.rate_limiter.cleanup_expired_buckets(now);
    }

    /// What a tenant has left in the current window at `now`, a Unix time
    /// in milliseconds.
    pub fn get_rate_limit_status(&mut self, user_id: &str, now: u64) -> (s:
        crate::rate_limiter::RateLimitStatus)
        ensures
            final(self).billing_manager@ == old(self).billing_manager@.ensured(user_id@, secs_of(now)),
            crate::rate_limiter::reports(
                s,
                old(self).rate_limiter.buckets@,
                user_id@,
                old(self).billing_manager@.ledger_of(user_id@, secs_of(now)).tier.name,
                now,
            ),
            final(self).rate_limiter == old(self).rate_limiter,
            final(self).advanced_router == old(self).advanced_router,
            final(self).cache == old(self).cache,
            final(self).prefer_local_for == old(self).prefer_local_for,
    {
        self.rate_limiter.get_rate_limit_status(&mut self.billing_manager, user_id, now)
    }

    /// The three tiers: `free`, `pro`, `enterprise`.
    pub fn get_available_billing_tiers() -> (tiers: Vec<crate::billing::BillingTier>)
        ensures
            tiers@.len() == 3,
            tiers@[0]@ == crate::billing::free_tier(),
            tiers@[1]@ == crate::billing::pro_tier(),
            tiers@[2]@ == crate::billing::enterprise_tier(),
    {
        BillingManager::list_available_tiers()
    }

    /// One line for each tenant's ledger as it stands at `now`, a Unix time
    /// in seconds.
    pub fn get_billing_summary(&self, now: i64) -> (lines: Vec<crate::billing::UserBillingSummary>)
        ensures
            lines@.len() == self.billing_manager.user_billing.listing().len(),
            forall|i: int|
                0 <= i < lines@.len() ==> BillingManager::summarises(
                    #[trigger] lines@[i],
                    self.billing_manager.user_billing.listing()[i].1@,
                    now,
                ),
    {
        self.billing_manager.get_all_users_summary(now)
    }

    /// An orchestrator for calls between services, with no session and no
    /// bucket yet.
    pub fn create_ghost_orchestrator() -> (o: crate::ghost_ai::GhostOrchestrator)
        ensures
            o.active_sessions@ == Map::<Seq<char>, crate::ghost_ai::GhostSession>::empty(),
            o.rate_limiter.adaptive_limiter.buckets@ == Map::<
                Seq<char>,
                crate::rate_limiter::RateLimitBucket,
            >::empty(),
    {
        crate::ghost_ai::GhostOrchestrator::new()
    }
}


impl OmenRouter {
    /// What a tenant has used: see [`BillingManager::get_user_usage_stats`].
    /// `now` is a Unix time in seconds.
    pub fn get_user_usage_stats(&mut self, user_id: &str, now: i64) -> (s:
        crate::billing::UserUsageStats)
        ensures
            final(self).billing_manager@ == old(self).billing_manager@.ensured(user_id@, now),
            s.user_id@ == user_id@,
            s.tier@ == old(self).billing_manager@.ledger_of(user_id@, now).tier.name,
            s.daily_requests == old(self).billing_manager@.ledger_of(
                user_id@,
                now,
            ).usage_tracker.as_of(now).requests_today,
            s.daily_tokens == old(self).billing_manager@.ledger_of(
                user_id@,
                now,
            ).usage_tracker.as_of(now).tokens_today,
            s.daily_cost_usd == old(self).billing_manager@.ledger_of(
                user_id@,
                now,
            ).usage_tracker.as_of(now).cost_today_usd,
            s.monthly_tokens == crate::billing::month_tokens(
                old(self).billing_manager@.history_of(user_id@),
                now,
            ),
            s.monthly_cost_usd == crate::billing::month_cost(
                old(self).billing_manager@.history_of(user_id@),
                now,
            ),
            s.total_cost_usd == old(self).billing_manager@.ledger_of(user_id@, now).total_spend_usd,
            s.can_make_request == old(self).billing_manager@.ledger_of(user_id@, now).allows(now),
            final(self).advanced_router == old(self).advanced_router,
            final(self).rate_limiter == old(self).rate_limiter,
            final(self).cache == old(self).cache,
            final(self).prefer_local_for == old(self).prefer_local_for,
    {
        self.billing_manager.get_user_usage_stats(user_id, now)
    }

    /// Takes a request of a service in: see
    /// [`crate::ghost_ai::GhostOrchestrator::process_ghost_request`].
    pub fn process_ghost_request(
        &mut self,
        orchestrator: &mut crate::ghost_ai::GhostOrchestrator,
        request: crate::ghost_ai::GhostRequest,
        request_id: u128,
        now: u64,
    ) -> (r: Result<(crate::ghost_ai::GhostRequest, RequestContext), OmenError>)
        ensures
            final(self).billing_manager@ == old(self).billing_manager@.ensured(
                request.context.user_id@,
                secs_of(now),
            ),
            crate::ghost_ai::GhostOrchestrator::session_noted(
                old(orchestrator).active_sessions@,
                request.context,
                secs_of(now),
                final(orchestrator).active_sessions@,
            ),
            ({
                let tier = old(self).billing_manager@.ledger_of(
                    request.context.user_id@,
                    secs_of(now),
                ).tier.name;
                let config = crate::rate_limiter::raised(
                    limits_of(tier),
                    crate::rate_limiter::multiplier_tenths(request.context.service.rank()),
                );
                let bucket = bucket_of(
                    old(orchestrator).rate_limiter.adaptive_limiter.buckets@,
                    request.context.user_id@,
                    now,
                );
                let passes = bucket.as_of(now, config.window_size).admits(
                    config,
                    input_tokens(request.chat_request),
                );
                &&& final(orchestrator).rate_limiter.adaptive_limiter.buckets@ == old(
                    orchestrator,
                ).rate_limiter.adaptive_limiter.buckets@.insert(
                    request.context.user_id@,
                    bucket.checked(config, input_tokens(request.chat_request), now),
                )
                &&& match r {
                    Ok((enhanced, context)) => passes
                        && crate::ghost_ai::GhostOrchestrator::enhanced(request, enhanced)
                        && context.request_id == request_id && (context.user_id matches Some(u)
                        && u@ == request.context.user_id@) && context.api_key is None && (
                    context.intent matches Some(i) && i@ == "ghost_ai"@) && crate::text::tags_view(
                        context.tags@,
                    ) == crate::ghost_ai::GhostOrchestrator::service_tags(request.context),
                    Err(e) => !passes && e is RateLimitExceeded,
                }
            }),
            final(self).advanced_router == old(self).advanced_router,
            final(self).rate_limiter == old(self).rate_limiter,
            final(self).cache == old(self).cache,
            final(self).prefer_local_for == old(self).prefer_local_for,
    {
        orchestrator.process_ghost_request(&mut self.billing_manager, request, request_id, now)
    }

    /// What a stream of a request is estimated to have cost at the provider
    /// that it ended on: the estimated tokens of the request and one token
    /// for each chunk that was forwarded, at the provider's price.
    pub open spec fn stream_cost(
        request: ChatCompletionRequest,
        provider_id: Seq<char>,
        forwarded: u32,
    ) -> u64 {
        scaled(capped_count(input_tokens(request), forwarded) as u64, price_per_1k(provider_id), 1000)
    }

    /// The work that the end of a stream reports to the router: that of
    /// the drivers that the stream did not end on, then that of the
    /// provider that it ended on.
    pub open spec fn stream_work(request: ChatCompletionRequest, end: StreamEnd) -> Seq<WorkView> {
        match end.provider {
            Some(p) => work_views(end.others@).push(
                WorkView {
                    provider_id: p@,
                    latency_ms: end.latency_ms,
                    success: end.success,
                    cost_usd: Self::stream_cost(request, p@, end.forwarded),
                    tokens: capped_count(input_tokens(request), end.forwarded),
                },
            ),
            None => work_views(end.others@),
        }
    }

    /// What is kept of a stream that ended.
    pub open spec fn summary_of(request: ChatCompletionRequest, end: StreamEnd, summary: StreamSummary) -> bool {
        &&& summary.provider == end.provider
        &&& summary.upgraded == end.upgraded
        &&& summary.forwarded == end.forwarded
        &&& summary.cost_usd == match end.provider {
            Some(p) => Self::stream_cost(request, p@, end.forwarded),
            None => 0,
        }
    }

    /// Whether `new` is what the end of a stream makes of `old`. The
    /// router learns from the work of every driver: first of those that
    /// the stream did not end on, then of the provider that it ended on.
    /// Only a tenant whose stream ended on a provider is charged: the
    /// chunks that were forwarded go to the ledger as output tokens. A
    /// stream that was committed to no provider charges nothing, and the
    /// work of the other drivers is never charged.
    pub open spec fn stream_settlement(
        old: OmenRouter,
        request: ChatCompletionRequest,
        context: RequestContext,
        end: StreamEnd,
        now: u64,
        new: OmenRouter,
    ) -> bool {
        &&& new.prefer_local_for == old.prefer_local_for
        &&& new.rate_limiter == old.rate_limiter
        &&& new.cache == old.cache
        &&& AdvancedRouter::learns_from_work(
            old.advanced_router,
            Self::stream_work(request, end),
            new.advanced_router,
        )
        &&& match (end.provider, context.user_id) {
            (Some(p), Some(u)) => new.billing_manager@ == old.billing_manager@.with_record(
                u@,
                input_tokens(request),
                end.forwarded,
                Self::stream_cost(request, p@, end.forwarded),
                secs_of(now),
            ),
            _ => new.billing_manager == old.billing_manager,
        }
    }

    /// Records the end of a stream, and gives what is kept of it: see
    /// [`OmenRouter::stream_settlement`].
    pub fn settle_stream(
        &mut self,
        request: &ChatCompletionRequest,
        context: &RequestContext,
        end: &StreamEnd,
        now: u64,
    ) -> (summary: StreamSummary)
        ensures
            Self::stream_settlement(*old(self), *request, *context, *end, now, *final(self)),
            Self::summary_of(*request, *end, summary),
    {
        let ghost before = self.advanced_router;
        self.advanced_router.record_work(&end.others);
        let provider: &String = match &end.provider {
            Some(p) => p,
            None => {
                return StreamSummary {
                    provider: None,
                    upgraded: end.upgraded,
                    forwarded: end.forwarded,
                    cost_usd: 0,
                };
            },
        };
        let ghost mid = self.advanced_router;
        let secs: i64 = (now / 1000) as i64;
        let input = Self::estimate_input_tokens(request);
        let total = crate::amount::add_count(input, end.forwarded);
        let cost = Self::estimate_provider_cost(provider.as_str(), total);
        self.advanced_router.update_metrics_from_response(
            provider.as_str(),
            end.latency_ms,
            end.success,
            cost,
            total,
        );
        proof {
            crate::routing::lemma_learns_one_more(
                before,
                mid,
                self.advanced_router,
                work_views(end.others@),
                WorkView {
                    provider_id: provider@,
                    latency_ms: end.latency_ms,
                    success: end.success,
                    cost_usd: cost,
                    tokens: total,
                },
            );
        }
        if let Some(user) = &context.user_id {
            self.billing_manager.record_usage(user.as_str(), input, end.forwarded, cost, secs);
        }
        StreamSummary {
            provider: Some(provider.clone()),
            upgraded: end.upgraded,
            forwarded: end.forwarded,
            cost_usd: cost,
        }
    }

    /// Whether `new`, `next` and `action` are what one event makes of a
    /// streamed request in `state`.
    ///
    /// A request that is not well-formed fails at once; else it goes to
    /// admission, and the providers are probed where it passes. Once they
    /// are probed the stream is planned, and launched where a plan is
    /// owed. When the stream has ended it is settled: a stream that was
    /// committed to no provider, as one that timed out while searching,
    /// charges nothing. What is kept of the stream goes out with the last
    /// action. An event that does not fit the state fails the request.
    pub open spec fn stream_advances(
        old: OmenRouter,
        state: StreamState,
        event: StreamInput,
        request: ChatCompletionRequest,
        context: RequestContext,
        now: u64,
        new: OmenRouter,
        next: StreamState,
        action: StreamAction,
    ) -> bool {
        match (state, event) {
            (StreamState::Start, StreamInput::Begin) => if !request.well_formed() {
                new == old && next is Finished && (action matches StreamAction::Fail(e)
                    && e is InvalidRequest)
            } else {
                match action {
                    StreamAction::Probe => next is AwaitingProbe && Self::admission(
                        old,
                        request,
                        context,
                        now,
                        new,
                        Ok(()),
                    ),
                    StreamAction::Fail(e) => next is Finished && Self::admission(
                        old,
                        request,
                        context,
                        now,
                        new,
                        Err(e),
                    ),
                    _ => false,
                }
            },
            (StreamState::AwaitingProbe, StreamInput::Probed(reports)) => new == old
                && match old.stream_verdict(request, context, reports@) {
                StreamVerdict::Planned => next is Streaming && (action matches StreamAction::Launch(
                    plan,
                ) && old.streams(request, context, reports@, plan)),
                StreamVerdict::Invalid => next is Finished && (action matches StreamAction::Fail(e)
                    && e is InvalidRequest),
                StreamVerdict::NoCandidate => next is Finished && (action matches StreamAction::Fail(
                    OmenError::ProviderUnavailable(m),
                ) && m@ == "No suitable providers found"@),
                StreamVerdict::OverBudget => next is Finished && (action matches StreamAction::Fail(
                    e,
                ) && e is BudgetExceeded),
                StreamVerdict::NothingToDrive => next is Finished && (
                action matches StreamAction::Fail(OmenError::ProviderUnavailable(m)) && m@
                    == "No providers available"@),
            },
            (StreamState::Streaming, StreamInput::Ended(end)) => next is Finished && (
            action matches StreamAction::Close(summary) && Self::summary_of(request, end, summary))
                && Self::stream_settlement(old, request, context, end, now, new),
            _ => new == old && next is Finished && (action matches StreamAction::Fail(e)
                && e is Internal),
        }
    }

    /// Takes a streamed request one step on: see
    /// [`OmenRouter::stream_advances`]. `now` is a Unix time in milliseconds.
    pub fn stream_pipeline(
        &mut self,
        state: StreamState,
        event: StreamInput,
        request: &ChatCompletionRequest,
        context: &RequestContext,
        now: u64,
    ) -> (r: (StreamState, StreamAction))
        ensures
            Self::stream_advances(
                *old(self),
                state,
                event,
                *request,
                *context,
                now,
                *final(self),
                r.0,
                r.1,
            ),
    {
        match (state, event) {
            (StreamState::Start, StreamInput::Begin) => {
                if let Err(e) = request.validate() {
                    return (StreamState::Finished, StreamAction::Fail(e));
                }
                match self.check_admission(request, context, now) {
                    Ok(_) => (StreamState::AwaitingProbe, StreamAction::Probe),
                    Err(e) => (StreamState::Finished, StreamAction::Fail(e)),
                }
            },
            (StreamState::AwaitingProbe, StreamInput::Probed(reports)) => {
                match self.stream_chat_completion(request, context, &reports) {
                    Ok(plan) => (StreamState::Streaming, StreamAction::Launch(plan)),
                    Err(e) => (StreamState::Finished, StreamAction::Fail(e)),
                }
            },
            (StreamState::Streaming, StreamInput::Ended(end)) => {
                let summary = self.settle_stream(request, context, &end, now);
                (StreamState::Finished, StreamAction::Close(summary))
            },
            _ => (
                StreamState::Finished,
                StreamAction::Fail(OmenError::Internal(String::from_str("unexpected event"))),
            ),
        }
    }
}

/// A streamed request that passes admission and ends without a commitment,
/// as one whose drivers put out nothing useful before the deadline, leaves
/// the tenant's ledger and history as they were: no request, token or cost
/// is charged, whatever the drivers did. Admission gives a tenant that had
/// no ledger the blank one that it counted as having.
pub proof fn lemma_uncommitted_stream_charges_nothing(
    old: OmenRouter,
    admitted: OmenRouter,
    new: OmenRouter,
    request: ChatCompletionRequest,
    context: RequestContext,
    begun: u64,
    ended: u64,
    end: StreamEnd,
)
    requires
        context.user_id is Some,
        end.provider is None,
        OmenRouter::admission(old, request, context, begun, admitted, Ok(())),
        OmenRouter::stream_settlement(admitted, request, context, end, ended, new),
    ensures
        new.billing_manager@.ledger_of(context.user_id->Some_0@, secs_of(begun))
            == old.billing_manager@.ledger_of(context.user_id->Some_0@, secs_of(begun)),
        new.billing_manager@.history_of(context.user_id->Some_0@) == old.billing_manager@.history_of(
            context.user_id->Some_0@,
        ),
        end.others@.len() == 0 ==> new.advanced_router == old.advanced_router,
{
}

/// The same of a whole streamed request, step by step: where it is
/// admitted, planned and launched, and the stream then ends on no provider,
/// the tenant's ledger and history are what they were before the request.
pub proof fn lemma_timed_out_stream_leaves_ledger(
    r0: OmenRouter,
    r1: OmenRouter,
    r2: OmenRouter,
    r3: OmenRouter,
    request: ChatCompletionRequest,
    context: RequestContext,
    reports: Vec<ProviderReport>,
    end: StreamEnd,
    now: u64,
    s1: StreamState,
    s2: StreamState,
    s3: StreamState,
    a1: StreamAction,
    a2: StreamAction,
    a3: StreamAction,
)
    requires
        context.user_id is Some,
        end.provider is None,
        OmenRouter::stream_advances(
            r0,
            StreamState::Start,
            StreamInput::Begin,
            request,
            context,
            now,
            r1,
            s1,
            a1,
        ),
        a1 is Probe,
        OmenRouter::stream_advances(
            r1,
            s1,
            StreamInput::Probed(reports),
            request,
            context,
            now,
            r2,
            s2,
            a2,
        ),
        a2 is Launch,
        OmenRouter::stream_advances(r2, s2, StreamInput::Ended(end), request, context, now, r3, s3, a3),
    ensures
        s3 is Finished,
        a3 matches StreamAction::Close(summary) && summary.provider is None && summary.cost_usd == 0,
        r3.billing_manager@.ledger_of(context.user_id->Some_0@, secs_of(now))
            == r0.billing_manager@.ledger_of(context.user_id->Some_0@, secs_of(now)),
        r3.billing_manager@.history_of(context.user_id->Some_0@) == r0.billing_manager@.history_of(
            context.user_id->Some_0@,
        ),
{
    lemma_uncommitted_stream_charges_nothing(r0, r1, r3, request, context, now, now, end);
}

/// A race whose drivers put out whitespace alone until the deadline, within
/// the budget, ends on no provider with the one failure `Timeout`; where
/// the end of the stream names the provider that the race ended on, the
/// tenant is charged nothing for it.
pub proof fn lemma_blank_race_charges_nothing(
    old: OmenRouter,
    admitted: OmenRouter,
    new: OmenRouter,
    request: ChatCompletionRequest,
    context: RequestContext,
    begun: u64,
    ended: u64,
    multiplexer: StreamMultiplexer,
    inputs: Seq<crate::coordinator::CoordinatorInput>,
    end: StreamEnd,
)
    requires
        context.user_id is Some,
        OmenRouter::admission(old, request, context, begun, admitted, Ok(())),
        inputs.len() > 0,
        inputs.last() is Deadline,
        forall|j: int|
            0 <= j < inputs.len() - 1 ==> crate::coordinator::blank_chunk(#[trigger] inputs[j]),
        !multiplexer.race().run(inputs.drop_last()).stopped,
        !multiplexer.race().run(inputs.drop_last()).passes_budget(inputs.last()),
        end.provider == multiplexer.race().run(inputs).winner,
        OmenRouter::stream_settlement(admitted, request, context, end, ended, new),
    ensures
        multiplexer.race().emitted(inputs) == seq![
            Err::<String, OmenError>(OmenError::Timeout),
        ],
        new.billing_manager@.ledger_of(context.user_id->Some_0@, secs_of(begun))
            == old.billing_manager@.ledger_of(context.user_id->Some_0@, secs_of(begun)),
        new.billing_manager@.history_of(context.user_id->Some_0@) == old.billing_manager@.history_of(
            context.user_id->Some_0@,
        ),
{
    crate::coordinator::lemma_race_blank_until_deadline(multiplexer.race(), inputs);
    lemma_uncommitted_stream_charges_nothing(old, admitted, new, request, context, begun, ended, end);
}

/// A hit of the cache answers with the response that the entry holds and
/// hands the entry back with its count of hits one higher and all else as
/// it was; the gateway is left untouched. So the first hit of an entry
/// that was written without a hit leaves it with one.
pub proof fn lemma_hit_counts_one_more(
    old: OmenRouter,
    new: OmenRouter,
    key: String,
    entry: CachedResponse,
    request: ChatCompletionRequest,
    context: RequestContext,
    now: u64,
    next: PipelineState,
    action: PipelineAction,
)
    requires
        entry.cache_hit_count < u32::MAX,
        OmenRouter::advances(
            old,
            PipelineState::AwaitingCache { key },
            PipelineEvent::CacheReply(Some(entry)),
            request,
            context,
            now,
            new,
            next,
            action,
        ),
    ensures
        new == old,
        next is Finished,
        action matches PipelineAction::ReturnHit(hit) && hit.key == key && hit.entry.response
            == entry.response && hit.entry.provider_used == entry.provider_used && hit.entry.cost_usd
            == entry.cost_usd && hit.entry.cached_at == entry.cached_at && hit.entry.cache_hit_count
            == entry.cache_hit_count + 1,
{
}

} // verus!
