//! Calls between the services of one deployment: each service has a
//! priority, defaults for routing, and sessions that are kept while they
//! are in use. Times are Unix times in seconds unless said otherwise.

use vstd::prelude::*;
use crate::amount::{add_count, capped_count, scale, scaled};
use crate::billing::BillingManager;
use crate::cache::{uuid_string, uuid_text};
use crate::error::OmenError;
use crate::rate_limiter::{
    bucket_of, limits_of, multiplier_tenths, priority_of, raised, secs_of, GhostAIRateLimiter,
};
use crate::router::{input_tokens, OmenRouter};
use crate::store::{key_texts, TextMap};
use crate::text::{decimal, decimal_string, put_pair, str_eq, tags_view, with_pair};
use crate::types::{
    ChatCompletionRequest, ChatCompletionResponse, ChatMessage, OmenConfig, RequestContext,
};

verus! {

/// The services of the deployment.
#[derive(Debug, Clone, Copy, PartialEq, Eq, Structural)]
pub enum GhostService {
    /// The main interface.
    GhostLLM,
    /// Automation and workflows.
    GhostFlow,
    /// The core assistant.
    Zeke,
    /// Orchestration.
    Jarvis,
    /// Callers from outside.
    External,
    /// Development and testing.
    Development,
}

impl GhostService {
    /// The name of the service.
    pub open spec fn name(self) -> Seq<char> {
        match self {
            GhostService::GhostLLM => "ghostllm"@,
            GhostService::GhostFlow => "ghostflow"@,
            GhostService::Zeke => "zeke"@,
            GhostService::Jarvis => "jarvis"@,
            GhostService::External => "external"@,
            GhostService::Development => "development"@,
        }
    }

    /// The priority of the service: the higher, the more its calls count.
    pub open spec fn rank(self) -> u8 {
        match self {
            GhostService::GhostLLM => 255,
            GhostService::GhostFlow => 200,
            GhostService::Zeke => 180,
            GhostService::Jarvis => 160,
            GhostService::External => 100,
            GhostService::Development => 50,
        }
    }

    /// The name of the service.
    pub fn as_str(&self) -> (s: &'static str)
        ensures
            s@ == self.name(),
    {
        match self {
            GhostService::GhostLLM => "ghostllm",
            GhostService::GhostFlow => "ghostflow",
            GhostService::Zeke => "zeke",
            GhostService::Jarvis => "jarvis",
            GhostService::External => "external",
            GhostService::Development => "development",
        }
    }

    /// The priority of the service.
    pub fn priority(&self) -> (p: u8)
        ensures
            p == self.rank(),
    {
        match self {
            GhostService::GhostLLM => 255,
            GhostService::GhostFlow => 200,
            GhostService::Zeke => 180,
            GhostService::Jarvis => 160,
            GhostService::External => 100,
            GhostService::Development => 50,
        }
    }
}

/// The listed priority of a service is the priority of its name.
pub proof fn lemma_priority_of_name(service: GhostService)
    ensures
        priority_of(service.name()) == service.rank(),
{
    reveal_strlit("ghostllm");
    reveal_strlit("ghostflow");
    reveal_strlit("zeke");
    reveal_strlit("jarvis");
    reveal_strlit("external");
    reveal_strlit("development");
    match service {
        GhostService::GhostLLM => {},
        GhostService::GhostFlow => {
            assert("ghostflow"@[5] != "ghostllm"@[5]);
        },
        GhostService::Zeke => {
            assert("zeke"@.len() != "ghostllm"@.len());
            assert("zeke"@.len() != "ghostflow"@.len());
        },
        GhostService::Jarvis => {
            assert("jarvis"@.len() != "ghostllm"@.len());
            assert("jarvis"@.len() != "ghostflow"@.len());
            assert("jarvis"@.len() != "zeke"@.len());
        },
        GhostService::External => {
            assert("external"@[0] != "ghostllm"@[0]);
            assert("external"@.len() != "ghostflow"@.len());
            assert("external"@.len() != "zeke"@.len());
            assert("external"@.len() != "jarvis"@.len());
        },
        GhostService::Development => {
            assert("development"@.len() != "ghostllm"@.len());
            assert("development"@.len() != "ghostflow"@.len());
            assert("development"@.len() != "zeke"@.len());
            assert("development"@.len() != "jarvis"@.len());
            assert("development"@.len() != "external"@.len());
        },
    }
}

/// Who calls, and in which session.
#[derive(Debug, Clone)]
pub struct GhostContext {
    pub service: GhostService,
    /// The session's id, a UUID as a number.
    pub session_id: u128,
    pub user_id: String,
    pub workflow_id: Option<u128>,
    /// The chain of calls that this call belongs to.
    pub chain_id: Option<u128>,
    pub priority: u8,
    /// Further data by name; no name occurs twice.
    pub metadata: Vec<(String, String)>,
}

fn copy_pairs(v: &Vec<(String, String)>) -> (r: Vec<(String, String)>)
    ensures
        r@ == v@,
{
    let mut r: Vec<(String, String)> = Vec::new();
    let mut i: usize = 0;
    while i < v.len()
        invariant
            i <= v@.len(),
            r@ =~= v@.take(i as int),
        decreases v@.len() - i,
    {
        r.push((v[i].0.clone(), v[i].1.clone()));
        i += 1;
    }
    assert(v@.take(i as int) =~= v@);
    r
}

impl GhostContext {
    /// The context of a call of a service on behalf of a user, in a session.
    pub fn new(service: GhostService, user_id: String, session_id: u128) -> (c: Self)
        ensures
            c.service == service,
            c.session_id == session_id,
            c.user_id == user_id,
            c.workflow_id is None,
            c.chain_id is None,
            c.priority == service.rank(),
            c.metadata@.len() == 0,
    {
        GhostContext {
            priority: service.priority(),
            service,
            session_id,
            user_id,
            workflow_id: None,
            chain_id: None,
            metadata: Vec::new(),
        }
    }

    /// The context within a workflow.
    pub fn with_workflow(self, workflow_id: u128) -> (c: Self)
        ensures
            c == (GhostContext { workflow_id: Some(workflow_id), ..self }),
    {
        let mut c = self;
        c.workflow_id = Some(workflow_id);
        c
    }

    /// The context within a chain of calls.
    pub fn with_chain(self, chain_id: u128) -> (c: Self)
        ensures
            c == (GhostContext { chain_id: Some(chain_id), ..self }),
    {
        let mut c = self;
        c.chain_id = Some(chain_id);
        c
    }

    /// The context with a further datum set under its name.
    pub fn with_metadata(self, key: String, value: String) -> (c: Self)
        ensures
            tags_view(c.metadata@) == with_pair(tags_view(self.metadata@), key@, value@),
            c.service == self.service,
            c.session_id == self.session_id,
            c.user_id == self.user_id,
            c.workflow_id == self.workflow_id,
            c.chain_id == self.chain_id,
            c.priority == self.priority,
    {
        let mut c = self;
        put_pair(&mut c.metadata, key, value);
        c
    }

    /// Whether two contexts say the same.
    pub open spec fn same(self, other: GhostContext) -> bool {
        &&& self.service == other.service
        &&& self.session_id == other.session_id
        &&& self.user_id == other.user_id
        &&& self.workflow_id == other.workflow_id
        &&& self.chain_id == other.chain_id
        &&& self.priority == other.priority
        &&& self.metadata@ == other.metadata@
    }

    /// A copy of the context.
    pub fn duplicate(&self) -> (c: Self)
        ensures
            c.same(*self),
    {
        GhostContext {
            service: self.service,
            session_id: self.session_id,
            user_id: self.user_id.clone(),
            workflow_id: self.workflow_id,
            chain_id: self.chain_id,
            priority: self.priority,
            metadata: copy_pairs(&self.metadata),
        }
    }
}

/// How a service wants its requests routed. Sensitivity and threshold are
/// in parts per million.
#[derive(Debug, Clone)]
pub struct GhostRoutingHints {
    pub prefer_local: bool,
    pub max_latency_ms: Option<u64>,
    pub cost_sensitivity: u32,
    pub quality_threshold: u32,
    pub provider_whitelist: Option<Vec<String>>,
    pub provider_blacklist: Option<Vec<String>>,
}

/// What to do where the selected provider fails.
#[derive(Debug, Clone, Copy, PartialEq, Eq, Structural)]
pub enum GhostFallbackStrategy {
    /// Give up.
    Never,
    CheaperProvider,
    LocalOnly,
    CloudOnly,
    BestEffort,
}

/// A request of a service.
#[derive(Debug, Clone)]
pub struct GhostRequest {
    pub context: GhostContext,
    pub chat_request: ChatCompletionRequest,
    pub routing_hints: Option<GhostRoutingHints>,
    pub fallback_strategy: Option<GhostFallbackStrategy>,
}

/// The answer to a request of a service.
#[derive(Debug, Clone)]
pub struct GhostResponse {
    pub response: ChatCompletionResponse,
    pub ghost_metadata: GhostResponseMetadata,
}

/// How the answer to a request of a service was made.
#[derive(Debug, Clone)]
pub struct GhostResponseMetadata {
    pub session_id: u128,
    pub provider_used: String,
    pub routing_decision: String,
    /// Micro-dollars.
    pub cost_usd: u64,
    pub latency_ms: u64,
    /// Parts per million.
    pub quality_score: u64,
    pub fallback_used: bool,
    pub rate_limit_remaining: Option<u32>,
}

/// A session that is in use.
#[derive(Debug, Clone)]
pub struct GhostSession {
    pub context: GhostContext,
    pub created_at: i64,
    pub last_activity: i64,
    pub request_count: u32,
    pub total_cost: u64,
}

/// What is known of a session.
#[derive(Debug, Clone)]
pub struct GhostSessionStats {
    pub session_id: u128,
    pub service: GhostService,
    pub user_id: String,
    pub created_at: i64,
    pub last_activity: i64,
    pub request_count: u32,
    pub total_cost: u64,
    /// Whether the session was used in the last half hour.
    pub is_active: bool,
}

/// The defaults of a service.
#[derive(Debug, Clone)]
pub struct GhostServiceConfig {
    pub default_routing_hints: GhostRoutingHints,
    pub fallback_strategy: GhostFallbackStrategy,
    pub session_timeout_minutes: u32,
}

/// Whether a service has defaults of its own.
pub open spec fn has_defaults(service: GhostService) -> bool {
    service == GhostService::GhostLLM || service == GhostService::GhostFlow || service
        == GhostService::Zeke || service == GhostService::Jarvis
}

/// The hints that a service defaults to.
pub open spec fn default_hints(service: GhostService) -> GhostRoutingHints {
    match service {
        GhostService::GhostFlow => GhostRoutingHints {
            prefer_local: true,
            max_latency_ms: Some(1500u64),
            cost_sensitivity: 700_000,
            quality_threshold: 600_000,
            provider_whitelist: None,
            provider_blacklist: None,
        },
        GhostService::Zeke => GhostRoutingHints {
            prefer_local: false,
            max_latency_ms: Some(2000u64),
            cost_sensitivity: 400_000,
            quality_threshold: 750_000,
            provider_whitelist: None,
            provider_blacklist: None,
        },
        GhostService::Jarvis => GhostRoutingHints {
            prefer_local: false,
            max_latency_ms: Some(2500u64),
            cost_sensitivity: 200_000,
            quality_threshold: 850_000,
            provider_whitelist: None,
            provider_blacklist: None,
        },
        _ => GhostRoutingHints {
            prefer_local: false,
            max_latency_ms: Some(3000u64),
            cost_sensitivity: 300_000,
            quality_threshold: 800_000,
            provider_whitelist: None,
            provider_blacklist: None,
        },
    }
}

/// What a service defaults to where the provider fails, and how long its
/// sessions may idle, in minutes.
pub open spec fn default_fallback(service: GhostService) -> (GhostFallbackStrategy, u32) {
    match service {
        GhostService::GhostFlow => (GhostFallbackStrategy::CheaperProvider, 30),
        GhostService::Zeke => (GhostFallbackStrategy::BestEffort, 45),
        GhostService::Jarvis => (GhostFallbackStrategy::BestEffort, 120),
        _ => (GhostFallbackStrategy::BestEffort, 60),
    }
}

/// The strategy, the fan-out and the deadline that the requests of a
/// service default to.
pub open spec fn default_route(service: GhostService) -> (Seq<char>, u32, u32) {
    match service {
        GhostService::GhostFlow => ("race"@, 2, 1500),
        GhostService::GhostLLM => ("speculate_k"@, 3, 3000),
        GhostService::Zeke => ("race"@, 2, 2000),
        GhostService::Jarvis => ("parallel_merge"@, 2, 2500),
        _ => ("single"@, 1, 5000),
    }
}

/// What a completion of `total_tokens` tokens costs a service: two cents
/// per thousand tokens, less the discount of the service.
pub open spec fn service_cost(total_tokens: u32, service: Seq<char>) -> u64 {
    let percent: u64 = if service == "ghostflow"@ {
        50
    } else if service == "ghostllm"@ {
        80
    } else if service == "zeke"@ {
        70
    } else if service == "jarvis"@ {
        60
    } else {
        100
    };
    scaled(scaled(total_tokens as u64, 20_000, 1000), percent, 100)
}

/// A session counts as active for half an hour after its last use.
pub const ACTIVE_SECS: i64 = 1800;

/// A session is dropped two hours after its last use.
pub const EXPIRY_SECS: i64 = 7200;

/// Whether a session that was last used at `last_activity` is past `limit`
/// seconds of idling at `now`.
pub open spec fn idle_for(last_activity: i64, now: i64, limit: i64) -> bool {
    last_activity as int <= now - limit
}

fn is_idle_for(last_activity: i64, now: i64, limit: i64) -> (b: bool)
    requires
        limit >= 0,
    ensures
        b == idle_for(last_activity, now, limit),
{
    if now >= i64::MIN + limit {
        last_activity <= now - limit
    } else {
        false
    }
}

/// The sessions that are in use, and the limiter for calls between services.
pub struct GhostOrchestrator {
    pub rate_limiter: GhostAIRateLimiter,
    /// The sessions by the text of their id.
    pub active_sessions: TextMap<GhostSession>,
}

impl GhostOrchestrator {
    /// An orchestrator without sessions.
    pub fn new() -> (o: Self)
        ensures
            o.active_sessions@ == Map::<Seq<char>, GhostSession>::empty(),
            o.rate_limiter.adaptive_limiter.buckets@ == Map::<
                Seq<char>,
                crate::rate_limiter::RateLimitBucket,
            >::empty(),
    {
        GhostOrchestrator {
            rate_limiter: GhostAIRateLimiter::new(),
            active_sessions: TextMap::new(),
        }
    }

    /// The defaults of a service, where it has any.
    pub fn service_config(service: GhostService) -> (c: Option<GhostServiceConfig>)
        ensures
            c is Some <==> has_defaults(service),
            c matches Some(config) ==> config.default_routing_hints == default_hints(service)
                && config.fallback_strategy == default_fallback(service).0
                && config.session_timeout_minutes == default_fallback(service).1,
    {
        match service {
            GhostService::GhostLLM => Some(
                GhostServiceConfig {
                    default_routing_hints: GhostRoutingHints {
                        prefer_local: false,
                        max_latency_ms: Some(3000),
                        cost_sensitivity: 300_000,
                        quality_threshold: 800_000,
                        provider_whitelist: None,
                        provider_blacklist: None,
                    },
                    fallback_strategy: GhostFallbackStrategy::BestEffort,
                    session_timeout_minutes: 60,
                },
            ),
            GhostService::GhostFlow => Some(
                GhostServiceConfig {
                    default_routing_hints: GhostRoutingHints {
                        prefer_local: true,
                        max_latency_ms: Some(1500),
                        cost_sensitivity: 700_000,
                        quality_threshold: 600_000,
                        provider_whitelist: None,
                        provider_blacklist: None,
                    },
                    fallback_strategy: GhostFallbackStrategy::CheaperProvider,
                    session_timeout_minutes: 30,
                },
            ),
            GhostService::Zeke => Some(
                GhostServiceConfig {
                    default_routing_hints: GhostRoutingHints {
                        prefer_local: false,
                        max_latency_ms: Some(2000),
                        cost_sensitivity: 400_000,
                        quality_threshold: 750_000,
                        provider_whitelist: None,
                        provider_blacklist: None,
                    },
                    fallback_strategy: GhostFallbackStrategy::BestEffort,
                    session_timeout_minutes: 45,
                },
            ),
            GhostService::Jarvis => Some(
                GhostServiceConfig {
                    default_routing_hints: GhostRoutingHints {
                        prefer_local: false,
                        max_latency_ms: Some(2500),
                        cost_sensitivity: 200_000,
                        quality_threshold: 850_000,
                        provider_whitelist: None,
                        provider_blacklist: None,
                    },
                    fallback_strategy: GhostFallbackStrategy::BestEffort,
                    session_timeout_minutes: 120,
                },
            ),
            _ => None,
        }
    }

    /// Whether `kept` are the sessions `sessions` after the use of a
    /// session at `now` was noted: a session that was kept is touched and
    /// counted, a new one is kept from now on.
    pub open spec fn session_noted(
        sessions: Map<Seq<char>, GhostSession>,
        context: GhostContext,
        now: i64,
        kept: Map<Seq<char>, GhostSession>,
    ) -> bool {
        let key = uuid_text(context.session_id);
        &&& kept.contains_key(key)
        &&& kept == sessions.insert(key, kept[key])
        &&& if sessions.contains_key(key) {
            kept[key] == (GhostSession {
                last_activity: now,
                request_count: capped_count(sessions[key].request_count, 1),
                ..sessions[key]
            })
        } else {
            &&& kept[key].context.same(context)
            &&& kept[key].created_at == now
            &&& kept[key].last_activity == now
            &&& kept[key].request_count == 1
            &&& kept[key].total_cost == 0
        }
    }

    /// Notes the use of a session at `now`: see [`GhostOrchestrator::session_noted`].
    pub fn update_session(&mut self, context: &GhostContext, now: i64)
        ensures
            final(self).rate_limiter == old(self).rate_limiter,
            Self::session_noted(
                old(self).active_sessions@,
                *context,
                now,
                final(self).active_sessions@,
            ),
    {
        let key = uuid_string(context.session_id);
        let session = match self.active_sessions.remove(key.as_str()) {
            Some(mut s) => {
                s.last_activity = now;
                s.request_count = add_count(s.request_count, 1);
                s
            },
            None => GhostSession {
                context: context.duplicate(),
                created_at: now,
                last_activity: now,
                request_count: 1,
                total_cost: 0,
            },
        };
        let ghost before = old(self).active_sessions@;
        let ghost s = session;
        self.active_sessions.insert(key, session);
        assert(self.active_sessions@ =~= before.insert(uuid_text(context.session_id), s));
    }

    /// Whether `new` is `old` with the defaults of its service filled in:
    /// hints, fallback and routing directive are set where the request
    /// names none and its service has defaults; all else is as it was.
    pub open spec fn enhanced(old: GhostRequest, new: GhostRequest) -> bool {
        let service = old.context.service;
        &&& new.context == old.context
        &&& if !has_defaults(service) {
            new == old
        } else {
            &&& match old.routing_hints {
                Some(_) => new.routing_hints == old.routing_hints,
                None => new.routing_hints == Some(default_hints(service)),
            }
            &&& match old.fallback_strategy {
                Some(_) => new.fallback_strategy == old.fallback_strategy,
                None => new.fallback_strategy == Some(default_fallback(service).0),
            }
            &&& match old.chat_request.omen {
                Some(_) => new.chat_request == old.chat_request,
                None => {
                    &&& new.chat_request.omen matches Some(o)
                    &&& (o.strategy matches Some(s) && s@ == default_route(service).0)
                    &&& o.k == Some(default_route(service).1)
                    &&& o.max_latency_ms == Some(default_route(service).2)
                    &&& o.providers is None
                    &&& o.budget_usd == Some(100_000u64)
                    &&& (o.stickiness matches Some(s) && s@ == "turn"@)
                    &&& o.priority_weights is None
                    &&& o.min_useful_tokens == Some(5u32)
                    &&& new.chat_request.model == old.chat_request.model
                    &&& new.chat_request.messages == old.chat_request.messages
                    &&& new.chat_request.temperature == old.chat_request.temperature
                    &&& new.chat_request.max_tokens == old.chat_request.max_tokens
                    &&& new.chat_request.stream == old.chat_request.stream
                    &&& new.chat_request.top_p == old.chat_request.top_p
                    &&& new.chat_request.frequency_penalty == old.chat_request.frequency_penalty
                    &&& new.chat_request.presence_penalty == old.chat_request.presence_penalty
                    &&& new.chat_request.stop == old.chat_request.stop
                    &&& new.chat_request.tools == old.chat_request.tools
                    &&& new.chat_request.tool_choice == old.chat_request.tool_choice
                    &&& new.chat_request.tags == old.chat_request.tags
                },
            }
        }
    }

    /// Fills in the defaults of the request's service.
    pub fn enhance_request_with_service_config(request: GhostRequest) -> (r: GhostRequest)
        ensures
            Self::enhanced(request, r),
    {
        let mut request = request;
        let service = request.context.service;
        let config = match Self::service_config(service) {
            Some(c) => c,
            None => {
                return request;
            },
        };
        if request.routing_hints.is_none() {
            request.routing_hints = Some(config.default_routing_hints);
        }
        if request.fallback_strategy.is_none() {
            request.fallback_strategy = Some(config.fallback_strategy);
        }
        if request.chat_request.omen.is_none() {
            let mut omen = OmenConfig::default();
            match service {
                GhostService::GhostFlow => {
                    omen.strategy = Some(String::from_str("race"));
                    omen.k = Some(2);
                    omen.max_latency_ms = Some(1500);
                },
                GhostService::GhostLLM => {
                    omen.strategy = Some(String::from_str("speculate_k"));
                    omen.k = Some(3);
                    omen.max_latency_ms = Some(3000);
                },
                GhostService::Zeke => {
                    omen.strategy = Some(String::from_str("race"));
                    omen.k = Some(2);
                    omen.max_latency_ms = Some(2000);
                },
                GhostService::Jarvis => {
                    omen.strategy = Some(String::from_str("parallel_merge"));
                    omen.k = Some(2);
                    omen.max_latency_ms = Some(2500);
                },
                _ => {
                    omen.strategy = Some(String::from_str("single"));
                    omen.k = Some(1);
                },
            }
            request.chat_request.omen = Some(omen);
        }
        request
    }

    /// The tags of the context of a service's request, in order: service,
    /// session, priority, the workflow and the chain where there are any,
    /// and each further datum under its name after `meta_`.
    pub open spec fn service_tags(context: GhostContext) -> Seq<(Seq<char>, Seq<char>)> {
        seq![
            ("ghost_service"@, context.service.name()),
            ("session_id"@, uuid_text(context.session_id)),
            ("priority"@, decimal(context.priority as nat)),
        ] + (match context.workflow_id {
            Some(w) => seq![("workflow_id"@, uuid_text(w))],
            None => seq![],
        }) + (match context.chain_id {
            Some(c) => seq![("chain_id"@, uuid_text(c))],
            None => seq![],
        }) + Seq::new(
            context.metadata@.len(),
            |i: int| ("meta_"@ + context.metadata@[i].0@, context.metadata@[i].1@),
        )
    }

    /// The context under which a service's request is routed.
    pub fn create_request_context(ghost_context: &GhostContext, request_id: u128) -> (c:
        RequestContext)
        ensures
            c.request_id == request_id,
            c.user_id matches Some(u) && u@ == ghost_context.user_id@,
            c.api_key is None,
            c.intent matches Some(i) && i@ == "ghost_ai"@,
            tags_view(c.tags@) == Self::service_tags(*ghost_context),
    {
        let mut tags: Vec<(String, String)> = Vec::new();
        tags.push(
            (String::from_str("ghost_service"), String::from_str(ghost_context.service.as_str())),
        );
        tags.push((String::from_str("session_id"), uuid_string(ghost_context.session_id)));
        tags.push((String::from_str("priority"), decimal_string(ghost_context.priority as u64)));
        if let Some(w) = ghost_context.workflow_id {
            tags.push((String::from_str("workflow_id"), uuid_string(w)));
        }
        if let Some(ch) = ghost_context.chain_id {
            tags.push((String::from_str("chain_id"), uuid_string(ch)));
        }
        let ghost head = tags_view(tags@);
        let mut i: usize = 0;
        while i < ghost_context.metadata.len()
            invariant
                i <= ghost_context.metadata@.len(),
                tags_view(tags@) =~= head + Seq::new(
                    i as nat,
                    |j: int|
                        ("meta_"@ + ghost_context.metadata@[j].0@, ghost_context.metadata@[j].1@),
                ),
            decreases ghost_context.metadata@.len() - i,
        {
            let mut name = String::from_str("meta_");
            name.append(ghost_context.metadata[i].0.as_str());
            let ghost held = tags_view(tags@);
            let ghost pair = (name@, ghost_context.metadata@[i as int].1@);
            tags.push((name, ghost_context.metadata[i].1.clone()));
            assert(tags_view(tags@) =~= held.push(pair));
            i += 1;
        }
        assert(tags_view(tags@) =~= Self::service_tags(*ghost_context));
        RequestContext {
            request_id,
            user_id: Some(ghost_context.user_id.clone()),
            api_key: None,
            intent: Some(String::from_str("ghost_ai")),
            tags,
        }
    }

    /// The tokens that a request is estimated at.
    pub fn estimate_tokens(request: &ChatCompletionRequest) -> (n: u32)
        ensures
            n == input_tokens(*request),
    {
        OmenRouter::estimate_input_tokens(request)
    }

    /// Computes [`service_cost`].
    pub fn estimate_cost(response: &ChatCompletionResponse, service_name: &str) -> (c: u64)
        ensures
            c == service_cost(response.usage.total_tokens, service_name@),
    {
        let base = scale(response.usage.total_tokens as u64, 20_000, 1000);
        let percent: u64 = if str_eq(service_name, "ghostflow") {
            50
        } else if str_eq(service_name, "ghostllm") {
            80
        } else if str_eq(service_name, "zeke") {
            70
        } else if str_eq(service_name, "jarvis") {
            60
        } else {
            100
        };
        scale(base, percent, 100)
    }

    /// Takes a request of a service in: its session is noted, its caller
    /// is checked against the limits that the service's priority earns,
    /// and the defaults of the service are filled in. `now` is a Unix time
    /// in milliseconds.
    pub fn process_ghost_request(
        &mut self,
        billing: &mut BillingManager,
        request: GhostRequest,
        request_id: u128,
        now: u64,
    ) -> (r: Result<(GhostRequest, RequestContext), OmenError>)
        ensures
            final(billing)@ == old(billing)@.ensured(request.context.user_id@, secs_of(now)),
            Self::session_noted(
                old(self).active_sessions@,
                request.context,
                secs_of(now),
                final(self).active_sessions@,
            ),
            ({
                let tier = old(billing)@.ledger_of(request.context.user_id@, secs_of(now)).tier.name;
                let config = raised(limits_of(tier), multiplier_tenths(request.context.service.rank()));
                let bucket = bucket_of(
                    old(self).rate_limiter.adaptive_limiter.buckets@,
                    request.context.user_id@,
                    now,
                );
                let passes = bucket.as_of(now, config.window_size).admits(
                    config,
                    input_tokens(request.chat_request),
                );
                &&& final(self).rate_limiter.adaptive_limiter.buckets@ == old(
                    self,
                ).rate_limiter.adaptive_limiter.buckets@.insert(
                    request.context.user_id@,
                    bucket.checked(config, input_tokens(request.chat_request), now),
                )
                &&& match r {
                    Ok((enhanced, context)) => passes && Self::enhanced(request, enhanced)
                        && context.request_id == request_id && (context.user_id matches Some(u)
                        && u@ == request.context.user_id@) && context.api_key is None && (
                    context.intent matches Some(i) && i@ == "ghost_ai"@) && tags_view(context.tags@)
                        == Self::service_tags(request.context),
                    Err(e) => !passes && e is RateLimitExceeded,
                }
            }),
    {
        let secs: i64 = (now / 1000) as i64;
        self.update_session(&request.context, secs);
        let tokens = Self::estimate_tokens(&request.chat_request);
        proof {
            lemma_priority_of_name(request.context.service);
        }
        match self.rate_limiter.check_ghost_service_limit(
            billing,
            request.context.service.as_str(),
            request.context.user_id.as_str(),
            tokens,
            now,
        ) {
            Ok(_) => {},
            Err(e) => {
                return Err(e);
            },
        }
        let enhanced = Self::enhance_request_with_service_config(request);
        let context = Self::create_request_context(&enhanced.context, request_id);
        Ok((enhanced, context))
    }

    /// The answer to a request of a service, with what is known of how it
    /// was made.
    pub fn complete_ghost_request(request: &GhostRequest, response: ChatCompletionResponse, latency_ms: u64) -> (r:
        GhostResponse)
        ensures
            r.response == response,
            r.ghost_metadata.session_id == request.context.session_id,
            r.ghost_metadata.provider_used@ == "auto"@,
            r.ghost_metadata.routing_decision@ == "ghost_"@ + request.context.service.name(),
            r.ghost_metadata.cost_usd == service_cost(
                response.usage.total_tokens,
                request.context.service.name(),
            ),
            r.ghost_metadata.latency_ms == latency_ms,
            r.ghost_metadata.quality_score == 850_000,
            !r.ghost_metadata.fallback_used,
            r.ghost_metadata.rate_limit_remaining is None,
    {
        let service_name = request.context.service.as_str();
        let cost_usd = Self::estimate_cost(&response, service_name);
        let mut routing_decision = String::from_str("ghost_");
        routing_decision.append(service_name);
        GhostResponse {
            response,
            ghost_metadata: GhostResponseMetadata {
                session_id: request.context.session_id,
                provider_used: String::from_str("auto"),
                routing_decision,
                cost_usd,
                latency_ms,
                quality_score: 850_000,
                fallback_used: false,
                rate_limit_remaining: None,
            },
        }
    }

    /// What is known of a session, where it is kept.
    pub fn get_ghost_session_stats(&self, session_id: u128, now: i64) -> (r: Option<GhostSessionStats>)
        ensures
            ({
                let key = uuid_text(session_id);
                match r {
                    Some(stats) => {
                        &&& self.active_sessions@.contains_key(key)
                        &&& stats.session_id == session_id
                        &&& stats.service == self.active_sessions@[key].context.service
                        &&& stats.user_id == self.active_sessions@[key].context.user_id
                        &&& stats.created_at == self.active_sessions@[key].created_at
                        &&& stats.last_activity == self.active_sessions@[key].last_activity
                        &&& stats.request_count == self.active_sessions@[key].request_count
                        &&& stats.total_cost == self.active_sessions@[key].total_cost
                        &&& stats.is_active == !idle_for(
                            self.active_sessions@[key].last_activity,
                            now,
                            ACTIVE_SECS,
                        )
                    },
                    None => !self.active_sessions@.contains_key(key),
                }
            }),
    {
        let key = uuid_string(session_id);
        match self.active_sessions.get(key.as_str()) {
            Some(s) => Some(
                GhostSessionStats {
                    session_id,
                    service: s.context.service,
                    user_id: s.context.user_id.clone(),
                    created_at: s.created_at,
                    last_activity: s.last_activity,
                    request_count: s.request_count,
                    total_cost: s.total_cost,
                    is_active: !is_idle_for(s.last_activity, now, ACTIVE_SECS),
                },
            ),
            None => None,
        }
    }

    /// The keys of the sessions that were last used two hours ago or earlier.
    pub open spec fn expired_keys(sessions: Map<Seq<char>, GhostSession>, now: i64) -> Set<Seq<char>> {
        Set::new(
            |k: Seq<char>|
                sessions.contains_key(k) && idle_for(sessions[k].last_activity, now, EXPIRY_SECS),
        )
    }

    /// Drops the sessions that were last used two hours ago or earlier.
    pub fn cleanup_expired_sessions(&mut self, now: i64)
        ensures
            final(self).active_sessions@ == old(self).active_sessions@.remove_keys(
                Self::expired_keys(old(self).active_sessions@, now),
            ),
            final(self).rate_limiter == old(self).rate_limiter,
    {
        let ghost before = self.active_sessions@;
        let ghost listing = self.active_sessions.listing();
        let n = self.active_sessions.len();
        let mut gone: Vec<String> = Vec::new();
        let mut i: usize = 0;
        while i < n
            invariant
                i <= n,
                n == listing.len(),
                listing == self.active_sessions.listing(),
                before == self.active_sessions@,
                forall|t: int|
                    0 <= t < gone@.len() ==> before.contains_key((#[trigger] gone@[t])@) && idle_for(
                        before[gone@[t]@].last_activity,
                        now,
                        EXPIRY_SECS,
                    ),
                forall|j: int|
                    0 <= j < i && idle_for((#[trigger] listing[j]).1.last_activity, now, EXPIRY_SECS)
                        ==> key_texts(gone@, gone@.len() as int).contains(listing[j].0),
                forall|j: int|
                    0 <= j < listing.len() ==> before.contains_key((#[trigger] listing[j]).0)
                        && before[listing[j].0] == listing[j].1,
            decreases n - i,
        {
            let (key, session) = self.active_sessions.entry_at(i);
            if is_idle_for(session.last_activity, now, EXPIRY_SECS) {
                let ghost prior = gone@;
                gone.push(key.clone());
                proof {
                    assert forall|j: int|
                        0 <= j < i + 1 && idle_for(
                            (#[trigger] listing[j]).1.last_activity,
                            now,
                            EXPIRY_SECS,
                        ) implies key_texts(gone@, gone@.len() as int).contains(listing[j].0) by {
                        if j < i {
                            let t = choose|t: int|
                                0 <= t < prior.len() && (#[trigger] prior[t])@ == listing[j].0;
                            assert(gone@[t]@ == listing[j].0);
                        } else {
                            assert(gone@[gone@.len() - 1]@ == listing[j].0);
                        }
                    }
                }
            }
            i += 1;
        }
        proof {
            assert(key_texts(gone@, gone@.len() as int) =~= Self::expired_keys(before, now)) by {
                assert forall|k: Seq<char>|
                    Self::expired_keys(before, now).contains(k) implies key_texts(
                    gone@,
                    gone@.len() as int,
                ).contains(k) by {
                    let j = choose|j: int| 0 <= j < listing.len() && #[trigger] listing[j].0 == k;
                    assert(idle_for(listing[j].1.last_activity, now, EXPIRY_SECS));
                }
            }
        }
        self.active_sessions.remove_all(&gone);
    }

    /// A request of the main interface: any model, two thousand tokens at
    /// most, at a temperature of 0.7.
    pub fn create_ghostllm_request(user_id: String, messages: Vec<ChatMessage>, session_id: u128) -> (r:
        GhostRequest)
        ensures
            r.context.service == GhostService::GhostLLM,
            r.context.user_id == user_id,
            r.context.session_id == session_id,
            r.context.workflow_id is None,
            r.context.chain_id is None,
            r.context.metadata@.len() == 0,
            r.context.priority == 255,
            Self::asks_any_model(r.chat_request, messages, 0x3F33_3333, 2000),
            r.routing_hints == Some(default_hints(GhostService::GhostLLM)),
            r.fallback_strategy == Some(GhostFallbackStrategy::BestEffort),
    {
        let context = GhostContext::new(GhostService::GhostLLM, user_id, session_id);
        GhostRequest {
            context,
            chat_request: Self::auto_request(messages, 0x3F33_3333, 2000),
            routing_hints: Some(
                GhostRoutingHints {
                    prefer_local: false,
                    max_latency_ms: Some(3000),
                    cost_sensitivity: 300_000,
                    quality_threshold: 800_000,
                    provider_whitelist: None,
                    provider_blacklist: None,
                },
            ),
            fallback_strategy: Some(GhostFallbackStrategy::BestEffort),
        }
    }

    /// A request of a workflow: any model, a thousand tokens at most, at a
    /// temperature of 0.3, local first and sensitive to cost.
    pub fn create_ghostflow_request(
        user_id: String,
        workflow_id: u128,
        messages: Vec<ChatMessage>,
        session_id: u128,
    ) -> (r: GhostRequest)
        ensures
            r.context.service == GhostService::GhostFlow,
            r.context.user_id == user_id,
            r.context.session_id == session_id,
            r.context.workflow_id == Some(workflow_id),
            r.context.chain_id is None,
            r.context.metadata@.len() == 0,
            r.context.priority == 200,
            Self::asks_any_model(r.chat_request, messages, 0x3E99_999A, 1000),
            r.routing_hints == Some(
                GhostRoutingHints {
                    cost_sensitivity: 800_000,
                    ..default_hints(GhostService::GhostFlow)
                },
            ),
            r.fallback_strategy == Some(GhostFallbackStrategy::CheaperProvider),
    {
        let context = GhostContext::new(GhostService::GhostFlow, user_id, session_id).with_workflow(
            workflow_id,
        );
        GhostRequest {
            context,
            chat_request: Self::auto_request(messages, 0x3E99_999A, 1000),
            routing_hints: Some(
                GhostRoutingHints {
                    prefer_local: true,
                    max_latency_ms: Some(1500),
                    cost_sensitivity: 800_000,
                    quality_threshold: 600_000,
                    provider_whitelist: None,
                    provider_blacklist: None,
                },
            ),
            fallback_strategy: Some(GhostFallbackStrategy::CheaperProvider),
        }
    }

    /// Whether a request asks any model for an answer to the messages,
    /// not streamed, with nothing set but the temperature and the ceiling
    /// on tokens.
    pub open spec fn asks_any_model(
        r: ChatCompletionRequest,
        messages: Vec<ChatMessage>,
        temperature: u32,
        max_tokens: u32,
    ) -> bool {
        &&& r.model@ == "auto"@
        &&& r.messages == messages
        &&& r.temperature == Some(temperature)
        &&& r.max_tokens == Some(max_tokens)
        &&& !r.stream
        &&& r.top_p is None
        &&& r.frequency_penalty is None
        &&& r.presence_penalty is None
        &&& r.stop is None
        &&& r.tools is None
        &&& r.tool_choice is None
        &&& r.tags is None
        &&& r.omen is None
    }

    fn auto_request(messages: Vec<ChatMessage>, temperature: u32, max_tokens: u32) -> (r:
        ChatCompletionRequest)
        ensures
            Self::asks_any_model(r, messages, temperature, max_tokens),
    {
        ChatCompletionRequest {
            model: String::from_str("auto"),
            messages,
            temperature: Some(temperature),
            max_tokens: Some(max_tokens),
            stream: false,
            top_p: None,
            frequency_penalty: None,
            presence_penalty: None,
            stop: None,
            tools: None,
            tool_choice: None,
            tags: None,
            omen: None,
        }
    }
}

} // verus!
