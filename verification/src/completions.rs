//! What the gateway offers besides chat completions: the legacy prompt
//! form, embeddings, and the marks it gives its providers.

use vstd::prelude::*;
use crate::amount::{add_count, capped_count, PPM};
use crate::auth::{classify_request_intent, request_intent};
use crate::error::OmenError;
use crate::rate_limiter::secs_of;
use crate::router::{OmenRouter, ProviderReport};
use crate::routing::{is_top_k, top_k};
use crate::text::{byte_len, put_pair, str_eq, tags_view, utf8_len, with_pair, with_pairs};
use crate::types::{
    ChatCompletionRequest, ChatCompletionResponse, ChatMessage, CompletionChoice, CompletionPrompt,
    CompletionRequest, CompletionResponse, EmbeddingData, EmbeddingInput, EmbeddingUsage,
    EmbeddingsRequest, EmbeddingsResponse, MessageContent, Model, ProviderHealth, ProviderScore,
    RequestContext, Usage,
};

verus! {

/// The prompts of a request in the legacy form, in order.
pub open spec fn prompts_of(prompt: CompletionPrompt) -> Seq<Seq<char>> {
    match prompt {
        CompletionPrompt::Single(t) => seq![t@],
        CompletionPrompt::Multiple(list) => crate::text::texts(list@),
    }
}

/// Whether a chat request asks what a prompt of a request in the legacy
/// form asks: one message of the user, with the prompt as its text, and
/// the sampling of the request.
pub open spec fn asks(chat: ChatCompletionRequest, request: CompletionRequest, prompt: Seq<char>) -> bool {
    &&& chat.model@ == request.model@
    &&& chat.messages@.len() == 1
    &&& chat.messages@[0].role@ == "user"@
    &&& chat.messages@[0].content matches MessageContent::Text(t) && t@ == prompt
    &&& chat.messages@[0].name is None
    &&& chat.messages@[0].tool_calls is None
    &&& chat.messages@[0].tool_call_id is None
    &&& chat.temperature == request.temperature
    &&& chat.max_tokens == request.max_tokens
    &&& !chat.stream
    &&& chat.top_p == request.top_p
    &&& chat.frequency_penalty is None
    &&& chat.presence_penalty is None
    &&& match (chat.stop, request.stop) {
        (Some(a), Some(b)) => a@ == b@,
        (None, None) => true,
        _ => false,
    }
    &&& chat.tools is None
    &&& chat.tool_choice is None
    &&& chat.tags is None
    &&& chat.omen is None
}

/// The points, in parts per million of full marks, for a latency: none
/// from five seconds on.
pub open spec fn latency_points(latency_ms: u64) -> u64 {
    if latency_ms >= 5000 {
        0
    } else {
        ((5000 - latency_ms) * 200) as u64
    }
}

/// The points for a price in micro-dollars per thousand tokens: none from
/// twenty dollars on.
pub open spec fn cost_points(avg_cost: u64) -> u64 {
    if avg_cost >= 20_000_000 {
        0
    } else {
        ((20_000_000 - avg_cost) / 20) as u64
    }
}

/// The points for a success rate.
pub open spec fn reliability_points(success_rate: Option<u32>) -> u64 {
    match success_rate {
        Some(r) => if r > PPM {
            PPM
        } else {
            r as u64
        },
        None => 0,
    }
}

/// The overall mark of a provider: four tenths for its health, three for
/// its latency, two for its price and one for its reliability. A latency
/// that is not known counts as five seconds, a price that is not known as
/// ten dollars.
pub open spec fn overall_points(h: ProviderHealth) -> u64 {
    ((4 * (if h.healthy {
        PPM
    } else {
        0
    }) + 3 * latency_points(
        match h.latency_ms {
            Some(l) => l,
            None => 5000,
        },
    ) + 2 * cost_points(
        match h.avg_cost_per_1k {
            Some(c) => c,
            None => 10_000_000,
        },
    ) + reliability_points(h.success_rate)) / 10) as u64
}

/// Whether `s` holds the marks of the provider that `h` reports on.
pub open spec fn marks_health(s: ProviderScore, h: ProviderHealth) -> bool {
    &&& s.provider_id@ == h.id@
    &&& s.provider_name@ == h.name@
    &&& s.health_score == if h.healthy {
        PPM
    } else {
        0
    }
    &&& s.latency_ms == match h.latency_ms {
        Some(l) => l,
        None => 5000,
    }
    &&& s.cost_score == cost_points(
        match h.avg_cost_per_1k {
            Some(c) => c,
            None => 10_000_000,
        },
    )
    &&& s.reliability_score == reliability_points(h.success_rate)
    &&& s.overall_score == overall_points(h)
    &&& s.recommended == (overall_points(h) > 600_000 && h.healthy)
}

/// The overall mark of each of the reports.
pub open spec fn overall_list(health: Seq<ProviderHealth>) -> Seq<u64> {
    Seq::new(health.len(), |i: int| overall_points(health[i]))
}

/// The mean of the input prices of the models, rounded down.
pub open spec fn mean_input_price(models: Seq<Model>) -> Option<u64> {
    if models.len() == 0 {
        None
    } else {
        Some((price_sum(models) / (models.len() as int)) as u64)
    }
}

/// The sum of the input prices of the models.
pub open spec fn price_sum(models: Seq<Model>) -> int
    decreases models.len(),
{
    if models.len() == 0 {
        0
    } else {
        price_sum(models.drop_last()) + models.last().pricing.input_per_1k
    }
}

/// The tokens that a text is estimated at: a quarter of its bytes.
pub open spec fn text_tokens(t: Seq<char>) -> u32 {
    ((utf8_len(t) as usize) / 4) as u32
}

/// The tokens that the texts are estimated at together.
pub open spec fn texts_tokens(list: Seq<Seq<char>>) -> u32
    decreases list.len(),
{
    if list.len() == 0 {
        0
    } else {
        capped_count(texts_tokens(list.drop_last()), text_tokens(list.last()))
    }
}

/// The texts of a request for embeddings, in order.
pub open spec fn inputs_of(input: EmbeddingInput) -> Seq<Seq<char>> {
    match input {
        EmbeddingInput::Single(t) => seq![t@],
        EmbeddingInput::Multiple(list) => crate::text::texts(list@),
    }
}

/// The components of an embedding.
pub const EMBEDDING_DIMENSIONS: usize = 1536;

fn copy_stop(stop: &Option<Vec<String>>) -> (r: Option<Vec<String>>)
    ensures
        match (r, *stop) {
            (Some(a), Some(b)) => a@ == b@,
            (None, None) => true,
            _ => false,
        },
{
    match stop {
        Some(list) => Some(crate::text::copy_texts(list)),
        None => None,
    }
}

fn estimate_text(t: &str) -> (n: u32)
    ensures
        n == text_tokens(t@),
{
    (byte_len(t) / 4) as u32
}

impl OmenRouter {
    /// The context of a request that came without one: its intent, and as
    /// tags the intent and then the tags of the request, a later tag
    /// replacing an earlier one of the same name.
    pub fn create_request_context(request: &ChatCompletionRequest, request_id: u128) -> (c:
        RequestContext)
        ensures
            c.request_id == request_id,
            c.user_id is None,
            c.api_key is None,
            c.intent matches Some(i) && i@ == request_intent(*request),
            tags_view(c.tags@) == with_pairs(
                seq![("intent"@, request_intent(*request))],
                match request.tags {
                    Some(t) => tags_view(t@),
                    None => seq![],
                },
            ),
    {
        let intent = classify_request_intent(request);
        let mut tags: Vec<(String, String)> = Vec::new();
        if let Some(i) = &intent {
            tags.push((String::from_str("intent"), i.clone()));
        }
        let ghost base = tags_view(tags@);
        assert(base =~= seq![("intent"@, request_intent(*request))]);
        if let Some(more) = &request.tags {
            let mut i: usize = 0;
            assert(tags_view(more@).take(0) =~= Seq::<(Seq<char>, Seq<char>)>::empty());
            while i < more.len()
                invariant
                    i <= more@.len(),
                    tags_view(tags@) == with_pairs(base, tags_view(more@).take(i as int)),
                decreases more@.len() - i,
            {
                proof {
                    assert(tags_view(more@).take(i + 1).drop_last() =~= tags_view(more@).take(i as int));
                }
                put_pair(&mut tags, more[i].0.clone(), more[i].1.clone());
                i += 1;
            }
            assert(tags_view(more@).take(i as int) =~= tags_view(more@));
        }
        RequestContext { request_id, user_id: None, api_key: None, intent, tags }
    }

    /// The chat requests that a request in the legacy form stands for: one
    /// for each of its prompts.
    pub fn text_completion(request: &CompletionRequest) -> (chats: Vec<ChatCompletionRequest>)
        ensures
            chats@.len() == prompts_of(request.prompt).len(),
            forall|i: int|
                0 <= i < chats@.len() ==> asks(
                    #[trigger] chats@[i],
                    *request,
                    prompts_of(request.prompt)[i],
                ),
    {
        let mut chats: Vec<ChatCompletionRequest> = Vec::new();
        match &request.prompt {
            CompletionPrompt::Single(t) => {
                chats.push(Self::chat_for(request, t.as_str()));
            },
            CompletionPrompt::Multiple(list) => {
                let mut i: usize = 0;
                while i < list.len()
                    invariant
                        i <= list@.len(),
                        request.prompt == CompletionPrompt::Multiple(*list),
                        chats@.len() == i,
                        forall|j: int|
                            0 <= j < i ==> asks(#[trigger] chats@[j], *request, list@[j]@),
                    decreases list@.len() - i,
                {
                    chats.push(Self::chat_for(request, list[i].as_str()));
                    i += 1;
                }
            },
        }
        chats
    }

    fn chat_for(request: &CompletionRequest, prompt: &str) -> (chat: ChatCompletionRequest)
        ensures
            asks(chat, *request, prompt@),
    {
        let mut messages: Vec<ChatMessage> = Vec::new();
        messages.push(
            ChatMessage {
                role: String::from_str("user"),
                content: MessageContent::Text(String::from_str(prompt)),
                name: None,
                tool_calls: None,
                tool_call_id: None,
            },
        );
        ChatCompletionRequest {
            model: request.model.clone(),
            messages,
            temperature: request.temperature,
            max_tokens: request.max_tokens,
            stream: false,
            top_p: request.top_p,
            frequency_penalty: None,
            presence_penalty: None,
            stop: copy_stop(&request.stop),
            tools: None,
            tool_choice: None,
            tags: None,
            omen: None,
        }
    }

    /// The text that an answer contributes to a completion in the legacy
    /// form: that of its first choice.
    pub fn completion_text(response: &ChatCompletionResponse) -> (t: Option<String>)
        ensures
            match t {
                Some(text) => response.choices@.len() > 0 && text@
                    == response.choices@[0].message.content.text_view(),
                None => response.choices@.len() == 0,
            },
    {
        if response.choices.len() == 0 {
            None
        } else {
            Some(response.choices[0].message.content.text())
        }
    }

    /// The completion in the legacy form for the texts that the answers
    /// contributed: one choice for each, finished by `stop`, under the id
    /// `cmpl-` and a UUID.
    pub fn assemble_completion(model: String, answers: Vec<String>, id: u128, created: i64) -> (r:
        CompletionResponse)
        ensures
            r.id@ == "cmpl-"@ + crate::cache::uuid_text(id),
            r.object@ == "text_completion"@,
            r.created == created,
            r.model == model,
            r.choices@.len() == answers@.len(),
            forall|i: int|
                0 <= i < answers@.len() ==> (#[trigger] r.choices@[i]).text == answers@[i]
                    && r.choices@[i].index == i as u32 && (r.choices@[i].finish_reason matches Some(
                    f,
                ) && f@ == "stop"@),
            r.usage.prompt_tokens == 0,
            r.usage.completion_tokens == 0,
            r.usage.total_tokens == 0,
    {
        let ghost all = answers@;
        let mut choices: Vec<CompletionChoice> = Vec::new();
        for text in it: answers
            invariant
                it.seq() == all,
                choices@.len() == it.index(),
                forall|i: int|
                    0 <= i < it.index() ==> (#[trigger] choices@[i]).text == all[i]
                        && choices@[i].index == i as u32 && (choices@[i].finish_reason matches Some(
                        f,
                    ) && f@ == "stop"@),
        {
            let index = choices.len() as u32;
            choices.push(
                CompletionChoice { text, index, finish_reason: Some(String::from_str("stop")) },
            );
        }
        let mut id_text = String::from_str("cmpl-");
        id_text.append(crate::cache::uuid_string(id).as_str());
        CompletionResponse {
            id: id_text,
            object: String::from_str("text_completion"),
            created,
            model,
            choices,
            usage: Usage { prompt_tokens: 0, completion_tokens: 0, total_tokens: 0 },
        }
    }

    /// The provider for embeddings among those that were started: `openai`,
    /// else `ollama`, else the first.
    pub open spec fn embedder(started: Seq<Seq<char>>) -> Option<Seq<char>> {
        if started.contains("openai"@) {
            Some("openai"@)
        } else if started.contains("ollama"@) {
            Some("ollama"@)
        } else if started.len() > 0 {
            Some(started[0])
        } else {
            None
        }
    }

    /// Answers a request for embeddings. A tenant is checked against its
    /// ledger, which may deny the request, and counted against its bucket,
    /// which does not. Each text gets an embedding of 1536 zeros; the usage
    /// is what the texts are estimated at.
    pub fn embeddings(
        &mut self,
        request: EmbeddingsRequest,
        context: &RequestContext,
        started: &Vec<String>,
        now: u64,
    ) -> (r: Result<EmbeddingsResponse, OmenError>)
        ensures
            final(self).advanced_router == old(self).advanced_router,
            final(self).cache == old(self).cache,
            final(self).prefer_local_for == old(self).prefer_local_for,
            match context.user_id {
                None => final(self).billing_manager == old(self).billing_manager
                    && final(self).rate_limiter == old(self).rate_limiter,
                Some(u) => {
                    let ledger = old(self).billing_manager@.ledger_of(u@, secs_of(now));
                    &&& final(self).billing_manager@ == old(self).billing_manager@.ensured(
                        u@,
                        secs_of(now),
                    )
                    &&& if ledger.allows(secs_of(now)) {
                        final(self).rate_limiter.buckets@ == old(self).rate_limiter.buckets@.insert(
                            u@,
                            crate::rate_limiter::bucket_of(
                                old(self).rate_limiter.buckets@,
                                u@,
                                now,
                            ).checked(
                                crate::rate_limiter::limits_of(ledger.tier.name),
                                texts_tokens(inputs_of(request.input)),
                                now,
                            ),
                        )
                    } else {
                        final(self).rate_limiter == old(self).rate_limiter
                    }
                },
            },
            ({
                let denied = context.user_id matches Some(u) && !old(self).billing_manager@.ledger_of(
                    u@,
                    secs_of(now),
                ).allows(secs_of(now));
                match r {
                    Err(e) => if denied {
                        e is RateLimitExceeded
                    } else {
                        e is ProviderUnavailable && Self::embedder(crate::text::texts(started@)) is None
                    },
                    Ok(answer) => {
                        &&& !denied
                        &&& Self::embedder(crate::text::texts(started@)) is Some
                        &&& answer.object@ == "list"@
                        &&& answer.model == request.model
                        &&& answer.data@.len() == inputs_of(request.input).len()
                        &&& forall|i: int|
                            0 <= i < answer.data@.len() ==> (#[trigger] answer.data@[i]).index == i
                                && answer.data@[i].object@ == "embedding"@
                                && answer.data@[i].embedding@ == Seq::new(
                                EMBEDDING_DIMENSIONS as nat,
                                |j: int| 0u32,
                            )
                        &&& answer.usage.prompt_tokens == texts_tokens(inputs_of(request.input))
                        &&& answer.usage.total_tokens == texts_tokens(inputs_of(request.input))
                    },
                }
            }),
    {
        let texts: Vec<String> = match request.input {
            EmbeddingInput::Single(t) => {
                let mut v: Vec<String> = Vec::new();
                v.push(t);
                assert(crate::text::texts(v@) =~= seq![t@]);
                v
            },
            EmbeddingInput::Multiple(list) => list,
        };
        let mut total: u32 = 0;
        let mut i: usize = 0;
        while i < texts.len()
            invariant
                i <= texts@.len(),
                total == texts_tokens(crate::text::texts(texts@).take(i as int)),
            decreases texts@.len() - i,
        {
            proof {
                assert(crate::text::texts(texts@).take(i + 1).drop_last() =~= crate::text::texts(
                    texts@,
                ).take(i as int));
            }
            total = add_count(total, estimate_text(texts[i].as_str()));
            i += 1;
        }
        assert(crate::text::texts(texts@).take(i as int) =~= crate::text::texts(texts@));
        if let Some(u) = &context.user_id {
            let secs: i64 = (now / 1000) as i64;
            if !self.billing_manager.check_request_allowed(u.as_str(), secs) {
                return Err(OmenError::RateLimitExceeded);
            }
            let ghost mid = self.billing_manager@;
            let _ = self.rate_limiter.check_rate_limit(
                &mut self.billing_manager,
                u.as_str(),
                total,
                now,
            );
            proof {
                assert(self.billing_manager@.ledgers =~= mid.ledgers);
            }
        }
        if !(crate::auth::list_has(started, "openai") || crate::auth::list_has(started, "ollama")
            || started.len() > 0) {
            proof {
                Self::lemma_embedder(started@);
            }
            return Err(
                OmenError::ProviderUnavailable(
                    String::from_str("No providers available for embeddings"),
                ),
            );
        }
        proof {
            Self::lemma_embedder(started@);
        }
        let mut data: Vec<EmbeddingData> = Vec::new();
        let mut k: usize = 0;
        while k < texts.len()
            invariant
                k <= texts@.len(),
                data@.len() == k,
                forall|i: int|
                    0 <= i < k ==> (#[trigger] data@[i]).index == i && data@[i].object@
                        == "embedding"@ && data@[i].embedding@ == Seq::new(
                        EMBEDDING_DIMENSIONS as nat,
                        |j: int| 0u32,
                    ),
            decreases texts@.len() - k,
        {
            let mut embedding: Vec<u32> = Vec::new();
            let mut j: usize = 0;
            while j < EMBEDDING_DIMENSIONS
                invariant
                    j <= EMBEDDING_DIMENSIONS,
                    embedding@ =~= Seq::new(j as nat, |t: int| 0u32),
                decreases EMBEDDING_DIMENSIONS - j,
            {
                embedding.push(0);
                j += 1;
            }
            data.push(EmbeddingData { object: String::from_str("embedding"), embedding, index: k });
            k += 1;
        }
        Ok(
            EmbeddingsResponse {
                object: String::from_str("list"),
                data,
                model: request.model,
                usage: EmbeddingUsage { prompt_tokens: total, total_tokens: total },
            },
        )
    }

    proof fn lemma_embedder(started: Seq<String>)
        ensures
            Self::embedder(crate::text::texts(started)) is Some <==> (crate::auth::lists(
                started,
                "openai"@,
            ) || crate::auth::lists(started, "ollama"@) || started.len() > 0),
    {
        let t = crate::text::texts(started);
        if crate::auth::lists(started, "openai"@) {
            let i = choose|i: int| 0 <= i < started.len() && (#[trigger] started[i])@ == "openai"@;
            assert(t[i] == "openai"@);
        }
        if crate::auth::lists(started, "ollama"@) {
            let i = choose|i: int| 0 <= i < started.len() && (#[trigger] started[i])@ == "ollama"@;
            assert(t[i] == "ollama"@);
        }
    }

    /// The models of all providers that could be asked, in order.
    pub fn list_models(answers: Vec<Result<Vec<Model>, OmenError>>) -> (models: Vec<Model>)
        ensures
            models@ == all_models(answers@),
    {
        let ghost all = answers@;
        let mut models: Vec<Model> = Vec::new();
        for answer in it: answers
            invariant
                it.seq() == all,
                models@ == all_models(all.take(it.index() as int)),
        {
            proof {
                assert(all.take(it.index() + 1).drop_last() =~= all.take(it.index() as int));
            }
            match answer {
                Ok(mut list) => {
                    models.append(&mut list);
                },
                Err(_) => {},
            }
        }
        proof {
            assert(all.take(all.len() as int) =~= all);
        }
        models
    }

    /// Whether a provider was found healthy; an error for a provider that
    /// the probe did not find.
    pub fn check_provider_health(provider_id: &str, reports: &Vec<ProviderReport>) -> (r: Result<
        bool,
        OmenError,
    >)
        ensures
            match r {
                Ok(healthy) => exists|i: int|
                    0 <= i < reports@.len() && (#[trigger] reports@[i]).id@ == provider_id@
                        && reports@[i].healthy == healthy,
                Err(e) => (e matches OmenError::ProviderUnavailable(m) && m@ == "Provider "@
                    + provider_id@ + " not found"@) && forall|i: int|
                    0 <= i < reports@.len() ==> (#[trigger] reports@[i]).id@ != provider_id@,
            },
    {
        let mut i: usize = 0;
        while i < reports.len()
            invariant
                i <= reports@.len(),
                forall|j: int| 0 <= j < i ==> (#[trigger] reports@[j]).id@ != provider_id@,
            decreases reports@.len() - i,
        {
            if str_eq(reports[i].id.as_str(), provider_id) {
                return Ok(reports[i].healthy);
            }
            i += 1;
        }
        let mut m = String::from_str("Provider ");
        m.append(provider_id);
        m.append(" not found");
        Err(OmenError::ProviderUnavailable(m))
    }

    /// What a probe found of a provider, with the mean input price of its
    /// models and a success rate of one or zero by its health.
    pub fn get_provider_health(id: &str, name: &str, healthy: bool, latency_ms: u64, models: &Vec<Model>) -> (h:
        ProviderHealth)
        ensures
            h.id@ == id@,
            h.name@ == name@,
            h.healthy == healthy,
            h.models_count == models@.len(),
            h.latency_ms == Some(latency_ms),
            h.avg_cost_per_1k == mean_input_price(models@),
            h.success_rate == Some(
                if healthy {
                    1_000_000u32
                } else {
                    0u32
                },
            ),
    {
        let mut sum: u128 = 0;
        let mut i: usize = 0;
        while i < models.len()
            invariant
                i <= models@.len(),
                sum == price_sum(models@.take(i as int)),
                sum <= i * 0xFFFF_FFFF_FFFF_FFFF,
            decreases models@.len() - i,
        {
            proof {
                assert(models@.take(i + 1).drop_last() =~= models@.take(i as int));
            }
            sum = sum + (models[i].pricing.input_per_1k as u128);
            i += 1;
        }
        assert(models@.take(i as int) =~= models@);
        let avg_cost_per_1k: Option<u64> = if models.len() == 0 {
            None
        } else {
            let mean: u128 = sum / (models.len() as u128);
            assert(mean <= u64::MAX) by (nonlinear_arith)
                requires
                    mean == sum / (models.len() as u128),
                    sum <= models.len() * 0xFFFF_FFFF_FFFF_FFFF,
                    models.len() > 0,
            ;
            Some(mean as u64)
        };
        ProviderHealth {
            id: String::from_str(id),
            name: String::from_str(name),
            healthy,
            models_count: models.len(),
            latency_ms: Some(latency_ms),
            avg_cost_per_1k,
            success_rate: Some(
                if healthy {
                    1_000_000
                } else {
                    0
                },
            ),
        }
    }

    fn score_for(h: &ProviderHealth) -> (s: ProviderScore)
        ensures
            marks_health(s, *h),
    {
        let latency_ms: u64 = match h.latency_ms {
            Some(l) => l,
            None => 5000,
        };
        let avg_cost: u64 = match h.avg_cost_per_1k {
            Some(c) => c,
            None => 10_000_000,
        };
        let health_score: u64 = if h.healthy {
            PPM
        } else {
            0
        };
        let latency_score: u64 = if latency_ms >= 5000 {
            0
        } else {
            (5000 - latency_ms) * 200
        };
        let cost_score: u64 = if avg_cost >= 20_000_000 {
            0
        } else {
            (20_000_000 - avg_cost) / 20
        };
        let reliability_score: u64 = match h.success_rate {
            Some(r) => if r as u64 > PPM {
                PPM
            } else {
                r as u64
            },
            None => 0,
        };
        let overall_score: u64 = (4 * health_score + 3 * latency_score + 2 * cost_score
            + reliability_score) / 10;
        ProviderScore {
            provider_id: h.id.clone(),
            provider_name: h.name.clone(),
            health_score,
            latency_ms,
            cost_score,
            reliability_score,
            overall_score,
            recommended: overall_score > 600_000 && h.healthy,
        }
    }

    /// The marks of the providers, best first; among equal marks the
    /// order of the reports is kept.
    pub fn get_provider_scores(health: &Vec<ProviderHealth>) -> (scores: Vec<ProviderScore>)
        ensures
            scores@.len() == health@.len(),
            exists|order: Seq<usize>| #[trigger]
                is_top_k(overall_list(health@), health@.len(), order) && forall|a: int|
                    0 <= a < scores@.len() ==> marks_health(
                        #[trigger] scores@[a],
                        health@[order[a] as int],
                    ),
            forall|a: int, b: int|
                0 <= a <= b < scores@.len() ==> (#[trigger] scores@[a]).overall_score >= (
                #[trigger] scores@[b]).overall_score,
    {
        let mut overall: Vec<u64> = Vec::new();
        let mut i: usize = 0;
        while i < health.len()
            invariant
                i <= health@.len(),
                overall@ =~= overall_list(health@).take(i as int),
            decreases health@.len() - i,
        {
            let s = Self::score_for(&health[i]);
            overall.push(s.overall_score);
            i += 1;
        }
        assert(overall_list(health@).take(i as int) =~= overall_list(health@));
        let order = top_k(&overall, health.len());
        let mut scores: Vec<ProviderScore> = Vec::new();
        let mut a: usize = 0;
        while a < order.len()
            invariant
                a <= order@.len(),
                order@.len() == health@.len(),
                overall@ == overall_list(health@),
                is_top_k(overall@, health@.len(), order@),
                scores@.len() == a,
                forall|b: int|
                    0 <= b < a ==> marks_health(#[trigger] scores@[b], health@[order@[b] as int]),
            decreases order@.len() - a,
        {
            scores.push(Self::score_for(&health[order[a]]));
            a += 1;
        }
        assert forall|a: int, b: int| 0 <= a <= b < scores@.len() implies (
        #[trigger] scores@[a]).overall_score >= (#[trigger] scores@[b]).overall_score by {
            if a < b {
                assert(crate::routing::ranks_before(overall@, order@[a] as int, order@[b] as int));
            }
        }
        scores
    }
}

/// The models of the answers that are no errors, in order.
pub open spec fn all_models(answers: Seq<Result<Vec<Model>, OmenError>>) -> Seq<Model>
    decreases answers.len(),
{
    if answers.len() == 0 {
        seq![]
    } else {
        all_models(answers.drop_last()) + match answers.last() {
            Ok(list) => list@,
            Err(_) => seq![],
        }
    }
}

} // verus!
