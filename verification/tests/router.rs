use omen::config::Config;
use omen::error::OmenError;
use omen::multiplexer::Coordination;
use omen::cache::{CachedResponse, RedisCache};
use omen::multiplexer::DriverWork;
use omen::router::{
    OmenRouter, PipelineAction, PipelineEvent, PipelineState, ProviderReport, StreamAction,
    StreamEnd, StreamInput, StreamState,
};
use omen::types::{
    ChatChoice, ChatCompletionRequest, ChatCompletionResponse, ChatMessage, ContentPart, ImageUrl,
    MessageContent, OmenConfig, RequestContext, Usage,
};

fn text_message(role: &str, text: &str) -> ChatMessage {
    ChatMessage {
        role: role.to_string(),
        content: MessageContent::Text(text.to_string()),
        name: None,
        tool_calls: None,
        tool_call_id: None,
    }
}

fn request(model: &str, text: &str) -> ChatCompletionRequest {
    ChatCompletionRequest {
        model: model.to_string(),
        messages: vec![text_message("user", text)],
        temperature: Some(0.7f32.to_bits()),
        max_tokens: None,
        stream: false,
        top_p: None,
        frequency_penalty: None,
        presence_penalty: None,
        stop: None,
        tools: None,
        tool_choice: None,
        tags: None,
        omen: None,
    }
}

fn directive(strategy: &str) -> OmenConfig {
    OmenConfig {
        strategy: Some(strategy.to_string()),
        k: None,
        providers: None,
        budget_usd: None,
        max_latency_ms: None,
        stickiness: None,
        priority_weights: None,
        min_useful_tokens: None,
    }
}

fn context(user: Option<&str>, intent: &str) -> RequestContext {
    RequestContext {
        request_id: 7,
        user_id: user.map(|u| u.to_string()),
        api_key: None,
        intent: Some(intent.to_string()),
        tags: vec![],
    }
}

fn report(id: &str, healthy: bool, models: &[&str]) -> ProviderReport {
    ProviderReport {
        id: id.to_string(),
        healthy,
        models: Some(models.iter().map(|m| m.to_string()).collect()),
    }
}

fn answer(text: &str, completion_tokens: u32) -> ChatCompletionResponse {
    ChatCompletionResponse {
        id: "chatcmpl-1".to_string(),
        object: "chat.completion".to_string(),
        created: 1,
        model: "gpt-4o-mini".to_string(),
        choices: vec![ChatChoice {
            index: 0,
            message: text_message("assistant", text),
            finish_reason: Some("stop".to_string()),
        }],
        usage: Usage { prompt_tokens: 1, completion_tokens, total_tokens: 1 + completion_tokens },
        system_fingerprint: None,
    }
}

fn gateway(cache: bool) -> OmenRouter {
    let mut config = Config::default();
    config.cache.enabled = cache;
    OmenRouter::new(&config)
}

fn reports() -> Vec<ProviderReport> {
    vec![
        report("openai", true, &["gpt-4o-mini", "gpt-4"]),
        report("anthropic", true, &["model-a"]),
        report("ollama", true, &["llama3"]),
        report("azure", false, &["gpt-4"]),
    ]
}

const NOW: u64 = 1_700_000_000_000;

#[test]
fn tokens_are_estimated_from_text_and_images() {
    assert_eq!(OmenRouter::estimate_input_tokens(&request("m", "2+2")), 1);
    assert_eq!(OmenRouter::estimate_input_tokens(&request("m", "")), 0);
    assert_eq!(OmenRouter::estimate_input_tokens(&request("m", "abcd")), 1);
    assert_eq!(OmenRouter::estimate_input_tokens(&request("m", "abcde")), 2);
    let mut r = request("m", "abc");
    r.messages.push(text_message("user", "de"));
    // five bytes in all
    assert_eq!(OmenRouter::estimate_input_tokens(&r), 2);
    let image = |detail: Option<&str>| ContentPart::ImageUrl {
        image_url: ImageUrl { url: "http://x".to_string(), detail: detail.map(|d| d.to_string()) },
    };
    r.messages.push(ChatMessage {
        role: "user".to_string(),
        content: MessageContent::Parts(vec![
            ContentPart::Text { text: "abc".to_string() },
            image(Some("low")),
            image(Some("high")),
            image(Some("auto")),
            image(None),
            ContentPart::Text { text: "def".to_string() },
        ]),
        name: None,
        tool_calls: None,
        tool_call_id: None,
    });
    // "abc def" adds seven bytes to the five
    assert_eq!(OmenRouter::estimate_input_tokens(&r), 3 + 85 + 765 + 425 + 425);
}

#[test]
fn providers_have_their_price() {
    assert_eq!(OmenRouter::estimate_provider_cost("ollama", 5_000), 0);
    assert_eq!(OmenRouter::estimate_provider_cost("xai", 5_000), 0);
    assert_eq!(OmenRouter::estimate_provider_cost("openai", 1_500), 45_000);
    assert_eq!(OmenRouter::estimate_provider_cost("azure", 1_000), 30_000);
    assert_eq!(OmenRouter::estimate_provider_cost("anthropic", 1_000), 15_000);
    assert_eq!(OmenRouter::estimate_provider_cost("bedrock", 10), 150);
    assert_eq!(OmenRouter::estimate_provider_cost("google", 7), 8);
    assert_eq!(OmenRouter::estimate_provider_cost("elsewhere", 1), 20);
}

#[test]
fn a_model_goes_to_the_first_healthy_provider_that_lists_it() {
    let g = gateway(false);
    let ctx = context(None, "general");
    assert_eq!(g.select_provider("gpt-4o-mini", &ctx, &reports()).unwrap(), "openai");
    assert_eq!(g.select_provider("model-a", &ctx, &reports()).unwrap(), "anthropic");
    let mut r = reports();
    r[0].healthy = false;
    let e = g.select_provider("gpt-4", &ctx, &r).unwrap_err();
    assert!(matches!(e, OmenError::ModelNotFound(ref m) if m == "Model gpt-4 not found or provider unavailable"));
    r[3].healthy = true;
    assert_eq!(g.select_provider("gpt-4", &ctx, &r).unwrap(), "azure");
    r[3].models = None;
    assert!(g.select_provider("gpt-4", &ctx, &r).is_err());
}

#[test]
fn the_model_auto_prefers_local_for_some_intents() {
    let g = gateway(false);
    assert_eq!(g.select_provider("auto", &context(None, "code"), &reports()).unwrap(), "ollama");
    assert_eq!(g.select_provider("auto", &context(None, "regex"), &reports()).unwrap(), "ollama");
    assert_eq!(g.select_provider("auto", &context(None, "tests"), &reports()).unwrap(), "ollama");
    assert_eq!(g.select_provider("auto", &context(None, "analysis"), &reports()).unwrap(), "openai");
    let mut r = reports();
    r[2].healthy = false;
    assert_eq!(g.select_auto_provider(&context(None, "code"), &r).unwrap(), "openai");
    r[0].healthy = false;
    assert_eq!(g.select_auto_provider(&context(None, "code"), &r).unwrap(), "anthropic");
    r[1].healthy = false;
    let e = g.select_auto_provider(&context(None, "code"), &r).unwrap_err();
    assert!(matches!(e, OmenError::ProviderUnavailable(ref m) if m == "No providers available"));
    // the local provider is no fallback for the other intents
    r[2].healthy = true;
    assert!(g.select_auto_provider(&context(None, "analysis"), &r).is_err());
}

#[test]
fn candidates_by_intent_and_by_model() {
    let g = gateway(false);
    let mut r = reports();
    r.push(report("google", true, &["gemini", "gpt-4"]));
    assert_eq!(g.select_candidates_by_intent(&context(None, "code"), &r), vec!["ollama", "anthropic", "openai", "google"]);
    assert_eq!(g.select_candidates_by_intent(&context(None, "general"), &r), vec!["anthropic", "openai", "google"]);
    assert_eq!(OmenRouter::select_candidates_by_model("gpt-4", &r), vec!["openai", "google"]);
    assert!(OmenRouter::select_candidates_by_model("nothing", &r).is_empty());
}

#[test]
fn candidates_are_ranked_and_cut_to_k() {
    let g = gateway(false);
    let req = request("auto", "2+2");
    let mut d = directive("race");
    let decision = g.select_candidates(&req, &context(None, "code"), &d, &reports()).unwrap();
    assert_eq!(decision.selected_providers, vec!["ollama", "anthropic"]);
    d.k = Some(3);
    let decision = g.select_candidates(&req, &context(None, "code"), &d, &reports()).unwrap();
    assert_eq!(decision.selected_providers, vec!["ollama", "anthropic", "openai"]);
    // an allowlist is taken in its order, the healthy ones only
    d.providers = Some(vec!["azure".to_string(), "openai".to_string(), "nobody".to_string()]);
    let decision = g.select_candidates(&req, &context(None, "code"), &d, &reports()).unwrap();
    assert_eq!(decision.selected_providers, vec!["openai"]);
    d.providers = Some(vec!["azure".to_string()]);
    let e = g.select_candidates(&req, &context(None, "code"), &d, &reports()).unwrap_err();
    assert!(matches!(e, OmenError::ProviderUnavailable(ref m) if m == "No suitable providers found"));
    let e = g.select_candidates(&req, &context(None, "code"), &directive("race"), &vec![]).unwrap_err();
    assert!(matches!(e, OmenError::ProviderUnavailable(_)));
}

#[test]
fn a_stream_is_planned_under_the_directive() {
    let g = gateway(false);
    // no directive: a race of two
    let plan = g.stream_chat_completion(&request("auto", "2+2"), &context(None, "general"), &reports()).unwrap();
    assert_eq!(plan.launch.coordination, Coordination::Race);
    assert_eq!(plan.launch.immediate.len(), 2);
    assert_eq!(plan.launch.immediate, plan.decision.selected_providers);
    assert_eq!((plan.multiplexer.budget_cap, plan.multiplexer.max_latency, plan.multiplexer.min_useful_tokens), (100_000, 3000, 5));

    let mut req = request("gpt-4o-mini", "2+2");
    req.omen = Some(directive("single"));
    let plan = g.stream_chat_completion(&req, &context(None, "general"), &reports()).unwrap();
    assert_eq!(plan.launch.coordination, Coordination::Direct);
    assert_eq!(plan.launch.immediate, vec!["openai"]);

    let mut req = request("auto", "write code");
    let mut d = directive("speculate_k");
    d.k = Some(3);
    d.max_latency_ms = Some(500);
    req.omen = Some(d);
    let plan = g.stream_chat_completion(&req, &context(None, "code"), &reports()).unwrap();
    assert_eq!(plan.launch.coordination, Coordination::Speculative);
    assert_eq!(plan.launch.immediate, vec!["ollama"]);
    assert_eq!(plan.launch.delayed, vec!["anthropic", "openai"]);
    assert_eq!(plan.launch.delay_ms, 150);
    assert_eq!(plan.multiplexer.max_latency, 500);

    let r = g.stream_chat_completion(&request("auto", "x"), &context(None, "general"), &vec![]);
    assert!(matches!(r, Err(OmenError::ProviderUnavailable(_))));
}

#[test]
fn single_strategy_calls_one_provider() {
    // {model:"gpt-4o-mini", messages:[{role:"user", content:"2+2"}], omen:{strategy:"single"}}
    let mut g = gateway(false);
    let mut req = request("gpt-4o-mini", "2+2");
    req.omen = Some(directive("single"));
    let ctx = context(Some("tenant"), "general");
    let (state, action) = g.chat_completion(PipelineState::Start, PipelineEvent::Begin, &req, &ctx, NOW);
    assert!(matches!(action, PipelineAction::Probe));
    let (state, action) = g.chat_completion(state, PipelineEvent::Probed(reports()), &req, &ctx, NOW);
    assert!(matches!(action, PipelineAction::Call { ref provider_id } if provider_id == "openai"));
    let (state, action) = g.chat_completion(
        state,
        PipelineEvent::Answered { result: Ok(answer("4", 1)), latency_ms: 800 },
        &req,
        &ctx,
        NOW + 800,
    );
    assert!(matches!(state, PipelineState::Finished));
    match action {
        PipelineAction::Return { response, store } => {
            assert!(!response.choices[0].message.content.text().is_empty());
            assert!(response.usage.total_tokens > 0);
            assert!(store.is_none());
        }
        other => panic!("unexpected {:?}", other),
    }
    // one request and two tokens at three cents a thousand
    let ledger = g.billing_manager.user_billing.get("tenant").unwrap();
    assert_eq!(ledger.usage_tracker.requests_today, 1);
    assert_eq!(ledger.usage_tracker.tokens_today, 2);
    assert_eq!(ledger.total_spend_usd, 60);
    let learnt = g.advanced_router.metrics.get("openai").unwrap();
    assert_eq!(learnt.avg_latency_ms, 1430);
    assert_eq!(g.rate_limiter.buckets.get("tenant").unwrap().requests, 1);
}

#[test]
fn the_second_identical_request_is_a_cache_hit() {
    let mut g = gateway(true);
    let req = request("gpt-4o-mini", "2+2");
    let ctx = context(Some("tenant"), "general");
    let (state, action) = g.chat_completion(PipelineState::Start, PipelineEvent::Begin, &req, &ctx, NOW);
    let key = match action {
        PipelineAction::LookUp { key } => key,
        other => panic!("unexpected {:?}", other),
    };
    assert!(key.starts_with("resp:tenant:"));
    let (state, action) = g.chat_completion(state, PipelineEvent::CacheReply(None), &req, &ctx, NOW);
    assert!(matches!(action, PipelineAction::Probe));
    let (state, _) = g.chat_completion(state, PipelineEvent::Probed(reports()), &req, &ctx, NOW);
    let (_, action) = g.chat_completion(
        state,
        PipelineEvent::Answered { result: Ok(answer("4", 1)), latency_ms: 100 },
        &req,
        &ctx,
        NOW,
    );
    let stored = match action {
        PipelineAction::Return { store: Some(write), .. } => write,
        other => panic!("unexpected {:?}", other),
    };
    assert_eq!(stored.key, key);
    assert_eq!(stored.provider_used, "openai");
    assert_eq!(stored.cost_usd, 60);
    assert_eq!(g.billing_manager.user_billing.get("tenant").unwrap().usage_tracker.requests_today, 1);

    // the second request: the same key, answered from the cache, nothing charged
    let (state, action) = g.chat_completion(PipelineState::Start, PipelineEvent::Begin, &req, &ctx, NOW + 5);
    assert!(matches!(action, PipelineAction::LookUp { key: ref k } if *k == key));
    // the store gives back the entry as it was written: no hit yet
    let kept = RedisCache::new_entry(answer("4", 1), &stored.provider_used, stored.cost_usd, 1_700_000_000);
    assert_eq!(kept.cache_hit_count, 0);
    let (state, action) =
        g.chat_completion(state, PipelineEvent::CacheReply(Some(kept)), &req, &ctx, NOW + 5);
    assert!(matches!(state, PipelineState::Finished));
    let hit = match action {
        PipelineAction::ReturnHit(hit) => hit,
        other => panic!("unexpected {:?}", other),
    };
    assert_eq!(hit.entry.response.choices[0].message.content.text(), "4");
    assert_eq!(hit.key, key);
    assert_eq!(hit.entry.cache_hit_count, 1);
    assert_eq!((hit.entry.provider_used.as_str(), hit.entry.cost_usd, hit.entry.cached_at), ("openai", 60, 1_700_000_000));
    let ledger = g.billing_manager.user_billing.get("tenant").unwrap();
    assert_eq!((ledger.usage_tracker.requests_today, ledger.total_spend_usd), (1, 60));
    assert_eq!(g.rate_limiter.buckets.get("tenant").unwrap().requests, 1);

    // a third request finds the entry as the second left it
    let (state, _) = g.chat_completion(PipelineState::Start, PipelineEvent::Begin, &req, &ctx, NOW + 9);
    let (_, action) =
        g.chat_completion(state, PipelineEvent::CacheReply(Some(hit.entry)), &req, &ctx, NOW + 9);
    assert!(matches!(action, PipelineAction::ReturnHit(ref h) if h.entry.cache_hit_count == 2 && h.key == key));
}

#[test]
fn a_hit_changes_nothing_of_an_entry_but_its_count() {
    let entry = CachedResponse {
        response: answer("kept", 4),
        provider_used: "google".to_string(),
        cost_usd: 12,
        cached_at: 77,
        cache_hit_count: 41,
    };
    let after = RedisCache::count_hit(entry.clone());
    assert_eq!(after.cache_hit_count, 42);
    assert_eq!((after.provider_used.as_str(), after.cost_usd, after.cached_at), ("google", 12, 77));
    assert_eq!(after.response.choices[0].message.content.text(), "kept");
    assert_eq!(after.response.usage.completion_tokens, 4);
    // the count is held at the largest that can be written
    let full = RedisCache::count_hit(CachedResponse { cache_hit_count: u32::MAX, ..entry });
    assert_eq!(full.cache_hit_count, u32::MAX);
    let cache = RedisCache::new(omen::cache::CacheConfig::default());
    assert!(matches!(
        cache.rewrite_response("k", "{}".to_string()),
        omen::cache::CacheCommand::SetKeepTtl { ref key, ref value } if key == "response:k" && value == "{}"
    ));
}

#[test]
fn a_request_without_a_tenant_skips_cache_and_admission() {
    let mut g = gateway(true);
    let req = request("auto", "explain this");
    let ctx = context(None, "explanation");
    let (state, action) = g.chat_completion(PipelineState::Start, PipelineEvent::Begin, &req, &ctx, NOW);
    assert!(matches!(action, PipelineAction::Probe));
    let (state, action) = g.chat_completion(state, PipelineEvent::Probed(reports()), &req, &ctx, NOW);
    assert!(matches!(action, PipelineAction::Call { ref provider_id } if provider_id == "openai"));
    let (_, action) = g.chat_completion(
        state,
        PipelineEvent::Answered { result: Ok(answer("so", 3)), latency_ms: 1 },
        &req,
        &ctx,
        NOW,
    );
    assert!(matches!(action, PipelineAction::Return { store: None, .. }));
    // nobody is charged, and the router has learnt from the completion
    assert_eq!(g.billing_manager.user_billing.len(), 0);
    assert_eq!(g.advanced_router.metrics.len(), 1);
    let learnt = g.advanced_router.metrics.get("openai").unwrap();
    assert_eq!((learnt.avg_latency_ms, learnt.success_rate), (1_350, 955_000));
}

#[test]
fn failures_end_the_pipeline() {
    let mut g = gateway(false);
    let req = request("gpt-4o-mini", "2+2");
    let ctx = context(Some("t"), "general");
    // no provider lists the model
    let (state, _) = g.chat_completion(PipelineState::Start, PipelineEvent::Begin, &req, &ctx, NOW);
    let (state, action) = g.chat_completion(state, PipelineEvent::Probed(vec![]), &req, &ctx, NOW);
    assert!(matches!(state, PipelineState::Finished));
    assert!(matches!(action, PipelineAction::Fail(OmenError::ModelNotFound(_))));
    // the provider fails: nothing is charged
    let (state, _) = g.chat_completion(PipelineState::Start, PipelineEvent::Begin, &req, &ctx, NOW);
    let (state, _) = g.chat_completion(state, PipelineEvent::Probed(reports()), &req, &ctx, NOW);
    let (_, action) = g.chat_completion(
        state,
        PipelineEvent::Answered { result: Err(OmenError::Provider("502".to_string())), latency_ms: 9 },
        &req,
        &ctx,
        NOW,
    );
    assert!(matches!(action, PipelineAction::Fail(OmenError::Provider(ref m)) if m == "502"));
    assert_eq!(g.billing_manager.user_billing.get("t").unwrap().total_spend_usd, 0);
    assert_eq!(g.billing_manager.user_billing.get("t").unwrap().usage_tracker.requests_today, 0);
    // but the router has learnt that the provider failed
    let learnt = g.advanced_router.metrics.get("openai").unwrap();
    assert_eq!((learnt.avg_latency_ms, learnt.success_rate, learnt.cost_per_1k_tokens), (1_350, 855_000, 30_000));
    // an event out of turn
    let (state, action) = g.chat_completion(PipelineState::Start, PipelineEvent::CacheReply(None), &req, &ctx, NOW);
    assert!(matches!(state, PipelineState::Finished));
    assert!(matches!(action, PipelineAction::Fail(OmenError::Internal(_))));
    let (_, action) = g.chat_completion(PipelineState::Finished, PipelineEvent::Begin, &req, &ctx, NOW);
    assert!(matches!(action, PipelineAction::Fail(OmenError::Internal(_))));
}

#[test]
fn admission_denies_by_rate_and_by_budget() {
    let mut g = gateway(false);
    let req = request("auto", "2+2");
    let ctx = context(Some("t"), "general");
    for i in 0..25 {
        assert!(g.check_admission(&req, &ctx, NOW + i).is_ok());
    }
    assert!(matches!(g.check_admission(&req, &ctx, NOW + 30), Err(OmenError::RateLimitExceeded)));
    // a day's budget used up
    let mut g = gateway(false);
    g.billing_manager.record_usage("t", 1, 1, 1_000_000, (NOW / 1000) as i64);
    assert!(matches!(g.check_admission(&req, &ctx, NOW), Err(OmenError::BudgetExceeded)));
    assert!(g.rate_limiter.buckets.get("t").is_none());
    // a day's requests used up
    let mut g = gateway(false);
    for _ in 0..100 {
        g.billing_manager.record_usage("t", 1, 1, 0, (NOW / 1000) as i64);
    }
    assert!(matches!(g.check_admission(&req, &ctx, NOW), Err(OmenError::RateLimitExceeded)));
    // the next day all is well
    assert!(g.check_admission(&req, &ctx, NOW + 86_400_000).is_ok());
    // no tenant, no limit
    let mut g = gateway(false);
    for i in 0..1_000 {
        assert!(g.check_admission(&req, &context(None, "general"), NOW + i).is_ok());
    }
}

#[test]
fn the_gateway_reads_its_configuration() {
    let mut config = Config::default();
    config.cache.enabled = true;
    config.cache.response_cache_ttl = 99;
    config.routing.prefer_local_for = vec!["analysis".to_string()];
    let g = OmenRouter::new(&config);
    assert_eq!(g.cache.as_ref().unwrap().config.response_cache_ttl, 99);
    assert_eq!(g.prefer_local_for, vec!["analysis"]);
    assert_eq!(g.select_provider("auto", &context(None, "analysis"), &reports()).unwrap(), "ollama");
    assert_eq!(g.select_provider("auto", &context(None, "code"), &reports()).unwrap(), "openai");
    assert!(OmenRouter::new(&Config::default()).cache.is_none());
    assert!(g.key_for(&request("m", "x"), &context(None, "general")).is_none());
    assert!(g.key_for(&request("m", "x"), &context(Some("u"), "general")).is_some());
}

#[test]
fn a_request_must_be_well_formed() {
    assert!(request("m", "x").validate().is_ok());
    let mut r = request("m", "x");
    r.messages.clear();
    assert!(matches!(r.validate(), Err(OmenError::InvalidRequest(ref m)) if m == "messages must not be empty"));
    let mut r = request("m", "x");
    r.messages.push(text_message("robot", "beep"));
    assert!(matches!(r.validate(), Err(OmenError::InvalidRequest(ref m)) if m == "unknown message role"));
    for role in ["system", "user", "assistant", "tool"] {
        let mut r = request("m", "x");
        r.messages[0].role = role.to_string();
        assert!(r.validate().is_ok());
    }
    let tool = |name: &str| omen::types::Tool {
        tool_type: "function".to_string(),
        function: omen::types::ToolFunction { name: name.to_string(), description: None, parameters: "{}".to_string() },
    };
    let choose = |name: &str| {
        Some(omen::types::ToolChoice::Function { function: omen::types::ToolFunctionChoice { name: name.to_string() } })
    };
    let mut r = request("m", "x");
    r.tool_choice = choose("lookup");
    assert!(matches!(r.validate(), Err(OmenError::InvalidRequest(_))));
    r.tools = Some(vec![tool("search")]);
    assert!(r.validate().is_err());
    r.tools = Some(vec![tool("search"), tool("lookup")]);
    assert!(r.validate().is_ok());
    r.tool_choice = Some(omen::types::ToolChoice::Auto);
    r.tools = None;
    assert!(r.validate().is_ok());
    r.tool_choice = Some(omen::types::ToolChoice::Off);
    assert!(r.validate().is_ok());

    // the pipeline and the stream refuse it before anything else happens
    let mut g = gateway(true);
    let mut bad = request("m", "x");
    bad.messages.clear();
    let ctx = context(Some("t"), "general");
    let (state, action) = g.chat_completion(PipelineState::Start, PipelineEvent::Begin, &bad, &ctx, NOW);
    assert!(matches!(state, PipelineState::Finished));
    assert!(matches!(action, PipelineAction::Fail(OmenError::InvalidRequest(_))));
    assert_eq!(g.billing_manager.user_billing.len(), 0);
    assert!(matches!(g.stream_chat_completion(&bad, &ctx, &reports()), Err(OmenError::InvalidRequest(_))));
}

fn ended(provider: Option<&str>, forwarded: u32, success: bool, latency_ms: u64) -> StreamEnd {
    StreamEnd {
        provider: provider.map(|p| p.to_string()),
        forwarded,
        success,
        latency_ms,
        upgraded: false,
        others: vec![],
    }
}

fn work(provider: &str, latency_ms: u64, success: bool, cost_usd: u64, tokens: u32) -> DriverWork {
    DriverWork { provider_id: provider.to_string(), latency_ms, success, cost_usd, tokens }
}

#[test]
fn the_end_of_a_stream_is_recorded() {
    let mut g = gateway(false);
    let req = request("auto", "12345678");
    let ctx = context(Some("t"), "general");
    let kept = g.settle_stream(&req, &ctx, &ended(Some("anthropic"), 98, true, 200), NOW);
    assert_eq!((kept.provider.as_deref(), kept.upgraded, kept.forwarded, kept.cost_usd), (Some("anthropic"), false, 98, 1_500));
    let ledger = g.billing_manager.user_billing.get("t").unwrap();
    // two tokens in, 98 chunks out, at a cent and a half a thousand
    assert_eq!((ledger.usage_tracker.requests_today, ledger.usage_tracker.tokens_today, ledger.total_spend_usd), (1, 100, 1_500));
    let m = g.advanced_router.metrics.get("anthropic").unwrap();
    assert_eq!((m.avg_latency_ms, m.success_rate), (1_100, 955_000));
    g.settle_stream(&req, &ctx, &ended(Some("anthropic"), 0, false, 1_100), NOW);
    assert_eq!(g.advanced_router.metrics.get("anthropic").unwrap().success_rate, 859_500);
    // a stream that was committed to no provider changes nothing
    let kept = g.settle_stream(&req, &ctx, &ended(None, 40, false, 3_000), NOW);
    assert_eq!((kept.provider, kept.cost_usd), (None, 0));
    let ledger = g.billing_manager.user_billing.get("t").unwrap();
    assert_eq!((ledger.usage_tracker.requests_today, ledger.usage_tracker.tokens_today), (2, 102));
    assert_eq!(g.billing_manager.usage_history.get("t").unwrap().len(), 2);
    assert_eq!(g.advanced_router.metrics.get("anthropic").unwrap().success_rate, 859_500);
    assert_eq!(g.advanced_router.metrics.len(), 1);
    // without a tenant nobody is charged, and the router learns all the same
    let mut g = gateway(false);
    g.settle_stream(&req, &context(None, "general"), &ended(Some("anthropic"), 98, true, 200), NOW);
    assert_eq!(g.billing_manager.user_billing.len(), 0);
    let m = g.advanced_router.metrics.get("anthropic").unwrap();
    assert_eq!((m.avg_latency_ms, m.success_rate), (1_100, 955_000));
}

#[test]
fn the_work_of_the_losers_reaches_the_metrics_and_no_ledger() {
    let mut g = gateway(false);
    let req = request("auto", "12345678");
    let ctx = context(Some("t"), "general");
    let mut end = ended(Some("anthropic"), 98, true, 200);
    end.upgraded = true;
    end.others = vec![
        work("openai", 500, true, 90, 3),
        work("ollama", 30, false, 0, 0),
        work("openai", 1_400, true, 0, 0),
    ];
    let kept = g.settle_stream(&req, &ctx, &end, NOW);
    assert!(kept.upgraded);
    // openai learnt twice, in order: 1500 -> 1400 -> 1400
    let m = g.advanced_router.metrics.get("openai").unwrap();
    assert_eq!((m.avg_latency_ms, m.success_rate, m.cost_per_1k_tokens), (1_400, 959_500, 30_000));
    assert_eq!(m.provider_id, "openai");
    let m = g.advanced_router.metrics.get("ollama").unwrap();
    assert_eq!(m.success_rate, 855_000);
    assert_eq!(g.advanced_router.metrics.get("anthropic").unwrap().avg_latency_ms, 1_100);
    assert_eq!(g.advanced_router.metrics.len(), 3);
    // only the provider that the stream ended on is charged for
    let ledger = g.billing_manager.user_billing.get("t").unwrap();
    assert_eq!((ledger.usage_tracker.requests_today, ledger.usage_tracker.tokens_today, ledger.total_spend_usd), (1, 100, 1_500));
    assert_eq!(g.billing_manager.usage_history.get("t").unwrap().len(), 1);

    // a stream that ended on no provider: the work is learnt from, nothing is charged
    let mut g = gateway(false);
    g.check_admission(&req, &ctx, NOW).unwrap();
    let mut end = ended(None, 0, false, 500);
    end.others = vec![work("openai", 500, true, 60, 2)];
    let kept = g.settle_stream(&req, &ctx, &end, NOW);
    assert_eq!((kept.provider, kept.cost_usd), (None, 0));
    assert_eq!(g.advanced_router.metrics.get("openai").unwrap().avg_latency_ms, 1_400);
    let ledger = g.billing_manager.user_billing.get("t").unwrap();
    assert_eq!((ledger.usage_tracker.requests_today, ledger.total_spend_usd), (0, 0));
    assert!(g.billing_manager.usage_history.get("t").is_none());

    // what a driver did
    let mut d = omen::multiplexer::StreamDriver::new("openai".to_string());
    d.stream_provider_with_events(omen::multiplexer::DriverItem::Chunk("a".to_string()), 5);
    d.stream_provider_with_events(omen::multiplexer::DriverItem::Chunk("b".to_string()), 9);
    let w = d.work(12);
    assert_eq!((w.provider_id.as_str(), w.latency_ms, w.success, w.cost_usd, w.tokens), ("openai", 12, true, 60, 2));
    d.stream_provider_with_events(omen::multiplexer::DriverItem::Failed("gone".to_string()), 20);
    let w = d.work(21);
    assert_eq!((w.success, w.tokens, w.cost_usd), (false, 2, 60));
    let mut d = omen::multiplexer::StreamDriver::new("anthropic".to_string());
    for _ in 0..1_000 {
        d.stream_provider_with_events(omen::multiplexer::DriverItem::Chunk("x".to_string()), 1);
    }
    d.stream_provider_with_events(omen::multiplexer::DriverItem::Cancelled, 2);
    let w = d.work(3);
    assert_eq!((w.success, w.tokens, w.cost_usd), (true, 1_000, 15_000));
}

#[test]
fn the_gateway_hands_on_to_its_parts() {
    let mut g = gateway(false);
    assert_eq!(OmenRouter::list_providers(&reports()), vec!["openai", "anthropic", "ollama", "azure"]);
    g.update_provider_metrics("google", 2_000, true, 0, 0);
    assert_eq!(g.advanced_router.metrics.get("google").unwrap().avg_latency_ms, 1_100);
    g.set_user_budget("u", 5);
    assert_eq!(g.advanced_router.cost_budgets.get("u"), Some(&5));
    assert!(g.update_user_tier("u", "pro", 1).is_ok());
    assert!(g.update_user_tier("u", "nope", 1).is_err());
    let stats = g.get_user_usage_stats("u", 2);
    assert_eq!((stats.tier.as_str(), stats.daily_requests), ("pro", 0));
    assert_eq!(g.get_billing_summary(2).len(), 1);
    assert_eq!(OmenRouter::get_available_billing_tiers().len(), 3);
    g.check_admission(&request("m", "x"), &context(Some("u"), "general"), 1_000).unwrap();
    let status = g.get_rate_limit_status("u", 2_000);
    assert_eq!((status.requests_used, status.requests_limit, status.window_reset_in_seconds), (1, 200, 59));
    g.cleanup_rate_limit_buckets(121_000);
    assert_eq!(g.rate_limiter.buckets.len(), 0);
    assert!(matches!(OmenRouter::check_provider_health("azure", &reports()), Ok(false)));
    assert!(matches!(OmenRouter::check_provider_health("openai", &reports()), Ok(true)));
    assert!(matches!(
        OmenRouter::check_provider_health("bedrock", &reports()),
        Err(OmenError::ProviderUnavailable(ref m)) if m == "Provider bedrock not found"
    ));
    let mut o = OmenRouter::create_ghost_orchestrator();
    assert_eq!((o.active_sessions.len(), o.rate_limiter.adaptive_limiter.buckets.len()), (0, 0));
    let r = omen::ghost_ai::GhostOrchestrator::create_ghostllm_request("u".to_string(), vec![text_message("user", "hi")], 3);
    let (_, ctx) = g.process_ghost_request(&mut o, r, 4, 3_000).unwrap();
    assert_eq!(ctx.request_id, 4);
    assert_eq!(o.active_sessions.len(), 1);
    let made = OmenRouter::create_request_context(
        &{
            let mut r = request("m", "Explain");
            r.tags = Some(vec![("a".to_string(), "1".to_string()), ("intent".to_string(), "mine".to_string()), ("a".to_string(), "2".to_string())]);
            r
        },
        9,
    );
    assert_eq!(made.request_id, 9);
    assert_eq!(made.intent.as_deref(), Some("explanation"));
    assert_eq!(made.tags, vec![("intent".to_string(), "mine".to_string()), ("a".to_string(), "2".to_string())]);
    assert_eq!(OmenRouter::classify_intent(&request("m", "a REGEX")).as_deref(), Some("regex"));
}

#[test]
fn a_deadline_breach_charges_nothing() {
    // max_latency_ms: 500; every driver still puts out whitespace at t = 500
    let mut g = gateway(false);
    let mut req = request("auto", "2+2");
    let mut d = directive("race");
    d.max_latency_ms = Some(500);
    req.omen = Some(d);
    let ctx = context(Some("t"), "general");
    g.check_admission(&req, &ctx, NOW).unwrap();
    let plan = g.stream_chat_completion(&req, &ctx, &reports()).unwrap();
    assert_eq!(plan.multiplexer.max_latency, 500);
    let token = |p: &str, t: u64| {
        omen::coordinator::CoordinatorInput::Event(omen::multiplexer::StreamEvent::Token {
            provider_id: p.to_string(),
            chunk: " \n".to_string(),
            latency_ms: t,
        })
    };
    let first = plan.launch.immediate[0].clone();
    let second = plan.launch.immediate[1].clone();
    let mut c = omen::coordinator::RaceCoordinator::new(plan.multiplexer.budget_cap, plan.multiplexer.min_useful_tokens);
    c.step(token(&first, 100));
    c.step(token(&second, 300));
    let out = c.step(omen::coordinator::CoordinatorInput::Deadline);
    assert!(matches!(out.emit, omen::coordinator::Emit::Failure(OmenError::Timeout)));
    assert!(matches!(out.cancel, omen::coordinator::Cancel::All));
    assert!(out.stop && c.winner.is_none());
    // no provider was committed to, so there is nothing to settle
    let ledger = g.billing_manager.user_billing.get("t").unwrap();
    assert_eq!((ledger.usage_tracker.requests_today, ledger.total_spend_usd), (0, 0));
    assert_eq!(g.advanced_router.metrics.len(), 0);
}

#[test]
fn text_is_counted_in_characters() {
    // eight characters of two bytes each are two tokens, not four
    let text = "\u{e9}".repeat(8);
    assert_eq!(text.len(), 16);
    assert_eq!(OmenRouter::estimate_input_tokens(&request("m", &text)), 2);
    // nine characters are three tokens
    assert_eq!(OmenRouter::estimate_input_tokens(&request("m", &"\u{4e2d}".repeat(9))), 3);
    let mut r = request("m", "\u{e9}\u{e9}");
    r.messages.push(text_message("user", "\u{e9}\u{e9}\u{e9}"));
    assert_eq!(OmenRouter::estimate_input_tokens(&r), 2);
}

#[test]
fn a_stream_is_planned_wherever_something_can_be_driven() {
    let g = gateway(false);
    let ctx = context(Some("t"), "general");
    let mut req = request("auto", "2+2");
    req.omen = Some(directive("race"));
    let plan = g.stream_chat_completion(&req, &ctx, &reports()).unwrap();
    assert_eq!(plan.launch.immediate.len(), 2);
    assert_eq!(plan.launch.coordination, Coordination::Race);

    // a fan-out of zero selects nothing, so there is nothing to drive
    let mut d = directive("race");
    d.k = Some(0);
    req.omen = Some(d);
    assert!(matches!(
        g.stream_chat_completion(&req, &ctx, &reports()),
        Err(OmenError::ProviderUnavailable(ref m)) if m == "No providers available"
    ));
    let mut d = directive("single");
    d.k = Some(0);
    req.omen = Some(d);
    assert!(matches!(
        g.stream_chat_completion(&req, &ctx, &reports()),
        Err(OmenError::ProviderUnavailable(ref m)) if m == "No providers available"
    ));

    // no provider is up
    req.omen = Some(directive("race"));
    let down = vec![report("openai", false, &["gpt-4"]), report("azure", false, &["gpt-4"])];
    assert!(matches!(
        g.stream_chat_completion(&req, &ctx, &down),
        Err(OmenError::ProviderUnavailable(ref m)) if m == "No suitable providers found"
    ));
    assert!(matches!(
        g.stream_chat_completion(&req, &ctx, &vec![]),
        Err(OmenError::ProviderUnavailable(ref m)) if m == "No suitable providers found"
    ));
}

#[test]
fn a_tenant_s_budget_decides_the_stream() {
    // for an analysis the best-marked candidate is one that costs money
    let ctx = context(Some("t"), "analysis");
    let mut req = request("auto", "2+2");
    req.omen = Some(directive("race"));
    // nothing left and every candidate costs money
    let mut g = gateway(false);
    g.set_user_budget("t", 0);
    let paid = vec![report("openai", true, &["gpt-4"]), report("anthropic", true, &["model-a"])];
    assert!(matches!(g.stream_chat_completion(&req, &ctx, &paid), Err(OmenError::BudgetExceeded)));
    // a free candidate is forced, and a race of two drives it alone
    let with = |strategy: &str, k: Option<u32>| {
        let mut d = directive(strategy);
        d.k = k;
        d.providers = Some(vec!["openai".to_string(), "ollama".to_string()]);
        Some(d)
    };
    req.omen = with("race", None);
    let plan = g.stream_chat_completion(&req, &ctx, &reports()).unwrap();
    assert_eq!(plan.launch.immediate, vec!["ollama".to_string()]);
    // a race of none drives nothing; a speculative run still starts the local one
    req.omen = with("race", Some(0));
    assert!(matches!(
        g.stream_chat_completion(&req, &ctx, &reports()),
        Err(OmenError::ProviderUnavailable(ref m)) if m == "No providers available"
    ));
    req.omen = with("speculate_k", Some(0));
    let plan = g.stream_chat_completion(&req, &ctx, &reports()).unwrap();
    assert_eq!(plan.launch.immediate, vec!["ollama".to_string()]);
    assert!(plan.launch.delayed.is_empty());
    // with money left the ranking stands
    g.set_user_budget("t", 1_000_000);
    req.omen = with("race", None);
    let plan = g.stream_chat_completion(&req, &ctx, &reports()).unwrap();
    assert_eq!(plan.launch.immediate.len(), 2);
}

#[test]
fn a_streamed_request_goes_step_by_step() {
    let mut g = gateway(false);
    let ctx = context(Some("t"), "general");
    let mut req = request("auto", "12345678");
    req.stream = true;
    req.omen = Some(directive("race"));
    let (state, action) = g.stream_pipeline(StreamState::Start, StreamInput::Begin, &req, &ctx, NOW);
    assert!(matches!(state, StreamState::AwaitingProbe));
    assert!(matches!(action, StreamAction::Probe));
    let (state, action) = g.stream_pipeline(state, StreamInput::Probed(reports()), &req, &ctx, NOW);
    assert!(matches!(state, StreamState::Streaming));
    let plan = match action {
        StreamAction::Launch(plan) => plan,
        other => panic!("no launch: {:?}", other),
    };
    assert_eq!(plan.launch.immediate.len(), 2);
    let end = ended(Some("anthropic"), 98, true, 200);
    let (state, action) = g.stream_pipeline(state, StreamInput::Ended(end), &req, &ctx, NOW + 900);
    assert!(matches!(state, StreamState::Finished));
    assert!(matches!(action, StreamAction::Close(ref kept) if kept.cost_usd == 1_500 && !kept.upgraded));
    let ledger = g.billing_manager.user_billing.get("t").unwrap();
    assert_eq!((ledger.usage_tracker.requests_today, ledger.usage_tracker.tokens_today, ledger.total_spend_usd), (1, 100, 1_500));
    assert_eq!(g.advanced_router.metrics.get("anthropic").unwrap().avg_latency_ms, 1_100);

    // an event that does not fit the state fails the request and changes nothing
    let (state, action) = g.stream_pipeline(StreamState::Start, StreamInput::Probed(reports()), &req, &ctx, NOW);
    assert!(matches!(state, StreamState::Finished));
    assert!(matches!(action, StreamAction::Fail(OmenError::Internal(_))));
    let (state, action) = g.stream_pipeline(StreamState::Finished, StreamInput::Begin, &req, &ctx, NOW);
    assert!(matches!((state, action), (StreamState::Finished, StreamAction::Fail(OmenError::Internal(_)))));
    assert_eq!(g.billing_manager.user_billing.get("t").unwrap().usage_tracker.requests_today, 1);
}

#[test]
fn a_streamed_request_fails_where_a_step_refuses_it() {
    let mut g = gateway(false);
    let ctx = context(Some("t"), "general");
    let mut bad = request("auto", "x");
    bad.messages.clear();
    let (state, action) = g.stream_pipeline(StreamState::Start, StreamInput::Begin, &bad, &ctx, NOW);
    assert!(matches!(state, StreamState::Finished));
    assert!(matches!(action, StreamAction::Fail(OmenError::InvalidRequest(_))));
    assert_eq!(g.billing_manager.user_billing.len(), 0);

    let req = request("auto", "2+2");
    let (state, action) = g.stream_pipeline(StreamState::AwaitingProbe, StreamInput::Probed(vec![]), &req, &ctx, NOW);
    assert!(matches!(state, StreamState::Finished));
    assert!(matches!(
        action,
        StreamAction::Fail(OmenError::ProviderUnavailable(ref m)) if m == "No suitable providers found"
    ));
    g.set_user_budget("t", 0);
    let paid = vec![report("openai", true, &["gpt-4"])];
    let (_, action) = g.stream_pipeline(StreamState::AwaitingProbe, StreamInput::Probed(paid), &req, &ctx, NOW);
    assert!(matches!(action, StreamAction::Fail(OmenError::BudgetExceeded)));
}

#[test]
fn a_stream_that_times_out_uncommitted_charges_nothing() {
    let mut g = gateway(false);
    let ctx = context(Some("t"), "general");
    // the tenant has a history before the request
    g.settle_stream(&request("auto", "12345678"), &ctx, &ended(Some("openai"), 10, true, 100), NOW - 5_000);
    let before = {
        let l = g.billing_manager.user_billing.get("t").unwrap();
        (
            l.usage_tracker.requests_today,
            l.usage_tracker.tokens_today,
            l.usage_tracker.cost_today_usd,
            l.monthly_spend_usd,
            l.total_spend_usd,
            g.billing_manager.usage_history.get("t").unwrap().len(),
        )
    };
    assert_eq!(before, (1, 12, 360, 360, 360, 1));
    let learnt = g.advanced_router.metrics.get("openai").unwrap().clone();

    let mut req = request("auto", "2+2");
    let mut d = directive("race");
    d.max_latency_ms = Some(500);
    req.omen = Some(d);
    let (state, action) = g.stream_pipeline(StreamState::Start, StreamInput::Begin, &req, &ctx, NOW);
    assert!(matches!(action, StreamAction::Probe));
    let (state, action) = g.stream_pipeline(state, StreamInput::Probed(reports()), &req, &ctx, NOW);
    let plan = match action {
        StreamAction::Launch(plan) => plan,
        other => panic!("no launch: {:?}", other),
    };
    let blank = |p: &str, t: u64| {
        omen::coordinator::CoordinatorInput::Event(omen::multiplexer::StreamEvent::Token {
            provider_id: p.to_string(),
            chunk: " ".to_string(),
            latency_ms: t,
        })
    };
    let outcome = plan.multiplexer.race_providers(vec![
        blank(&plan.launch.immediate[0], 100),
        blank(&plan.launch.immediate[1], 300),
        omen::coordinator::CoordinatorInput::Deadline,
    ]);
    assert!(matches!(outcome.items[..], [Err(OmenError::Timeout)]));
    assert_eq!(outcome.committed, None);
    let end = StreamEnd {
        provider: outcome.committed,
        forwarded: 0,
        success: false,
        latency_ms: 500,
        upgraded: outcome.upgraded,
        others: vec![],
    };
    let (state, action) = g.stream_pipeline(state, StreamInput::Ended(end), &req, &ctx, NOW + 500);
    assert!(matches!(
        (state, action),
        (StreamState::Finished, StreamAction::Close(ref kept)) if kept.provider.is_none() && kept.cost_usd == 0
    ));
    let l = g.billing_manager.user_billing.get("t").unwrap();
    let after = (
        l.usage_tracker.requests_today,
        l.usage_tracker.tokens_today,
        l.usage_tracker.cost_today_usd,
        l.monthly_spend_usd,
        l.total_spend_usd,
        g.billing_manager.usage_history.get("t").unwrap().len(),
    );
    assert_eq!(after, before);
    let m = g.advanced_router.metrics.get("openai").unwrap();
    assert_eq!((m.avg_latency_ms, m.success_rate), (learnt.avg_latency_ms, learnt.success_rate));
    assert_eq!(g.advanced_router.metrics.len(), 1);
}
