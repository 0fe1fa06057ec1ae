use omen::error::OmenError;
use omen::routing::{
    best_index, cheapest_index, ema_update, top_k, AdvancedRouter, ProviderMetrics, RoutingStrategy,
};
use omen::types::{ChatCompletionRequest, ChatMessage, MessageContent, RequestContext};

fn request(text: &str, max_tokens: Option<u32>) -> ChatCompletionRequest {
    ChatCompletionRequest {
        model: "auto".to_string(),
        messages: vec![ChatMessage {
            role: "user".to_string(),
            content: MessageContent::Text(text.to_string()),
            name: None,
            tool_calls: None,
            tool_call_id: None,
        }],
        temperature: None,
        max_tokens,
        stream: false,
        top_p: None,
        frequency_penalty: None,
        presence_penalty: None,
        stop: None,
        tools: None,
        tool_choice: None,
        tags: None,
        omen: None,
    }
}

fn context(intent: Option<&str>, user: Option<&str>) -> RequestContext {
    RequestContext {
        request_id: 1,
        user_id: user.map(|u| u.to_string()),
        api_key: None,
        intent: intent.map(|i| i.to_string()),
        tags: vec![],
    }
}

fn ids(list: &[&str]) -> Vec<String> {
    list.iter().map(|s| s.to_string()).collect()
}

#[test]
fn the_average_moves_a_tenth_of_the_way() {
    assert_eq!(ema_update(1000, 2000), 1100);
    assert_eq!(ema_update(2000, 1000), 1900);
    assert_eq!(ema_update(700, 700), 700);
    // rounding is towards the sample, so the average arrives
    assert_eq!(ema_update(5, 0), 4);
    assert_eq!(ema_update(0, 5), 1);
    assert_eq!(ema_update(1, 0), 0);
    assert_eq!(ema_update(0, 1), 1);
    assert_eq!(ema_update(0, u64::MAX), 1_844_674_407_370_955_162);
    assert_eq!(ema_update(u64::MAX, 0), 16_602_069_666_338_596_453);
}

#[test]
fn repeated_samples_close_in_geometrically() {
    let x = 2000u64;
    let start = 1000u64;
    let mut m = start;
    let mut bound = (x - start) as f64;
    let expected = [1100u64, 1190, 1271, 1344, 1410, 1469, 1523, 1571, 1614, 1653];
    for e in expected {
        m = ema_update(m, x);
        bound *= 0.9;
        assert_eq!(m, e);
        assert!(((x - m) as f64) <= bound + 1e-9);
    }
    for _ in 0..200 {
        m = ema_update(m, x);
    }
    assert_eq!(m, x);
}

#[test]
fn a_provider_starts_with_its_seeded_metrics() {
    let router = AdvancedRouter::new();
    let m = router.metrics_for("ollama");
    assert_eq!(m.provider_id, "ollama");
    assert_eq!((m.avg_latency_ms, m.cost_per_1k_tokens, m.quality_score, m.availability), (500, 0, 700_000, 950_000));
    assert_eq!((m.success_rate, m.current_load), (950_000, 500_000));
    let table = [
        ("openai", 1500, 30_000, 900_000, 990_000),
        ("anthropic", 1200, 15_000, 950_000, 980_000),
        ("google", 1000, 1_250, 850_000, 970_000),
        ("azure", 1800, 30_000, 900_000, 990_000),
        ("xai", 1300, 0, 800_000, 950_000),
        ("bedrock", 2000, 15_000, 900_000, 990_000),
        ("somebody", 1000, 10_000, 800_000, 990_000),
    ];
    for (id, latency, cost, quality, availability) in table {
        let m = router.metrics_for(id);
        assert_eq!((m.avg_latency_ms, m.cost_per_1k_tokens, m.quality_score, m.availability), (latency, cost, quality, availability), "{}", id);
    }
    let d = ProviderMetrics::default();
    assert_eq!((d.avg_latency_ms, d.success_rate, d.cost_per_1k_tokens, d.quality_score, d.current_load, d.availability), (1000, 950_000, 10_000, 800_000, 500_000, 990_000));
}

#[test]
fn the_router_learns_from_a_completion() {
    let mut router = AdvancedRouter::new();
    router.update_metrics_from_response("openai", 500, true, 60, 1000);
    let m = router.metrics.get("openai").unwrap();
    assert_eq!(m.avg_latency_ms, 1400);
    assert_eq!(m.success_rate, 955_000);
    assert_eq!(m.cost_per_1k_tokens, 27_006);
    assert_eq!((m.quality_score, m.current_load, m.availability), (900_000, 500_000, 990_000));
    router.update_metrics_from_response("openai", 1400, false, 1_000_000, 0);
    let m = router.metrics.get("openai").unwrap();
    assert_eq!(m.avg_latency_ms, 1400);
    assert_eq!(m.success_rate, 859_500);
    // no tokens, no news of the price
    assert_eq!(m.cost_per_1k_tokens, 27_006);
    // the marks stay under the provider's name, and no other entry appears
    assert_eq!(m.provider_id, "openai");
    assert_eq!(router.metrics.len(), 1);
    router.update_metrics_from_response("somewhere", 100, true, 0, 0);
    assert_eq!(router.metrics.get("somewhere").unwrap().provider_id, "somewhere");
    assert_eq!(router.metrics.get("openai").unwrap().provider_id, "openai");
    assert_eq!(router.metrics.len(), 2);
}

#[test]
fn marks_for_latency_and_cost() {
    assert_eq!(AdvancedRouter::calculate_latency_score(0, 2000), 1_000_000);
    assert_eq!(AdvancedRouter::calculate_latency_score(500, 2000), 950_000);
    assert_eq!(AdvancedRouter::calculate_latency_score(2000, 2000), 800_000);
    assert_eq!(AdvancedRouter::calculate_latency_score(2001, 2000), 999_500);
    assert_eq!(AdvancedRouter::calculate_latency_score(3000, 2000), 500_000);
    assert_eq!(AdvancedRouter::calculate_latency_score(4000, 2000), 0);
    assert_eq!(AdvancedRouter::calculate_latency_score(u64::MAX, 1), 0);
    assert_eq!(AdvancedRouter::calculate_cost_score(0), 1_000_000);
    assert_eq!(AdvancedRouter::calculate_cost_score(30_000), 700_000);
    assert_eq!(AdvancedRouter::calculate_cost_score(99_999), 10);
    assert_eq!(AdvancedRouter::calculate_cost_score(100_000), 0);
    assert_eq!(AdvancedRouter::calculate_cost_score(u64::MAX), 0);
    assert_eq!(AdvancedRouter::latency_target("code"), 2000);
    assert_eq!(AdvancedRouter::latency_target("tests"), 3000);
    assert_eq!(AdvancedRouter::latency_target("analysis"), 5000);
    assert_eq!(AdvancedRouter::latency_target("regex"), 3000);
    assert_eq!(AdvancedRouter::latency_target("explanation"), 3000);
    assert_eq!(AdvancedRouter::latency_target("general"), 3000);
}

#[test]
fn weights_follow_the_intent() {
    let mut router = AdvancedRouter::new();
    assert_eq!(router.get_intent_weights("code"), (200_000, 500_000, 200_000, 100_000));
    assert_eq!(router.get_intent_weights("tests"), (300_000, 400_000, 200_000, 100_000));
    assert_eq!(router.get_intent_weights("analysis"), (200_000, 300_000, 400_000, 100_000));
    assert_eq!(router.get_intent_weights("explanation"), (400_000, 200_000, 300_000, 100_000));
    assert_eq!(router.get_intent_weights("regex"), (200_000, 600_000, 100_000, 100_000));
    assert_eq!(router.get_intent_weights("general"), (300_000, 400_000, 200_000, 100_000));
    router.set_strategy(RoutingStrategy { cost_weight: 1, latency_weight: 2, quality_weight: 3, reliability_weight: 4 });
    assert_eq!(router.get_intent_weights("general"), (1, 2, 3, 4));
    assert_eq!(router.get_intent_weights("code"), (200_000, 500_000, 200_000, 100_000));
}

#[test]
fn scores_of_the_known_providers() {
    let router = AdvancedRouter::new();
    let score = |id: &str, intent: &str| {
        router.calculate_provider_score(&router.metrics_for(id), AdvancedRouter::latency_target(intent), intent)
    };
    assert_eq!(score("ollama", "code"), 814_725);
    assert_eq!(score("anthropic", "code"), 803_790);
    assert_eq!(score("openai", "code"), 755_145);
    assert_eq!(score("ollama", "analysis"), 777_825);
    assert_eq!(score("openai", "analysis"), 788_445);
    // a loaded provider loses up to a fifth, a dead one all reliability
    let mut m = router.metrics_for("ollama");
    m.current_load = 1_000_000;
    assert_eq!(router.calculate_provider_score(&m, 2000, "code"), 724_200);
    m.current_load = 0;
    m.success_rate = 0;
    assert_eq!(router.calculate_provider_score(&m, 2000, "code"), 815_000);
    // rates above one count as one
    m.quality_score = u64::MAX;
    m.success_rate = u64::MAX;
    m.availability = u64::MAX;
    m.current_load = u64::MAX;
    assert_eq!(router.calculate_provider_score(&m, 2000, "code"), 780_000);
}

#[test]
fn the_first_k_by_score_keep_the_order_of_ties() {
    assert_eq!(top_k(&vec![5, 9, 9, 1], 3), vec![1, 2, 0]);
    assert_eq!(top_k(&vec![5, 9, 9, 1], 9), vec![1, 2, 0, 3]);
    assert_eq!(top_k(&vec![5, 9, 9, 1], 0), Vec::<usize>::new());
    assert_eq!(top_k(&vec![], 2), Vec::<usize>::new());
    assert_eq!(top_k(&vec![7, 7, 7], 2), vec![0, 1]);
    assert_eq!(best_index(&vec![3, 8, 8, 2]), 1);
    assert_eq!(cheapest_index(&vec![3, 2, 8, 2]), 1);
}

#[test]
fn selection_ranks_the_candidates() {
    let router = AdvancedRouter::new();
    let d = router
        .select_optimal_providers(&ids(&["openai", "anthropic", "ollama"]), &request("2+2", None), &context(Some("code"), None), 2)
        .unwrap();
    assert_eq!(d.selected_providers, ids(&["ollama", "anthropic"]));
    assert_eq!(d.selected_indices, vec![2, 1]);
    assert_eq!(d.strategy_used, "advanced_weighted_code");
    assert_eq!(d.estimated_latency_ms, 500);
    // the local provider is free; the runner-up is paid a fifth of 500 tokens
    assert_eq!(d.estimated_cost, 1_500);
    assert_eq!(d.confidence_score, 1_000_000);
    assert_eq!(
        d.reasoning,
        vec![
            "Selected 2 providers for 'code' intent".to_string(),
            "Target latency: 2000ms".to_string(),
            "#1: ollama (score: 814725, latency: 500ms, cost: 0/1k, quality: 700000)".to_string(),
            "#2: anthropic (score: 803790, latency: 1200ms, cost: 15000/1k, quality: 950000)".to_string(),
            "Using race strategy for optimal latency".to_string(),
        ]
    );
    let d = router
        .select_optimal_providers(&ids(&["openai", "ollama"]), &request("2+2", Some(1000)), &context(Some("analysis"), None), 1)
        .unwrap();
    assert_eq!(d.selected_providers, ids(&["openai"]));
    assert_eq!(d.estimated_cost, 30_000);
    assert_eq!(d.estimated_latency_ms, 1500);
    assert_eq!(d.confidence_score, 940_500);
    assert_eq!(d.reasoning.len(), 3);
    // no intent counts as general; unknown providers tie and keep their order
    let d = router
        .select_optimal_providers(&ids(&["y", "x", "z"]), &request("hello there, friend", None), &context(None, None), 2)
        .unwrap();
    assert_eq!(d.selected_providers, ids(&["y", "x"]));
    assert_eq!(d.strategy_used, "advanced_weighted_general");
    // 4 tokens in, 500 and 100 out, at a cent per thousand
    assert_eq!(d.estimated_cost, 5_040 + 1_040);
    let d = router.select_optimal_providers(&ids(&[]), &request("x", None), &context(None, None), 2).unwrap();
    assert!(d.selected_providers.is_empty());
    assert_eq!((d.estimated_latency_ms, d.confidence_score, d.estimated_cost), (3000, 1_000_000, 0));
}

#[test]
fn a_budget_can_force_the_cheapest_or_refuse() {
    let mut router = AdvancedRouter::new();
    let req = request("2+2", None);
    let ctx = context(Some("analysis"), Some("u"));
    // no budget set: the ranking stands
    let d = router.select_optimal_providers(&ids(&["openai", "ollama"]), &req, &ctx, 2).unwrap();
    assert_eq!(d.selected_providers, ids(&["openai", "ollama"]));
    // nothing left: only what costs nothing
    router.set_user_budget("u", 0);
    let d = router.select_optimal_providers(&ids(&["openai", "ollama"]), &req, &ctx, 2).unwrap();
    assert_eq!(d.selected_providers, ids(&["ollama"]));
    assert_eq!(d.selected_indices, vec![1]);
    let r = router.select_optimal_providers(&ids(&["openai", "anthropic"]), &req, &ctx, 2);
    assert!(matches!(r, Err(OmenError::BudgetExceeded)));
    // not enough for the best, which is also the cheapest
    router.set_user_budget("u", 7_499);
    assert!(router.select_optimal_providers(&ids(&["openai", "anthropic"]), &req, &ctx, 2).is_err());
    // enough for the best: the ranking stands among those that the budget can pay for
    router.set_user_budget("u", 7_500);
    let d = router.select_optimal_providers(&ids(&["openai", "anthropic"]), &req, &ctx, 2).unwrap();
    assert_eq!(d.selected_providers, ids(&["anthropic"]));
    assert_eq!(d.selected_indices, vec![1]);
    router.set_user_budget("u", 14_999);
    let d = router.select_optimal_providers(&ids(&["openai", "anthropic"]), &req, &ctx, 2).unwrap();
    assert_eq!(d.selected_providers, ids(&["anthropic"]));
    router.set_user_budget("u", 15_000);
    let d = router.select_optimal_providers(&ids(&["openai", "anthropic"]), &req, &ctx, 2).unwrap();
    assert_eq!(d.selected_providers, ids(&["anthropic", "openai"]));
    // one micro-dollar short of the best
    router.set_user_budget("u", 14_999);
    let d = router.select_optimal_providers(&ids(&["openai", "ollama"]), &req, &ctx, 2).unwrap();
    assert_eq!(d.selected_providers, ids(&["ollama"]));
    router.set_user_budget("u", 15_000);
    let d = router.select_optimal_providers(&ids(&["openai", "ollama"]), &req, &ctx, 2).unwrap();
    assert_eq!(d.selected_providers, ids(&["openai", "ollama"]));
    // in debt
    router.set_user_budget("u", -1);
    assert!(matches!(router.select_optimal_providers(&ids(&["ollama"]), &req, &ctx, 2), Err(OmenError::BudgetExceeded)));
    // another user is not bound by it
    assert!(router.select_optimal_providers(&ids(&["ollama"]), &req, &context(None, Some("v")), 2).is_ok());
}

#[test]
fn estimates_for_a_selection() {
    let router = AdvancedRouter::new();
    let picked = vec![router.metrics_for("google"), router.metrics_for("bedrock")];
    assert_eq!(AdvancedRouter::estimate_response_latency(&picked), 1000);
    assert_eq!(AdvancedRouter::estimate_response_latency(&vec![]), 3000);
    // reliabilities of 921500 and 940500, and a tenth for racing
    assert_eq!(AdvancedRouter::calculate_confidence_score(&picked), 1_000_000);
    assert_eq!(AdvancedRouter::calculate_confidence_score(&picked[..1].to_vec()), 921_500);
    let req = request("0123456789abcdef", Some(2000));
    assert_eq!(AdvancedRouter::estimate_input(&req), 4);
    assert_eq!(AdvancedRouter::estimate_total_cost(&picked, &req), 2_505 + 6_060);
}

#[test]
fn nothing_left_selects_only_what_costs_nothing() {
    let mut router = AdvancedRouter::new();
    let req = request("2+2", None);
    // for a general request the local provider has the best marks
    let ctx = context(Some("general"), Some("u"));
    let d = router.select_optimal_providers(&ids(&["ollama", "openai"]), &req, &ctx, 2).unwrap();
    assert_eq!(d.selected_providers, ids(&["ollama", "openai"]));
    router.set_user_budget("u", 0);
    for list in [&["ollama", "openai"][..], &["openai", "ollama"][..], &["openai", "anthropic", "ollama", "google"][..]] {
        for k in [1, 2, 5] {
            let d = router.select_optimal_providers(&ids(list), &req, &ctx, k).unwrap();
            assert_eq!(d.selected_providers, ids(&["ollama"]));
            assert_eq!(d.estimated_cost, 0);
        }
    }
    // no fan-out, nothing selected
    let d = router.select_optimal_providers(&ids(&["ollama", "openai"]), &req, &ctx, 0).unwrap();
    assert!(d.selected_providers.is_empty());
    // nothing that costs nothing
    for list in [&["openai"][..], &["openai", "anthropic", "google"][..]] {
        let r = router.select_optimal_providers(&ids(list), &req, &ctx, 2);
        assert!(matches!(r, Err(OmenError::BudgetExceeded)));
    }
    // the places that a budget leaves, in order
    assert_eq!(omen::routing::places_within(&vec![5, 0, 7, 5, 6], 5), vec![0, 1, 3]);
    assert_eq!(omen::routing::top_k_within(&vec![10, 30, 50, 30, 40], &vec![5, 0, 7, 5, 6], 5, 2), vec![1, 3]);
    assert_eq!(omen::routing::top_k_within(&vec![10, 30, 50, 30, 40], &vec![5, 0, 7, 5, 6], 5, 9), vec![1, 3, 0]);
    assert!(omen::routing::top_k_within(&vec![10], &vec![5], 4, 1).is_empty());
}
