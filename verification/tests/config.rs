use omen::config::{
    default_auto_swap, default_bind, default_budget, default_cache_ttl, default_db_url,
    default_log_level, default_max_cache_size, default_port, default_provider_health_ttl,
    default_rate_limit_ttl, default_redis_url, default_response_cache_ttl,
    default_session_cache_ttl, default_timeout, env_get, parse_dollars, split_commas, Config,
};
use omen::providers::{
    estimate_context_length, get_azure_context_length, get_azure_pricing,
    get_openai_context_length, get_openai_pricing, ProviderRegistry,
};
use omen::types::ProviderType;

fn env(pairs: &[(&str, &str)]) -> Vec<(String, String)> {
    pairs.iter().map(|(k, v)| (k.to_string(), v.to_string())).collect()
}

#[test]
fn defaults() {
    assert_eq!(default_bind(), "0.0.0.0");
    assert_eq!(default_port(), 8080);
    assert_eq!(default_timeout(), 30);
    assert_eq!(default_db_url(), "sqlite:///data/omen.db");
    assert_eq!(default_budget(), 100_000_000);
    assert!(!default_auto_swap());
    assert_eq!(default_log_level(), "info");
    assert_eq!(default_redis_url(), "redis://localhost:6379");
    assert_eq!(default_cache_ttl(), 3600);
    assert_eq!(default_response_cache_ttl(), 1800);
    assert_eq!(default_session_cache_ttl(), 7200);
    assert_eq!(default_rate_limit_ttl(), 60);
    assert_eq!(default_provider_health_ttl(), 300);
    assert_eq!(default_max_cache_size(), 1024);
    let c = Config::default();
    assert_eq!((c.server.bind.as_str(), c.server.port, c.server.timeout_seconds), ("0.0.0.0", 8080, 30));
    assert!(c.server.workers >= 1);
    assert_eq!(c.routing.prefer_local_for, vec!["code", "regex", "tests"]);
    assert_eq!(c.routing.budget_monthly_usd, 100_000_000);
    assert!(!c.cache.enabled && !c.auth.require_api_key && !c.providers.openai.enabled);
    assert_eq!(c.cache.max_cache_size_mb, 1024);
    let cache = omen::cache::CacheConfig::default();
    assert_eq!((cache.default_ttl_seconds, cache.response_cache_ttl, cache.session_cache_ttl), (3600, 1800, 7200));
    assert_eq!((cache.rate_limit_ttl, cache.provider_health_ttl, cache.max_cache_size_mb), (60, 300, 1024));
}

#[test]
fn the_environment_overrides_the_configuration() {
    let mut c = Config::default();
    c.apply_env_overrides(&env(&[
        ("OMEN_BIND", "127.0.0.1"),
        ("OMEN_PORT", "9090"),
        ("OMEN_DB_URL", "sqlite::memory:"),
        ("OMEN_REDIS_URL", "redis://r:1"),
        ("OMEN_OPENAI_API_KEY", "SECRET-REDACTED"),
        ("OMEN_XAI_API_KEY", "x"),
        ("OMEN_AZURE_OPENAI_ENDPOINT", "https://az"),
        ("OMEN_AZURE_OPENAI_API_KEY", "az-key"),
        ("OMEN_OLLAMA_ENDPOINTS", "http://a:1 , http://b:2,"),
        ("AWS_REGION", "eu-west-1"),
        ("AWS_ACCESS_KEY_ID", "id"),
        ("AWS_SECRET_ACCESS_KEY", "secret"),
        ("OMEN_ROUTER_PREFER_LOCAL_FOR", "code, analysis"),
        ("OMEN_BUDGET_MONTHLY_USD", "12.5"),
        ("OMEN_BIND", "ignored"),
    ]));
    assert_eq!((c.server.bind.as_str(), c.server.port), ("127.0.0.1", 9090));
    assert_eq!(c.storage.db, "sqlite::memory:");
    assert_eq!(c.storage.redis.as_deref(), Some("redis://r:1"));
    assert!(c.providers.openai.enabled);
    assert_eq!(c.providers.openai.api_key.as_deref(), Some("SECRET-REDACTED"));
    assert!(c.providers.xai.enabled && !c.providers.anthropic.enabled && !c.providers.google.enabled);
    assert!(c.providers.azure.enabled);
    assert_eq!(c.providers.azure.endpoint.as_deref(), Some("https://az"));
    assert_eq!(c.providers.azure.api_key.as_deref(), Some("az-key"));
    assert!(c.providers.ollama.enabled);
    assert_eq!(c.providers.ollama.endpoints, vec!["http://a:1", "http://b:2", ""]);
    assert!(c.providers.bedrock.enabled);
    assert_eq!(c.providers.bedrock.region.as_deref(), Some("eu-west-1"));
    assert!(c.providers.bedrock.session_token.is_none());
    assert_eq!(c.routing.prefer_local_for, vec!["code", "analysis"]);
    assert_eq!(c.routing.budget_monthly_usd, 12_500_000);
}

#[test]
fn what_does_not_parse_is_left_alone() {
    let mut c = Config::default();
    c.apply_env_overrides(&env(&[
        ("OMEN_PORT", "65536"),
        ("OMEN_BUDGET_MONTHLY_USD", "a lot"),
        ("OMEN_AZURE_OPENAI_API_KEY", "key without endpoint"),
        ("AWS_REGION", "r"),
        ("AWS_ACCESS_KEY_ID", "id"),
        ("AWS_SESSION_TOKEN", "t"),
    ]));
    assert_eq!(c.server.port, 8080);
    assert_eq!(c.routing.budget_monthly_usd, 100_000_000);
    assert!(!c.providers.azure.enabled && c.providers.azure.api_key.is_none());
    assert!(!c.providers.bedrock.enabled && c.providers.bedrock.region.is_none());
    assert!(c.providers.bedrock.session_token.is_none());
    c.apply_env_overrides(&env(&[("OMEN_PORT", "80x")]));
    assert_eq!(c.server.port, 8080);
    c.apply_env_overrides(&env(&[("OMEN_PORT", "65535")]));
    assert_eq!(c.server.port, 65535);
    let loaded = Config::load(None, &env(&[("OMEN_PORT", "1")]));
    assert_eq!(loaded.server.port, 1);
    let loaded = Config::load(Some(c), &env(&[]));
    assert_eq!(loaded.server.port, 65535);
}

#[test]
fn lists_and_amounts_are_parsed() {
    assert_eq!(split_commas("a,b"), vec!["a", "b"]);
    assert_eq!(split_commas(" a , b c ,\t"), vec!["a", "b c", ""]);
    assert_eq!(split_commas(""), vec![""]);
    assert_eq!(split_commas(","), vec!["", ""]);
    assert_eq!(parse_dollars("100"), Some(100_000_000));
    assert_eq!(parse_dollars("0.10"), Some(100_000));
    assert_eq!(parse_dollars("12.5"), Some(12_500_000));
    assert_eq!(parse_dollars("1.0000019"), Some(1_000_001));
    assert_eq!(parse_dollars("7."), Some(7_000_000));
    assert_eq!(parse_dollars("18446744073709.551615"), Some(u64::MAX));
    assert_eq!(parse_dollars("18446744073709.551616"), None);
    for bad in ["", ".5", "1.2.3", "1e3", "-1", "1,5", " 1", "+", "+3"] {
        assert_eq!(parse_dollars(bad), None, "{:?}", bad);
    }
    let e = env(&[("A", "1"), ("B", "2"), ("A", "3")]);
    assert_eq!(env_get(&e, "A").map(|s| s.as_str()), Some("1"));
    assert_eq!(env_get(&e, "B").map(|s| s.as_str()), Some("2"));
    assert!(env_get(&e, "C").is_none());
}

#[test]
fn the_registry_holds_what_the_configuration_starts() {
    let mut c = Config::default();
    assert_eq!(ProviderRegistry::new(&c).len(), 0);
    c.providers.openai.enabled = true;
    c.providers.anthropic.enabled = true;
    c.providers.anthropic.api_key = Some("k".to_string());
    c.providers.ollama.enabled = true;
    c.providers.azure.enabled = true;
    c.providers.azure.endpoint = Some("e".to_string());
    c.providers.bedrock.enabled = true;
    c.providers.bedrock.region = Some("r".to_string());
    c.providers.bedrock.access_key_id = Some("a".to_string());
    c.providers.bedrock.secret_access_key = Some("s".to_string());
    // openai lacks its key, ollama its endpoints, azure its key
    let r = ProviderRegistry::new(&c);
    assert_eq!(r.all(), vec!["anthropic", "bedrock"]);
    c.providers.openai.api_key = Some("k".to_string());
    c.providers.ollama.endpoints = vec!["http://localhost:11434".to_string()];
    c.providers.azure.api_key = Some("k".to_string());
    c.providers.xai.enabled = true;
    c.providers.xai.api_key = Some("k".to_string());
    c.providers.google.api_key = Some("k".to_string());
    let r = ProviderRegistry::new(&c);
    assert_eq!(r.all(), vec!["openai", "anthropic", "azure", "xai", "ollama", "bedrock"]);
    assert_eq!(r.len(), 6);
    assert_eq!(r.get("ollama"), Some(ProviderType::Ollama));
    assert_eq!(r.get("google"), None);
    assert!(ProviderType::Ollama.is_local() && !ProviderType::OpenAI.is_local());
    assert_eq!(ProviderType::Xai.to_display_string(), "xai");
    assert_eq!(ProviderType::Bedrock.to_display_string(), "bedrock");
}

#[test]
fn model_tables() {
    assert_eq!(get_openai_context_length("gpt-4"), 8192);
    assert_eq!(get_openai_context_length("gpt-4-32k-0613"), 32768);
    assert_eq!(get_openai_context_length("gpt-4o-mini"), 128000);
    assert_eq!(get_openai_context_length("gpt-3.5-turbo"), 16385);
    assert_eq!(get_openai_context_length("gpt-3.5-turbo-instruct"), 4096);
    assert_eq!(get_openai_context_length("gpt-5"), 4096);
    assert_eq!(get_openai_pricing("gpt-4"), (30_000, 60_000));
    assert_eq!(get_openai_pricing("gpt-4o"), (5_000, 15_000));
    assert_eq!(get_openai_pricing("gpt-4o-mini"), (150, 600));
    assert_eq!(get_openai_pricing("gpt-3.5-turbo-0125"), (500, 1_500));
    assert_eq!(get_openai_pricing("other"), (1_000, 2_000));
    assert_eq!(get_azure_context_length("my-gpt-4-32k"), 32768);
    assert_eq!(get_azure_context_length("gpt-4-turbo-prod"), 128000);
    assert_eq!(get_azure_context_length("gpt-4"), 8192);
    assert_eq!(get_azure_context_length("gpt-35-turbo"), 16385);
    assert_eq!(get_azure_context_length("davinci"), 4096);
    assert_eq!(get_azure_pricing("gpt-4-32k"), (60_000, 120_000));
    assert_eq!(get_azure_pricing("x-32k"), (1_000, 2_000));
    assert_eq!(get_azure_pricing("gpt-4-turbo"), (10_000, 30_000));
    assert_eq!(get_azure_pricing("gpt-3.5-turbo"), (1_500, 2_000));
    assert_eq!(estimate_context_length("llama3:70b"), 4096);
    assert_eq!(estimate_context_length("llama3"), 8192);
    assert_eq!(estimate_context_length("qwen2.5-coder"), 8192);
    assert_eq!(estimate_context_length("deepseek-coder"), 16384);
    assert_eq!(estimate_context_length("phi"), 4096);
}
