use omen::cache::{uuid_string, CacheCommand, CacheConfig, CacheStats, RedisCache};
use omen::redis_info::{extract_redis_stat, parse_number};
use omen::types::{ChatMessage, ContentPart, ImageUrl, MessageContent};

fn message(role: &str, text: &str) -> ChatMessage {
    ChatMessage {
        role: role.to_string(),
        content: MessageContent::Text(text.to_string()),
        name: None,
        tool_calls: None,
        tool_call_id: None,
    }
}

#[test]
fn test_cache_key_generation() {
    let config = CacheConfig::default();
    let cache = RedisCache::new(config);

    let messages = vec![ChatMessage {
        role: "user".to_string(),
        content: MessageContent::Text("Hello".to_string()),
        name: None,
        tool_calls: None,
        tool_call_id: None,
    }];

    let t = Some(0.7f32.to_bits());
    let key1 = cache.generate_response_cache_key("user1", &messages, "gpt-4", t);
    let key2 = cache.generate_response_cache_key("user1", &messages, "gpt-4", t);
    let key3 = cache.generate_response_cache_key("user2", &messages, "gpt-4", t);

    assert_eq!(key1, key2); // Same user, same input = same key
    assert_ne!(key1, key3); // Different user = different key
}

#[test]
fn test_session_cache_key() {
    let config = CacheConfig::default();
    let cache = RedisCache::new(config);

    let session_id = uuid::Uuid::new_v4();
    let key = cache.generate_session_cache_key(session_id.as_u128());

    assert!(key.starts_with("session:"));
    assert!(key.contains(&session_id.to_string()));
}

#[test]
fn uuids_are_written_in_their_usual_form() {
    assert_eq!(uuid_string(0), "00000000-0000-0000-0000-000000000000");
    assert_eq!(uuid_string(u128::MAX), "ffffffff-ffff-ffff-ffff-ffffffffffff");
    assert_eq!(uuid_string(0x67e55044_10b1_426f_9247_bb680e5fe0c8), "67e55044-10b1-426f-9247-bb680e5fe0c8");
    for n in [1u128, 0xabcdef, 1 << 64, 0x0123456789abcdef_0123456789abcdef] {
        assert_eq!(uuid_string(n), uuid::Uuid::from_u128(n).to_string());
    }
}

#[test]
fn the_key_tells_requests_apart() {
    let cache = RedisCache::new(CacheConfig::default());
    let a = vec![message("user", "Hello"), message("assistant", "Hi")];
    let b = vec![message("assistant", "Hi"), message("user", "Hello")];
    let base = cache.generate_response_cache_key("u", &a, "gpt-4", Some(0.7f32.to_bits()));
    assert!(base.starts_with("resp:u:"));
    assert!(base["resp:u:".len()..].chars().all(|c| c.is_ascii_hexdigit() && !c.is_ascii_uppercase()));
    // no temperature is the temperature 0.7
    assert_eq!(base, cache.generate_response_cache_key("u", &a, "gpt-4", None));
    assert_ne!(base, cache.generate_response_cache_key("u", &a, "gpt-4", Some(0.2f32.to_bits())));
    assert_ne!(base, cache.generate_response_cache_key("u", &a, "gpt-4o", None));
    assert_ne!(base, cache.generate_response_cache_key("u", &b, "gpt-4", None));
    assert_ne!(base, cache.generate_response_cache_key("u", &a[..1].to_vec(), "gpt-4", None));
    // text and role do not run into each other
    let c = vec![message("us", "erHello"), message("assistant", "Hi")];
    assert_ne!(base, cache.generate_response_cache_key("u", &c, "gpt-4", None));
    // images count by their address
    let img = |url: &str| {
        vec![ChatMessage {
            role: "user".to_string(),
            content: MessageContent::Parts(vec![
                ContentPart::Text { text: "look".to_string() },
                ContentPart::ImageUrl { image_url: ImageUrl { url: url.to_string(), detail: None } },
            ]),
            name: None,
            tool_calls: None,
            tool_call_id: None,
        }]
    };
    let k1 = cache.generate_response_cache_key("u", &img("http://a/1.png"), "m", None);
    assert_eq!(k1, cache.generate_response_cache_key("u", &img("http://a/1.png"), "m", None));
    assert_ne!(k1, cache.generate_response_cache_key("u", &img("http://a/2.png"), "m", None));
}

#[test]
fn commands_name_their_keys_and_lifetimes() {
    let cache = RedisCache::new(CacheConfig::default());
    assert!(matches!(cache.get_cached_response("k"), CacheCommand::Get { ref key } if key == "response:k"));
    assert!(matches!(
        cache.cache_response("k", "{}".to_string()),
        CacheCommand::SetEx { ref key, ref value, ttl: 1800 } if key == "response:k" && value == "{}"
    ));
    assert!(matches!(cache.increment_cache_hit("k"), CacheCommand::Incr { ref key, by: 1 } if key == "hits:k"));
    assert!(matches!(cache.get_cached_session(1), CacheCommand::Get { ref key } if key == "session:00000000-0000-0000-0000-000000000001"));
    assert!(matches!(
        cache.cache_session(2, "s".to_string()),
        CacheCommand::SetEx { ref key, ttl: 7200, .. } if key == "session:00000000-0000-0000-0000-000000000002"
    ));
    assert!(matches!(cache.get_rate_limit_usage("u", "minute"), CacheCommand::Get { ref key } if key == "rate:u:minute"));
    assert!(matches!(cache.increment_rate_limit("u", "minute", 7), CacheCommand::Incr { ref key, by: 7 } if key == "rate:u:minute"));
    assert!(matches!(
        cache.rate_limit_expiry("u", "minute", 7, 7),
        Some(CacheCommand::Expire { ref key, ttl: 60 }) if key == "rate:u:minute"
    ));
    assert!(cache.rate_limit_expiry("u", "minute", 7, 12).is_none());
    assert!(matches!(cache.get_cached_provider_health("openai"), CacheCommand::Get { ref key } if key == "health:openai"));
    assert!(matches!(
        cache.cache_provider_health("openai", "h".to_string()),
        CacheCommand::SetEx { ref key, ttl: 300, .. } if key == "health:openai"
    ));
    assert!(matches!(RedisCache::clear_cache(None), CacheCommand::Keys { ref pattern } if pattern == "*"));
    assert!(matches!(RedisCache::clear_cache(Some("resp:*")), CacheCommand::Keys { ref pattern } if pattern == "resp:*"));
    assert!(RedisCache::clear_keys(vec![]).is_none());
    assert!(matches!(RedisCache::clear_keys(vec!["a".to_string()]), Some(CacheCommand::Del { ref keys }) if keys.len() == 1));
    let warm = RedisCache::warm_cache(9);
    assert_eq!(warm.iter().map(|e| e.provider_id.as_str()).collect::<Vec<_>>(), vec!["ollama", "openai", "anthropic", "google"]);
    assert!(warm.iter().all(|e| e.healthy && e.response_time_ms == 100 && e.last_checked == 9));
    let entry = RedisCache::new_entry(sample_response(), "openai", 12, 34);
    assert_eq!((entry.provider_used.as_str(), entry.cost_usd, entry.cached_at, entry.cache_hit_count), ("openai", 12, 34, 0));
    let session = RedisCache::new_session(5, "zeke", "u", "{}".to_string(), 3, 44, 55);
    assert_eq!((session.session_id, session.request_count, session.total_cost, session.last_activity), (5, 3, 44, 55));
}

fn sample_response() -> omen::types::ChatCompletionResponse {
    omen::types::ChatCompletionResponse {
        id: "id".to_string(),
        object: "chat.completion".to_string(),
        created: 0,
        model: "m".to_string(),
        choices: vec![],
        usage: omen::types::Usage { prompt_tokens: 0, completion_tokens: 0, total_tokens: 0 },
        system_fingerprint: None,
    }
}

#[test]
fn rate_limit_keys_carry_the_window_s_stamp() {
    let cache = RedisCache::new(CacheConfig::default());
    // 2024-01-01 00:00:00 UTC
    let t = 1_704_067_200;
    assert_eq!(cache.generate_rate_limit_key("u", "minute", t), "rate:u:minute:202401010000");
    assert_eq!(cache.generate_rate_limit_key("u", "minute", t + 59), "rate:u:minute:202401010000");
    assert_eq!(cache.generate_rate_limit_key("u", "minute", t + 60), "rate:u:minute:202401010001");
    assert_eq!(cache.generate_rate_limit_key("u", "hour", t + 3_600), "rate:u:hour:2024010101");
    assert_eq!(cache.generate_rate_limit_key("u", "day", t - 1), "rate:u:day:20231231");
    assert_eq!(cache.generate_rate_limit_key("u", "week", t), "rate:u:week:202401010000");
    assert_eq!(cache.generate_rate_limit_key("u", "day", i64::MAX), "rate:u:day:");
    assert_eq!(RedisCache::rate_limit_key_with("u", "hour", "2024010101"), "rate:u:hour:2024010101");
}

#[test]
fn the_pool_keeps_ten_connections() {
    let mut cache = RedisCache::new(CacheConfig::default());
    assert!(!cache.get_connection());
    for _ in 0..10 {
        assert!(cache.return_connection());
    }
    assert!(!cache.return_connection());
    assert_eq!(cache.pooled, 10);
    assert!(cache.get_connection());
    assert_eq!(cache.pooled, 9);
}

#[test]
fn counters_are_read_off_the_info_text() {
    let info = "# Memory\r\nused_memory:1024\r\nused_memory_human:1.00K\r\nused_memory_peak:2048\r\n# Stats\r\nkeyspace_hits:3\r\nkeyspace_misses:1\r\n";
    assert_eq!(
        RedisCache::get_cache_stats(info),
        CacheStats { memory_used_bytes: 1024, memory_peak_bytes: 2048, hit_rate: 750_000, total_hits: 3, total_misses: 1 }
    );
    assert_eq!(RedisCache::get_cache_stats("").hit_rate, 0);
    assert_eq!(RedisCache::get_cache_stats("keyspace_hits:5\n").hit_rate, 1_000_000);
    assert_eq!(extract_redis_stat(info, "used_memory:"), 1024);
    assert_eq!(extract_redis_stat(info, "used_memory"), 1024);
    assert_eq!(extract_redis_stat(info, "missing:"), 0);
    // the first line that begins with the name counts, and only its second field
    assert_eq!(extract_redis_stat("a:1:9\na:2\n", "a:"), 1);
    assert_eq!(extract_redis_stat("xa:1\na:2", "a:"), 2);
    assert_eq!(extract_redis_stat("a:\n", "a:"), 0);
    assert_eq!(extract_redis_stat("a", "a"), 0);
    assert_eq!(extract_redis_stat("a:1.5\n", "a:"), 0);
    assert_eq!(extract_redis_stat("a: 7\n", "a:"), 0);
    assert_eq!(extract_redis_stat("a:+7\n", "a:"), 7);
    assert_eq!(extract_redis_stat("a:-7\n", "a:"), 0);
    assert_eq!(extract_redis_stat("a:18446744073709551615\n", "a:"), u64::MAX);
    assert_eq!(extract_redis_stat("a:18446744073709551616\n", "a:"), 0);
    // a carriage return belongs to the line only where no line feed follows
    assert_eq!(extract_redis_stat("a:5\r", "a:"), 0);
    assert_eq!(extract_redis_stat("\n\na:0012\r\n", "a:"), 12);
    for text in ["0", "007", "+1", "", "+", "12a", "99999999999999999999", "1 "] {
        let chars: Vec<char> = text.chars().collect();
        assert_eq!(parse_number(&chars), text.parse::<u64>().ok(), "{:?}", text);
    }
}

#[test]
fn health_is_used_while_it_is_fresh() {
    let cache = RedisCache::new(CacheConfig::default());
    let entry = RedisCache::warm_cache(1_000).remove(0);
    assert!(cache.health_is_fresh(&entry, 1_000));
    assert!(cache.health_is_fresh(&entry, 1_299));
    assert!(!cache.health_is_fresh(&entry, 1_300));
    assert!(!cache.health_is_fresh(&entry, 999));
    assert!(!cache.health_is_fresh(&entry, i64::MAX));
}
