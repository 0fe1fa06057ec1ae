use omen::rate_limiter::{GhostAIRateLimiter, RateLimitBucket, RateLimitConfig};

#[test]
fn test_rate_limit_bucket() {
    let mut bucket = RateLimitBucket::new(0);
    let config = RateLimitConfig::default();

    // Should allow initial requests
    assert!(bucket.can_consume(&config, 100));
    bucket.consume(100);

    // Should track usage
    assert_eq!(bucket.requests, 1);
    assert_eq!(bucket.tokens, 100);

    // Should deny when over limit
    bucket.tokens = config.tokens_per_minute;
    assert!(!bucket.can_consume(&config, 1));
}

#[test]
fn test_bucket_reset() {
    let mut bucket = RateLimitBucket::new(0);
    let config = RateLimitConfig { window_size: 100, ..Default::default() };

    bucket.consume(1000);
    assert_eq!(bucket.requests, 1);

    // The window has run out 150 ms later
    assert!(bucket.should_reset(150, config.window_size));

    bucket.reset(150);
    assert_eq!(bucket.requests, 0);
    assert_eq!(bucket.tokens, 0);
}

#[test]
fn free_tier_admits_the_rate_and_the_burst_then_denies() {
    let mut billing = omen::billing::BillingManager::new();
    let mut limiter = omen::rate_limiter::AdaptiveRateLimiter::new();
    let start = 1_700_000_000_000u64;
    for i in 0..25u64 {
        assert!(limiter.check_rate_limit(&mut billing, "tenant", 10, start + i).is_ok(), "request {}", i);
    }
    // the 26th of the window is denied
    let denied = limiter.check_rate_limit(&mut billing, "tenant", 10, start + 30);
    assert!(matches!(denied, Err(omen::error::OmenError::RateLimitExceeded)));
    let bucket = *limiter.buckets.get("tenant").unwrap();
    assert_eq!(bucket.requests, 25);
    assert_eq!(bucket.tokens, 250);
    assert_eq!(bucket.window_start, start);
    // still denied just before the window ends, admitted at its end
    assert!(limiter.check_rate_limit(&mut billing, "tenant", 10, start + 59_999).is_err());
    assert!(limiter.check_rate_limit(&mut billing, "tenant", 10, start + 60_000).is_ok());
    let bucket = *limiter.buckets.get("tenant").unwrap();
    assert_eq!((bucket.requests, bucket.tokens, bucket.window_start), (1, 10, start + 60_000));
    // another tenant has a bucket of its own
    assert!(limiter.check_rate_limit(&mut billing, "other", 10, start + 30).is_ok());
}

#[test]
fn tokens_of_a_window_are_limited() {
    let mut billing = omen::billing::BillingManager::new();
    let mut limiter = omen::rate_limiter::AdaptiveRateLimiter::new();
    assert!(limiter.check_rate_limit(&mut billing, "t", 2001, 0).is_err());
    assert!(limiter.check_rate_limit(&mut billing, "t", 2000, 1).is_ok());
    assert!(limiter.check_rate_limit(&mut billing, "t", 1, 2).is_err());
    assert_eq!(limiter.buckets.get("t").unwrap().requests, 1);
    assert!(limiter.check_rate_limit(&mut billing, "t", 0, 3).is_ok());
}

#[test]
fn limits_follow_the_tier() {
    assert_eq!(omen::rate_limiter::tier_limits("free").requests_per_minute, 20);
    assert_eq!(omen::rate_limiter::tier_limits("free").tokens_per_minute, 2_000);
    assert_eq!(omen::rate_limiter::tier_limits("free").burst_allowance, 5);
    let pro = omen::rate_limiter::tier_limits("pro");
    assert_eq!((pro.requests_per_minute, pro.tokens_per_minute, pro.burst_allowance), (200, 50_000, 20));
    let e = omen::rate_limiter::tier_limits("enterprise");
    assert_eq!((e.requests_per_minute, e.tokens_per_minute, e.burst_allowance), (1_000, 500_000, 100));
    assert_eq!(omen::rate_limiter::tier_limits("unheard of"), omen::rate_limiter::tier_limits("free"));
    assert_eq!(pro.window_size, 60_000);

    let mut billing = omen::billing::BillingManager::new();
    billing.update_user_tier("t", "pro", 0).unwrap();
    let mut limiter = omen::rate_limiter::AdaptiveRateLimiter::new();
    assert!(limiter.check_rate_limit(&mut billing, "t", 50_000, 5).is_ok());
    assert!(limiter.check_rate_limit(&mut billing, "t", 1, 6).is_err());
}

#[test]
fn status_reports_what_is_left() {
    let mut billing = omen::billing::BillingManager::new();
    let mut limiter = omen::rate_limiter::AdaptiveRateLimiter::new();
    let s = limiter.get_rate_limit_status(&mut billing, "t", 0);
    assert_eq!(s.tier, "free");
    assert_eq!((s.requests_used, s.requests_limit, s.tokens_used, s.tokens_limit), (0, 20, 0, 2_000));
    assert_eq!((s.window_reset_in_seconds, s.burst_available), (60, 5));
    for i in 0..22u64 {
        limiter.check_rate_limit(&mut billing, "t", 3, 1_000 + i).unwrap();
    }
    let s = limiter.get_rate_limit_status(&mut billing, "t", 11_500);
    assert_eq!((s.requests_used, s.tokens_used), (22, 66));
    assert_eq!(s.window_reset_in_seconds, 50);
    assert_eq!(s.burst_available, 3);
    // once the window has run out the full limits are back
    let s = limiter.get_rate_limit_status(&mut billing, "t", 61_000);
    assert_eq!((s.requests_used, s.window_reset_in_seconds, s.burst_available), (0, 60, 5));
}

#[test]
fn idle_buckets_are_dropped() {
    let mut billing = omen::billing::BillingManager::new();
    let mut limiter = omen::rate_limiter::AdaptiveRateLimiter::new();
    limiter.check_rate_limit(&mut billing, "old", 1, 1_000).unwrap();
    limiter.check_rate_limit(&mut billing, "mid", 1, 50_000).unwrap();
    limiter.check_rate_limit(&mut billing, "new", 1, 100_000).unwrap();
    limiter.cleanup_expired_buckets(121_000);
    assert!(limiter.buckets.get("old").is_none());
    assert!(limiter.buckets.get("mid").is_some());
    assert!(limiter.buckets.get("new").is_some());
    assert_eq!(limiter.buckets.len(), 2);
    limiter.cleanup_expired_buckets(170_000);
    assert_eq!(limiter.buckets.len(), 1);
    limiter.cleanup_expired_buckets(169_999 + 50_001);
    assert_eq!(limiter.buckets.len(), 0);
}

#[test]
fn services_earn_their_multiplier() {
    assert_eq!(GhostAIRateLimiter::service_priority("ghostllm"), 255);
    assert_eq!(GhostAIRateLimiter::service_priority("ghostflow"), 200);
    assert_eq!(GhostAIRateLimiter::service_priority("zeke"), 180);
    assert_eq!(GhostAIRateLimiter::service_priority("jarvis"), 160);
    assert_eq!(GhostAIRateLimiter::service_priority("external"), 100);
    assert_eq!(GhostAIRateLimiter::service_priority("development"), 50);
    assert_eq!(GhostAIRateLimiter::service_priority("nobody"), 100);
    assert_eq!(GhostAIRateLimiter::enhanced_multiplier(255), 50);
    assert_eq!(GhostAIRateLimiter::enhanced_multiplier(200), 30);
    assert_eq!(GhostAIRateLimiter::enhanced_multiplier(180), 25);
    assert_eq!(GhostAIRateLimiter::enhanced_multiplier(160), 20);
    assert_eq!(GhostAIRateLimiter::enhanced_multiplier(100), 10);
    let raised = omen::rate_limiter::raise(&omen::rate_limiter::tier_limits("free"), 25);
    assert_eq!((raised.requests_per_minute, raised.tokens_per_minute, raised.burst_allowance), (50, 5_000, 12));

    // five times the free limits: 100 requests and 25 of burst
    let mut billing = omen::billing::BillingManager::new();
    let mut limiter = GhostAIRateLimiter::new();
    for i in 0..125u64 {
        assert!(limiter.check_ghost_service_limit(&mut billing, "ghostllm", "t", 1, i).is_ok());
    }
    assert!(limiter.check_ghost_service_limit(&mut billing, "ghostllm", "t", 1, 200).is_err());
    // an outside caller has the plain limits
    let mut limiter = GhostAIRateLimiter::new();
    for i in 0..25u64 {
        assert!(limiter.check_ghost_service_limit(&mut billing, "external", "t", 1, i).is_ok());
    }
    assert!(limiter.check_ghost_service_limit(&mut billing, "external", "t", 1, 200).is_err());
    let status = limiter.get_ghost_service_status(&mut billing, "zeke", "t", 300);
    assert_eq!((status.priority, status.enhanced_multiplier), (180, 25));
    assert_eq!(status.service_name, "zeke");
    assert_eq!(status.standard_limits.requests_used, 25);
}

#[test]
fn counters_stay_at_their_largest_value() {
    let mut bucket = RateLimitBucket::new(7);
    bucket.requests = u32::MAX;
    bucket.tokens = u32::MAX - 1;
    bucket.consume(5);
    assert_eq!((bucket.requests, bucket.tokens), (u32::MAX, u32::MAX));
    // a clock that runs backwards never ends a window
    assert!(!bucket.should_reset(3, 0));
    assert!(bucket.should_reset(7, 0));
}
