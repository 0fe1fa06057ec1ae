//! Admission by rate: one bucket per tenant, sized by the tenant's tier and
//! counted over windows of wall-clock time. Times are Unix times in
//! milliseconds.

use vstd::prelude::*;
use crate::billing::BillingManager;
use crate::error::OmenError;
use crate::store::{key_texts, TextMap};
use crate::text::str_eq;

verus! {

/// The limits of one window.
#[derive(Debug, Clone, Copy, PartialEq, Eq, Structural)]
pub struct RateLimitConfig {
    pub requests_per_minute: u32,
    pub tokens_per_minute: u32,
    pub burst_allowance: u32,
    /// The length of the window, in milliseconds.
    pub window_size: u64,
}

/// The length of a window: a minute.
pub const WINDOW_MS: u64 = 60_000;

/// A bucket that has been idle this long is dropped: two windows.
pub const IDLE_MS: u64 = 120_000;

impl Default for RateLimitConfig {
    fn default() -> (c: Self)
        ensures
            c == (RateLimitConfig {
                requests_per_minute: 60,
                tokens_per_minute: 10_000,
                burst_allowance: 10,
                window_size: WINDOW_MS,
            }),
    {
        RateLimitConfig {
            requests_per_minute: 60,
            tokens_per_minute: 10_000,
            burst_allowance: 10,
            window_size: WINDOW_MS,
        }
    }
}

impl RateLimitConfig {
    /// The requests that one window admits: the rate and the burst allowance.
    pub open spec fn burst_cap(self) -> int {
        self.requests_per_minute + self.burst_allowance
    }
}

/// The limits of the tier `free`.
pub open spec fn free_limits() -> RateLimitConfig {
    RateLimitConfig {
        requests_per_minute: 20,
        tokens_per_minute: 2_000,
        burst_allowance: 5,
        window_size: WINDOW_MS,
    }
}

/// The limits of the tier `pro`.
pub open spec fn pro_limits() -> RateLimitConfig {
    RateLimitConfig {
        requests_per_minute: 200,
        tokens_per_minute: 50_000,
        burst_allowance: 20,
        window_size: WINDOW_MS,
    }
}

/// The limits of the tier `enterprise`.
pub open spec fn enterprise_limits() -> RateLimitConfig {
    RateLimitConfig {
        requests_per_minute: 1_000,
        tokens_per_minute: 500_000,
        burst_allowance: 100,
        window_size: WINDOW_MS,
    }
}

/// The limits of a tier; those of `free` for a tier that has none of its own.
pub open spec fn limits_of(tier: Seq<char>) -> RateLimitConfig {
    if tier == "pro"@ {
        pro_limits()
    } else if tier == "enterprise"@ {
        enterprise_limits()
    } else {
        free_limits()
    }
}

/// Computes [`limits_of`].
pub fn tier_limits(tier: &str) -> (c: RateLimitConfig)
    ensures
        c == limits_of(tier@),
{
    if str_eq(tier, "pro") {
        RateLimitConfig {
            requests_per_minute: 200,
            tokens_per_minute: 50_000,
            burst_allowance: 20,
            window_size: WINDOW_MS,
        }
    } else if str_eq(tier, "enterprise") {
        RateLimitConfig {
            requests_per_minute: 1_000,
            tokens_per_minute: 500_000,
            burst_allowance: 100,
            window_size: WINDOW_MS,
        }
    } else {
        RateLimitConfig {
            requests_per_minute: 20,
            tokens_per_minute: 2_000,
            burst_allowance: 5,
            window_size: WINDOW_MS,
        }
    }
}

/// The limits multiplied by `tenths / 10`, each held at the largest
/// representable count.
pub open spec fn raised(config: RateLimitConfig, tenths: u32) -> RateLimitConfig {
    RateLimitConfig {
        requests_per_minute: raised_count(config.requests_per_minute, tenths),
        tokens_per_minute: raised_count(config.tokens_per_minute, tenths),
        burst_allowance: raised_count(config.burst_allowance, tenths),
        window_size: config.window_size,
    }
}

/// `n * tenths / 10`, rounded down and held at the largest representable count.
pub open spec fn raised_count(n: u32, tenths: u32) -> u32 {
    if (n * tenths) / 10 > u32::MAX {
        u32::MAX
    } else {
        ((n * tenths) / 10) as u32
    }
}

fn raise_count(n: u32, tenths: u32) -> (r: u32)
    ensures
        r == raised_count(n, tenths),
{
    assert(n * tenths <= u32::MAX * u32::MAX) by (nonlinear_arith)
        requires
            n <= u32::MAX,
            tenths <= u32::MAX,
    ;
    let q: u64 = (n as u64) * (tenths as u64) / 10;
    if q > u32::MAX as u64 {
        u32::MAX
    } else {
        q as u32
    }
}

/// Computes [`raised`].
pub fn raise(config: &RateLimitConfig, tenths: u32) -> (r: RateLimitConfig)
    ensures
        r == raised(*config, tenths),
{
    RateLimitConfig {
        requests_per_minute: raise_count(config.requests_per_minute, tenths),
        tokens_per_minute: raise_count(config.tokens_per_minute, tenths),
        burst_allowance: raise_count(config.burst_allowance, tenths),
        window_size: config.window_size,
    }
}

/// What a tenant has used in the current window. The counters stay at the
/// largest representable count once they reach it.
#[derive(Debug, Clone, Copy, PartialEq, Eq, Structural)]
pub struct RateLimitBucket {
    pub requests: u32,
    pub tokens: u32,
    pub last_refill: u64,
    /// When the window began.
    pub window_start: u64,
}

impl RateLimitBucket {
    /// An empty bucket whose window begins at `now`.
    pub open spec fn fresh(now: u64) -> RateLimitBucket {
        RateLimitBucket { requests: 0, tokens: 0, last_refill: now, window_start: now }
    }

    /// Whether the window has run out at `now`.
    pub open spec fn expired(self, now: u64, window_size: u64) -> bool {
        now >= self.window_start && now - self.window_start >= window_size
    }

    /// Whether the window admits one more request of `tokens_requested` tokens.
    pub open spec fn admits(self, config: RateLimitConfig, tokens_requested: u32) -> bool {
        self.requests < config.burst_cap() && self.tokens + tokens_requested
            <= config.tokens_per_minute
    }

    /// The bucket after one request of `tokens` tokens.
    pub open spec fn consumed(self, tokens: u32) -> RateLimitBucket {
        RateLimitBucket {
            requests: crate::amount::capped_count(self.requests, 1),
            tokens: crate::amount::capped_count(self.tokens, tokens),
            ..self
        }
    }

    /// Whether the counters are within the limits of a window.
    pub open spec fn within(self, config: RateLimitConfig) -> bool {
        self.requests <= config.burst_cap() && self.tokens <= config.tokens_per_minute
    }

    /// The bucket as it counts at `now`: a fresh one once the window has run out.
    pub open spec fn as_of(self, now: u64, window_size: u64) -> RateLimitBucket {
        if self.expired(now, window_size) {
            Self::fresh(now)
        } else {
            self
        }
    }

    /// The bucket after a request was checked at `now`: counted where the
    /// window admits it, and left as it counts at `now` where not.
    pub open spec fn checked(self, config: RateLimitConfig, tokens: u32, now: u64) -> RateLimitBucket {
        let b = self.as_of(now, config.window_size);
        if b.admits(config, tokens) {
            b.consumed(tokens)
        } else {
            b
        }
    }

    /// An empty bucket whose window begins at `now`.
    pub fn new(now: u64) -> (b: Self)
        ensures
            b == Self::fresh(now),
    {
        RateLimitBucket { requests: 0, tokens: 0, last_refill: now, window_start: now }
    }

    /// Whether the window has run out at `now`.
    pub fn should_reset(&self, now: u64, window_size: u64) -> (b: bool)
        ensures
            b == self.expired(now, window_size),
    {
        now >= self.window_start && now - self.window_start >= window_size
    }

    /// Empties the bucket and begins a window at `now`.
    pub fn reset(&mut self, now: u64)
        ensures
            *final(self) == Self::fresh(now),
    {
        self.requests = 0;
        self.tokens = 0;
        self.last_refill = now;
        self.window_start = now;
    }

    /// Whether the window admits one more request of `tokens_requested`
    /// tokens.
    pub fn can_consume(&self, config: &RateLimitConfig, tokens_requested: u32) -> (b: bool)
        ensures
            b == self.admits(*config, tokens_requested),
    {
        (self.requests as u64) < (config.requests_per_minute as u64) + (
        config.burst_allowance as u64) && (self.tokens as u64) + (tokens_requested as u64) <= (
        config.tokens_per_minute as u64)
    }

    /// Counts one request of `tokens` tokens.
    pub fn consume(&mut self, tokens: u32)
        ensures
            *final(self) == old(self).consumed(tokens),
    {
        self.requests = crate::amount::add_count(self.requests, 1);
        self.tokens = crate::amount::add_count(self.tokens, tokens);
    }
}

/// One request to be checked: its estimated tokens and when it arrives.
pub struct Arrival {
    pub tokens: u32,
    pub now: u64,
}

/// The bucket after a sequence of checks.
pub open spec fn bucket_after(
    start: RateLimitBucket,
    config: RateLimitConfig,
    arrivals: Seq<Arrival>,
) -> RateLimitBucket
    decreases arrivals.len(),
{
    if arrivals.len() == 0 {
        start
    } else {
        bucket_after(start, config, arrivals.drop_last()).checked(
            config,
            arrivals.last().tokens,
            arrivals.last().now,
        )
    }
}

/// Under fixed limits, the counters of a bucket never exceed the burst cap
/// or the tokens of a window, whatever is checked against it.
pub proof fn lemma_bucket_within_limits(
    start: RateLimitBucket,
    config: RateLimitConfig,
    arrivals: Seq<Arrival>,
)
    requires
        start.within(config),
    ensures
        bucket_after(start, config, arrivals).within(config),
    decreases arrivals.len(),
{
    if arrivals.len() > 0 {
        lemma_bucket_within_limits(start, config, arrivals.drop_last());
    }
}

/// What a tenant has left in the current window.
#[derive(Debug, Clone)]
pub struct RateLimitStatus {
    pub tier: String,
    pub requests_used: u32,
    pub requests_limit: u32,
    pub tokens_used: u32,
    pub tokens_limit: u32,
    pub window_reset_in_seconds: u64,
    pub burst_available: u32,
}

/// The burst allowance that is left once `requests` requests were made.
pub open spec fn burst_left(config: RateLimitConfig, requests: u32) -> int {
    let over = if requests > config.requests_per_minute {
        requests - config.requests_per_minute
    } else {
        0
    };
    if over >= config.burst_allowance {
        0
    } else {
        config.burst_allowance - over
    }
}

/// The whole seconds until the window of a bucket runs out.
pub open spec fn seconds_left(bucket: RateLimitBucket, config: RateLimitConfig, now: u64) -> int {
    let elapsed = if now >= bucket.window_start {
        (now - bucket.window_start) / 1000
    } else {
        0
    };
    let whole = config.window_size as int / 1000;
    if elapsed >= whole {
        0
    } else {
        whole - elapsed
    }
}

/// The buckets of all tenants.
pub struct AdaptiveRateLimiter {
    pub buckets: TextMap<RateLimitBucket>,
}

/// The Unix time in seconds of a Unix time in milliseconds.
pub open spec fn secs_of(now_ms: u64) -> i64 {
    (now_ms / 1000) as i64
}

fn to_secs(now_ms: u64) -> (s: i64)
    ensures
        s == secs_of(now_ms),
{
    (now_ms / 1000) as i64
}

/// The bucket of a tenant as it is kept: a fresh one where none is kept.
pub open spec fn bucket_of(
    buckets: Map<Seq<char>, RateLimitBucket>,
    user_id: Seq<char>,
    now: u64,
) -> RateLimitBucket {
    if buckets.contains_key(user_id) {
        buckets[user_id]
    } else {
        RateLimitBucket::fresh(now)
    }
}

/// Whether `s` reports what a tenant of a tier has left at `now`: what its
/// bucket holds, or the full limits where it has none or its window has
/// run out.
pub open spec fn reports(
    s: RateLimitStatus,
    buckets: Map<Seq<char>, RateLimitBucket>,
    user_id: Seq<char>,
    tier: Seq<char>,
    now: u64,
) -> bool {
    let config = limits_of(tier);
    let kept = buckets.contains_key(user_id) && !buckets[user_id].expired(now, config.window_size);
    let bucket = buckets[user_id];
    &&& s.tier@ == tier
    &&& s.requests_limit == config.requests_per_minute
    &&& s.tokens_limit == config.tokens_per_minute
    &&& s.requests_used == if kept {
        bucket.requests
    } else {
        0
    }
    &&& s.tokens_used == if kept {
        bucket.tokens
    } else {
        0
    }
    &&& s.window_reset_in_seconds == if kept {
        seconds_left(bucket, config, now)
    } else {
        config.window_size as int / 1000
    }
    &&& s.burst_available == if kept {
        burst_left(config, bucket.requests)
    } else {
        config.burst_allowance as int
    }
}

impl AdaptiveRateLimiter {
    /// A limiter without buckets.
    pub fn new() -> (l: Self)
        ensures
            l.buckets@ == Map::<Seq<char>, RateLimitBucket>::empty(),
    {
        AdaptiveRateLimiter { buckets: TextMap::new() }
    }

    /// Checks a request of the tenant against the limits of the tenant's
    /// tier, multiplied by `tenths / 10`.
    pub fn check_with_multiplier(
        &mut self,
        billing: &mut BillingManager,
        user_id: &str,
        estimated_tokens: u32,
        now: u64,
        tenths: u32,
    ) -> (r: Result<(), OmenError>)
        ensures
            final(billing)@ == old(billing)@.ensured(user_id@, secs_of(now)),
            ({
                let tier = old(billing)@.ledger_of(user_id@, secs_of(now)).tier.name;
                let config = raised(limits_of(tier), tenths);
                let bucket = bucket_of(old(self).buckets@, user_id@, now);
                &&& final(self).buckets@ == old(self).buckets@.insert(
                    user_id@,
                    bucket.checked(config, estimated_tokens, now),
                )
                &&& match r {
                    Ok(_) => bucket.as_of(now, config.window_size).admits(config, estimated_tokens),
                    Err(e) => e is RateLimitExceeded && !bucket.as_of(
                        now,
                        config.window_size,
                    ).admits(config, estimated_tokens),
                }
            }),
    {
        let ledger = billing.get_or_create_user_billing(user_id, to_secs(now));
        let base = tier_limits(ledger.tier.name.as_str());
        let config = raise(&base, tenths);
        let mut bucket: RateLimitBucket = match self.buckets.get(user_id) {
            Some(b) => *b,
            None => RateLimitBucket::new(now),
        };
        if bucket.should_reset(now, config.window_size) {
            bucket.reset(now);
        }
        if !bucket.can_consume(&config, estimated_tokens) {
            self.buckets.insert(String::from_str(user_id), bucket);
            return Err(OmenError::RateLimitExceeded);
        }
        bucket.consume(estimated_tokens);
        self.buckets.insert(String::from_str(user_id), bucket);
        Ok(())
    }

    /// Checks a request of the tenant against the limits of the tenant's
    /// tier: the window is renewed where it has run out, the request is
    /// denied where the window does not admit it, and counted where it does.
    pub fn check_rate_limit(
        &mut self,
        billing: &mut BillingManager,
        user_id: &str,
        estimated_tokens: u32,
        now: u64,
    ) -> (r: Result<(), OmenError>)
        ensures
            final(billing)@ == old(billing)@.ensured(user_id@, secs_of(now)),
            ({
                let tier = old(billing)@.ledger_of(user_id@, secs_of(now)).tier.name;
                let config = limits_of(tier);
                let bucket = bucket_of(old(self).buckets@, user_id@, now);
                &&& final(self).buckets@ == old(self).buckets@.insert(
                    user_id@,
                    bucket.checked(config, estimated_tokens, now),
                )
                &&& match r {
                    Ok(_) => bucket.as_of(now, config.window_size).admits(config, estimated_tokens),
                    Err(e) => e is RateLimitExceeded && !bucket.as_of(
                        now,
                        config.window_size,
                    ).admits(config, estimated_tokens),
                }
            }),
    {
        proof {
            lemma_raised_by_one(free_limits());
            lemma_raised_by_one(pro_limits());
            lemma_raised_by_one(enterprise_limits());
        }
        self.check_with_multiplier(billing, user_id, estimated_tokens, now, 10)
    }

    /// What the tenant has left in the current window; the full limits where
    /// the tenant has no bucket or its window has run out.
    pub fn get_rate_limit_status(&self, billing: &mut BillingManager, user_id: &str, now: u64) -> (s:
        RateLimitStatus)
        ensures
            final(billing)@ == old(billing)@.ensured(user_id@, secs_of(now)),
            reports(
                s,
                self.buckets@,
                user_id@,
                old(billing)@.ledger_of(user_id@, secs_of(now)).tier.name,
                now,
            ),
    {
        let ledger = billing.get_or_create_user_billing(user_id, to_secs(now));
        let config = tier_limits(ledger.tier.name.as_str());
        let whole: u64 = config.window_size / 1000;
        match self.buckets.get(user_id) {
            Some(b) if !b.should_reset(now, config.window_size) => {
                let elapsed: u64 = if now >= b.window_start {
                    (now - b.window_start) / 1000
                } else {
                    0
                };
                let over: u32 = if b.requests > config.requests_per_minute {
                    b.requests - config.requests_per_minute
                } else {
                    0
                };
                RateLimitStatus {
                    tier: ledger.tier.name.clone(),
                    requests_used: b.requests,
                    requests_limit: config.requests_per_minute,
                    tokens_used: b.tokens,
                    tokens_limit: config.tokens_per_minute,
                    window_reset_in_seconds: if elapsed >= whole {
                        0
                    } else {
                        whole - elapsed
                    },
                    burst_available: if over >= config.burst_allowance {
                        0
                    } else {
                        config.burst_allowance - over
                    },
                }
            },
            _ => RateLimitStatus {
                tier: ledger.tier.name.clone(),
                requests_used: 0,
                requests_limit: config.requests_per_minute,
                tokens_used: 0,
                tokens_limit: config.tokens_per_minute,
                window_reset_in_seconds: whole,
                burst_available: config.burst_allowance,
            },
        }
    }
}

/// Whether a bucket has been idle for two windows at `now`.
pub open spec fn idle(bucket: RateLimitBucket, now: u64) -> bool {
    now >= bucket.window_start && now - bucket.window_start >= IDLE_MS
}

/// The keys of the buckets that are idle at `now`.
pub open spec fn idle_keys(buckets: Map<Seq<char>, RateLimitBucket>, now: u64) -> Set<Seq<char>> {
    Set::new(|k: Seq<char>| buckets.contains_key(k) && idle(buckets[k], now))
}

impl AdaptiveRateLimiter {
    /// Drops the buckets that have been idle for two windows.
    pub fn cleanup_expired_buckets(&mut self, now: u64)
        ensures
            final(self).buckets@ == old(self).buckets@.remove_keys(idle_keys(old(self).buckets@, now)),
    {
        let ghost before = self.buckets@;
        let ghost listing = self.buckets.listing();
        let n = self.buckets.len();
        let mut gone: Vec<String> = Vec::new();
        let mut i: usize = 0;
        while i < n
            invariant
                i <= n,
                n == listing.len(),
                listing == self.buckets.listing(),
                before == self.buckets@,
                forall|t: int|
                    0 <= t < gone@.len() ==> before.contains_key((#[trigger] gone@[t])@) && idle(
                        before[gone@[t]@],
                        now,
                    ),
                forall|j: int|
                    0 <= j < i && idle((#[trigger] listing[j]).1, now) ==> key_texts(
                        gone@,
                        gone@.len() as int,
                    ).contains(listing[j].0),
                forall|j: int|
                    0 <= j < listing.len() ==> before.contains_key((#[trigger] listing[j]).0)
                        && before[listing[j].0] == listing[j].1,
            decreases n - i,
        {
            let (key, bucket) = self.buckets.entry_at(i);
            if now >= bucket.window_start && now - bucket.window_start >= IDLE_MS {
                let ghost prior = gone@;
                gone.push(key.clone());
                proof {
                    assert forall|j: int|
                        0 <= j < i + 1 && idle((#[trigger] listing[j]).1, now) implies key_texts(
                        gone@,
                        gone@.len() as int,
                    ).contains(listing[j].0) by {
                        if j < i {
                            let t = choose|t: int|
                                0 <= t < prior.len() && (#[trigger] prior[t])@ == listing[j].0;
                            assert(gone@[t]@ == listing[j].0);
                        } else {
                            assert(gone@[gone@.len() - 1]@ == listing[j].0);
                        }
                    }
                }
            }
            i += 1;
        }
        proof {
            assert(key_texts(gone@, gone@.len() as int) =~= idle_keys(before, now)) by {
                assert forall|k: Seq<char>| idle_keys(before, now).contains(k) implies key_texts(
                    gone@,
                    gone@.len() as int,
                ).contains(k) by {
                    let j = choose|j: int| 0 <= j < listing.len() && #[trigger] listing[j].0 == k;
                    assert(idle(listing[j].1, now));
                }
            }
        }
        self.buckets.remove_all(&gone);
    }
}

/// The priority of a calling service; 100 for a service that is not listed.
pub open spec fn priority_of(service: Seq<char>) -> u8 {
    if service == "ghostllm"@ {
        255
    } else if service == "ghostflow"@ {
        200
    } else if service == "zeke"@ {
        180
    } else if service == "jarvis"@ {
        160
    } else if service == "external"@ {
        100
    } else if service == "development"@ {
        50
    } else {
        100
    }
}

/// By how many tenths the limits of a caller of a priority are multiplied:
/// five times for 255, three times for 200, two and a half times for 180,
/// twice for 160, once for any other.
pub open spec fn multiplier_tenths(priority: u8) -> u32 {
    if priority == 255 {
        50
    } else if priority == 200 {
        30
    } else if priority == 180 {
        25
    } else if priority == 160 {
        20
    } else {
        10
    }
}

/// What a service has left, and by how much its limits are multiplied.
#[derive(Debug, Clone)]
pub struct GhostServiceStatus {
    pub service_name: String,
    pub priority: u8,
    pub standard_limits: RateLimitStatus,
    /// In tenths.
    pub enhanced_multiplier: u32,
}

/// Rate limiting for calls between services: a caller's limits are those
/// of the tenant's tier, multiplied by what the service's priority earns.
pub struct GhostAIRateLimiter {
    pub adaptive_limiter: AdaptiveRateLimiter,
}

impl GhostAIRateLimiter {
    /// A limiter without buckets.
    pub fn new() -> (l: Self)
        ensures
            l.adaptive_limiter.buckets@ == Map::<Seq<char>, RateLimitBucket>::empty(),
    {
        GhostAIRateLimiter { adaptive_limiter: AdaptiveRateLimiter::new() }
    }

    /// Computes [`priority_of`].
    pub fn service_priority(service_name: &str) -> (p: u8)
        ensures
            p == priority_of(service_name@),
    {
        if str_eq(service_name, "ghostllm") {
            255
        } else if str_eq(service_name, "ghostflow") {
            200
        } else if str_eq(service_name, "zeke") {
            180
        } else if str_eq(service_name, "jarvis") {
            160
        } else if str_eq(service_name, "external") {
            100
        } else if str_eq(service_name, "development") {
            50
        } else {
            100
        }
    }

    /// Computes [`multiplier_tenths`].
    pub fn enhanced_multiplier(priority: u8) -> (t: u32)
        ensures
            t == multiplier_tenths(priority),
    {
        if priority == 255 {
            50
        } else if priority == 200 {
            30
        } else if priority == 180 {
            25
        } else if priority == 160 {
            20
        } else {
            10
        }
    }

    /// Checks a request of a service on behalf of a tenant.
    pub fn check_ghost_service_limit(
        &mut self,
        billing: &mut BillingManager,
        service_name: &str,
        user_id: &str,
        estimated_tokens: u32,
        now: u64,
    ) -> (r: Result<(), OmenError>)
        ensures
            final(billing)@ == old(billing)@.ensured(user_id@, secs_of(now)),
            ({
                let tier = old(billing)@.ledger_of(user_id@, secs_of(now)).tier.name;
                let config = raised(limits_of(tier), multiplier_tenths(priority_of(service_name@)));
                let bucket = bucket_of(old(self).adaptive_limiter.buckets@, user_id@, now);
                &&& final(self).adaptive_limiter.buckets@ == old(
                    self,
                ).adaptive_limiter.buckets@.insert(
                    user_id@,
                    bucket.checked(config, estimated_tokens, now),
                )
                &&& match r {
                    Ok(_) => bucket.as_of(now, config.window_size).admits(config, estimated_tokens),
                    Err(e) => e is RateLimitExceeded && !bucket.as_of(
                        now,
                        config.window_size,
                    ).admits(config, estimated_tokens),
                }
            }),
    {
        let priority = Self::service_priority(service_name);
        self.check_enhanced_rate_limit(billing, user_id, estimated_tokens, priority, now)
    }

    /// Checks a request against the limits that a priority earns.
    pub fn check_enhanced_rate_limit(
        &mut self,
        billing: &mut BillingManager,
        user_id: &str,
        estimated_tokens: u32,
        priority: u8,
        now: u64,
    ) -> (r: Result<(), OmenError>)
        ensures
            final(billing)@ == old(billing)@.ensured(user_id@, secs_of(now)),
            ({
                let tier = old(billing)@.ledger_of(user_id@, secs_of(now)).tier.name;
                let config = raised(limits_of(tier), multiplier_tenths(priority));
                let bucket = bucket_of(old(self).adaptive_limiter.buckets@, user_id@, now);
                &&& final(self).adaptive_limiter.buckets@ == old(
                    self,
                ).adaptive_limiter.buckets@.insert(
                    user_id@,
                    bucket.checked(config, estimated_tokens, now),
                )
                &&& match r {
                    Ok(_) => bucket.as_of(now, config.window_size).admits(config, estimated_tokens),
                    Err(e) => e is RateLimitExceeded && !bucket.as_of(
                        now,
                        config.window_size,
                    ).admits(config, estimated_tokens),
                }
            }),
    {
        let tenths = Self::enhanced_multiplier(priority);
        self.adaptive_limiter.check_with_multiplier(billing, user_id, estimated_tokens, now, tenths)
    }

    /// What a service has left on behalf of a tenant.
    pub fn get_ghost_service_status(
        &self,
        billing: &mut BillingManager,
        service_name: &str,
        user_id: &str,
        now: u64,
    ) -> (s: GhostServiceStatus)
        ensures
            final(billing)@ == old(billing)@.ensured(user_id@, secs_of(now)),
            s.service_name@ == service_name@,
            s.priority == priority_of(service_name@),
            s.enhanced_multiplier == multiplier_tenths(priority_of(service_name@)),
            reports(
                s.standard_limits,
                self.adaptive_limiter.buckets@,
                user_id@,
                old(billing)@.ledger_of(user_id@, secs_of(now)).tier.name,
                now,
            ),
    {
        let standard_limits = self.adaptive_limiter.get_rate_limit_status(billing, user_id, now);
        let priority = Self::service_priority(service_name);
        GhostServiceStatus {
            service_name: String::from_str(service_name),
            priority,
            standard_limits,
            enhanced_multiplier: Self::enhanced_multiplier(priority),
        }
    }
}

/// Multiplying by ten tenths changes nothing.
pub proof fn lemma_raised_by_one(config: RateLimitConfig)
    ensures
        raised(config, 10) == config,
{
}

} // verus!
