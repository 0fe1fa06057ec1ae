//! The response cache's protocol: how entries are keyed, which command the
//! backing store is sent for each operation, and how long each kind of
//! entry lives. The store itself is reached by the caller.

use vstd::prelude::*;
use vstd::bytes::{spec_u32_to_le_bytes, u32_to_le_bytes};
use vstd::std_specs::hash::*;
use vstd::utf8::encode_utf8;
use std::collections::hash_map::DefaultHasher;
use std::hash::Hasher;
use crate::amount::{add_count, capped_count};
use crate::clock::{stamp_of, stamp_or_empty, stamp_text};
use crate::redis_info::{extract_redis_stat, stat_value};
use crate::text::{hex, hex_fixed, hex_fixed_string, hex_string, str_eq};
use crate::types::{ChatCompletionResponse, ChatMessage, ContentPart, MessageContent};

verus! {

/// How long each kind of entry lives, in seconds, and where the store is.
#[derive(Debug, Clone)]
pub struct CacheConfig {
    pub redis_url: String,
    pub default_ttl_seconds: u64,
    pub response_cache_ttl: u64,
    pub session_cache_ttl: u64,
    pub rate_limit_ttl: u64,
    pub provider_health_ttl: u64,
    pub max_cache_size_mb: u64,
}

impl Default for CacheConfig {
    fn default() -> (c: Self)
        ensures
            c.redis_url@ == "redis://localhost:6379"@,
            c.default_ttl_seconds == 3600,
            c.response_cache_ttl == 1800,
            c.session_cache_ttl == 7200,
            c.rate_limit_ttl == 60,
            c.provider_health_ttl == 300,
            c.max_cache_size_mb == 1024,
    {
        CacheConfig {
            redis_url: String::from_str("redis://localhost:6379"),
            default_ttl_seconds: 3600,
            response_cache_ttl: 1800,
            session_cache_ttl: 7200,
            rate_limit_ttl: 60,
            provider_health_ttl: 300,
            max_cache_size_mb: 1024,
        }
    }
}

/// A completion as the cache keeps it. Once written, nothing of an entry
/// changes but the count of its hits.
#[derive(Debug, Clone)]
pub struct CachedResponse {
    pub response: ChatCompletionResponse,
    pub provider_used: String,
    /// Micro-dollars.
    pub cost_usd: u64,
    /// Unix time.
    pub cached_at: i64,
    /// How often the entry answered a request.
    pub cache_hit_count: u32,
}

impl CachedResponse {
    /// The entry after one more hit: the count is one higher, held at the
    /// largest representable count, and all else is as it was.
    pub open spec fn hit(self) -> CachedResponse {
        CachedResponse { cache_hit_count: capped_count(self.cache_hit_count, 1), ..self }
    }
}

/// A session as the cache keeps it.
#[derive(Debug, Clone)]
pub struct CachedSession {
    pub session_id: u128,
    pub service: String,
    pub user_id: String,
    /// The workflow's data, as JSON text.
    pub workflow_data: String,
    pub last_activity: i64,
    pub request_count: u32,
    pub total_cost: u64,
}

/// What a health probe found, as the cache keeps it.
#[derive(Debug, Clone)]
pub struct CachedProviderHealth {
    pub provider_id: String,
    pub healthy: bool,
    pub last_checked: i64,
    pub response_time_ms: u64,
    pub error_message: Option<String>,
}

/// How the store is doing; the hit rate is in parts per million.
#[derive(Debug, Clone, Copy, PartialEq, Eq, Structural)]
pub struct CacheStats {
    pub memory_used_bytes: u64,
    pub memory_peak_bytes: u64,
    pub hit_rate: u64,
    pub total_hits: u64,
    pub total_misses: u64,
}

/// A command for the backing store.
#[derive(Debug, Clone)]
pub enum CacheCommand {
    Get { key: String },
    /// Set a value that expires after `ttl` seconds.
    SetEx { key: String, value: String, ttl: u64 },
    /// Set a value in place of the one that is there, which keeps its time
    /// to live.
    SetKeepTtl { key: String, value: String },
    Incr { key: String, by: u64 },
    Expire { key: String, ttl: u64 },
    Keys { pattern: String },
    Del { keys: Vec<String> },
    Info,
}

/// The connections that may wait in the pool.
pub const POOL_CAP: usize = 10;

/// The sampling temperature that a request without one is keyed under: the
/// bit pattern of 0.7.
pub const DEFAULT_TEMPERATURE_BITS: u32 = 0x3F33_3333;

/// What hashing a text writes: its bytes, then a byte that ends it.
pub open spec fn text_writes(t: Seq<char>) -> Seq<Seq<u8>> {
    seq![encode_utf8(t), seq![0xffu8]]
}

/// What hashing the parts of a message writes: each text, and the address
/// of each image, in order.
pub open spec fn parts_writes(parts: Seq<ContentPart>) -> Seq<Seq<u8>>
    decreases parts.len(),
{
    if parts.len() == 0 {
        seq![]
    } else {
        parts_writes(parts.drop_last()) + match parts.last() {
            ContentPart::Text { text } => text_writes(text@),
            ContentPart::ImageUrl { image_url } => text_writes(image_url.url@),
        }
    }
}

/// What hashing a message's content writes.
pub open spec fn content_writes(content: MessageContent) -> Seq<Seq<u8>> {
    match content {
        MessageContent::Text(t) => text_writes(t@),
        MessageContent::Parts(parts) => parts_writes(parts@),
    }
}

/// What hashing the messages writes: role and content of each, in order.
pub open spec fn messages_writes(messages: Seq<ChatMessage>) -> Seq<Seq<u8>>
    decreases messages.len(),
{
    if messages.len() == 0 {
        seq![]
    } else {
        messages_writes(messages.drop_last()) + text_writes(messages.last().role@) + content_writes(
            messages.last().content,
        )
    }
}

/// What hashing a request writes: the tenant, the model, the temperature's
/// bit pattern and the messages.
pub open spec fn fingerprint_writes(
    user_id: Seq<char>,
    model: Seq<char>,
    temperature: Option<u32>,
    messages: Seq<ChatMessage>,
) -> Seq<Seq<u8>> {
    text_writes(user_id) + text_writes(model) + seq![
        spec_u32_to_le_bytes(
            match temperature {
                Some(t) => t,
                None => DEFAULT_TEMPERATURE_BITS,
            },
        ),
    ] + messages_writes(messages)
}

/// The key of a completion: `resp:`, the tenant, and the fingerprint of the
/// request in hexadecimal.
pub open spec fn response_key(
    user_id: Seq<char>,
    model: Seq<char>,
    temperature: Option<u32>,
    messages: Seq<ChatMessage>,
) -> Seq<char> {
    "resp:"@ + user_id + ":"@ + hex(
        DefaultHasher::spec_finish(fingerprint_writes(user_id, model, temperature, messages)) as nat,
    )
}

/// A UUID in its usual form: 32 hexadecimal digits in groups of 8, 4, 4, 4
/// and 12, joined by hyphens.
pub open spec fn uuid_text(id: u128) -> Seq<char> {
    hex_fixed((id / 0x1_0000_0000_0000_0000_0000_0000) as nat, 8) + "-"@ + hex_fixed(
        ((id / 0x1_0000_0000_0000_0000_0000) % 0x1_0000) as nat,
        4,
    ) + "-"@ + hex_fixed(((id / 0x1_0000_0000_0000_0000) % 0x1_0000) as nat, 4) + "-"@ + hex_fixed(
        ((id / 0x1_0000_0000_0000) % 0x1_0000) as nat,
        4,
    ) + "-"@ + hex_fixed((id % 0x1_0000_0000_0000) as nat, 12)
}

/// Writes a UUID in its usual form.
pub fn uuid_string(id: u128) -> (r: String)
    ensures
        r@ == uuid_text(id),
{
    let mut r = hex_fixed_string(id / 0x1_0000_0000_0000_0000_0000_0000, 8);
    r.append("-");
    r.append(hex_fixed_string((id / 0x1_0000_0000_0000_0000_0000) % 0x1_0000, 4).as_str());
    r.append("-");
    r.append(hex_fixed_string((id / 0x1_0000_0000_0000_0000) % 0x1_0000, 4).as_str());
    r.append("-");
    r.append(hex_fixed_string((id / 0x1_0000_0000_0000) % 0x1_0000, 4).as_str());
    r.append("-");
    r.append(hex_fixed_string(id % 0x1_0000_0000_0000, 12).as_str());
    assert(r@ =~= uuid_text(id));
    r
}

fn write_text(h: &mut DefaultHasher, t: &str)
    ensures
        final(h)@ == old(h)@ + text_writes(t@),
{
    h.write(t.as_bytes());
    let mut end: Vec<u8> = Vec::new();
    end.push(0xff);
    h.write(end.as_slice());
    assert(h@ =~= old(h)@ + text_writes(t@));
}

fn prefixed(prefix: &str, rest: &str) -> (r: String)
    ensures
        r@ == prefix@ + rest@,
{
    let mut r = String::from_str(prefix);
    r.append(rest);
    r
}

/// The cache as the gateway sees it: its configuration and how many
/// connections wait in the pool.
#[derive(Debug, Clone)]
pub struct RedisCache {
    pub config: CacheConfig,
    /// At most [`POOL_CAP`].
    pub pooled: usize,
}

impl RedisCache {
    /// A cache with the given settings and an empty pool.
    pub fn new(config: CacheConfig) -> (c: Self)
        ensures
            c.config == config,
            c.pooled == 0,
    {
        RedisCache { config, pooled: 0 }
    }

    /// Takes a connection: one of the pool where one waits (`true`), else a
    /// new one is to be opened (`false`).
    pub fn get_connection(&mut self) -> (reused: bool)
        ensures
            reused == (old(self).pooled > 0),
            final(self).pooled == if old(self).pooled > 0 {
                old(self).pooled - 1
            } else {
                0
            },
            final(self).config == old(self).config,
    {
        if self.pooled > 0 {
            self.pooled = self.pooled - 1;
            true
        } else {
            false
        }
    }

    /// Gives a connection back: it is kept (`true`) while fewer than ten
    /// wait, and closed otherwise.
    pub fn return_connection(&mut self) -> (kept: bool)
        ensures
            kept == (old(self).pooled < POOL_CAP),
            final(self).pooled == if old(self).pooled < POOL_CAP {
                old(self).pooled + 1
            } else {
                old(self).pooled as int
            },
            final(self).config == old(self).config,
    {
        if self.pooled < POOL_CAP {
            self.pooled = self.pooled + 1;
            true
        } else {
            false
        }
    }

    /// The command that looks a completion up.
    pub fn get_cached_response(&self, cache_key: &str) -> (c: CacheCommand)
        ensures
            c matches CacheCommand::Get { key } && key@ == "response:"@ + cache_key@,
    {
        CacheCommand::Get { key: prefixed("response:", cache_key) }
    }

    /// The entry for a completion that was just made: no hit yet.
    pub fn new_entry(response: ChatCompletionResponse, provider_used: &str, cost_usd: u64, now: i64) -> (e:
        CachedResponse)
        ensures
            e.response == response,
            e.provider_used@ == provider_used@,
            e.cost_usd == cost_usd,
            e.cached_at == now,
            e.cache_hit_count == 0,
    {
        CachedResponse {
            response,
            provider_used: String::from_str(provider_used),
            cost_usd,
            cached_at: now,
            cache_hit_count: 0,
        }
    }

    /// The command that stores a completion, serialised as `payload`, for
    /// as long as completions live.
    pub fn cache_response(&self, cache_key: &str, payload: String) -> (c: CacheCommand)
        ensures
            c matches CacheCommand::SetEx { key, value, ttl } && key@ == "response:"@ + cache_key@
                && value == payload && ttl == self.config.response_cache_ttl,
    {
        CacheCommand::SetEx {
            key: prefixed("response:", cache_key),
            value: payload,
            ttl: self.config.response_cache_ttl,
        }
    }

    /// Counts one hit of an entry that the store gave back: see
    /// [`CachedResponse::hit`].
    pub fn count_hit(entry: CachedResponse) -> (e: CachedResponse)
        ensures
            e == entry.hit(),
    {
        CachedResponse { cache_hit_count: add_count(entry.cache_hit_count, 1), ..entry }
    }

    /// The command that writes an entry back after a hit, serialised as
    /// `payload`: the entry keeps the time that it has left to live.
    pub fn rewrite_response(&self, cache_key: &str, payload: String) -> (c: CacheCommand)
        ensures
            c matches CacheCommand::SetKeepTtl { key, value } && key@ == "response:"@ + cache_key@
                && value == payload,
    {
        CacheCommand::SetKeepTtl { key: prefixed("response:", cache_key), value: payload }
    }

    /// The command that counts one hit of a completion in the store's own
    /// counter for the key.
    pub fn increment_cache_hit(&self, cache_key: &str) -> (c: CacheCommand)
        ensures
            c matches CacheCommand::Incr { key, by } && key@ == "hits:"@ + cache_key@ && by == 1,
    {
        CacheCommand::Incr { key: prefixed("hits:", cache_key), by: 1 }
    }

    /// The command that looks a session up.
    pub fn get_cached_session(&self, session_id: u128) -> (c: CacheCommand)
        ensures
            c matches CacheCommand::Get { key } && key@ == "session:"@ + uuid_text(session_id),
    {
        CacheCommand::Get { key: self.generate_session_cache_key(session_id) }
    }

    /// The entry for a session that was just active.
    pub fn new_session(
        session_id: u128,
        service: &str,
        user_id: &str,
        workflow_data: String,
        request_count: u32,
        total_cost: u64,
        now: i64,
    ) -> (s: CachedSession)
        ensures
            s.session_id == session_id,
            s.service@ == service@,
            s.user_id@ == user_id@,
            s.workflow_data == workflow_data,
            s.last_activity == now,
            s.request_count == request_count,
            s.total_cost == total_cost,
    {
        CachedSession {
            session_id,
            service: String::from_str(service),
            user_id: String::from_str(user_id),
            workflow_data,
            last_activity: now,
            request_count,
            total_cost,
        }
    }

    /// The command that stores a session, serialised as `payload`, for as
    /// long as sessions live.
    pub fn cache_session(&self, session_id: u128, payload: String) -> (c: CacheCommand)
        ensures
            c matches CacheCommand::SetEx { key, value, ttl } && key@ == "session:"@ + uuid_text(
                session_id,
            ) && value == payload && ttl == self.config.session_cache_ttl,
    {
        CacheCommand::SetEx {
            key: self.generate_session_cache_key(session_id),
            value: payload,
            ttl: self.config.session_cache_ttl,
        }
    }

    /// The command that reads what a tenant has used in a window.
    pub fn get_rate_limit_usage(&self, user_id: &str, window: &str) -> (c: CacheCommand)
        ensures
            c matches CacheCommand::Get { key } && key@ == "rate:"@ + user_id@ + ":"@ + window@,
    {
        let mut key = prefixed("rate:", user_id);
        key.append(":");
        key.append(window);
        CacheCommand::Get { key }
    }

    /// The command that adds tokens to what a tenant has used in a window.
    pub fn increment_rate_limit(&self, user_id: &str, window: &str, tokens: u32) -> (c: CacheCommand)
        ensures
            c matches CacheCommand::Incr { key, by } && key@ == "rate:"@ + user_id@ + ":"@ + window@
                && by == tokens,
    {
        let mut key = prefixed("rate:", user_id);
        key.append(":");
        key.append(window);
        CacheCommand::Incr { key, by: tokens as u64 }
    }

    /// What follows an increment: where the counter is new (it now equals
    /// what was added), it is given the lifetime of rate-limit entries.
    pub fn rate_limit_expiry(&self, user_id: &str, window: &str, tokens: u32, new_count: u32) -> (c:
        Option<CacheCommand>)
        ensures
            new_count != tokens ==> c is None,
            new_count == tokens ==> (c matches Some(CacheCommand::Expire { key, ttl }) && key@
                == "rate:"@ + user_id@ + ":"@ + window@ && ttl == self.config.rate_limit_ttl),
    {
        if new_count == tokens {
            let mut key = prefixed("rate:", user_id);
            key.append(":");
            key.append(window);
            Some(CacheCommand::Expire { key, ttl: self.config.rate_limit_ttl })
        } else {
            None
        }
    }

    /// The command that looks up what is known of a provider's health.
    pub fn get_cached_provider_health(&self, provider_id: &str) -> (c: CacheCommand)
        ensures
            c matches CacheCommand::Get { key } && key@ == "health:"@ + provider_id@,
    {
        CacheCommand::Get { key: prefixed("health:", provider_id) }
    }

    /// Whether what is known of a provider's health may still be used at
    /// `now`: it was found less than the lifetime of health entries ago.
    pub fn health_is_fresh(&self, entry: &CachedProviderHealth, now: i64) -> (fresh: bool)
        ensures
            fresh == (entry.last_checked <= now && now - entry.last_checked
                < self.config.provider_health_ttl),
    {
        entry.last_checked <= now && ((now as i128) - (entry.last_checked as i128)) < (
        self.config.provider_health_ttl as i128)
    }

    /// The command that stores what a probe found, serialised as `payload`,
    /// for as long as health entries live.
    pub fn cache_provider_health(&self, provider_id: &str, payload: String) -> (c: CacheCommand)
        ensures
            c matches CacheCommand::SetEx { key, value, ttl } && key@ == "health:"@ + provider_id@
                && value == payload && ttl == self.config.provider_health_ttl,
    {
        CacheCommand::SetEx {
            key: prefixed("health:", provider_id),
            value: payload,
            ttl: self.config.provider_health_ttl,
        }
    }

    /// The command that lists the keys to clear: those that match the
    /// pattern, or all.
    pub fn clear_cache(pattern: Option<&str>) -> (c: CacheCommand)
        ensures
            c matches CacheCommand::Keys { pattern: p } && p@ == match pattern {
                Some(given) => given@,
                None => "*"@,
            },
    {
        CacheCommand::Keys {
            pattern: match pattern {
                Some(given) => String::from_str(given),
                None => String::from_str("*"),
            },
        }
    }

    /// The command that deletes the listed keys; none where the list is empty.
    pub fn clear_keys(keys: Vec<String>) -> (c: Option<CacheCommand>)
        ensures
            keys@.len() == 0 ==> c is None,
            keys@.len() > 0 ==> (c matches Some(CacheCommand::Del { keys: k }) && k == keys),
    {
        if keys.len() == 0 {
            None
        } else {
            Some(CacheCommand::Del { keys })
        }
    }

    /// The providers that a warm cache knows as healthy, each answering in
    /// a hundred milliseconds.
    pub fn warm_cache(now: i64) -> (entries: Vec<CachedProviderHealth>)
        ensures
            entries@.len() == 4,
            entries@[0].provider_id@ == "ollama"@,
            entries@[1].provider_id@ == "openai"@,
            entries@[2].provider_id@ == "anthropic"@,
            entries@[3].provider_id@ == "google"@,
            forall|i: int|
                0 <= i < 4 ==> (#[trigger] entries@[i]).healthy && entries@[i].response_time_ms
                    == 100 && entries@[i].last_checked == now && entries@[i].error_message is None,
    {
        let mut entries: Vec<CachedProviderHealth> = Vec::new();
        entries.push(Self::healthy_entry("ollama", now));
        entries.push(Self::healthy_entry("openai", now));
        entries.push(Self::healthy_entry("anthropic", now));
        entries.push(Self::healthy_entry("google", now));
        entries
    }

    fn healthy_entry(provider_id: &str, now: i64) -> (e: CachedProviderHealth)
        ensures
            e.provider_id@ == provider_id@,
            e.healthy,
            e.response_time_ms == 100,
            e.last_checked == now,
            e.error_message is None,
    {
        CachedProviderHealth {
            provider_id: String::from_str(provider_id),
            healthy: true,
            last_checked: now,
            response_time_ms: 100,
            error_message: None,
        }
    }

    /// How the store is doing, read off what it answers to `INFO`: the
    /// memory in use and at its peak, the hits and the misses, and the
    /// share of hits among both.
    pub fn get_cache_stats(info: &str) -> (s: CacheStats)
        ensures
            s.memory_used_bytes == stat_value(info@, "used_memory:"@),
            s.memory_peak_bytes == stat_value(info@, "used_memory_peak:"@),
            s.total_hits == stat_value(info@, "keyspace_hits:"@),
            s.total_misses == stat_value(info@, "keyspace_misses:"@),
            s.hit_rate == hit_rate(s.total_hits, s.total_misses),
    {
        let memory_used_bytes = extract_redis_stat(info, "used_memory:");
        let memory_peak_bytes = extract_redis_stat(info, "used_memory_peak:");
        let total_hits = extract_redis_stat(info, "keyspace_hits:");
        let total_misses = extract_redis_stat(info, "keyspace_misses:");
        let hit_rate: u64 = if total_hits == 0 && total_misses == 0 {
            0
        } else {
            let all: u128 = (total_hits as u128) + (total_misses as u128);
            assert(total_hits * 1_000_000 <= u64::MAX * 1_000_000) by (nonlinear_arith)
                requires
                    total_hits <= u64::MAX,
            ;
            let rate: u128 = (total_hits as u128) * 1_000_000 / all;
            assert(rate <= 1_000_000) by (nonlinear_arith)
                requires
                    rate == (total_hits as int * 1_000_000) / (all as int),
                    all >= total_hits,
                    all > 0,
            ;
            rate as u64
        };
        CacheStats { memory_used_bytes, memory_peak_bytes, hit_rate, total_hits, total_misses }
    }

    /// The key of a completion: see [`response_key`].
    pub fn generate_response_cache_key(
        &self,
        user_id: &str,
        messages: &Vec<ChatMessage>,
        model: &str,
        temperature: Option<u32>,
    ) -> (key: String)
        ensures
            key@ == response_key(user_id@, model@, temperature, messages@),
    {
        let mut h = DefaultHasher::new();
        write_text(&mut h, user_id);
        write_text(&mut h, model);
        let bits: u32 = match temperature {
            Some(t) => t,
            None => DEFAULT_TEMPERATURE_BITS,
        };
        let bytes = u32_to_le_bytes(bits);
        h.write(bytes.as_slice());
        let ghost head = h@;
        assert(head =~= text_writes(user_id@) + text_writes(model@) + seq![spec_u32_to_le_bytes(bits)]);
        let mut i: usize = 0;
        while i < messages.len()
            invariant
                i <= messages@.len(),
                h@ =~= head + messages_writes(messages@.take(i as int)),
            decreases messages@.len() - i,
        {
            proof {
                assert(messages@.take(i + 1).drop_last() =~= messages@.take(i as int));
            }
            let msg = &messages[i];
            write_text(&mut h, msg.role.as_str());
            match &msg.content {
                MessageContent::Text(t) => {
                    write_text(&mut h, t.as_str());
                },
                MessageContent::Parts(parts) => {
                    let ghost start = h@;
                    let mut j: usize = 0;
                    while j < parts.len()
                        invariant
                            j <= parts@.len(),
                            h@ =~= start + parts_writes(parts@.take(j as int)),
                        decreases parts@.len() - j,
                    {
                        proof {
                            assert(parts@.take(j + 1).drop_last() =~= parts@.take(j as int));
                        }
                        match &parts[j] {
                            ContentPart::Text { text } => {
                                write_text(&mut h, text.as_str());
                            },
                            ContentPart::ImageUrl { image_url } => {
                                write_text(&mut h, image_url.url.as_str());
                            },
                        }
                        j += 1;
                    }
                    proof {
                        assert(parts@.take(j as int) =~= parts@);
                    }
                },
            }
            i += 1;
        }
        proof {
            assert(messages@.take(i as int) =~= messages@);
        }
        let mut key = prefixed("resp:", user_id);
        key.append(":");
        key.append(hex_string(h.finish()).as_str());
        key
    }

    /// The key of a session: `session:` and the session's id in its usual form.
    pub fn generate_session_cache_key(&self, session_id: u128) -> (key: String)
        ensures
            key@ == "session:"@ + uuid_text(session_id),
    {
        prefixed("session:", uuid_string(session_id).as_str())
    }

    /// The key under which what a tenant used in the window of `now` is
    /// counted: `rate:`, the tenant, the kind of window, and the window's
    /// stamp. A kind other than `hour` and `day` counts by the minute.
    pub fn generate_rate_limit_key(&self, user_id: &str, window_type: &str, now: i64) -> (key: String)
        ensures
            key@ == "rate:"@ + user_id@ + ":"@ + window_type@ + ":"@ + stamp_text(
                now,
                window_pattern(window_type@),
            ),
    {
        let stamp = stamp_or_empty(
            if str_eq(window_type, "hour") {
                stamp_of(now, "%Y%m%d%H")
            } else if str_eq(window_type, "day") {
                stamp_of(now, "%Y%m%d")
            } else {
                stamp_of(now, "%Y%m%d%H%M")
            },
        );
        Self::rate_limit_key_with(user_id, window_type, stamp.as_str())
    }

    /// The key under which what a tenant used in a window is counted, for
    /// the stamp of the window.
    pub fn rate_limit_key_with(user_id: &str, window_type: &str, stamp: &str) -> (key: String)
        ensures
            key@ == "rate:"@ + user_id@ + ":"@ + window_type@ + ":"@ + stamp@,
    {
        let mut key = prefixed("rate:", user_id);
        key.append(":");
        key.append(window_type);
        key.append(":");
        key.append(stamp);
        key
    }
}

/// The share of hits among hits and misses, in parts per million; zero
/// where there were neither.
pub open spec fn hit_rate(hits: u64, misses: u64) -> u64 {
    if hits + misses == 0 {
        0
    } else {
        ((hits * 1_000_000) / (hits + misses)) as u64
    }
}

/// The pattern of the stamp of a kind of window.
pub open spec fn window_pattern(window_type: Seq<char>) -> Seq<char> {
    if window_type == "hour"@ {
        "%Y%m%d%H"@
    } else if window_type == "day"@ {
        "%Y%m%d"@
    } else {
        "%Y%m%d%H%M"@
    }
}

/// Two requests of the same tenant for the same model, with the same
/// temperature and the same messages, have the same key; and the key names
/// the tenant.
pub proof fn lemma_same_request_same_key(
    user_id: Seq<char>,
    model: Seq<char>,
    temperature: Option<u32>,
    a: Seq<ChatMessage>,
    b: Seq<ChatMessage>,
)
    requires
        a.len() == b.len(),
        forall|i: int|
            0 <= i < a.len() ==> (#[trigger] a[i]).role@ == b[i].role@ && content_writes(a[i].content)
                == content_writes(b[i].content),
    ensures
        response_key(user_id, model, temperature, a) == response_key(user_id, model, temperature, b),
        response_key(user_id, model, temperature, a).subrange(0, 5 + user_id.len() as int) == "resp:"@
            + user_id,
{
    lemma_same_writes(a, b);
    reveal_strlit("resp:");
    assert(response_key(user_id, model, temperature, a).subrange(0, 5 + user_id.len() as int) =~= "resp:"@
        + user_id);
}

proof fn lemma_same_writes(a: Seq<ChatMessage>, b: Seq<ChatMessage>)
    requires
        a.len() == b.len(),
        forall|i: int|
            0 <= i < a.len() ==> (#[trigger] a[i]).role@ == b[i].role@ && content_writes(a[i].content)
                == content_writes(b[i].content),
    ensures
        messages_writes(a) == messages_writes(b),
    decreases a.len(),
{
    if a.len() > 0 {
        assert forall|i: int| 0 <= i < a.drop_last().len() implies (#[trigger] a.drop_last()[i]).role@
            == b.drop_last()[i].role@ && content_writes(a.drop_last()[i].content) == content_writes(
            b.drop_last()[i].content,
        ) by {
            assert(a.drop_last()[i] == a[i]);
            assert(b.drop_last()[i] == b[i]);
        }
        lemma_same_writes(a.drop_last(), b.drop_last());
        assert(a.last() == a[a.len() - 1]);
    }
}

} // verus!
