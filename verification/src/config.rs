//! The gateway's configuration, its defaults, and how the environment
//! overrides it. The environment is handed in as name and value pairs.

use vstd::prelude::*;
use crate::redis_info::{digits_value, is_digit, parse_number, parsed, run_len, run_length};
use crate::text::{opt_text, str_eq, texts, to_chars, trimmed};

verus! {

/// The whole configuration of the gateway.
#[derive(Debug, Clone)]
pub struct Config {
    pub server: ServerConfig,
    pub storage: StorageConfig,
    pub routing: RoutingConfig,
    pub providers: ProvidersConfig,
    pub auth: AuthConfig,
    pub logging: LoggingConfig,
    pub cache: CacheConfig,
}

/// Where the server listens and how it runs.
#[derive(Debug, Clone)]
pub struct ServerConfig {
    pub bind: String,
    pub port: u16,
    pub workers: usize,
    pub timeout_seconds: u64,
}

/// Where the gateway keeps its data.
#[derive(Debug, Clone)]
pub struct StorageConfig {
    pub db: String,
    pub redis: Option<String>,
}

/// How requests are routed.
#[derive(Debug, Clone)]
pub struct RoutingConfig {
    /// The intents that go to the local provider first.
    pub prefer_local_for: Vec<String>,
    /// Micro-dollars.
    pub budget_monthly_usd: u64,
    /// Soft limits by name, in micro-dollars.
    pub soft_limits: Vec<(String, u64)>,
    pub auto_swap: bool,
}

/// The settings of each provider.
#[derive(Debug, Clone)]
pub struct ProvidersConfig {
    pub openai: ProviderConfig,
    pub anthropic: ProviderConfig,
    pub google: ProviderConfig,
    pub ollama: OllamaConfig,
    pub azure: AzureConfig,
    pub xai: ProviderConfig,
    pub bedrock: BedrockConfig,
}

/// The settings of a provider that is reached with a key.
#[derive(Debug, Clone)]
pub struct ProviderConfig {
    pub enabled: bool,
    pub api_key: Option<String>,
    pub base_url: Option<String>,
    pub timeout_seconds: u64,
    pub models: Vec<String>,
}

/// The settings of the local provider.
#[derive(Debug, Clone)]
pub struct OllamaConfig {
    pub enabled: bool,
    pub endpoints: Vec<String>,
    pub models: Vec<String>,
    pub timeout_seconds: u64,
}

/// The settings of the Azure provider.
#[derive(Debug, Clone)]
pub struct AzureConfig {
    pub enabled: bool,
    pub endpoint: Option<String>,
    pub api_key: Option<String>,
    pub api_version: Option<String>,
    pub timeout_seconds: u64,
}

/// The settings of the Bedrock provider.
#[derive(Debug, Clone)]
pub struct BedrockConfig {
    pub enabled: bool,
    pub region: Option<String>,
    pub access_key_id: Option<String>,
    pub secret_access_key: Option<String>,
    pub session_token: Option<String>,
    pub timeout_seconds: u64,
}

/// Whether callers need a key, and the master key.
#[derive(Debug, Clone)]
pub struct AuthConfig {
    pub require_api_key: bool,
    pub master_key: Option<String>,
}

/// What is logged.
#[derive(Debug, Clone)]
pub struct LoggingConfig {
    pub level: String,
    pub enable_access_logs: bool,
}

/// The settings of the cache: where the store is, how long entries live in
/// seconds, and whether the cache is on.
#[derive(Debug, Clone)]
pub struct CacheConfig {
    pub redis_url: String,
    pub default_ttl_seconds: u64,
    pub response_cache_ttl: u64,
    pub session_cache_ttl: u64,
    pub rate_limit_ttl: u64,
    pub provider_health_ttl: u64,
    pub max_cache_size_mb: u64,
    pub enabled: bool,
}

/// The address that the server binds to: every address.
pub fn default_bind() -> (s: String)
    ensures
        s@ == "0.0.0.0"@,
{
    String::from_str("0.0.0.0")
}

/// The port that the server listens on.
pub fn default_port() -> (p: u16)
    ensures
        p == 8080,
{
    8080
}

/// Calls `num_cpus::get`: the number of logical CPUs that this process may
/// use, which is at least one.
#[verifier::external_body]
pub(crate) fn default_workers() -> (n: usize)
    ensures
        n >= 1,
{
    num_cpus::get()
}

/// The time that a request may take, in seconds.
pub fn default_timeout() -> (t: u64)
    ensures
        t == 30,
{
    30
}

/// Where the database is.
pub fn default_db_url() -> (s: String)
    ensures
        s@ == "sqlite:///data/omen.db"@,
{
    String::from_str("sqlite:///data/omen.db")
}

/// A hundred dollars, in micro-dollars.
pub fn default_budget() -> (b: u64)
    ensures
        b == 100_000_000,
{
    100_000_000
}

/// Whether providers are swapped automatically: they are not.
pub fn default_auto_swap() -> (b: bool)
    ensures
        !b,
{
    false
}

/// The level from which messages are logged.
pub fn default_log_level() -> (s: String)
    ensures
        s@ == "info"@,
{
    String::from_str("info")
}

/// Where the cache's store is.
pub fn default_redis_url() -> (s: String)
    ensures
        s@ == "redis://localhost:6379"@,
{
    String::from_str("redis://localhost:6379")
}

/// How long an entry of the cache lives, in seconds: an hour.
pub fn default_cache_ttl() -> (t: u64)
    ensures
        t == 3600,
{
    3600
}

/// How long a cached completion lives, in seconds: half an hour.
pub fn default_response_cache_ttl() -> (t: u64)
    ensures
        t == 1800,
{
    1800
}

/// How long a cached session lives, in seconds: two hours.
pub fn default_session_cache_ttl() -> (t: u64)
    ensures
        t == 7200,
{
    7200
}

/// How long a rate-limit counter lives, in seconds: a minute.
pub fn default_rate_limit_ttl() -> (t: u64)
    ensures
        t == 60,
{
    60
}

/// How long what is known of a provider's health may be used, in seconds:
/// five minutes.
pub fn default_provider_health_ttl() -> (t: u64)
    ensures
        t == 300,
{
    300
}

/// A gibibyte, in mebibytes.
pub fn default_max_cache_size() -> (n: u64)
    ensures
        n == 1024,
{
    1024
}

impl Default for ProviderConfig {
    fn default() -> (c: Self)
        ensures
            !c.enabled,
            c.api_key is None,
            c.base_url is None,
            c.timeout_seconds == 0,
            c.models@.len() == 0,
    {
        ProviderConfig {
            enabled: false,
            api_key: None,
            base_url: None,
            timeout_seconds: 0,
            models: Vec::new(),
        }
    }
}

impl Default for OllamaConfig {
    fn default() -> (c: Self)
        ensures
            !c.enabled,
            c.endpoints@.len() == 0,
            c.models@.len() == 0,
            c.timeout_seconds == 0,
    {
        OllamaConfig { enabled: false, endpoints: Vec::new(), models: Vec::new(), timeout_seconds: 0 }
    }
}

impl Default for AzureConfig {
    fn default() -> (c: Self)
        ensures
            !c.enabled,
            c.endpoint is None,
            c.api_key is None,
            c.api_version is None,
            c.timeout_seconds == 0,
    {
        AzureConfig {
            enabled: false,
            endpoint: None,
            api_key: None,
            api_version: None,
            timeout_seconds: 0,
        }
    }
}

impl Default for BedrockConfig {
    fn default() -> (c: Self)
        ensures
            !c.enabled,
            c.region is None,
            c.access_key_id is None,
            c.secret_access_key is None,
            c.session_token is None,
            c.timeout_seconds == 0,
    {
        BedrockConfig {
            enabled: false,
            region: None,
            access_key_id: None,
            secret_access_key: None,
            session_token: None,
            timeout_seconds: 0,
        }
    }
}

impl Default for AuthConfig {
    fn default() -> (c: Self)
        ensures
            !c.require_api_key,
            c.master_key is None,
    {
        AuthConfig { require_api_key: false, master_key: None }
    }
}

impl Default for LoggingConfig {
    fn default() -> (c: Self)
        ensures
            c.level@.len() == 0,
            !c.enable_access_logs,
    {
        LoggingConfig { level: String::new(), enable_access_logs: false }
    }
}

impl Default for CacheConfig {
    fn default() -> (c: Self)
        ensures
            c.redis_url@ == "redis://localhost:6379"@,
            c.default_ttl_seconds == 3600,
            c.response_cache_ttl == 1800,
            c.session_cache_ttl == 7200,
            c.rate_limit_ttl == 60,
            c.provider_health_ttl == 300,
            c.max_cache_size_mb == 1024,
            !c.enabled,
    {
        CacheConfig {
            redis_url: default_redis_url(),
            default_ttl_seconds: default_cache_ttl(),
            response_cache_ttl: default_response_cache_ttl(),
            session_cache_ttl: default_session_cache_ttl(),
            rate_limit_ttl: default_rate_limit_ttl(),
            provider_health_ttl: default_provider_health_ttl(),
            max_cache_size_mb: default_max_cache_size(),
            enabled: false,
        }
    }
}

impl Default for Config {
    /// No provider is enabled, no key is required, the cache is off, and
    /// the intents `code`, `regex` and `tests` go to the local provider first.
    fn default() -> (c: Self)
        ensures
            Config::is_default(c),
    {
        let mut prefer_local_for: Vec<String> = Vec::new();
        prefer_local_for.push(String::from_str("code"));
        prefer_local_for.push(String::from_str("regex"));
        prefer_local_for.push(String::from_str("tests"));
        Config {
            server: ServerConfig {
                bind: default_bind(),
                port: default_port(),
                workers: default_workers(),
                timeout_seconds: default_timeout(),
            },
            storage: StorageConfig { db: default_db_url(), redis: None },
            routing: RoutingConfig {
                prefer_local_for,
                budget_monthly_usd: default_budget(),
                soft_limits: Vec::new(),
                auto_swap: default_auto_swap(),
            },
            providers: ProvidersConfig {
                openai: ProviderConfig::default(),
                anthropic: ProviderConfig::default(),
                google: ProviderConfig::default(),
                ollama: OllamaConfig::default(),
                azure: AzureConfig::default(),
                xai: ProviderConfig::default(),
                bedrock: BedrockConfig::default(),
            },
            auth: AuthConfig::default(),
            logging: LoggingConfig::default(),
            cache: CacheConfig::default(),
        }
    }
}

/// The value of a variable of the environment: that of the first pair with
/// the name.
pub open spec fn env_value(env: Seq<(String, String)>, name: Seq<char>) -> Option<Seq<char>>
    decreases env.len(),
{
    if env.len() == 0 {
        None
    } else if env[0].0@ == name {
        Some(env[0].1@)
    } else {
        env_value(env.drop_first(), name)
    }
}

/// Computes [`env_value`].
pub fn env_get<'a>(env: &'a Vec<(String, String)>, name: &str) -> (r: Option<&'a String>)
    ensures
        match r {
            Some(v) => env_value(env@, name@) == Some(v@),
            None => env_value(env@, name@) is None,
        },
{
    let mut i: usize = 0;
    assert(env@.skip(0) =~= env@);
    while i < env.len()
        invariant
            i <= env@.len(),
            env_value(env@, name@) == env_value(env@.skip(i as int), name@),
        decreases env@.len() - i,
    {
        proof {
            assert(env@.skip(i as int).drop_first() =~= env@.skip(i + 1));
        }
        if str_eq(env[i].0.as_str(), name) {
            return Some(&env[i].1);
        }
        i += 1;
    }
    None
}

/// The items, from place `i` on, of a list written with commas, each
/// trimmed of whitespace. A list always has a last item, which may be empty.
pub open spec fn comma_list_from(s: Seq<char>, i: int) -> Seq<Seq<char>>
    decreases s.len() - i,
{
    if i < 0 || i + run_len(s, i, ',') >= s.len() {
        seq![trimmed(s.subrange(i, s.len() as int))]
    } else {
        seq![trimmed(s.subrange(i, i + run_len(s, i, ',')))] + comma_list_from(
            s,
            i + run_len(s, i, ',') + 1,
        )
    }
}

/// The items of a list written with commas, each trimmed of whitespace.
pub open spec fn comma_list(s: Seq<char>) -> Seq<Seq<char>> {
    comma_list_from(s, 0)
}

/// Computes [`comma_list`].
pub fn split_commas(s: &str) -> (items: Vec<String>)
    ensures
        crate::text::texts(items@) == comma_list(s@),
{
    let v = to_chars(s);
    let mut items: Vec<String> = Vec::new();
    let mut i: usize = 0;
    loop
        invariant_except_break
            i <= v@.len(),
            v@ == s@,
            comma_list(s@) =~= crate::text::texts(items@) + comma_list_from(v@, i as int),
        ensures
            crate::text::texts(items@) == comma_list(s@),
        decreases v@.len() - i,
    {
        let n = run_length(&v, i, ',');
        let ghost so_far = crate::text::texts(items@);
        let last = n >= v.len() - i;
        let end: usize = if last {
            v.len()
        } else {
            i + n
        };
        let piece = crate::redis_info::copy_range(&v, i, end);
        let (a, b) = crate::text::trim_bounds(&piece);
        let item = String::from_str(s.substring_char(i + a, i + b));
        proof {
            assert(v@.subrange(i + a, i + b) =~= piece@.subrange(a as int, b as int));
        }
        items.push(item);
        assert(crate::text::texts(items@) =~= so_far + seq![trimmed(v@.subrange(i as int, end as int))]);
        if last {
            break;
        }
        i = i + n + 1;
    }
    items
}

/// The six digits that stand for the fraction of a decimal number: its
/// first six, with zeros for those that it lacks.
pub open spec fn six_places(frac: Seq<char>) -> Seq<char> {
    Seq::new(
        6,
        |i: int|
            if i < frac.len() {
                frac[i]
            } else {
                '0'
            },
    )
}

/// The micro-dollars that a decimal number of dollars writes: digits, and
/// optionally a point and more digits, of which six count. `None` for any
/// other text and for an amount that is not representable.
pub open spec fn dollars(s: Seq<char>) -> Option<u64> {
    let n = run_len(s, 0, '.') as int;
    let whole = s.take(n);
    let frac = if n < s.len() {
        s.skip(n + 1)
    } else {
        Seq::<char>::empty()
    };
    if whole.len() == 0 || digits_value(whole) is None || digits_value(frac) is None {
        None
    } else {
        let total = digits_value(whole)->Some_0 * 1_000_000 + digits_value(six_places(frac))->Some_0;
        if total > u64::MAX {
            None
        } else {
            Some(total as u64)
        }
    }
}

fn all_digits(v: &Vec<char>) -> (b: bool)
    ensures
        b == (digits_value(v@) is Some),
        b ==> forall|i: int| 0 <= i < v@.len() ==> is_digit(#[trigger] v@[i]),
{
    let mut i: usize = 0;
    while i < v.len()
        invariant
            i <= v@.len(),
            digits_value(v@.take(i as int)) is Some,
            forall|j: int| 0 <= j < i ==> is_digit(#[trigger] v@[j]),
        decreases v@.len() - i,
    {
        proof {
            assert(v@.take(i + 1).drop_last() =~= v@.take(i as int));
        }
        if !('0' <= v[i] && v[i] <= '9') {
            proof {
                assert(digits_value(v@.take(i + 1)) is None);
                if digits_value(v@) is Some {
                    crate::redis_info::lemma_digits_grow(v@, i + 1);
                }
            }
            return false;
        }
        i += 1;
    }
    assert(v@.take(i as int) =~= v@);
    true
}

/// Computes [`dollars`].
pub fn parse_dollars(s: &str) -> (r: Option<u64>)
    ensures
        r == dollars(s@),
{
    let v = to_chars(s);
    let n = run_length(&v, 0, '.');
    let whole = crate::redis_info::copy_range(&v, 0, n);
    assert(whole@ =~= v@.take(n as int));
    let frac = if n < v.len() {
        crate::redis_info::copy_range(&v, n + 1, v.len())
    } else {
        Vec::new()
    };
    assert(frac@ =~= if n < v@.len() {
        v@.skip(n + 1)
    } else {
        Seq::<char>::empty()
    });
    if whole.len() == 0 || !all_digits(&whole) || !all_digits(&frac) {
        return None;
    }
    let mut six: Vec<char> = Vec::new();
    let mut i: usize = 0;
    while i < 6
        invariant
            i <= 6,
            six@ =~= six_places(frac@).take(i as int),
            forall|j: int| 0 <= j < frac@.len() ==> is_digit(#[trigger] frac@[j]),
            forall|j: int| 0 <= j < i ==> is_digit(#[trigger] six@[j]),
        decreases 6 - i,
    {
        if i < frac.len() {
            six.push(frac[i]);
        } else {
            six.push('0');
        }
        i += 1;
    }
    assert(six@ =~= six_places(frac@));
    proof {
        lemma_digits_bound(six@);
        assert(whole@.skip(0) =~= whole@);
        assert(six@.skip(0) =~= six@);
    }
    let w = parse_number(&whole);
    let f = parse_number(&six);
    match (w, f) {
        (Some(w), Some(f)) => {
            if w > (u64::MAX - f) / 1_000_000 {
                None
            } else {
                Some(w * 1_000_000 + f)
            }
        },
        _ => None,
    }
}

/// A text of digits writes a number below ten to the power of its length.
pub proof fn lemma_digits_bound(s: Seq<char>)
    requires
        forall|j: int| 0 <= j < s.len() ==> is_digit(#[trigger] s[j]),
    ensures
        digits_value(s) is Some,
        s.len() <= 6 ==> digits_value(s)->Some_0 < 1_000_000,
        s.len() <= 5 ==> digits_value(s)->Some_0 < 100_000,
        s.len() <= 4 ==> digits_value(s)->Some_0 < 10_000,
        s.len() <= 3 ==> digits_value(s)->Some_0 < 1_000,
        s.len() <= 2 ==> digits_value(s)->Some_0 < 100,
        s.len() <= 1 ==> digits_value(s)->Some_0 < 10,
        s.len() == 0 ==> digits_value(s)->Some_0 == 0,
    decreases s.len(),
{
    if s.len() > 0 {
        assert forall|j: int| 0 <= j < s.drop_last().len() implies is_digit(
            #[trigger] s.drop_last()[j],
        ) by {
            assert(s.drop_last()[j] == s[j]);
        }
        lemma_digits_bound(s.drop_last());
        assert(is_digit(s[s.len() - 1]));
    }
}


/// How a key of the environment bears on a provider: it enables the
/// provider and becomes its key.
pub open spec fn keyed_provider(old: ProviderConfig, key: Option<Seq<char>>, new: ProviderConfig) -> bool {
    &&& match key {
        Some(k) => new.enabled && opt_text(new.api_key) == Some(k),
        None => new.enabled == old.enabled && new.api_key == old.api_key,
    }
    &&& new.base_url == old.base_url
    &&& new.timeout_seconds == old.timeout_seconds
    &&& new.models == old.models
}

/// The port that a text writes, or the port as it was.
pub open spec fn port_or(value: Option<Seq<char>>, old: u16) -> u16 {
    match value {
        Some(v) => match parsed(v) {
            Some(p) => if p <= u16::MAX {
                p as u16
            } else {
                old
            },
            None => old,
        },
        None => old,
    }
}

/// A text where the environment sets one, else the text as it was.
pub open spec fn text_or(value: Option<Seq<char>>, old: Seq<char>) -> Seq<char> {
    match value {
        Some(v) => v,
        None => old,
    }
}

/// An optional text that the environment may set.
pub open spec fn set_or(value: Option<Seq<char>>, old: Option<String>, new: Option<String>) -> bool {
    match value {
        Some(v) => opt_text(new) == Some(v),
        None => new == old,
    }
}

/// A list that the environment may set, written with commas.
pub open spec fn list_or(value: Option<Seq<char>>, old: Vec<String>, new: Vec<String>) -> bool {
    match value {
        Some(v) => texts(new@) == comma_list(v),
        None => new == old,
    }
}

impl Config {
    /// Whether a configuration is the default one, whatever its number of
    /// workers: the server listens on every address at port 8080, nothing
    /// is started and nothing is required.
    pub open spec fn is_default(c: Config) -> bool {
        &&& c.server.bind@ == "0.0.0.0"@
        &&& c.server.port == 8080
        &&& c.server.workers >= 1
        &&& c.server.timeout_seconds == 30
        &&& c.storage.db@ == "sqlite:///data/omen.db"@
        &&& c.storage.redis is None
        &&& c.routing.prefer_local_for@.len() == 3
        &&& c.routing.prefer_local_for@[0]@ == "code"@
        &&& c.routing.prefer_local_for@[1]@ == "regex"@
        &&& c.routing.prefer_local_for@[2]@ == "tests"@
        &&& c.routing.budget_monthly_usd == 100_000_000
        &&& c.routing.soft_limits@.len() == 0
        &&& !c.routing.auto_swap
        &&& Self::provider_off(c.providers.openai)
        &&& Self::provider_off(c.providers.anthropic)
        &&& Self::provider_off(c.providers.google)
        &&& Self::provider_off(c.providers.xai)
        &&& !c.providers.ollama.enabled
        &&& c.providers.ollama.endpoints@.len() == 0
        &&& c.providers.ollama.models@.len() == 0
        &&& c.providers.ollama.timeout_seconds == 0
        &&& !c.providers.azure.enabled
        &&& c.providers.azure.endpoint is None
        &&& c.providers.azure.api_key is None
        &&& c.providers.azure.api_version is None
        &&& c.providers.azure.timeout_seconds == 0
        &&& !c.providers.bedrock.enabled
        &&& c.providers.bedrock.region is None
        &&& c.providers.bedrock.access_key_id is None
        &&& c.providers.bedrock.secret_access_key is None
        &&& c.providers.bedrock.session_token is None
        &&& c.providers.bedrock.timeout_seconds == 0
        &&& !c.auth.require_api_key
        &&& c.auth.master_key is None
        &&& c.logging.level@.len() == 0
        &&& !c.logging.enable_access_logs
        &&& c.cache.redis_url@ == "redis://localhost:6379"@
        &&& c.cache.default_ttl_seconds == 3600
        &&& c.cache.response_cache_ttl == 1800
        &&& c.cache.session_cache_ttl == 7200
        &&& c.cache.rate_limit_ttl == 60
        &&& c.cache.provider_health_ttl == 300
        &&& c.cache.max_cache_size_mb == 1024
        &&& !c.cache.enabled
    }

    /// A provider that is not enabled and has no settings.
    pub open spec fn provider_off(p: ProviderConfig) -> bool {
        &&& !p.enabled
        &&& p.api_key is None
        &&& p.base_url is None
        &&& p.timeout_seconds == 0
        &&& p.models@.len() == 0
    }

    /// Whether `new` is `old` as the environment overrides it: a variable
    /// that is set replaces the setting it names, and enables the provider
    /// whose key or address it holds; Bedrock needs its region and both of
    /// its keys. A port or a budget that does not parse is left as it was.
    pub open spec fn overridden(old: Config, env: Seq<(String, String)>, new: Config) -> bool {
        &&& new.server.bind@ == text_or(env_value(env, "OMEN_BIND"@), old.server.bind@)
        &&& new.server.port == port_or(env_value(env, "OMEN_PORT"@), old.server.port)
        &&& new.server.workers == old.server.workers
        &&& new.server.timeout_seconds == old.server.timeout_seconds
        &&& new.storage.db@ == text_or(env_value(env, "OMEN_DB_URL"@), old.storage.db@)
        &&& set_or(env_value(env, "OMEN_REDIS_URL"@), old.storage.redis, new.storage.redis)
        &&& keyed_provider(
            old.providers.openai,
            env_value(env, "OMEN_OPENAI_API_KEY"@),
            new.providers.openai,
        )
        &&& keyed_provider(
            old.providers.anthropic,
            env_value(env, "OMEN_ANTHROPIC_API_KEY"@),
            new.providers.anthropic,
        )
        &&& keyed_provider(
            old.providers.google,
            env_value(env, "OMEN_GOOGLE_API_KEY"@),
            new.providers.google,
        )
        &&& keyed_provider(old.providers.xai, env_value(env, "OMEN_XAI_API_KEY"@), new.providers.xai)
        &&& Self::azure_overridden(old.providers.azure, env, new.providers.azure)
        &&& Self::ollama_overridden(old.providers.ollama, env, new.providers.ollama)
        &&& Self::bedrock_overridden(old.providers.bedrock, env, new.providers.bedrock)
        &&& list_or(
            env_value(env, "OMEN_ROUTER_PREFER_LOCAL_FOR"@),
            old.routing.prefer_local_for,
            new.routing.prefer_local_for,
        )
        &&& new.routing.budget_monthly_usd == match env_value(env, "OMEN_BUDGET_MONTHLY_USD"@) {
            Some(v) => match dollars(v) {
                Some(b) => b,
                None => old.routing.budget_monthly_usd,
            },
            None => old.routing.budget_monthly_usd,
        }
        &&& new.routing.soft_limits == old.routing.soft_limits
        &&& new.routing.auto_swap == old.routing.auto_swap
        &&& new.auth == old.auth
        &&& new.logging == old.logging
        &&& new.cache == old.cache
    }

    /// How the environment bears on Azure: an endpoint enables the provider,
    /// and only with an endpoint does a key count.
    pub open spec fn azure_overridden(old: AzureConfig, env: Seq<(String, String)>, new: AzureConfig) -> bool {
        &&& match env_value(env, "OMEN_AZURE_OPENAI_ENDPOINT"@) {
            Some(e) => new.enabled && opt_text(new.endpoint) == Some(e) && set_or(
                env_value(env, "OMEN_AZURE_OPENAI_API_KEY"@),
                old.api_key,
                new.api_key,
            ),
            None => new.enabled == old.enabled && new.endpoint == old.endpoint && new.api_key
                == old.api_key,
        }
        &&& new.api_version == old.api_version
        &&& new.timeout_seconds == old.timeout_seconds
    }

    /// How the environment bears on the local provider: a list of endpoints
    /// enables it.
    pub open spec fn ollama_overridden(old: OllamaConfig, env: Seq<(String, String)>, new: OllamaConfig) -> bool {
        &&& match env_value(env, "OMEN_OLLAMA_ENDPOINTS"@) {
            Some(v) => new.enabled && texts(new.endpoints@) == comma_list(v),
            None => new.enabled == old.enabled && new.endpoints == old.endpoints,
        }
        &&& new.models == old.models
        &&& new.timeout_seconds == old.timeout_seconds
    }

    /// How the environment bears on Bedrock: the region and both keys
    /// together enable it, and only then does a session token count.
    pub open spec fn bedrock_overridden(
        old: BedrockConfig,
        env: Seq<(String, String)>,
        new: BedrockConfig,
    ) -> bool {
        &&& match (
            env_value(env, "AWS_REGION"@),
            env_value(env, "AWS_ACCESS_KEY_ID"@),
            env_value(env, "AWS_SECRET_ACCESS_KEY"@),
        ) {
            (Some(region), Some(access), Some(secret)) => new.enabled && opt_text(new.region)
                == Some(region) && opt_text(new.access_key_id) == Some(access) && opt_text(
                new.secret_access_key,
            ) == Some(secret) && set_or(
                env_value(env, "AWS_SESSION_TOKEN"@),
                old.session_token,
                new.session_token,
            ),
            _ => new.enabled == old.enabled && new.region == old.region && new.access_key_id
                == old.access_key_id && new.secret_access_key == old.secret_access_key
                && new.session_token == old.session_token,
        }
        &&& new.timeout_seconds == old.timeout_seconds
    }

    /// Lets the environment override the configuration: see [`Config::overridden`].
    pub fn apply_env_overrides(&mut self, env: &Vec<(String, String)>)
        ensures
            Self::overridden(*old(self), env@, *final(self)),
    {
        override_server(&mut self.server, env);
        override_storage(&mut self.storage, env);
        override_key(&mut self.providers.openai, env, "OMEN_OPENAI_API_KEY");
        override_key(&mut self.providers.anthropic, env, "OMEN_ANTHROPIC_API_KEY");
        override_key(&mut self.providers.google, env, "OMEN_GOOGLE_API_KEY");
        override_key(&mut self.providers.xai, env, "OMEN_XAI_API_KEY");
        override_azure(&mut self.providers.azure, env);
        override_ollama(&mut self.providers.ollama, env);
        override_bedrock(&mut self.providers.bedrock, env);
        override_routing(&mut self.routing, env);
    }

    /// The configuration to run under: the one that was read, or the
    /// default where none was, as the environment overrides it.
    pub fn load(read: Option<Config>, env: &Vec<(String, String)>) -> (c: Config)
        ensures
            exists|base: Config|
                #![trigger Self::overridden(base, env@, c)]
                Self::overridden(base, env@, c) && match read {
                    Some(given) => base == given,
                    None => Self::is_default(base),
                },
    {
        let mut c = match read {
            Some(given) => given,
            None => Config::default(),
        };
        let ghost base = c;
        c.apply_env_overrides(env);
        assert(Self::overridden(base, env@, c));
        c
    }
}


fn override_server(server: &mut ServerConfig, env: &Vec<(String, String)>)
    ensures
        final(server).bind@ == text_or(env_value(env@, "OMEN_BIND"@), old(server).bind@),
        final(server).port == port_or(env_value(env@, "OMEN_PORT"@), old(server).port),
        final(server).workers == old(server).workers,
        final(server).timeout_seconds == old(server).timeout_seconds,
{
    if let Some(v) = env_get(env, "OMEN_BIND") {
        server.bind = v.clone();
    }
    if let Some(v) = env_get(env, "OMEN_PORT") {
        let digits = to_chars(v.as_str());
        if let Some(p) = parse_number(&digits) {
            if p <= 65535 {
                server.port = p as u16;
            }
        }
    }
}

fn override_storage(storage: &mut StorageConfig, env: &Vec<(String, String)>)
    ensures
        final(storage).db@ == text_or(env_value(env@, "OMEN_DB_URL"@), old(storage).db@),
        set_or(env_value(env@, "OMEN_REDIS_URL"@), old(storage).redis, final(storage).redis),
{
    if let Some(v) = env_get(env, "OMEN_DB_URL") {
        storage.db = v.clone();
    }
    if let Some(v) = env_get(env, "OMEN_REDIS_URL") {
        storage.redis = Some(v.clone());
    }
}

fn override_key(provider: &mut ProviderConfig, env: &Vec<(String, String)>, name: &str)
    ensures
        keyed_provider(*old(provider), env_value(env@, name@), *final(provider)),
{
    if let Some(v) = env_get(env, name) {
        provider.enabled = true;
        provider.api_key = Some(v.clone());
    }
}

fn override_azure(azure: &mut AzureConfig, env: &Vec<(String, String)>)
    ensures
        Config::azure_overridden(*old(azure), env@, *final(azure)),
{
    if let Some(e) = env_get(env, "OMEN_AZURE_OPENAI_ENDPOINT") {
        azure.enabled = true;
        azure.endpoint = Some(e.clone());
        if let Some(k) = env_get(env, "OMEN_AZURE_OPENAI_API_KEY") {
            azure.api_key = Some(k.clone());
        }
    }
}

fn override_ollama(ollama: &mut OllamaConfig, env: &Vec<(String, String)>)
    ensures
        Config::ollama_overridden(*old(ollama), env@, *final(ollama)),
{
    if let Some(v) = env_get(env, "OMEN_OLLAMA_ENDPOINTS") {
        ollama.enabled = true;
        ollama.endpoints = split_commas(v.as_str());
    }
}

fn override_bedrock(bedrock: &mut BedrockConfig, env: &Vec<(String, String)>)
    ensures
        Config::bedrock_overridden(*old(bedrock), env@, *final(bedrock)),
{
    if let Some(region) = env_get(env, "AWS_REGION") {
        if let Some(access) = env_get(env, "AWS_ACCESS_KEY_ID") {
            if let Some(secret) = env_get(env, "AWS_SECRET_ACCESS_KEY") {
                bedrock.enabled = true;
                bedrock.region = Some(region.clone());
                bedrock.access_key_id = Some(access.clone());
                bedrock.secret_access_key = Some(secret.clone());
                if let Some(token) = env_get(env, "AWS_SESSION_TOKEN") {
                    bedrock.session_token = Some(token.clone());
                }
            }
        }
    }
}

fn override_routing(routing: &mut RoutingConfig, env: &Vec<(String, String)>)
    ensures
        list_or(
            env_value(env@, "OMEN_ROUTER_PREFER_LOCAL_FOR"@),
            old(routing).prefer_local_for,
            final(routing).prefer_local_for,
        ),
        final(routing).budget_monthly_usd == match env_value(env@, "OMEN_BUDGET_MONTHLY_USD"@) {
            Some(v) => match dollars(v) {
                Some(b) => b,
                None => old(routing).budget_monthly_usd,
            },
            None => old(routing).budget_monthly_usd,
        },
        final(routing).soft_limits == old(routing).soft_limits,
        final(routing).auto_swap == old(routing).auto_swap,
{
    if let Some(v) = env_get(env, "OMEN_ROUTER_PREFER_LOCAL_FOR") {
        routing.prefer_local_for = split_commas(v.as_str());
    }
    if let Some(v) = env_get(env, "OMEN_BUDGET_MONTHLY_USD") {
        if let Some(b) = parse_dollars(v.as_str()) {
            routing.budget_monthly_usd = b;
        }
    }
}

} // verus!
