//! Who is calling: API keys and what they allow, the request context built
//! for an authenticated caller, and the day's usage counters.

use vstd::prelude::*;
use crate::clock::{day_index, day_of};
use crate::amount::{add_amount, add_count, capped_count, capped_sum};
use crate::store::TextMap;
use crate::text::{
    decimal, decimal_string, has_substring, lowercase_of, str_contains, str_eq, tags_view, to_chars,
};
use crate::types::{ChatCompletionRequest, RequestContext};

verus! {

/// What an API key stands for.
#[derive(Debug, Clone)]
pub struct ApiKeyInfo {
    pub user_id: String,
    pub name: String,
    /// The actions that the key allows; `*` allows every action.
    pub permissions: Vec<String>,
    pub rate_limit_per_hour: Option<u32>,
    /// Micro-dollars.
    pub budget_usd_per_day: Option<u64>,
    /// The models that the key may use; `None` allows every model.
    pub allowed_models: Option<Vec<String>>,
    /// Unix time.
    pub created_at: i64,
    pub last_used: Option<i64>,
}

/// Request and token ceilings of a key.
#[derive(Debug, Clone, Copy)]
pub struct RateLimit {
    pub requests_per_hour: u32,
    pub tokens_per_hour: u32,
    pub requests_per_day: u32,
    pub tokens_per_day: u32,
}

/// Whether one of the texts is `item`.
pub open spec fn lists(items: Seq<String>, item: Seq<char>) -> bool {
    exists|i: int| 0 <= i < items.len() && (#[trigger] items[i])@ == item
}

/// Computes [`lists`].
pub fn list_has(items: &Vec<String>, item: &str) -> (b: bool)
    ensures
        b == lists(items@, item@),
{
    let mut i: usize = 0;
    while i < items.len()
        invariant
            i <= items.len(),
            forall|j: int| 0 <= j < i ==> (#[trigger] items@[j])@ != item@,
        decreases items.len() - i,
    {
        if str_eq(items[i].as_str(), item) {
            return true;
        }
        i += 1;
    }
    false
}

/// The key that an `Authorization` header of the form `Bearer <key>` carries.
pub open spec fn bearer_token(header: Seq<char>) -> Option<Seq<char>> {
    if header.len() >= 7 && header.take(7) == "Bearer "@ {
        Some(header.skip(7))
    } else {
        None
    }
}

/// The keys that the gateway knows.
pub struct AuthService {
    pub require_api_key: bool,
    pub api_keys: TextMap<ApiKeyInfo>,
}

impl AuthService {
    /// A service that knows the master key, where one is configured, as the
    /// key of the user `admin` with every permission.
    pub fn new(require_api_key: bool, master_key: Option<String>, now: i64) -> (s: Self)
        ensures
            s.require_api_key == require_api_key,
            match master_key {
                Some(k) => {
                    let info = s.api_keys@[k@];
                    &&& s.api_keys@.dom() == set![k@]
                    &&& info.user_id@ == "admin"@
                    &&& info.name@ == "Master Key"@
                    &&& info.permissions@.len() == 1
                    &&& info.permissions@[0]@ == "*"@
                    &&& info.rate_limit_per_hour is None
                    &&& info.budget_usd_per_day is None
                    &&& info.allowed_models is None
                    &&& info.created_at == now
                    &&& info.last_used is None
                },
                None => s.api_keys@ == Map::<Seq<char>, ApiKeyInfo>::empty(),
            },
    {
        let mut api_keys: TextMap<ApiKeyInfo> = TextMap::new();
        match master_key {
            Some(k) => {
                let mut permissions: Vec<String> = Vec::new();
                permissions.push(String::from_str("*"));
                let info = ApiKeyInfo {
                    user_id: String::from_str("admin"),
                    name: String::from_str("Master Key"),
                    permissions,
                    rate_limit_per_hour: None,
                    budget_usd_per_day: None,
                    allowed_models: None,
                    created_at: now,
                    last_used: None,
                };
                let ghost key = k@;
                api_keys.insert(k, info);
                assert(api_keys@.dom() =~= set![key]);
            },
            None => {},
        }
        AuthService { require_api_key, api_keys }
    }

    /// The key that the request presents: that of the `Authorization` header
    /// where it is a bearer token, else that of the `X-Api-Key` header.
    pub open spec fn presented_key(
        authorization: Option<Seq<char>>,
        x_api_key: Option<Seq<char>>,
    ) -> Option<Seq<char>> {
        match authorization {
            Some(a) if bearer_token(a) is Some => bearer_token(a),
            _ => x_api_key,
        }
    }

    /// What the presented key stands for, if the service knows it.
    pub fn extract_auth_info(&self, authorization: Option<&str>, x_api_key: Option<&str>) -> (r:
        Option<&ApiKeyInfo>)
        ensures
            match Self::presented_key(
                match authorization {
                    Some(a) => Some(a@),
                    None => None,
                },
                match x_api_key {
                    Some(k) => Some(k@),
                    None => None,
                },
            ) {
                Some(k) => match r {
                    Some(info) => self.api_keys@.contains_key(k) && *info == self.api_keys@[k],
                    None => !self.api_keys@.contains_key(k),
                },
                None => r is None,
            },
    {
        if let Some(a) = authorization {
            if let Some(token) = Self::extract_bearer_token(a) {
                return self.api_keys.get(token.as_str());
            }
        }
        if let Some(k) = x_api_key {
            return self.api_keys.get(k);
        }
        None
    }

    /// See [`bearer_token`].
    pub fn extract_bearer_token(header: &str) -> (r: Option<String>)
        ensures
            match r {
                Some(t) => bearer_token(header@) == Some(t@),
                None => bearer_token(header@) is None,
            },
    {
        let h = to_chars(header);
        let prefix = to_chars("Bearer ");
        proof {
            reveal_strlit("Bearer ");
        }
        if h.len() < 7 {
            return None;
        }
        if !crate::text::matches_at(&h, &prefix, 0) {
            assert(h@.take(7) =~= h@.subrange(0, 7));
            return None;
        }
        assert(h@.take(7) =~= h@.subrange(0, 7));
        let out = String::from_str(header.substring_char(7, h.len()));
        assert(out@ =~= h@.skip(7));
        Some(out)
    }

    /// The key of the `X-Api-Key` header.
    pub fn extract_api_key_header(x_api_key: Option<&str>) -> (r: Option<String>)
        ensures
            match (r, x_api_key) {
                (Some(t), Some(k)) => t@ == k@,
                (None, None) => true,
                _ => false,
            },
    {
        match x_api_key {
            Some(k) => Some(String::from_str(k)),
            None => None,
        }
    }

    /// A key allows an action if it lists the action, or `*`.
    pub fn validate_permissions(auth_info: &ApiKeyInfo, action: &str) -> (b: bool)
        ensures
            b == (lists(auth_info.permissions@, "*"@) || lists(auth_info.permissions@, action@)),
    {
        if list_has(&auth_info.permissions, "*") {
            return true;
        }
        list_has(&auth_info.permissions, action)
    }

    /// A key may use a model if it restricts no model, or lists this one.
    pub fn validate_model_access(auth_info: &ApiKeyInfo, model: &str) -> (b: bool)
        ensures
            b == match auth_info.allowed_models {
                None => true,
                Some(models) => lists(models@, model@),
            },
    {
        match &auth_info.allowed_models {
            None => true,
            Some(models) => list_has(models, model),
        }
    }

    /// Whether a request may pass: always where no key is required, else
    /// only with a known key, and then with what is known of that key.
    pub fn auth_middleware(&self, authorization: Option<&str>, x_api_key: Option<&str>) -> (r:
        Result<Option<&ApiKeyInfo>, crate::error::OmenError>)
        ensures
            !self.require_api_key ==> r is Ok && r->Ok_0 is None,
            self.require_api_key ==> match Self::presented_key(
                match authorization {
                    Some(a) => Some(a@),
                    None => None,
                },
                match x_api_key {
                    Some(k) => Some(k@),
                    None => None,
                },
            ) {
                Some(k) => if self.api_keys@.contains_key(k) {
                    r matches Ok(Some(info)) && *info == self.api_keys@[k]
                } else {
                    r is Err && r->Err_0 is Unauthorized
                },
                None => r is Err && r->Err_0 is Unauthorized,
            },
    {
        if !self.require_api_key {
            return Ok(None);
        }
        match self.extract_auth_info(authorization, x_api_key) {
            Some(info) => Ok(Some(info)),
            None => Err(crate::error::OmenError::Unauthorized),
        }
    }
}

/// The intent of a message, read off its text in lower case: the first of
/// the classes whose keywords occur in it.
pub open spec fn intent_of(lowered: Seq<char>) -> Seq<char> {
    if has_substring(lowered, "code"@) || has_substring(lowered, "function"@) || has_substring(
        lowered,
        "implement"@,
    ) {
        "code"@
    } else if has_substring(lowered, "test"@) || has_substring(lowered, "unit test"@) {
        "tests"@
    } else if has_substring(lowered, "regex"@) || has_substring(lowered, "pattern"@) {
        "regex"@
    } else if has_substring(lowered, "analyze"@) || has_substring(lowered, "review"@) {
        "analysis"@
    } else if has_substring(lowered, "explain"@) || has_substring(lowered, "summarize"@) {
        "explanation"@
    } else {
        "general"@
    }
}

/// Classifies a text that is already in lower case.
pub fn classify_lowered(content: &str) -> (intent: String)
    ensures
        intent@ == intent_of(content@),
{
    if str_contains(content, "code") || str_contains(content, "function") || str_contains(
        content,
        "implement",
    ) {
        String::from_str("code")
    } else if str_contains(content, "test") || str_contains(content, "unit test") {
        String::from_str("tests")
    } else if str_contains(content, "regex") || str_contains(content, "pattern") {
        String::from_str("regex")
    } else if str_contains(content, "analyze") || str_contains(content, "review") {
        String::from_str("analysis")
    } else if str_contains(content, "explain") || str_contains(content, "summarize") {
        String::from_str("explanation")
    } else {
        String::from_str("general")
    }
}

/// The intent of a request: that of its last message in lower case, and
/// `general` where it has no message.
pub open spec fn request_intent(request: ChatCompletionRequest) -> Seq<char> {
    if request.messages@.len() == 0 {
        "general"@
    } else {
        intent_of(lowercase_of(request.messages@.last().content.text_view()))
    }
}

/// Classifies a request by the keywords of its last message.
pub fn classify_request_intent(request: &ChatCompletionRequest) -> (intent: Option<String>)
    ensures
        intent matches Some(i) && i@ == request_intent(*request),
{
    if request.messages.len() == 0 {
        return Some(String::from_str("general"));
    }
    let last = &request.messages[request.messages.len() - 1];
    let lowered = last.content.to_lowercase();
    Some(classify_lowered(lowered.as_str()))
}

/// The tags of an authenticated context, in order: the caller's id and the
/// key's name, then the strategy, the fan-out and the budget in
/// micro-dollars, as far as the routing directive names them.
pub open spec fn context_tags(
    auth_info: Option<ApiKeyInfo>,
    request: ChatCompletionRequest,
) -> Seq<(Seq<char>, Seq<char>)> {
    let who = match auth_info {
        Some(a) => seq![("user_id"@, a.user_id@), ("api_key_name"@, a.name@)],
        None => seq![],
    };
    let how = match request.omen {
        Some(o) => (match o.strategy {
            Some(s) => seq![("strategy"@, s@)],
            None => seq![],
        }) + (match o.k {
            Some(k) => seq![("k"@, decimal(k as nat))],
            None => seq![],
        }) + (match o.budget_usd {
            Some(b) => seq![("budget_usd"@, decimal(b as nat))],
            None => seq![],
        }),
        None => seq![],
    };
    who + how
}

/// The context of a request of an authenticated caller, under a fresh request id.
pub fn create_authenticated_context(
    auth_info: Option<&ApiKeyInfo>,
    request: &ChatCompletionRequest,
    request_id: u128,
) -> (c: RequestContext)
    ensures
        c.request_id == request_id,
        match (c.user_id, auth_info) {
            (Some(u), Some(a)) => u@ == a.user_id@,
            (None, None) => true,
            _ => false,
        },
        c.api_key is None,
        c.intent matches Some(i) && i@ == request_intent(*request),
        tags_view(c.tags@) == context_tags(
            match auth_info {
                Some(a) => Some(*a),
                None => None,
            },
            *request,
        ),
{
    let mut tags: Vec<(String, String)> = Vec::new();
    let mut user_id: Option<String> = None;
    if let Some(a) = auth_info {
        tags.push((String::from_str("user_id"), a.user_id.clone()));
        tags.push((String::from_str("api_key_name"), a.name.clone()));
        user_id = Some(a.user_id.clone());
    }
    let ghost who = tags_view(tags@);
    if let Some(o) = &request.omen {
        if let Some(s) = &o.strategy {
            tags.push((String::from_str("strategy"), s.clone()));
        }
        if let Some(k) = o.k {
            tags.push((String::from_str("k"), decimal_string(k as u64)));
        }
        if let Some(b) = o.budget_usd {
            tags.push((String::from_str("budget_usd"), decimal_string(b)));
        }
    }
    assert(tags_view(tags@) =~= context_tags(
        match auth_info {
            Some(a) => Some(*a),
            None => None,
        },
        *request,
    ));
    RequestContext {
        request_id,
        user_id,
        api_key: None,
        intent: classify_request_intent(request),
        tags,
    }
}

/// What a tenant has used today. Money is in micro-dollars; each counter
/// stays at the largest representable value once it is reached.
#[derive(Debug, Clone, Copy, PartialEq, Eq, Structural)]
pub struct UsageTracker {
    pub requests_today: u32,
    pub tokens_today: u32,
    pub cost_today_usd: u64,
    /// The Unix time of the last reset.
    pub last_reset: i64,
}

impl UsageTracker {
    /// Counters at zero, reset at `now`.
    pub open spec fn fresh(now: i64) -> UsageTracker {
        UsageTracker { requests_today: 0, tokens_today: 0, cost_today_usd: 0, last_reset: now }
    }

    /// The counters as they count at `now`: zero once the day has changed.
    pub open spec fn as_of(self, now: i64) -> UsageTracker {
        if day_index(now) > day_index(self.last_reset) {
            Self::fresh(now)
        } else {
            self
        }
    }

    /// The counters after a request of `tokens` tokens and `cost_usd`
    /// micro-dollars at `now`.
    pub open spec fn with_usage(self, tokens: u32, cost_usd: u64, now: i64) -> UsageTracker {
        let base = self.as_of(now);
        UsageTracker {
            requests_today: capped_count(base.requests_today, 1),
            tokens_today: capped_count(base.tokens_today, tokens),
            cost_today_usd: capped_sum(base.cost_today_usd, cost_usd),
            last_reset: base.last_reset,
        }
    }

    /// Counters at zero, reset at `now`.
    pub fn new(now: i64) -> (t: Self)
        ensures
            t == Self::fresh(now),
    {
        UsageTracker { requests_today: 0, tokens_today: 0, cost_today_usd: 0, last_reset: now }
    }

    /// Whether the day has changed since the last reset.
    pub fn should_reset_daily(&self, now: i64) -> (b: bool)
        ensures
            b == (day_index(now) > day_index(self.last_reset)),
    {
        day_of(now) > day_of(self.last_reset)
    }

    /// Sets the counters to zero and notes `now` as the time of the reset.
    pub fn reset_daily(&mut self, now: i64)
        ensures
            *final(self) == Self::fresh(now),
    {
        self.requests_today = 0;
        self.tokens_today = 0;
        self.cost_today_usd = 0;
        self.last_reset = now;
    }

    /// Counts one request, after a reset where the day has changed.
    pub fn add_usage(&mut self, tokens: u32, cost_usd: u64, now: i64)
        ensures
            *final(self) == old(self).with_usage(tokens, cost_usd, now),
    {
        if self.should_reset_daily(now) {
            self.reset_daily(now);
        }
        self.requests_today = add_count(self.requests_today, 1);
        self.tokens_today = add_count(self.tokens_today, tokens);
        self.cost_today_usd = add_amount(self.cost_today_usd, cost_usd);
    }

    /// Whether today's cost is still under the limit.
    pub fn check_budget_limit(&self, budget_limit: u64) -> (b: bool)
        ensures
            b == (self.cost_today_usd < budget_limit),
    {
        self.cost_today_usd < budget_limit
    }
}

} // verus!
