//! Billing tiers and the per-tenant usage ledger.
//!
//! Amounts are whole micro-dollars; a tier's cost multiplier and priority
//! weight are in parts per million.

use vstd::prelude::*;
use crate::amount::{add_amount, add_count, capped, capped_count, capped_sum, scale, scaled, PPM};
use crate::auth::UsageTracker;
use crate::clock::{in_other_month, month_differs};
use crate::error::OmenError;
use crate::store::TextMap;
use crate::text::{opt_text, str_eq};

verus! {

/// Named limits of a tenant. A limit of `None` means unlimited.
#[derive(Debug, Clone)]
pub struct BillingTier {
    pub name: String,
    pub requests_per_day: Option<u32>,
    pub tokens_per_day: Option<u32>,
    pub budget_per_day_usd: Option<u64>,
    /// What a tenant pays of a provider's cost, in parts per million.
    pub cost_multiplier: u64,
    pub priority_weight: u64,
}

/// A tier as a mathematical value.
pub struct TierView {
    pub name: Seq<char>,
    pub requests_per_day: Option<u32>,
    pub tokens_per_day: Option<u32>,
    pub budget_per_day_usd: Option<u64>,
    pub cost_multiplier: u64,
    pub priority_weight: u64,
}

impl View for BillingTier {
    type V = TierView;

    open spec fn view(&self) -> TierView {
        TierView {
            name: self.name@,
            requests_per_day: self.requests_per_day,
            tokens_per_day: self.tokens_per_day,
            budget_per_day_usd: self.budget_per_day_usd,
            cost_multiplier: self.cost_multiplier,
            priority_weight: self.priority_weight,
        }
    }
}

/// The tier `free`: 100 requests, 10,000 tokens and one dollar a day, at
/// full price.
pub open spec fn free_tier() -> TierView {
    TierView {
        name: "free"@,
        requests_per_day: Some(100u32),
        tokens_per_day: Some(10_000u32),
        budget_per_day_usd: Some(1_000_000u64),
        cost_multiplier: 1_000_000,
        priority_weight: 1_000_000,
    }
}

/// The tier `pro`: 10,000 requests, a million tokens and fifty dollars a
/// day, at 80% of the price.
pub open spec fn pro_tier() -> TierView {
    TierView {
        name: "pro"@,
        requests_per_day: Some(10_000u32),
        tokens_per_day: Some(1_000_000u32),
        budget_per_day_usd: Some(50_000_000u64),
        cost_multiplier: 800_000,
        priority_weight: 1_500_000,
    }
}

/// The tier `enterprise`: no limits, at 60% of the price.
pub open spec fn enterprise_tier() -> TierView {
    TierView {
        name: "enterprise"@,
        requests_per_day: None,
        tokens_per_day: None,
        budget_per_day_usd: None,
        cost_multiplier: 600_000,
        priority_weight: 2_000_000,
    }
}

/// The tier of a name.
pub open spec fn tier_named(name: Seq<char>) -> Option<TierView> {
    if name == "free"@ {
        Some(free_tier())
    } else if name == "pro"@ {
        Some(pro_tier())
    } else if name == "enterprise"@ {
        Some(enterprise_tier())
    } else {
        None
    }
}

impl Default for BillingTier {
    fn default() -> (t: Self)
        ensures
            t@ == free_tier(),
    {
        BillingTier {
            name: String::from_str("free"),
            requests_per_day: Some(100),
            tokens_per_day: Some(10_000),
            budget_per_day_usd: Some(1_000_000),
            cost_multiplier: 1_000_000,
            priority_weight: 1_000_000,
        }
    }
}

impl BillingTier {
    /// The tier `pro`.
    pub fn pro() -> (t: Self)
        ensures
            t@ == pro_tier(),
    {
        BillingTier {
            name: String::from_str("pro"),
            requests_per_day: Some(10_000),
            tokens_per_day: Some(1_000_000),
            budget_per_day_usd: Some(50_000_000),
            cost_multiplier: 800_000,
            priority_weight: 1_500_000,
        }
    }

    /// The tier `enterprise`.
    pub fn enterprise() -> (t: Self)
        ensures
            t@ == enterprise_tier(),
    {
        BillingTier {
            name: String::from_str("enterprise"),
            requests_per_day: None,
            tokens_per_day: None,
            budget_per_day_usd: None,
            cost_multiplier: 600_000,
            priority_weight: 2_000_000,
        }
    }

    /// A copy of the tier.
    pub fn duplicate(&self) -> (t: Self)
        ensures
            t == *self,
    {
        BillingTier {
            name: self.name.clone(),
            requests_per_day: self.requests_per_day,
            tokens_per_day: self.tokens_per_day,
            budget_per_day_usd: self.budget_per_day_usd,
            cost_multiplier: self.cost_multiplier,
            priority_weight: self.priority_weight,
        }
    }
}

/// The ledger of one tenant.
#[derive(Debug, Clone)]
pub struct UserBilling {
    pub user_id: String,
    pub tier: BillingTier,
    pub usage_tracker: UsageTracker,
    pub monthly_spend_usd: u64,
    pub total_spend_usd: u64,
    /// Unix time.
    pub subscription_start: i64,
    /// Unix time of the start of the month being billed.
    pub last_billing_date: i64,
    pub payment_method_id: Option<String>,
    pub billing_email: Option<String>,
}

/// A ledger as a mathematical value.
pub struct LedgerView {
    pub user_id: Seq<char>,
    pub tier: TierView,
    pub usage_tracker: UsageTracker,
    pub monthly_spend_usd: u64,
    pub total_spend_usd: u64,
    pub subscription_start: i64,
    pub last_billing_date: i64,
    pub payment_method_id: Option<Seq<char>>,
    pub billing_email: Option<Seq<char>>,
}

impl View for UserBilling {
    type V = LedgerView;

    open spec fn view(&self) -> LedgerView {
        LedgerView {
            user_id: self.user_id@,
            tier: self.tier@,
            usage_tracker: self.usage_tracker,
            monthly_spend_usd: self.monthly_spend_usd,
            total_spend_usd: self.total_spend_usd,
            subscription_start: self.subscription_start,
            last_billing_date: self.last_billing_date,
            payment_method_id: opt_text(self.payment_method_id),
            billing_email: opt_text(self.billing_email),
        }
    }
}

impl LedgerView {
    /// The ledger of a tenant that has used nothing.
    pub open spec fn blank(user_id: Seq<char>, tier: TierView, now: i64) -> LedgerView {
        LedgerView {
            user_id,
            tier,
            usage_tracker: UsageTracker::fresh(now),
            monthly_spend_usd: 0,
            total_spend_usd: 0,
            subscription_start: now,
            last_billing_date: now,
            payment_method_id: None,
            billing_email: None,
        }
    }

    /// Whether a request may be made at `now`: no daily limit that is set
    /// has been reached by the counters as they count at `now`.
    pub open spec fn allows(self, now: i64) -> bool {
        let used = self.usage_tracker.as_of(now);
        &&& self.tier.requests_per_day matches Some(limit) ==> used.requests_today < limit
        &&& self.tier.tokens_per_day matches Some(limit) ==> used.tokens_today < limit
        &&& self.tier.budget_per_day_usd matches Some(limit) ==> used.cost_today_usd < limit
    }

    /// What the tenant pays for a provider's cost.
    pub open spec fn billed(self, provider_cost_usd: u64) -> u64 {
        scaled(provider_cost_usd, self.tier.cost_multiplier, PPM)
    }

    /// What the tenant would pay for `estimated_tokens` tokens at a price
    /// per thousand tokens.
    pub open spec fn estimate(self, estimated_tokens: u32, provider_cost_per_1k: u64) -> u64 {
        scaled(
            scaled(estimated_tokens as u64, provider_cost_per_1k, 1000),
            self.tier.cost_multiplier,
            PPM,
        )
    }

    /// The ledger after a completion of `tokens_used` tokens that cost the
    /// provider `provider_cost_usd`.
    pub open spec fn recorded(self, tokens_used: u32, provider_cost_usd: u64, now: i64) -> LedgerView {
        LedgerView {
            usage_tracker: self.usage_tracker.with_usage(
                tokens_used,
                self.billed(provider_cost_usd),
                now,
            ),
            monthly_spend_usd: capped_sum(self.monthly_spend_usd, self.billed(provider_cost_usd)),
            total_spend_usd: capped_sum(self.total_spend_usd, self.billed(provider_cost_usd)),
            ..self
        }
    }

    /// The ledger as it stands at `now`: the month's spend is zero once the
    /// month has changed.
    pub open spec fn month_rolled(self, now: i64) -> LedgerView {
        if month_differs(now, self.last_billing_date) {
            LedgerView { monthly_spend_usd: 0, last_billing_date: now, ..self }
        } else {
            self
        }
    }

    /// The ledger with another tier.
    pub open spec fn with_tier(self, tier: TierView) -> LedgerView {
        LedgerView { tier, ..self }
    }
}

fn copy_text(s: &Option<String>) -> (r: Option<String>)
    ensures
        r == *s,
{
    match s {
        Some(t) => Some(t.clone()),
        None => None,
    }
}

impl UserBilling {
    /// The ledger of a tenant that has used nothing.
    pub fn new(user_id: String, tier: BillingTier, now: i64) -> (b: Self)
        ensures
            b@ == LedgerView::blank(user_id@, tier@, now),
            b.user_id == user_id,
            b.tier == tier,
    {
        UserBilling {
            user_id,
            tier,
            usage_tracker: UsageTracker::new(now),
            monthly_spend_usd: 0,
            total_spend_usd: 0,
            subscription_start: now,
            last_billing_date: now,
            payment_method_id: None,
            billing_email: None,
        }
    }

    /// A copy of the ledger.
    pub fn duplicate(&self) -> (b: Self)
        ensures
            b == *self,
    {
        UserBilling {
            user_id: self.user_id.clone(),
            tier: self.tier.duplicate(),
            usage_tracker: self.usage_tracker,
            monthly_spend_usd: self.monthly_spend_usd,
            total_spend_usd: self.total_spend_usd,
            subscription_start: self.subscription_start,
            last_billing_date: self.last_billing_date,
            payment_method_id: copy_text(&self.payment_method_id),
            billing_email: copy_text(&self.billing_email),
        }
    }

    /// Whether the tenant may make a request at `now`.
    pub fn can_make_request(&self, now: i64) -> (b: bool)
        ensures
            b == self@.allows(now),
    {
        let mut used = self.usage_tracker;
        if used.should_reset_daily(now) {
            used.reset_daily(now);
        }
        if let Some(limit) = self.tier.requests_per_day {
            if used.requests_today >= limit {
                return false;
            }
        }
        if let Some(limit) = self.tier.tokens_per_day {
            if used.tokens_today >= limit {
                return false;
            }
        }
        if let Some(limit) = self.tier.budget_per_day_usd {
            if used.cost_today_usd >= limit {
                return false;
            }
        }
        true
    }

    /// What the tenant would pay for a request of `estimated_tokens` tokens.
    pub fn estimate_cost(&self, estimated_tokens: u32, provider_cost_per_1k: u64) -> (c: u64)
        ensures
            c == self@.estimate(estimated_tokens, provider_cost_per_1k),
    {
        let base = scale(estimated_tokens as u64, provider_cost_per_1k, 1000);
        scale(base, self.tier.cost_multiplier, PPM)
    }

    /// Charges a completion to the ledger.
    pub fn record_usage(&mut self, tokens_used: u32, provider_cost_usd: u64, now: i64)
        ensures
            final(self)@ == old(self)@.recorded(tokens_used, provider_cost_usd, now),
    {
        let actual_cost = scale(provider_cost_usd, self.tier.cost_multiplier, PPM);
        self.usage_tracker.add_usage(tokens_used, actual_cost, now);
        self.monthly_spend_usd = add_amount(self.monthly_spend_usd, actual_cost);
        self.total_spend_usd = add_amount(self.total_spend_usd, actual_cost);
    }

    /// Whether the month has changed since the month being billed began.
    pub fn should_reset_monthly(&self, now: i64) -> (b: bool)
        ensures
            b == month_differs(now, self.last_billing_date),
    {
        in_other_month(now, self.last_billing_date)
    }

    /// Starts a new month where the month has changed.
    pub fn reset_monthly(&mut self, now: i64)
        ensures
            final(self)@ == old(self)@.month_rolled(now),
    {
        if self.should_reset_monthly(now) {
            self.monthly_spend_usd = 0;
            self.last_billing_date = now;
        }
    }
}

/// One completion in a tenant's history.
#[derive(Debug, Clone, Copy, PartialEq, Eq, Structural)]
pub struct TokenUsage {
    pub input_tokens: u32,
    pub output_tokens: u32,
    pub total_tokens: u32,
    pub provider_cost_usd: u64,
    /// Unix time.
    pub timestamp: i64,
}

impl TokenUsage {
    /// A completion of `input_tokens` and `output_tokens` tokens at `now`.
    pub fn new(input_tokens: u32, output_tokens: u32, provider_cost_usd: u64, now: i64) -> (u: Self)
        ensures
            u == (TokenUsage {
                input_tokens,
                output_tokens,
                total_tokens: capped_count(input_tokens, output_tokens),
                provider_cost_usd,
                timestamp: now,
            }),
    {
        TokenUsage {
            input_tokens,
            output_tokens,
            total_tokens: add_count(input_tokens, output_tokens),
            provider_cost_usd,
            timestamp: now,
        }
    }
}

/// One recorded completion: its tokens, what it cost the provider, and when.
pub struct Completion {
    pub tokens_used: u32,
    pub provider_cost_usd: u64,
    pub now: i64,
}

/// The ledger after a sequence of completions.
pub open spec fn ledger_after(start: LedgerView, completions: Seq<Completion>) -> LedgerView
    decreases completions.len(),
{
    if completions.len() == 0 {
        start
    } else {
        let c = completions.last();
        ledger_after(start, completions.drop_last()).recorded(
            c.tokens_used,
            c.provider_cost_usd,
            c.now,
        )
    }
}

/// The sum of what the tenant paid for each of the completions.
pub open spec fn billed_total(ledger: LedgerView, completions: Seq<Completion>) -> int
    decreases completions.len(),
{
    if completions.len() == 0 {
        0
    } else {
        billed_total(ledger, completions.drop_last()) + ledger.billed(
            completions.last().provider_cost_usd,
        )
    }
}

/// The total spend of a ledger is the sum of the amounts billed for the
/// completions recorded in it, capped at the largest representable amount.
pub proof fn lemma_total_is_sum_of_billed(start: LedgerView, completions: Seq<Completion>)
    ensures
        ledger_after(start, completions).tier == start.tier,
        ledger_after(start, completions).total_spend_usd == capped(
            start.total_spend_usd + billed_total(start, completions),
        ),
        billed_total(start, completions) >= 0,
    decreases completions.len(),
{
    if completions.len() > 0 {
        lemma_total_is_sum_of_billed(start, completions.drop_last());
    }
}

/// A tenant whose tier sets no limit is never denied, whatever was recorded.
pub proof fn lemma_unlimited_tier_always_allows(
    start: LedgerView,
    completions: Seq<Completion>,
    now: i64,
)
    requires
        start.tier.requests_per_day is None,
        start.tier.tokens_per_day is None,
        start.tier.budget_per_day_usd is None,
    ensures
        ledger_after(start, completions).allows(now),
{
    lemma_total_is_sum_of_billed(start, completions);
}

/// The daily limits of a tenant.
#[derive(Debug, Clone, Copy, PartialEq, Eq, Structural)]
pub struct UserLimits {
    pub requests: Option<u32>,
    pub tokens: Option<u32>,
    pub budget_usd: Option<u64>,
}

/// What a tenant has used: today, this month and in all.
#[derive(Debug, Clone)]
pub struct UserUsageStats {
    pub user_id: String,
    pub tier: String,
    pub daily_requests: u32,
    pub daily_tokens: u32,
    pub daily_cost_usd: u64,
    pub monthly_tokens: u32,
    pub monthly_cost_usd: u64,
    pub total_cost_usd: u64,
    pub daily_limits: UserLimits,
    pub can_make_request: bool,
}

/// One line of the summary of all tenants.
#[derive(Debug, Clone)]
pub struct UserBillingSummary {
    pub user_id: String,
    pub tier: String,
    pub daily_cost_usd: u64,
    pub monthly_spend_usd: u64,
    pub total_spend_usd: u64,
    /// Unix time of the last reset of the daily counters.
    pub last_activity: i64,
}

/// The tokens of the completions of the history that fall in the month of `now`.
pub open spec fn month_tokens(history: Seq<TokenUsage>, now: i64) -> u32
    decreases history.len(),
{
    if history.len() == 0 {
        0
    } else if month_differs(history.last().timestamp, now) {
        month_tokens(history.drop_last(), now)
    } else {
        capped_count(month_tokens(history.drop_last(), now), history.last().total_tokens)
    }
}

/// What the completions of the history that fall in the month of `now`
/// cost the providers.
pub open spec fn month_cost(history: Seq<TokenUsage>, now: i64) -> u64
    decreases history.len(),
{
    if history.len() == 0 {
        0
    } else if month_differs(history.last().timestamp, now) {
        month_cost(history.drop_last(), now)
    } else {
        capped_sum(month_cost(history.drop_last(), now), history.last().provider_cost_usd)
    }
}

/// The ledgers and the histories of all tenants.
pub struct BillingManager {
    pub user_billing: TextMap<UserBilling>,
    pub usage_history: TextMap<Vec<TokenUsage>>,
}

/// The manager as a mathematical value.
pub struct ManagerView {
    pub ledgers: Map<Seq<char>, LedgerView>,
    pub history: Map<Seq<char>, Seq<TokenUsage>>,
}

impl View for BillingManager {
    type V = ManagerView;

    open spec fn view(&self) -> ManagerView {
        ManagerView {
            ledgers: self.user_billing@.map_values(|b: UserBilling| b@),
            history: self.usage_history@.map_values(|h: Vec<TokenUsage>| h@),
        }
    }
}

impl ManagerView {
    /// The ledger of a tenant: the one that is kept, or that of a tenant of
    /// the tier `free` that has used nothing.
    pub open spec fn ledger_of(self, user_id: Seq<char>, now: i64) -> LedgerView {
        if self.ledgers.contains_key(user_id) {
            self.ledgers[user_id]
        } else {
            LedgerView::blank(user_id, free_tier(), now)
        }
    }

    /// The history of a tenant.
    pub open spec fn history_of(self, user_id: Seq<char>) -> Seq<TokenUsage> {
        if self.history.contains_key(user_id) {
            self.history[user_id]
        } else {
            seq![]
        }
    }

    /// The manager once the tenant has a ledger.
    pub open spec fn ensured(self, user_id: Seq<char>, now: i64) -> ManagerView {
        ManagerView { ledgers: self.ledgers.insert(user_id, self.ledger_of(user_id, now)), ..self }
    }

    /// The manager after the tenant was moved to a tier.
    pub open spec fn with_tier(self, user_id: Seq<char>, tier: TierView, now: i64) -> ManagerView {
        ManagerView {
            ledgers: self.ledgers.insert(
                user_id,
                if self.ledgers.contains_key(user_id) {
                    self.ledgers[user_id].with_tier(tier)
                } else {
                    LedgerView::blank(user_id, tier, now)
                },
            ),
            ..self
        }
    }

    /// The manager after a completion of the tenant was recorded: the month
    /// is rolled over where it has changed, the completion is charged to the
    /// ledger and appended to the history.
    pub open spec fn with_record(
        self,
        user_id: Seq<char>,
        input_tokens: u32,
        output_tokens: u32,
        provider_cost_usd: u64,
        now: i64,
    ) -> ManagerView {
        ManagerView {
            ledgers: self.ledgers.insert(
                user_id,
                self.ledger_of(user_id, now).month_rolled(now).recorded(
                    capped_count(input_tokens, output_tokens),
                    provider_cost_usd,
                    now,
                ),
            ),
            history: self.history.insert(
                user_id,
                self.history_of(user_id).push(
                    TokenUsage {
                        input_tokens,
                        output_tokens,
                        total_tokens: capped_count(input_tokens, output_tokens),
                        provider_cost_usd,
                        timestamp: now,
                    },
                ),
            ),
        }
    }
}

impl BillingManager {
    /// A manager without tenants.
    pub fn new() -> (m: Self)
        ensures
            m@.ledgers == Map::<Seq<char>, LedgerView>::empty(),
            m@.history == Map::<Seq<char>, Seq<TokenUsage>>::empty(),
    {
        let m = BillingManager { user_billing: TextMap::new(), usage_history: TextMap::new() };
        assert(m@.ledgers =~= Map::<Seq<char>, LedgerView>::empty());
        assert(m@.history =~= Map::<Seq<char>, Seq<TokenUsage>>::empty());
        m
    }

    /// The tenant's ledger, which is created in the tier `free` where the
    /// tenant has none.
    pub fn get_or_create_user_billing(&mut self, user_id: &str, now: i64) -> (b: UserBilling)
        ensures
            final(self)@ == old(self)@.ensured(user_id@, now),
            b@ == old(self)@.ledger_of(user_id@, now),
            final(self).user_billing@.contains_key(user_id@),
            final(self).user_billing@[user_id@] == b,
    {
        let ghost before = self.user_billing@;
        let found: Option<UserBilling> = match self.user_billing.get(user_id) {
            Some(b) => Some(b.duplicate()),
            None => None,
        };
        match found {
            Some(b) => {
                assert(self@.ledgers =~= self@.ensured(user_id@, now).ledgers);
                b
            },
            None => {
                let b = UserBilling::new(String::from_str(user_id), BillingTier::default(), now);
                let copy = b.duplicate();
                self.user_billing.insert(String::from_str(user_id), b);
                assert(self@.ledgers =~= before.map_values(|b: UserBilling| b@).insert(
                    user_id@,
                    copy@,
                ));
                copy
            },
        }
    }

    /// Moves a tenant to the tier of the given name; a tenant without a
    /// ledger gets one. An unknown name is refused and changes nothing.
    pub fn update_user_tier(&mut self, user_id: &str, tier_name: &str, now: i64) -> (r: Result<
        (),
        OmenError,
    >)
        ensures
            match tier_named(tier_name@) {
                Some(tier) => r is Ok && final(self)@ == old(self)@.with_tier(user_id@, tier, now),
                None => r matches Err(OmenError::InvalidRequest(m)) && m@ == "Unknown tier: "@
                    + tier_name@ && *final(self) == *old(self),
            },
    {
        let tier = match Self::get_tier_config(tier_name) {
            Some(t) => t,
            None => {
                let mut m = String::from_str("Unknown tier: ");
                m.append(tier_name);
                return Err(OmenError::InvalidRequest(m));
            },
        };
        let ghost before = self.user_billing@;
        let ghost view = tier@;
        let next = match self.user_billing.remove(user_id) {
            Some(mut b) => {
                b.tier = tier;
                b
            },
            None => UserBilling::new(String::from_str(user_id), tier, now),
        };
        let ghost next_view = next@;
        self.user_billing.insert(String::from_str(user_id), next);
        assert(self@.ledgers =~= before.map_values(|b: UserBilling| b@).insert(user_id@, next_view));
        Ok(())
    }

    /// Whether the tenant may make a request at `now`.
    pub fn check_request_allowed(&mut self, user_id: &str, now: i64) -> (allowed: bool)
        ensures
            final(self)@ == old(self)@.ensured(user_id@, now),
            allowed == old(self)@.ledger_of(user_id@, now).allows(now),
    {
        let b = self.get_or_create_user_billing(user_id, now);
        b.can_make_request(now)
    }

    /// What the tenant would pay for a request of `estimated_tokens` tokens.
    pub fn estimate_request_cost(
        &mut self,
        user_id: &str,
        estimated_tokens: u32,
        provider_cost_per_1k: u64,
        now: i64,
    ) -> (cost: u64)
        ensures
            final(self)@ == old(self)@.ensured(user_id@, now),
            cost == old(self)@.ledger_of(user_id@, now).estimate(
                estimated_tokens,
                provider_cost_per_1k,
            ),
    {
        let b = self.get_or_create_user_billing(user_id, now);
        b.estimate_cost(estimated_tokens, provider_cost_per_1k)
    }

    /// Records a completion of the tenant.
    pub fn record_usage(
        &mut self,
        user_id: &str,
        input_tokens: u32,
        output_tokens: u32,
        provider_cost_usd: u64,
        now: i64,
    )
        ensures
            final(self)@ == old(self)@.with_record(
                user_id@,
                input_tokens,
                output_tokens,
                provider_cost_usd,
                now,
            ),
    {
        let ghost ledgers = self.user_billing@;
        let ghost histories = self.usage_history@;
        let mut b = match self.user_billing.remove(user_id) {
            Some(b) => b,
            None => UserBilling::new(String::from_str(user_id), BillingTier::default(), now),
        };
        b.reset_monthly(now);
        b.record_usage(add_count(input_tokens, output_tokens), provider_cost_usd, now);
        let ghost b_view = b@;
        self.user_billing.insert(String::from_str(user_id), b);
        let mut h: Vec<TokenUsage> = match self.usage_history.remove(user_id) {
            Some(h) => h,
            None => Vec::new(),
        };
        h.push(TokenUsage::new(input_tokens, output_tokens, provider_cost_usd, now));
        let ghost h_view = h@;
        self.usage_history.insert(String::from_str(user_id), h);
        proof {
            assert(self@.ledgers =~= ledgers.map_values(|b: UserBilling| b@).insert(
                user_id@,
                b_view,
            ));
            assert(self@.history =~= histories.map_values(|h: Vec<TokenUsage>| h@).insert(
                user_id@,
                h_view,
            ));
        }
    }

    /// What the tenant has used: the day's counters as they count at `now`
    /// (zero once the day has changed), the month's tokens and provider
    /// costs from the history, and the limits of the tier.
    pub fn get_user_usage_stats(&mut self, user_id: &str, now: i64) -> (s: UserUsageStats)
        ensures
            final(self)@ == old(self)@.ensured(user_id@, now),
            ({
                let ledger = old(self)@.ledger_of(user_id@, now);
                let history = old(self)@.history_of(user_id@);
                &&& s.user_id@ == user_id@
                &&& s.tier@ == ledger.tier.name
                &&& s.daily_requests == ledger.usage_tracker.as_of(now).requests_today
                &&& s.daily_tokens == ledger.usage_tracker.as_of(now).tokens_today
                &&& s.daily_cost_usd == ledger.usage_tracker.as_of(now).cost_today_usd
                &&& s.monthly_tokens == month_tokens(history, now)
                &&& s.monthly_cost_usd == month_cost(history, now)
                &&& s.total_cost_usd == ledger.total_spend_usd
                &&& s.daily_limits == (UserLimits {
                    requests: ledger.tier.requests_per_day,
                    tokens: ledger.tier.tokens_per_day,
                    budget_usd: ledger.tier.budget_per_day_usd,
                })
                &&& s.can_make_request == ledger.allows(now)
            }),
    {
        let b = self.get_or_create_user_billing(user_id, now);
        let mut monthly_tokens: u32 = 0;
        let mut monthly_cost: u64 = 0;
        if let Some(h) = self.usage_history.get(user_id) {
            let mut i: usize = 0;
            while i < h.len()
                invariant
                    i <= h.len(),
                    monthly_tokens == month_tokens(h@.take(i as int), now),
                    monthly_cost == month_cost(h@.take(i as int), now),
                decreases h.len() - i,
            {
                proof {
                    assert(h@.take(i + 1).drop_last() =~= h@.take(i as int));
                }
                if !in_other_month(h[i].timestamp, now) {
                    monthly_tokens = add_count(monthly_tokens, h[i].total_tokens);
                    monthly_cost = add_amount(monthly_cost, h[i].provider_cost_usd);
                }
                i += 1;
            }
            proof {
                assert(h@.take(i as int) =~= h@);
            }
        }
        let mut used = b.usage_tracker;
        if used.should_reset_daily(now) {
            used.reset_daily(now);
        }
        UserUsageStats {
            user_id: String::from_str(user_id),
            tier: b.tier.name.clone(),
            daily_requests: used.requests_today,
            daily_tokens: used.tokens_today,
            daily_cost_usd: used.cost_today_usd,
            monthly_tokens,
            monthly_cost_usd: monthly_cost,
            total_cost_usd: b.total_spend_usd,
            daily_limits: UserLimits {
                requests: b.tier.requests_per_day,
                tokens: b.tier.tokens_per_day,
                budget_usd: b.tier.budget_per_day_usd,
            },
            can_make_request: b.can_make_request(now),
        }
    }

    /// Whether a line of the summary is that of a ledger as it stands at
    /// `now`: the day's cost is zero once the day has changed, and the
    /// month's spend once the month has.
    pub open spec fn summarises(line: UserBillingSummary, ledger: LedgerView, now: i64) -> bool {
        &&& line.user_id@ == ledger.user_id
        &&& line.tier@ == ledger.tier.name
        &&& line.daily_cost_usd == ledger.usage_tracker.as_of(now).cost_today_usd
        &&& line.monthly_spend_usd == ledger.month_rolled(now).monthly_spend_usd
        &&& line.total_spend_usd == ledger.total_spend_usd
        &&& line.last_activity == ledger.usage_tracker.last_reset
    }

    /// One line for each ledger as it stands at `now`, in the order in
    /// which the tenants were first seen.
    pub fn get_all_users_summary(&self, now: i64) -> (lines: Vec<UserBillingSummary>)
        ensures
            lines@.len() == self.user_billing.listing().len(),
            lines@.len() == self@.ledgers.dom().len(),
            forall|i: int|
                0 <= i < lines@.len() ==> Self::summarises(
                    #[trigger] lines@[i],
                    self.user_billing.listing()[i].1@,
                    now,
                ),
    {
        let n = self.user_billing.len();
        assert(self@.ledgers.dom() =~= self.user_billing@.dom());
        let mut lines: Vec<UserBillingSummary> = Vec::new();
        let mut i: usize = 0;
        while i < n
            invariant
                i <= n,
                n == self.user_billing.listing().len(),
                lines@.len() == i,
                forall|j: int|
                    0 <= j < i ==> Self::summarises(
                        #[trigger] lines@[j],
                        self.user_billing.listing()[j].1@,
                        now,
                    ),
            decreases n - i,
        {
            let (_, b) = self.user_billing.entry_at(i);
            let mut used = b.usage_tracker;
            if used.should_reset_daily(now) {
                used.reset_daily(now);
            }
            lines.push(
                UserBillingSummary {
                    user_id: b.user_id.clone(),
                    tier: b.tier.name.clone(),
                    daily_cost_usd: used.cost_today_usd,
                    monthly_spend_usd: if b.should_reset_monthly(now) {
                        0
                    } else {
                        b.monthly_spend_usd
                    },
                    total_spend_usd: b.total_spend_usd,
                    last_activity: b.usage_tracker.last_reset,
                },
            );
            i += 1;
        }
        lines
    }

    /// The tier of a name.
    pub fn get_tier_config(tier_name: &str) -> (r: Option<BillingTier>)
        ensures
            match r {
                Some(t) => tier_named(tier_name@) == Some(t@),
                None => tier_named(tier_name@) is None,
            },
    {
        if str_eq(tier_name, "free") {
            Some(BillingTier::default())
        } else if str_eq(tier_name, "pro") {
            Some(BillingTier::pro())
        } else if str_eq(tier_name, "enterprise") {
            Some(BillingTier::enterprise())
        } else {
            None
        }
    }

    /// The three tiers: `free`, `pro`, `enterprise`.
    pub fn list_available_tiers() -> (tiers: Vec<BillingTier>)
        ensures
            tiers@.len() == 3,
            tiers@[0]@ == free_tier(),
            tiers@[1]@ == pro_tier(),
            tiers@[2]@ == enterprise_tier(),
    {
        let mut tiers: Vec<BillingTier> = Vec::new();
        tiers.push(BillingTier::default());
        tiers.push(BillingTier::pro());
        tiers.push(BillingTier::enterprise());
        tiers
    }
}

impl Default for BillingManager {
    fn default() -> (m: Self)
        ensures
            m@.ledgers == Map::<Seq<char>, LedgerView>::empty(),
            m@.history == Map::<Seq<char>, Seq<TokenUsage>>::empty(),
    {
        Self::new()
    }
}

} // verus!
