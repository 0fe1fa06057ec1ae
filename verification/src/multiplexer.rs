//! The stream multiplexer: which providers to drive under each strategy,
//! what makes a chunk useful, and what each provider's driver reports.

use vstd::prelude::*;
use crate::amount::{scale, scaled};
use crate::error::OmenError;
use crate::providers::{price_of, price_per_1k};
use crate::text::{
    contains_chars, has_substring, str_eq, texts, to_chars, trim_chars, trimmed, utf8_len,
    utf8_len_reaches,
};
use crate::types::OmenConfig;

verus! {

/// How one logical stream is fanned out across providers.
#[derive(Debug, Clone, Copy, PartialEq, Eq, Structural)]
pub enum MultiplexStrategy {
    /// Drive the first candidate only.
    Single,
    /// Drive the first `k` candidates and commit to the first useful token.
    Race { k: usize },
    /// Drive the local candidate at once and up to `k - 1` others after
    /// `delay_ms`; one upgrade is allowed.
    SpeculateK { k: usize, delay_ms: u64 },
    /// The fan-out of `Race`; the streams are joined as in a race.
    ParallelMerge { k: usize },
}

impl Default for MultiplexStrategy {
    fn default() -> (s: Self)
        ensures
            s == (MultiplexStrategy::Race { k: 2 }),
    {
        MultiplexStrategy::Race { k: 2 }
    }
}

/// The delay before the cloud candidates of a speculative run start.
pub const SPECULATIVE_DELAY_MS: u64 = 150;

/// The strategy that a routing directive asks for: the named one with the
/// directive's `k` (2 where absent), or a race of two where the name is
/// absent or unknown.
pub open spec fn strategy_of(config: OmenConfig) -> MultiplexStrategy {
    let k: usize = match config.k {
        Some(k) => k as usize,
        None => 2,
    };
    match config.strategy {
        Some(s) => if s@ == "single"@ {
            MultiplexStrategy::Single
        } else if s@ == "race"@ {
            MultiplexStrategy::Race { k }
        } else if s@ == "speculate_k"@ {
            MultiplexStrategy::SpeculateK { k, delay_ms: SPECULATIVE_DELAY_MS }
        } else if s@ == "parallel_merge"@ {
            MultiplexStrategy::ParallelMerge { k }
        } else {
            MultiplexStrategy::Race { k: 2 }
        },
        None => MultiplexStrategy::Race { k: 2 },
    }
}

impl MultiplexStrategy {
    /// Reads the strategy of a routing directive.
    pub fn from_config(config: &OmenConfig) -> (s: MultiplexStrategy)
        ensures
            s == strategy_of(*config),
    {
        let k: usize = match config.k {
            Some(k) => k as usize,
            None => 2,
        };
        match &config.strategy {
            Some(s) => {
                if str_eq(s.as_str(), "single") {
                    MultiplexStrategy::Single
                } else if str_eq(s.as_str(), "race") {
                    MultiplexStrategy::Race { k }
                } else if str_eq(s.as_str(), "speculate_k") {
                    MultiplexStrategy::SpeculateK { k, delay_ms: SPECULATIVE_DELAY_MS }
                } else if str_eq(s.as_str(), "parallel_merge") {
                    MultiplexStrategy::ParallelMerge { k }
                } else {
                    MultiplexStrategy::Race { k: 2 }
                }
            },
            None => MultiplexStrategy::Race { k: 2 },
        }
    }
}

/// What a provider's driver reports to the coordinator.
#[derive(Debug, Clone)]
pub enum StreamEvent {
    /// One chunk, with the time since the request started.
    Token { provider_id: String, chunk: String, latency_ms: u64 },
    /// The provider failed.
    Error { provider_id: String, error: String },
    /// The provider's stream ended; the cost is in micro-dollars.
    Done { provider_id: String, total_tokens: u32, cost_usd: u64 },
    /// A note that the output moved from one provider to another.
    Upgrade { from_provider: String, to_provider: String, reason: String },
}

/// A chunk is useful if, trimmed of whitespace, it is not empty and is at
/// least `min_tokens` bytes long, or holds a code fence, or holds a newline.
pub open spec fn useful_token(chunk: Seq<char>, min_tokens: nat) -> bool {
    let content = trimmed(chunk);
    content.len() > 0 && (utf8_len(content) >= min_tokens || has_substring(content, "```"@)
        || has_substring(content, "\n"@))
}

/// A chunk of a provider that is not the current one calls for an upgrade
/// if it holds a code fence or names a function call or a tool call.
pub open spec fn upgrade_worthy(chunk: Seq<char>) -> bool {
    has_substring(chunk, "```"@) || has_substring(chunk, "function_call"@) || has_substring(
        chunk,
        "tool_call"@,
    )
}

/// The first `k` of the candidates.
pub open spec fn first_k(ids: Seq<String>, k: nat) -> Seq<String> {
    if k <= ids.len() {
        ids.take(k as int)
    } else {
        ids
    }
}

/// The id of the local provider.
pub open spec fn is_local_id(id: Seq<char>) -> bool {
    id == "ollama"@
}

/// The candidates that are not local, in order.
pub open spec fn cloud_ids(ids: Seq<String>) -> Seq<String>
    decreases ids.len(),
{
    if ids.len() == 0 {
        seq![]
    } else if is_local_id(ids.last()@) {
        cloud_ids(ids.drop_last())
    } else {
        cloud_ids(ids.drop_last()).push(ids.last())
    }
}

/// Whether a local candidate is among them.
pub open spec fn has_local(ids: Seq<String>) -> bool {
    exists|i: int| 0 <= i < ids.len() && is_local_id(#[trigger] ids[i]@)
}

/// The answer where there is no provider to drive.
pub open spec fn nothing_to_drive(r: Result<LaunchPlan, OmenError>) -> bool {
    r matches Err(OmenError::ProviderUnavailable(m)) && m@ == "No providers available"@
}

/// How the coordinator joins the streams of a plan.
#[derive(Debug, Clone, Copy, PartialEq, Eq, Structural)]
pub enum Coordination {
    /// One stream, forwarded verbatim.
    Direct,
    /// First useful token wins.
    Race,
    /// First token leads; one upgrade is allowed.
    Speculative,
}

/// Which providers to drive, and when.
#[derive(Debug, Clone)]
pub struct LaunchPlan {
    /// The providers to start at once.
    pub immediate: Vec<String>,
    /// The providers to start after `delay_ms`.
    pub delayed: Vec<String>,
    pub delay_ms: u64,
    pub coordination: Coordination,
}

/// The multiplexer of one request: its candidates in order of preference,
/// and its ceilings.
#[derive(Debug, Clone)]
pub struct StreamMultiplexer {
    pub providers: Vec<String>,
    /// The budget of the request, in micro-dollars.
    pub budget_cap: u64,
    /// The deadline of the request, in milliseconds.
    pub max_latency: u64,
    pub min_useful_tokens: usize,
}

/// The budget of a request whose directive names none: ten cents.
pub const DEFAULT_BUDGET_MICRO_USD: u64 = 100_000;

/// The deadline of a request whose directive names none.
pub const DEFAULT_MAX_LATENCY_MS: u64 = 3000;

/// The useful length of a request whose directive names none.
pub const DEFAULT_MIN_USEFUL_TOKENS: usize = 5;

fn copy_ids(ids: &Vec<String>, n: usize) -> (r: Vec<String>)
    requires
        n <= ids.len(),
    ensures
        r@ == ids@.take(n as int),
{
    let mut r: Vec<String> = Vec::new();
    let mut i: usize = 0;
    while i < n
        invariant
            i <= n <= ids.len(),
            r@ =~= ids@.take(i as int),
        decreases n - i,
    {
        r.push(ids[i].clone());
        i += 1;
    }
    r
}

impl StreamMultiplexer {
    /// The multiplexer for the candidates under the ceilings of a directive;
    /// a ceiling that the directive does not name takes its default.
    pub fn new(providers: Vec<String>, config: &OmenConfig) -> (m: Self)
        ensures
            m.providers == providers,
            m.budget_cap == match config.budget_usd {
                Some(b) => b,
                None => DEFAULT_BUDGET_MICRO_USD,
            },
            m.max_latency == match config.max_latency_ms {
                Some(l) => l as u64,
                None => DEFAULT_MAX_LATENCY_MS,
            },
            m.min_useful_tokens == match config.min_useful_tokens {
                Some(n) => n as usize,
                None => DEFAULT_MIN_USEFUL_TOKENS,
            },
    {
        StreamMultiplexer {
            providers,
            budget_cap: match config.budget_usd {
                Some(b) => b,
                None => DEFAULT_BUDGET_MICRO_USD,
            },
            max_latency: match config.max_latency_ms {
                Some(l) => l as u64,
                None => DEFAULT_MAX_LATENCY_MS,
            },
            min_useful_tokens: match config.min_useful_tokens {
                Some(n) => n as usize,
                None => DEFAULT_MIN_USEFUL_TOKENS,
            },
        }
    }

    /// The plan of a race over the first `k` candidates.
    pub open spec fn race_plan(self, k: usize, plan: LaunchPlan) -> bool {
        &&& plan.immediate@ == first_k(self.providers@, k as nat)
        &&& plan.delayed@.len() == 0
        &&& plan.delay_ms == 0
        &&& plan.coordination == Coordination::Race
    }

    /// The plan of a speculative run: the local candidate at once, the first
    /// `k - 1` of the others after the delay.
    pub open spec fn speculative_plan(self, k: usize, delay_ms: u64, plan: LaunchPlan) -> bool {
        &&& plan.immediate@.len() == 1
        &&& is_local_id(plan.immediate@[0]@)
        &&& plan.delayed@ == first_k(
            cloud_ids(self.providers@),
            if k == 0 {
                0nat
            } else {
                (k - 1) as nat
            },
        )
        &&& plan.delay_ms == delay_ms
        &&& plan.coordination == Coordination::Speculative
    }

    /// What `multiplex_stream` answers for a strategy: a plan that drives at
    /// least one provider, or `ProviderUnavailable` where there is none to drive.
    pub open spec fn plans(self, strategy: MultiplexStrategy, r: Result<LaunchPlan, OmenError>) -> bool {
        match strategy {
            MultiplexStrategy::Single => self.single_result(r),
            MultiplexStrategy::Race { k } => self.race_result(k, r),
            MultiplexStrategy::SpeculateK { k, delay_ms } => self.speculate_result(k, delay_ms, r),
            MultiplexStrategy::ParallelMerge { k } => self.race_result(k, r),
        }
    }

    /// What `run_single` answers: the first candidate alone, or
    /// `ProviderUnavailable` where there is none.
    pub open spec fn single_result(self, r: Result<LaunchPlan, OmenError>) -> bool {
        if self.providers@.len() == 0 {
            nothing_to_drive(r)
        } else {
            &&& r is Ok
            &&& r->Ok_0.immediate@ == self.providers@.take(1)
            &&& r->Ok_0.delayed@.len() == 0
            &&& r->Ok_0.delay_ms == 0
            &&& r->Ok_0.coordination == Coordination::Direct
        }
    }

    /// What `run_race` answers: the plan of a race, or `ProviderUnavailable`
    /// where there is nothing to drive.
    pub open spec fn race_result(self, k: usize, r: Result<LaunchPlan, OmenError>) -> bool {
        if self.providers@.len() == 0 || k == 0 {
            nothing_to_drive(r)
        } else {
            r is Ok && self.race_plan(k, r->Ok_0)
        }
    }

    /// What `run_speculate_k` answers: the plan of a speculative run where a
    /// candidate is local, else what a race answers.
    pub open spec fn speculate_result(
        self,
        k: usize,
        delay_ms: u64,
        r: Result<LaunchPlan, OmenError>,
    ) -> bool {
        if has_local(self.providers@) {
            r is Ok && self.speculative_plan(k, delay_ms, r->Ok_0)
        } else {
            self.race_result(k, r)
        }
    }

    /// Plans the fan-out for a strategy.
    pub fn multiplex_stream(&self, strategy: MultiplexStrategy) -> (r: Result<LaunchPlan, OmenError>)
        ensures
            self.plans(strategy, r),
    {
        match strategy {
            MultiplexStrategy::Single => self.run_single(),
            MultiplexStrategy::Race { k } => self.run_race(k),
            MultiplexStrategy::SpeculateK { k, delay_ms } => self.run_speculate_k(k, delay_ms),
            MultiplexStrategy::ParallelMerge { k } => self.run_parallel_merge(k),
        }
    }

    /// The first candidate alone, its stream forwarded verbatim.
    pub fn run_single(&self) -> (r: Result<LaunchPlan, OmenError>)
        ensures
            self.single_result(r),
    {
        if self.providers.len() == 0 {
            Err(OmenError::ProviderUnavailable(String::from_str("No providers available")))
        } else {
            Ok(
                LaunchPlan {
                    immediate: copy_ids(&self.providers, 1),
                    delayed: Vec::new(),
                    delay_ms: 0,
                    coordination: Coordination::Direct,
                },
            )
        }
    }

    /// The first `k` candidates, racing to the first useful token.
    pub fn run_race(&self, k: usize) -> (r: Result<LaunchPlan, OmenError>)
        ensures
            self.race_result(k, r),
    {
        if self.providers.len() == 0 || k == 0 {
            return Err(
                OmenError::ProviderUnavailable(String::from_str("No providers available")),
            );
        }
        let n: usize = if k <= self.providers.len() {
            k
        } else {
            self.providers.len()
        };
        let immediate = copy_ids(&self.providers, n);
        assert(self.providers@.take(self.providers@.len() as int) =~= self.providers@);
        Ok(
            LaunchPlan {
                immediate,
                delayed: Vec::new(),
                delay_ms: 0,
                coordination: Coordination::Race,
            },
        )
    }

    /// The local candidate at once and the first `k - 1` of the others after
    /// `delay_ms`; a race of `k` where no candidate is local.
    pub fn run_speculate_k(&self, k: usize, delay_ms: u64) -> (r: Result<LaunchPlan, OmenError>)
        ensures
            self.speculate_result(k, delay_ms, r),
    {
        let mut local: Option<String> = None;
        let mut cloud: Vec<String> = Vec::new();
        let mut i: usize = 0;
        while i < self.providers.len()
            invariant
                i <= self.providers.len(),
                cloud@ == cloud_ids(self.providers@.take(i as int)),
                match local {
                    Some(l) => is_local_id(l@) && has_local(self.providers@),
                    None => forall|j: int| 0 <= j < i ==> !is_local_id(#[trigger] self.providers@[j]@),
                },
            decreases self.providers.len() - i,
        {
            proof {
                assert(self.providers@.take(i + 1).drop_last() =~= self.providers@.take(i as int));
            }
            if str_eq(self.providers[i].as_str(), "ollama") {
                if local.is_none() {
                    local = Some(self.providers[i].clone());
                }
            } else {
                cloud.push(self.providers[i].clone());
            }
            i += 1;
        }
        proof {
            assert(self.providers@.take(i as int) =~= self.providers@);
        }
        match local {
            None => self.run_race(k),
            Some(l) => {
                let want: usize = if k == 0 {
                    0
                } else {
                    k - 1
                };
                let n: usize = if want <= cloud.len() {
                    want
                } else {
                    cloud.len()
                };
                let delayed = copy_ids(&cloud, n);
                assert(cloud@.take(cloud@.len() as int) =~= cloud@);
                let mut immediate: Vec<String> = Vec::new();
                immediate.push(l);
                Ok(
                    LaunchPlan {
                        immediate,
                        delayed,
                        delay_ms,
                        coordination: Coordination::Speculative,
                    },
                )
            },
        }
    }

    /// The fan-out of a race: the merge of several streams is joined as a race.
    pub fn run_parallel_merge(&self, k: usize) -> (r: Result<LaunchPlan, OmenError>)
        ensures
            self.race_result(k, r),
    {
        self.run_race(k)
    }

    /// Whether a chunk is useful: see [`useful_token`].
    pub fn is_useful_token(chunk: &str, min_tokens: usize) -> (b: bool)
        ensures
            b == useful_token(chunk@, min_tokens as nat),
    {
        let all = to_chars(chunk);
        let content = trim_chars(&all);
        if content.len() == 0 {
            return false;
        }
        if utf8_len_reaches(&content, min_tokens) {
            return true;
        }
        let fence = to_chars("```");
        if contains_chars(&content, &fence) {
            return true;
        }
        let newline = to_chars("\n");
        contains_chars(&content, &newline)
    }

    /// Whether a chunk calls for an upgrade: see [`upgrade_worthy`].
    pub fn should_upgrade(chunk: &str) -> (b: bool)
        ensures
            b == upgrade_worthy(chunk@),
    {
        let all = to_chars(chunk);
        let fence = to_chars("```");
        if contains_chars(&all, &fence) {
            return true;
        }
        let call = to_chars("function_call");
        if contains_chars(&all, &call) {
            return true;
        }
        let tool = to_chars("tool_call");
        contains_chars(&all, &tool)
    }
}


impl From<&OmenConfig> for MultiplexStrategy {
    fn from(config: &OmenConfig) -> (s: MultiplexStrategy) {
        MultiplexStrategy::from_config(config)
    }
}

impl vstd::std_specs::convert::FromSpecImpl<&OmenConfig> for MultiplexStrategy {
    open spec fn obeys_from_spec() -> bool {
        true
    }

    open spec fn from_spec(config: &OmenConfig) -> MultiplexStrategy {
        strategy_of(*config)
    }
}

/// What a provider's stream hands to its driver.
#[derive(Debug, Clone)]
pub enum DriverItem {
    /// One chunk.
    Chunk(String),
    /// The stream failed, or could not be opened.
    Failed(String),
    /// The stream ended.
    End,
    /// The request's cancellation signal was raised.
    Cancelled,
}

/// The cost that a driver reports for a stream that ended, in micro-dollars:
/// a flat cent.
pub const DRIVER_FLAT_COST_MICRO_USD: u64 = 10_000;

/// What a driver did for a request, as the router's metrics take it.
#[derive(Debug, Clone)]
pub struct DriverWork {
    pub provider_id: String,
    /// The time since the request started at which the driver ended.
    pub latency_ms: u64,
    /// Whether the provider's stream did not fail.
    pub success: bool,
    /// What the chunks are estimated to have cost, in micro-dollars.
    pub cost_usd: u64,
    /// The chunks that the stream yielded.
    pub tokens: u32,
}

/// What a driver did, as a mathematical value.
pub struct WorkView {
    pub provider_id: Seq<char>,
    pub latency_ms: u64,
    pub success: bool,
    pub cost_usd: u64,
    pub tokens: u32,
}

impl View for DriverWork {
    type V = WorkView;

    open spec fn view(&self) -> WorkView {
        WorkView {
            provider_id: self.provider_id@,
            latency_ms: self.latency_ms,
            success: self.success,
            cost_usd: self.cost_usd,
            tokens: self.tokens,
        }
    }
}

/// The work of each driver of a list.
pub open spec fn work_views(work: Seq<DriverWork>) -> Seq<WorkView> {
    Seq::new(work.len(), |i: int| work[i]@)
}

/// The driver of one provider's stream: it tags what the stream yields with
/// the provider's id and counts the chunks.
#[derive(Debug, Clone)]
pub struct StreamDriver {
    pub provider_id: String,
    /// The chunks seen so far, held at the largest representable count.
    pub total_tokens: u32,
    /// No further event will be reported.
    pub finished: bool,
    /// The stream failed.
    pub failed: bool,
}

impl StreamDriver {
    /// The count after one more chunk.
    pub open spec fn bumped(self) -> u32 {
        if self.total_tokens == u32::MAX {
            u32::MAX
        } else {
            (self.total_tokens + 1) as u32
        }
    }

    /// The driver after an item: a chunk is counted, anything else ends it.
    pub open spec fn after(self, item: DriverItem) -> StreamDriver {
        if self.finished {
            self
        } else {
            match item {
                DriverItem::Chunk(_) => StreamDriver { total_tokens: self.bumped(), ..self },
                DriverItem::Failed(_) => StreamDriver { finished: true, failed: true, ..self },
                _ => StreamDriver { finished: true, ..self },
            }
        }
    }

    /// What the driver has done so far: its chunks, each estimated at one
    /// token at the provider's price, and whether its stream failed.
    pub open spec fn work_done(self, latency_ms: u64) -> WorkView {
        WorkView {
            provider_id: self.provider_id@,
            latency_ms,
            success: !self.failed,
            cost_usd: scaled(self.total_tokens as u64, price_per_1k(self.provider_id@), 1000),
            tokens: self.total_tokens,
        }
    }

    /// The event that the driver reports for an item: a token for a chunk,
    /// an error for a failure, the count and the cost at the end, and nothing
    /// once it is cancelled or has finished.
    pub open spec fn event_for(self, item: DriverItem, latency_ms: u64) -> Option<StreamEvent> {
        if self.finished {
            None
        } else {
            match item {
                DriverItem::Chunk(chunk) => Some(
                    StreamEvent::Token { provider_id: self.provider_id, chunk, latency_ms },
                ),
                DriverItem::Failed(error) => Some(
                    StreamEvent::Error { provider_id: self.provider_id, error },
                ),
                DriverItem::End => Some(
                    StreamEvent::Done {
                        provider_id: self.provider_id,
                        total_tokens: self.total_tokens,
                        cost_usd: DRIVER_FLAT_COST_MICRO_USD,
                    },
                ),
                DriverItem::Cancelled => None,
            }
        }
    }

    /// The driver of a provider's stream that has yielded nothing yet.
    pub fn new(provider_id: String) -> (d: Self)
        ensures
            d == (StreamDriver { provider_id, total_tokens: 0, finished: false, failed: false }),
    {
        StreamDriver { provider_id, total_tokens: 0, finished: false, failed: false }
    }

    /// What the driver has done, `latency_ms` after the request started:
    /// see [`StreamDriver::work_done`].
    pub fn work(&self, latency_ms: u64) -> (w: DriverWork)
        ensures
            w@ == self.work_done(latency_ms),
    {
        DriverWork {
            provider_id: self.provider_id.clone(),
            latency_ms,
            success: !self.failed,
            cost_usd: scale(self.total_tokens as u64, price_of(self.provider_id.as_str()), 1000),
            tokens: self.total_tokens,
        }
    }

    /// Takes one item of the provider's stream, with the time since the
    /// request started, and gives the event to report.
    pub fn stream_provider_with_events(&mut self, item: DriverItem, latency_ms: u64) -> (e: Option<
        StreamEvent,
    >)
        ensures
            *final(self) == old(self).after(item),
            e == old(self).event_for(item, latency_ms),
    {
        if self.finished {
            return None;
        }
        match item {
            DriverItem::Chunk(chunk) => {
                if self.total_tokens < u32::MAX {
                    self.total_tokens = self.total_tokens + 1;
                }
                Some(StreamEvent::Token { provider_id: self.provider_id.clone(), chunk, latency_ms })
            },
            DriverItem::Failed(error) => {
                self.finished = true;
                self.failed = true;
                Some(StreamEvent::Error { provider_id: self.provider_id.clone(), error })
            },
            DriverItem::End => {
                self.finished = true;
                Some(
                    StreamEvent::Done {
                        provider_id: self.provider_id.clone(),
                        total_tokens: self.total_tokens,
                        cost_usd: DRIVER_FLAT_COST_MICRO_USD,
                    },
                )
            },
            DriverItem::Cancelled => {
                self.finished = true;
                None
            },
        }
    }
}

} // verus!
