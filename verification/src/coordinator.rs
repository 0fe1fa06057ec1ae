//! The coordinators that join the drivers' events into one output sequence:
//! the race, which commits to the first useful token, and the speculative
//! run, which follows the first token and may upgrade once.
//!
//! A coordinator is a state machine. The driver loop hands it one input at a
//! time and carries out what the step asks for: forward an item, cancel
//! drivers, stop.
//!
//! Both coordinators keep the budget of the request. What the drivers that
//! ended have cost is summed up; each driver that is active is estimated at
//! one token a chunk, at its provider's price. A driver is active from its
//! first chunk until it ends, fails or is cancelled. Where the sum and the
//! estimates pass the budget, the run ends at once, in every state.

use vstd::prelude::*;
use crate::amount::{add_amount, capped_sum};
use crate::error::OmenError;
use crate::multiplexer::{StreamEvent, StreamMultiplexer, upgrade_worthy, useful_token};
use crate::providers::{price_of, price_per_1k};
use crate::store::TextMap;
use crate::text::{is_space, lemma_trimmed_blank};

verus! {

/// What reaches a coordinator.
#[derive(Debug, Clone)]
pub enum CoordinatorInput {
    /// An event of one of the drivers.
    Event(StreamEvent),
    /// Every driver has gone: no event will follow.
    Closed,
    /// The caller has gone: nobody takes the output any more.
    Abandoned,
    /// The deadline of the request has passed.
    Deadline,
}

/// What a step adds to the output sequence.
#[derive(Debug, Clone)]
pub enum Emit {
    Nothing,
    /// A chunk of the committed provider.
    Chunk(String),
    /// The error that ends the output sequence.
    Failure(OmenError),
}

/// Which drivers a step cancels.
#[derive(Debug, Clone)]
pub enum Cancel {
    Nothing,
    /// Every driver but the named provider's.
    AllBut(String),
    /// The named provider's driver.
    One(String),
    All,
}

/// What the driver loop does after a step.
#[derive(Debug, Clone)]
pub struct StepOutput {
    pub emit: Emit,
    pub cancel: Cancel,
    /// The output sequence has ended.
    pub stop: bool,
    /// The step moved the output to another provider.
    pub upgraded: bool,
}

/// The step that changes nothing.
pub open spec fn idle() -> StepOutput {
    StepOutput { emit: Emit::Nothing, cancel: Cancel::Nothing, stop: false, upgraded: false }
}

/// The step of a coordinator that has stopped.
pub open spec fn halted() -> StepOutput {
    StepOutput { emit: Emit::Nothing, cancel: Cancel::Nothing, stop: true, upgraded: false }
}

/// The step that ends a run whose budget is passed: every driver is
/// cancelled and the output ends with `BudgetExceeded`.
pub open spec fn over_budget() -> StepOutput {
    StepOutput {
        emit: Emit::Failure(OmenError::BudgetExceeded),
        cancel: Cancel::All,
        stop: true,
        upgraded: false,
    }
}

/// Whether `p` is the provider that `slot` holds.
pub open spec fn holds(slot: Option<String>, p: String) -> bool {
    slot matches Some(w) && w@ == p@
}

/// What one chunk of a provider is estimated to cost, in micro-dollars:
/// one token at the provider's price.
pub open spec fn chunk_estimate(provider_id: Seq<char>) -> u64 {
    price_per_1k(provider_id) / 1000
}

/// What the drivers that ended have cost, after an input: the cost that a
/// driver reports at its end is added.
pub open spec fn spent_after(spent: u64, input: CoordinatorInput) -> u64 {
    match input {
        CoordinatorInput::Event(StreamEvent::Done { cost_usd, .. }) => capped_sum(spent, cost_usd),
        _ => spent,
    }
}

/// What a driver is estimated to have cost so far: nothing for a driver
/// that is not active.
pub open spec fn estimate_of(estimates: Map<Seq<char>, u64>, provider_id: Seq<char>) -> u64 {
    if estimates.contains_key(provider_id) {
        estimates[provider_id]
    } else {
        0
    }
}

/// An amount less another, and nothing where the other is the larger.
pub open spec fn less(amount: u64, by: u64) -> u64 {
    if by >= amount {
        0
    } else {
        (amount - by) as u64
    }
}

/// The estimates of the active drivers after an input: a chunk adds its
/// estimate to that of its driver; a driver that ends or fails is active no
/// more, and its estimate goes.
pub open spec fn estimates_after(estimates: Map<Seq<char>, u64>, input: CoordinatorInput) -> Map<
    Seq<char>,
    u64,
> {
    match input {
        CoordinatorInput::Event(StreamEvent::Token { provider_id, .. }) => estimates.insert(
            provider_id@,
            capped_sum(estimate_of(estimates, provider_id@), chunk_estimate(provider_id@)),
        ),
        CoordinatorInput::Event(StreamEvent::Done { provider_id, .. }) => estimates.remove(
            provider_id@,
        ),
        CoordinatorInput::Event(StreamEvent::Error { provider_id, .. }) => estimates.remove(
            provider_id@,
        ),
        _ => estimates,
    }
}

/// What the active drivers are estimated to have cost in all, after an
/// input.
pub open spec fn running_after(
    running: u64,
    estimates: Map<Seq<char>, u64>,
    input: CoordinatorInput,
) -> u64 {
    match input {
        CoordinatorInput::Event(StreamEvent::Token { provider_id, .. }) => capped_sum(
            running,
            chunk_estimate(provider_id@),
        ),
        CoordinatorInput::Event(StreamEvent::Done { provider_id, .. }) => less(
            running,
            estimate_of(estimates, provider_id@),
        ),
        CoordinatorInput::Event(StreamEvent::Error { provider_id, .. }) => less(
            running,
            estimate_of(estimates, provider_id@),
        ),
        _ => running,
    }
}

fn take_off(amount: u64, by: u64) -> (r: u64)
    ensures
        r == less(amount, by),
{
    if by >= amount {
        0
    } else {
        amount - by
    }
}

fn estimate_in(estimates: &TextMap<u64>, provider_id: &str) -> (e: u64)
    ensures
        e == estimate_of(estimates@, provider_id@),
{
    match estimates.get(provider_id) {
        Some(e) => *e,
        None => 0,
    }
}

fn tally(spent: u64, running: u64, estimates: &mut TextMap<u64>, input: &CoordinatorInput) -> (r: (
    u64,
    u64,
))
    ensures
        r.0 == spent_after(spent, *input),
        r.1 == running_after(running, old(estimates)@, *input),
        final(estimates)@ == estimates_after(old(estimates)@, *input),
{
    match input {
        CoordinatorInput::Event(StreamEvent::Token { provider_id, .. }) => {
            let each: u64 = price_of(provider_id.as_str()) / 1000;
            let had: u64 = estimate_in(estimates, provider_id.as_str());
            estimates.insert(provider_id.clone(), add_amount(had, each));
            (spent, add_amount(running, each))
        },
        CoordinatorInput::Event(StreamEvent::Done { provider_id, cost_usd, .. }) => {
            let had: u64 = estimate_in(estimates, provider_id.as_str());
            estimates.remove(provider_id.as_str());
            (add_amount(spent, *cost_usd), take_off(running, had))
        },
        CoordinatorInput::Event(StreamEvent::Error { provider_id, .. }) => {
            let had: u64 = estimate_in(estimates, provider_id.as_str());
            estimates.remove(provider_id.as_str());
            (spent, take_off(running, had))
        },
        _ => (spent, running),
    }
}

fn is_over(spent: u64, running: u64, budget_cap: u64) -> (b: bool)
    ensures
        b == (spent + running > budget_cap),
{
    spent > budget_cap || running > budget_cap - spent
}

fn slot_holds(slot: &Option<String>, p: &String) -> (b: bool)
    ensures
        b == holds(*slot, *p),
{
    match slot {
        Some(w) => *w == *p,
        None => false,
    }
}

/// The coordinator of a race. It is searching while `winner` is `None`,
/// committed once it is `Some`, and finished when `stopped`.
pub struct RaceCoordinator {
    /// The committed provider.
    pub winner: Option<String>,
    pub stopped: bool,
    /// What the drivers that ended have cost, in micro-dollars.
    pub spent: u64,
    /// What the active drivers are estimated to have cost in all.
    pub running: u64,
    /// What each active driver is estimated to have cost.
    pub estimates: TextMap<u64>,
    /// How many chunks were forwarded.
    pub forwarded: u64,
    pub budget_cap: u64,
    pub min_useful_tokens: usize,
}

/// A race as a mathematical value.
pub struct RaceState {
    pub winner: Option<String>,
    pub stopped: bool,
    pub spent: u64,
    pub running: u64,
    pub estimates: Map<Seq<char>, u64>,
    pub forwarded: u64,
    pub budget_cap: u64,
    pub min_useful_tokens: usize,
}

impl View for RaceCoordinator {
    type V = RaceState;

    open spec fn view(&self) -> RaceState {
        RaceState {
            winner: self.winner,
            stopped: self.stopped,
            spent: self.spent,
            running: self.running,
            estimates: self.estimates@,
            forwarded: self.forwarded,
            budget_cap: self.budget_cap,
            min_useful_tokens: self.min_useful_tokens,
        }
    }
}

impl RaceState {
    /// Whether an input bears on the estimates: while the race is
    /// searching every driver is active; once it is committed the winner's
    /// driver alone is, for the others were cancelled.
    pub open spec fn counts(self, input: CoordinatorInput) -> bool {
        match input {
            CoordinatorInput::Event(StreamEvent::Token { provider_id, .. }) => self.winner is None
                || holds(self.winner, provider_id),
            _ => true,
        }
    }

    /// The race with the costs of an input counted.
    pub open spec fn counted(self, input: CoordinatorInput) -> RaceState {
        if self.counts(input) {
            RaceState {
                spent: spent_after(self.spent, input),
                running: running_after(self.running, self.estimates, input),
                estimates: estimates_after(self.estimates, input),
                ..self
            }
        } else {
            self
        }
    }

    /// Whether an input brings the sum of what was spent and the estimates
    /// of the active drivers past the budget.
    pub open spec fn passes_budget(self, input: CoordinatorInput) -> bool {
        self.counted(input).spent + self.counted(input).running > self.budget_cap
    }

    /// The state after one input. Every input is counted first, and the run
    /// ends where the budget is passed. Else a searching race commits to
    /// the provider of a useful token, whose driver is the one that stays
    /// active; a committed race forwards the winner's chunks and ends with
    /// the winner's end or failure; the deadline, the end of all drivers
    /// and the leaving of the caller end the run.
    pub open spec fn after(self, input: CoordinatorInput) -> RaceState {
        let c = self.counted(input);
        if self.stopped {
            self
        } else if self.passes_budget(input) {
            RaceState { stopped: true, ..c }
        } else {
            match input {
                CoordinatorInput::Event(StreamEvent::Token { provider_id, chunk, latency_ms }) => {
                    if self.winner is None {
                        if useful_token(chunk@, self.min_useful_tokens as nat) {
                            RaceState {
                                winner: Some(provider_id),
                                forwarded: capped_sum(self.forwarded, 1),
                                running: estimate_of(c.estimates, provider_id@),
                                estimates: Map::<Seq<char>, u64>::empty().insert(
                                    provider_id@,
                                    estimate_of(c.estimates, provider_id@),
                                ),
                                ..c
                            }
                        } else {
                            c
                        }
                    } else if holds(self.winner, provider_id) {
                        RaceState { forwarded: capped_sum(self.forwarded, 1), ..c }
                    } else {
                        c
                    }
                },
                CoordinatorInput::Event(StreamEvent::Done { provider_id, total_tokens, cost_usd }) => {
                    if holds(self.winner, provider_id) {
                        RaceState { stopped: true, ..c }
                    } else {
                        c
                    }
                },
                CoordinatorInput::Event(StreamEvent::Error { provider_id, error }) => {
                    if holds(self.winner, provider_id) {
                        RaceState { stopped: true, ..c }
                    } else {
                        c
                    }
                },
                CoordinatorInput::Event(StreamEvent::Upgrade { .. }) => c,
                CoordinatorInput::Closed => RaceState { stopped: true, ..c },
                CoordinatorInput::Abandoned => RaceState { stopped: true, ..c },
                CoordinatorInput::Deadline => RaceState { stopped: true, ..c },
            }
        }
    }

    /// What one input asks of the driver loop.
    pub open spec fn output(self, input: CoordinatorInput) -> StepOutput {
        if self.stopped {
            halted()
        } else if self.passes_budget(input) {
            over_budget()
        } else {
            match input {
                CoordinatorInput::Event(StreamEvent::Token { provider_id, chunk, latency_ms }) => {
                    if self.winner is None {
                        if useful_token(chunk@, self.min_useful_tokens as nat) {
                            StepOutput {
                                emit: Emit::Chunk(chunk),
                                cancel: Cancel::AllBut(provider_id),
                                ..idle()
                            }
                        } else {
                            idle()
                        }
                    } else if holds(self.winner, provider_id) {
                        StepOutput { emit: Emit::Chunk(chunk), ..idle() }
                    } else {
                        idle()
                    }
                },
                CoordinatorInput::Event(StreamEvent::Done { provider_id, total_tokens, cost_usd }) => {
                    if holds(self.winner, provider_id) {
                        StepOutput { cancel: Cancel::All, ..halted() }
                    } else {
                        idle()
                    }
                },
                CoordinatorInput::Event(StreamEvent::Error { provider_id, error }) => {
                    if holds(self.winner, provider_id) {
                        StepOutput {
                            emit: Emit::Failure(OmenError::Provider(error)),
                            cancel: Cancel::All,
                            ..halted()
                        }
                    } else {
                        idle()
                    }
                },
                CoordinatorInput::Event(StreamEvent::Upgrade { .. }) => idle(),
                CoordinatorInput::Closed => if self.winner is None {
                    StepOutput {
                        emit: Emit::Failure(OmenError::Timeout),
                        cancel: Cancel::All,
                        ..halted()
                    }
                } else {
                    StepOutput { cancel: Cancel::All, ..halted() }
                },
                CoordinatorInput::Abandoned => StepOutput { cancel: Cancel::All, ..halted() },
                CoordinatorInput::Deadline => if self.winner is None {
                    StepOutput {
                        emit: Emit::Failure(OmenError::Timeout),
                        cancel: Cancel::All,
                        ..halted()
                    }
                } else {
                    StepOutput { cancel: Cancel::All, ..halted() }
                },
            }
        }
    }

    /// The state after a sequence of inputs.
    pub open spec fn run(self, inputs: Seq<CoordinatorInput>) -> RaceState
        decreases inputs.len(),
    {
        if inputs.len() == 0 {
            self
        } else {
            self.run(inputs.drop_last()).after(inputs.last())
        }
    }

    /// What the coordinator puts out at input `i` of a sequence.
    pub open spec fn output_at(self, inputs: Seq<CoordinatorInput>, i: int) -> StepOutput {
        self.run(inputs.take(i)).output(inputs[i])
    }

    /// The output sequence of a run: the chunks and the failure that the
    /// steps emit, in order.
    pub open spec fn emitted(self, inputs: Seq<CoordinatorInput>) -> Seq<Result<String, OmenError>>
        decreases inputs.len(),
    {
        if inputs.len() == 0 {
            seq![]
        } else {
            let before = self.emitted(inputs.drop_last());
            match self.run(inputs.drop_last()).output(inputs.last()).emit {
                Emit::Nothing => before,
                Emit::Chunk(c) => before.push(Ok(c)),
                Emit::Failure(e) => before.push(Err(e)),
            }
        }
    }

    /// Which drivers each step of a run cancels.
    pub open spec fn cancelled(self, inputs: Seq<CoordinatorInput>) -> Seq<Cancel> {
        Seq::new(inputs.len(), |i: int| self.output_at(inputs, i).cancel)
    }
}

impl RaceCoordinator {
    /// A coordinator that is searching.
    pub fn new(budget_cap: u64, min_useful_tokens: usize) -> (c: Self)
        ensures
            c@ == (RaceState {
                winner: None,
                stopped: false,
                spent: 0,
                running: 0,
                estimates: Map::<Seq<char>, u64>::empty(),
                forwarded: 0,
                budget_cap,
                min_useful_tokens,
            }),
    {
        RaceCoordinator {
            winner: None,
            stopped: false,
            spent: 0,
            running: 0,
            estimates: TextMap::new(),
            forwarded: 0,
            budget_cap,
            min_useful_tokens,
        }
    }

    fn takes(&self, input: &CoordinatorInput) -> (b: bool)
        ensures
            b == self@.counts(*input),
    {
        match input {
            CoordinatorInput::Event(StreamEvent::Token { provider_id, .. }) => {
                self.winner.is_none() || slot_holds(&self.winner, provider_id)
            },
            _ => true,
        }
    }

    /// Takes one input.
    pub fn step(&mut self, input: CoordinatorInput) -> (out: StepOutput)
        ensures
            final(self)@ == old(self)@.after(input),
            out == old(self)@.output(input),
    {
        let quiet = StepOutput {
            emit: Emit::Nothing,
            cancel: Cancel::Nothing,
            stop: false,
            upgraded: false,
        };
        if self.stopped {
            return StepOutput { stop: true, ..quiet };
        }
        if self.takes(&input) {
            let (spent, running) = tally(self.spent, self.running, &mut self.estimates, &input);
            self.spent = spent;
            self.running = running;
        }
        if is_over(self.spent, self.running, self.budget_cap) {
            self.stopped = true;
            return StepOutput {
                emit: Emit::Failure(OmenError::BudgetExceeded),
                cancel: Cancel::All,
                stop: true,
                upgraded: false,
            };
        }
        match input {
            CoordinatorInput::Event(StreamEvent::Token { provider_id, chunk, latency_ms }) => {
                if self.winner.is_none() {
                    if StreamMultiplexer::is_useful_token(chunk.as_str(), self.min_useful_tokens) {
                        let own: u64 = estimate_in(&self.estimates, provider_id.as_str());
                        let mut only: TextMap<u64> = TextMap::new();
                        only.insert(provider_id.clone(), own);
                        self.estimates = only;
                        self.running = own;
                        self.winner = Some(provider_id.clone());
                        self.forwarded = add_amount(self.forwarded, 1);
                        StepOutput {
                            emit: Emit::Chunk(chunk),
                            cancel: Cancel::AllBut(provider_id),
                            ..quiet
                        }
                    } else {
                        quiet
                    }
                } else if slot_holds(&self.winner, &provider_id) {
                    self.forwarded = add_amount(self.forwarded, 1);
                    StepOutput { emit: Emit::Chunk(chunk), ..quiet }
                } else {
                    quiet
                }
            },
            CoordinatorInput::Event(StreamEvent::Done { provider_id, total_tokens, cost_usd }) => {
                if slot_holds(&self.winner, &provider_id) {
                    self.stopped = true;
                    StepOutput { cancel: Cancel::All, stop: true, ..quiet }
                } else {
                    quiet
                }
            },
            CoordinatorInput::Event(StreamEvent::Error { provider_id, error }) => {
                if slot_holds(&self.winner, &provider_id) {
                    self.stopped = true;
                    StepOutput {
                        emit: Emit::Failure(OmenError::Provider(error)),
                        cancel: Cancel::All,
                        stop: true,
                        upgraded: false,
                    }
                } else {
                    quiet
                }
            },
            CoordinatorInput::Event(StreamEvent::Upgrade { .. }) => quiet,
            CoordinatorInput::Abandoned => {
                self.stopped = true;
                StepOutput { cancel: Cancel::All, stop: true, ..quiet }
            },
            CoordinatorInput::Closed | CoordinatorInput::Deadline => {
                self.stopped = true;
                if self.winner.is_none() {
                    StepOutput {
                        emit: Emit::Failure(OmenError::Timeout),
                        cancel: Cancel::All,
                        stop: true,
                        upgraded: false,
                    }
                } else {
                    StepOutput { cancel: Cancel::All, stop: true, ..quiet }
                }
            },
        }
    }
}

/// An input that neither commits a searching race nor ends it on its own:
/// a chunk that is not useful, the failure of a driver, or a note of an
/// upgrade.
pub open spec fn keeps_searching(input: CoordinatorInput, min_useful_tokens: usize) -> bool {
    match input {
        CoordinatorInput::Event(StreamEvent::Token { chunk, .. }) => !useful_token(
            chunk@,
            min_useful_tokens as nat,
        ),
        CoordinatorInput::Event(StreamEvent::Error { .. }) => true,
        CoordinatorInput::Event(StreamEvent::Upgrade { .. }) => true,
        _ => false,
    }
}

/// A chunk of whitespace alone.
pub open spec fn blank_chunk(input: CoordinatorInput) -> bool {
    input matches CoordinatorInput::Event(StreamEvent::Token { chunk, .. }) && forall|k: int|
        0 <= k < chunk@.len() ==> is_space(#[trigger] chunk@[k])
}

/// A chunk of whitespace alone is not useful, whatever the threshold.
pub proof fn lemma_blank_chunk_not_useful(input: CoordinatorInput, min_useful_tokens: usize)
    requires
        blank_chunk(input),
    ensures
        keeps_searching(input, min_useful_tokens),
{
    match input {
        CoordinatorInput::Event(StreamEvent::Token { chunk, .. }) => {
            lemma_trimmed_blank(chunk@);
        },
        _ => {},
    }
}

/// The ceilings and the threshold of a coordinator never change, and a
/// coordinator that has stopped stays as it is.
pub proof fn lemma_race_run_keeps_limits(c: RaceState, inputs: Seq<CoordinatorInput>)
    ensures
        c.run(inputs).budget_cap == c.budget_cap,
        c.run(inputs).min_useful_tokens == c.min_useful_tokens,
        c.stopped ==> c.run(inputs) == c,
    decreases inputs.len(),
{
    if inputs.len() > 0 {
        lemma_race_run_keeps_limits(c, inputs.drop_last());
    }
}

/// A run is the run over a prefix, followed by the run over the rest.
pub proof fn lemma_race_run_splits(c: RaceState, inputs: Seq<CoordinatorInput>, n: int)
    requires
        0 <= n <= inputs.len(),
    ensures
        c.run(inputs) == c.run(inputs.take(n)).run(inputs.skip(n)),
    decreases inputs.len(),
{
    if n == inputs.len() {
        assert(inputs.take(n) =~= inputs);
    } else {
        let head = inputs.drop_last();
        lemma_race_run_splits(c, head, n);
        assert(head.take(n) =~= inputs.take(n));
        assert(inputs.skip(n).drop_last() =~= head.skip(n));
    }
}

/// Once a race has stopped, it stays as it is and nothing more is put out:
/// no chunk that comes later is forwarded, and no driver is cancelled anew.
pub proof fn lemma_race_nothing_after_stop(
    c: RaceState,
    inputs: Seq<CoordinatorInput>,
    n: int,
    j: int,
)
    requires
        0 <= n <= j < inputs.len(),
        c.run(inputs.take(n)).stopped,
    ensures
        c.run(inputs) == c.run(inputs.take(n)),
        c.output_at(inputs, j) == halted(),
{
    let at = c.run(inputs.take(n));
    lemma_race_run_splits(c, inputs, n);
    lemma_race_run_keeps_limits(at, inputs.skip(n));
    lemma_race_run_splits(c, inputs.take(j), n);
    assert(inputs.take(j).take(n) =~= inputs.take(n));
    lemma_race_run_keeps_limits(at, inputs.take(j).skip(n));
}

/// Where an input brings the sum of the costs of the drivers that ended
/// and the running estimate of the others past the budget, the race ends
/// at that input, whether it is searching or committed: every driver is
/// cancelled, the output ends with `BudgetExceeded`, and no chunk that
/// comes later is forwarded.
pub proof fn lemma_race_budget_ends_run(c: RaceState, inputs: Seq<CoordinatorInput>, i: int)
    requires
        0 <= i < inputs.len(),
        !c.run(inputs.take(i)).stopped,
        c.run(inputs.take(i)).passes_budget(inputs[i]),
    ensures
        c.output_at(inputs, i) == over_budget(),
        c.run(inputs.take(i + 1)).stopped,
        forall|j: int| i < j < inputs.len() ==> #[trigger] c.output_at(inputs, j) == halted(),
{
    lemma_race_run_keeps_limits(c, inputs.take(i));
    assert(inputs.take(i + 1).drop_last() =~= inputs.take(i));
    assert forall|j: int| i < j < inputs.len() implies #[trigger] c.output_at(inputs, j)
        == halted() by {
        lemma_race_nothing_after_stop(c, inputs, i + 1, j);
    }
}

/// A race that is still searching when the deadline comes, or when every
/// driver has gone, cancels every driver and ends the output with
/// `Timeout`: no useful token came in time, and none can. A committed race
/// cancels every driver and ends the output without an error.
pub proof fn lemma_race_deadline_cancels_all(
    c: RaceState,
    inputs: Seq<CoordinatorInput>,
    i: int,
)
    requires
        0 <= i < inputs.len(),
        !c.run(inputs.take(i)).stopped,
        !c.run(inputs.take(i)).passes_budget(inputs[i]),
        inputs[i] is Deadline || inputs[i] is Closed,
    ensures
        c.output_at(inputs, i).cancel is All,
        c.output_at(inputs, i).stop,
        c.output_at(inputs, i).emit == if c.run(inputs.take(i)).winner is None {
            Emit::Failure(OmenError::Timeout)
        } else {
            Emit::Nothing
        },
        c.run(inputs.take(i + 1)).stopped,
{
    lemma_race_run_keeps_limits(c, inputs.take(i));
    assert(inputs.take(i + 1).drop_last() =~= inputs.take(i));
}

/// When the caller has gone, every driver is cancelled and nothing more
/// is put out, whether the race is searching or committed.
pub proof fn lemma_race_caller_gone_cancels_all(
    c: RaceState,
    inputs: Seq<CoordinatorInput>,
    i: int,
)
    requires
        0 <= i < inputs.len(),
        !c.run(inputs.take(i)).stopped,
        !c.run(inputs.take(i)).passes_budget(inputs[i]),
        inputs[i] is Abandoned,
    ensures
        c.output_at(inputs, i).cancel is All,
        c.output_at(inputs, i).stop,
        c.output_at(inputs, i).emit is Nothing,
        forall|j: int| i < j < inputs.len() ==> #[trigger] c.output_at(inputs, j) == halted(),
{
    assert(inputs.take(i + 1).drop_last() =~= inputs.take(i));
    assert forall|j: int| i < j < inputs.len() implies #[trigger] c.output_at(inputs, j)
        == halted() by {
        lemma_race_nothing_after_stop(c, inputs, i + 1, j);
    }
}

/// A race that is searching and has not stopped after inputs that neither
/// commit nor end it is searching still, and has put nothing out.
pub proof fn lemma_race_keeps_searching(c: RaceState, inputs: Seq<CoordinatorInput>)
    requires
        c.winner is None,
        !c.run(inputs).stopped,
        forall|j: int| 0 <= j < inputs.len() ==> keeps_searching(#[trigger] inputs[j], c.min_useful_tokens),
    ensures
        c.run(inputs).winner is None,
        c.emitted(inputs).len() == 0,
        forall|j: int| 0 <= j < inputs.len() ==> #[trigger] c.output_at(inputs, j) == idle(),
    decreases inputs.len(),
{
    if inputs.len() > 0 {
        let head = inputs.drop_last();
        assert forall|j: int| 0 <= j < head.len() implies keeps_searching(
            #[trigger] head[j],
            c.min_useful_tokens,
        ) by {
            assert(head[j] == inputs[j]);
        }
        lemma_race_run_keeps_limits(c, head);
        lemma_race_keeps_searching(c, head);
        assert(keeps_searching(inputs[inputs.len() - 1], c.min_useful_tokens));
        assert forall|j: int| 0 <= j < inputs.len() implies #[trigger] c.output_at(inputs, j)
            == idle() by {
            if j < head.len() {
                assert(head.take(j) =~= inputs.take(j));
                assert(c.output_at(head, j) == idle());
            } else {
                assert(inputs.take(j) =~= head);
            }
        }
    }
}

/// Once a race has committed, the committed provider never changes.
pub proof fn lemma_race_commitment_is_final(
    c: RaceState,
    inputs: Seq<CoordinatorInput>,
    n: int,
)
    requires
        0 <= n <= inputs.len(),
        c.run(inputs.take(n)).winner is Some,
    ensures
        c.run(inputs).winner == c.run(inputs.take(n)).winner,
    decreases inputs.len() - n,
{
    if n == inputs.len() {
        assert(inputs.take(n) =~= inputs);
    } else {
        assert(inputs.take(n + 1).drop_last() =~= inputs.take(n));
        lemma_race_commitment_is_final(c, inputs, n + 1);
    }
}

/// A race that is still searching when a useful token arrives within the
/// budget commits to the provider of that token, and to no other for the
/// rest of the run. The committing step forwards the token's chunk and
/// cancels every driver but that provider's.
pub proof fn lemma_race_commits_once(c: RaceState, inputs: Seq<CoordinatorInput>, i: int)
    requires
        0 <= i < inputs.len(),
        c.run(inputs.take(i)).winner is None,
        !c.run(inputs.take(i + 1)).stopped,
        inputs[i] matches CoordinatorInput::Event(StreamEvent::Token { chunk, .. }) && useful_token(
            chunk@,
            c.min_useful_tokens as nat,
        ),
    ensures
        forall|n: int|
            i < n <= inputs.len() ==> (#[trigger] c.run(inputs.take(n))).winner == Some(
                inputs[i]->Event_0->Token_provider_id,
            ),
        c.run(inputs).winner == Some(inputs[i]->Event_0->Token_provider_id),
        c.output_at(inputs, i).emit == Emit::Chunk(inputs[i]->Event_0->Token_chunk),
        c.output_at(inputs, i).cancel == Cancel::AllBut(inputs[i]->Event_0->Token_provider_id),
        !c.output_at(inputs, i).stop,
{
    lemma_race_run_keeps_limits(c, inputs.take(i));
    assert(inputs.take(i + 1).drop_last() =~= inputs.take(i));
    let p = inputs[i]->Event_0->Token_provider_id;
    assert(c.run(inputs.take(i + 1)).winner == Some(p));
    assert forall|n: int| i < n <= inputs.len() implies (#[trigger] c.run(inputs.take(n))).winner
        == Some(p) by {
        let upto = inputs.take(n);
        assert(upto.take(i + 1) =~= inputs.take(i + 1));
        lemma_race_commitment_is_final(c, upto, i + 1);
    }
    assert(inputs.take(inputs.len() as int) =~= inputs);
}

/// The committing step leaves the winner's driver the only active one:
/// the estimates hold the winner's alone, and their sum is the winner's.
pub proof fn lemma_race_commit_leaves_winner_active(
    c: RaceState,
    inputs: Seq<CoordinatorInput>,
    i: int,
)
    requires
        0 <= i < inputs.len(),
        c.run(inputs.take(i)).winner is None,
        !c.run(inputs.take(i + 1)).stopped,
        inputs[i] matches CoordinatorInput::Event(StreamEvent::Token { chunk, .. }) && useful_token(
            chunk@,
            c.min_useful_tokens as nat,
        ),
    ensures
        forall|q: Seq<char>| #[trigger]
            c.run(inputs.take(i + 1)).estimates.contains_key(q) <==> q
                == inputs[i]->Event_0->Token_provider_id@,
        c.run(inputs.take(i + 1)).running == estimate_of(
            c.run(inputs.take(i + 1)).estimates,
            inputs[i]->Event_0->Token_provider_id@,
        ),
{
    lemma_race_run_keeps_limits(c, inputs.take(i));
    assert(inputs.take(i + 1).drop_last() =~= inputs.take(i));
}

/// After the commitment a race cancels no single driver: the drivers that
/// the committing step cancelled stay the only ones, until a step ends the
/// run and cancels all.
pub proof fn lemma_race_winner_is_not_cancelled(
    c: RaceState,
    inputs: Seq<CoordinatorInput>,
    j: int,
)
    requires
        0 <= j < inputs.len(),
        c.run(inputs.take(j)).winner is Some,
    ensures
        c.output_at(inputs, j).cancel is Nothing || (c.output_at(inputs, j).cancel is All
            && c.output_at(inputs, j).stop),
{
}

/// Every chunk that a race forwards is the chunk of a token of the provider
/// that the race is committed to when the run ends.
pub proof fn lemma_race_forwards_winner_only(
    c: RaceState,
    inputs: Seq<CoordinatorInput>,
    i: int,
)
    requires
        0 <= i < inputs.len(),
        c.output_at(inputs, i).emit is Chunk,
    ensures
        inputs[i] matches CoordinatorInput::Event(StreamEvent::Token { provider_id, chunk, .. })
            && chunk == c.output_at(inputs, i).emit->Chunk_0 && holds(
            c.run(inputs).winner,
            provider_id,
        ),
{
    assert(inputs.take(i + 1).drop_last() =~= inputs.take(i));
    lemma_race_commitment_is_final(c, inputs, i + 1);
}

/// A race that is committed forwards every chunk of the committed provider
/// as it comes, while the run is on: none is skipped, joined or reordered.
pub proof fn lemma_race_forwards_every_winner_chunk(
    c: RaceState,
    inputs: Seq<CoordinatorInput>,
    i: int,
)
    requires
        0 <= i < inputs.len(),
        !c.run(inputs.take(i + 1)).stopped,
        inputs[i] matches CoordinatorInput::Event(StreamEvent::Token { provider_id, .. }) && holds(
            c.run(inputs.take(i)).winner,
            provider_id,
        ),
    ensures
        c.output_at(inputs, i).emit == Emit::Chunk(inputs[i]->Event_0->Token_chunk),
        c.emitted(inputs.take(i + 1)) == c.emitted(inputs.take(i)).push(
            Ok(inputs[i]->Event_0->Token_chunk),
        ),
{
    assert(inputs.take(i + 1).drop_last() =~= inputs.take(i));
}

/// Where the drivers put out whitespace alone until the deadline, and the
/// budget holds, the race commits to no provider, cancels every driver at
/// the deadline, and its output is the one failure `Timeout`.
pub proof fn lemma_race_blank_until_deadline(c: RaceState, inputs: Seq<CoordinatorInput>)
    requires
        c.winner is None,
        inputs.len() > 0,
        inputs.last() is Deadline,
        forall|j: int| 0 <= j < inputs.len() - 1 ==> blank_chunk(#[trigger] inputs[j]),
        !c.run(inputs.drop_last()).stopped,
        !c.run(inputs.drop_last()).passes_budget(inputs.last()),
    ensures
        c.run(inputs).winner is None,
        c.run(inputs).stopped,
        c.emitted(inputs) == seq![Err::<String, OmenError>(OmenError::Timeout)],
        c.output_at(inputs, inputs.len() - 1).cancel is All,
{
    let head = inputs.drop_last();
    assert forall|j: int| 0 <= j < head.len() implies keeps_searching(
        #[trigger] head[j],
        c.min_useful_tokens,
    ) by {
        assert(head[j] == inputs[j]);
        lemma_blank_chunk_not_useful(inputs[j], c.min_useful_tokens);
    }
    lemma_race_keeps_searching(c, head);
    lemma_race_run_keeps_limits(c, head);
    assert(inputs.take(inputs.len() - 1) =~= head);
    assert(c.emitted(inputs) =~= seq![Err::<String, OmenError>(OmenError::Timeout)]);
}

/// The coordinator of a speculative run. The first token makes its provider
/// the current one; a later chunk of another provider may take the output
/// over once, if it calls for an upgrade.
pub struct SpeculativeCoordinator {
    /// The provider whose chunks are forwarded.
    pub current: Option<String>,
    /// No upgrade has happened yet.
    pub can_upgrade: bool,
    pub stopped: bool,
    /// What the drivers that ended have cost, in micro-dollars.
    pub spent: u64,
    /// What the active drivers are estimated to have cost in all.
    pub running: u64,
    /// What each active driver is estimated to have cost.
    pub estimates: TextMap<u64>,
    /// The provider that the upgrade took the output from, whose driver
    /// was cancelled.
    pub dropped: Option<String>,
    pub budget_cap: u64,
}

/// A speculative run as a mathematical value.
pub struct SpeculativeState {
    pub current: Option<String>,
    pub can_upgrade: bool,
    pub stopped: bool,
    pub spent: u64,
    pub running: u64,
    pub estimates: Map<Seq<char>, u64>,
    pub dropped: Option<String>,
    pub budget_cap: u64,
}

impl View for SpeculativeCoordinator {
    type V = SpeculativeState;

    open spec fn view(&self) -> SpeculativeState {
        SpeculativeState {
            current: self.current,
            can_upgrade: self.can_upgrade,
            stopped: self.stopped,
            spent: self.spent,
            running: self.running,
            estimates: self.estimates@,
            dropped: self.dropped,
            budget_cap: self.budget_cap,
        }
    }
}

impl SpeculativeState {
    /// Whether this token takes the output over from the current provider.
    pub open spec fn upgrades_on(self, provider_id: String, chunk: String) -> bool {
        self.current is Some && self.can_upgrade && !holds(self.current, provider_id)
            && upgrade_worthy(chunk@)
    }

    /// Whether an input bears on the estimates: every driver is active
    /// but the one that the upgrade cancelled.
    pub open spec fn counts(self, input: CoordinatorInput) -> bool {
        match input {
            CoordinatorInput::Event(StreamEvent::Token { provider_id, .. }) => !holds(
                self.dropped,
                provider_id,
            ),
            _ => true,
        }
    }

    /// The run with the costs of an input counted.
    pub open spec fn counted(self, input: CoordinatorInput) -> SpeculativeState {
        if self.counts(input) {
            SpeculativeState {
                spent: spent_after(self.spent, input),
                running: running_after(self.running, self.estimates, input),
                estimates: estimates_after(self.estimates, input),
                ..self
            }
        } else {
            self
        }
    }

    /// Whether an input brings the sum of what was spent and the estimates
    /// of the active drivers past the budget.
    pub open spec fn passes_budget(self, input: CoordinatorInput) -> bool {
        self.counted(input).spent + self.counted(input).running > self.budget_cap
    }

    /// The state after one input. Every input is counted first, and the run
    /// ends where the budget is passed. Else the first token makes its
    /// provider the current one, a token that upgrades makes its provider
    /// the current one for good and the driver of the old one active no
    /// more, and the run ends with the current provider's end or failure,
    /// the deadline, or the end of all drivers.
    pub open spec fn after(self, input: CoordinatorInput) -> SpeculativeState {
        let c = self.counted(input);
        if self.stopped {
            self
        } else if self.passes_budget(input) {
            SpeculativeState { stopped: true, ..c }
        } else {
            match input {
                CoordinatorInput::Event(StreamEvent::Token { provider_id, chunk, latency_ms }) => {
                    if self.current is None {
                        SpeculativeState { current: Some(provider_id), ..c }
                    } else if self.upgrades_on(provider_id, chunk) {
                        SpeculativeState {
                            current: Some(provider_id),
                            can_upgrade: false,
                            dropped: self.current,
                            running: less(
                                c.running,
                                estimate_of(c.estimates, self.current->Some_0@),
                            ),
                            estimates: c.estimates.remove(self.current->Some_0@),
                            ..c
                        }
                    } else {
                        c
                    }
                },
                CoordinatorInput::Event(StreamEvent::Done { provider_id, total_tokens, cost_usd }) => {
                    if holds(self.current, provider_id) {
                        SpeculativeState { stopped: true, ..c }
                    } else {
                        c
                    }
                },
                CoordinatorInput::Event(StreamEvent::Error { provider_id, error }) => {
                    if holds(self.current, provider_id) {
                        SpeculativeState { stopped: true, ..c }
                    } else {
                        c
                    }
                },
                CoordinatorInput::Event(StreamEvent::Upgrade { .. }) => c,
                CoordinatorInput::Closed => SpeculativeState { stopped: true, ..c },
                CoordinatorInput::Abandoned => SpeculativeState { stopped: true, ..c },
                CoordinatorInput::Deadline => SpeculativeState { stopped: true, ..c },
            }
        }
    }

    /// What one input asks of the driver loop.
    pub open spec fn output(self, input: CoordinatorInput) -> StepOutput {
        if self.stopped {
            halted()
        } else if self.passes_budget(input) {
            over_budget()
        } else {
            match input {
                CoordinatorInput::Event(StreamEvent::Token { provider_id, chunk, latency_ms }) => {
                    if self.current is None {
                        StepOutput { emit: Emit::Chunk(chunk), ..idle() }
                    } else if self.upgrades_on(provider_id, chunk) {
                        StepOutput {
                            emit: Emit::Chunk(chunk),
                            cancel: Cancel::One(self.current->Some_0),
                            upgraded: true,
                            ..idle()
                        }
                    } else if holds(self.current, provider_id) {
                        StepOutput { emit: Emit::Chunk(chunk), ..idle() }
                    } else {
                        idle()
                    }
                },
                CoordinatorInput::Event(StreamEvent::Done { provider_id, total_tokens, cost_usd }) => {
                    if holds(self.current, provider_id) {
                        StepOutput { cancel: Cancel::All, ..halted() }
                    } else {
                        idle()
                    }
                },
                CoordinatorInput::Event(StreamEvent::Error { provider_id, error }) => {
                    if holds(self.current, provider_id) {
                        StepOutput {
                            emit: Emit::Failure(OmenError::Provider(error)),
                            cancel: Cancel::All,
                            ..halted()
                        }
                    } else {
                        idle()
                    }
                },
                CoordinatorInput::Event(StreamEvent::Upgrade { .. }) => idle(),
                CoordinatorInput::Closed => if self.current is None {
                    StepOutput {
                        emit: Emit::Failure(OmenError::Timeout),
                        cancel: Cancel::All,
                        ..halted()
                    }
                } else {
                    StepOutput { cancel: Cancel::All, ..halted() }
                },
                CoordinatorInput::Abandoned => StepOutput { cancel: Cancel::All, ..halted() },
                CoordinatorInput::Deadline => if self.current is None {
                    StepOutput {
                        emit: Emit::Failure(OmenError::Timeout),
                        cancel: Cancel::All,
                        ..halted()
                    }
                } else {
                    StepOutput { cancel: Cancel::All, ..halted() }
                },
            }
        }
    }

    /// The state after a sequence of inputs.
    pub open spec fn run(self, inputs: Seq<CoordinatorInput>) -> SpeculativeState
        decreases inputs.len(),
    {
        if inputs.len() == 0 {
            self
        } else {
            self.run(inputs.drop_last()).after(inputs.last())
        }
    }

    /// What the coordinator puts out at input `i` of a sequence.
    pub open spec fn output_at(self, inputs: Seq<CoordinatorInput>, i: int) -> StepOutput {
        self.run(inputs.take(i)).output(inputs[i])
    }

    /// The output sequence of a run.
    pub open spec fn emitted(self, inputs: Seq<CoordinatorInput>) -> Seq<Result<String, OmenError>>
        decreases inputs.len(),
    {
        if inputs.len() == 0 {
            seq![]
        } else {
            let before = self.emitted(inputs.drop_last());
            match self.run(inputs.drop_last()).output(inputs.last()).emit {
                Emit::Nothing => before,
                Emit::Chunk(c) => before.push(Ok(c)),
                Emit::Failure(e) => before.push(Err(e)),
            }
        }
    }

    /// Which drivers each step of a run cancels.
    pub open spec fn cancelled(self, inputs: Seq<CoordinatorInput>) -> Seq<Cancel> {
        Seq::new(inputs.len(), |i: int| self.output_at(inputs, i).cancel)
    }
}

impl SpeculativeCoordinator {
    /// A coordinator that waits for the first token.
    pub fn new(budget_cap: u64) -> (c: Self)
        ensures
            c@ == (SpeculativeState {
                current: None,
                can_upgrade: true,
                stopped: false,
                spent: 0,
                running: 0,
                estimates: Map::<Seq<char>, u64>::empty(),
                dropped: None,
                budget_cap,
            }),
    {
        SpeculativeCoordinator {
            current: None,
            can_upgrade: true,
            stopped: false,
            spent: 0,
            running: 0,
            estimates: TextMap::new(),
            dropped: None,
            budget_cap,
        }
    }

    fn takes(&self, input: &CoordinatorInput) -> (b: bool)
        ensures
            b == self@.counts(*input),
    {
        match input {
            CoordinatorInput::Event(StreamEvent::Token { provider_id, .. }) => {
                !slot_holds(&self.dropped, provider_id)
            },
            _ => true,
        }
    }

    /// Takes one input.
    pub fn step(&mut self, input: CoordinatorInput) -> (out: StepOutput)
        ensures
            final(self)@ == old(self)@.after(input),
            out == old(self)@.output(input),
    {
        let quiet = StepOutput {
            emit: Emit::Nothing,
            cancel: Cancel::Nothing,
            stop: false,
            upgraded: false,
        };
        if self.stopped {
            return StepOutput { stop: true, ..quiet };
        }
        if self.takes(&input) {
            let (spent, running) = tally(self.spent, self.running, &mut self.estimates, &input);
            self.spent = spent;
            self.running = running;
        }
        if is_over(self.spent, self.running, self.budget_cap) {
            self.stopped = true;
            return StepOutput {
                emit: Emit::Failure(OmenError::BudgetExceeded),
                cancel: Cancel::All,
                stop: true,
                upgraded: false,
            };
        }
        match input {
            CoordinatorInput::Event(StreamEvent::Token { provider_id, chunk, latency_ms }) => {
                if self.current.is_none() {
                    self.current = Some(provider_id);
                    StepOutput { emit: Emit::Chunk(chunk), ..quiet }
                } else if slot_holds(&self.current, &provider_id) {
                    StepOutput { emit: Emit::Chunk(chunk), ..quiet }
                } else if self.can_upgrade && StreamMultiplexer::should_upgrade(chunk.as_str()) {
                    let prior: String = match &self.current {
                        Some(w) => w.clone(),
                        None => String::new(),
                    };
                    let had: u64 = estimate_in(&self.estimates, prior.as_str());
                    self.estimates.remove(prior.as_str());
                    self.running = take_off(self.running, had);
                    self.dropped = Some(prior.clone());
                    self.current = Some(provider_id);
                    self.can_upgrade = false;
                    StepOutput {
                        emit: Emit::Chunk(chunk),
                        cancel: Cancel::One(prior),
                        stop: false,
                        upgraded: true,
                    }
                } else {
                    quiet
                }
            },
            CoordinatorInput::Event(StreamEvent::Done { provider_id, total_tokens, cost_usd }) => {
                if slot_holds(&self.current, &provider_id) {
                    self.stopped = true;
                    StepOutput { cancel: Cancel::All, stop: true, ..quiet }
                } else {
                    quiet
                }
            },
            CoordinatorInput::Event(StreamEvent::Error { provider_id, error }) => {
                if slot_holds(&self.current, &provider_id) {
                    self.stopped = true;
                    StepOutput {
                        emit: Emit::Failure(OmenError::Provider(error)),
                        cancel: Cancel::All,
                        stop: true,
                        upgraded: false,
                    }
                } else {
                    quiet
                }
            },
            CoordinatorInput::Event(StreamEvent::Upgrade { .. }) => quiet,
            CoordinatorInput::Abandoned => {
                self.stopped = true;
                StepOutput { cancel: Cancel::All, stop: true, ..quiet }
            },
            CoordinatorInput::Closed | CoordinatorInput::Deadline => {
                self.stopped = true;
                if self.current.is_none() {
                    StepOutput {
                        emit: Emit::Failure(OmenError::Timeout),
                        cancel: Cancel::All,
                        stop: true,
                        upgraded: false,
                    }
                } else {
                    StepOutput { cancel: Cancel::All, stop: true, ..quiet }
                }
            },
        }
    }
}

/// The ceiling of a speculative run never changes, and a run that has
/// stopped stays as it is.
pub proof fn lemma_speculative_run_keeps_limits(
    c: SpeculativeState,
    inputs: Seq<CoordinatorInput>,
)
    ensures
        c.run(inputs).budget_cap == c.budget_cap,
        c.stopped ==> c.run(inputs) == c,
    decreases inputs.len(),
{
    if inputs.len() > 0 {
        lemma_speculative_run_keeps_limits(c, inputs.drop_last());
    }
}

/// Once an upgrade has happened, none can follow.
pub proof fn lemma_speculative_upgrade_spent(
    c: SpeculativeState,
    inputs: Seq<CoordinatorInput>,
)
    requires
        !c.can_upgrade,
    ensures
        !c.run(inputs).can_upgrade,
    decreases inputs.len(),
{
    if inputs.len() > 0 {
        lemma_speculative_upgrade_spent(c, inputs.drop_last());
    }
}

/// A speculative run upgrades at most once: of two steps, at most one moves
/// the output to another provider.
pub proof fn lemma_speculative_upgrades_once(
    c: SpeculativeState,
    inputs: Seq<CoordinatorInput>,
    i: int,
    j: int,
)
    requires
        0 <= i < j < inputs.len(),
        c.output_at(inputs, i).upgraded,
    ensures
        !c.output_at(inputs, j).upgraded,
{
    assert(inputs.take(i + 1).drop_last() =~= inputs.take(i));
    let mid = c.run(inputs.take(i + 1));
    assert(!mid.can_upgrade);
    lemma_speculative_run_splits(c, inputs.take(j), i + 1);
    assert(inputs.take(j).take(i + 1) =~= inputs.take(i + 1));
    lemma_speculative_upgrade_spent(mid, inputs.take(j).skip(i + 1));
}

/// The step that upgrades forwards the chunk that called for it, cancels
/// the driver of the provider that was current, and no other; the
/// provider of the chunk is current from then on.
pub proof fn lemma_speculative_upgrade_cancels_old(
    c: SpeculativeState,
    inputs: Seq<CoordinatorInput>,
    i: int,
)
    requires
        0 <= i < inputs.len(),
        c.output_at(inputs, i).upgraded,
    ensures
        inputs[i] matches CoordinatorInput::Event(StreamEvent::Token { provider_id, chunk, .. })
            && c.output_at(inputs, i).emit == Emit::Chunk(chunk) && c.run(
            inputs.take(i + 1),
        ).current == Some(provider_id) && !holds(c.run(inputs.take(i)).current, provider_id),
        c.run(inputs.take(i)).current is Some,
        c.output_at(inputs, i).cancel == Cancel::One(c.run(inputs.take(i)).current->Some_0),
        !c.output_at(inputs, i).stop,
{
    assert(inputs.take(i + 1).drop_last() =~= inputs.take(i));
}

/// The step that upgrades leaves the driver of the old provider active no
/// more: its estimate goes, and no later chunk of it is counted.
pub proof fn lemma_speculative_upgrade_drops_old(
    c: SpeculativeState,
    inputs: Seq<CoordinatorInput>,
    i: int,
)
    requires
        0 <= i < inputs.len(),
        c.output_at(inputs, i).upgraded,
    ensures
        c.run(inputs.take(i)).current is Some,
        c.run(inputs.take(i + 1)).dropped == c.run(inputs.take(i)).current,
        !c.run(inputs.take(i + 1)).estimates.contains_key(c.run(inputs.take(i)).current->Some_0@),
        forall|chunk: String, latency_ms: u64|
            !(#[trigger] c.run(inputs.take(i + 1)).counts(
                CoordinatorInput::Event(
                    StreamEvent::Token {
                        provider_id: c.run(inputs.take(i)).current->Some_0,
                        chunk,
                        latency_ms,
                    },
                ),
            )),
{
    assert(inputs.take(i + 1).drop_last() =~= inputs.take(i));
}

/// A run is the run over a prefix, followed by the run over the rest.
pub proof fn lemma_speculative_run_splits(
    c: SpeculativeState,
    inputs: Seq<CoordinatorInput>,
    n: int,
)
    requires
        0 <= n <= inputs.len(),
    ensures
        c.run(inputs) == c.run(inputs.take(n)).run(inputs.skip(n)),
    decreases inputs.len(),
{
    if n == inputs.len() {
        assert(inputs.take(n) =~= inputs);
    } else {
        let head = inputs.drop_last();
        lemma_speculative_run_splits(c, head, n);
        assert(head.take(n) =~= inputs.take(n));
        assert(inputs.skip(n).drop_last() =~= head.skip(n));
    }
}

/// Where an input brings the sum of the costs of the drivers that ended
/// and the running estimate of the others past the budget, the speculative
/// run ends at that input, whatever it follows: every driver is cancelled,
/// the output ends with `BudgetExceeded`, and no chunk that comes later is
/// forwarded.
pub proof fn lemma_speculative_budget_ends_run(
    c: SpeculativeState,
    inputs: Seq<CoordinatorInput>,
    i: int,
)
    requires
        0 <= i < inputs.len(),
        !c.run(inputs.take(i)).stopped,
        c.run(inputs.take(i)).passes_budget(inputs[i]),
    ensures
        c.output_at(inputs, i) == over_budget(),
        c.run(inputs.take(i + 1)).stopped,
        forall|j: int| i < j < inputs.len() ==> #[trigger] c.output_at(inputs, j) == halted(),
{
    lemma_speculative_run_keeps_limits(c, inputs.take(i));
    assert(inputs.take(i + 1).drop_last() =~= inputs.take(i));
    let at = c.run(inputs.take(i + 1));
    assert forall|j: int| i < j < inputs.len() implies #[trigger] c.output_at(inputs, j)
        == halted() by {
        lemma_speculative_run_splits(c, inputs.take(j), i + 1);
        assert(inputs.take(j).take(i + 1) =~= inputs.take(i + 1));
        lemma_speculative_run_keeps_limits(at, inputs.take(j).skip(i + 1));
    }
}

/// The first token that reaches a waiting speculative run within the
/// budget makes its provider the current one, and from then on there is
/// always exactly one current provider.
pub proof fn lemma_speculative_follows_first_token(
    c: SpeculativeState,
    inputs: Seq<CoordinatorInput>,
    i: int,
)
    requires
        0 <= i < inputs.len(),
        c.run(inputs.take(i)).current is None,
        !c.run(inputs.take(i + 1)).stopped,
        inputs[i] is Event,
        inputs[i]->Event_0 is Token,
    ensures
        c.run(inputs.take(i + 1)).current == Some(inputs[i]->Event_0->Token_provider_id),
        forall|n: int| i < n <= inputs.len() ==> (#[trigger] c.run(inputs.take(n))).current is Some,
{
    lemma_speculative_run_keeps_limits(c, inputs.take(i));
    assert(inputs.take(i + 1).drop_last() =~= inputs.take(i));
    assert forall|n: int| i < n <= inputs.len() implies (#[trigger] c.run(
        inputs.take(n),
    )).current is Some by {
        lemma_speculative_run_splits(c, inputs.take(n), i + 1);
        assert(inputs.take(n).take(i + 1) =~= inputs.take(i + 1));
        lemma_speculative_stays_committed(c.run(inputs.take(i + 1)), inputs.take(n).skip(i + 1));
    }
}

/// A speculative run that follows a provider never returns to following none.
pub proof fn lemma_speculative_stays_committed(
    c: SpeculativeState,
    inputs: Seq<CoordinatorInput>,
)
    requires
        c.current is Some,
    ensures
        c.run(inputs).current is Some,
    decreases inputs.len(),
{
    if inputs.len() > 0 {
        lemma_speculative_stays_committed(c, inputs.drop_last());
    }
}

/// Every chunk that a speculative run forwards is the chunk of a token of
/// the provider that is current once the step is done.
pub proof fn lemma_speculative_forwards_current_only(
    c: SpeculativeState,
    inputs: Seq<CoordinatorInput>,
    i: int,
)
    requires
        0 <= i < inputs.len(),
        c.output_at(inputs, i).emit is Chunk,
    ensures
        inputs[i] matches CoordinatorInput::Event(StreamEvent::Token { provider_id, chunk, .. })
            && chunk == c.output_at(inputs, i).emit->Chunk_0 && holds(
            c.run(inputs.take(i + 1)).current,
            provider_id,
        ),
{
    assert(inputs.take(i + 1).drop_last() =~= inputs.take(i));
}

/// What a replayed run came to.
#[derive(Debug, Clone)]
pub struct StreamOutcome {
    /// The output sequence.
    pub items: Vec<Result<String, OmenError>>,
    /// Which drivers each input had cancelled, input by input.
    pub cancels: Vec<Cancel>,
    /// The provider that the run ended on.
    pub committed: Option<String>,
    /// Whether the output moved to another provider on the way.
    pub upgraded: bool,
    /// What the drivers that ended had cost, in micro-dollars.
    pub spent: u64,
}

impl StreamMultiplexer {
    /// The coordinator of a race under this multiplexer's ceilings.
    pub open spec fn race(self) -> RaceState {
        RaceState {
            winner: None,
            stopped: false,
            spent: 0,
            running: 0,
            estimates: Map::<Seq<char>, u64>::empty(),
            forwarded: 0,
            budget_cap: self.budget_cap,
            min_useful_tokens: self.min_useful_tokens,
        }
    }

    /// Runs a race over the inputs in the order in which they arrived. The
    /// outcome holds what was forwarded, which drivers each input had
    /// cancelled, and the provider that the race committed to.
    pub fn race_providers(&self, inputs: Vec<CoordinatorInput>) -> (out: StreamOutcome)
        ensures
            out.items@ == self.race().emitted(inputs@),
            out.cancels@ == self.race().cancelled(inputs@),
            out.committed == self.race().run(inputs@).winner,
            out.spent == self.race().run(inputs@).spent,
            !out.upgraded,
    {
        let mut c = RaceCoordinator::new(self.budget_cap, self.min_useful_tokens);
        let ghost start = c@;
        let ghost all = inputs@;
        let mut items: Vec<Result<String, OmenError>> = Vec::new();
        let mut cancels: Vec<Cancel> = Vec::new();
        for input in it: inputs
            invariant
                it.seq() == all,
                c@ == start.run(all.take(it.index() as int)),
                items@ == start.emitted(all.take(it.index() as int)),
                cancels@.len() == it.index(),
                forall|j: int|
                    0 <= j < it.index() ==> #[trigger] cancels@[j] == start.output_at(all, j).cancel,
        {
            proof {
                assert(all.take(it.index() + 1).drop_last() =~= all.take(it.index() as int));
            }
            let out = c.step(input);
            cancels.push(out.cancel);
            match out.emit {
                Emit::Nothing => {},
                Emit::Chunk(chunk) => {
                    items.push(Ok(chunk));
                },
                Emit::Failure(e) => {
                    items.push(Err(e));
                },
            }
        }
        proof {
            assert(all.take(all.len() as int) =~= all);
            assert(cancels@ =~= start.cancelled(all));
        }
        StreamOutcome { items, cancels, committed: c.winner, upgraded: false, spent: c.spent }
    }

    /// The coordinator of a speculative run under this multiplexer's ceilings.
    pub open spec fn speculation(self) -> SpeculativeState {
        SpeculativeState {
            current: None,
            can_upgrade: true,
            stopped: false,
            spent: 0,
            running: 0,
            estimates: Map::<Seq<char>, u64>::empty(),
            dropped: None,
            budget_cap: self.budget_cap,
        }
    }

    /// Runs a speculative coordinator over the inputs in the order in which
    /// they arrived: those of the local driver from the start, those of the
    /// delayed drivers from the moment they were started. The outcome holds
    /// what was forwarded, which drivers each input had cancelled, the
    /// provider that the run ended on, and whether it upgraded.
    pub fn speculate_with_delay(&self, inputs: Vec<CoordinatorInput>) -> (out: StreamOutcome)
        ensures
            out.items@ == self.speculation().emitted(inputs@),
            out.cancels@ == self.speculation().cancelled(inputs@),
            out.committed == self.speculation().run(inputs@).current,
            out.spent == self.speculation().run(inputs@).spent,
            out.upgraded == !self.speculation().run(inputs@).can_upgrade,
    {
        let mut c = SpeculativeCoordinator::new(self.budget_cap);
        let ghost start = c@;
        let ghost all = inputs@;
        let mut items: Vec<Result<String, OmenError>> = Vec::new();
        let mut cancels: Vec<Cancel> = Vec::new();
        for input in it: inputs
            invariant
                it.seq() == all,
                c@ == start.run(all.take(it.index() as int)),
                items@ == start.emitted(all.take(it.index() as int)),
                cancels@.len() == it.index(),
                forall|j: int|
                    0 <= j < it.index() ==> #[trigger] cancels@[j] == start.output_at(all, j).cancel,
        {
            proof {
                assert(all.take(it.index() + 1).drop_last() =~= all.take(it.index() as int));
            }
            let out = c.step(input);
            cancels.push(out.cancel);
            match out.emit {
                Emit::Nothing => {},
                Emit::Chunk(chunk) => {
                    items.push(Ok(chunk));
                },
                Emit::Failure(e) => {
                    items.push(Err(e));
                },
            }
        }
        proof {
            assert(all.take(all.len() as int) =~= all);
            assert(cancels@ =~= start.cancelled(all));
        }
        StreamOutcome {
            items,
            cancels,
            committed: c.current,
            upgraded: !c.can_upgrade,
            spent: c.spent,
        }
    }
}

} // verus!
