use omen::coordinator::{
    Cancel, CoordinatorInput, Emit, RaceCoordinator, SpeculativeCoordinator, StreamOutcome,
};
use omen::error::OmenError;
use omen::multiplexer::{
    Coordination, DriverItem, MultiplexStrategy, StreamDriver, StreamEvent, StreamMultiplexer,
};
use omen::types::OmenConfig;

fn directive(strategy: Option<&str>, k: Option<u32>) -> OmenConfig {
    OmenConfig {
        strategy: strategy.map(|s| s.to_string()),
        k,
        providers: None,
        budget_usd: None,
        max_latency_ms: None,
        stickiness: None,
        priority_weights: None,
        min_useful_tokens: None,
    }
}

fn token(provider: &str, chunk: &str, latency_ms: u64) -> CoordinatorInput {
    CoordinatorInput::Event(StreamEvent::Token {
        provider_id: provider.to_string(),
        chunk: chunk.to_string(),
        latency_ms,
    })
}

fn done(provider: &str, cost_usd: u64) -> CoordinatorInput {
    CoordinatorInput::Event(StreamEvent::Done {
        provider_id: provider.to_string(),
        total_tokens: 1,
        cost_usd,
    })
}

fn failed(provider: &str, error: &str) -> CoordinatorInput {
    CoordinatorInput::Event(StreamEvent::Error {
        provider_id: provider.to_string(),
        error: error.to_string(),
    })
}

fn multiplexer(ids: &[&str], min_useful_tokens: u32) -> StreamMultiplexer {
    let mut d = directive(None, None);
    d.min_useful_tokens = Some(min_useful_tokens);
    StreamMultiplexer::new(ids.iter().map(|s| s.to_string()).collect(), &d)
}

fn chunks(outcome: &StreamOutcome) -> Vec<String> {
    outcome.items.iter().filter_map(|i| i.as_ref().ok().cloned()).collect()
}

#[test]
fn strategy_is_read_from_the_directive() {
    assert_eq!(MultiplexStrategy::default(), MultiplexStrategy::Race { k: 2 });
    assert_eq!(MultiplexStrategy::from(&directive(Some("single"), None)), MultiplexStrategy::Single);
    assert_eq!(
        MultiplexStrategy::from(&directive(Some("race"), Some(3))),
        MultiplexStrategy::Race { k: 3 }
    );
    assert_eq!(
        MultiplexStrategy::from(&directive(Some("race"), None)),
        MultiplexStrategy::Race { k: 2 }
    );
    assert_eq!(
        MultiplexStrategy::from(&directive(Some("speculate_k"), Some(4))),
        MultiplexStrategy::SpeculateK { k: 4, delay_ms: 150 }
    );
    assert_eq!(
        MultiplexStrategy::from(&directive(Some("parallel_merge"), Some(5))),
        MultiplexStrategy::ParallelMerge { k: 5 }
    );
    assert_eq!(
        MultiplexStrategy::from(&directive(Some("something"), Some(5))),
        MultiplexStrategy::Race { k: 2 }
    );
    assert_eq!(MultiplexStrategy::from_config(&directive(None, Some(7))), MultiplexStrategy::Race { k: 2 });
}

#[test]
fn multiplexer_takes_its_ceilings_from_the_directive() {
    let m = StreamMultiplexer::new(vec!["a".to_string()], &directive(None, None));
    assert_eq!(m.budget_cap, 100_000);
    assert_eq!(m.max_latency, 3000);
    assert_eq!(m.min_useful_tokens, 5);
    let mut d = directive(None, None);
    d.budget_usd = Some(250_000);
    d.max_latency_ms = Some(500);
    d.min_useful_tokens = Some(2);
    let m = StreamMultiplexer::new(vec![], &d);
    assert_eq!((m.budget_cap, m.max_latency, m.min_useful_tokens), (250_000, 500, 2));
}

#[test]
fn useful_token_predicate() {
    assert!(!StreamMultiplexer::is_useful_token(" ", 5));
    assert!(!StreamMultiplexer::is_useful_token("", 0));
    assert!(!StreamMultiplexer::is_useful_token(" \n\t ", 0));
    assert!(!StreamMultiplexer::is_useful_token("42", 5));
    assert!(StreamMultiplexer::is_useful_token("42", 2));
    assert!(StreamMultiplexer::is_useful_token("hello", 5));
    assert!(StreamMultiplexer::is_useful_token("  hello  ", 5));
    assert!(!StreamMultiplexer::is_useful_token("  hell  ", 5));
    // a newline inside the trimmed text counts, one at its end does not
    assert!(StreamMultiplexer::is_useful_token("a\nb", 5));
    assert!(!StreamMultiplexer::is_useful_token("ab\n", 5));
    assert!(StreamMultiplexer::is_useful_token("```", 5));
    // the length is counted in bytes
    assert!(StreamMultiplexer::is_useful_token("\u{e9}\u{e9}\u{e9}", 6));
    assert!(!StreamMultiplexer::is_useful_token("\u{e9}\u{e9}\u{e9}", 7));
    // no other whitespace than Unicode's: a zero-width space is content
    assert!(StreamMultiplexer::is_useful_token("\u{200b}", 3));
    assert!(!StreamMultiplexer::is_useful_token("\u{2003}\u{3000}\u{a0}", 0));
}

#[test]
fn upgrade_predicate() {
    assert!(StreamMultiplexer::should_upgrade("```python\nprint(4)\n```"));
    assert!(StreamMultiplexer::should_upgrade("{\"function_call\": {}}"));
    assert!(StreamMultiplexer::should_upgrade("a tool_call here"));
    assert!(!StreamMultiplexer::should_upgrade("the answer "));
    assert!(!StreamMultiplexer::should_upgrade("``"));
}

#[test]
fn single_strategy_drives_the_first_candidate() {
    let m = multiplexer(&["openai", "anthropic"], 5);
    let plan = m.multiplex_stream(MultiplexStrategy::Single).unwrap();
    assert_eq!(plan.immediate, vec!["openai".to_string()]);
    assert!(plan.delayed.is_empty());
    assert_eq!(plan.coordination, Coordination::Direct);
}

#[test]
fn zero_candidates_is_provider_unavailable() {
    let m = multiplexer(&[], 5);
    for strategy in [
        MultiplexStrategy::Single,
        MultiplexStrategy::Race { k: 2 },
        MultiplexStrategy::SpeculateK { k: 2, delay_ms: 150 },
        MultiplexStrategy::ParallelMerge { k: 2 },
    ] {
        assert!(matches!(m.multiplex_stream(strategy), Err(OmenError::ProviderUnavailable(_))));
    }
    let m = multiplexer(&["openai"], 5);
    assert!(matches!(m.run_race(0), Err(OmenError::ProviderUnavailable(_))));
}

#[test]
fn race_drives_the_first_k() {
    let m = multiplexer(&["a", "b", "c"], 5);
    let plan = m.run_race(2).unwrap();
    assert_eq!(plan.immediate, vec!["a".to_string(), "b".to_string()]);
    assert_eq!(plan.coordination, Coordination::Race);
    assert_eq!(plan.delay_ms, 0);
    let plan = m.run_race(9).unwrap();
    assert_eq!(plan.immediate.len(), 3);
    let plan = m.run_parallel_merge(1).unwrap();
    assert_eq!(plan.immediate, vec!["a".to_string()]);
    assert_eq!(plan.coordination, Coordination::Race);
}

#[test]
fn speculation_starts_local_first() {
    let m = multiplexer(&["openai", "ollama", "anthropic", "google"], 5);
    let plan = m.run_speculate_k(3, 150).unwrap();
    assert_eq!(plan.immediate, vec!["ollama".to_string()]);
    assert_eq!(plan.delayed, vec!["openai".to_string(), "anthropic".to_string()]);
    assert_eq!(plan.delay_ms, 150);
    assert_eq!(plan.coordination, Coordination::Speculative);
    // no cloud candidate for k = 1 or k = 0
    assert!(m.run_speculate_k(1, 150).unwrap().delayed.is_empty());
    assert!(m.run_speculate_k(0, 150).unwrap().delayed.is_empty());
    // without a local candidate it is a race
    let m = multiplexer(&["openai", "anthropic"], 5);
    let plan = m.run_speculate_k(2, 150).unwrap();
    assert_eq!(plan.coordination, Coordination::Race);
    assert_eq!(plan.immediate.len(), 2);
}

#[test]
fn race_elects_the_first_useful_token() {
    // A emits " " at 10 ms, B emits "42" at 40 ms, A emits "hello" at 50 ms
    let m = multiplexer(&["A", "B"], 1);
    let outcome =
        m.race_providers(vec![token("A", " ", 10), token("B", "42", 40), token("A", "hello", 50)]);
    assert_eq!(outcome.committed, Some("B".to_string()));
    assert_eq!(chunks(&outcome), vec!["42".to_string()]);
    assert!(!outcome.upgraded);

    // step by step: the commit cancels every driver but B's
    let mut c = RaceCoordinator::new(100_000, 1);
    let out = c.step(token("A", " ", 10));
    assert!(matches!(out.emit, Emit::Nothing));
    assert!(c.winner.is_none());
    let out = c.step(token("B", "42", 40));
    assert!(matches!(out.emit, Emit::Chunk(ref s) if s == "42"));
    assert!(matches!(out.cancel, Cancel::AllBut(ref p) if p == "B"));
    assert!(!out.stop);
    let out = c.step(token("A", "hello", 50));
    assert!(matches!(out.emit, Emit::Nothing));
    assert!(matches!(out.cancel, Cancel::Nothing));
    assert_eq!(c.winner, Some("B".to_string()));
    assert_eq!(c.forwarded, 1);
}

#[test]
fn race_forwards_the_winner_in_order_until_it_is_done() {
    let m = multiplexer(&["A", "B"], 5);
    let outcome = m.race_providers(vec![
        token("B", "first!", 5),
        token("A", "other!", 6),
        token("B", " ", 7),
        token("B", "third", 8),
        done("A", 10_000),
        done("B", 10_000),
        token("B", "late", 9),
    ]);
    assert_eq!(outcome.committed, Some("B".to_string()));
    assert_eq!(chunks(&outcome), vec!["first!".to_string(), " ".to_string(), "third".to_string()]);
    assert_eq!(outcome.items.len(), 3);
}

#[test]
fn race_winner_failure_ends_the_stream_with_the_error() {
    let m = multiplexer(&["A", "B"], 5);
    let outcome = m.race_providers(vec![
        failed("A", "early"),
        token("B", "hello", 1),
        failed("B", "boom"),
        token("B", "more!", 2),
    ]);
    assert_eq!(outcome.items.len(), 2);
    assert!(matches!(outcome.items[0], Ok(ref s) if s == "hello"));
    assert!(matches!(outcome.items[1], Err(OmenError::Provider(ref m)) if m == "boom"));
}

#[test]
fn race_of_whitespace_times_out() {
    let m = multiplexer(&["A", "B"], 5);
    let outcome = m.race_providers(vec![
        token("A", " ", 10),
        token("B", "\n", 20),
        token("A", "\t \t", 400),
        CoordinatorInput::Deadline,
        token("A", "hello", 600),
    ]);
    assert_eq!(outcome.committed, None);
    assert_eq!(outcome.items.len(), 1);
    assert!(matches!(outcome.items[0], Err(OmenError::Timeout)));

    let mut c = RaceCoordinator::new(100_000, 5);
    c.step(token("A", " ", 10));
    let out = c.step(CoordinatorInput::Deadline);
    assert!(matches!(out.emit, Emit::Failure(OmenError::Timeout)));
    assert!(matches!(out.cancel, Cancel::All));
    assert!(out.stop && c.stopped);
}

#[test]
fn race_deadline_after_commit_ends_without_error() {
    let m = multiplexer(&["A"], 5);
    let outcome = m.race_providers(vec![token("A", "hello", 10), CoordinatorInput::Deadline]);
    assert_eq!(outcome.committed, Some("A".to_string()));
    assert_eq!(outcome.items.len(), 1);
}

#[test]
fn race_over_budget_before_commit_is_refused() {
    let mut d = directive(None, None);
    d.budget_usd = Some(15_000);
    let m = StreamMultiplexer::new(vec!["A".to_string(), "B".to_string()], &d);
    let outcome =
        m.race_providers(vec![done("A", 10_000), done("B", 10_000), token("A", "hello", 1)]);
    assert_eq!(outcome.committed, None);
    assert_eq!(outcome.items.len(), 1);
    assert!(matches!(outcome.items[0], Err(OmenError::BudgetExceeded)));
    // exactly the budget is not over it
    let mut c = RaceCoordinator::new(10_000, 5);
    let out = c.step(done("A", 10_000));
    assert!(!out.stop);
    assert_eq!(c.spent, 10_000);
}

#[test]
fn race_without_drivers_times_out() {
    // every driver has gone and none put out a useful token: none can any more
    let m = multiplexer(&["A", "B"], 5);
    let outcome = m.race_providers(vec![
        token("A", " ", 1),
        failed("A", "401"),
        failed("B", "refused"),
        CoordinatorInput::Closed,
        token("A", "hello", 9),
    ]);
    assert_eq!(outcome.items.len(), 1);
    assert!(matches!(outcome.items[0], Err(OmenError::Timeout)));
    assert_eq!(outcome.committed, None);
    assert!(matches!(outcome.cancels[3], Cancel::All));
    // a committed race whose drivers have gone ends without an error
    let outcome = m.race_providers(vec![token("A", "hello", 1), CoordinatorInput::Closed]);
    assert_eq!(outcome.items.len(), 1);
    assert!(matches!(outcome.items[0], Ok(ref s) if s == "hello"));
    assert!(matches!(outcome.cancels[1], Cancel::All));
    // a speculative run that no driver ever spoke in
    let outcome = m.speculate_with_delay(vec![failed("A", "x"), CoordinatorInput::Closed]);
    assert!(matches!(outcome.items[..], [Err(OmenError::Timeout)]));
}

#[test]
fn a_caller_that_leaves_ends_the_run_quietly() {
    let m = multiplexer(&["A", "B"], 5);
    let outcome = m.race_providers(vec![token("A", " ", 1), CoordinatorInput::Abandoned, token("A", "hello", 2)]);
    assert!(outcome.items.is_empty());
    assert_eq!(outcome.committed, None);
    assert!(matches!(outcome.cancels[1], Cancel::All));
    assert!(matches!(outcome.cancels[2], Cancel::Nothing));
    let mut c = SpeculativeCoordinator::new(100);
    c.step(token("A", "x", 1));
    let out = c.step(CoordinatorInput::Abandoned);
    assert!(matches!(out.emit, Emit::Nothing));
    assert!(matches!(out.cancel, Cancel::All));
    assert!(out.stop && c.stopped);
}

#[test]
fn speculative_upgrade_fires_once() {
    // L emits "the answer " at 30 ms; C emits a code block at 400 ms
    let m = multiplexer(&["ollama", "cloud"], 5);
    let outcome = m.speculate_with_delay(vec![
        token("ollama", "the answer ", 30),
        token("cloud", "```python\nprint(4)\n```", 400),
        token("ollama", "is 4", 410),
        token("cloud", " done", 420),
        token("third", "```again```", 430),
        done("cloud", 10_000),
    ]);
    assert_eq!(
        chunks(&outcome),
        vec!["the answer ".to_string(), "```python\nprint(4)\n```".to_string(), " done".to_string()]
    );
    assert_eq!(outcome.committed, Some("cloud".to_string()));
    assert!(outcome.upgraded);

    let mut c = SpeculativeCoordinator::new(100_000);
    let out = c.step(token("ollama", "the answer ", 30));
    assert!(!out.upgraded);
    let out = c.step(token("cloud", "plain text", 300));
    assert!(matches!(out.emit, Emit::Nothing));
    let out = c.step(token("cloud", "```python\nprint(4)\n```", 400));
    assert!(out.upgraded);
    assert!(matches!(out.cancel, Cancel::One(ref p) if p == "ollama"));
    assert!(!c.can_upgrade);
    let out = c.step(token("third", "```", 500));
    assert!(!out.upgraded);
    assert!(matches!(out.emit, Emit::Nothing));
    assert_eq!(c.current, Some("cloud".to_string()));
}

#[test]
fn speculative_run_without_upgrade() {
    let m = multiplexer(&["ollama", "cloud"], 5);
    let outcome = m.speculate_with_delay(vec![
        token("ollama", " ", 30),
        token("cloud", "no fence", 200),
        token("ollama", "b", 210),
        failed("cloud", "gone"),
        failed("ollama", "broke"),
    ]);
    assert_eq!(outcome.committed, Some("ollama".to_string()));
    assert!(!outcome.upgraded);
    assert_eq!(outcome.items.len(), 3);
    assert!(matches!(outcome.items[2], Err(OmenError::Provider(ref m)) if m == "broke"));
}

#[test]
fn speculative_deadline_without_token_times_out() {
    let m = multiplexer(&["ollama"], 5);
    let outcome = m.speculate_with_delay(vec![CoordinatorInput::Deadline]);
    assert!(matches!(outcome.items[0], Err(OmenError::Timeout)));
    assert_eq!(outcome.committed, None);
}

#[test]
fn driver_reports_tokens_then_done() {
    let mut d = StreamDriver::new("openai".to_string());
    let e = d.stream_provider_with_events(DriverItem::Chunk("a".to_string()), 12);
    assert!(matches!(
        e,
        Some(StreamEvent::Token { ref provider_id, ref chunk, latency_ms: 12 })
            if provider_id == "openai" && chunk == "a"
    ));
    d.stream_provider_with_events(DriverItem::Chunk("b".to_string()), 20);
    let e = d.stream_provider_with_events(DriverItem::End, 30);
    assert!(matches!(
        e,
        Some(StreamEvent::Done { ref provider_id, total_tokens: 2, cost_usd: 10_000 })
            if provider_id == "openai"
    ));
    assert!(d.finished);
    assert!(d.stream_provider_with_events(DriverItem::Chunk("c".to_string()), 40).is_none());
}

#[test]
fn driver_reports_failure_and_stops_on_cancel() {
    let mut d = StreamDriver::new("x".to_string());
    let e = d.stream_provider_with_events(DriverItem::Failed("no route".to_string()), 1);
    assert!(matches!(e, Some(StreamEvent::Error { ref error, .. }) if error == "no route"));
    assert!(d.finished);
    let mut d = StreamDriver::new("x".to_string());
    assert!(d.stream_provider_with_events(DriverItem::Cancelled, 1).is_none());
    assert!(d.finished);
    assert!(d.stream_provider_with_events(DriverItem::End, 2).is_none());
}

fn tokens_done(provider: &str, total_tokens: u32, cost_usd: u64) -> CoordinatorInput {
    CoordinatorInput::Event(StreamEvent::Done {
        provider_id: provider.to_string(),
        total_tokens,
        cost_usd,
    })
}

fn capped(ids: &[&str], budget_usd: u64, min_useful_tokens: u32) -> StreamMultiplexer {
    let mut d = directive(None, None);
    d.budget_usd = Some(budget_usd);
    d.min_useful_tokens = Some(min_useful_tokens);
    StreamMultiplexer::new(ids.iter().map(|s| s.to_string()).collect(), &d)
}

#[test]
fn race_over_budget_after_commit_ends_the_run() {
    // B is committed; the end of A then brings the sum past the budget
    let m = capped(&["A", "B"], 15_000, 5);
    let outcome = m.race_providers(vec![
        token("B", "hello", 5),
        done("B2", 10_000),
        token("B", "world", 6),
        done("A", 10_000),
        token("B", "never", 7),
        done("B", 1),
    ]);
    assert_eq!(outcome.committed, Some("B".to_string()));
    assert_eq!(outcome.items.len(), 3);
    assert!(matches!(outcome.items[0], Ok(ref s) if s == "hello"));
    assert!(matches!(outcome.items[1], Ok(ref s) if s == "world"));
    assert!(matches!(outcome.items[2], Err(OmenError::BudgetExceeded)));
    assert_eq!(outcome.spent, 20_000);
    assert!(matches!(outcome.cancels[0], Cancel::AllBut(ref p) if p == "B"));
    assert!(matches!(outcome.cancels[1], Cancel::Nothing));
    assert!(matches!(outcome.cancels[2], Cancel::Nothing));
    assert!(matches!(outcome.cancels[3], Cancel::All));
    assert!(matches!(outcome.cancels[4], Cancel::Nothing));
    assert!(matches!(outcome.cancels[5], Cancel::Nothing));
    assert_eq!(outcome.cancels.len(), 6);

    // the winner's own end can pass the budget too
    let mut c = RaceCoordinator::new(100, 5);
    c.step(token("A", "hello", 1));
    let out = c.step(done("A", 101));
    assert!(matches!(out.emit, Emit::Failure(OmenError::BudgetExceeded)));
    assert!(matches!(out.cancel, Cancel::All));
    assert!(out.stop && c.stopped);
    assert_eq!(c.winner, Some("A".to_string()));
    // and nothing follows
    let out = c.step(token("A", "again", 2));
    assert!(matches!(out.emit, Emit::Nothing));
    assert!(matches!(out.cancel, Cancel::Nothing));
    assert!(out.stop);
    assert_eq!(c.spent, 101);
}

#[test]
fn active_drivers_are_estimated_chunk_by_chunk() {
    // no chunk is useful here, so the race stays searching and every driver active;
    // a chunk of openai is estimated at 30 micro-dollars, one of anthropic at 15
    let mut c = RaceCoordinator::new(100, 50);
    c.step(token("openai", "hello", 1));
    assert_eq!((c.spent, c.running), (0, 30));
    c.step(token("anthropic", " ", 2));
    assert_eq!((c.spent, c.running), (0, 45));
    c.step(token("ollama", "free!", 3));
    assert_eq!((c.spent, c.running), (0, 45));
    c.step(token("google", "x", 4));
    assert_eq!((c.spent, c.running), (0, 46));
    c.step(token("unknown", "x", 5));
    assert_eq!((c.spent, c.running), (0, 66));
    assert_eq!(c.estimates.get("openai"), Some(&30));
    assert_eq!(c.estimates.get("ollama"), Some(&0));
    // a driver that ends takes its estimate out and puts its cost in
    let out = c.step(tokens_done("anthropic", 1, 20));
    assert!(!out.stop);
    assert_eq!((c.spent, c.running), (20, 51));
    assert_eq!(c.estimates.get("anthropic"), None);
    // one that fails takes its estimate out, and one that was never heard of takes nothing
    c.step(failed("google", "gone"));
    assert_eq!((c.spent, c.running), (20, 50));
    c.step(failed("azure", "gone"));
    assert_eq!((c.spent, c.running), (20, 50));
    // exactly the budget is not past it: 20 + 80
    let out = c.step(token("openai", "world", 6));
    assert!(!out.stop);
    assert_eq!((c.spent, c.running), (20, 80));
    // the estimate alone can pass the budget: 20 + 110 > 100
    let out = c.step(token("openai", "again", 7));
    assert!(matches!(out.emit, Emit::Failure(OmenError::BudgetExceeded)));
    assert!(matches!(out.cancel, Cancel::All));
    assert!(out.stop);
    assert_eq!((c.spent, c.running, c.forwarded), (20, 110, 0));
}

#[test]
fn cancelled_drivers_are_estimated_no_more() {
    // the commit cancels every driver but the winner's: its estimate alone stays
    let mut c = RaceCoordinator::new(1_000, 5);
    c.step(token("openai", " ", 1));
    c.step(token("anthropic", "\n", 2));
    assert_eq!(c.running, 45);
    let out = c.step(token("anthropic", "hello", 3));
    assert!(matches!(out.cancel, Cancel::AllBut(ref p) if p == "anthropic"));
    assert_eq!(c.running, 30);
    assert_eq!(c.estimates.len(), 1);
    assert_eq!(c.estimates.get("anthropic"), Some(&30));
    // a chunk of a cancelled driver that was on its way counts for nothing
    c.step(token("openai", "more!", 4));
    assert_eq!(c.running, 30);
    c.step(token("anthropic", "again", 5));
    assert_eq!((c.running, c.forwarded), (45, 2));
    // what a cancelled driver reports at its end is still spent
    let out = c.step(tokens_done("openai", 2, 60));
    assert!(!out.stop);
    assert_eq!((c.spent, c.running), (60, 45));

    // the upgrade cancels the old provider's driver: its estimate goes
    let mut c = SpeculativeCoordinator::new(1_000);
    c.step(token("openai", "a", 1));
    assert_eq!(c.running, 30);
    c.step(tokens_done("azure", 7, 5));
    assert_eq!((c.spent, c.running), (5, 30));
    c.step(token("google", "plain", 2));
    assert_eq!(c.running, 31);
    let out = c.step(token("anthropic", "```rust", 3));
    assert!(out.upgraded);
    assert!(matches!(out.cancel, Cancel::One(ref p) if p == "openai"));
    assert_eq!(c.running, 16);
    assert_eq!(c.dropped, Some("openai".to_string()));
    assert_eq!(c.estimates.get("openai"), None);
    c.step(token("openai", "late", 4));
    assert_eq!(c.running, 16);
    // the others are active still
    c.step(token("google", "more", 5));
    assert_eq!(c.running, 17);
}

#[test]
fn race_through_the_multiplexer_stops_on_the_estimate() {
    let m = capped(&["openai", "anthropic"], 100, 1);
    let outcome = m.race_providers(vec![
        token("openai", "a", 1),
        token("openai", "b", 2),
        token("anthropic", "z", 3),
        token("openai", "c", 4),
        token("openai", "d", 5),
        token("openai", "e", 6),
    ]);
    // the winner's chunks are estimated at 30, 60 and 90; the fourth passes 100
    assert_eq!(chunks(&outcome), vec!["a".to_string(), "b".to_string(), "c".to_string()]);
    assert_eq!(outcome.items.len(), 4);
    assert!(matches!(outcome.items[3], Err(OmenError::BudgetExceeded)));
    assert!(matches!(outcome.cancels[4], Cancel::All));
    assert!(matches!(outcome.cancels[5], Cancel::Nothing));
    assert_eq!(outcome.spent, 0);
    assert_eq!(outcome.committed, Some("openai".to_string()));

    // exactly the budget is not past it
    let mut c = RaceCoordinator::new(60, 5);
    c.step(token("openai", "hello", 1));
    let out = c.step(token("openai", "world", 2));
    assert!(matches!(out.emit, Emit::Chunk(ref s) if s == "world"));
    assert!(!out.stop);
    let out = c.step(token("openai", "!", 3));
    assert!(matches!(out.emit, Emit::Failure(OmenError::BudgetExceeded)));
}

#[test]
fn the_run_reports_each_cancellation() {
    // at the commit every driver but the winner's; at the winner's end all
    let m = multiplexer(&["A", "B"], 1);
    let outcome = m.race_providers(vec![
        token("A", " ", 10),
        token("B", "42", 40),
        token("A", "hello", 50),
        token("B", "43", 60),
        done("B", 7),
    ]);
    assert_eq!(outcome.cancels.len(), 5);
    assert!(matches!(outcome.cancels[0], Cancel::Nothing));
    assert!(matches!(outcome.cancels[1], Cancel::AllBut(ref p) if p == "B"));
    assert!(matches!(outcome.cancels[2], Cancel::Nothing));
    assert!(matches!(outcome.cancels[3], Cancel::Nothing));
    assert!(matches!(outcome.cancels[4], Cancel::All));
    assert_eq!(chunks(&outcome), vec!["42".to_string(), "43".to_string()]);
    assert_eq!(outcome.items.len(), 2);
    assert_eq!(outcome.spent, 7);

    // at the deadline all of them, and nothing after it
    let m = multiplexer(&["A", "B"], 5);
    let outcome = m.race_providers(vec![
        token("A", " ", 10),
        token("B", "\n", 20),
        CoordinatorInput::Deadline,
        token("A", "hello", 600),
    ]);
    assert_eq!(outcome.cancels.len(), 4);
    assert!(matches!(outcome.cancels[0], Cancel::Nothing));
    assert!(matches!(outcome.cancels[1], Cancel::Nothing));
    assert!(matches!(outcome.cancels[2], Cancel::All));
    assert!(matches!(outcome.cancels[3], Cancel::Nothing));
    assert_eq!(outcome.items.len(), 1);

    // at the upgrade the old provider's alone
    let m = multiplexer(&["ollama", "cloud"], 5);
    let outcome = m.speculate_with_delay(vec![
        token("ollama", "the answer ", 30),
        token("cloud", "```python", 400),
        token("ollama", "is 4", 410),
        token("cloud", "print(4)", 420),
        done("cloud", 9),
    ]);
    assert_eq!(outcome.cancels.len(), 5);
    assert!(matches!(outcome.cancels[0], Cancel::Nothing));
    assert!(matches!(outcome.cancels[1], Cancel::One(ref p) if p == "ollama"));
    assert!(matches!(outcome.cancels[2], Cancel::Nothing));
    assert!(matches!(outcome.cancels[3], Cancel::Nothing));
    assert!(matches!(outcome.cancels[4], Cancel::All));
    assert_eq!(
        chunks(&outcome),
        vec!["the answer ".to_string(), "```python".to_string(), "print(4)".to_string()]
    );
    assert_eq!(outcome.spent, 9);
    assert!(outcome.upgraded);
}

#[test]
fn speculative_run_over_budget_ends_in_every_state() {
    // before the first token
    let mut c = SpeculativeCoordinator::new(10);
    let out = c.step(done("cloud", 11));
    assert!(matches!(out.emit, Emit::Failure(OmenError::BudgetExceeded)));
    assert!(matches!(out.cancel, Cancel::All));
    assert!(out.stop);
    // after it
    let m = capped(&["ollama", "cloud"], 10, 5);
    let outcome = m.speculate_with_delay(vec![
        token("ollama", "one", 1),
        done("cloud", 10),
        token("ollama", "two", 2),
        done("other", 1),
        token("ollama", "three", 3),
    ]);
    assert_eq!(chunks(&outcome), vec!["one".to_string(), "two".to_string()]);
    assert!(matches!(outcome.items[2], Err(OmenError::BudgetExceeded)));
    assert_eq!(outcome.items.len(), 3);
    assert!(matches!(outcome.cancels[3], Cancel::All));
    assert_eq!(outcome.spent, 11);
    assert_eq!(outcome.committed, Some("ollama".to_string()));
}
