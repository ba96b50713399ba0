use std::cell::RefCell;
use std::collections::VecDeque;
use trading_engine::decimal::Decimal;
use trading_engine::error::TradingEngineError;
use trading_engine::events::{ErrorSeverity, RunnerEvent};
use trading_engine::runner::{
    LoopStep, RunnerCommand, RunnerConfig, RunnerReply, RunnerStatus, StrategyReply, SymbolRunner,
};
use trading_engine::state_machine::{Action, Context, State};
use trading_engine::strategy::{IndicatorApi, ScriptRecord, ScriptValue, Strategy};
use trading_engine::MarketData;

fn d(x: f64) -> Decimal {
    Decimal::from_units((x * 1e8).round() as i64)
}

fn money(pnl: i128) -> f64 {
    pnl as f64 / 1e16
}

fn create_test_data(close: f64) -> MarketData {
    MarketData {
        symbol: "BTCUSDT".to_string(),
        timestamp: 1234567890,
        open: d(close - 10.0),
        high: d(close + 10.0),
        low: d(close - 20.0),
        close: d(close),
        volume: 1000,
        bid: d(close - 5.0),
        ask: d(close + 5.0),
    }
}

/// A strategy that answers from a script of prepared replies.
struct Scripted {
    opportunities: RefCell<VecDeque<Result<Option<ScriptRecord>, TradingEngineError>>>,
    decisions: RefCell<VecDeque<Result<Option<Action>, TradingEngineError>>>,
    seen_prices: RefCell<Vec<Option<Decimal>>>,
    seen_bars: RefCell<Vec<usize>>,
}

impl Scripted {
    fn new() -> Scripted {
        Scripted {
            opportunities: RefCell::new(VecDeque::new()),
            decisions: RefCell::new(VecDeque::new()),
            seen_prices: RefCell::new(Vec::new()),
            seen_bars: RefCell::new(Vec::new()),
        }
    }

    fn opportunity(self, reply: Result<Option<ScriptRecord>, TradingEngineError>) -> Scripted {
        self.opportunities.borrow_mut().push_back(reply);
        self
    }

    fn decision(self, reply: Result<Option<Action>, TradingEngineError>) -> Scripted {
        self.decisions.borrow_mut().push_back(reply);
        self
    }

    fn note(&self, context: &Context, indicators: &IndicatorApi) {
        self.seen_prices.borrow_mut().push(context.latest_price());
        self.seen_bars.borrow_mut().push(indicators.closes().len());
    }
}

impl Strategy for Scripted {
    fn detect_opportunity(
        &self,
        _market_data: &MarketData,
        context: &Context,
        indicators: &IndicatorApi,
    ) -> Result<Option<ScriptRecord>, TradingEngineError> {
        self.note(context, indicators);
        self.opportunities.borrow_mut().pop_front().unwrap_or(Ok(None))
    }

    fn filter_commitment(
        &self,
        _market_data: &MarketData,
        context: &Context,
        indicators: &IndicatorApi,
    ) -> Result<Option<Action>, TradingEngineError> {
        self.note(context, indicators);
        self.decisions.borrow_mut().pop_front().unwrap_or(Ok(None))
    }

    fn manage_position(
        &self,
        _market_data: &MarketData,
        context: &Context,
        indicators: &IndicatorApi,
    ) -> Result<Option<Action>, TradingEngineError> {
        self.note(context, indicators);
        self.decisions.borrow_mut().pop_front().unwrap_or(Ok(None))
    }
}

fn opportunity(signal: &str, confidence: f64) -> ScriptRecord {
    let mut record = ScriptRecord::new();
    record.insert("signal".to_string(), ScriptValue::Text(signal.to_string()));
    record.insert("confidence".to_string(), ScriptValue::Number(d(confidence)));
    record.insert("noise".to_string(), ScriptValue::Boolean(true));
    record
}

fn runner(strategy: Scripted) -> SymbolRunner<Scripted> {
    SymbolRunner::new("test_runner".to_string(), "BTCUSDT".to_string(), strategy, 50)
}

fn kinds(events: &[RunnerEvent]) -> Vec<&'static str> {
    events
        .iter()
        .map(|event| match event {
            RunnerEvent::RunnerStarted { .. } => "started",
            RunnerEvent::RunnerStopped { .. } => "stopped",
            RunnerEvent::TickReceived { .. } => "tick",
            RunnerEvent::StateTransition { .. } => "transition",
            RunnerEvent::ActionExecuted { .. } => "action",
            RunnerEvent::PositionOpened { .. } => "opened",
            RunnerEvent::PositionUpdated { .. } => "updated",
            RunnerEvent::PositionClosed { .. } => "closed",
            RunnerEvent::Error { .. } => "error",
            RunnerEvent::StatsUpdate { .. } => "stats",
        })
        .collect()
}

#[test]
fn test_runner_creation() {
    let runner = runner(Scripted::new());

    assert_eq!(runner.runner_id(), "test_runner");
    assert_eq!(runner.symbol(), "BTCUSDT");
    assert_eq!(runner.state(), State::Idle);
    assert_eq!(runner.status(), RunnerStatus::Running);
    assert!(runner.position().is_none());
    assert_eq!(runner.stats().ticks_processed, 0);
    assert_eq!(runner.config(), &RunnerConfig::default());
}

#[test]
fn test_runner_receives_data() {
    let mut runner = runner(Scripted::new());
    let mut events = Vec::new();

    runner.process_tick(create_test_data(50000.0), &mut events).unwrap();

    // Check window has data
    assert_eq!(runner.get_price_history(None).len(), 1);
}

#[test]
fn test_runner_events() {
    let mut runner = runner(Scripted::new());
    let mut events = Vec::new();

    runner.process_tick(create_test_data(50000.0), &mut events).unwrap();

    // Should have received TickReceived event
    let event = &events[0];
    assert_eq!(event.runner_id(), "test_runner");
    assert!(matches!(event, RunnerEvent::TickReceived { .. }));
}

#[test]
fn quiet_tick_emits_only_the_tick_and_counts_it() {
    let mut runner = runner(Scripted::new());
    let mut events = Vec::new();
    runner.process_tick(create_test_data(50000.0), &mut events).unwrap();
    assert_eq!(kinds(&events), vec!["tick"]);
    assert_eq!(runner.stats().ticks_processed, 1);
    assert_eq!(runner.stats().actions_executed, 0);
    assert_eq!(runner.state(), State::Idle);
    let snapshot = runner.create_snapshot();
    assert_eq!(snapshot.context.numbers.get("latest_price"), Some(&d(50000.0)));
    assert_eq!(snapshot.context.integers.get("latest_timestamp"), Some(&1234567890));
}

#[test]
fn strategy_sees_the_bar_it_is_asked_about() {
    let mut runner = runner(Scripted::new());
    let mut events = Vec::new();
    runner.process_tick(create_test_data(50000.0), &mut events).unwrap();
    runner.process_tick(create_test_data(50010.0), &mut events).unwrap();
    // The window and the context already hold the bar when the strategy runs.
    let mut runner = runner.with_config(RunnerConfig::quiet());
    runner.process_tick(create_test_data(50020.0), &mut events).unwrap();
    assert_eq!(runner.get_price_history(Some(2)).len(), 2);
    assert_eq!(runner.get_price_history(Some(2))[1].close, d(50020.0));
}

#[test]
fn opportunity_starts_the_analysis() {
    let strategy = Scripted::new().opportunity(Ok(Some(opportunity("bullish", 0.85))));
    let mut runner = runner(strategy);
    let mut events = Vec::new();
    runner.process_tick(create_test_data(50000.0), &mut events).unwrap();

    assert_eq!(runner.state(), State::Analyzing);
    assert_eq!(kinds(&events), vec!["tick", "action", "transition"]);
    match &events[1] {
        RunnerEvent::ActionExecuted { action, timestamp, .. } => {
            assert_eq!(
                action,
                &Action::StartAnalyzing { reason: "Strategy detected opportunity".to_string() }
            );
            assert_eq!(*timestamp, 1234567890);
        }
        other => panic!("unexpected event {:?}", other),
    }
    match &events[2] {
        RunnerEvent::StateTransition { from, to, .. } => {
            assert_eq!((*from, *to), (State::Idle, State::Analyzing));
        }
        other => panic!("unexpected event {:?}", other),
    }
    let snapshot = runner.create_snapshot();
    assert_eq!(snapshot.context.strings.get("signal"), Some(&"bullish".to_string()));
    assert_eq!(snapshot.context.numbers.get("confidence"), Some(&d(0.85)));
    assert_eq!(snapshot.context.booleans.get("noise"), None);
    assert_eq!(snapshot.stats.actions_executed, 1);
    assert_eq!(snapshot.current_state, State::Analyzing);
}

#[test]
fn full_trade_emits_events_in_order() {
    let strategy = Scripted::new()
        .opportunity(Ok(Some(opportunity("bullish", 0.9))))
        .decision(Ok(Some(Action::EnterLong { price: d(50000.0), quantity: d(0.1) })))
        .decision(Ok(Some(Action::UpdateTakeProfit { new_target: d(52000.0) })))
        .decision(Ok(None));
    let mut runner = runner(strategy);

    let mut events = Vec::new();
    runner.process_tick(create_test_data(50000.0), &mut events).unwrap();
    assert_eq!(kinds(&events), vec!["tick", "action", "transition"]);

    let mut events = Vec::new();
    runner.process_tick(create_test_data(50000.0), &mut events).unwrap();
    assert_eq!(kinds(&events), vec!["tick", "action", "opened", "transition", "updated"]);
    assert_eq!(runner.state(), State::InPosition);
    match &events[2] {
        RunnerEvent::PositionOpened { position, .. } => {
            assert_eq!(position.entry_price(), d(50000.0));
            assert_eq!(position.quantity(), d(0.1));
        }
        other => panic!("unexpected event {:?}", other),
    }

    let mut events = Vec::new();
    runner.process_tick(create_test_data(51000.0), &mut events).unwrap();
    assert_eq!(kinds(&events), vec!["tick", "action", "updated"]);
    match &events[2] {
        RunnerEvent::PositionUpdated { current_price, unrealized_pnl, .. } => {
            assert_eq!(*current_price, d(51000.0));
            assert!((money(*unrealized_pnl) - 100.0).abs() < 1e-9);
        }
        other => panic!("unexpected event {:?}", other),
    }

    let mut events = Vec::new();
    runner.process_tick(create_test_data(52500.0), &mut events).unwrap();
    assert_eq!(kinds(&events), vec!["tick", "transition", "closed"]);
    match &events[2] {
        RunnerEvent::PositionClosed { exit_price, realized_pnl, reason, timestamp, .. } => {
            assert_eq!(*exit_price, d(52500.0));
            assert!((money(*realized_pnl) - 250.0).abs() < 1e-9);
            assert!(reason.contains("target"));
            assert_eq!(*timestamp, 1234567890);
        }
        other => panic!("unexpected event {:?}", other),
    }
    assert_eq!(runner.state(), State::Idle);
    assert!(runner.position().is_none());
    assert_eq!(runner.stats().ticks_processed, 4);
    assert_eq!(runner.stats().actions_executed, 3);
}

#[test]
fn strategy_exit_reports_the_closing() {
    let strategy = Scripted::new()
        .opportunity(Ok(Some(opportunity("bearish", 0.5))))
        .decision(Ok(Some(Action::EnterShort { price: d(50000.0), quantity: d(0.1) })))
        .decision(Ok(Some(Action::ExitPosition { price: d(49000.0) })));
    let mut runner = runner(strategy);
    let mut events = Vec::new();
    runner.process_tick(create_test_data(50000.0), &mut events).unwrap();
    runner.process_tick(create_test_data(50000.0), &mut events).unwrap();
    events.clear();
    runner.process_tick(create_test_data(49500.0), &mut events).unwrap();
    assert_eq!(kinds(&events), vec!["tick", "action", "transition", "closed"]);
    match &events[3] {
        RunnerEvent::PositionClosed { exit_price, realized_pnl, reason, .. } => {
            assert_eq!(*exit_price, d(49000.0));
            assert!((money(*realized_pnl) - 100.0).abs() < 1e-9);
            assert_eq!(reason, "Exit requested by strategy");
        }
        other => panic!("unexpected event {:?}", other),
    }
}

#[test]
fn failed_tick_is_counted_and_the_runner_goes_on() {
    let strategy = Scripted::new()
        .opportunity(Err(TradingEngineError::StrategyError("boom".to_string())));
    let mut runner = runner(strategy);
    let mut events = Vec::new();
    let step = runner.on_data(Some(create_test_data(50000.0)), &mut events);
    assert!(matches!(step, LoopStep::Continue));
    assert_eq!(kinds(&events), vec!["tick", "error"]);
    match &events[1] {
        RunnerEvent::Error { error, severity, timestamp, runner_id } => {
            assert_eq!(error, "Strategy error: boom");
            assert_eq!(*severity, ErrorSeverity::Error);
            assert_eq!(*timestamp, 1234567890);
            assert_eq!(runner_id, "test_runner");
        }
        other => panic!("unexpected event {:?}", other),
    }
    assert_eq!(runner.stats().errors, 1);
    assert_eq!(runner.stats().ticks_processed, 0);
    assert_eq!(runner.get_price_history(None).len(), 1);

    let step = runner.on_data(Some(create_test_data(50001.0)), &mut events);
    assert!(matches!(step, LoopStep::Continue));
    assert_eq!(runner.stats().ticks_processed, 1);
}

#[test]
fn failed_tick_ends_a_runner_that_stops_on_errors() {
    let strategy = Scripted::new()
        .opportunity(Err(TradingEngineError::StrategyError("boom".to_string())));
    let mut runner = runner(strategy).with_config(RunnerConfig::production());
    let mut events = Vec::new();
    let step = runner.on_data(Some(create_test_data(50000.0)), &mut events);
    match step {
        LoopStep::Failed(error) => {
            assert_eq!(error, TradingEngineError::StrategyError("boom".to_string()))
        }
        other => panic!("unexpected step {:?}", other),
    }
    assert_eq!(kinds(&events), vec!["tick", "error"]);
    assert!(events[1].is_critical());
    assert_eq!(runner.stats().errors, 0);
}

#[test]
fn bars_for_other_symbols_are_dropped() {
    let mut runner = runner(Scripted::new());
    let mut events = Vec::new();
    let mut other = create_test_data(3000.0);
    other.symbol = "ETHUSDT".to_string();
    assert!(matches!(runner.on_data(Some(other), &mut events), LoopStep::Continue));
    assert!(events.is_empty());
    assert!(runner.get_price_history(None).is_empty());
    assert_eq!(runner.stats().ticks_processed, 0);
}

#[test]
fn end_of_inbox_finishes_the_loop() {
    let mut runner = runner(Scripted::new());
    let mut events = Vec::new();
    assert!(matches!(runner.on_data(None, &mut events), LoopStep::Finished));
    assert!(events.is_empty());
}

#[test]
fn pause_discards_bars_and_resume_takes_them_again() {
    let mut runner = runner(Scripted::new());
    let mut events = Vec::new();

    assert!(matches!(runner.handle_command(RunnerCommand::Resume), RunnerReply::Done(false)));
    assert!(matches!(runner.handle_command(RunnerCommand::Pause), RunnerReply::Done(true)));
    assert!(matches!(runner.handle_command(RunnerCommand::Pause), RunnerReply::Done(false)));
    assert_eq!(runner.status(), RunnerStatus::Paused);

    assert!(matches!(
        runner.on_data(Some(create_test_data(50000.0)), &mut events),
        LoopStep::Continue
    ));
    assert!(events.is_empty());
    assert!(runner.get_price_history(None).is_empty());

    assert!(matches!(runner.handle_command(RunnerCommand::Resume), RunnerReply::Done(true)));
    assert_eq!(runner.status(), RunnerStatus::Running);
    runner.on_data(Some(create_test_data(50000.0)), &mut events);
    assert_eq!(kinds(&events), vec!["tick"]);

    assert!(matches!(runner.handle_command(RunnerCommand::Stop), RunnerReply::Done(true)));
    assert_eq!(runner.status(), RunnerStatus::Stopped);
    assert!(matches!(
        runner.on_data(Some(create_test_data(50000.0)), &mut events),
        LoopStep::Finished
    ));
    assert!(matches!(runner.handle_command(RunnerCommand::Pause), RunnerReply::Done(false)));
    assert!(matches!(runner.handle_command(RunnerCommand::Resume), RunnerReply::Done(false)));
}

#[test]
fn snapshot_of_an_idle_runner() {
    let mut runner = runner(Scripted::new());
    match runner.handle_command(RunnerCommand::GetSnapshot) {
        RunnerReply::Snapshot(snapshot) => {
            assert_eq!(snapshot.runner_id, "test_runner");
            assert_eq!(snapshot.symbol, "BTCUSDT");
            assert_eq!(snapshot.current_state, State::Idle);
            assert_eq!(snapshot.stats.ticks_processed, 0);
            assert_eq!(snapshot.status, RunnerStatus::Running);
            assert!(!snapshot.has_position());
            assert!(snapshot.context.numbers.is_empty());
        }
        other => panic!("unexpected reply {:?}", other),
    }
    assert!(runner.uptime().as_secs() < 60);
}

#[test]
fn price_history_command() {
    let mut runner = runner(Scripted::new());
    let mut events = Vec::new();
    for close in [1.0, 2.0, 3.0] {
        runner.process_tick(create_test_data(close), &mut events).unwrap();
    }
    match runner.handle_command(RunnerCommand::GetPriceHistory { count: Some(2) }) {
        RunnerReply::PriceHistory(bars) => {
            let closes: Vec<Decimal> = bars.iter().map(|b| b.close).collect();
            assert_eq!(closes, vec![d(2.0), d(3.0)]);
        }
        other => panic!("unexpected reply {:?}", other),
    }
    match runner.handle_command(RunnerCommand::GetPriceHistory { count: None }) {
        RunnerReply::PriceHistory(bars) => assert_eq!(bars.len(), 3),
        other => panic!("unexpected reply {:?}", other),
    }
    match runner.handle_command(RunnerCommand::GetPriceHistory { count: Some(0) }) {
        RunnerReply::PriceHistory(bars) => assert!(bars.is_empty()),
        other => panic!("unexpected reply {:?}", other),
    }
}

#[test]
fn complete_tick_takes_a_prepared_reply() {
    let mut runner = runner(Scripted::new());
    let mut events = Vec::new();
    let bar = create_test_data(100.0);
    runner.begin_tick(bar.clone(), &mut events);
    runner.complete_tick(
        &bar,
        StrategyReply::Decision(Some(Action::EnterLong { price: d(100.0), quantity: d(2.0) })),
        42,
        1_000,
        &mut events,
    );
    assert_eq!(kinds(&events), vec!["tick", "action", "opened", "transition", "updated"]);
    assert_eq!(runner.position().unwrap().entry_timestamp(), 42);
    assert_eq!(runner.stats().avg_tick_duration, 1_000);
    assert_eq!(runner.stats().actions_executed, 1);

    let step = runner.fail_tick(TradingEngineError::NotConnected, 9, &mut events);
    assert!(matches!(step, LoopStep::Continue));
    assert_eq!(runner.stats().errors, 1);
    match events.last().unwrap() {
        RunnerEvent::Error { error, timestamp, .. } => {
            assert_eq!(error, "Data source not connected");
            assert_eq!(*timestamp, 9);
        }
        other => panic!("unexpected event {:?}", other),
    }
}

#[test]
fn a_stop_ends_the_loop_at_once() {
    let mut runner = runner(Scripted::new());
    let (reply, step) = runner.on_command(RunnerCommand::GetSnapshot);
    assert!(matches!(reply, RunnerReply::Snapshot(_)));
    assert!(matches!(step, LoopStep::Continue));
    let (reply, step) = runner.on_command(RunnerCommand::Pause);
    assert!(matches!(reply, RunnerReply::Done(true)));
    assert!(matches!(step, LoopStep::Continue));
    let (reply, step) = runner.on_command(RunnerCommand::GetPriceHistory { count: None });
    assert!(matches!(reply, RunnerReply::PriceHistory(_)));
    assert!(matches!(step, LoopStep::Continue));
    let (reply, step) = runner.on_command(RunnerCommand::Stop);
    assert!(matches!(reply, RunnerReply::Done(true)));
    assert!(matches!(step, LoopStep::Finished));
    assert_eq!(runner.status(), RunnerStatus::Stopped);
    // Whatever is asked of a stopped runner, its loop stays ended.
    let (reply, step) = runner.on_command(RunnerCommand::Resume);
    assert!(matches!(reply, RunnerReply::Done(false)));
    assert!(matches!(step, LoopStep::Finished));
    // No bar that arrives afterwards is processed.
    let mut events = Vec::new();
    assert!(matches!(
        runner.on_data(Some(create_test_data(1.0)), &mut events),
        LoopStep::Finished
    ));
    assert!(events.is_empty());
    assert_eq!(runner.stats().ticks_processed, 0);
}

#[test]
fn snapshots_show_a_position_exactly_in_position() {
    let strategy = Scripted::new()
        .opportunity(Ok(Some(opportunity("bullish", 0.9))))
        .decision(Ok(Some(Action::EnterLong { price: d(100.0), quantity: d(1.0) })))
        .decision(Ok(Some(Action::ExitPosition { price: d(101.0) })));
    let mut runner = runner(strategy);
    let mut events = Vec::new();
    for close in [100.0, 100.0, 101.0] {
        let snapshot = runner.create_snapshot();
        assert_eq!(snapshot.has_position(), snapshot.current_state == State::InPosition);
        runner.process_tick(create_test_data(close), &mut events).unwrap();
    }
    let snapshot = runner.create_snapshot();
    assert_eq!(snapshot.current_state, State::Idle);
    assert!(!snapshot.has_position());
}
