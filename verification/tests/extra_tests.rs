use trading_engine::api::EngineSummaryResponse;
use trading_engine::decimal::Decimal;
use trading_engine::error::TradingEngineError;
use trading_engine::events::RunnerEvent;
use trading_engine::runner::{RunnerConfig, StrategyReply, SymbolRunner, TradingEngine};
use trading_engine::state_machine::{Action, Context, State, ValueTable};
use trading_engine::strategy::{IndicatorApi, ScriptRecord, ScriptValue, Strategy};
use trading_engine::text::{holds_text, u64_to_string};
use trading_engine::{MarketData, MarketDataWindow};

fn d(x: f64) -> Decimal {
    Decimal::from_units((x * 1e8).round() as i64)
}

struct Passive;

impl Strategy for Passive {
    fn detect_opportunity(
        &self,
        _market_data: &MarketData,
        _context: &Context,
        _indicators: &IndicatorApi,
    ) -> Result<Option<ScriptRecord>, TradingEngineError> {
        Ok(None)
    }

    fn filter_commitment(
        &self,
        _market_data: &MarketData,
        _context: &Context,
        _indicators: &IndicatorApi,
    ) -> Result<Option<Action>, TradingEngineError> {
        Ok(None)
    }

    fn manage_position(
        &self,
        _market_data: &MarketData,
        _context: &Context,
        _indicators: &IndicatorApi,
    ) -> Result<Option<Action>, TradingEngineError> {
        Ok(None)
    }
}

fn bar(close: f64) -> MarketData {
    MarketData {
        symbol: "BTCUSDT".to_string(),
        timestamp: 5,
        open: d(close),
        high: d(close),
        low: d(close),
        close: d(close),
        volume: 10,
        bid: d(close),
        ask: d(close),
    }
}

#[test]
fn numbers_are_written_in_decimal() {
    assert_eq!(u64_to_string(0), "0");
    assert_eq!(u64_to_string(7), "7");
    assert_eq!(u64_to_string(10), "10");
    assert_eq!(u64_to_string(1234567890), "1234567890");
    assert_eq!(u64_to_string(u64::MAX), "18446744073709551615");
}

#[test]
fn texts_are_found_in_lists() {
    let list = vec!["a".to_string(), "bc".to_string()];
    assert!(holds_text(&list, &"bc".to_string()));
    assert!(!holds_text(&list, &"b".to_string()));
    assert!(!holds_text(&Vec::new(), &"a".to_string()));
}

#[test]
fn runner_config_presets() {
    assert_eq!(
        RunnerConfig::default(),
        RunnerConfig {
            stop_on_error: false,
            log_actions: true,
            log_positions: false,
            collect_metrics: true
        }
    );
    assert_eq!(
        RunnerConfig::production(),
        RunnerConfig {
            stop_on_error: true,
            log_actions: true,
            log_positions: true,
            collect_metrics: true
        }
    );
    assert_eq!(
        RunnerConfig::development(),
        RunnerConfig {
            stop_on_error: false,
            log_actions: true,
            log_positions: false,
            collect_metrics: false
        }
    );
    assert_eq!(
        RunnerConfig::quiet(),
        RunnerConfig {
            stop_on_error: false,
            log_actions: false,
            log_positions: false,
            collect_metrics: true
        }
    );
}

#[test]
fn summaries_list_every_runner() {
    let mut engine = TradingEngine::new();
    let mut events = Vec::new();
    engine.add_runner("a".to_string(), "BTC".to_string(), Passive, &mut events).unwrap();
    engine.add_runner("b".to_string(), "ETH".to_string(), Passive, &mut events).unwrap();
    engine.mark_finished("a");
    let pairs: Vec<(String, String)> =
        engine.runner_summaries().into_iter().map(|r| (r.runner_id, r.symbol)).collect();
    assert_eq!(
        pairs,
        vec![("a".to_string(), "BTC".to_string()), ("b".to_string(), "ETH".to_string())]
    );
    let summary = EngineSummaryResponse::of(&engine, 9);
    assert_eq!(summary.total_runners, 2);
    assert_eq!(summary.healthy_runners, 1);
    assert_eq!(summary.active_symbols, vec!["BTC".to_string(), "ETH".to_string()]);
    assert_eq!(summary.runners.len(), 2);
    assert_eq!(summary.timestamp, 9);
}

#[test]
fn tick_halves_can_be_driven_apart() {
    let mut runner = SymbolRunner::new("r".to_string(), "BTCUSDT".to_string(), Passive, 10);
    let mut events: Vec<RunnerEvent> = Vec::new();
    let tick = bar(100.0);
    runner.begin_tick(tick.clone(), &mut events);

    let mut record = ScriptRecord::new();
    record.insert("signal".to_string(), ScriptValue::Text("bullish".to_string()));
    record.insert("confidence".to_string(), ScriptValue::Integer(1));
    let action = runner.apply_reply(StrategyReply::Opportunity(Some(record)));
    assert_eq!(
        action,
        Some(Action::StartAnalyzing { reason: "Strategy detected opportunity".to_string() })
    );
    assert_eq!(runner.apply_reply(StrategyReply::Opportunity(None)), None);
    assert_eq!(runner.apply_reply(StrategyReply::Decision(None)), None);
    assert_eq!(
        runner.apply_reply(StrategyReply::Decision(Some(Action::NoAction))),
        Some(Action::NoAction)
    );

    runner.finish_tick(&tick, action, 77, &mut events);
    assert_eq!(runner.state(), State::Analyzing);
    assert_eq!(events.len(), 3);
    let snapshot = runner.create_snapshot();
    assert_eq!(snapshot.context.numbers.get("confidence"), Some(&d(1.0)));
    assert_eq!(snapshot.context.strings.get("signal"), Some(&"bullish".to_string()));
    // The tick is not counted until its duration is recorded.
    assert_eq!(snapshot.stats.ticks_processed, 0);
    assert_eq!(snapshot.stats.actions_executed, 1);
}

#[test]
fn indicator_view_gives_the_latest_averages() {
    let mut window = MarketDataWindow::new(10);
    for close in [1.0, 2.0, 3.0, 4.0, 5.0] {
        window.push(bar(close));
    }
    assert_eq!(window.to_vec().len(), 5);
    let api = IndicatorApi::new(window);
    // Seed 2, then 3, then 4.
    assert_eq!(api.ema(3), Some(d(4.0)));
    assert_eq!(api.ema(0), None);
    assert_eq!(api.ema(6), None);
    // Gains only.
    assert_eq!(api.rsi(2), Some(Decimal::from_units(9_900_990_099)));
    assert_eq!(api.rsi(0), None);
    assert_eq!(api.rsi(5), None);
    assert_eq!(api.rsi(4), Some(Decimal::from_units(9_900_990_099)));
}

#[test]
fn text_tables_are_copied_deeply() {
    let mut table: ValueTable<String> = ValueTable::new();
    table.insert("k".to_string(), "v".to_string());
    let copy = table.duplicate_text();
    table.insert("k".to_string(), "w".to_string());
    assert_eq!(copy.get("k"), Some(&"v".to_string()));
    assert_eq!(table.get("k"), Some(&"w".to_string()));
    assert_eq!(copy.len(), 1);
}

#[test]
fn settled_machine_is_driven_by_actions_and_bars() {
    let mut machine = trading_engine::runner::SettledMachine::new("BTCUSDT".to_string());
    assert_eq!(machine.machine().symbol(), "BTCUSDT");
    assert_eq!(machine.machine().current_state(), &State::Idle);

    machine.record_latest(d(7.0), 3);
    assert_eq!(machine.machine().context().latest_price(), Some(d(7.0)));
    assert_eq!(machine.machine().context().latest_timestamp(), Some(3));

    let mut record = ScriptRecord::new();
    record.insert("signal".to_string(), ScriptValue::Text("up".to_string()));
    record.insert("confidence".to_string(), ScriptValue::Text("high".to_string()));
    machine.note_opportunity(&record);
    assert_eq!(machine.machine().context().get::<String>("signal"), Some(&"up".to_string()));
    assert_eq!(machine.machine().context().get::<Decimal>("confidence"), None);

    machine.execute_at(Action::EnterShort { price: d(10.0), quantity: d(2.0) }, 5);
    assert_eq!(machine.machine().current_state(), &State::InPosition);
    assert_eq!(machine.machine().position().unwrap().entry_timestamp(), 5);
    machine.execute_at(Action::UpdateStopLoss { new_stop: d(11.0) }, 6);
    machine.update_at(&bar(12.0), 7);
    assert_eq!(machine.machine().current_state(), &State::Idle);
    assert!(machine.machine().position().is_none());
    assert_eq!(machine.machine().last_closed().unwrap().exit_timestamp(), Some(7));
    assert_eq!(machine.machine().transition_history().len(), 2);
}
