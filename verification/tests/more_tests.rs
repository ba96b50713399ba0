use std::path::PathBuf;
use trading_engine::api::{list_symbols, process_strategy_file, strategy_file_info};
use trading_engine::decimal::Decimal;
use trading_engine::error::TradingEngineError;
use trading_engine::runner::engine::{prune_subscribers, Inquiry, TaskEnd, REPLY_TIMEOUT_MS};
use trading_engine::runner::RunnerReply;
use trading_engine::runner::TradingEngine;
use trading_engine::state_machine::{Action, Context};
use trading_engine::strategy::{
    update_context_from_lua, IndicatorApi, ScriptRecord, ScriptValue, Strategy,
};
use trading_engine::{MarketData, MarketDataStorage, MarketDataWindow};

fn d(x: f64) -> Decimal {
    Decimal::from_units((x * 1e8).round() as i64)
}

#[test]
fn test_process_strategy_file() {
    let path = PathBuf::from("lua-strategies/examples/ema_crossover.lua");
    let info = process_strategy_file(path.to_str().unwrap(), "examples");

    assert!(info.is_some());
    let info = info.unwrap();
    assert_eq!(info.name, "ema_crossover");
    assert_eq!(info.category, "examples");
    assert!(info.path.contains("ema_crossover.lua"));
}

#[test]
fn test_process_non_lua_file() {
    let path = PathBuf::from("lua-strategies/README.md");
    let info = process_strategy_file(path.to_str().unwrap(), "custom");

    assert!(info.is_none());
}

#[test]
fn strategy_listing_goes_by_extension_and_stem() {
    assert!(process_strategy_file("lua", "custom").is_none());
    assert!(process_strategy_file(".lua", "custom").is_none());
    assert!(process_strategy_file("dir.lua/readme", "custom").is_none());
    let info = process_strategy_file("a/b.c.lua", "custom").unwrap();
    assert_eq!(info.name, "b.c");
    assert_eq!(info.path, "a/b.c.lua");

    assert!(strategy_file_info("p", "c", None, Some("s".to_string())).is_none());
    assert!(strategy_file_info("p", "c", Some("lua".to_string()), None).is_none());
    assert!(strategy_file_info("p", "c", Some("LUA".to_string()), Some("s".to_string())).is_none());
    let info = strategy_file_info("p", "c", Some("lua".to_string()), Some("s".to_string())).unwrap();
    assert_eq!((info.name.as_str(), info.path.as_str(), info.category.as_str()), ("s", "p", "c"));
}

#[test]
fn symbol_listing() {
    let listing = list_symbols();
    assert_eq!(listing.symbols.len(), 18);
    assert_eq!(listing.symbols[0].symbol, "BTCUSDT");
    assert_eq!(listing.symbols[0].name, "Bitcoin / Tether");
    assert_eq!(listing.symbols[0].category, "Crypto - Major");
    assert_eq!(listing.symbols[17].symbol, "USDJPY");
    assert_eq!(listing.symbols[17].category, "Forex - Major");
    assert_eq!(listing.symbols[10].name, "Apple Inc.");
}

#[test]
fn context_takes_the_scalars_of_a_record() {
    let mut context = Context::new();
    context.set("kept", 1i64);
    context.set("confidence", d(0.1));
    let mut record = ScriptRecord::new();
    record.insert("confidence".to_string(), ScriptValue::Number(d(0.85)));
    record.insert("signal".to_string(), ScriptValue::Text("bullish".to_string()));
    record.insert("bars".to_string(), ScriptValue::Integer(42));
    record.insert("active".to_string(), ScriptValue::Boolean(true));
    record.insert("nothing".to_string(), ScriptValue::Nil);
    record.insert("table".to_string(), ScriptValue::Other);

    assert_eq!(update_context_from_lua(&mut context, &record), Ok(()));

    assert_eq!(context.get::<Decimal>("confidence"), Some(&d(0.85)));
    assert_eq!(context.get::<String>("signal"), Some(&"bullish".to_string()));
    assert_eq!(context.get::<i64>("bars"), Some(&42));
    assert_eq!(context.get::<bool>("active"), Some(&true));
    assert_eq!(context.get::<i64>("kept"), Some(&1));
    assert_eq!(context.strings.len(), 1);
    assert_eq!(context.numbers.len(), 1);
    assert_eq!(context.integers.len(), 2);
    assert_eq!(context.booleans.len(), 1);
}

fn bar(symbol: &str, timestamp: i64) -> MarketData {
    MarketData {
        symbol: symbol.to_string(),
        timestamp,
        open: d(1.0),
        high: d(1.0),
        low: d(1.0),
        close: d(timestamp as f64),
        volume: 1,
        bid: d(1.0),
        ask: d(1.0),
    }
}

#[test]
fn storage_keeps_one_window_per_symbol() {
    let mut storage = MarketDataStorage::new(3);
    assert!(storage.symbols().is_empty());
    assert!(storage.get_window("BTC").is_none());
    for i in 0..5 {
        storage.push(bar("BTC", i));
    }
    storage.push(bar("ETH", 9));

    let mut symbols = storage.symbols();
    symbols.sort();
    assert_eq!(symbols, vec!["BTC".to_string(), "ETH".to_string()]);
    let btc = storage.get_window("BTC").unwrap();
    assert_eq!(btc.len(), 3);
    assert_eq!(btc.oldest().unwrap().timestamp, 2);
    assert_eq!(storage.get_window("ETH").unwrap().len(), 1);

    // A window that was handed out does not follow later pushes.
    let window: MarketDataWindow = storage.get_window("ETH").unwrap();
    storage.push(bar("ETH", 10));
    assert_eq!(window.len(), 1);
    assert_eq!(storage.get_window("ETH").unwrap().len(), 2);
    assert_eq!(storage.get_window("BTC").unwrap().latest().unwrap().timestamp, 4);
}

struct Passive;

impl Strategy for Passive {
    fn detect_opportunity(
        &self,
        _market_data: &MarketData,
        _context: &Context,
        _indicators: &IndicatorApi,
    ) -> Result<Option<ScriptRecord>, TradingEngineError> {
        Ok(None)
    }

    fn filter_commitment(
        &self,
        _market_data: &MarketData,
        _context: &Context,
        _indicators: &IndicatorApi,
    ) -> Result<Option<Action>, TradingEngineError> {
        Ok(None)
    }

    fn manage_position(
        &self,
        _market_data: &MarketData,
        _context: &Context,
        _indicators: &IndicatorApi,
    ) -> Result<Option<Action>, TradingEngineError> {
        Ok(None)
    }
}

#[test]
fn engine_summary_text() {
    let mut engine = TradingEngine::new();
    assert_eq!(
        engine.summary(),
        "TradingEngine Summary:\n- Total Runners: 0\n- Healthy: 0\n- Unhealthy: 0\n- Symbols: 0\n- Runners per symbol: 0.0"
    );
    let mut events = Vec::new();
    for (id, symbol) in [("a", "BTC"), ("b", "BTC"), ("c", "ETH"), ("e", "ETH"), ("f", "SOL")] {
        engine.add_runner(id.to_string(), symbol.to_string(), Passive, &mut events).unwrap();
    }
    engine.mark_finished("c");
    assert_eq!(
        engine.summary(),
        "TradingEngine Summary:\n- Total Runners: 5\n- Healthy: 4\n- Unhealthy: 1\n- Symbols: 3\n- Runners per symbol: 1.7"
    );
    engine.remove_runner("f").unwrap();
    // 4 runners on 2 symbols
    assert!(engine.summary().ends_with("- Runners per symbol: 2.0"));
    engine.remove_runner("e").unwrap();
    // 3 runners on 2 symbols: halves round up
    assert!(engine.summary().ends_with("- Runners per symbol: 1.5"));
}

#[test]
fn closed_subscribers_are_pruned() {
    let mut subscribers = vec!["a", "b", "c", "d"];
    prune_subscribers(&mut subscribers, &vec![true, false, true, false]);
    assert_eq!(subscribers, vec!["a", "c"]);
    prune_subscribers(&mut subscribers, &vec![false]);
    assert_eq!(subscribers, vec!["c"]);
    prune_subscribers(&mut subscribers, &vec![true, false, false]);
    assert_eq!(subscribers, vec!["c"]);
    prune_subscribers(&mut subscribers, &vec![false]);
    assert!(subscribers.is_empty());
    prune_subscribers(&mut subscribers, &vec![]);
    assert!(subscribers.is_empty());
}

#[test]
fn shutdown_reports_every_runner() {
    let mut engine = TradingEngine::new();
    let mut events = Vec::new();
    for id in ["a", "b", "c"] {
        engine.add_runner(id.to_string(), "BTC".to_string(), Passive, &mut events).unwrap();
    }
    let handles = engine.shutdown();
    assert_eq!(engine.runner_count(), 0);
    let results = TradingEngine::shutdown_with_results(
        handles,
        vec![
            TaskEnd::Returned(Ok(())),
            TaskEnd::Panicked,
            TaskEnd::Returned(Err(TradingEngineError::NotConnected)),
        ],
    );
    assert_eq!(
        results,
        vec![
            ("a".to_string(), Ok(())),
            ("b".to_string(), Err(TradingEngineError::TaskPanic("b".to_string()))),
            ("c".to_string(), Err(TradingEngineError::NotConnected)),
        ]
    );
}

#[test]
fn inquiries_bring_back_what_was_replied() {
    assert_eq!(REPLY_TIMEOUT_MS, 100);
    assert!(Inquiry::UnknownRunner.snapshot().is_none());
    assert!(Inquiry::NotSent.snapshot().is_none());
    assert!(Inquiry::Dropped.snapshot().is_none());
    assert!(Inquiry::TimedOut.snapshot().is_none());
    assert!(Inquiry::Answered(RunnerReply::Done(true)).snapshot().is_none());
    assert!(Inquiry::TimedOut.price_history().is_none());
    assert_eq!(
        Inquiry::Answered(RunnerReply::PriceHistory(vec![bar("BTC", 1)])).price_history(),
        Some(vec![bar("BTC", 1)])
    );
    assert_eq!(Inquiry::Answered(RunnerReply::Done(false)).done("r"), Ok(false));
    assert_eq!(Inquiry::Answered(RunnerReply::Done(true)).done("r"), Ok(true));
    assert_eq!(
        Inquiry::UnknownRunner.done("r"),
        Err(TradingEngineError::RunnerNotFound("r".to_string()))
    );
    assert_eq!(
        Inquiry::TimedOut.done("r"),
        Err(TradingEngineError::ChannelClosed("r".to_string()))
    );
    assert_eq!(
        Inquiry::Answered(RunnerReply::PriceHistory(vec![])).done("r"),
        Err(TradingEngineError::ChannelClosed("r".to_string()))
    );
}

#[test]
fn shutdown_succeeds_when_every_runner_does() {
    assert_eq!(TradingEngine::shutdown_outcome(&Vec::new()), Ok(()));
    let good = vec![("a".to_string(), Ok(())), ("b".to_string(), Ok(()))];
    assert_eq!(TradingEngine::shutdown_outcome(&good), Ok(()));
    let bad = vec![
        ("a".to_string(), Ok(())),
        ("b".to_string(), Err(TradingEngineError::TaskPanic("b".to_string()))),
        ("c".to_string(), Err(TradingEngineError::NotConnected)),
    ];
    assert_eq!(
        TradingEngine::shutdown_outcome(&bad),
        Err(TradingEngineError::TaskPanic("b".to_string()))
    );
}
