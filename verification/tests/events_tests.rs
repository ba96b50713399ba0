use trading_engine::decimal::Decimal;
use trading_engine::events::{ErrorSeverity, RunnerEvent};
use trading_engine::state_machine::{Action, Position, Side, State};
use trading_engine::MarketData;

fn d(x: f64) -> Decimal {
    Decimal::from_units((x * 1e8).round() as i64)
}

fn pnl(x: f64) -> i128 {
    (x * 1e16).round() as i128
}

#[test]
fn test_state_transition_event() {
    let event = RunnerEvent::StateTransition {
        runner_id: "btc_ema".to_string(),
        from: State::Idle,
        to: State::Analyzing,
        reason: "Opportunity detected".to_string(),
        timestamp: 1234567890,
    };

    assert_eq!(event.runner_id(), "btc_ema");
    assert_eq!(event.timestamp(), Some(1234567890));
    assert!(!event.is_high_frequency());
}

#[test]
fn test_tick_received_event() {
    let data = MarketData {
        symbol: "BTCUSDT".to_string(),
        timestamp: 1234567890,
        open: d(50000.0),
        high: d(50100.0),
        low: d(49900.0),
        close: d(50050.0),
        volume: 1000,
        bid: d(50045.0),
        ask: d(50055.0),
    };

    let event = RunnerEvent::TickReceived {
        runner_id: "btc_ema".to_string(),
        symbol: "BTCUSDT".to_string(),
        data,
    };

    assert!(event.is_high_frequency());
    assert!(!event.is_critical());
}

#[test]
fn test_position_events() {
    let position = Position::new(d(50000.0), d(0.1), Side::Long, 1234567890);

    let opened = RunnerEvent::PositionOpened {
        runner_id: "btc_ema".to_string(),
        position: position.clone(),
        timestamp: 1234567890,
    };

    let updated = RunnerEvent::PositionUpdated {
        runner_id: "btc_ema".to_string(),
        current_price: d(50500.0),
        unrealized_pnl: pnl(50.0),
        timestamp: 1234567900,
    };

    let closed = RunnerEvent::PositionClosed {
        runner_id: "btc_ema".to_string(),
        exit_price: d(51000.0),
        realized_pnl: pnl(100.0),
        reason: "Take profit hit".to_string(),
        timestamp: 1234567910,
    };

    assert!(!opened.is_high_frequency());
    assert!(updated.is_high_frequency());
    assert!(!closed.is_high_frequency());
}

#[test]
fn test_error_severity() {
    let warning = RunnerEvent::Error {
        runner_id: "btc_ema".to_string(),
        error: "Minor issue".to_string(),
        severity: ErrorSeverity::Warning,
        timestamp: 1234567890,
    };

    let critical = RunnerEvent::Error {
        runner_id: "btc_ema".to_string(),
        error: "Fatal error".to_string(),
        severity: ErrorSeverity::Critical,
        timestamp: 1234567890,
    };

    assert!(!warning.is_critical());
    assert!(critical.is_critical());
}

#[test]
fn test_stats_update_event() {
    let event = RunnerEvent::StatsUpdate {
        runner_id: "btc_ema".to_string(),
        ticks_processed: 1000,
        actions_executed: 5,
        error_rate: d(0.001),
        avg_tick_duration: 500_000,
        timestamp: 1234567890,
    };

    assert!(!event.is_high_frequency());
    assert_eq!(event.runner_id(), "btc_ema");
}

#[test]
fn every_event_kind_names_its_runner_and_time() {
    let data = MarketData {
        symbol: "S".to_string(),
        timestamp: 77,
        open: d(1.0),
        high: d(1.0),
        low: d(1.0),
        close: d(1.0),
        volume: 1,
        bid: d(1.0),
        ask: d(1.0),
    };
    let events = vec![
        RunnerEvent::RunnerStarted { runner_id: "r".to_string(), symbol: "S".to_string(), timestamp: 1 },
        RunnerEvent::RunnerStopped { runner_id: "r".to_string(), reason: "x".to_string(), timestamp: 2 },
        RunnerEvent::TickReceived { runner_id: "r".to_string(), symbol: "S".to_string(), data },
        RunnerEvent::ActionExecuted { runner_id: "r".to_string(), action: Action::NoAction, timestamp: 4 },
        RunnerEvent::Error {
            runner_id: "r".to_string(),
            error: "e".to_string(),
            severity: ErrorSeverity::Error,
            timestamp: 5,
        },
    ];
    let times: Vec<Option<i64>> = events.iter().map(|e| e.timestamp()).collect();
    assert_eq!(times, vec![Some(1), Some(2), Some(77), Some(4), Some(5)]);
    for event in &events {
        assert_eq!(event.runner_id(), "r");
        assert_eq!(&event.clone(), event);
    }
    let critical: Vec<bool> = events.iter().map(|e| e.is_critical()).collect();
    assert_eq!(critical, vec![false, true, false, false, false]);
}
