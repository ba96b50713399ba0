use std::time::Duration;
use trading_engine::decimal::Decimal;
use trading_engine::runner::{ContextSnapshot, RunnerSnapshot, RunnerStats, RunnerStatus};
use trading_engine::state_machine::{Position, Side, State};

fn d(x: f64) -> Decimal {
    Decimal::from_units((x * 1e8).round() as i64)
}

#[test]
fn test_runner_snapshot_creation() {
    let mut context = ContextSnapshot::default();
    context.strings.insert("signal".to_string(), "bullish".to_string());
    context.numbers.insert("confidence".to_string(), d(0.8));

    let stats = RunnerStats::new();
    let snapshot = RunnerSnapshot::new(
        "test_runner".to_string(),
        "BTCUSDT".to_string(),
        RunnerStatus::Running,
        State::Idle,
        None,
        context,
        stats,
        Duration::from_secs(120),
    );

    assert_eq!(snapshot.runner_id, "test_runner");
    assert_eq!(snapshot.symbol, "BTCUSDT");
    assert_eq!(snapshot.status, RunnerStatus::Running);
    assert_eq!(snapshot.state_str(), "Idle");
    assert!(!snapshot.has_position());
    assert_eq!(snapshot.uptime_secs, 120);
    assert_eq!(snapshot.context.strings.get("signal").unwrap(), "bullish");
}

#[test]
fn test_snapshot_with_position() {
    let position = Position::new(d(50000.0), d(0.1), Side::Long, 1234567890);

    let snapshot = RunnerSnapshot::new(
        "btc_runner".to_string(),
        "BTCUSDT".to_string(),
        RunnerStatus::Running,
        State::InPosition,
        Some(position),
        ContextSnapshot::default(),
        RunnerStats::new(),
        Duration::from_secs(60),
    );

    assert!(snapshot.has_position());
    assert_eq!(snapshot.state_str(), "InPosition");
    assert_eq!(snapshot.position.as_ref().unwrap().entry_price(), d(50000.0));
}

#[test]
fn test_context_snapshot() {
    let mut context = ContextSnapshot::default();
    context.strings.insert("strategy".to_string(), "ema_cross".to_string());
    context.numbers.insert("fast_ema".to_string(), d(50100.0));
    context.numbers.insert("slow_ema".to_string(), d(49900.0));
    context.integers.insert("bars_analyzed".to_string(), 42);
    context.booleans.insert("signal_active".to_string(), true);

    assert_eq!(context.strings.len(), 1);
    assert_eq!(context.numbers.len(), 2);
    assert_eq!(context.integers.len(), 1);
    assert_eq!(context.booleans.len(), 1);

    let copy = context.clone();
    assert_eq!(copy.booleans.get("signal_active"), Some(&true));
}

#[test]
fn runner_status_checks() {
    assert!(RunnerStatus::Running.is_active());
    assert!(!RunnerStatus::Running.is_paused());
    assert!(!RunnerStatus::Running.is_stopped());
    assert!(RunnerStatus::Paused.is_paused());
    assert!(!RunnerStatus::Paused.is_active());
    assert!(RunnerStatus::Stopped.is_stopped());
    assert!(!RunnerStatus::Stopped.is_active());
    assert_eq!(RunnerStatus::default(), RunnerStatus::Running);
}

#[test]
fn snapshot_is_stamped_and_clones() {
    let before = chrono::Utc::now().timestamp_millis();
    let snapshot = RunnerSnapshot::new(
        "r".to_string(),
        "S".to_string(),
        RunnerStatus::Paused,
        State::Analyzing,
        None,
        ContextSnapshot::default(),
        RunnerStats::new(),
        Duration::from_millis(2999),
    );
    let after = chrono::Utc::now().timestamp_millis();
    assert!(before <= snapshot.snapshot_timestamp && snapshot.snapshot_timestamp <= after);
    assert_eq!(snapshot.uptime_secs, 2);
    assert_eq!(snapshot.state_str(), "Analyzing");
    let copy = snapshot.clone();
    assert_eq!(copy.runner_id, "r");
    assert_eq!(copy.status, RunnerStatus::Paused);
    assert_eq!(copy.snapshot_timestamp, snapshot.snapshot_timestamp);
}
