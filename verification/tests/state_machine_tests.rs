use trading_engine::decimal::Decimal;
use trading_engine::state_machine::{
    Action, ExitReason, Side, State, StateMachine, MAX_TRANSITION_HISTORY,
};
use trading_engine::MarketData;

fn d(x: f64) -> Decimal {
    Decimal::from_units((x * 1e8).round() as i64)
}

fn money(pnl: i128) -> f64 {
    pnl as f64 / 1e16
}

fn create_test_data(price: f64) -> MarketData {
    MarketData {
        symbol: "BTCUSDT".to_string(),
        timestamp: chrono::Utc::now().timestamp_millis(),
        open: d(price),
        high: d(price),
        low: d(price),
        close: d(price),
        volume: 100,
        bid: d(price - 1.0),
        ask: d(price + 1.0),
    }
}

#[test]
fn test_new_state_machine() {
    let sm = StateMachine::new("BTCUSDT".to_string());
    assert_eq!(sm.symbol(), "BTCUSDT");
    assert_eq!(sm.current_state(), &State::Idle);
    assert!(sm.position().is_none());
}

#[test]
fn test_state_transition() {
    let mut sm = StateMachine::new("BTCUSDT".to_string());

    sm.transition_to(State::Analyzing, "Test transition".to_string());
    assert_eq!(sm.current_state(), &State::Analyzing);
    assert_eq!(sm.transition_history().len(), 1);
}

#[test]
fn test_execute_enter_long() {
    let mut sm = StateMachine::new("BTCUSDT".to_string());

    let action = Action::EnterLong { price: d(50000.0), quantity: d(0.1) };

    sm.execute(action).unwrap();

    assert_eq!(sm.current_state(), &State::InPosition);
    assert!(sm.position().is_some());

    let pos = sm.position().unwrap();
    assert_eq!(pos.side(), Side::Long);
    assert_eq!(pos.entry_price(), d(50000.0));
}

#[test]
fn test_execute_exit() {
    let mut sm = StateMachine::new("BTCUSDT".to_string());

    // Enter position
    sm.execute(Action::EnterLong { price: d(50000.0), quantity: d(0.1) }).unwrap();

    // Exit position
    sm.execute(Action::ExitPosition { price: d(51000.0) }).unwrap();

    assert_eq!(sm.current_state(), &State::Idle);
    assert!(sm.position().is_none());
}

#[test]
fn test_update_with_data() {
    let mut sm = StateMachine::new("BTCUSDT".to_string());
    let data = create_test_data(50000.0);

    sm.update(&data);

    assert_eq!(sm.context().latest_price(), Some(d(50000.0)));
}

#[test]
fn test_stop_loss_auto_exit() {
    let mut sm = StateMachine::new("BTCUSDT".to_string());

    // Enter long position
    sm.execute(Action::EnterLong { price: d(50000.0), quantity: d(0.1) }).unwrap();

    // Set stop loss
    sm.execute(Action::UpdateStopLoss { new_stop: d(49000.0) }).unwrap();

    // Update with price below stop
    let data = create_test_data(48500.0);
    sm.update(&data);

    // Should auto-exit
    assert_eq!(sm.current_state(), &State::Idle);
    assert!(sm.position().is_none());
}

#[test]
fn test_take_profit_auto_exit() {
    let mut sm = StateMachine::new("BTCUSDT".to_string());

    // Enter long position
    sm.execute(Action::EnterLong { price: d(50000.0), quantity: d(0.1) }).unwrap();

    // Set take profit
    sm.execute(Action::UpdateTakeProfit { new_target: d(52000.0) }).unwrap();

    // Update with price above target
    let data = create_test_data(52500.0);
    sm.update(&data);

    // Should auto-exit
    assert_eq!(sm.current_state(), &State::Idle);
    assert!(sm.position().is_none());
}

#[test]
fn test_reset() {
    let mut sm = StateMachine::new("BTCUSDT".to_string());

    sm.transition_to(State::Analyzing, "Test".to_string());
    sm.context_mut().set("test_key", "test_value".to_string());

    sm.reset();

    assert_eq!(sm.current_state(), &State::Idle);
    assert!(sm.transition_history().is_empty());
}

#[test]
fn long_trade_reaches_its_target() {
    let mut sm = StateMachine::new("BTCUSDT".to_string());
    sm.execute(Action::EnterLong { price: d(50000.0), quantity: d(0.1) }).unwrap();
    assert_eq!(sm.current_state(), &State::InPosition);
    assert_eq!(sm.position().unwrap().entry_price(), d(50000.0));
    sm.execute(Action::UpdateTakeProfit { new_target: d(52000.0) }).unwrap();

    let mut data = create_test_data(52500.0);
    data.low = d(52400.0);
    sm.update(&data);

    assert_eq!(sm.current_state(), &State::Idle);
    assert!(sm.position().is_none());
    let closed = sm.last_closed().unwrap();
    assert!((money(closed.realized_pnl().unwrap()) - 250.0).abs() < 1e-9);
    assert_eq!(closed.exit_price(), Some(d(52500.0)));
    assert_eq!(sm.last_exit_reason(), Some(ExitReason::TakeProfit));
    assert!(ExitReason::TakeProfit.as_str().contains("target"));
    assert!(sm.transition_history().back().unwrap().reason.contains("target"));
}

#[test]
fn short_trade_is_stopped_out() {
    let mut sm = StateMachine::new("BTCUSDT".to_string());
    sm.execute(Action::EnterShort { price: d(50000.0), quantity: d(0.1) }).unwrap();
    sm.execute(Action::UpdateStopLoss { new_stop: d(51000.0) }).unwrap();

    sm.update(&create_test_data(51500.0));

    assert_eq!(sm.current_state(), &State::Idle);
    assert!(sm.position().is_none());
    let closed = sm.last_closed().unwrap();
    assert!((money(closed.realized_pnl().unwrap()) + 150.0).abs() < 1e-9);
    assert_eq!(sm.last_exit_reason(), Some(ExitReason::StopLoss));
    assert!(sm.transition_history().back().unwrap().reason.contains("Stop"));
}

#[test]
fn analysis_can_be_cancelled() {
    let mut sm = StateMachine::new("BTCUSDT".to_string());
    sm.execute(Action::StartAnalyzing { reason: "sig".to_string() }).unwrap();
    assert_eq!(sm.current_state(), &State::Analyzing);
    sm.execute(Action::CancelAnalysis { reason: "none".to_string() }).unwrap();
    assert_eq!(sm.current_state(), &State::Idle);
    assert_eq!(sm.transition_history().len(), 2);
    let log = sm.transition_history();
    assert_eq!(log[0].from, State::Idle);
    assert_eq!(log[0].to, State::Analyzing);
    assert_eq!(log[0].reason, "sig");
    assert_eq!(log[1].from, State::Analyzing);
    assert_eq!(log[1].to, State::Idle);
    assert_eq!(log[1].reason, "none");
}

#[test]
fn illegal_actions_are_dropped() {
    let mut sm = StateMachine::new("BTCUSDT".to_string());
    assert!(sm.execute(Action::ExitPosition { price: d(100.0) }).is_ok());
    assert_eq!(sm.current_state(), &State::Idle);
    assert!(sm.position().is_none());
    assert!(sm.transition_history().is_empty());
    assert!(sm.last_closed().is_none());

    sm.execute(Action::UpdateStopLoss { new_stop: d(1.0) }).unwrap();
    sm.execute(Action::UpdateTakeProfit { new_target: d(1.0) }).unwrap();
    sm.execute(Action::CancelAnalysis { reason: "x".to_string() }).unwrap();
    sm.execute(Action::NoAction).unwrap();
    assert_eq!(sm.current_state(), &State::Idle);
    assert!(sm.transition_history().is_empty());

    sm.execute(Action::StartAnalyzing { reason: "a".to_string() }).unwrap();
    sm.execute(Action::StartAnalyzing { reason: "b".to_string() }).unwrap();
    assert_eq!(sm.transition_history().len(), 1);
}

#[test]
fn stop_wins_over_target() {
    let mut sm = StateMachine::new("BTCUSDT".to_string());
    sm.execute_at(Action::EnterLong { price: d(100.0), quantity: d(1.0) }, 7);
    // A stop above the price and a target below it: both are reached.
    sm.execute_at(Action::UpdateStopLoss { new_stop: d(100.0) }, 8);
    sm.execute_at(Action::UpdateTakeProfit { new_target: d(90.0) }, 9);
    sm.update_at(&create_test_data(95.0), 10);
    assert_eq!(sm.last_exit_reason(), Some(ExitReason::StopLoss));
    assert_eq!(sm.last_closed().unwrap().exit_timestamp(), Some(10));
    assert_eq!(sm.last_closed().unwrap().entry_timestamp(), 7);
    assert_eq!(sm.current_state(), &State::Idle);
}

#[test]
fn no_exit_without_a_trigger() {
    let mut sm = StateMachine::new("BTCUSDT".to_string());
    sm.execute(Action::EnterLong { price: d(100.0), quantity: d(1.0) }).unwrap();
    sm.execute(Action::UpdateStopLoss { new_stop: d(90.0) }).unwrap();
    sm.execute(Action::UpdateTakeProfit { new_target: d(110.0) }).unwrap();
    let data = create_test_data(105.0);
    sm.update(&data);
    assert_eq!(sm.current_state(), &State::InPosition);
    assert_eq!(sm.position().unwrap().current_price(), d(105.0));
    assert_eq!(sm.context().latest_timestamp(), Some(data.timestamp));
    assert_eq!(sm.transition_history().len(), 1);
}

#[test]
fn transition_log_is_bounded() {
    let mut sm = StateMachine::new("BTCUSDT".to_string());
    for i in 0..(MAX_TRANSITION_HISTORY as i64 + 5) {
        sm.transition_at(State::Analyzing, "again".to_string(), i);
    }
    assert_eq!(sm.transition_history().len(), MAX_TRANSITION_HISTORY);
    assert_eq!(sm.transition_history().front().unwrap().timestamp, 5);
    assert_eq!(sm.transition_history().back().unwrap().timestamp, 104);
}

#[test]
fn state_matches_position_after_many_actions() {
    let actions = vec![
        Action::StartAnalyzing { reason: "s".to_string() },
        Action::EnterShort { price: d(10.0), quantity: d(2.0) },
        Action::StartAnalyzing { reason: "s".to_string() },
        Action::CancelAnalysis { reason: "c".to_string() },
        Action::UpdateStopLoss { new_stop: d(12.0) },
        Action::EnterLong { price: d(11.0), quantity: d(1.0) },
        Action::ExitPosition { price: d(12.0) },
        Action::ExitPosition { price: d(12.0) },
        Action::NoAction,
        Action::StartAnalyzing { reason: "s".to_string() },
        Action::CancelAnalysis { reason: "c".to_string() },
    ];
    let mut sm = StateMachine::new("X".to_string());
    for action in actions {
        sm.execute(action).unwrap();
        let open = sm.position().map(|p| !p.is_closed()).unwrap_or(false);
        assert_eq!(sm.current_state().is_in_position(), open);
        assert_eq!(sm.position().is_some(), open);
    }
    assert_eq!(sm.current_state(), &State::Idle);
}

#[test]
fn reset_clears_everything() {
    let mut sm = StateMachine::new("BTCUSDT".to_string());
    sm.execute(Action::EnterLong { price: d(100.0), quantity: d(1.0) }).unwrap();
    sm.execute(Action::ExitPosition { price: d(101.0) }).unwrap();
    sm.update(&create_test_data(100.0));
    sm.reset();
    assert_eq!(sm.symbol(), "BTCUSDT");
    assert!(sm.context().is_empty());
    assert!(sm.position().is_none());
    assert!(sm.last_closed().is_none());
    assert!(sm.last_exit_reason().is_none());
    assert!(sm.transition_history().is_empty());
}

#[test]
fn position_mut_writes_through() {
    let mut sm = StateMachine::new("BTCUSDT".to_string());
    assert!(sm.position_mut().is_none());
    sm.execute(Action::EnterLong { price: d(100.0), quantity: d(1.0) }).unwrap();
    sm.position_mut().unwrap().set_stop_loss(d(95.0));
    assert_eq!(sm.position().unwrap().stop_loss(), Some(d(95.0)));
}

#[test]
fn action_kinds() {
    assert!(Action::EnterLong { price: d(1.0), quantity: d(1.0) }.is_entry());
    assert!(Action::EnterShort { price: d(1.0), quantity: d(1.0) }.is_entry());
    assert!(!Action::ExitPosition { price: d(1.0) }.is_entry());
    assert!(Action::ExitPosition { price: d(1.0) }.is_exit());
    assert!(!Action::NoAction.is_exit());
    assert_eq!(
        Action::EnterShort { price: d(1.0), quantity: d(1.0) }.entry_side(),
        Some(Side::Short)
    );
    assert_eq!(Action::NoAction.entry_side(), None);
    let action = Action::StartAnalyzing { reason: "r".to_string() };
    assert_eq!(action.clone(), action);
}
