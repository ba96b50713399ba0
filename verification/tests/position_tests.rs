use trading_engine::decimal::Decimal;
use trading_engine::state_machine::{Position, Side};

fn d(x: f64) -> Decimal {
    Decimal::from_units((x * 1e8).round() as i64)
}

fn money(pnl: i128) -> f64 {
    pnl as f64 / 1e16
}

#[test]
fn test_long_position_profit() {
    let mut pos = Position::new(d(50000.0), d(0.1), Side::Long, 1234567890);
    pos.update_current_price(d(51000.0));

    let pnl = money(pos.unrealized_pnl().unwrap());
    assert!((pnl - 100.0).abs() < 0.01);
}

#[test]
fn test_long_position_loss() {
    let mut pos = Position::new(d(50000.0), d(0.1), Side::Long, 1234567890);
    pos.update_current_price(d(49000.0));

    let pnl = money(pos.unrealized_pnl().unwrap());
    assert!((pnl + 100.0).abs() < 0.01); // Negative P&L
}

#[test]
fn test_short_position_profit() {
    let mut pos = Position::new(d(50000.0), d(0.1), Side::Short, 1234567890);
    pos.update_current_price(d(49000.0));

    let pnl = money(pos.unrealized_pnl().unwrap());
    assert!((pnl - 100.0).abs() < 0.01);
}

#[test]
fn test_short_position_loss() {
    let mut pos = Position::new(d(50000.0), d(0.1), Side::Short, 1234567890);
    pos.update_current_price(d(51000.0));

    let pnl = money(pos.unrealized_pnl().unwrap());
    assert!((pnl + 100.0).abs() < 0.01); // Negative P&L
}

#[test]
fn test_stop_loss_long() {
    let mut pos = Position::new(d(50000.0), d(0.1), Side::Long, 1234567890);
    pos.set_stop_loss(d(49000.0));

    pos.update_current_price(d(49500.0));
    assert!(!pos.is_stop_loss_hit());

    pos.update_current_price(d(48500.0));
    assert!(pos.is_stop_loss_hit());
}

#[test]
fn test_take_profit_long() {
    let mut pos = Position::new(d(50000.0), d(0.1), Side::Long, 1234567890);
    pos.set_take_profit(d(52000.0));

    pos.update_current_price(d(51500.0));
    assert!(!pos.is_take_profit_hit());

    pos.update_current_price(d(52500.0));
    assert!(pos.is_take_profit_hit());
}

#[test]
fn test_close_position() {
    let mut pos = Position::new(d(50000.0), d(0.1), Side::Long, 1234567890);
    assert!(!pos.is_closed());

    pos.close(d(51000.0), 1234567900);
    assert!(pos.is_closed());

    let realized = money(pos.realized_pnl().unwrap());
    assert!((realized - 100.0).abs() < 0.01);

    // Unrealized P&L should be None for closed positions
    assert!(pos.unrealized_pnl().is_none());
}

#[test]
fn position_pnl_is_exact() {
    // (51000 - 50000) * 0.1 in units of 10^-16
    let mut long = Position::new(d(50000.0), d(0.1), Side::Long, 1);
    long.close(d(51000.0), 2);
    assert_eq!(long.realized_pnl(), Some(100_000_000_000i128 * 10_000_000i128));
    assert_eq!(long.realized_pnl(), Some(1_000_000_000_000_000_000i128));

    let mut short = Position::new(d(50000.0), d(0.1), Side::Short, 1);
    short.close(d(51500.0), 2);
    assert_eq!(short.realized_pnl(), Some(-1_500_000_000_000_000_000i128));
}

#[test]
fn position_pnl_fits_at_the_extremes() {
    let mut pos = Position::new(
        Decimal::from_units(i64::MIN),
        Decimal::from_units(i64::MAX),
        Side::Long,
        0,
    );
    pos.update_current_price(Decimal::from_units(i64::MAX));
    let expected = (i64::MAX as i128 - i64::MIN as i128) * i64::MAX as i128;
    assert_eq!(pos.unrealized_pnl(), Some(expected));
}

#[test]
fn position_getters_and_new() {
    let pos = Position::new(d(50000.0), d(0.1), Side::Short, 1234567890);
    assert_eq!(pos.entry_price(), d(50000.0));
    assert_eq!(pos.quantity(), d(0.1));
    assert_eq!(pos.side(), Side::Short);
    assert_eq!(pos.entry_timestamp(), 1234567890);
    assert_eq!(pos.current_price(), d(50000.0));
    assert_eq!(pos.stop_loss(), None);
    assert_eq!(pos.take_profit(), None);
    assert_eq!(pos.exit_price(), None);
    assert_eq!(pos.exit_timestamp(), None);
    assert_eq!(pos.realized_pnl(), None);
    assert_eq!(pos.unrealized_pnl(), Some(0));
}

#[test]
fn closed_position_never_changes() {
    let mut pos = Position::new(d(100.0), d(1.0), Side::Long, 10);
    pos.set_stop_loss(d(90.0));
    pos.close(d(110.0), 20);
    let closed = pos;

    pos.update_current_price(d(500.0));
    pos.set_stop_loss(d(1.0));
    pos.set_take_profit(d(2.0));
    pos.close(d(7.0), 99);

    assert_eq!(pos, closed);
    assert_eq!(pos.exit_price(), Some(d(110.0)));
    assert_eq!(pos.exit_timestamp(), Some(20));
    assert_eq!(pos.current_price(), d(100.0));
}

#[test]
fn short_side_triggers_are_mirrored() {
    let mut pos = Position::new(d(100.0), d(1.0), Side::Short, 0);
    pos.set_stop_loss(d(110.0));
    pos.set_take_profit(d(90.0));

    pos.update_current_price(d(109.0));
    assert!(!pos.is_stop_loss_hit());
    assert!(!pos.is_take_profit_hit());

    pos.update_current_price(d(110.0));
    assert!(pos.is_stop_loss_hit());

    pos.update_current_price(d(90.0));
    assert!(pos.is_take_profit_hit());
    assert!(!pos.is_stop_loss_hit());
}

#[test]
fn position_age() {
    let mut pos = Position::new(d(1.0), d(1.0), Side::Long, 1_000);
    assert_eq!(pos.age_ms_at(1_500), Some(500));
    assert_eq!(pos.age_ms_at(i64::MIN), None);
    assert!(pos.age_ms().unwrap() > 0);
    pos.close(d(1.0), 4_000);
    assert_eq!(pos.age_ms_at(1_500), Some(3_000));
    assert_eq!(pos.age_ms(), Some(3_000));
}

#[test]
fn side_names() {
    assert_eq!(Side::Long.to_string(), "Long");
    assert_eq!(Side::Short.as_str(), "Short");
}
