use trading_engine::decimal::{Decimal, SCALE};
use trading_engine::error::TradingEngineError;
use trading_engine::sources::{
    derived_quote, kline_quote, kline_to_market_data, stream_url, BinanceRegion, KlineFields,
};

fn units(n: i64) -> Option<Decimal> {
    Some(Decimal::from_units(n))
}

#[test]
fn decimals_are_read_from_text() {
    assert_eq!(Decimal::parse("0"), units(0));
    assert_eq!(Decimal::parse("7"), units(700_000_000));
    assert_eq!(Decimal::parse("50000.12"), units(5_000_012_000_000));
    assert_eq!(Decimal::parse("-0.5"), units(-50_000_000));
    assert_eq!(Decimal::parse("+1.25"), units(125_000_000));
    assert_eq!(Decimal::parse("5."), units(500_000_000));
    assert_eq!(Decimal::parse(".5"), units(50_000_000));
    assert_eq!(Decimal::parse("0.00000001"), units(1));
    // Digits beyond the eighth place are dropped.
    assert_eq!(Decimal::parse("0.123456789"), units(12_345_678));
    assert_eq!(Decimal::parse("-0.000000019"), units(-1));
    assert_eq!(Decimal::parse("000012.5"), units(1_250_000_000));
    assert_eq!(Decimal::parse("-0"), units(0));
}

#[test]
fn texts_that_are_no_decimals_give_nothing() {
    for text in ["", "-", "+", ".", "-.", "abc", "1e3", "1.2.3", "1,5", " 1", "1 ", "--1", "0x10", "１"] {
        assert_eq!(Decimal::parse(text), None, "{:?}", text);
    }
}

#[test]
fn decimals_beyond_the_range_give_nothing() {
    assert_eq!(Decimal::parse("92233720368.54775807"), units(i64::MAX));
    assert_eq!(Decimal::parse("92233720368.54775808"), None);
    assert_eq!(Decimal::parse("-92233720368.54775808"), units(i64::MIN));
    assert_eq!(Decimal::parse("-92233720368.54775809"), None);
    assert_eq!(Decimal::parse("92233720369"), None);
    assert_eq!(Decimal::parse("99999999999999999999999999999999999999999999"), None);
    assert_eq!(Decimal::parse("1000000000000.5"), None);
}

#[test]
fn decimals_are_written_with_eight_places() {
    assert_eq!(Decimal::from_units(0).to_string(), "0.00000000");
    assert_eq!(Decimal::from_units(1).to_string(), "0.00000001");
    assert_eq!(Decimal::from_units(-1).to_string(), "-0.00000001");
    assert_eq!(Decimal::from_units(5_000_012_000_000).to_string(), "50000.12000000");
    assert_eq!(Decimal::from_units(i64::MAX).to_string(), "92233720368.54775807");
    assert_eq!(Decimal::from_units(i64::MIN).to_string(), "-92233720368.54775808");
}

#[test]
fn written_decimals_read_back() {
    for n in [0, 1, -1, 99_999_999, 100_000_000, -123_456_789_012, i64::MAX, i64::MIN] {
        let d = Decimal::from_units(n);
        assert_eq!(Decimal::parse(&d.to_string()), Some(d));
    }
}

#[test]
fn decimal_arithmetic_is_checked() {
    let one = Decimal::from_int(1).unwrap();
    assert_eq!(one.units, SCALE);
    assert_eq!(Decimal::from_int(i64::MAX), None);
    assert_eq!(Decimal::from_int(-92233720368), units(-9_223_372_036_800_000_000));
    assert_eq!(Decimal::from_int(-92233720369), None);
    assert_eq!(Decimal::zero().units, 0);
    assert!(Decimal::zero().lt(&one));
    assert!(!one.lt(&one));
    assert!(one.le(&one));
    assert!(one.is_positive());
    assert!(!Decimal::zero().is_positive());
    assert_eq!(one.checked_add(&one), units(2 * SCALE));
    assert_eq!(one.checked_sub(&one), units(0));
    assert_eq!(Decimal::from_units(i64::MAX).checked_add(&Decimal::from_units(1)), None);
    assert_eq!(Decimal::from_units(i64::MIN).checked_sub(&Decimal::from_units(1)), None);
}

fn fields<'a>(open: &'a str, high: &'a str, low: &'a str, close: &'a str, volume: &'a str) -> KlineFields<'a> {
    KlineFields { open, high, low, close, volume }
}

fn parse_error(what: &str) -> TradingEngineError {
    TradingEngineError::ParseError(format!("Invalid {}", what))
}

#[test]
fn klines_become_bars() {
    let kline = fields("50000.10", "50100", "49900.5", "50050.25", "12.75");
    let bid = Decimal::parse("50050").unwrap();
    let ask = Decimal::parse("50051").unwrap();
    let bar = kline_to_market_data("BTCUSDT".to_string(), 1234, &kline, bid, ask).unwrap();
    assert_eq!(bar.symbol, "BTCUSDT");
    assert_eq!(bar.timestamp, 1234);
    assert_eq!(bar.open, Decimal::parse("50000.1").unwrap());
    assert_eq!(bar.high, Decimal::parse("50100").unwrap());
    assert_eq!(bar.low, Decimal::parse("49900.5").unwrap());
    assert_eq!(bar.close, Decimal::parse("50050.25").unwrap());
    assert_eq!(bar.volume, 12);
    assert_eq!(bar.bid, bid);
    assert_eq!(bar.ask, ask);

    let negative = fields("1", "1", "1", "1", "-3.5");
    assert_eq!(kline_to_market_data("X".to_string(), 0, &negative, bid, ask).unwrap().volume, 0);
}

#[test]
fn unreadable_kline_numbers_are_named() {
    let bid = Decimal::zero();
    let cases = [
        (fields("x", "y", "1", "1", "1"), "open price"),
        (fields("1", "y", "z", "1", "1"), "high price"),
        (fields("1", "1", "", "1", "1"), "low price"),
        (fields("1", "1", "1", "1e5", "1"), "close price"),
        (fields("1", "1", "1", "1", "lots"), "volume"),
    ];
    for (kline, what) in cases {
        assert_eq!(
            kline_to_market_data("X".to_string(), 0, &kline, bid, bid),
            Err(parse_error(what))
        );
    }
}

#[test]
fn quotes_come_from_the_ticker_or_from_the_close() {
    assert_eq!(
        kline_quote("50000", Some(("49999.5", "50000.5"))),
        Ok((Decimal::parse("49999.5").unwrap(), Decimal::parse("50000.5").unwrap()))
    );
    assert_eq!(kline_quote("50000", Some(("?", "?"))), Err(parse_error("bid price")));
    assert_eq!(kline_quote("50000", Some(("1", "?"))), Err(parse_error("ask price")));
    // A tenth of a percent of 50000 is 50; half of it on either side.
    assert_eq!(
        kline_quote("50000", None),
        Ok((Decimal::parse("49975").unwrap(), Decimal::parse("50025").unwrap()))
    );
    assert_eq!(kline_quote("fifty", None), Err(parse_error("close price")));
    assert_eq!(
        derived_quote(Decimal::from_units(i64::MAX)),
        (Decimal::from_units(i64::MAX - 4_611_686_018_427_387), Decimal::from_units(i64::MAX))
    );
    assert_eq!(
        derived_quote(Decimal::from_units(-2001)),
        (Decimal::from_units(-2000), Decimal::from_units(-2002))
    );
}

#[test]
fn stream_addresses() {
    assert_eq!(
        stream_url(BinanceRegion::International, &vec![], "1m"),
        "wss://stream.binance.com:9443/ws"
    );
    assert_eq!(
        stream_url(BinanceRegion::US, &vec!["BTCUSDT".to_string()], "1m"),
        "wss://stream.binance.us:9443/stream?streams=btcusdt@kline_1m/btcusdt@bookTicker"
    );
    assert_eq!(
        stream_url(
            BinanceRegion::International,
            &vec!["BTCUSDT".to_string(), "EthUsdt".to_string()],
            "5m"
        ),
        "wss://stream.binance.com:9443/stream?streams=btcusdt@kline_5m/btcusdt@bookTicker/ethusdt@kline_5m/ethusdt@bookTicker"
    );
}
