use trading_engine::decimal::Decimal;
use trading_engine::{MarketData, MarketDataStorage, MarketDataWindow};

fn d(x: f64) -> Decimal {
    Decimal::from_units((x * 1e8).round() as i64)
}

fn f(x: Decimal) -> f64 {
    x.units as f64 / 1e8
}

#[test]
fn test_end_to_end_data_flow() {
    // Create storage
    let mut storage = MarketDataStorage::new(1000);

    // Simulate incoming market data
    for i in 0..50 {
        let data = MarketData {
            symbol: "BTCUSDT".to_string(),
            timestamp: i,
            open: d(50000.0 + i as f64),
            high: d(51000.0 + i as f64),
            low: d(49000.0 + i as f64),
            close: d(50500.0 + i as f64),
            volume: 1000 + i as u64,
            bid: d(50499.0 + i as f64),
            ask: d(50501.0 + i as f64),
        };

        data.validate().expect("Data should be valid");
        storage.push(data);
    }

    // Retrieve and verify
    let window = storage.get_window("BTCUSDT").expect("Window should exist");
    assert_eq!(window.len(), 50);

    // Test queries
    let high = window.high(20).expect("Should have high");
    let low = window.low(20).expect("Should have low");
    let range = window.range(20).expect("Should calculate range");

    assert!(f(high) > f(low));
    assert!(f(range) > 0.0);
}

#[test]
fn test_multi_symbol_storage() {
    let mut storage = MarketDataStorage::new(100);

    // Add data for multiple symbols
    for symbol in &["BTCUSDT", "ETHUSDT", "BNBUSDT"] {
        for i in 0..10 {
            let data = MarketData {
                symbol: symbol.to_string(),
                timestamp: i,
                open: d(100.0),
                high: d(110.0),
                low: d(90.0),
                close: d(105.0),
                volume: 1000,
                bid: d(104.0),
                ask: d(106.0),
            };
            storage.push(data);
        }
    }

    // Verify each symbol has its own window
    let symbols = storage.symbols();
    assert_eq!(symbols.len(), 3);

    for symbol in &["BTCUSDT", "ETHUSDT", "BNBUSDT"] {
        let window = storage.get_window(symbol).expect("Window should exist");
        assert_eq!(window.len(), 10);
    }
}

#[test]
fn test_storage_isolation() {
    let mut storage = MarketDataStorage::new(100);

    // Add data to one symbol
    for i in 0..5 {
        let data = MarketData {
            symbol: "BTCUSDT".to_string(),
            timestamp: i,
            open: d(100.0),
            high: d(110.0),
            low: d(90.0),
            close: d(105.0),
            volume: 1000,
            bid: d(104.0),
            ask: d(106.0),
        };
        storage.push(data);
    }

    // Verify other symbol is empty
    assert!(storage.get_window("ETHUSDT").is_none());

    // Verify BTCUSDT has data
    assert_eq!(storage.get_window("BTCUSDT").unwrap().len(), 5);
}

#[test]
fn test_window_query_consistency() {
    let mut window = MarketDataWindow::new(100);

    // Add sequential data
    for i in 0..20 {
        let data = MarketData {
            symbol: "TEST".to_string(),
            timestamp: i,
            open: d(100.0),
            high: d(100.0 + (i as f64 * 0.1)),
            low: d(100.0 - (i as f64 * 0.1)),
            close: d(100.0 + (i as f64 * 0.05)),
            volume: 1000,
            bid: d(100.0),
            ask: d(100.0),
        };
        window.push(data);
    }

    // Verify consistency across queries
    let high_10 = window.high(10).unwrap();
    let low_10 = window.low(10).unwrap();
    let range_10 = window.range(10).unwrap();

    // Range should equal high - low
    assert_eq!(range_10.units, high_10.units - low_10.units);
}

#[test]
fn test_large_dataset() {
    let mut window = MarketDataWindow::new(10000);

    // Add 10,000 data points
    for i in 0..10000 {
        let data = MarketData {
            symbol: "BTCUSDT".to_string(),
            timestamp: i,
            open: d(50000.0),
            high: d(51000.0),
            low: d(49000.0),
            close: d(50500.0),
            volume: 1000,
            bid: d(50499.0),
            ask: d(50501.0),
        };
        window.push(data);
    }

    assert_eq!(window.len(), 10000);

    // Test queries on large dataset
    let high = window.high(1000);
    let range = window.range(200);

    assert!(high.is_some());
    assert!(range.is_some());
}

#[test]
fn test_realistic_trading_scenario() {
    let mut storage = MarketDataStorage::new(500);

    // Simulate realistic price movement
    let mut price = 50000.0;
    for i in 0..100 {
        // Random walk
        price += (i % 5) as f64 - 2.0; // Simple oscillation

        let data = MarketData {
            symbol: "BTCUSDT".to_string(),
            timestamp: i,
            open: d(price),
            high: d(price + 10.0),
            low: d(price - 10.0),
            close: d(price + 5.0),
            volume: 1000 + (i % 100) as u64,
            bid: d(price + 4.0),
            ask: d(price + 6.0),
        };

        storage.push(data);
    }

    let window = storage.get_window("BTCUSDT").unwrap();

    // Test typical strategy calculations
    let high_20 = window.high(20).unwrap();
    let low_20 = window.low(20).unwrap();
    let range_20 = window.range(20).unwrap();
    let avg_vol = window.avg_volume(20).unwrap();

    // Verify reasonable values
    assert!(f(high_20) > f(low_20));
    assert!(f(range_20) > 0.0);
    assert!(avg_vol > 0);

    // Latest should be accessible
    let latest = window.latest().unwrap();
    assert_eq!(latest.timestamp, 99);
}

#[test]
fn test_window_with_realistic_queries() {
    let mut storage = MarketDataStorage::new(500);

    // Simulate 100 bars of data
    for i in 0..100 {
        let data = MarketData {
            symbol: "BTCUSDT".to_string(),
            timestamp: i,
            open: d(50000.0 + (i as f64 * 10.0)),
            high: d(50100.0 + (i as f64 * 10.0)),
            low: d(49900.0 + (i as f64 * 10.0)),
            close: d(50050.0 + (i as f64 * 10.0)),
            volume: 1000,
            bid: d(50049.0 + (i as f64 * 10.0)),
            ask: d(50051.0 + (i as f64 * 10.0)),
        };
        storage.push(data);
    }

    let window = storage.get_window("BTCUSDT").unwrap();

    // Test various query periods (common in trading)
    let high_20 = window.high(20).unwrap();
    let high_50 = window.high(50).unwrap();
    let high_100 = window.high(100).unwrap();

    let low_20 = window.low(20).unwrap();
    let low_50 = window.low(50).unwrap();

    let range_20 = window.range(20).unwrap();
    let range_50 = window.range(50).unwrap();

    // Verify queries work
    assert!(f(high_20) > 0.0);
    assert!(f(high_50) > 0.0);
    assert!(f(high_100) > 0.0);
    assert!(f(low_20) > 0.0);
    assert!(f(low_50) > 0.0);
    assert!(f(range_20) > 0.0);
    assert!(f(range_50) > 0.0);
}
