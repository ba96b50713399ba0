use trading_engine::api::{
    default_window_size, AddRunnerRequest, AddRunnerResponse, ApiError, ControlResponse,
    EngineHealthResponse, EngineSummaryResponse, ErrorResponse, HealthResponse, ServerConfig,
};
use trading_engine::config::{
    CsvConfig, DataSourceConfig, DataSourceSpecific, DataSourceType,
};
use trading_engine::runner::TradingEngine;
use trading_engine::sources::BinanceRegion;

#[test]
fn test_error_codes() {
    assert_eq!(ApiError::RunnerNotFound("test".to_string()).error_code(), "RUNNER_NOT_FOUND");
    assert_eq!(ApiError::InvalidRequest("test".to_string()).error_code(), "INVALID_REQUEST");
    assert_eq!(ApiError::EngineError("test".to_string()).error_code(), "ENGINE_ERROR");
}

#[test]
fn test_status_codes() {
    assert_eq!(ApiError::RunnerNotFound("test".to_string()).status_code(), 404);
    assert_eq!(ApiError::InvalidRequest("test".to_string()).status_code(), 400);
    assert_eq!(ApiError::InternalError.status_code(), 500);
}

#[test]
fn test_default_config() {
    let config = ServerConfig::default();
    assert_eq!(config.host, "127.0.0.1");
    assert_eq!(config.port, 3000);
    assert!(config.enable_cors);
}

#[test]
fn server_address_joins_host_and_port() {
    assert_eq!(ServerConfig::default().address(), "127.0.0.1:3000");
    let config = ServerConfig { host: "h".to_string(), port: 0, enable_cors: false };
    assert_eq!(config.address(), "h:0");
    let config = ServerConfig { host: "h".to_string(), port: 65535, enable_cors: false };
    assert_eq!(config.clone().address(), "h:65535");
}

#[test]
fn error_bodies_carry_code_and_message() {
    let error = ApiError::StrategyError("bad script".to_string());
    assert_eq!(error.error_code(), "STRATEGY_ERROR");
    assert_eq!(error.status_code(), 400);
    assert_eq!(error.to_string(), "Strategy error: bad script");
    let body = ErrorResponse::of(&error, 99);
    assert_eq!(body.status, "error");
    assert_eq!(body.error.code, "STRATEGY_ERROR");
    assert_eq!(body.error.message, "Strategy error: bad script");
    assert_eq!(body.timestamp, 99);
    assert_eq!(ApiError::InternalError.to_string(), "Internal server error");
    assert_eq!(ApiError::InternalError.error_code(), "INTERNAL_ERROR");
    assert_eq!(ApiError::EngineError("x".to_string()).status_code(), 500);
    assert_eq!(ApiError::RunnerNotFound("r1".to_string()).to_string(), "Runner not found: r1");
    assert_eq!(ApiError::InvalidRequest("q".to_string()).to_string(), "Invalid request: q");
    assert_eq!(ApiError::EngineError("e".to_string()).to_string(), "Engine error: e");
}

#[test]
fn control_answers() {
    assert_eq!(
        ControlResponse::paused("r1", true),
        ControlResponse { success: true, message: "Runner 'r1' paused successfully".to_string() }
    );
    assert_eq!(
        ControlResponse::paused("r1", false).message,
        "Runner 'r1' was not in a running state"
    );
    assert_eq!(ControlResponse::resumed("r1", true).message, "Runner 'r1' resumed successfully");
    assert_eq!(ControlResponse::resumed("r1", false).message, "Runner 'r1' was not in a paused state");
    assert_eq!(ControlResponse::stopped("r1", true).message, "Runner 'r1' stopped successfully");
}

#[test]
fn add_runner_requests_are_checked() {
    let engine = TradingEngine::new();
    let request = |id: &str, symbol: &str| AddRunnerRequest {
        runner_id: id.to_string(),
        symbol: symbol.to_string(),
        strategy_path: "s.lua".to_string(),
        window_size: default_window_size(),
    };
    assert_eq!(default_window_size(), 200);
    assert_eq!(request("a", "BTC").validate(&engine), Ok(()));
    assert_eq!(
        request("", "BTC").validate(&engine),
        Err(ApiError::InvalidRequest("runner_id cannot be empty".to_string()))
    );
    assert_eq!(
        request("a", "").validate(&engine),
        Err(ApiError::InvalidRequest("symbol cannot be empty".to_string()))
    );
    assert_eq!(
        AddRunnerResponse::created("a".to_string(), "BTC".to_string()).message,
        "Runner created successfully"
    );
}

#[test]
fn health_of_an_empty_engine() {
    let engine = TradingEngine::new();
    let health = EngineHealthResponse::of(&engine, 5);
    assert_eq!(health.status, "ok");
    assert_eq!(health.runners_count, 0);
    assert_eq!(health.healthy_runners, 0);
    assert_eq!(health.timestamp, 5);
    let summary = EngineSummaryResponse::of(&engine, 6);
    assert_eq!(summary.total_runners, 0);
    assert!(summary.active_symbols.is_empty());
    assert!(summary.runners.is_empty());
    let up = HealthResponse::ok(7, "1.0".to_string());
    assert_eq!(up.status, "ok");
    assert_eq!(up.version, "1.0");
}

#[test]
fn source_settings_match_their_kind() {
    let csv = DataSourceSpecific::Csv(CsvConfig { path: "bars.csv".to_string() });
    assert_eq!(csv.source_type(), DataSourceType::Csv);
    let good = DataSourceConfig { source_type: DataSourceType::Csv, specific: Some(csv) };
    assert!(good.check_consistent());
    let bad = DataSourceConfig {
        source_type: DataSourceType::Binance,
        specific: Some(DataSourceSpecific::Csv(CsvConfig { path: "bars.csv".to_string() })),
    };
    assert!(!bad.check_consistent());
    let bare = DataSourceConfig { source_type: DataSourceType::Alpaca, specific: None };
    assert!(bare.check_consistent());
    assert_eq!(BinanceRegion::US.ws_base_url(), "wss://stream.binance.us:9443");
    assert_eq!(BinanceRegion::International.ws_base_url(), "wss://stream.binance.com:9443");
}
