//! Core of a multi-symbol trading engine: market bars, a bounded bar window,
//! position accounting, the three-state trading machine, the per-symbol runner
//! and the supervisor's routing table.
//!
//! Prices, quantities and other fractional values are fixed-point decimals
//! ([`decimal::Decimal`]), so every amount the engine computes is exact.

pub mod api;
pub mod clock;
pub mod config;
pub mod decimal;
pub mod error;
pub mod events;
pub mod indicators;
pub mod market_data;
pub mod runner;
pub mod sources;
pub mod state_machine;
pub mod storage;
pub mod strategy;
pub mod text;

pub use error::TradingEngineError;
pub use market_data::{MarketData, MarketDataWindow};
pub use storage::MarketDataStorage;
