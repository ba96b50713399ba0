//! How a deployment is configured: where bars come from and how many are
//! kept.

use vstd::prelude::*;
use crate::decimal::Decimal;

verus! {

/// Which kind of source feeds the engine.
#[derive(Debug, Clone, Copy, PartialEq, Eq, Structural, Hash)]
pub enum DataSourceType {
    Binance,
    Alpaca,
    Simulated,
    Csv,
}

/// Settings of a Binance stream.
#[derive(Debug, PartialEq, Eq)]
pub struct BinanceConfig {
    pub symbols: Vec<String>,
    /// The bar interval, for example "1m".
    pub interval: String,
}

/// Settings of an Alpaca stream. The keys are named by the environment
/// variables that hold them.
#[derive(Debug, PartialEq, Eq)]
pub struct AlpacaConfig {
    pub api_key_env: String,
    pub secret_key_env: String,
    pub symbols: Vec<String>,
}

/// Settings of a simulated feed.
#[derive(Debug, PartialEq, Eq)]
pub struct SimulatedConfig {
    pub symbol: String,
    pub starting_price: Decimal,
}

/// Settings of a feed that replays a file.
#[derive(Debug, PartialEq, Eq)]
pub struct CsvConfig {
    pub path: String,
}

/// How many bars each window keeps.
#[derive(Debug, Clone, Copy, PartialEq, Eq, Structural)]
pub struct StorageConfig {
    pub window_size: usize,
}

/// The settings that go with one kind of source.
#[derive(Debug, PartialEq, Eq)]
pub enum DataSourceSpecific {
    Binance(BinanceConfig),
    Alpaca(AlpacaConfig),
    Simulated(SimulatedConfig),
    Csv(CsvConfig),
}

impl DataSourceSpecific {
    /// The kind of source these settings are for.
    pub fn source_type(&self) -> (kind: DataSourceType)
        ensures
            kind == match self {
                DataSourceSpecific::Binance(_) => DataSourceType::Binance,
                DataSourceSpecific::Alpaca(_) => DataSourceType::Alpaca,
                DataSourceSpecific::Simulated(_) => DataSourceType::Simulated,
                DataSourceSpecific::Csv(_) => DataSourceType::Csv,
            },
    {
        match self {
            DataSourceSpecific::Binance(_) => DataSourceType::Binance,
            DataSourceSpecific::Alpaca(_) => DataSourceType::Alpaca,
            DataSourceSpecific::Simulated(_) => DataSourceType::Simulated,
            DataSourceSpecific::Csv(_) => DataSourceType::Csv,
        }
    }
}

/// The source of bars: its kind and, where given, its settings.
#[derive(Debug, PartialEq, Eq)]
pub struct DataSourceConfig {
    pub source_type: DataSourceType,
    pub specific: Option<DataSourceSpecific>,
}

impl DataSourceConfig {
    /// The settings, when given, are for the kind that is named.
    pub open spec fn is_consistent(&self) -> bool {
        match self.specific {
            Some(DataSourceSpecific::Binance(_)) => self.source_type == DataSourceType::Binance,
            Some(DataSourceSpecific::Alpaca(_)) => self.source_type == DataSourceType::Alpaca,
            Some(DataSourceSpecific::Simulated(_)) => self.source_type == DataSourceType::Simulated,
            Some(DataSourceSpecific::Csv(_)) => self.source_type == DataSourceType::Csv,
            None => true,
        }
    }

    /// Whether the settings, when given, are for the kind that is named.
    pub fn check_consistent(&self) -> (consistent: bool)
        ensures
            consistent == self.is_consistent(),
    {
        match &self.specific {
            Some(specific) => specific.source_type() == self.source_type,
            None => true,
        }
    }
}

/// Everything a deployment configures.
#[derive(Debug, PartialEq, Eq)]
pub struct EngineConfig {
    pub data_source: DataSourceConfig,
    pub storage: StorageConfig,
}

} // verus!
