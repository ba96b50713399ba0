//! The engine's error type.

use vstd::prelude::*;
use vstd::string::StringExecFns;
use crate::text::{decimal_digits, u64_to_string};

verus! {

/// Everything that can go wrong inside the engine. Each variant that has a
/// payload carries the human-readable detail.
#[derive(Debug, PartialEq, Eq)]
pub enum TradingEngineError {
    /// A data source's transport failed.
    WebSocketError(String),
    /// A data source was used before it was connected.
    NotConnected,
    /// A market bar broke an ingest rule.
    InvalidData(String),
    /// A data source gave up reconnecting after this many attempts.
    ReconnectionFailed(u32),
    /// Text could not be parsed.
    ParseError(String),
    /// Reading or writing failed.
    IoError(String),
    /// A configuration was malformed.
    ConfigError(String),
    /// A strategy returned something the adapter cannot accept.
    StrategyError(String),
    /// A strategy script failed to load or raised an error.
    ScriptError(String),
    /// A runner with this id is already registered.
    RunnerAlreadyExists(String),
    /// No runner with this id is registered.
    RunnerNotFound(String),
    /// No runner is subscribed to this symbol.
    NoRunnersForSymbol(String),
    /// The inbox of this runner is closed.
    ChannelClosed(String),
    /// The task of this runner panicked.
    TaskPanic(String),
}

impl Clone for TradingEngineError {
    fn clone(&self) -> (copy: Self)
        ensures
            copy == *self,
    {
        match self {
            TradingEngineError::WebSocketError(m) => TradingEngineError::WebSocketError(m.clone()),
            TradingEngineError::NotConnected => TradingEngineError::NotConnected,
            TradingEngineError::InvalidData(m) => TradingEngineError::InvalidData(m.clone()),
            TradingEngineError::ReconnectionFailed(n) => TradingEngineError::ReconnectionFailed(*n),
            TradingEngineError::ParseError(m) => TradingEngineError::ParseError(m.clone()),
            TradingEngineError::IoError(m) => TradingEngineError::IoError(m.clone()),
            TradingEngineError::ConfigError(m) => TradingEngineError::ConfigError(m.clone()),
            TradingEngineError::StrategyError(m) => TradingEngineError::StrategyError(m.clone()),
            TradingEngineError::ScriptError(m) => TradingEngineError::ScriptError(m.clone()),
            TradingEngineError::RunnerAlreadyExists(m) => TradingEngineError::RunnerAlreadyExists(
                m.clone(),
            ),
            TradingEngineError::RunnerNotFound(m) => TradingEngineError::RunnerNotFound(m.clone()),
            TradingEngineError::NoRunnersForSymbol(m) => TradingEngineError::NoRunnersForSymbol(
                m.clone(),
            ),
            TradingEngineError::ChannelClosed(m) => TradingEngineError::ChannelClosed(m.clone()),
            TradingEngineError::TaskPanic(m) => TradingEngineError::TaskPanic(m.clone()),
        }
    }
}

impl TradingEngineError {
    /// The text that introduces the variant's detail.
    pub open spec fn prefix(self) -> Seq<char> {
        match self {
            TradingEngineError::WebSocketError(_) => "WebSocket error: "@,
            TradingEngineError::NotConnected => "Data source not connected"@,
            TradingEngineError::InvalidData(_) => "Invalid market data: "@,
            TradingEngineError::ReconnectionFailed(_) => "Reconnection failed after "@,
            TradingEngineError::ParseError(_) => "Parsing error: "@,
            TradingEngineError::IoError(_) => "IO error: "@,
            TradingEngineError::ConfigError(_) => "Configuration error: "@,
            TradingEngineError::StrategyError(_) => "Strategy error: "@,
            TradingEngineError::ScriptError(_) => "Script error: "@,
            TradingEngineError::RunnerAlreadyExists(_) => "Runner already exists: "@,
            TradingEngineError::RunnerNotFound(_) => "Runner not found: "@,
            TradingEngineError::NoRunnersForSymbol(_) => "No runners for symbol: "@,
            TradingEngineError::ChannelClosed(_) => "Channel closed for runner: "@,
            TradingEngineError::TaskPanic(_) => "Runner task panicked: "@,
        }
    }

    /// The variant's detail as text.
    pub open spec fn detail(self) -> Seq<char> {
        match self {
            TradingEngineError::WebSocketError(m) => m@,
            TradingEngineError::NotConnected => Seq::empty(),
            TradingEngineError::InvalidData(m) => m@,
            TradingEngineError::ReconnectionFailed(n) => decimal_digits(n as nat) + " attempts"@,
            TradingEngineError::ParseError(m) => m@,
            TradingEngineError::IoError(m) => m@,
            TradingEngineError::ConfigError(m) => m@,
            TradingEngineError::StrategyError(m) => m@,
            TradingEngineError::ScriptError(m) => m@,
            TradingEngineError::RunnerAlreadyExists(m) => m@,
            TradingEngineError::RunnerNotFound(m) => m@,
            TradingEngineError::NoRunnersForSymbol(m) => m@,
            TradingEngineError::ChannelClosed(m) => m@,
            TradingEngineError::TaskPanic(m) => m@,
        }
    }

    /// The whole human-readable message.
    pub open spec fn message(self) -> Seq<char> {
        self.prefix() + self.detail()
    }

    /// The static text that introduces the variant's detail.
    fn prefix_str(&self) -> (text: &'static str)
        ensures
            text@ == self.prefix(),
    {
        match self {
            TradingEngineError::WebSocketError(_) => "WebSocket error: ",
            TradingEngineError::NotConnected => "Data source not connected",
            TradingEngineError::InvalidData(_) => "Invalid market data: ",
            TradingEngineError::ReconnectionFailed(_) => "Reconnection failed after ",
            TradingEngineError::ParseError(_) => "Parsing error: ",
            TradingEngineError::IoError(_) => "IO error: ",
            TradingEngineError::ConfigError(_) => "Configuration error: ",
            TradingEngineError::StrategyError(_) => "Strategy error: ",
            TradingEngineError::ScriptError(_) => "Script error: ",
            TradingEngineError::RunnerAlreadyExists(_) => "Runner already exists: ",
            TradingEngineError::RunnerNotFound(_) => "Runner not found: ",
            TradingEngineError::NoRunnersForSymbol(_) => "No runners for symbol: ",
            TradingEngineError::ChannelClosed(_) => "Channel closed for runner: ",
            TradingEngineError::TaskPanic(_) => "Runner task panicked: ",
        }
    }

    /// The human-readable message of the error.
    pub fn to_string(&self) -> (text: String)
        ensures
            text@ == self.message(),
    {
        let mut text = String::from_str(self.prefix_str());
        match self {
            TradingEngineError::NotConnected => {
                assert(text@ =~= self.message());
            },
            TradingEngineError::ReconnectionFailed(n) => {
                let digits = u64_to_string(*n as u64);
                text.append(digits.as_str());
                text.append(" attempts");
                assert(text@ =~= self.message());
            },
            TradingEngineError::WebSocketError(m)
            | TradingEngineError::InvalidData(m)
            | TradingEngineError::ParseError(m)
            | TradingEngineError::IoError(m)
            | TradingEngineError::ConfigError(m)
            | TradingEngineError::StrategyError(m)
            | TradingEngineError::ScriptError(m)
            | TradingEngineError::RunnerAlreadyExists(m)
            | TradingEngineError::RunnerNotFound(m)
            | TradingEngineError::NoRunnersForSymbol(m)
            | TradingEngineError::ChannelClosed(m)
            | TradingEngineError::TaskPanic(m) => {
                text.append(m.as_str());
            },
        }
        text
    }
}

} // verus!
