//! What runners and the supervisor report while they work.

use vstd::prelude::*;
use crate::decimal::Decimal;
use crate::market_data::MarketData;
use crate::state_machine::action::ActionView;
use crate::state_machine::position::PositionView;
use crate::state_machine::{Action, Position, State};

verus! {

/// How grave a reported error is.
#[derive(Debug, Clone, Copy, PartialEq, Eq, Structural, Hash)]
pub enum ErrorSeverity {
    /// Worth a look; the runner goes on.
    Warning,
    /// A tick failed; the runner goes on.
    Error,
    /// A tick failed and the runner ends.
    Critical,
}

/// One report from a runner's life. Every event names its runner and carries
/// a time in milliseconds.
#[derive(Debug, PartialEq, Eq)]
pub enum RunnerEvent {
    RunnerStarted { runner_id: String, symbol: String, timestamp: i64 },
    RunnerStopped { runner_id: String, reason: String, timestamp: i64 },
    TickReceived { runner_id: String, symbol: String, data: MarketData },
    StateTransition { runner_id: String, from: State, to: State, reason: String, timestamp: i64 },
    ActionExecuted { runner_id: String, action: Action, timestamp: i64 },
    PositionOpened { runner_id: String, position: Position, timestamp: i64 },
    /// `unrealized_pnl` is in units of 10^-16.
    PositionUpdated { runner_id: String, current_price: Decimal, unrealized_pnl: i128, timestamp: i64 },
    /// `realized_pnl` is in units of 10^-16.
    PositionClosed {
        runner_id: String,
        exit_price: Decimal,
        realized_pnl: i128,
        reason: String,
        timestamp: i64,
    },
    Error { runner_id: String, error: String, severity: ErrorSeverity, timestamp: i64 },
    /// `error_rate` is errors per thousand ticks; `avg_tick_duration` is in
    /// nanoseconds.
    StatsUpdate {
        runner_id: String,
        ticks_processed: u64,
        actions_executed: u64,
        error_rate: Decimal,
        avg_tick_duration: u64,
        timestamp: i64,
    },
}

/// A [`RunnerEvent`] with its texts as sequences of characters, its action
/// and its position as what they hold.
pub enum RunnerEventView {
    RunnerStarted { runner_id: Seq<char>, symbol: Seq<char>, timestamp: i64 },
    RunnerStopped { runner_id: Seq<char>, reason: Seq<char>, timestamp: i64 },
    TickReceived { runner_id: Seq<char>, symbol: Seq<char>, data: MarketData },
    StateTransition {
        runner_id: Seq<char>,
        from: State,
        to: State,
        reason: Seq<char>,
        timestamp: i64,
    },
    ActionExecuted { runner_id: Seq<char>, action: ActionView, timestamp: i64 },
    PositionOpened { runner_id: Seq<char>, position: PositionView, timestamp: i64 },
    PositionUpdated {
        runner_id: Seq<char>,
        current_price: Decimal,
        unrealized_pnl: i128,
        timestamp: i64,
    },
    PositionClosed {
        runner_id: Seq<char>,
        exit_price: Decimal,
        realized_pnl: i128,
        reason: Seq<char>,
        timestamp: i64,
    },
    Error { runner_id: Seq<char>, error: Seq<char>, severity: ErrorSeverity, timestamp: i64 },
    StatsUpdate {
        runner_id: Seq<char>,
        ticks_processed: u64,
        actions_executed: u64,
        error_rate: Decimal,
        avg_tick_duration: u64,
        timestamp: i64,
    },
}

impl View for RunnerEvent {
    type V = RunnerEventView;

    open spec fn view(&self) -> RunnerEventView {
        match *self {
            RunnerEvent::RunnerStarted { runner_id, symbol, timestamp } => {
                RunnerEventView::RunnerStarted { runner_id: runner_id@, symbol: symbol@, timestamp }
            },
            RunnerEvent::RunnerStopped { runner_id, reason, timestamp } => {
                RunnerEventView::RunnerStopped { runner_id: runner_id@, reason: reason@, timestamp }
            },
            RunnerEvent::TickReceived { runner_id, symbol, data } => {
                RunnerEventView::TickReceived { runner_id: runner_id@, symbol: symbol@, data }
            },
            RunnerEvent::StateTransition { runner_id, from, to, reason, timestamp } => {
                RunnerEventView::StateTransition {
                    runner_id: runner_id@,
                    from,
                    to,
                    reason: reason@,
                    timestamp,
                }
            },
            RunnerEvent::ActionExecuted { runner_id, action, timestamp } => {
                RunnerEventView::ActionExecuted { runner_id: runner_id@, action: action@, timestamp }
            },
            RunnerEvent::PositionOpened { runner_id, position, timestamp } => {
                RunnerEventView::PositionOpened {
                    runner_id: runner_id@,
                    position: position@,
                    timestamp,
                }
            },
            RunnerEvent::PositionUpdated { runner_id, current_price, unrealized_pnl, timestamp } => {
                RunnerEventView::PositionUpdated {
                    runner_id: runner_id@,
                    current_price,
                    unrealized_pnl,
                    timestamp,
                }
            },
            RunnerEvent::PositionClosed {
                runner_id,
                exit_price,
                realized_pnl,
                reason,
                timestamp,
            } => RunnerEventView::PositionClosed {
                runner_id: runner_id@,
                exit_price,
                realized_pnl,
                reason: reason@,
                timestamp,
            },
            RunnerEvent::Error { runner_id, error, severity, timestamp } => RunnerEventView::Error {
                runner_id: runner_id@,
                error: error@,
                severity,
                timestamp,
            },
            RunnerEvent::StatsUpdate {
                runner_id,
                ticks_processed,
                actions_executed,
                error_rate,
                avg_tick_duration,
                timestamp,
            } => RunnerEventView::StatsUpdate {
                runner_id: runner_id@,
                ticks_processed,
                actions_executed,
                error_rate,
                avg_tick_duration,
                timestamp,
            },
        }
    }
}

/// The views of `events`, in order.
pub open spec fn event_views(events: Seq<RunnerEvent>) -> Seq<RunnerEventView> {
    events.map_values(|event: RunnerEvent| event@)
}

impl RunnerEventView {
    /// Where a kind of event stands within one tick: the tick itself first,
    /// then the action, the opened position, the change of state, and last
    /// the position's update or its closing, which share a place.
    /// Kinds that no tick emits have no place.
    pub open spec fn place_in_tick(self) -> Option<nat> {
        match self {
            RunnerEventView::TickReceived { .. } => Some(0),
            RunnerEventView::ActionExecuted { .. } => Some(1),
            RunnerEventView::PositionOpened { .. } => Some(2),
            RunnerEventView::StateTransition { .. } => Some(3),
            RunnerEventView::PositionUpdated { .. } => Some(4),
            RunnerEventView::PositionClosed { .. } => Some(4),
            _ => None,
        }
    }
}

impl Clone for RunnerEvent {
    fn clone(&self) -> (copy: Self)
        ensures
            copy == *self,
    {
        match self {
            RunnerEvent::RunnerStarted { runner_id, symbol, timestamp } => {
                RunnerEvent::RunnerStarted {
                    runner_id: runner_id.clone(),
                    symbol: symbol.clone(),
                    timestamp: *timestamp,
                }
            },
            RunnerEvent::RunnerStopped { runner_id, reason, timestamp } => {
                RunnerEvent::RunnerStopped {
                    runner_id: runner_id.clone(),
                    reason: reason.clone(),
                    timestamp: *timestamp,
                }
            },
            RunnerEvent::TickReceived { runner_id, symbol, data } => RunnerEvent::TickReceived {
                runner_id: runner_id.clone(),
                symbol: symbol.clone(),
                data: data.clone(),
            },
            RunnerEvent::StateTransition { runner_id, from, to, reason, timestamp } => {
                RunnerEvent::StateTransition {
                    runner_id: runner_id.clone(),
                    from: *from,
                    to: *to,
                    reason: reason.clone(),
                    timestamp: *timestamp,
                }
            },
            RunnerEvent::ActionExecuted { runner_id, action, timestamp } => {
                RunnerEvent::ActionExecuted {
                    runner_id: runner_id.clone(),
                    action: action.clone(),
                    timestamp: *timestamp,
                }
            },
            RunnerEvent::PositionOpened { runner_id, position, timestamp } => {
                RunnerEvent::PositionOpened {
                    runner_id: runner_id.clone(),
                    position: *position,
                    timestamp: *timestamp,
                }
            },
            RunnerEvent::PositionUpdated { runner_id, current_price, unrealized_pnl, timestamp } => {
                RunnerEvent::PositionUpdated {
                    runner_id: runner_id.clone(),
                    current_price: *current_price,
                    unrealized_pnl: *unrealized_pnl,
                    timestamp: *timestamp,
                }
            },
            RunnerEvent::PositionClosed {
                runner_id,
                exit_price,
                realized_pnl,
                reason,
                timestamp,
            } => RunnerEvent::PositionClosed {
                runner_id: runner_id.clone(),
                exit_price: *exit_price,
                realized_pnl: *realized_pnl,
                reason: reason.clone(),
                timestamp: *timestamp,
            },
            RunnerEvent::Error { runner_id, error, severity, timestamp } => RunnerEvent::Error {
                runner_id: runner_id.clone(),
                error: error.clone(),
                severity: *severity,
                timestamp: *timestamp,
            },
            RunnerEvent::StatsUpdate {
                runner_id,
                ticks_processed,
                actions_executed,
                error_rate,
                avg_tick_duration,
                timestamp,
            } => RunnerEvent::StatsUpdate {
                runner_id: runner_id.clone(),
                ticks_processed: *ticks_processed,
                actions_executed: *actions_executed,
                error_rate: *error_rate,
                avg_tick_duration: *avg_tick_duration,
                timestamp: *timestamp,
            },
        }
    }
}

impl RunnerEvent {
    /// The id of the runner the event is about.
    pub open spec fn spec_runner_id(&self) -> Seq<char> {
        match self {
            RunnerEvent::RunnerStarted { runner_id, .. } => runner_id@,
            RunnerEvent::RunnerStopped { runner_id, .. } => runner_id@,
            RunnerEvent::TickReceived { runner_id, .. } => runner_id@,
            RunnerEvent::StateTransition { runner_id, .. } => runner_id@,
            RunnerEvent::ActionExecuted { runner_id, .. } => runner_id@,
            RunnerEvent::PositionOpened { runner_id, .. } => runner_id@,
            RunnerEvent::PositionUpdated { runner_id, .. } => runner_id@,
            RunnerEvent::PositionClosed { runner_id, .. } => runner_id@,
            RunnerEvent::Error { runner_id, .. } => runner_id@,
            RunnerEvent::StatsUpdate { runner_id, .. } => runner_id@,
        }
    }

    /// The event's time: its own stamp, or the bar's time for a tick.
    pub open spec fn spec_timestamp(&self) -> i64 {
        match self {
            RunnerEvent::RunnerStarted { timestamp, .. } => *timestamp,
            RunnerEvent::RunnerStopped { timestamp, .. } => *timestamp,
            RunnerEvent::TickReceived { data, .. } => data.timestamp,
            RunnerEvent::StateTransition { timestamp, .. } => *timestamp,
            RunnerEvent::ActionExecuted { timestamp, .. } => *timestamp,
            RunnerEvent::PositionOpened { timestamp, .. } => *timestamp,
            RunnerEvent::PositionUpdated { timestamp, .. } => *timestamp,
            RunnerEvent::PositionClosed { timestamp, .. } => *timestamp,
            RunnerEvent::Error { timestamp, .. } => *timestamp,
            RunnerEvent::StatsUpdate { timestamp, .. } => *timestamp,
        }
    }

    /// The id of the runner the event is about.
    pub fn runner_id(&self) -> (id: &str)
        ensures
            id@ == self.spec_runner_id(),
    {
        match self {
            RunnerEvent::RunnerStarted { runner_id, .. } => runner_id.as_str(),
            RunnerEvent::RunnerStopped { runner_id, .. } => runner_id.as_str(),
            RunnerEvent::TickReceived { runner_id, .. } => runner_id.as_str(),
            RunnerEvent::StateTransition { runner_id, .. } => runner_id.as_str(),
            RunnerEvent::ActionExecuted { runner_id, .. } => runner_id.as_str(),
            RunnerEvent::PositionOpened { runner_id, .. } => runner_id.as_str(),
            RunnerEvent::PositionUpdated { runner_id, .. } => runner_id.as_str(),
            RunnerEvent::PositionClosed { runner_id, .. } => runner_id.as_str(),
            RunnerEvent::Error { runner_id, .. } => runner_id.as_str(),
            RunnerEvent::StatsUpdate { runner_id, .. } => runner_id.as_str(),
        }
    }

    /// The event's time in milliseconds; every kind has one.
    pub fn timestamp(&self) -> (timestamp: Option<i64>)
        ensures
            timestamp == Some(self.spec_timestamp()),
    {
        match self {
            RunnerEvent::RunnerStarted { timestamp, .. } => Some(*timestamp),
            RunnerEvent::RunnerStopped { timestamp, .. } => Some(*timestamp),
            RunnerEvent::TickReceived { data, .. } => Some(data.timestamp),
            RunnerEvent::StateTransition { timestamp, .. } => Some(*timestamp),
            RunnerEvent::ActionExecuted { timestamp, .. } => Some(*timestamp),
            RunnerEvent::PositionOpened { timestamp, .. } => Some(*timestamp),
            RunnerEvent::PositionUpdated { timestamp, .. } => Some(*timestamp),
            RunnerEvent::PositionClosed { timestamp, .. } => Some(*timestamp),
            RunnerEvent::Error { timestamp, .. } => Some(*timestamp),
            RunnerEvent::StatsUpdate { timestamp, .. } => Some(*timestamp),
        }
    }

    /// True for the kinds that come with every tick: `TickReceived` and
    /// `PositionUpdated`.
    pub fn is_high_frequency(&self) -> (frequent: bool)
        ensures
            frequent == (self is TickReceived || self is PositionUpdated),
    {
        matches!(self, RunnerEvent::TickReceived { .. } | RunnerEvent::PositionUpdated { .. })
    }

    /// True for a runner that stopped and for an error of critical severity.
    pub fn is_critical(&self) -> (critical: bool)
        ensures
            critical == (self is RunnerStopped || (self is Error && self->Error_severity
                == ErrorSeverity::Critical)),
    {
        match self {
            RunnerEvent::Error { severity, .. } => matches!(severity, ErrorSeverity::Critical),
            RunnerEvent::RunnerStopped { .. } => true,
            _ => false,
        }
    }
}

} // verus!
