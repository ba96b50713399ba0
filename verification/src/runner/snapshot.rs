//! Point-in-time copies of a runner, and the commands a runner obeys.

use vstd::prelude::*;
use crate::clock::{duration_secs, now_millis, whole_secs};
use crate::decimal::Decimal;
use crate::market_data::MarketData;
use crate::runner::stats::RunnerStats;
use crate::state_machine::context::{Context, ContextView, ValueTable};
use crate::state_machine::{Position, State};

verus! {

/// Whether a runner takes in bars.
#[derive(Debug, Clone, Copy, PartialEq, Eq, Structural, Hash)]
pub enum RunnerStatus {
    /// Bars are processed.
    Running,
    /// Bars are discarded; commands are still obeyed.
    Paused,
    /// The runner has ended or is about to.
    Stopped,
}

impl RunnerStatus {
    /// True exactly for [`RunnerStatus::Running`].
    pub fn is_active(&self) -> (active: bool)
        ensures
            active == (*self == RunnerStatus::Running),
    {
        matches!(self, RunnerStatus::Running)
    }

    /// True exactly for [`RunnerStatus::Paused`].
    pub fn is_paused(&self) -> (paused: bool)
        ensures
            paused == (*self == RunnerStatus::Paused),
    {
        matches!(self, RunnerStatus::Paused)
    }

    /// True exactly for [`RunnerStatus::Stopped`].
    pub fn is_stopped(&self) -> (stopped: bool)
        ensures
            stopped == (*self == RunnerStatus::Stopped),
    {
        matches!(self, RunnerStatus::Stopped)
    }
}

impl Default for RunnerStatus {
    /// A runner starts out running.
    fn default() -> (status: Self)
        ensures
            status == RunnerStatus::Running,
    {
        RunnerStatus::Running
    }
}

/// What a runner can be asked. The reply travels back on a channel that the
/// caller keeps.
#[derive(Debug, Clone, Copy, PartialEq, Eq)]
pub enum RunnerCommand {
    /// Reply with a [`RunnerSnapshot`].
    GetSnapshot,
    /// Reply with the last `count` bars, or with all of them.
    GetPriceHistory { count: Option<usize> },
    /// Stop processing bars until resumed.
    Pause,
    /// Process bars again.
    Resume,
    /// End the runner.
    Stop,
}

/// What a runner answers to a [`RunnerCommand`].
#[derive(Debug)]
pub enum RunnerReply {
    Snapshot(RunnerSnapshot),
    PriceHistory(Vec<MarketData>),
    /// Whether a pause, resume or stop took effect.
    Done(bool),
}

/// A copy of a context's four mappings.
#[derive(Debug)]
pub struct ContextSnapshot {
    pub strings: ValueTable<String>,
    pub numbers: ValueTable<Decimal>,
    pub integers: ValueTable<i64>,
    pub booleans: ValueTable<bool>,
}

impl View for ContextSnapshot {
    type V = ContextView;

    open spec fn view(&self) -> ContextView {
        ContextView {
            strings: self.strings@,
            numbers: self.numbers@,
            integers: self.integers@,
            booleans: self.booleans@,
        }
    }
}

impl Default for ContextSnapshot {
    fn default() -> (snapshot: Self)
        ensures
            snapshot@ == ContextView::blank(),
    {
        ContextSnapshot {
            strings: ValueTable::new(),
            numbers: ValueTable::new(),
            integers: ValueTable::new(),
            booleans: ValueTable::new(),
        }
    }
}

impl Clone for ContextSnapshot {
    fn clone(&self) -> (copy: Self)
        ensures
            copy@ == self@,
    {
        ContextSnapshot {
            strings: self.strings.duplicate_text(),
            numbers: self.numbers.duplicate(),
            integers: self.integers.duplicate(),
            booleans: self.booleans.duplicate(),
        }
    }
}

impl ContextSnapshot {
    /// A copy of what `context` holds.
    pub fn of(context: &Context) -> (snapshot: ContextSnapshot)
        ensures
            snapshot@ == context@,
    {
        ContextSnapshot {
            strings: context.strings.duplicate_text(),
            numbers: context.numbers.duplicate(),
            integers: context.integers.duplicate(),
            booleans: context.booleans.duplicate(),
        }
    }
}

/// A runner as it stood at one moment.
#[derive(Debug)]
pub struct RunnerSnapshot {
    pub runner_id: String,
    pub symbol: String,
    pub status: RunnerStatus,
    pub current_state: State,
    pub position: Option<Position>,
    pub context: ContextSnapshot,
    pub stats: RunnerStats,
    /// Whole seconds since the runner started.
    pub uptime_secs: u64,
    /// When the snapshot was taken, in milliseconds since the Unix epoch.
    pub snapshot_timestamp: i64,
}

impl RunnerSnapshot {
    /// A snapshot of the given parts, stamped with the present time.
    pub fn new(
        runner_id: String,
        symbol: String,
        status: RunnerStatus,
        current_state: State,
        position: Option<Position>,
        context: ContextSnapshot,
        stats: RunnerStats,
        uptime: std::time::Duration,
    ) -> (snapshot: RunnerSnapshot)
        ensures
            snapshot.runner_id == runner_id,
            snapshot.symbol == symbol,
            snapshot.status == status,
            snapshot.current_state == current_state,
            snapshot.position == position,
            snapshot.context == context,
            snapshot.stats == stats,
            snapshot.uptime_secs == duration_secs(uptime),
    {
        RunnerSnapshot {
            runner_id,
            symbol,
            status,
            current_state,
            position,
            context,
            stats,
            uptime_secs: whole_secs(&uptime),
            snapshot_timestamp: now_millis(),
        }
    }

    /// True when the snapshot shows a position.
    pub fn has_position(&self) -> (held: bool)
        ensures
            held == self.position is Some,
    {
        self.position.is_some()
    }

    /// The name of the state the snapshot shows.
    pub fn state_str(&self) -> (name: &str)
        ensures
            name@ == self.current_state.name(),
    {
        self.current_state.as_str()
    }
}

impl Clone for RunnerSnapshot {
    fn clone(&self) -> (copy: Self)
        ensures
            copy.runner_id == self.runner_id,
            copy.symbol == self.symbol,
            copy.status == self.status,
            copy.current_state == self.current_state,
            copy.position == self.position,
            copy.context@ == self.context@,
            copy.stats == self.stats,
            copy.uptime_secs == self.uptime_secs,
            copy.snapshot_timestamp == self.snapshot_timestamp,
    {
        RunnerSnapshot {
            runner_id: self.runner_id.clone(),
            symbol: self.symbol.clone(),
            status: self.status,
            current_state: self.current_state,
            position: self.position,
            context: self.context.clone(),
            stats: self.stats,
            uptime_secs: self.uptime_secs,
            snapshot_timestamp: self.snapshot_timestamp,
        }
    }
}

} // verus!
