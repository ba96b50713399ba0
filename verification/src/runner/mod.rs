//! The per-symbol runner and the supervisor that routes bars to runners.
//!
//! A [`SymbolRunner`] owns one symbol's window, trading machine, strategy and
//! statistics. It takes one input at a time, a bar or a command, and says
//! what it emitted and whether its loop goes on. Waiting for inputs and
//! carrying events and replies are left to whoever drives it.

pub mod config;
pub mod engine;
pub mod machine;
pub mod snapshot;
pub mod stats;

pub use config::RunnerConfig;
pub use engine::TradingEngine;
pub use machine::SettledMachine;
pub use snapshot::{ContextSnapshot, RunnerCommand, RunnerReply, RunnerSnapshot, RunnerStatus};
pub use stats::RunnerStats;

use vstd::prelude::*;
use vstd::string::StringExecFns;
use crate::clock::{elapsed_since, monotonic_now, now_millis, whole_nanos};
use crate::decimal::Decimal;
use crate::error::TradingEngineError;
use crate::events::{event_views, ErrorSeverity, RunnerEvent, RunnerEventView};
use crate::market_data::window::{last_bars, pushed};
use crate::market_data::{MarketData, MarketDataWindow};
use crate::runner::stats::capped_sum;
use crate::state_machine::action::ActionView;
use crate::state_machine::context::ContextView;
use crate::state_machine::position::PositionView;
use crate::state_machine::{Action, Context, MachineView, Position, State};
use crate::strategy::{number_in, IndicatorApi, ScriptRecord, ScriptValue, Strategy};

verus! {

/// What a strategy answered when it was asked during a tick.
#[derive(Debug)]
pub enum StrategyReply {
    /// The answer to `detect_opportunity`.
    Opportunity(Option<ScriptRecord>),
    /// The answer to `filter_commitment` or `manage_position`.
    Decision(Option<Action>),
}

/// Whether a runner's loop goes on after an input.
#[derive(Debug)]
pub enum LoopStep {
    /// Wait for the next input.
    Continue,
    /// The loop ends cleanly.
    Finished,
    /// The loop ends with this error.
    Failed(TradingEngineError),
}

/// What a [`SymbolRunner`] holds, apart from its strategy and its start
/// time.
pub struct RunnerView {
    pub runner_id: Seq<char>,
    pub symbol: Seq<char>,
    pub status: RunnerStatus,
    /// The bars in the window, oldest first.
    pub bars: Seq<MarketData>,
    /// The window's capacity.
    pub capacity: nat,
    pub machine: MachineView,
    pub config: RunnerConfig,
    pub stats: RunnerStats,
}

/// The context after the recognised fields of an opportunity are copied in:
/// "signal" when it is text and "confidence" when it is a number.
pub open spec fn noted(context: ContextView, record: Map<Seq<char>, ScriptValue>) -> ContextView {
    let with_signal = if record.contains_key("signal"@) && record["signal"@] is Text {
        ContextView {
            strings: context.strings.insert("signal"@, record["signal"@]->Text_0),
            ..context
        }
    } else {
        context
    };
    match number_in(record, "confidence"@) {
        Some(confidence) => ContextView {
            numbers: with_signal.numbers.insert("confidence"@, confidence),
            ..with_signal
        },
        None => with_signal,
    }
}

/// The action that a reply asks for: an opportunity starts the analysis, a
/// decision is the action itself.
pub open spec fn action_for(reply: StrategyReply) -> Option<ActionView> {
    match reply {
        StrategyReply::Opportunity(Some(_)) => Some(
            ActionView::StartAnalyzing { reason: "Strategy detected opportunity"@ },
        ),
        StrategyReply::Opportunity(None) => None,
        StrategyReply::Decision(Some(action)) => Some(action@),
        StrategyReply::Decision(None) => None,
    }
}

/// What an optional action holds.
pub open spec fn asked_view(action: Option<Action>) -> Option<ActionView> {
    match action {
        Some(asked) => Some(asked@),
        None => None,
    }
}

/// The events that report an applied action: the action itself and, for an
/// entry, the position it opened.
pub open spec fn action_events(
    runner_id: Seq<char>,
    action: Option<ActionView>,
    acted: MachineView,
    timestamp: i64,
) -> Seq<RunnerEventView> {
    match action {
        None => Seq::empty(),
        Some(applied) => {
            let executed = seq![
                RunnerEventView::ActionExecuted { runner_id, action: applied, timestamp },
            ];
            if (applied is EnterLong || applied is EnterShort) && acted.position is Some {
                executed.push(
                    RunnerEventView::PositionOpened {
                        runner_id,
                        position: acted.position.unwrap(),
                        timestamp,
                    },
                )
            } else {
                executed
            }
        },
    }
}

/// The event that reports a change of state over a tick, if there was one.
pub open spec fn transition_events(runner_id: Seq<char>, from: State, to: State, timestamp: i64)
    -> Seq<RunnerEventView> {
    if from != to {
        seq![
            RunnerEventView::StateTransition {
                runner_id,
                from,
                to,
                reason: "State machine transition"@,
                timestamp,
            },
        ]
    } else {
        Seq::empty()
    }
}

/// The event that reports the position at the end of a tick: an update while
/// one is open, a closing when the one held before the tick is gone.
pub open spec fn position_events(
    runner_id: Seq<char>,
    before: Option<PositionView>,
    done: MachineView,
    close: Decimal,
    timestamp: i64,
) -> Seq<RunnerEventView> {
    match done.position {
        Some(held) => match held.unrealized_pnl() {
            Some(pnl) => seq![
                RunnerEventView::PositionUpdated {
                    runner_id,
                    current_price: close,
                    unrealized_pnl: pnl as i128,
                    timestamp,
                },
            ],
            None => Seq::empty(),
        },
        None => if before is Some && done.last_exit is Some
            && done.last_exit.unwrap().0.exit is Some {
            let (closed, why) = done.last_exit.unwrap();
            seq![
                RunnerEventView::PositionClosed {
                    runner_id,
                    exit_price: closed.exit.unwrap().0,
                    realized_pnl: closed.realized_pnl().unwrap() as i128,
                    reason: why.text(),
                    timestamp,
                },
            ]
        } else {
            Seq::empty()
        },
    }
}

impl RunnerView {
    /// The runner after a bar has arrived: the bar is in the window and its
    /// close and time are in the context.
    pub open spec fn tick_begun(self, bar: MarketData) -> RunnerView {
        RunnerView {
            bars: pushed(self.bars, self.capacity, bar),
            machine: MachineView {
                context: self.machine.context.with_latest(bar.close, bar.timestamp),
                ..self.machine
            },
            ..self
        }
    }

    /// The event that announces `bar`.
    pub open spec fn tick_received(self, bar: MarketData) -> RunnerEventView {
        RunnerEventView::TickReceived { runner_id: self.runner_id, symbol: self.symbol, data: bar }
    }

    /// The runner after the strategy's reply is taken in: an opportunity's
    /// recognised fields are in the context.
    pub open spec fn replied(self, reply: StrategyReply) -> RunnerView {
        match reply {
            StrategyReply::Opportunity(Some(record)) => RunnerView {
                machine: MachineView {
                    context: noted(self.machine.context, record@),
                    ..self.machine
                },
                ..self
            },
            _ => self,
        }
    }

    /// The machine after `action`, if there is one, is applied.
    pub open spec fn acted(self, action: Option<ActionView>, now: i64) -> MachineView {
        match action {
            Some(applied) => self.machine.executed(applied, now),
            None => self.machine,
        }
    }

    /// The runner after the action is applied and the bar is taken in by
    /// the machine.
    pub open spec fn tick_finished(
        self,
        close: Decimal,
        timestamp: i64,
        action: Option<ActionView>,
        now: i64,
    ) -> RunnerView {
        RunnerView {
            machine: self.acted(action, now).updated(close, timestamp, now),
            stats: match action {
                Some(_) => RunnerStats {
                    actions_executed: capped_sum(self.stats.actions_executed, 1),
                    ..self.stats
                },
                None => self.stats,
            },
            ..self
        }
    }

    /// The events of the second half of a tick, in the order in which they
    /// are emitted.
    pub open spec fn finish_events(
        self,
        close: Decimal,
        timestamp: i64,
        action: Option<ActionView>,
        now: i64,
    ) -> Seq<RunnerEventView> {
        action_events(self.runner_id, action, self.acted(action, now), timestamp)
            + transition_events(
            self.runner_id,
            self.machine.state,
            self.acted(action, now).updated(close, timestamp, now).state,
            timestamp,
        ) + position_events(
            self.runner_id,
            self.machine.position,
            self.acted(action, now).updated(close, timestamp, now),
            close,
            timestamp,
        )
    }

    /// The runner after a whole tick in which the strategy answered `reply`,
    /// before the tick's duration is recorded.
    pub open spec fn ticked(self, bar: MarketData, reply: StrategyReply, now: i64) -> RunnerView {
        self.tick_begun(bar).replied(reply).tick_finished(
            bar.close,
            bar.timestamp,
            action_for(reply),
            now,
        )
    }

    /// The runner after one more tick of `duration` nanoseconds is counted.
    pub open spec fn counted(self, duration: u64) -> RunnerView {
        RunnerView { stats: self.stats.with_tick(duration), ..self }
    }

    /// The runner after a whole tick in which the strategy answered `reply`
    /// and which took `duration` nanoseconds.
    pub open spec fn tick_done(self, bar: MarketData, reply: StrategyReply, now: i64, duration: u64)
        -> RunnerView {
        self.ticked(bar, reply, now).counted(duration)
    }

    /// Every event of a whole tick in which the strategy answered `reply`.
    pub open spec fn tick_events(self, bar: MarketData, reply: StrategyReply, now: i64) -> Seq<
        RunnerEventView,
    > {
        seq![self.tick_received(bar)] + self.tick_begun(bar).replied(reply).finish_events(
            bar.close,
            bar.timestamp,
            action_for(reply),
            now,
        )
    }

    /// The runner after `command`.
    pub open spec fn commanded(self, command: RunnerCommand) -> RunnerView {
        match command {
            RunnerCommand::Pause => if self.status == RunnerStatus::Running {
                RunnerView { status: RunnerStatus::Paused, ..self }
            } else {
                self
            },
            RunnerCommand::Resume => if self.status == RunnerStatus::Paused {
                RunnerView { status: RunnerStatus::Running, ..self }
            } else {
                self
            },
            RunnerCommand::Stop => RunnerView { status: RunnerStatus::Stopped, ..self },
            _ => self,
        }
    }

    /// Whether a pause, resume or stop takes effect.
    pub open spec fn obeys(self, command: RunnerCommand) -> bool {
        match command {
            RunnerCommand::Pause => self.status == RunnerStatus::Running,
            RunnerCommand::Resume => self.status == RunnerStatus::Paused,
            RunnerCommand::Stop => true,
            _ => false,
        }
    }

    /// Whether a bar that arrives is processed: the runner is running and
    /// the bar is for its symbol.
    pub open spec fn takes(self, bar: MarketData) -> bool {
        self.status == RunnerStatus::Running && bar.symbol@ == self.symbol
    }
}

/// Whether `outcome` is what `strategy` answered when it was asked, in
/// `state`, about `bar`, with `context` and `indicators` in hand: the answer
/// of `detect_opportunity` while idle, of `filter_commitment` while
/// analyzing and of `manage_position` while a position is held, an error
/// passed on as it is.
pub open spec fn asked<S: Strategy>(
    strategy: &S,
    state: State,
    bar: MarketData,
    context: Context,
    indicators: IndicatorApi,
    outcome: Result<StrategyReply, TradingEngineError>,
) -> bool {
    match state {
        State::Idle => match outcome {
            Ok(StrategyReply::Opportunity(found)) => call_ensures(
                S::detect_opportunity,
                (strategy, &bar, &context, &indicators),
                Ok::<Option<ScriptRecord>, TradingEngineError>(found),
            ),
            Ok(StrategyReply::Decision(_)) => false,
            Err(error) => call_ensures(
                S::detect_opportunity,
                (strategy, &bar, &context, &indicators),
                Err::<Option<ScriptRecord>, TradingEngineError>(error),
            ),
        },
        State::Analyzing => match outcome {
            Ok(StrategyReply::Decision(decision)) => call_ensures(
                S::filter_commitment,
                (strategy, &bar, &context, &indicators),
                Ok::<Option<Action>, TradingEngineError>(decision),
            ),
            Ok(StrategyReply::Opportunity(_)) => false,
            Err(error) => call_ensures(
                S::filter_commitment,
                (strategy, &bar, &context, &indicators),
                Err::<Option<Action>, TradingEngineError>(error),
            ),
        },
        State::InPosition => match outcome {
            Ok(StrategyReply::Decision(decision)) => call_ensures(
                S::manage_position,
                (strategy, &bar, &context, &indicators),
                Ok::<Option<Action>, TradingEngineError>(decision),
            ),
            Ok(StrategyReply::Opportunity(_)) => false,
            Err(error) => call_ensures(
                S::manage_position,
                (strategy, &bar, &context, &indicators),
                Err::<Option<Action>, TradingEngineError>(error),
            ),
        },
    }
}

/// Whether `outcome` is what `strategy` answered when the runner `begun`,
/// which has just taken `bar` in, asked it: it was handed the bar, a context
/// that holds what the runner's context holds and an indicator view over the
/// runner's bars.
pub open spec fn asked_about<S: Strategy>(
    strategy: &S,
    begun: RunnerView,
    bar: MarketData,
    outcome: Result<StrategyReply, TradingEngineError>,
) -> bool {
    exists|context: Context, indicators: IndicatorApi|
        context@ == begun.machine.context && indicators.bars() == begun.bars && #[trigger] asked(
            strategy,
            begun.machine.state,
            bar,
            context,
            indicators,
            outcome,
        )
}

/// Appends `event` to `events`.
fn emit_event(events: &mut Vec<RunnerEvent>, event: RunnerEvent)
    ensures
        final(events)@ == old(events)@.push(event),
        event_views(final(events)@) == event_views(old(events)@).push(event@),
{
    events.push(event);
    assert(event_views(events@) =~= event_views(old(events)@).push(event@));
}

/// `nanos` as a 64-bit count, held at the greatest 64-bit value.
fn capped_nanos(nanos: u128) -> (capped: u64)
    ensures
        capped == if nanos > u64::MAX {
            u64::MAX
        } else {
            nanos as u64
        },
{
    if nanos > u64::MAX as u128 {
        u64::MAX
    } else {
        nanos as u64
    }
}

/// One symbol's trading loop: window, machine, strategy and statistics.
pub struct SymbolRunner<S: Strategy> {
    runner_id: String,
    symbol: String,
    status: RunnerStatus,
    window: MarketDataWindow,
    state_machine: SettledMachine,
    strategy: S,
    config: RunnerConfig,
    stats: RunnerStats,
    start_time: std::time::Instant,
}

impl<S: Strategy> View for SymbolRunner<S> {
    type V = RunnerView;

    closed spec fn view(&self) -> RunnerView {
        RunnerView {
            runner_id: self.runner_id@,
            symbol: self.symbol@,
            status: self.status,
            bars: self.window.bars(),
            capacity: self.window.capacity(),
            machine: self.state_machine@,
            config: self.config,
            stats: self.stats,
        }
    }
}

impl<S: Strategy> SymbolRunner<S> {
    /// The strategy that the runner asks.
    pub closed spec fn strategy(&self) -> S {
        self.strategy
    }

    /// The context that the runner hands to its strategy.
    pub closed spec fn context(&self) -> Context {
        self.state_machine.inner().stored_context()
    }

    /// A running runner for `symbol` with an empty window of `window_size`
    /// bars, a fresh machine, the default configuration and counters at zero.
    pub fn new(runner_id: String, symbol: String, strategy: S, window_size: usize) -> (runner:
        SymbolRunner<S>)
        ensures
            runner@ == crate::runner::engine::new_runner_view(runner_id@, symbol@, window_size),
            runner.strategy() == strategy,
    {
        let state_machine = SettledMachine::new(symbol.clone());
        let window = MarketDataWindow::new(window_size);
        SymbolRunner {
            runner_id,
            symbol,
            status: RunnerStatus::Running,
            window,
            state_machine,
            strategy,
            config: RunnerConfig::default(),
            stats: RunnerStats::new(),
            start_time: monotonic_now(),
        }
    }

    /// The same runner with `config` in place of its configuration.
    pub fn with_config(self, config: RunnerConfig) -> (runner: SymbolRunner<S>)
        ensures
            runner@ == (RunnerView { config, ..self@ }),
            runner.strategy() == self.strategy(),
    {
        let mut runner = self;
        runner.config = config;
        runner
    }

    /// The runner's id.
    pub fn runner_id(&self) -> (id: &str)
        ensures
            id@ == self@.runner_id,
    {
        self.runner_id.as_str()
    }

    /// The symbol the runner trades.
    pub fn symbol(&self) -> (symbol: &str)
        ensures
            symbol@ == self@.symbol,
    {
        self.symbol.as_str()
    }

    /// Whether the runner is running, paused or stopped.
    pub fn status(&self) -> (status: RunnerStatus)
        ensures
            status == self@.status,
    {
        self.status
    }

    /// The machine's current state.
    pub fn state(&self) -> (state: State)
        ensures
            state == self@.machine.state,
            self@.machine.settled(),
    {
        *self.state_machine.machine().current_state()
    }

    /// The runner's counters.
    pub fn stats(&self) -> (stats: &RunnerStats)
        ensures
            *stats == self@.stats,
    {
        &self.stats
    }

    /// The runner's configuration.
    pub fn config(&self) -> (config: &RunnerConfig)
        ensures
            *config == self@.config,
    {
        &self.config
    }

    /// The position the machine holds, if any: one is held exactly in
    /// `InPosition`, and it is open.
    pub fn position(&self) -> (position: Option<&Position>)
        ensures
            position is Some == self@.machine.position is Some,
            position is Some ==> position.unwrap()@ == self@.machine.position.unwrap(),
            position is Some <==> self@.machine.state == State::InPosition,
            position is Some ==> !position.unwrap()@.is_closed(),
    {
        self.state_machine.machine().position()
    }

    /// The time since the runner was made.
    pub fn uptime(&self) -> (uptime: std::time::Duration) {
        elapsed_since(&self.start_time)
    }

    /// A copy of the machine's context.
    fn create_context_snapshot(&self) -> (snapshot: ContextSnapshot)
        ensures
            snapshot@ == self@.machine.context,
    {
        ContextSnapshot::of(self.state_machine.machine().context())
    }

    /// The runner as it stands now. The snapshot shows a position exactly
    /// when it shows the state `InPosition`, and that position is open.
    pub fn create_snapshot(&self) -> (snapshot: RunnerSnapshot)
        ensures
            self@.shown_by(snapshot),
            self@.machine.settled(),
            snapshot.position is Some <==> snapshot.current_state == State::InPosition,
            snapshot.position is Some ==> !snapshot.position.unwrap()@.is_closed(),
    {
        let position = match self.state_machine.machine().position() {
            Some(held) => Some(*held),
            None => None,
        };
        RunnerSnapshot::new(
            self.runner_id.clone(),
            self.symbol.clone(),
            self.status,
            *self.state_machine.machine().current_state(),
            position,
            self.create_context_snapshot(),
            self.stats,
            elapsed_since(&self.start_time),
        )
    }

    /// The last `count` bars of the window, oldest first, or all of them.
    pub fn get_price_history(&self, count: Option<usize>) -> (bars: Vec<MarketData>)
        ensures
            bars@ == match count {
                Some(n) => last_bars(self@.bars, n as nat),
                None => self@.bars,
            },
    {
        self.window.history(count)
    }

    /// Obeys `cmd` and answers it. A snapshot and a price history change
    /// nothing. A pause takes effect only while running and a resume only
    /// while paused; a stop always does.
    pub fn handle_command(&mut self, cmd: RunnerCommand) -> (reply: RunnerReply)
        ensures
            final(self)@ == old(self)@.commanded(cmd),
            final(self).strategy() == old(self).strategy(),
            final(self).context() == old(self).context(),
            match cmd {
                RunnerCommand::GetSnapshot => reply is Snapshot && old(self)@.shown_by(
                    reply->Snapshot_0,
                ) && (reply->Snapshot_0.position is Some <==> reply->Snapshot_0.current_state
                    == State::InPosition),
                RunnerCommand::GetPriceHistory { count } => reply is PriceHistory
                    && reply->PriceHistory_0@ == match count {
                    Some(n) => last_bars(old(self)@.bars, n as nat),
                    None => old(self)@.bars,
                },
                _ => reply is Done && reply->Done_0 == old(self)@.obeys(cmd),
            },
    {
        match cmd {
            RunnerCommand::GetSnapshot => RunnerReply::Snapshot(self.create_snapshot()),
            RunnerCommand::GetPriceHistory { count } => RunnerReply::PriceHistory(
                self.get_price_history(count),
            ),
            RunnerCommand::Pause => {
                if self.status.is_active() {
                    self.status = RunnerStatus::Paused;
                    RunnerReply::Done(true)
                } else {
                    RunnerReply::Done(false)
                }
            },
            RunnerCommand::Resume => {
                if self.status.is_paused() {
                    self.status = RunnerStatus::Running;
                    RunnerReply::Done(true)
                } else {
                    RunnerReply::Done(false)
                }
            },
            RunnerCommand::Stop => {
                self.status = RunnerStatus::Stopped;
                RunnerReply::Done(true)
            },
        }
    }

    /// Obeys `cmd`, answers it, and says whether the runner's loop goes on:
    /// it ends exactly when the runner is stopped afterwards, which a stop
    /// brings about at once.
    pub fn on_command(&mut self, cmd: RunnerCommand) -> (out: (RunnerReply, LoopStep))
        ensures
            final(self)@ == old(self)@.commanded(cmd),
            final(self).strategy() == old(self).strategy(),
            final(self).context() == old(self).context(),
            match cmd {
                RunnerCommand::GetSnapshot => out.0 is Snapshot && old(self)@.shown_by(
                    out.0->Snapshot_0,
                ) && (out.0->Snapshot_0.position is Some <==> out.0->Snapshot_0.current_state
                    == State::InPosition),
                RunnerCommand::GetPriceHistory { count } => out.0 is PriceHistory
                    && out.0->PriceHistory_0@ == match count {
                    Some(n) => last_bars(old(self)@.bars, n as nat),
                    None => old(self)@.bars,
                },
                _ => out.0 is Done && out.0->Done_0 == old(self)@.obeys(cmd),
            },
            out.1 is Finished <==> final(self)@.status == RunnerStatus::Stopped,
            out.1 is Finished || out.1 is Continue,
            cmd is Stop ==> out.1 is Finished,
    {
        let reply = self.handle_command(cmd);
        let step = if self.status.is_stopped() {
            LoopStep::Finished
        } else {
            LoopStep::Continue
        };
        (reply, step)
    }

    /// Takes a bar in: announces it, puts it into the window and writes its
    /// close and time into the context.
    pub fn begin_tick(&mut self, market_data: MarketData, events: &mut Vec<RunnerEvent>)
        ensures
            final(self)@ == old(self)@.tick_begun(market_data),
            final(self).strategy() == old(self).strategy(),
            event_views(final(events)@) == event_views(old(events)@).push(
                old(self)@.tick_received(market_data),
            ),
    {
        emit_event(
            events,
            RunnerEvent::TickReceived {
                runner_id: self.runner_id.clone(),
                symbol: self.symbol.clone(),
                data: market_data.clone(),
            },
        );
        let close = market_data.close;
        let timestamp = market_data.timestamp;
        self.window.push(market_data);
        self.state_machine.record_latest(close, timestamp);
    }

    /// Takes the strategy's reply in and says which action it asks for.
    pub fn apply_reply(&mut self, reply: StrategyReply) -> (action: Option<Action>)
        ensures
            final(self)@ == old(self)@.replied(reply),
            final(self).strategy() == old(self).strategy(),
            asked_view(action) == action_for(reply),
    {
        match reply {
            StrategyReply::Opportunity(Some(record)) => {
                self.state_machine.note_opportunity(&record);
                Some(
                    Action::StartAnalyzing {
                        reason: String::from_str("Strategy detected opportunity"),
                    },
                )
            },
            StrategyReply::Opportunity(None) => None,
            StrategyReply::Decision(action) => action,
        }
    }

    /// Applies the action, lets the machine take the bar in, and emits what
    /// happened: the action, an opened position, a change of state, and the
    /// position's update or closing, in that order.
    pub fn finish_tick(
        &mut self,
        market_data: &MarketData,
        action: Option<Action>,
        now: i64,
        events: &mut Vec<RunnerEvent>,
    )
        ensures
            final(self)@ == old(self)@.tick_finished(
                market_data.close,
                market_data.timestamp,
                asked_view(action),
                now,
            ),
            event_views(final(events)@) == event_views(old(events)@) + old(self)@.finish_events(
                market_data.close,
                market_data.timestamp,
                asked_view(action),
                now,
            ),
            final(self).strategy() == old(self).strategy(),
    {
        let ghost before = self@;
        let ghost asked: Option<ActionView> = asked_view(action);
        let ghost start = event_views(events@);
        let timestamp = market_data.timestamp;
        let close = market_data.close;
        let state_before = *self.state_machine.machine().current_state();
        let position_before: Option<Position> = match self.state_machine.machine().position() {
            Some(held) => Some(*held),
            None => None,
        };
        match action {
            Some(act) => {
                let is_entry = act.is_entry();
                let copy = act.clone();
                self.state_machine.execute_at(act, now);
                self.stats.record_action();
                emit_event(
                    events,
                    RunnerEvent::ActionExecuted {
                        runner_id: self.runner_id.clone(),
                        action: copy,
                        timestamp,
                    },
                );
                if is_entry {
                    match self.state_machine.machine().position() {
                        Some(opened) => {
                            emit_event(
                                events,
                                RunnerEvent::PositionOpened {
                                    runner_id: self.runner_id.clone(),
                                    position: *opened,
                                    timestamp,
                                },
                            );
                        },
                        None => {},
                    }
                }
            },
            None => {},
        }
        let ghost acted = before.acted(asked, now);
        assert(self.state_machine@ == acted);
        assert(event_views(events@) =~= start + action_events(
            before.runner_id,
            asked,
            acted,
            timestamp,
        ));
        let ghost after_action = event_views(events@);
        self.state_machine.update_at(market_data, now);
        let ghost done = acted.updated(close, timestamp, now);
        let state_after = *self.state_machine.machine().current_state();
        if state_before != state_after {
            emit_event(
                events,
                RunnerEvent::StateTransition {
                    runner_id: self.runner_id.clone(),
                    from: state_before,
                    to: state_after,
                    reason: String::from_str("State machine transition"),
                    timestamp,
                },
            );
        }
        assert(event_views(events@) =~= after_action + transition_events(
            before.runner_id,
            before.machine.state,
            done.state,
            timestamp,
        ));
        let ghost after_transition = event_views(events@);
        match self.state_machine.machine().position() {
            Some(held) => {
                match held.unrealized_pnl() {
                    Some(unrealized_pnl) => {
                        emit_event(
                            events,
                            RunnerEvent::PositionUpdated {
                                runner_id: self.runner_id.clone(),
                                current_price: close,
                                unrealized_pnl,
                                timestamp,
                            },
                        );
                    },
                    None => {},
                }
            },
            None => {
                if position_before.is_some() {
                    match (self.state_machine.machine().last_closed(), self.state_machine.machine().last_exit_reason()) {
                        (Some(closed), Some(why)) => {
                            match (closed.exit_price(), closed.realized_pnl()) {
                                (Some(exit_price), Some(realized_pnl)) => {
                                    emit_event(
                                        events,
                                        RunnerEvent::PositionClosed {
                                            runner_id: self.runner_id.clone(),
                                            exit_price,
                                            realized_pnl,
                                            reason: String::from_str(why.as_str()),
                                            timestamp,
                                        },
                                    );
                                },
                                _ => {},
                            }
                        },
                        _ => {},
                    }
                }
            },
        }
        assert(event_views(events@) =~= after_transition + position_events(
            before.runner_id,
            before.machine.position,
            done,
            close,
            timestamp,
        ));
        assert(event_views(events@) =~= start + before.finish_events(close, timestamp, asked, now));
    }

    /// Asks the strategy while idle: hands the bar, the machine's context and
    /// the indicator view to `detect_opportunity` and passes on what it
    /// answers, an opportunity or nothing as such and an error as it is.
    fn handle_idle(&self, market_data: &MarketData, indicator_api: &IndicatorApi) -> (reply:
        Result<StrategyReply, TradingEngineError>)
        ensures
            reply is Ok ==> reply->Ok_0 is Opportunity,
            asked(&self.strategy(), State::Idle, *market_data, self.context(), *indicator_api, reply),
            self.context()@ == self@.machine.context,
    {
        match self.strategy.detect_opportunity(
            market_data,
            self.state_machine.machine().context(),
            indicator_api,
        ) {
            Ok(opportunity) => Ok(StrategyReply::Opportunity(opportunity)),
            Err(error) => Err(error),
        }
    }

    /// Asks the strategy while analyzing: hands the bar, the machine's
    /// context and the indicator view to `filter_commitment` and passes on
    /// what it answers, an action or nothing as a decision and an error as it
    /// is.
    fn handle_analyzing(&self, market_data: &MarketData, indicator_api: &IndicatorApi) -> (reply:
        Result<StrategyReply, TradingEngineError>)
        ensures
            reply is Ok ==> reply->Ok_0 is Decision,
            asked(
                &self.strategy(),
                State::Analyzing,
                *market_data,
                self.context(),
                *indicator_api,
                reply,
            ),
            self.context()@ == self@.machine.context,
    {
        match self.strategy.filter_commitment(
            market_data,
            self.state_machine.machine().context(),
            indicator_api,
        ) {
            Ok(decision) => Ok(StrategyReply::Decision(decision)),
            Err(error) => Err(error),
        }
    }

    /// Asks the strategy while a position is held: hands the bar, the
    /// machine's context and the indicator view to `manage_position` and
    /// passes on what it answers, an action or nothing as a decision and an
    /// error as it is.
    fn handle_in_position(&self, market_data: &MarketData, indicator_api: &IndicatorApi) -> (reply:
        Result<StrategyReply, TradingEngineError>)
        ensures
            reply is Ok ==> reply->Ok_0 is Decision,
            asked(
                &self.strategy(),
                State::InPosition,
                *market_data,
                self.context(),
                *indicator_api,
                reply,
            ),
            self.context()@ == self@.machine.context,
    {
        match self.strategy.manage_position(
            market_data,
            self.state_machine.machine().context(),
            indicator_api,
        ) {
            Ok(decision) => Ok(StrategyReply::Decision(decision)),
            Err(error) => Err(error),
        }
    }

    /// Everything of a tick that follows the strategy's answer: the reply is
    /// taken in, its action applied, the bar handed to the machine, the
    /// events emitted and the tick counted with its `duration` in
    /// nanoseconds.
    pub fn complete_tick(
        &mut self,
        market_data: &MarketData,
        reply: StrategyReply,
        now: i64,
        duration: u64,
        events: &mut Vec<RunnerEvent>,
    )
        ensures
            final(self)@ == old(self)@.replied(reply).tick_finished(
                market_data.close,
                market_data.timestamp,
                action_for(reply),
                now,
            ).counted(duration),
            event_views(final(events)@) == event_views(old(events)@) + old(self)@.replied(
                reply,
            ).finish_events(market_data.close, market_data.timestamp, action_for(reply), now),
            final(self).strategy() == old(self).strategy(),
    {
        let action = self.apply_reply(reply);
        self.finish_tick(market_data, action, now, events);
        self.stats.record_tick(duration);
    }

    /// Processes one bar: announces it, stores it, asks the strategy
    /// according to the machine's state, applies what it answers, lets the
    /// machine take the bar in and counts the tick. When the strategy fails,
    /// the bar stays announced and stored, nothing else has happened, and the
    /// strategy's error is returned.
    pub fn process_tick(&mut self, market_data: MarketData, events: &mut Vec<RunnerEvent>) -> (done:
        Result<(), TradingEngineError>)
        ensures
            final(self).strategy() == old(self).strategy(),
            match done {
                Ok(()) => exists|reply: StrategyReply, now: i64, duration: u64|
                    {
                        &&& old(self)@.state_asks(reply)
                        &&& asked_about(
                            &old(self).strategy(),
                            old(self)@.tick_begun(market_data),
                            market_data,
                            Ok(reply),
                        )
                        &&& final(self)@ == #[trigger] old(self)@.tick_done(
                            market_data,
                            reply,
                            now,
                            duration,
                        )
                        &&& event_views(final(events)@) == event_views(old(events)@)
                            + old(self)@.tick_events(market_data, reply, now)
                    },
                Err(error) => {
                    &&& asked_about(
                        &old(self).strategy(),
                        old(self)@.tick_begun(market_data),
                        market_data,
                        Err(error),
                    )
                    &&& final(self)@ == old(self)@.tick_begun(market_data)
                    &&& event_views(final(events)@) == event_views(old(events)@).push(
                        old(self)@.tick_received(market_data),
                    )
                },
            },
    {
        let tick_start = monotonic_now();
        let now = now_millis();
        let ghost start = event_views(events@);
        self.begin_tick(market_data.clone(), events);
        let indicator_api = IndicatorApi::new(self.window.clone());
        let ghost begun = self@;
        let ghost context = self.context();
        let asked = match self.state_machine.machine().current_state() {
            State::Idle => self.handle_idle(&market_data, &indicator_api),
            State::Analyzing => self.handle_analyzing(&market_data, &indicator_api),
            State::InPosition => self.handle_in_position(&market_data, &indicator_api),
        };
        proof {
            assert(self::asked(
                &self.strategy(),
                begun.machine.state,
                market_data,
                context,
                indicator_api,
                asked,
            ));
            assert(asked_about(&old(self).strategy(), begun, market_data, asked));
        }
        let reply = match asked {
            Ok(reply) => reply,
            Err(error) => {
                return Err(error);
            },
        };
        let ghost between = event_views(events@);
        let action = self.apply_reply(reply);
        self.finish_tick(&market_data, action, now, events);
        let duration = capped_nanos(whole_nanos(&elapsed_since(&tick_start)));
        self.stats.record_tick(duration);
        proof {
            let tail = begun.replied(reply).finish_events(
                market_data.close,
                market_data.timestamp,
                action_for(reply),
                now,
            );
            assert(start.push(old(self)@.tick_received(market_data)) + tail =~= start
                + old(self)@.tick_events(market_data, reply, now));
            assert(self@ == old(self)@.tick_done(market_data, reply, now, duration));
        }
        Ok(())
    }

    /// Reports a failed tick: emits an error event, critical when the runner
    /// is set to stop on errors. Such a runner's loop fails with `error`; any
    /// other runner counts the error and goes on.
    pub fn fail_tick(
        &mut self,
        error: TradingEngineError,
        timestamp: i64,
        events: &mut Vec<RunnerEvent>,
    ) -> (step: LoopStep)
        ensures
            final(self)@ == old(self)@.error_counted(),
            final(self).strategy() == old(self).strategy(),
            event_views(final(events)@) == event_views(old(events)@).push(
                old(self)@.error_event(error.message(), timestamp),
            ),
            step == if old(self)@.config.stop_on_error {
                LoopStep::Failed(error)
            } else {
                LoopStep::Continue
            },
    {
        let severity = if self.config.stop_on_error {
            ErrorSeverity::Critical
        } else {
            ErrorSeverity::Error
        };
        emit_event(
            events,
            RunnerEvent::Error {
                runner_id: self.runner_id.clone(),
                error: error.to_string(),
                severity,
                timestamp,
            },
        );
        if self.config.stop_on_error {
            return LoopStep::Failed(error);
        }
        self.stats.record_error();
        LoopStep::Continue
    }

    /// Takes one item from the data inbox, or its end. The end of the inbox
    /// and a stopped runner finish the loop. A bar for another symbol is
    /// dropped and a bar that arrives while paused is discarded. Any other
    /// bar is processed; when that fails, the failure is reported as
    /// [`SymbolRunner::fail_tick`] says.
    pub fn on_data(&mut self, data: Option<MarketData>, events: &mut Vec<RunnerEvent>) -> (step:
        LoopStep)
        ensures
            data is None || old(self)@.status == RunnerStatus::Stopped ==> step is Finished
                && final(self)@ == old(self)@ && final(events)@ == old(events)@,
            data is Some && old(self)@.status != RunnerStatus::Stopped && !old(self)@.takes(
                data.unwrap(),
            ) ==> step is Continue && final(self)@ == old(self)@ && final(events)@ == old(
                events,
            )@,
            data is Some && old(self)@.takes(data.unwrap()) ==> match step {
                LoopStep::Finished => false,
                LoopStep::Failed(error) => {
                    &&& old(self)@.config.stop_on_error
                    &&& asked_about(
                        &old(self).strategy(),
                        old(self)@.tick_begun(data.unwrap()),
                        data.unwrap(),
                        Err(error),
                    )
                    &&& final(self)@ == old(self)@.tick_begun(data.unwrap())
                    &&& event_views(final(events)@) == event_views(old(events)@)
                        + old(self)@.failure_events(data.unwrap(), error.message())
                },
                LoopStep::Continue => {
                    ||| exists|reply: StrategyReply, now: i64, duration: u64|
                        {
                            &&& old(self)@.state_asks(reply)
                            &&& asked_about(
                                &old(self).strategy(),
                                old(self)@.tick_begun(data.unwrap()),
                                data.unwrap(),
                                Ok(reply),
                            )
                            &&& final(self)@ == #[trigger] old(self)@.tick_done(
                                data.unwrap(),
                                reply,
                                now,
                                duration,
                            )
                            &&& event_views(final(events)@) == event_views(old(events)@)
                                + old(self)@.tick_events(data.unwrap(), reply, now)
                        }
                    ||| {
                        &&& !old(self)@.config.stop_on_error
                        &&& final(self)@ == old(self)@.tick_begun(data.unwrap()).error_counted()
                        &&& exists|error: TradingEngineError|
                            asked_about(
                                &old(self).strategy(),
                                old(self)@.tick_begun(data.unwrap()),
                                data.unwrap(),
                                Err(error),
                            ) && event_views(final(events)@) == event_views(old(events)@)
                                + #[trigger] old(self)@.failure_events(
                                data.unwrap(),
                                error.message(),
                            )
                    }
                },
            },
            final(self).strategy() == old(self).strategy(),
    {
        let market_data = match data {
            Some(market_data) => market_data,
            None => {
                return LoopStep::Finished;
            },
        };
        if self.status.is_stopped() {
            return LoopStep::Finished;
        }
        if market_data.symbol != self.symbol {
            return LoopStep::Continue;
        }
        if !self.status.is_active() {
            return LoopStep::Continue;
        }
        let timestamp = market_data.timestamp;
        let ghost start = event_views(events@);
        match self.process_tick(market_data, events) {
            Ok(()) => LoopStep::Continue,
            Err(error) => {
                let step = self.fail_tick(error, timestamp, events);
                proof {
                    assert(event_views(events@) =~= start + old(self)@.failure_events(
                        market_data,
                        error.message(),
                    ));
                }
                step
            },
        }
    }
}

impl RunnerView {
    /// Whether `snapshot` shows the runner as it stands.
    pub open spec fn shown_by(self, snapshot: RunnerSnapshot) -> bool {
        &&& snapshot.runner_id@ == self.runner_id
        &&& snapshot.symbol@ == self.symbol
        &&& snapshot.status == self.status
        &&& snapshot.current_state == self.machine.state
        &&& snapshot.position is Some == self.machine.position is Some
        &&& snapshot.position is Some ==> snapshot.position.unwrap()@
            == self.machine.position.unwrap()
        &&& snapshot.context@ == self.machine.context
        &&& snapshot.stats == self.stats
    }

    /// The runner after a failed tick is counted, which a runner that stops
    /// on errors does not do.
    pub open spec fn error_counted(self) -> RunnerView {
        if self.config.stop_on_error {
            self
        } else {
            RunnerView {
                stats: RunnerStats { errors: capped_sum(self.stats.errors, 1), ..self.stats },
                ..self
            }
        }
    }

    /// The event that reports a failed tick.
    pub open spec fn error_event(self, message: Seq<char>, timestamp: i64) -> RunnerEventView {
        RunnerEventView::Error {
            runner_id: self.runner_id,
            error: message,
            severity: if self.config.stop_on_error {
                ErrorSeverity::Critical
            } else {
                ErrorSeverity::Error
            },
            timestamp,
        }
    }

    /// The events of a tick in which the strategy failed with `message`.
    pub open spec fn failure_events(self, bar: MarketData, message: Seq<char>) -> Seq<
        RunnerEventView,
    > {
        seq![self.tick_received(bar), self.error_event(message, bar.timestamp)]
    }

    /// Whether `reply` is an answer to the callback that the machine's state
    /// calls for: an opportunity while idle, a decision otherwise.
    pub open spec fn state_asks(self, reply: StrategyReply) -> bool {
        if self.machine.state == State::Idle {
            reply is Opportunity
        } else {
            reply is Decision
        }
    }
}

/// Within one tick the events come in a fixed order: the tick itself, then
/// the applied action, the opened position, the change of state, and last
/// either the position's update or its closing, never both. Each of them but
/// the first may be missing.
pub proof fn lemma_tick_events_in_order(
    runner: RunnerView,
    bar: MarketData,
    reply: StrategyReply,
    now: i64,
)
    ensures
        runner.tick_events(bar, reply, now).len() >= 1,
        runner.tick_events(bar, reply, now)[0] is TickReceived,
        forall|i: int|
            0 <= i < runner.tick_events(bar, reply, now).len() ==> (#[trigger] runner.tick_events(
                bar,
                reply,
                now,
            )[i]).place_in_tick() is Some,
        forall|i: int, j: int|
            0 <= i < j < runner.tick_events(bar, reply, now).len() ==> (
            #[trigger] runner.tick_events(bar, reply, now)[i]).place_in_tick().unwrap() < (
            #[trigger] runner.tick_events(bar, reply, now)[j]).place_in_tick().unwrap(),
{
    let begun = runner.tick_begun(bar).replied(reply);
    let action = action_for(reply);
    let acted = begun.acted(action, now);
    let done = acted.updated(bar.close, bar.timestamp, now);
    let first = seq![runner.tick_received(bar)];
    let a = action_events(begun.runner_id, action, acted, bar.timestamp);
    let t = transition_events(begun.runner_id, begun.machine.state, done.state, bar.timestamp);
    let p = position_events(begun.runner_id, begun.machine.position, done, bar.close, bar.timestamp);
    let all = runner.tick_events(bar, reply, now);
    assert(all =~= first + a + t + p);
    assert(forall|i: int| 0 <= i < a.len() ==> (#[trigger] a[i]).place_in_tick() == Some(
        (i + 1) as nat,
    ));
    assert(forall|i: int| 0 <= i < t.len() ==> (#[trigger] t[i]).place_in_tick() == Some(3nat));
    assert(forall|i: int| 0 <= i < p.len() ==> (#[trigger] p[i]).place_in_tick() == Some(4nat));
    assert(a.len() <= 2 && t.len() <= 1 && p.len() <= 1);
    assert forall|i: int| 0 <= i < all.len() implies (#[trigger] all[i]).place_in_tick() is Some
        && (i == 0 ==> all[i].place_in_tick() == Some(0nat)) && (1 <= i < 1 + a.len()
        ==> all[i].place_in_tick() == Some(i as nat)) && (1 + a.len() <= i < 1 + a.len() + t.len()
        ==> all[i].place_in_tick() == Some(3nat)) && (1 + a.len() + t.len() <= i
        ==> all[i].place_in_tick() == Some(4nat)) by {
        if i == 0 {
        } else if i < 1 + a.len() {
            assert(all[i] == a[i - 1]);
        } else if i < 1 + a.len() + t.len() {
            assert(all[i] == t[i - 1 - a.len()]);
        } else {
            assert(all[i] == p[i - 1 - a.len() - t.len()]);
        }
    }
}

/// A tick emits a position update only while a position is open at its end,
/// and a closing only when the position held at its start is gone.
pub proof fn lemma_tick_reports_position(
    runner: RunnerView,
    bar: MarketData,
    reply: StrategyReply,
    now: i64,
)
    ensures
        forall|i: int|
            0 <= i < runner.tick_events(bar, reply, now).len() && (#[trigger] runner.tick_events(
                bar,
                reply,
                now,
            )[i]) is PositionUpdated ==> runner.ticked(bar, reply, now).machine.holds_open_position(),
        forall|i: int|
            0 <= i < runner.tick_events(bar, reply, now).len() && (#[trigger] runner.tick_events(
                bar,
                reply,
                now,
            )[i]) is PositionClosed ==> runner.machine.position is Some && runner.ticked(
                bar,
                reply,
                now,
            ).machine.position is None,
{
    let begun = runner.tick_begun(bar).replied(reply);
    let action = action_for(reply);
    let acted = begun.acted(action, now);
    let done = acted.updated(bar.close, bar.timestamp, now);
    let first = seq![runner.tick_received(bar)];
    let a = action_events(begun.runner_id, action, acted, bar.timestamp);
    let t = transition_events(begun.runner_id, begun.machine.state, done.state, bar.timestamp);
    let p = position_events(begun.runner_id, begun.machine.position, done, bar.close, bar.timestamp);
    let all = runner.tick_events(bar, reply, now);
    assert(all =~= first + a + t + p);
    assert forall|i: int|
        0 <= i < all.len() && ((#[trigger] all[i]) is PositionUpdated
            || all[i] is PositionClosed) implies i >= 1 + a.len() + t.len() && all[i] == p[0] by {
        if i == 0 {
        } else if i < 1 + a.len() {
            assert(all[i] == a[i - 1]);
        } else if i < 1 + a.len() + t.len() {
            assert(all[i] == t[i - 1 - a.len()]);
        } else {
            assert(all[i] == p[i - 1 - a.len() - t.len()]);
        }
    }
}

} // verus!
