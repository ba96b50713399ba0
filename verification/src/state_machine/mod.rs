//! The trading state machine and the records it owns.

pub mod action;
pub mod context;
pub mod position;
pub mod state;

pub use action::{Action, Side};
pub use context::{Context, ContextValue, ValueTable};
pub use position::Position;
pub use state::State;

use std::collections::VecDeque;
use vstd::prelude::*;
use vstd::string::StringExecFns;
use crate::clock::now_millis;
use crate::decimal::Decimal;
use crate::error::TradingEngineError;
use crate::market_data::MarketData;
use crate::state_machine::action::ActionView;
use crate::state_machine::context::ContextView;
use crate::state_machine::position::PositionView;
use crate::state_machine::state::legal_transition;

verus! {

/// How many transitions the log keeps.
pub const MAX_TRANSITION_HISTORY: usize = 100;

/// One recorded change of state.
#[derive(Debug, PartialEq, Eq)]
pub struct Transition {
    pub from: State,
    pub to: State,
    /// When the change was made, in milliseconds since the Unix epoch.
    pub timestamp: i64,
    pub reason: String,
}

/// What a [`Transition`] records, with the reason as text.
pub struct TransitionView {
    pub from: State,
    pub to: State,
    pub timestamp: i64,
    pub reason: Seq<char>,
}

impl View for Transition {
    type V = TransitionView;

    open spec fn view(&self) -> TransitionView {
        TransitionView {
            from: self.from,
            to: self.to,
            timestamp: self.timestamp,
            reason: self.reason@,
        }
    }
}

impl Clone for Transition {
    fn clone(&self) -> (copy: Self)
        ensures
            copy == *self,
    {
        Transition {
            from: self.from,
            to: self.to,
            timestamp: self.timestamp,
            reason: self.reason.clone(),
        }
    }
}

/// Why a position was closed.
#[derive(Debug, Clone, Copy, PartialEq, Eq, Structural)]
pub enum ExitReason {
    /// The strategy asked for the exit.
    Requested,
    /// The stop was reached.
    StopLoss,
    /// The target was reached.
    TakeProfit,
}

impl ExitReason {
    /// The reason as it is written into the log.
    pub open spec fn text(self) -> Seq<char> {
        match self {
            ExitReason::Requested => "Exit requested by strategy"@,
            ExitReason::StopLoss => "Stop loss hit"@,
            ExitReason::TakeProfit => "Take profit target hit"@,
        }
    }

    /// The reason as a static string.
    pub fn as_str(&self) -> (text: &'static str)
        ensures
            text@ == self.text(),
    {
        match self {
            ExitReason::Requested => "Exit requested by strategy",
            ExitReason::StopLoss => "Stop loss hit",
            ExitReason::TakeProfit => "Take profit target hit",
        }
    }
}

/// The reason logged when a position is entered on `side`.
pub open spec fn entry_reason(side: Side) -> Seq<char> {
    match side {
        Side::Long => "Entered Long position"@,
        Side::Short => "Entered Short position"@,
    }
}

/// The log after `entry` is appended: the oldest entry leaves once more than
/// [`MAX_TRANSITION_HISTORY`] are held.
pub open spec fn logged(history: Seq<TransitionView>, entry: TransitionView) -> Seq<
    TransitionView,
> {
    if history.len() + 1 > MAX_TRANSITION_HISTORY {
        history.push(entry).drop_first()
    } else {
        history.push(entry)
    }
}

/// What a [`StateMachine`] holds.
pub struct MachineView {
    pub symbol: Seq<char>,
    pub state: State,
    pub context: ContextView,
    pub position: Option<PositionView>,
    /// The transition log, oldest first.
    pub history: Seq<TransitionView>,
    /// The position closed last, as it was closed, and why.
    pub last_exit: Option<(PositionView, ExitReason)>,
}

impl MachineView {
    /// A machine as it starts: idle, with nothing held and nothing logged.
    pub open spec fn fresh(symbol: Seq<char>) -> MachineView {
        MachineView {
            symbol,
            state: State::Idle,
            context: ContextView::blank(),
            position: None,
            history: Seq::empty(),
            last_exit: None,
        }
    }

    /// An open position is held.
    pub open spec fn holds_open_position(self) -> bool {
        self.position is Some && !self.position.unwrap().is_closed()
    }

    /// The state says `InPosition` exactly when an open position is held.
    pub open spec fn coherent(self) -> bool {
        (self.state == State::InPosition) <==> self.holds_open_position()
    }

    /// The log is within its bound.
    pub open spec fn log_bounded(self) -> bool {
        self.history.len() <= MAX_TRANSITION_HISTORY
    }

    /// The machine after moving to `to`, with the move logged.
    pub open spec fn moved_to(self, to: State, reason: Seq<char>, now: i64) -> MachineView {
        MachineView {
            state: to,
            history: logged(
                self.history,
                TransitionView { from: self.state, to, timestamp: now, reason },
            ),
            ..self
        }
    }

    /// The machine after entering a position: whatever was held is replaced.
    pub open spec fn entered(self, price: Decimal, quantity: Decimal, side: Side, now: i64)
        -> MachineView {
        MachineView {
            position: Some(PositionView::opened(price, quantity, side, now)),
            ..self
        }.moved_to(State::InPosition, entry_reason(side), now)
    }

    /// The machine after closing whatever it holds at `price`; without a
    /// position nothing changes.
    pub open spec fn exited(self, price: Decimal, why: ExitReason, now: i64) -> MachineView {
        match self.position {
            Some(held) => MachineView {
                position: None,
                last_exit: Some((held.closed_at(price, now), why)),
                ..self
            }.moved_to(State::Idle, why.text(), now),
            None => self,
        }
    }

    /// The machine after `action` is applied at the clock reading `now`.
    pub open spec fn executed(self, action: ActionView, now: i64) -> MachineView {
        match action {
            ActionView::EnterLong { price, quantity } => self.entered(
                price,
                quantity,
                Side::Long,
                now,
            ),
            ActionView::EnterShort { price, quantity } => self.entered(
                price,
                quantity,
                Side::Short,
                now,
            ),
            ActionView::ExitPosition { price } => self.exited(price, ExitReason::Requested, now),
            ActionView::UpdateStopLoss { new_stop } => match self.position {
                Some(held) => MachineView { position: Some(held.with_stop(new_stop)), ..self },
                None => self,
            },
            ActionView::UpdateTakeProfit { new_target } => match self.position {
                Some(held) => MachineView { position: Some(held.with_target(new_target)), ..self },
                None => self,
            },
            ActionView::StartAnalyzing { reason } => if self.state == State::Idle {
                self.moved_to(State::Analyzing, reason, now)
            } else {
                self
            },
            ActionView::CancelAnalysis { reason } => if self.state == State::Analyzing {
                self.moved_to(State::Idle, reason, now)
            } else {
                self
            },
            ActionView::NoAction => self,
        }
    }

    /// The machine after the bar's close and time are written to the context
    /// and the held position is repriced, before any automatic exit.
    pub open spec fn repriced(self, close: Decimal, timestamp: i64) -> MachineView {
        MachineView {
            context: self.context.with_latest(close, timestamp),
            position: match self.position {
                Some(held) => Some(held.with_price(close)),
                None => None,
            },
            ..self
        }
    }

    /// The exit that a bar closing at `close` forces: the stop comes before
    /// the target.
    pub open spec fn forced_exit(self, close: Decimal) -> Option<ExitReason> {
        match self.position {
            Some(held) => if held.with_price(close).stop_hit() {
                Some(ExitReason::StopLoss)
            } else if held.with_price(close).target_hit() {
                Some(ExitReason::TakeProfit)
            } else {
                None
            },
            None => None,
        }
    }

    /// The machine after a bar is taken in at the clock reading `now`.
    pub open spec fn updated(self, close: Decimal, timestamp: i64, now: i64) -> MachineView {
        match self.forced_exit(close) {
            Some(why) => self.repriced(close, timestamp).exited(close, why, now),
            None => self.repriced(close, timestamp),
        }
    }

    /// The machine after a reset.
    pub open spec fn cleared(self) -> MachineView {
        MachineView::fresh(self.symbol)
    }
}

/// The last transitions of a machine, oldest first: never more than
/// [`MAX_TRANSITION_HISTORY`] of them.
pub struct TransitionLog {
    entries: VecDeque<Transition>,
}

impl TransitionLog {
    #[verifier::type_invariant]
    closed spec fn bounded(&self) -> bool {
        self.entries@.len() <= MAX_TRANSITION_HISTORY
    }

    /// The transitions held, oldest first.
    pub closed spec fn held(&self) -> Seq<Transition> {
        self.entries@
    }

    /// An empty log.
    pub fn new() -> (log: TransitionLog)
        ensures
            log.held() == Seq::<Transition>::empty(),
    {
        TransitionLog { entries: VecDeque::new() }
    }

    /// Appends `transition`; a full log drops its oldest entry.
    pub fn record(&mut self, transition: Transition)
        ensures
            log_views(final(self).held()) == logged(log_views(old(self).held()), transition@),
    {
        proof {
            use_type_invariant(&*self);
        }
        let mut entries: VecDeque<Transition> = VecDeque::new();
        std::mem::swap(&mut entries, &mut self.entries);
        let ghost before = entries@;
        entries.push_back(transition);
        if entries.len() > MAX_TRANSITION_HISTORY {
            let _ = entries.pop_front();
        }
        proof {
            let pushed = before.push(transition);
            assert(log_views(pushed) =~= log_views(before).push(transition@));
            assert(log_views(pushed.subrange(1, pushed.len() as int)) =~= log_views(
                pushed,
            ).drop_first());
            assert(log_views(entries@) =~= logged(log_views(before), transition@));
        }
        self.entries = entries;
    }

    /// The transitions held, oldest first.
    pub fn entries(&self) -> (entries: &VecDeque<Transition>)
        ensures
            entries@ == self.held(),
            entries@.len() <= MAX_TRANSITION_HISTORY,
    {
        proof {
            use_type_invariant(self);
        }
        &self.entries
    }
}

/// The trading machine of one symbol: its state, its context, the position it
/// holds and a bounded log of its transitions.
pub struct StateMachine {
    symbol: String,
    state: State,
    context: Context,
    position: Option<Position>,
    transition_history: TransitionLog,
    last_exit: Option<(Position, ExitReason)>,
}

/// The views of `log`, in order.
pub open spec fn log_views(log: Seq<Transition>) -> Seq<TransitionView> {
    log.map_values(|t: Transition| t@)
}

impl View for StateMachine {
    type V = MachineView;

    closed spec fn view(&self) -> MachineView {
        MachineView {
            symbol: self.symbol@,
            state: self.state,
            context: self.context@,
            position: match self.position {
                Some(held) => Some(held@),
                None => None,
            },
            history: log_views(self.transition_history.held()),
            last_exit: match self.last_exit {
                Some((closed, why)) => Some((closed@, why)),
                None => None,
            },
        }
    }
}

impl StateMachine {
    /// The log as it is stored.
    pub closed spec fn log(&self) -> Seq<Transition> {
        self.transition_history.held()
    }

    /// An idle machine for `symbol` with an empty context, no position and an
    /// empty log.
    pub fn new(symbol: String) -> (machine: StateMachine)
        ensures
            machine@ == MachineView::fresh(symbol@),
    {
        let machine = StateMachine {
            symbol,
            state: State::Idle,
            context: Context::new(),
            position: None,
            transition_history: TransitionLog::new(),
            last_exit: None,
        };
        assert(log_views(machine.transition_history.held()) =~= Seq::<TransitionView>::empty());
        machine
    }

    /// The current state.
    pub fn current_state(&self) -> (state: &State)
        ensures
            *state == self@.state,
    {
        &self.state
    }

    /// The symbol the machine trades.
    pub fn symbol(&self) -> (symbol: &str)
        ensures
            symbol@ == self@.symbol,
    {
        self.symbol.as_str()
    }

    /// The context.
    pub fn context(&self) -> (context: &Context)
        ensures
            context@ == self@.context,
            *context == self.stored_context(),
    {
        &self.context
    }

    /// The context as it is stored.
    pub closed spec fn stored_context(&self) -> Context {
        self.context
    }

    /// The context, for writing. Whatever is written shows in the machine;
    /// nothing else changes.
    pub fn context_mut(&mut self) -> (context: &mut Context)
        ensures
            context@ == old(self)@.context,
            final(self)@ == (MachineView { context: final(context)@, ..old(self)@ }),
    {
        &mut self.context
    }

    /// The position held, for writing. Whatever is written shows in the
    /// machine; nothing else changes.
    pub fn position_mut(&mut self) -> (position: Option<&mut Position>)
        ensures
            position is Some == old(self)@.position is Some,
            match position {
                Some(held) => held@ == old(self)@.position.unwrap() && final(self)@ == (MachineView {
                    position: Some(final(held)@),
                    ..old(self)@
                }),
                None => final(self)@ == old(self)@,
            },
    {
        match &mut self.position {
            Some(held) => Some(held),
            None => None,
        }
    }

    /// The position held, if any.
    pub fn position(&self) -> (position: Option<&Position>)
        ensures
            position is Some == self@.position is Some,
            position is Some ==> position.unwrap()@ == self@.position.unwrap(),
    {
        self.position.as_ref()
    }

    /// The transition log, oldest first. It never holds more than
    /// [`MAX_TRANSITION_HISTORY`] entries.
    pub fn transition_history(&self) -> (log: &VecDeque<Transition>)
        ensures
            log@ == self.log(),
            log_views(log@) == self@.history,
            log@.len() <= MAX_TRANSITION_HISTORY,
            self@.log_bounded(),
    {
        self.transition_history.entries()
    }

    /// The position that was closed last, as it was closed.
    pub fn last_closed(&self) -> (closed: Option<&Position>)
        ensures
            closed is Some == self@.last_exit is Some,
            closed is Some ==> closed.unwrap()@ == self@.last_exit.unwrap().0,
    {
        match &self.last_exit {
            Some((closed, _)) => Some(closed),
            None => None,
        }
    }

    /// Why the last position was closed.
    pub fn last_exit_reason(&self) -> (why: Option<ExitReason>)
        ensures
            why is Some == self@.last_exit is Some,
            why is Some ==> why.unwrap() == self@.last_exit.unwrap().1,
    {
        match &self.last_exit {
            Some((_, why)) => Some(*why),
            None => None,
        }
    }

    /// Moves to `new_state` at the clock reading `now` and logs the move.
    pub fn transition_at(&mut self, new_state: State, reason: String, now: i64)
        ensures
            final(self)@ == old(self)@.moved_to(new_state, reason@, now),
    {
        let transition = Transition { from: self.state, to: new_state, timestamp: now, reason };
        self.transition_history.record(transition);
        self.state = new_state;
    }

    /// Moves to `new_state` and logs the move with the present time.
    pub fn transition_to(&mut self, new_state: State, reason: String)
        ensures
            exists|now: i64| final(self)@ == #[trigger] old(self)@.moved_to(new_state, reason@, now),
    {
        let now = now_millis();
        self.transition_at(new_state, reason, now);
    }

    /// Enters a position at the clock reading `now`.
    fn enter_position(&mut self, entry_price: Decimal, quantity: Decimal, side: Side, now: i64)
        ensures
            final(self)@ == old(self)@.entered(entry_price, quantity, side, now),
    {
        self.position = Some(Position::new(entry_price, quantity, side, now));
        let reason = match side {
            Side::Long => String::from_str("Entered Long position"),
            Side::Short => String::from_str("Entered Short position"),
        };
        self.transition_at(State::InPosition, reason, now);
    }

    /// Closes whatever is held at `exit_price`.
    fn exit_position(&mut self, exit_price: Decimal, why: ExitReason, now: i64)
        ensures
            final(self)@ == old(self)@.exited(exit_price, why, now),
    {
        match self.position.take() {
            Some(held) => {
                let mut closed = held;
                closed.close(exit_price, now);
                self.last_exit = Some((closed, why));
                self.transition_at(State::Idle, String::from_str(why.as_str()), now);
            },
            None => {},
        }
    }

    /// Applies `action` at the clock reading `now`. An action whose
    /// precondition is unmet is dropped and changes nothing.
    pub fn execute_at(&mut self, action: Action, now: i64)
        ensures
            final(self)@ == old(self)@.executed(action@, now),
    {
        match action {
            Action::EnterLong { price, quantity } => {
                self.enter_position(price, quantity, Side::Long, now);
            },
            Action::EnterShort { price, quantity } => {
                self.enter_position(price, quantity, Side::Short, now);
            },
            Action::ExitPosition { price } => {
                self.exit_position(price, ExitReason::Requested, now);
            },
            Action::UpdateStopLoss { new_stop } => {
                match self.position {
                    Some(held) => {
                        let mut moved = held;
                        moved.set_stop_loss(new_stop);
                        self.position = Some(moved);
                    },
                    None => {},
                }
            },
            Action::UpdateTakeProfit { new_target } => {
                match self.position {
                    Some(held) => {
                        let mut moved = held;
                        moved.set_take_profit(new_target);
                        self.position = Some(moved);
                    },
                    None => {},
                }
            },
            Action::StartAnalyzing { reason } => {
                if self.state.is_idle() {
                    self.transition_at(State::Analyzing, reason, now);
                }
            },
            Action::CancelAnalysis { reason } => {
                if self.state.is_analyzing() {
                    self.transition_at(State::Idle, reason, now);
                }
            },
            Action::NoAction => {},
        }
    }

    /// Applies `action`, stamping what it logs with the present time. It
    /// never fails: an action whose precondition is unmet is dropped.
    pub fn execute(&mut self, action: Action) -> (done: Result<(), TradingEngineError>)
        ensures
            done is Ok,
            exists|now: i64| final(self)@ == #[trigger] old(self)@.executed(action@, now),
    {
        let now = now_millis();
        self.execute_at(action, now);
        Ok(())
    }

    /// Takes in a bar at the clock reading `now`: records its close and time
    /// in the context, reprices the held position and closes it at the bar's
    /// close when the stop or, failing that, the target is reached.
    pub fn update_at(&mut self, data: &MarketData, now: i64)
        ensures
            final(self)@ == old(self)@.updated(data.close, data.timestamp, now),
            old(self)@.forced_exit(data.close) is Some ==> final(self)@.position is None
                && final(self)@.state == State::Idle,
    {
        self.context.set_latest_price(data.close);
        self.context.set_latest_timestamp(data.timestamp);
        match self.position {
            Some(held) => {
                let mut priced = held;
                priced.update_current_price(data.close);
                self.position = Some(priced);
                if priced.is_stop_loss_hit() {
                    self.exit_position(data.close, ExitReason::StopLoss, now);
                } else if priced.is_take_profit_hit() {
                    self.exit_position(data.close, ExitReason::TakeProfit, now);
                }
            },
            None => {},
        }
    }

    /// Takes in a bar, stamping an automatic exit with the present time.
    pub fn update(&mut self, data: &MarketData)
        ensures
            exists|now: i64| final(self)@ == #[trigger] old(self)@.updated(
                data.close,
                data.timestamp,
                now,
            ),
            old(self)@.forced_exit(data.close) is Some ==> final(self)@.position is None
                && final(self)@.state == State::Idle,
    {
        let now = now_millis();
        self.update_at(data, now);
    }

    /// Returns the machine to its starting condition: idle, empty context, no
    /// position, empty log.
    pub fn reset(&mut self)
        ensures
            final(self)@ == old(self)@.cleared(),
    {
        self.state = State::Idle;
        self.context = Context::new();
        self.position = None;
        self.transition_history = TransitionLog::new();
        self.last_exit = None;
        assert(log_views(self.transition_history.held()) =~= Seq::<TransitionView>::empty());
    }
}

/// One thing that can happen to a machine: an action is applied or a bar is
/// taken in, each at some clock reading.
pub enum MachineInput {
    Apply { action: ActionView, now: i64 },
    Bar { close: Decimal, timestamp: i64, now: i64 },
}

impl MachineView {
    /// State and position agree as the transition table has it: a position
    /// is held exactly in `InPosition`, and a held position is open.
    pub open spec fn settled(self) -> bool {
        &&& (self.state == State::InPosition) <==> self.position is Some
        &&& self.position is Some ==> !self.position.unwrap().is_closed()
    }

    /// The machine after one input.
    pub open spec fn after(self, input: MachineInput) -> MachineView {
        match input {
            MachineInput::Apply { action, now } => self.executed(action, now),
            MachineInput::Bar { close, timestamp, now } => self.updated(close, timestamp, now),
        }
    }

    /// The machine after `inputs`, taken in order.
    pub open spec fn after_all(self, inputs: Seq<MachineInput>) -> MachineView
        decreases inputs.len(),
    {
        if inputs.len() == 0 {
            self
        } else {
            self.after_all(inputs.drop_last()).after(inputs.last())
        }
    }
}

/// A settled machine with a bounded log stays so under every single input.
pub proof fn lemma_input_keeps_settled(machine: MachineView, input: MachineInput)
    requires
        machine.settled(),
        machine.log_bounded(),
    ensures
        machine.after(input).settled(),
        machine.after(input).coherent(),
        machine.after(input).log_bounded(),
        machine.after(input).symbol == machine.symbol,
{
}

/// After any sequence of actions and bars applied to a fresh machine, the
/// state is `InPosition` exactly when an open position is held, no position
/// is held in `Idle` or `Analyzing`, and the log holds at most
/// [`MAX_TRANSITION_HISTORY`] entries.
pub proof fn lemma_fresh_machine_stays_settled(symbol: Seq<char>, inputs: Seq<MachineInput>)
    ensures
        MachineView::fresh(symbol).after_all(inputs).settled(),
        MachineView::fresh(symbol).after_all(inputs).coherent(),
        MachineView::fresh(symbol).after_all(inputs).log_bounded(),
    decreases inputs.len(),
{
    if inputs.len() > 0 {
        lemma_fresh_machine_stays_settled(symbol, inputs.drop_last());
        lemma_input_keeps_settled(
            MachineView::fresh(symbol).after_all(inputs.drop_last()),
            inputs.last(),
        );
    }
}

/// What each action does to state and position, row by row of the
/// transition table.
pub proof fn lemma_action_table(machine: MachineView, action: ActionView, now: i64)
    ensures
        action is EnterLong || action is EnterShort ==> machine.executed(action, now).state
            == State::InPosition && machine.executed(action, now).holds_open_position(),
        action is ExitPosition && machine.position is Some ==> machine.executed(action, now).state
            == State::Idle && machine.executed(action, now).position is None,
        action is ExitPosition && machine.position is None ==> machine.executed(action, now)
            == machine,
        action is UpdateStopLoss || action is UpdateTakeProfit ==> machine.executed(
            action,
            now,
        ).state == machine.state && machine.executed(action, now).position is Some
            == machine.position is Some && machine.executed(action, now).history
            == machine.history,
        (action is UpdateStopLoss || action is UpdateTakeProfit) && machine.position is None
            ==> machine.executed(action, now) == machine,
        action is StartAnalyzing && machine.state == State::Idle ==> machine.executed(
            action,
            now,
        ).state == State::Analyzing && machine.executed(action, now).position == machine.position,
        action is StartAnalyzing && machine.state != State::Idle ==> machine.executed(action, now)
            == machine,
        action is CancelAnalysis && machine.state == State::Analyzing ==> machine.executed(
            action,
            now,
        ).state == State::Idle && machine.executed(action, now).position == machine.position,
        action is CancelAnalysis && machine.state != State::Analyzing ==> machine.executed(
            action,
            now,
        ) == machine,
        action is NoAction ==> machine.executed(action, now) == machine,
{
}

/// A settled machine only ever makes the four legal moves, or stays where
/// it is.
pub proof fn lemma_moves_are_legal(machine: MachineView, input: MachineInput)
    requires
        machine.settled(),
    ensures
        machine.after(input).state == machine.state || legal_transition(
            machine.state,
            machine.after(input).state,
        ) || (input is Apply && (input->action is EnterLong || input->action is EnterShort)),
{
}

/// When a bar closes where the held open position's stop or target is
/// reached, the machine ends with no position and in `Idle`, and the closed
/// position is kept with its exit at the bar's close. The stop wins over the
/// target.
pub proof fn lemma_auto_exit(machine: MachineView, close: Decimal, timestamp: i64, now: i64)
    requires
        machine.holds_open_position(),
        machine.position.unwrap().with_price(close).stop_hit() || machine.position.unwrap().with_price(
            close,
        ).target_hit(),
    ensures
        machine.updated(close, timestamp, now).position is None,
        machine.updated(close, timestamp, now).state == State::Idle,
        machine.updated(close, timestamp, now).last_exit is Some,
        machine.updated(close, timestamp, now).last_exit.unwrap().0.exit == Some((close, now)),
        machine.updated(close, timestamp, now).last_exit.unwrap().0.realized_pnl()
            == machine.position.unwrap().with_price(close).unrealized_pnl(),
        machine.updated(close, timestamp, now).last_exit.unwrap().1 == if machine.position.unwrap().with_price(
            close,
        ).stop_hit() {
            ExitReason::StopLoss
        } else {
            ExitReason::TakeProfit
        },
{
}

/// When neither level is reached the position stays open at the new price
/// and the state does not change.
pub proof fn lemma_no_exit_without_trigger(
    machine: MachineView,
    close: Decimal,
    timestamp: i64,
    now: i64,
)
    requires
        machine.holds_open_position(),
        !machine.position.unwrap().with_price(close).stop_hit(),
        !machine.position.unwrap().with_price(close).target_hit(),
    ensures
        machine.updated(close, timestamp, now).state == machine.state,
        machine.updated(close, timestamp, now).position == Some(
            machine.position.unwrap().with_price(close),
        ),
        machine.updated(close, timestamp, now).history == machine.history,
{
}

} // verus!
