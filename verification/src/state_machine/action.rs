//! What a strategy may ask the trading machine to do.

use vstd::prelude::*;
use vstd::string::StringExecFns;
use crate::decimal::Decimal;

verus! {

/// The direction of a position.
#[derive(Debug, Clone, Copy, PartialEq, Eq, Structural, Hash)]
pub enum Side {
    /// Profits when the price rises.
    Long,
    /// Profits when the price falls.
    Short,
}

impl Side {
    /// The side's name as it is shown to people.
    pub open spec fn name(self) -> Seq<char> {
        match self {
            Side::Long => "Long"@,
            Side::Short => "Short"@,
        }
    }

    /// The side's name as a static string.
    pub fn as_str(&self) -> (text: &'static str)
        ensures
            text@ == self.name(),
    {
        match self {
            Side::Long => "Long",
            Side::Short => "Short",
        }
    }

    /// The side's name as an owned string.
    pub fn to_string(&self) -> (text: String)
        ensures
            text@ == self.name(),
    {
        String::from_str(self.as_str())
    }
}

/// A strategy's requested effect on the trading machine.
#[derive(Debug, PartialEq, Eq)]
pub enum Action {
    /// Open a long position.
    EnterLong { price: Decimal, quantity: Decimal },
    /// Open a short position.
    EnterShort { price: Decimal, quantity: Decimal },
    /// Close the held position at `price`.
    ExitPosition { price: Decimal },
    /// Move the held position's stop.
    UpdateStopLoss { new_stop: Decimal },
    /// Move the held position's target.
    UpdateTakeProfit { new_target: Decimal },
    /// Leave `Idle` for `Analyzing`.
    StartAnalyzing { reason: String },
    /// Leave `Analyzing` for `Idle`.
    CancelAnalysis { reason: String },
    /// Change nothing.
    NoAction,
}

/// An [`Action`] with its reason as text.
pub enum ActionView {
    EnterLong { price: Decimal, quantity: Decimal },
    EnterShort { price: Decimal, quantity: Decimal },
    ExitPosition { price: Decimal },
    UpdateStopLoss { new_stop: Decimal },
    UpdateTakeProfit { new_target: Decimal },
    StartAnalyzing { reason: Seq<char> },
    CancelAnalysis { reason: Seq<char> },
    NoAction,
}

impl View for Action {
    type V = ActionView;

    open spec fn view(&self) -> ActionView {
        match *self {
            Action::EnterLong { price, quantity } => ActionView::EnterLong { price, quantity },
            Action::EnterShort { price, quantity } => ActionView::EnterShort { price, quantity },
            Action::ExitPosition { price } => ActionView::ExitPosition { price },
            Action::UpdateStopLoss { new_stop } => ActionView::UpdateStopLoss { new_stop },
            Action::UpdateTakeProfit { new_target } => ActionView::UpdateTakeProfit { new_target },
            Action::StartAnalyzing { reason } => ActionView::StartAnalyzing { reason: reason@ },
            Action::CancelAnalysis { reason } => ActionView::CancelAnalysis { reason: reason@ },
            Action::NoAction => ActionView::NoAction,
        }
    }
}

impl Clone for Action {
    fn clone(&self) -> (copy: Self)
        ensures
            copy == *self,
    {
        match self {
            Action::EnterLong { price, quantity } => Action::EnterLong {
                price: *price,
                quantity: *quantity,
            },
            Action::EnterShort { price, quantity } => Action::EnterShort {
                price: *price,
                quantity: *quantity,
            },
            Action::ExitPosition { price } => Action::ExitPosition { price: *price },
            Action::UpdateStopLoss { new_stop } => Action::UpdateStopLoss { new_stop: *new_stop },
            Action::UpdateTakeProfit { new_target } => Action::UpdateTakeProfit {
                new_target: *new_target,
            },
            Action::StartAnalyzing { reason } => Action::StartAnalyzing { reason: reason.clone() },
            Action::CancelAnalysis { reason } => Action::CancelAnalysis { reason: reason.clone() },
            Action::NoAction => Action::NoAction,
        }
    }
}

impl Action {
    /// True for the two actions that open a position.
    pub fn is_entry(&self) -> (entry: bool)
        ensures
            entry == (self is EnterLong || self is EnterShort),
    {
        matches!(self, Action::EnterLong { .. } | Action::EnterShort { .. })
    }

    /// True for the action that closes a position.
    pub fn is_exit(&self) -> (exit: bool)
        ensures
            exit == (self is ExitPosition),
    {
        matches!(self, Action::ExitPosition { .. })
    }

    /// The side an entry opens, and `None` for every other action.
    pub fn entry_side(&self) -> (side: Option<Side>)
        ensures
            side == match *self {
                Action::EnterLong { .. } => Some(Side::Long),
                Action::EnterShort { .. } => Some(Side::Short),
                _ => None,
            },
    {
        match self {
            Action::EnterLong { .. } => Some(Side::Long),
            Action::EnterShort { .. } => Some(Side::Short),
            _ => None,
        }
    }
}

} // verus!
