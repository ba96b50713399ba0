//! The three states of the trading machine.

use vstd::prelude::*;
use vstd::string::StringExecFns;

verus! {

/// Where a runner's trading machine currently stands.
#[derive(Debug, Clone, Copy, PartialEq, Eq, Structural, Hash)]
pub enum State {
    /// Waiting for an opportunity.
    Idle,
    /// An opportunity was seen and is being weighed.
    Analyzing,
    /// A position is held.
    InPosition,
}

impl State {
    /// True exactly for [`State::InPosition`].
    pub fn is_in_position(&self) -> (held: bool)
        ensures
            held == (*self == State::InPosition),
    {
        matches!(self, State::InPosition)
    }

    /// True exactly for [`State::Analyzing`].
    pub fn is_analyzing(&self) -> (analyzing: bool)
        ensures
            analyzing == (*self == State::Analyzing),
    {
        matches!(self, State::Analyzing)
    }

    /// True exactly for [`State::Idle`].
    pub fn is_idle(&self) -> (idle: bool)
        ensures
            idle == (*self == State::Idle),
    {
        matches!(self, State::Idle)
    }

    /// The state's name as it is shown to people.
    pub open spec fn name(self) -> Seq<char> {
        match self {
            State::Idle => "Idle"@,
            State::Analyzing => "Analyzing"@,
            State::InPosition => "InPosition"@,
        }
    }

    /// The state's name as a static string.
    pub fn as_str(&self) -> (text: &'static str)
        ensures
            text@ == self.name(),
    {
        match self {
            State::Idle => "Idle",
            State::Analyzing => "Analyzing",
            State::InPosition => "InPosition",
        }
    }

    /// The state's name as an owned string.
    pub fn to_string(&self) -> (text: String)
        ensures
            text@ == self.name(),
    {
        String::from_str(self.as_str())
    }
}

/// Whether the machine may move from `from` to `to` in one step.
pub open spec fn legal_transition(from: State, to: State) -> bool {
    ||| (from == State::Idle && to == State::Analyzing)
    ||| (from == State::Analyzing && to == State::Idle)
    ||| (from == State::Analyzing && to == State::InPosition)
    ||| (from == State::InPosition && to == State::Idle)
}

} // verus!
