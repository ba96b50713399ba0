//! The trading machine as a runner holds it: driven by actions and bars
//! only, so that its state and its position always agree.

use vstd::prelude::*;
use crate::decimal::Decimal;
use crate::market_data::MarketData;
use crate::runner::noted;
use crate::state_machine::{
    lemma_input_keeps_settled, Action, MachineInput, MachineView, StateMachine,
};
use crate::strategy::{ScriptRecord, ScriptValue};

verus! {

/// A trading machine that is settled: a position is held exactly in
/// `InPosition`, a held position is open, and the log is within its bound.
pub struct SettledMachine {
    inner: StateMachine,
}

impl View for SettledMachine {
    type V = MachineView;

    closed spec fn view(&self) -> MachineView {
        self.inner@
    }
}

impl SettledMachine {
    #[verifier::type_invariant]
    closed spec fn is_settled(&self) -> bool {
        self.inner@.settled() && self.inner@.log_bounded()
    }

    /// The machine as it is stored.
    pub closed spec fn inner(&self) -> StateMachine {
        self.inner
    }

    /// A fresh machine for `symbol`.
    pub fn new(symbol: String) -> (machine: SettledMachine)
        ensures
            machine@ == MachineView::fresh(symbol@),
    {
        SettledMachine { inner: StateMachine::new(symbol) }
    }

    /// The machine, for reading. It is settled.
    pub fn machine(&self) -> (machine: &StateMachine)
        ensures
            *machine == self.inner(),
            machine@ == self@,
            self@.settled(),
            self@.log_bounded(),
    {
        proof {
            use_type_invariant(self);
        }
        &self.inner
    }

    /// Applies `action` at the clock reading `now`.
    pub fn execute_at(&mut self, action: Action, now: i64)
        ensures
            final(self)@ == old(self)@.executed(action@, now),
    {
        proof {
            use_type_invariant(&*self);
            lemma_input_keeps_settled(self@, MachineInput::Apply { action: action@, now });
        }
        let mut inner = StateMachine::new(String::new());
        std::mem::swap(&mut inner, &mut self.inner);
        inner.execute_at(action, now);
        self.inner = inner;
    }

    /// Takes in a bar at the clock reading `now`.
    pub fn update_at(&mut self, data: &MarketData, now: i64)
        ensures
            final(self)@ == old(self)@.updated(data.close, data.timestamp, now),
    {
        proof {
            use_type_invariant(&*self);
            lemma_input_keeps_settled(
                self@,
                MachineInput::Bar { close: data.close, timestamp: data.timestamp, now },
            );
        }
        let mut inner = StateMachine::new(String::new());
        std::mem::swap(&mut inner, &mut self.inner);
        inner.update_at(data, now);
        self.inner = inner;
    }

    /// Writes a bar's close and time into the context.
    pub fn record_latest(&mut self, close: Decimal, timestamp: i64)
        ensures
            final(self)@ == (MachineView {
                context: old(self)@.context.with_latest(close, timestamp),
                ..old(self)@
            }),
    {
        proof {
            use_type_invariant(&*self);
        }
        let mut inner = StateMachine::new(String::new());
        std::mem::swap(&mut inner, &mut self.inner);
        let context = inner.context_mut();
        context.set_latest_price(close);
        context.set_latest_timestamp(timestamp);
        self.inner = inner;
    }

    /// Copies the recognised fields of an opportunity into the context:
    /// "signal" when it is text and "confidence" when it is a number.
    pub fn note_opportunity(&mut self, record: &ScriptRecord)
        ensures
            final(self)@ == (MachineView {
                context: noted(old(self)@.context, record@),
                ..old(self)@
            }),
    {
        proof {
            use_type_invariant(&*self);
        }
        let mut inner = StateMachine::new(String::new());
        std::mem::swap(&mut inner, &mut self.inner);
        let context = inner.context_mut();
        match record.get("signal") {
            Some(ScriptValue::Text(signal)) => {
                context.set("signal", signal.clone());
            },
            _ => {},
        }
        let confidence = match record.get("confidence") {
            Some(ScriptValue::Number(n)) => Some(*n),
            Some(ScriptValue::Integer(i)) => Decimal::from_int(*i),
            _ => None,
        };
        match confidence {
            Some(confidence) => {
                context.set("confidence", confidence);
            },
            None => {},
        }
        self.inner = inner;
    }
}

} // verus!
