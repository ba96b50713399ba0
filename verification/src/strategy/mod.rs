//! The surface between a runner and its strategy.
//!
//! A strategy is anything that answers the three callbacks of [`Strategy`].
//! A scripted strategy hands back records of scalar values; this module turns
//! such a record into an [`Action`] or into context entries, and rejects what
//! it cannot accept.

use vstd::prelude::*;
use vstd::string::StringExecFns;
use crate::decimal::{Decimal, SCALE};
use crate::error::TradingEngineError;
use crate::market_data::MarketData;
use crate::state_machine::action::ActionView;
use crate::state_machine::context::{Context, ContextView, ValueTable};
use crate::state_machine::Action;

pub mod indicator;

pub use indicator::IndicatorApi;

verus! {

/// One value in a record that a strategy hands back.
#[derive(Debug, PartialEq, Eq)]
pub enum ScriptValue {
    /// The absent value.
    Nil,
    Boolean(bool),
    Integer(i64),
    Number(Decimal),
    Text(String),
    /// Anything that is not a scalar: a table, a function.
    Other,
}

impl Clone for ScriptValue {
    fn clone(&self) -> (copy: Self)
        ensures
            copy == *self,
    {
        match self {
            ScriptValue::Nil => ScriptValue::Nil,
            ScriptValue::Boolean(b) => ScriptValue::Boolean(*b),
            ScriptValue::Integer(i) => ScriptValue::Integer(*i),
            ScriptValue::Number(n) => ScriptValue::Number(*n),
            ScriptValue::Text(t) => ScriptValue::Text(t.clone()),
            ScriptValue::Other => ScriptValue::Other,
        }
    }
}

/// A record of values under text keys, as a strategy hands it back.
pub type ScriptRecord = ValueTable<ScriptValue>;

/// The three callbacks of a strategy. Each is given the current bar, the
/// runner's context and the indicator view, all read-only; what a callback
/// returns is the only way it acts on the runner.
pub trait Strategy {
    /// Asked while idle: a record describing an opportunity, or nothing.
    fn detect_opportunity(
        &self,
        market_data: &MarketData,
        context: &Context,
        indicators: &IndicatorApi,
    ) -> Result<Option<ScriptRecord>, TradingEngineError>;

    /// Asked while analyzing: an action to apply, or nothing.
    fn filter_commitment(
        &self,
        market_data: &MarketData,
        context: &Context,
        indicators: &IndicatorApi,
    ) -> Result<Option<Action>, TradingEngineError>;

    /// Asked while a position is held: an action to apply, or nothing.
    fn manage_position(
        &self,
        market_data: &MarketData,
        context: &Context,
        indicators: &IndicatorApi,
    ) -> Result<Option<Action>, TradingEngineError>;
}

/// Why a record cannot be read as an action.
pub enum RecordFault {
    /// The "action" field is there and is not text.
    ActionNotText,
    /// The "action" field names no known kind.
    UnknownAction { kind: Seq<char> },
    /// A numeric field that the kind needs is absent or not a number.
    MissingNumber { field: Seq<char> },
    /// The "reason" field is there and is not text.
    ReasonNotText,
}

impl RecordFault {
    /// The message that reports the fault.
    pub open spec fn message(self) -> Seq<char> {
        match self {
            RecordFault::ActionNotText => "action field must be a string"@,
            RecordFault::UnknownAction { kind } => "Unknown action type: "@ + kind,
            RecordFault::MissingNumber { field } => "Missing numeric field: "@ + field,
            RecordFault::ReasonNotText => "reason field must be a string"@,
        }
    }
}

/// The number a value stands for: a number as it is, an integer as that many
/// wholes when they fit, and nothing for every other kind.
pub open spec fn as_number(value: ScriptValue) -> Option<Decimal> {
    match value {
        ScriptValue::Number(n) => Some(n),
        ScriptValue::Integer(i) => if i64::MIN <= i * SCALE <= i64::MAX {
            Some(Decimal { units: (i * SCALE) as i64 })
        } else {
            None
        },
        _ => None,
    }
}

/// The number under `field`, if there is one.
pub open spec fn number_in(record: Map<Seq<char>, ScriptValue>, field: Seq<char>) -> Option<
    Decimal,
> {
    if record.contains_key(field) {
        as_number(record[field])
    } else {
        None
    }
}

/// The reason a record gives: its "reason" text, `fallback` when the field is
/// absent or nil, and a fault for any other kind.
pub open spec fn reason_in(record: Map<Seq<char>, ScriptValue>, fallback: Seq<char>) -> Result<
    Seq<char>,
    RecordFault,
> {
    if record.contains_key("reason"@) {
        match record["reason"@] {
            ScriptValue::Text(t) => Ok(t@),
            ScriptValue::Nil => Ok(fallback),
            _ => Err(RecordFault::ReasonNotText),
        }
    } else {
        Ok(fallback)
    }
}

/// An entry read from the fields "price" and "quantity".
pub open spec fn entry_in(record: Map<Seq<char>, ScriptValue>, long: bool) -> Result<
    Option<ActionView>,
    RecordFault,
> {
    match number_in(record, "price"@) {
        None => Err(RecordFault::MissingNumber { field: "price"@ }),
        Some(price) => match number_in(record, "quantity"@) {
            None => Err(RecordFault::MissingNumber { field: "quantity"@ }),
            Some(quantity) => if long {
                Ok(Some(ActionView::EnterLong { price, quantity }))
            } else {
                Ok(Some(ActionView::EnterShort { price, quantity }))
            },
        },
    }
}

/// The action of kind `kind` that `record` describes.
pub open spec fn action_of_kind(record: Map<Seq<char>, ScriptValue>, kind: Seq<char>) -> Result<
    Option<ActionView>,
    RecordFault,
> {
    if kind == "enter_long"@ {
        entry_in(record, true)
    } else if kind == "enter_short"@ {
        entry_in(record, false)
    } else if kind == "exit"@ {
        match number_in(record, "price"@) {
            Some(price) => Ok(Some(ActionView::ExitPosition { price })),
            None => Err(RecordFault::MissingNumber { field: "price"@ }),
        }
    } else if kind == "update_stop_loss"@ {
        match number_in(record, "new_stop"@) {
            Some(new_stop) => Ok(Some(ActionView::UpdateStopLoss { new_stop })),
            None => Err(RecordFault::MissingNumber { field: "new_stop"@ }),
        }
    } else if kind == "update_take_profit"@ {
        match number_in(record, "new_target"@) {
            Some(new_target) => Ok(Some(ActionView::UpdateTakeProfit { new_target })),
            None => Err(RecordFault::MissingNumber { field: "new_target"@ }),
        }
    } else if kind == "start_analyzing"@ {
        match reason_in(record, "Strategy signal"@) {
            Ok(reason) => Ok(Some(ActionView::StartAnalyzing { reason })),
            Err(fault) => Err(fault),
        }
    } else if kind == "cancel_analysis"@ {
        match reason_in(record, "Conditions not met"@) {
            Ok(reason) => Ok(Some(ActionView::CancelAnalysis { reason })),
            Err(fault) => Err(fault),
        }
    } else {
        Err(RecordFault::UnknownAction { kind })
    }
}

/// The action that `record` describes: none when it has no "action" field or
/// a nil one, a fault when the field is not text, and otherwise what its
/// kind says.
pub open spec fn action_of(record: Map<Seq<char>, ScriptValue>) -> Result<
    Option<ActionView>,
    RecordFault,
> {
    if record.contains_key("action"@) {
        match record["action"@] {
            ScriptValue::Text(kind) => action_of_kind(record, kind@),
            ScriptValue::Nil => Ok(None),
            _ => Err(RecordFault::ActionNotText),
        }
    } else {
        Ok(None)
    }
}

/// Whether `text` reads exactly as `literal`.
fn reads_as(text: &String, literal: &str) -> (same: bool)
    ensures
        same == (text@ == literal@),
{
    let other = String::from_str(literal);
    *text == other
}

/// The error that reports a missing numeric field.
fn missing_number(field: &str) -> (error: TradingEngineError)
    ensures
        error is StrategyError,
        error->StrategyError_0@ == (RecordFault::MissingNumber { field: field@ }).message(),
{
    let mut message = String::from_str("Missing numeric field: ");
    message.append(field);
    TradingEngineError::StrategyError(message)
}

/// The number under `field`.
fn read_number(table: &ScriptRecord, field: &str) -> (number: Option<Decimal>)
    ensures
        number == number_in(table@, field@),
{
    match table.get(field) {
        Some(ScriptValue::Number(n)) => Some(*n),
        Some(ScriptValue::Integer(i)) => Decimal::from_int(*i),
        _ => None,
    }
}

/// The reason that `table` gives, or `fallback`.
fn read_reason(table: &ScriptRecord, fallback: &str) -> (reason: Result<String, TradingEngineError>)
    ensures
        match reason {
            Ok(text) => reason_in(table@, fallback@) == Ok::<Seq<char>, RecordFault>(text@),
            Err(error) => reason_in(table@, fallback@) is Err && error is StrategyError
                && error->StrategyError_0@ == reason_in(table@, fallback@)->Err_0.message(),
        },
{
    match table.get("reason") {
        Some(ScriptValue::Text(t)) => Ok(t.clone()),
        Some(ScriptValue::Nil) => Ok(String::from_str(fallback)),
        None => Ok(String::from_str(fallback)),
        Some(_) => Err(
            TradingEngineError::StrategyError(String::from_str("reason field must be a string")),
        ),
    }
}

/// Whether `outcome` is what `expected` asks for: the same action, or a
/// `StrategyError` that reports the same fault.
pub open spec fn decodes_to(
    outcome: Result<Option<Action>, TradingEngineError>,
    expected: Result<Option<ActionView>, RecordFault>,
) -> bool {
    match expected {
        Ok(None) => outcome == Ok::<Option<Action>, TradingEngineError>(None),
        Ok(Some(action)) => outcome is Ok && outcome->Ok_0 is Some && outcome->Ok_0->0@ == action,
        Err(fault) => outcome is Err && outcome->Err_0 is StrategyError
            && outcome->Err_0->StrategyError_0@ == fault.message(),
    }
}

/// Reads the two numbers of an entry.
fn read_entry(table: &ScriptRecord, long: bool) -> (outcome: Result<
    Option<Action>,
    TradingEngineError,
>)
    ensures
        decodes_to(outcome, entry_in(table@, long)),
{
    let price = match read_number(table, "price") {
        Some(price) => price,
        None => {
            return Err(missing_number("price"));
        },
    };
    let quantity = match read_number(table, "quantity") {
        Some(quantity) => quantity,
        None => {
            return Err(missing_number("quantity"));
        },
    };
    if long {
        Ok(Some(Action::EnterLong { price, quantity }))
    } else {
        Ok(Some(Action::EnterShort { price, quantity }))
    }
}

/// Reads the record a strategy handed back as an action. A record without an
/// "action" field asks for nothing. An unknown kind, a missing or
/// non-numeric number and a non-text reason are reported as `StrategyError`.
pub fn table_to_action(table: &ScriptRecord) -> (outcome: Result<
    Option<Action>,
    TradingEngineError,
>)
    ensures
        decodes_to(outcome, action_of(table@)),
{
    let kind: &String = match table.get("action") {
        Some(ScriptValue::Text(kind)) => kind,
        Some(ScriptValue::Nil) => {
            return Ok(None);
        },
        None => {
            return Ok(None);
        },
        Some(_) => {
            return Err(
                TradingEngineError::StrategyError(
                    String::from_str("action field must be a string"),
                ),
            );
        },
    };
    if reads_as(kind, "enter_long") {
        read_entry(table, true)
    } else if reads_as(kind, "enter_short") {
        read_entry(table, false)
    } else if reads_as(kind, "exit") {
        match read_number(table, "price") {
            Some(price) => Ok(Some(Action::ExitPosition { price })),
            None => Err(missing_number("price")),
        }
    } else if reads_as(kind, "update_stop_loss") {
        match read_number(table, "new_stop") {
            Some(new_stop) => Ok(Some(Action::UpdateStopLoss { new_stop })),
            None => Err(missing_number("new_stop")),
        }
    } else if reads_as(kind, "update_take_profit") {
        match read_number(table, "new_target") {
            Some(new_target) => Ok(Some(Action::UpdateTakeProfit { new_target })),
            None => Err(missing_number("new_target")),
        }
    } else if reads_as(kind, "start_analyzing") {
        match read_reason(table, "Strategy signal") {
            Ok(reason) => Ok(Some(Action::StartAnalyzing { reason })),
            Err(error) => Err(error),
        }
    } else if reads_as(kind, "cancel_analysis") {
        match read_reason(table, "Conditions not met") {
            Ok(reason) => Ok(Some(Action::CancelAnalysis { reason })),
            Err(error) => Err(error),
        }
    } else {
        let mut message = String::from_str("Unknown action type: ");
        message.append(kind.as_str());
        Err(TradingEngineError::StrategyError(message))
    }
}

/// The context after every scalar of `record` is written into it: a number
/// among the numbers, a text among the strings, an integer among the
/// integers and a boolean among the booleans, each under its key. Values of
/// other kinds are passed over, and what the context held under other keys
/// stays.
pub open spec fn merged(context: ContextView, record: Map<Seq<char>, ScriptValue>) -> ContextView {
    ContextView {
        strings: Map::new(
            |k: Seq<char>|
                context.strings.contains_key(k) || (record.contains_key(k) && record[k] is Text),
            |k: Seq<char>|
                if record.contains_key(k) && record[k] is Text {
                    record[k]->Text_0
                } else {
                    context.strings[k]
                },
        ),
        numbers: Map::new(
            |k: Seq<char>|
                context.numbers.contains_key(k) || (record.contains_key(k) && record[k] is Number),
            |k: Seq<char>|
                if record.contains_key(k) && record[k] is Number {
                    record[k]->Number_0
                } else {
                    context.numbers[k]
                },
        ),
        integers: Map::new(
            |k: Seq<char>|
                context.integers.contains_key(k) || (record.contains_key(k)
                    && record[k] is Integer),
            |k: Seq<char>|
                if record.contains_key(k) && record[k] is Integer {
                    record[k]->Integer_0
                } else {
                    context.integers[k]
                },
        ),
        booleans: Map::new(
            |k: Seq<char>|
                context.booleans.contains_key(k) || (record.contains_key(k)
                    && record[k] is Boolean),
            |k: Seq<char>|
                if record.contains_key(k) && record[k] is Boolean {
                    record[k]->Boolean_0
                } else {
                    context.booleans[k]
                },
        ),
    }
}

/// The part of `table` that stands below the index `upto`.
spec fn head(table: &ScriptRecord, upto: int) -> Map<Seq<char>, ScriptValue> {
    Map::new(
        |k: Seq<char>| table@.contains_key(k) && table.index_of(k) < upto,
        |k: Seq<char>| table@[k],
    )
}

/// Writes every scalar of `table` into `context` under its key, within the
/// kind of the value. Values that are no scalars are passed over.
pub fn update_context_from_lua(context: &mut Context, table: &ScriptRecord) -> (done: Result<
    (),
    TradingEngineError,
>)
    ensures
        done is Ok,
        final(context)@ == merged(old(context)@, table@),
{
    let n = table.len();
    let ghost start = context@;
    let mut i: usize = 0;
    proof {
        let none = head(table, 0);
        assert(merged(start, none).strings =~= start.strings);
        assert(merged(start, none).numbers =~= start.numbers);
        assert(merged(start, none).integers =~= start.integers);
        assert(merged(start, none).booleans =~= start.booleans);
    }
    while i < n
        invariant
            i <= n,
            n == table.count(),
            forall|k: Seq<char>| #[trigger]
                table@.contains_key(k) ==> 0 <= table.index_of(k) < n && table.key_of(
                    table.index_of(k),
                ) == k,
            forall|a: int, b: int|
                0 <= a < b < n ==> #[trigger] table.key_of(a) != #[trigger] table.key_of(b),
            context@ == merged(start, head(table, i as int)),
        decreases n - i,
    {
        let ghost before = context@;
        let ghost shorter = head(table, i as int);
        let ghost longer = head(table, i + 1);
        match table.entry(i) {
            Some((key, value)) => {
                proof {
                    let k = key@;
                    assert(table.key_of(i as int) == k);
                    let at = table.index_of(k);
                    assert(at == i) by {
                        if at < i {
                            assert(table.key_of(at) != table.key_of(i as int));
                        } else if i < at {
                            assert(table.key_of(i as int) != table.key_of(at));
                        }
                    }
                    assert(longer =~= shorter.insert(k, table@[k]));
                    assert(!shorter.contains_key(k));
                }
                match value {
                    ScriptValue::Number(number) => {
                        context.set(key.as_str(), *number);
                    },
                    ScriptValue::Text(text) => {
                        context.set(key.as_str(), text.clone());
                    },
                    ScriptValue::Integer(integer) => {
                        context.set(key.as_str(), *integer);
                    },
                    ScriptValue::Boolean(boolean) => {
                        context.set(key.as_str(), *boolean);
                    },
                    _ => {},
                }
                proof {
                    assert(context@.strings =~= merged(start, longer).strings);
                    assert(context@.numbers =~= merged(start, longer).numbers);
                    assert(context@.integers =~= merged(start, longer).integers);
                    assert(context@.booleans =~= merged(start, longer).booleans);
                }
            },
            None => {},
        }
        i = i + 1;
    }
    proof {
        assert(head(table, n as int) =~= table@);
    }
    Ok(())
}

} // verus!
