//! Market bars and the bounded window of recent bars.

use vstd::prelude::*;
use vstd::string::StringExecFns;
use crate::decimal::Decimal;
use crate::error::TradingEngineError;

pub mod window;

pub use window::MarketDataWindow;

verus! {

/// One completed interval of one instrument.
#[derive(Debug, PartialEq, Eq)]
pub struct MarketData {
    /// The instrument, for example "BTCUSDT".
    pub symbol: String,
    /// When the interval opened, in milliseconds since the Unix epoch.
    pub timestamp: i64,
    pub open: Decimal,
    pub high: Decimal,
    pub low: Decimal,
    pub close: Decimal,
    pub volume: u64,
    /// Best buying price.
    pub bid: Decimal,
    /// Best selling price.
    pub ask: Decimal,
}

impl Clone for MarketData {
    fn clone(&self) -> (copy: Self)
        ensures
            copy == *self,
    {
        MarketData {
            symbol: self.symbol.clone(),
            timestamp: self.timestamp,
            open: self.open,
            high: self.high,
            low: self.low,
            close: self.close,
            volume: self.volume,
            bid: self.bid,
            ask: self.ask,
        }
    }
}

/// Half of `sum`, rounded towards zero.
pub open spec fn half_towards_zero(sum: int) -> int {
    if sum >= 0 {
        sum / 2
    } else {
        -((-sum) / 2)
    }
}

/// The rule a bar breaks first, if it breaks one.
pub enum BarFault {
    /// The high lies below the low.
    HighBelowLow,
    /// The open or the close is not above zero.
    PriceNotPositive,
    /// The ask lies below the bid.
    AskBelowBid,
}

impl MarketData {
    /// The ingest rules: `high >= low`, `open > 0`, `close > 0` and
    /// `ask >= bid`.
    pub open spec fn is_valid(&self) -> bool {
        &&& self.high.units >= self.low.units
        &&& self.open.units > 0
        &&& self.close.units > 0
        &&& self.ask.units >= self.bid.units
    }

    /// The first ingest rule the bar breaks, in the order in which the rules
    /// are checked.
    pub open spec fn fault(&self) -> Option<BarFault> {
        if self.high.units < self.low.units {
            Some(BarFault::HighBelowLow)
        } else if self.open.units <= 0 || self.close.units <= 0 {
            Some(BarFault::PriceNotPositive)
        } else if self.ask.units < self.bid.units {
            Some(BarFault::AskBelowBid)
        } else {
            None
        }
    }

    /// The message that reports `fault`.
    pub open spec fn fault_text(fault: BarFault) -> Seq<char> {
        match fault {
            BarFault::HighBelowLow => "Invalid OHLC: high is below low"@,
            BarFault::PriceNotPositive => "Price values must be positive"@,
            BarFault::AskBelowBid => "Invalid quote: ask is below bid"@,
        }
    }

    /// The point halfway between bid and ask, rounded towards zero.
    pub fn mid_price(&self) -> (mid: Decimal)
        ensures
            mid.units == half_towards_zero(self.bid.units + self.ask.units),
    {
        let sum: i128 = self.bid.units as i128 + self.ask.units as i128;
        let half: i128 = if sum >= 0 {
            sum / 2
        } else {
            -((-sum) / 2)
        };
        Decimal { units: half as i64 }
    }

    /// Checks the ingest rules. A bar that passes is accepted by the engine;
    /// one that fails is reported as `InvalidData` with the text of the first
    /// rule it breaks. A zero volume is accepted.
    pub fn validate(&self) -> (checked: Result<(), TradingEngineError>)
        ensures
            checked is Ok <==> self.is_valid(),
            checked is Ok <==> self.fault() is None,
            checked is Err ==> checked->Err_0 is InvalidData,
            checked is Err ==> checked->Err_0->InvalidData_0@ == Self::fault_text(
                self.fault().unwrap(),
            ),
    {
        if self.high.units < self.low.units {
            return Err(
                TradingEngineError::InvalidData(
                    String::from_str("Invalid OHLC: high is below low"),
                ),
            );
        }
        if self.open.units <= 0 || self.close.units <= 0 {
            return Err(
                TradingEngineError::InvalidData(String::from_str("Price values must be positive")),
            );
        }
        if self.ask.units < self.bid.units {
            return Err(
                TradingEngineError::InvalidData(
                    String::from_str("Invalid quote: ask is below bid"),
                ),
            );
        }
        Ok(())
    }
}

/// Every bar that passes the ingest check has `high >= low`, `open > 0` and
/// `close > 0`.
pub proof fn lemma_accepted_bar_is_sound(bar: MarketData)
    requires
        bar.fault() is None,
    ensures
        bar.high.units >= bar.low.units,
        bar.open.units > 0,
        bar.close.units > 0,
        bar.ask.units >= bar.bid.units,
        bar.is_valid(),
{
}

} // verus!
