//! The read-only view of a runner's window that a strategy is given.

use vstd::prelude::*;
use crate::decimal::Decimal;
use crate::indicators::{
    ema_series, exponential_moving_average, mean_at, relative_strength_index, rsi_series,
    window_mean,
};
use crate::market_data::window::{
    highest_of, is_highest, is_lowest, lowest_of, spread_of, volume_sum,
};
use crate::market_data::{MarketData, MarketDataWindow};

verus! {

/// The closes of `bars`, in order.
pub open spec fn closes_of(bars: Seq<MarketData>) -> Seq<Decimal> {
    bars.map_values(|bar: MarketData| bar.close)
}

/// The simple moving average over the last `period` of `closes`: none when
/// the period is zero or longer than the series.
pub open spec fn sma_of(closes: Seq<Decimal>, period: int) -> Option<int> {
    if period <= 0 || period > closes.len() {
        None
    } else {
        Some(
            mean_at(closes, closes.len() - period, period),
        )
    }
}

/// Lookups over a copy of the runner's window.
pub struct IndicatorApi {
    window: MarketDataWindow,
}

impl Clone for IndicatorApi {
    /// A view over a copy of the same bars.
    fn clone(&self) -> (copy: Self)
        ensures
            copy.bars() == self.bars(),
    {
        IndicatorApi { window: self.window.clone() }
    }
}

impl IndicatorApi {
    /// The bars the view looks at, oldest first.
    pub closed spec fn bars(&self) -> Seq<MarketData> {
        self.window.bars()
    }

    /// A view over `window`.
    pub fn new(window: MarketDataWindow) -> (api: IndicatorApi)
        ensures
            api.bars() == window.bars(),
    {
        IndicatorApi { window }
    }

    /// Every close in the window, oldest first.
    pub fn closes(&self) -> (closes: Vec<Decimal>)
        ensures
            closes@ == closes_of(self.bars()),
    {
        let n = self.window.len();
        let closes = self.window.closes(n);
        assert(self.window.recent(n) == self.window.bars());
        assert(closes@ =~= closes_of(self.bars()));
        closes
    }

    /// The mean of the last `period` closes, rounded towards zero.
    pub fn sma(&self, period: usize) -> (mean: Option<Decimal>)
        ensures
            mean is Some == sma_of(closes_of(self.bars()), period as int) is Some,
            mean is Some ==> mean.unwrap().units == sma_of(
                closes_of(self.bars()),
                period as int,
            ).unwrap(),
    {
        let closes = self.closes();
        let n = closes.len();
        if period == 0 || period > n {
            return None;
        }
        Some(window_mean(&closes, n - period, period))
    }

    /// The latest exponential moving average of the closes over `period`;
    /// `None` when the period is zero or longer than the window.
    pub fn ema(&self, period: usize) -> (average: Option<Decimal>)
        ensures
            average == if ema_series(closes_of(self.bars()), period as int).len() == 0 {
                None
            } else {
                Some(ema_series(closes_of(self.bars()), period as int).last())
            },
    {
        let closes = self.closes();
        let averages = exponential_moving_average(&closes, period);
        let n = averages.len();
        if n == 0 {
            None
        } else {
            Some(averages[n - 1])
        }
    }

    /// The latest relative strength index of the closes over `period`;
    /// `None` when the period is zero or not shorter than the window.
    pub fn rsi(&self, period: usize) -> (index: Option<Decimal>)
        ensures
            index == if rsi_series(closes_of(self.bars()), period as int).len() == 0 {
                None
            } else {
                Some(rsi_series(closes_of(self.bars()), period as int).last())
            },
    {
        let closes = self.closes();
        let indices = relative_strength_index(&closes, period);
        let n = indices.len();
        if n == 0 {
            None
        } else {
            Some(indices[n - 1])
        }
    }

    /// The greatest high in the window.
    pub fn high(&self) -> (high: Option<Decimal>)
        ensures
            high is None <==> self.bars().len() == 0,
            high is Some ==> is_highest(self.bars(), high.unwrap()),
            high is Some ==> high.unwrap() == highest_of(self.bars()),
    {
        let n = self.window.len();
        assert(self.window.recent(n) == self.window.bars());
        self.window.high(n)
    }

    /// The least low in the window.
    pub fn low(&self) -> (low: Option<Decimal>)
        ensures
            low is None <==> self.bars().len() == 0,
            low is Some ==> is_lowest(self.bars(), low.unwrap()),
            low is Some ==> low.unwrap() == lowest_of(self.bars()),
    {
        let n = self.window.len();
        assert(self.window.recent(n) == self.window.bars());
        self.window.low(n)
    }

    /// The spread between the greatest high and the least low; `None` when
    /// the window is empty or the spread does not fit.
    pub fn range(&self) -> (range: Option<Decimal>)
        ensures
            range == spread_of(self.bars()),
    {
        let n = self.window.len();
        assert(self.window.recent(n) == self.window.bars());
        self.window.range(n)
    }

    /// The mean volume of the window, rounded down.
    pub fn avg_volume(&self) -> (avg: Option<u64>)
        ensures
            avg is None <==> self.bars().len() == 0,
            avg is Some ==> avg.unwrap() == volume_sum(self.bars()) / self.bars().len(),
    {
        let n = self.window.len();
        assert(self.window.recent(n) == self.window.bars());
        self.window.avg_volume(n)
    }
}

} // verus!
