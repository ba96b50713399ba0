//! A bounded window over the most recent bars of one symbol.

use vstd::prelude::*;
use std::collections::VecDeque;
use crate::decimal::Decimal;
use crate::market_data::MarketData;

verus! {

/// The sum of the volumes of `bars`.
pub open spec fn volume_sum(bars: Seq<MarketData>) -> nat
    decreases bars.len(),
{
    if bars.len() == 0 {
        0
    } else {
        volume_sum(bars.drop_last()) + bars.last().volume as nat
    }
}

/// The last `min(period, bars.len())` bars of `bars`, oldest first.
pub open spec fn last_bars(bars: Seq<MarketData>, period: nat) -> Seq<MarketData> {
    if period >= bars.len() {
        bars
    } else {
        bars.subrange(bars.len() - period, bars.len() as int)
    }
}

/// `bars` after one more bar arrives at a window of `capacity` bars: when the
/// window is full the oldest bar leaves first.
pub open spec fn pushed(bars: Seq<MarketData>, capacity: nat, bar: MarketData) -> Seq<MarketData> {
    if bars.len() >= capacity && bars.len() > 0 {
        bars.drop_first().push(bar)
    } else {
        bars.push(bar)
    }
}

/// `high` is the greatest high among `bars`.
pub open spec fn is_highest(bars: Seq<MarketData>, high: Decimal) -> bool {
    &&& forall|i: int| 0 <= i < bars.len() ==> (#[trigger] bars[i]).high.units <= high.units
    &&& exists|i: int| 0 <= i < bars.len() && (#[trigger] bars[i]).high == high
}

/// `low` is the least low among `bars`.
pub open spec fn is_lowest(bars: Seq<MarketData>, low: Decimal) -> bool {
    &&& forall|i: int| 0 <= i < bars.len() ==> (#[trigger] bars[i]).low.units >= low.units
    &&& exists|i: int| 0 <= i < bars.len() && (#[trigger] bars[i]).low == low
}

/// The greatest high among `bars`, which must not be empty.
pub open spec fn highest_of(bars: Seq<MarketData>) -> Decimal {
    choose|high: Decimal| is_highest(bars, high)
}

/// The least low among `bars`, which must not be empty.
pub open spec fn lowest_of(bars: Seq<MarketData>) -> Decimal {
    choose|low: Decimal| is_lowest(bars, low)
}

/// The spread between the greatest high and the least low of `bars`: none
/// for no bars and none when the difference does not fit.
pub open spec fn spread_of(bars: Seq<MarketData>) -> Option<Decimal> {
    if bars.len() == 0 {
        None
    } else if i64::MIN <= highest_of(bars).units - lowest_of(bars).units <= i64::MAX {
        Some(Decimal { units: (highest_of(bars).units - lowest_of(bars).units) as i64 })
    } else {
        None
    }
}

/// There is only one greatest high.
pub proof fn lemma_highest_is_unique(bars: Seq<MarketData>, high: Decimal)
    requires
        is_highest(bars, high),
    ensures
        highest_of(bars) == high,
{
    let other = highest_of(bars);
    let i = choose|i: int| 0 <= i < bars.len() && (#[trigger] bars[i]).high == high;
    let j = choose|j: int| 0 <= j < bars.len() && (#[trigger] bars[j]).high == other;
    assert(bars[i].high.units <= other.units);
    assert(bars[j].high.units <= high.units);
}

/// There is only one least low.
pub proof fn lemma_lowest_is_unique(bars: Seq<MarketData>, low: Decimal)
    requires
        is_lowest(bars, low),
    ensures
        lowest_of(bars) == low,
{
    let other = lowest_of(bars);
    let i = choose|i: int| 0 <= i < bars.len() && (#[trigger] bars[i]).low == low;
    let j = choose|j: int| 0 <= j < bars.len() && (#[trigger] bars[j]).low == other;
    assert(bars[i].low.units >= other.units);
    assert(bars[j].low.units >= low.units);
}

/// The most recent bars of one symbol, oldest first.
pub struct MarketDataWindow {
    data: VecDeque<MarketData>,
    max_size: usize,
}

impl MarketDataWindow {
    /// The bars held, oldest first.
    pub closed spec fn bars(&self) -> Seq<MarketData> {
        self.data@
    }

    /// The capacity the window was made with.
    pub closed spec fn capacity(&self) -> nat {
        self.max_size as nat
    }

    /// The window holds no more than its capacity, except that a window of
    /// capacity zero keeps the latest bar.
    #[verifier::type_invariant]
    closed spec fn within_capacity(&self) -> bool {
        self.data@.len() <= self.max_size || self.data@.len() <= 1
    }

    /// The last `min(period, len)` bars, oldest first.
    pub open spec fn recent(&self, period: usize) -> Seq<MarketData> {
        last_bars(self.bars(), period as nat)
    }

    /// An empty window that will hold at most `max_size` bars.
    pub fn new(max_size: usize) -> (window: MarketDataWindow)
        ensures
            window.bars() == Seq::<MarketData>::empty(),
            window.capacity() == max_size,
    {
        MarketDataWindow { data: VecDeque::with_capacity(max_size), max_size }
    }

    /// Appends `market_data`; a full window drops its oldest bar first.
    pub fn push(&mut self, market_data: MarketData)
        ensures
            final(self).bars() == pushed(old(self).bars(), old(self).capacity(), market_data),
            final(self).capacity() == old(self).capacity(),
    {
        proof {
            use_type_invariant(&*self);
        }
        let mut data: VecDeque<MarketData> = VecDeque::new();
        std::mem::swap(&mut data, &mut self.data);
        let ghost before = data@;
        if data.len() >= self.max_size {
            let _ = data.pop_front();
        }
        data.push_back(market_data);
        proof {
            assert(before.len() > 0 ==> before.drop_first() =~= before.subrange(
                1,
                before.len() as int,
            ));
        }
        self.data = data;
    }

    /// How many bars are held: never more than the capacity, except that a
    /// window of capacity zero keeps the latest bar.
    pub fn len(&self) -> (n: usize)
        ensures
            n == self.bars().len(),
            n <= self.capacity() || n <= 1,
    {
        proof {
            use_type_invariant(self);
        }
        self.data.len()
    }

    /// True when no bar is held.
    pub fn is_empty(&self) -> (empty: bool)
        ensures
            empty == (self.bars().len() == 0),
    {
        self.data.len() == 0
    }

    /// The bar at `index`, counting from the oldest.
    pub fn get(&self, index: usize) -> (bar: Option<&MarketData>)
        ensures
            bar == if index < self.bars().len() {
                Some(&self.bars()[index as int])
            } else {
                None
            },
    {
        if index < self.data.len() {
            Some(&self.data[index])
        } else {
            None
        }
    }

    /// The newest bar.
    pub fn latest(&self) -> (bar: Option<&MarketData>)
        ensures
            bar == if self.bars().len() > 0 {
                Some(&self.bars().last())
            } else {
                None
            },
    {
        let n = self.data.len();
        if n > 0 {
            Some(&self.data[n - 1])
        } else {
            None
        }
    }

    /// The oldest bar.
    pub fn oldest(&self) -> (bar: Option<&MarketData>)
        ensures
            bar == if self.bars().len() > 0 {
                Some(&self.bars().first())
            } else {
                None
            },
    {
        if self.data.len() > 0 {
            Some(&self.data[0])
        } else {
            None
        }
    }

    /// Where the last `period` bars begin.
    fn recent_start(&self, period: usize) -> (start: usize)
        ensures
            start <= self.bars().len(),
            self.recent(period) == self.bars().subrange(start as int, self.bars().len() as int),
            self.recent(period).len() == self.bars().len() - start,
            start == if period >= self.bars().len() {
                0
            } else {
                self.bars().len() - period
            },
    {
        let n = self.data.len();
        if period >= n {
            assert(self.bars().subrange(0, n as int) =~= self.bars());
            0
        } else {
            n - period
        }
    }

    /// The greatest high over the last `period` bars; `None` when that range
    /// is empty.
    pub fn high(&self, period: usize) -> (high: Option<Decimal>)
        ensures
            high is None <==> self.recent(period).len() == 0,
            high is Some ==> is_highest(self.recent(period), high.unwrap()),
            high is Some ==> high.unwrap() == highest_of(self.recent(period)),
    {
        let n = self.data.len();
        let start = self.recent_start(period);
        if start >= n {
            return None;
        }
        let ghost recent = self.recent(period);
        let mut best: Decimal = self.data[start].high;
        let ghost mut at: int = 0;
        let mut i: usize = start + 1;
        assert(recent[0] == self.data@[start as int]);
        while i < n
            invariant
                start < i <= n,
                n == self.data@.len(),
                recent == self.data@.subrange(start as int, n as int),
                0 <= at < i - start,
                recent[at].high == best,
                forall|k: int| 0 <= k < i - start ==> (#[trigger] recent[k]).high.units <= best.units,
            decreases n - i,
        {
            let candidate = self.data[i].high;
            assert(recent[i - start] == self.data@[i as int]);
            if candidate.units >= best.units {
                best = candidate;
                proof {
                    at = i - start;
                }
            }
            i = i + 1;
        }
        proof {
            lemma_highest_is_unique(recent, best);
        }
        Some(best)
    }

    /// The least low over the last `period` bars; `None` when that range is
    /// empty.
    pub fn low(&self, period: usize) -> (low: Option<Decimal>)
        ensures
            low is None <==> self.recent(period).len() == 0,
            low is Some ==> is_lowest(self.recent(period), low.unwrap()),
            low is Some ==> low.unwrap() == lowest_of(self.recent(period)),
    {
        let n = self.data.len();
        let start = self.recent_start(period);
        if start >= n {
            return None;
        }
        let ghost recent = self.recent(period);
        let mut best: Decimal = self.data[start].low;
        let ghost mut at: int = 0;
        let mut i: usize = start + 1;
        assert(recent[0] == self.data@[start as int]);
        while i < n
            invariant
                start < i <= n,
                n == self.data@.len(),
                recent == self.data@.subrange(start as int, n as int),
                0 <= at < i - start,
                recent[at].low == best,
                forall|k: int| 0 <= k < i - start ==> (#[trigger] recent[k]).low.units >= best.units,
            decreases n - i,
        {
            let candidate = self.data[i].low;
            assert(recent[i - start] == self.data@[i as int]);
            if candidate.units <= best.units {
                best = candidate;
                proof {
                    at = i - start;
                }
            }
            i = i + 1;
        }
        proof {
            lemma_lowest_is_unique(recent, best);
        }
        Some(best)
    }

    /// The mean volume over the last `period` bars, rounded down; `None` when
    /// that range is empty.
    pub fn avg_volume(&self, period: usize) -> (avg: Option<u64>)
        ensures
            avg is None <==> self.recent(period).len() == 0,
            avg is Some ==> avg.unwrap() == volume_sum(self.recent(period)) / self.recent(
                period,
            ).len(),
    {
        let n = self.data.len();
        let start = self.recent_start(period);
        if start >= n {
            return None;
        }
        let ghost recent = self.recent(period);
        let mut sum: u128 = 0;
        let mut i: usize = start;
        assert(recent.subrange(0, 0) =~= Seq::<MarketData>::empty());
        while i < n
            invariant
                start <= i <= n,
                n == self.data@.len(),
                recent == self.data@.subrange(start as int, n as int),
                sum == volume_sum(recent.subrange(0, i - start)),
                sum <= (i - start) * u64::MAX,
            decreases n - i,
        {
            let volume = self.data[i].volume;
            proof {
                let next = recent.subrange(0, i - start + 1);
                assert(next.drop_last() =~= recent.subrange(0, i - start));
                assert(next.last() == self.data@[i as int]);
                assert((i - start) * u64::MAX + u64::MAX == (i - start + 1) * u64::MAX)
                    by (nonlinear_arith);
                assert((i - start + 1) * u64::MAX <= usize::MAX * u64::MAX) by (nonlinear_arith)
                    requires
                        i - start + 1 <= usize::MAX,
                ;
                assert(usize::MAX * u64::MAX <= u64::MAX * u64::MAX) by (nonlinear_arith)
                    requires
                        usize::MAX <= u64::MAX,
                ;
            }
            sum = sum + volume as u128;
            i = i + 1;
        }
        let count: u128 = (n - start) as u128;
        proof {
            assert(recent.subrange(0, n - start) =~= recent);
            assert(sum / count <= u64::MAX) by (nonlinear_arith)
                requires
                    sum <= count * u64::MAX,
                    count > 0,
            ;
        }
        Some((sum / count) as u64)
    }

    /// The closes of the last `period` bars, oldest first.
    pub fn closes(&self, period: usize) -> (closes: Vec<Decimal>)
        ensures
            closes@.len() == self.recent(period).len(),
            forall|k: int| 0 <= k < closes@.len() ==> closes@[k] == (#[trigger] self.recent(
                period,
            )[k]).close,
    {
        let n = self.data.len();
        let start = self.recent_start(period);
        let ghost recent = self.recent(period);
        let mut closes: Vec<Decimal> = Vec::new();
        let mut i: usize = start;
        while i < n
            invariant
                start <= i <= n,
                n == self.data@.len(),
                recent == self.data@.subrange(start as int, n as int),
                closes@.len() == i - start,
                forall|k: int| 0 <= k < closes@.len() ==> closes@[k] == (#[trigger] recent[k]).close,
            decreases n - i,
        {
            assert(recent[i - start] == self.data@[i as int]);
            closes.push(self.data[i].close);
            i = i + 1;
        }
        closes
    }

    /// The spread between the greatest high and the least low over the last
    /// `period` bars; `None` when that range is empty or the spread does not
    /// fit.
    pub fn range(&self, period: usize) -> (range: Option<Decimal>)
        ensures
            range == spread_of(self.recent(period)),
    {
        let high = match self.high(period) {
            Some(h) => h,
            None => {
                return None;
            },
        };
        let low = match self.low(period) {
            Some(l) => l,
            None => {
                return None;
            },
        };
        high.checked_sub(&low)
    }

    /// Drops every bar.
    pub fn clear(&mut self)
        ensures
            final(self).bars() == Seq::<MarketData>::empty(),
            final(self).capacity() == old(self).capacity(),
    {
        self.data = VecDeque::new();
    }

    /// The last `count` bars, oldest first, or all of them for `None`.
    pub fn history(&self, count: Option<usize>) -> (bars: Vec<MarketData>)
        ensures
            bars@ == match count {
                Some(n) => self.recent(n),
                None => self.bars(),
            },
    {
        let n = self.data.len();
        let start = match count {
            Some(c) => self.recent_start(c),
            None => {
                assert(self.bars().subrange(0, n as int) =~= self.bars());
                0
            },
        };
        let ghost wanted = self.data@.subrange(start as int, n as int);
        let mut bars: Vec<MarketData> = Vec::new();
        let mut i: usize = start;
        while i < n
            invariant
                start <= i <= n,
                n == self.data@.len(),
                wanted == self.data@.subrange(start as int, n as int),
                bars@ == wanted.subrange(0, i - start),
            decreases n - i,
        {
            bars.push(self.data[i].clone());
            assert(bars@ =~= wanted.subrange(0, i - start + 1));
            i = i + 1;
        }
        assert(bars@ =~= wanted);
        bars
    }

    /// An iterator over the bars held, oldest first.
    pub fn iter(&self) -> (bars: std::collections::vec_deque::Iter<'_, MarketData>)
        ensures
            vstd::std_specs::iter::IteratorSpec::remaining(&bars) == self.bars().as_ref(),
    {
        broadcast use vstd::std_specs::vecdeque::axiom_spec_iter;

        self.data.iter()
    }

    /// Every bar held, oldest first.
    pub fn to_vec(&self) -> (bars: Vec<MarketData>)
        ensures
            bars@ == self.bars(),
    {
        self.history(None)
    }
}

impl Clone for MarketDataWindow {
    /// A deep copy: the same bars and the same capacity.
    fn clone(&self) -> (copy: Self)
        ensures
            copy.bars() == self.bars(),
            copy.capacity() == self.capacity(),
    {
        proof {
            use_type_invariant(self);
        }
        let n = self.data.len();
        let mut data: VecDeque<MarketData> = VecDeque::with_capacity(self.max_size);
        let mut i: usize = 0;
        while i < n
            invariant
                0 <= i <= n,
                n == self.data@.len(),
                data@ == self.data@.subrange(0, i as int),
            decreases n - i,
        {
            data.push_back(self.data[i].clone());
            assert(data@ =~= self.data@.subrange(0, i + 1));
            i = i + 1;
        }
        assert(data@ =~= self.data@);
        MarketDataWindow { data, max_size: self.max_size }
    }
}

} // verus!
