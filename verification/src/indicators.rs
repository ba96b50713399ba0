//! Technical indicators over series of fixed-point values.
//!
//! Every indicator is an exact function of its inputs: sums and products are
//! formed in wide integers and each division rounds in a stated direction.

use vstd::prelude::*;
use crate::decimal::{Decimal, SCALE};

verus! {

/// The sum of the units of `values`.
pub open spec fn units_sum(values: Seq<Decimal>) -> int
    decreases values.len(),
{
    if values.len() == 0 {
        0
    } else {
        units_sum(values.drop_last()) + values.last().units
    }
}

/// `a / b`, rounded towards zero.
pub open spec fn quotient(a: int, b: int) -> int {
    if a >= 0 {
        a / b
    } else {
        -((-a) / b)
    }
}

/// `x`, held within the 64-bit range.
pub open spec fn clamped(x: int) -> int {
    if x < i64::MIN {
        i64::MIN as int
    } else if x > i64::MAX {
        i64::MAX as int
    } else {
        x
    }
}

/// The mean of the `period` values from `start` on, rounded towards zero.
pub open spec fn mean_at(values: Seq<Decimal>, start: int, period: int) -> int {
    quotient(units_sum(values.subrange(start, start + period)), period)
}

/// The sum of a series is bounded by its length.
pub proof fn lemma_units_sum_bounds(values: Seq<Decimal>)
    ensures
        -(values.len() * 0x8000_0000_0000_0000) <= units_sum(values) <= values.len()
            * 0x7fff_ffff_ffff_ffff,
    decreases values.len(),
{
    if values.len() > 0 {
        lemma_units_sum_bounds(values.drop_last());
        assert((values.len() - 1) * 0x8000_0000_0000_0000 + 0x8000_0000_0000_0000 == values.len()
            * 0x8000_0000_0000_0000) by (nonlinear_arith);
        assert((values.len() - 1) * 0x7fff_ffff_ffff_ffff + 0x7fff_ffff_ffff_ffff == values.len()
            * 0x7fff_ffff_ffff_ffff) by (nonlinear_arith);
    }
}

/// A quotient lies within the bounds that its dividend allows.
pub proof fn lemma_quotient_bounds(a: int, b: int, low: int, high: int)
    requires
        b > 0,
        low <= 0 <= high,
        low * b <= a <= high * b,
    ensures
        low <= quotient(a, b) <= high,
{
    if a >= 0 {
        assert(0 <= a / b <= high) by (nonlinear_arith)
            requires
                0 <= a <= high * b,
                b > 0,
        ;
    } else {
        assert((-low) * b == -(low * b)) by (nonlinear_arith);
        assert(0 <= (-a) / b <= -low) by (nonlinear_arith)
            requires
                0 <= -a <= (-low) * b,
                b > 0,
        ;
    }
}

/// A mean of 64-bit values is a 64-bit value.
pub proof fn lemma_mean_fits(values: Seq<Decimal>, start: int, period: int)
    requires
        0 <= start,
        0 < period,
        start + period <= values.len(),
    ensures
        i64::MIN <= mean_at(values, start, period) <= i64::MAX,
{
    let part = values.subrange(start, start + period);
    lemma_units_sum_bounds(part);
    assert(part.len() == period);
    assert(-(period * 0x8000_0000_0000_0000) == (-0x8000_0000_0000_0000) * period)
        by (nonlinear_arith);
    assert(period * 0x7fff_ffff_ffff_ffff == 0x7fff_ffff_ffff_ffff * period) by (nonlinear_arith);
    lemma_quotient_bounds(units_sum(part), period, -0x8000_0000_0000_0000, 0x7fff_ffff_ffff_ffff);
}

/// Computes [`quotient`].
fn divide(a: i128, b: i128) -> (q: i128)
    requires
        b > 0,
        a > i128::MIN,
    ensures
        q == quotient(a as int, b as int),
{
    if a >= 0 {
        a / b
    } else {
        proof {
            let (n, d) = (-(a as int), b as int);
            assert(0 <= n / d <= n) by (nonlinear_arith)
                requires
                    0 <= n,
                    d > 0,
            ;
        }
        -((-a) / b)
    }
}

/// `x` as a decimal, held within the 64-bit range.
fn clamp(x: i128) -> (d: Decimal)
    ensures
        d.units == clamped(x as int),
{
    if x < i64::MIN as i128 {
        Decimal { units: i64::MIN }
    } else if x > i64::MAX as i128 {
        Decimal { units: i64::MAX }
    } else {
        Decimal { units: x as i64 }
    }
}

/// The mean of the `period` values from `start` on.
pub(crate) fn window_mean(values: &Vec<Decimal>, start: usize, period: usize) -> (mean: Decimal)
    requires
        period > 0,
        start + period <= values@.len(),
    ensures
        mean.units == mean_at(values@, start as int, period as int),
{
    let n = values.len();
    let end = start + period;
    let ghost part = values@.subrange(start as int, end as int);
    let mut sum: i128 = 0;
    let mut i: usize = start;
    assert(part.subrange(0, 0) =~= Seq::<Decimal>::empty());
    while i < end
        invariant
            start <= i <= end,
            end <= values@.len(),
            part == values@.subrange(start as int, end as int),
            sum == units_sum(part.subrange(0, i - start)),
        decreases end - i,
    {
        proof {
            let next = part.subrange(0, i - start + 1);
            assert(next.drop_last() =~= part.subrange(0, i - start));
            assert(next.last() == values@[i as int]);
            lemma_units_sum_bounds(next);
            assert(next.len() * 0x8000_0000_0000_0000 <= 0xffff_ffff_ffff_ffff
                * 0x8000_0000_0000_0000 && next.len() * 0x7fff_ffff_ffff_ffff
                <= 0xffff_ffff_ffff_ffff * 0x8000_0000_0000_0000) by (nonlinear_arith)
                requires
                    0 <= next.len() <= 0xffff_ffff_ffff_ffff,
            ;
        }
        sum = sum + values[i].units as i128;
        i = i + 1;
    }
    proof {
        assert(part.subrange(0, end - start) =~= part);
        lemma_units_sum_bounds(part);
        assert(part.len() * 0x8000_0000_0000_0000 <= 0xffff_ffff_ffff_ffff
            * 0x8000_0000_0000_0000) by (nonlinear_arith)
            requires
                0 <= part.len() <= 0xffff_ffff_ffff_ffff,
        ;
        lemma_mean_fits(values@, start as int, period as int);
    }
    let mean = divide(sum, period as i128);
    Decimal { units: mean as i64 }
}

/// The simple moving averages of `data` over `period`: none when the period
/// is zero or longer than the series.
pub open spec fn sma_series(data: Seq<Decimal>, period: int) -> Seq<Decimal> {
    if period <= 0 || period > data.len() {
        Seq::empty()
    } else {
        Seq::new(
            (data.len() - period + 1) as nat,
            |i: int| Decimal { units: mean_at(data, i, period) as i64 },
        )
    }
}

/// The mean of every run of `period` consecutive values of `data`, each
/// rounded towards zero, in the order of the runs. The result is empty when
/// the period is zero or longer than the series.
pub fn simple_moving_average(data: &Vec<Decimal>, period: usize) -> (averages: Vec<Decimal>)
    ensures
        averages@ == sma_series(data@, period as int),
{
    let mut averages: Vec<Decimal> = Vec::new();
    if period == 0 || period > data.len() {
        return averages;
    }
    let runs = data.len() - period + 1;
    let mut i: usize = 0;
    while i < runs
        invariant
            0 < period <= data@.len(),
            runs == data@.len() - period + 1,
            i <= runs,
            averages@.len() == i,
            forall|k: int|
                0 <= k < i ==> (#[trigger] averages@[k]).units == mean_at(data@, k, period as int),
        decreases runs - i,
    {
        averages.push(window_mean(data, i, period));
        i = i + 1;
    }
    proof {
        assert forall|k: int| 0 <= k < averages@.len() implies averages@[k] == sma_series(
            data@,
            period as int,
        )[k] by {
            lemma_mean_fits(data@, k, period as int);
        }
        assert(averages@ =~= sma_series(data@, period as int));
    }
    averages
}

/// One step of exponential smoothing: `prev` moved towards `price` by
/// `2 / (period + 1)` of their distance, rounded towards `prev`.
pub open spec fn ema_step(prev: int, price: int, period: int) -> int {
    prev + quotient(2 * (price - prev), period + 1)
}

/// The exponential moving average of `data` over `period` at index `i`: the
/// mean of the first `period` values up to there, and smoothed from then on.
pub open spec fn ema_at(data: Seq<Decimal>, period: int, i: int) -> int
    decreases i,
{
    if i < period || i <= 0 {
        mean_at(data, 0, period)
    } else {
        ema_step(ema_at(data, period, i - 1), data[i].units as int, period)
    }
}

/// The exponential moving averages of `data` over `period`: none when the
/// period is zero or longer than the series.
pub open spec fn ema_series(data: Seq<Decimal>, period: int) -> Seq<Decimal> {
    if period <= 0 || period > data.len() {
        Seq::empty()
    } else {
        Seq::new(data.len(), |i: int| Decimal { units: ema_at(data, period, i) as i64 })
    }
}

/// A smoothing step ends between where it started and the price.
pub proof fn lemma_ema_step_between(prev: int, price: int, period: int)
    requires
        period >= 1,
    ensures
        prev <= price ==> prev <= ema_step(prev, price, period) <= price,
        price <= prev ==> price <= ema_step(prev, price, period) <= prev,
{
    let d = price - prev;
    let b = period + 1;
    if d >= 0 {
        assert(0 <= (2 * d) / b <= d) by (nonlinear_arith)
            requires
                d >= 0,
                b >= 2,
        ;
    } else {
        assert(0 <= (-(2 * d)) / b <= -d) by (nonlinear_arith)
            requires
                d < 0,
                b >= 2,
        ;
    }
}

/// An exponential moving average of 64-bit values is a 64-bit value.
pub proof fn lemma_ema_fits(data: Seq<Decimal>, period: int, i: int)
    requires
        1 <= period <= data.len(),
        0 <= i < data.len(),
    ensures
        i64::MIN <= ema_at(data, period, i) <= i64::MAX,
    decreases i,
{
    if i < period || i <= 0 {
        lemma_mean_fits(data, 0, period);
    } else {
        lemma_ema_fits(data, period, i - 1);
        lemma_ema_step_between(ema_at(data, period, i - 1), data[i].units as int, period);
    }
}

/// The exponential moving average of `data` over `period`, one value for
/// each value of `data`: the first `period` of them are the mean of the
/// first `period` values, and each later one moves the one before towards
/// the value at its index by `2 / (period + 1)` of their distance. The
/// result is empty when the period is zero or longer than the series.
pub fn exponential_moving_average(data: &Vec<Decimal>, period: usize) -> (averages: Vec<Decimal>)
    ensures
        averages@ == ema_series(data@, period as int),
{
    let mut averages: Vec<Decimal> = Vec::new();
    let n = data.len();
    if period == 0 || period > n {
        return averages;
    }
    let seed = window_mean(data, 0, period);
    let mut i: usize = 0;
    while i < period
        invariant
            0 < period <= n,
            n == data@.len(),
            i <= period,
            averages@.len() == i,
            seed.units == mean_at(data@, 0, period as int),
            forall|k: int|
                0 <= k < i ==> (#[trigger] averages@[k]).units == ema_at(data@, period as int, k),
        decreases period - i,
    {
        averages.push(seed);
        i = i + 1;
    }
    while i < n
        invariant
            0 < period <= i <= n,
            n == data@.len(),
            averages@.len() == i,
            forall|k: int|
                0 <= k < i ==> (#[trigger] averages@[k]).units == ema_at(data@, period as int, k),
        decreases n - i,
    {
        let prev = averages[i - 1].units;
        let price = data[i].units;
        proof {
            lemma_ema_fits(data@, period as int, i as int);
            assert(averages@[i - 1].units == ema_at(data@, period as int, i - 1));
        }
        let distance: i128 = 2 * (price as i128 - prev as i128);
        let moved: i128 = prev as i128 + divide(distance, period as i128 + 1);
        averages.push(Decimal { units: moved as i64 });
        i = i + 1;
    }
    proof {
        assert forall|k: int| 0 <= k < averages@.len() implies averages@[k] == ema_series(
            data@,
            period as int,
        )[k] by {
            lemma_ema_fits(data@, period as int, k);
        }
        assert(averages@ =~= ema_series(data@, period as int));
    }
    averages
}

/// How far the value after index `i` lies above the value at `i`; zero when
/// it does not.
pub open spec fn gain_at(data: Seq<Decimal>, i: int) -> int {
    if data[i + 1].units > data[i].units {
        data[i + 1].units - data[i].units
    } else {
        0
    }
}

/// How far the value after index `i` lies below the value at `i`; zero when
/// it does not.
pub open spec fn loss_at(data: Seq<Decimal>, i: int) -> int {
    if data[i + 1].units < data[i].units {
        data[i].units - data[i + 1].units
    } else {
        0
    }
}

/// The sum of the first `n` gains.
pub open spec fn gains_sum(data: Seq<Decimal>, n: int) -> int
    decreases n,
{
    if n <= 0 {
        0
    } else {
        gains_sum(data, n - 1) + gain_at(data, n - 1)
    }
}

/// The sum of the first `n` losses.
pub open spec fn losses_sum(data: Seq<Decimal>, n: int) -> int
    decreases n,
{
    if n <= 0 {
        0
    } else {
        losses_sum(data, n - 1) + loss_at(data, n - 1)
    }
}

/// The smoothed average gain that the index `i` is judged by: the mean of
/// the first `period` gains at `period`, and from then on the average
/// before, weighted `period - 1` times, with the latest gain, all divided by
/// `period` and rounded down.
pub open spec fn avg_gain_at(data: Seq<Decimal>, period: int, i: int) -> int
    decreases i,
{
    if i <= period || i <= 0 {
        gains_sum(data, period) / period
    } else {
        (avg_gain_at(data, period, i - 1) * (period - 1) + gain_at(data, i - 1)) / period
    }
}

/// The smoothed average loss that the index `i` is judged by.
pub open spec fn avg_loss_at(data: Seq<Decimal>, period: int, i: int) -> int
    decreases i,
{
    if i <= period || i <= 0 {
        losses_sum(data, period) / period
    } else {
        (avg_loss_at(data, period, i - 1) * (period - 1) + loss_at(data, i - 1)) / period
    }
}

/// The strength index for an average gain and an average loss, in units:
/// a hundred times the gain's share of both, rounded down. Without any loss
/// the ratio of gain to loss is taken to be a hundred.
pub open spec fn rsi_value(gain: int, loss: int) -> int {
    if loss == 0 {
        (100 * SCALE * 100) / 101
    } else {
        (100 * SCALE * gain) / (gain + loss)
    }
}

/// The relative strength index of `data` over `period` at index `i`: fifty
/// during the first `period` values.
pub open spec fn rsi_at(data: Seq<Decimal>, period: int, i: int) -> int {
    if i < period {
        50 * SCALE
    } else {
        rsi_value(avg_gain_at(data, period, i), avg_loss_at(data, period, i))
    }
}

/// The relative strength indices of `data` over `period`: none when the
/// period is zero or not shorter than the series.
pub open spec fn rsi_series(data: Seq<Decimal>, period: int) -> Seq<Decimal> {
    if period <= 0 || period >= data.len() {
        Seq::empty()
    } else {
        Seq::new(data.len(), |i: int| Decimal { units: rsi_at(data, period, i) as i64 })
    }
}

/// Gains and losses are between zero and the width of the 64-bit range.
proof fn lemma_change_bounds(data: Seq<Decimal>, i: int)
    requires
        0 <= i,
        i + 1 < data.len(),
    ensures
        0 <= gain_at(data, i) <= u64::MAX,
        0 <= loss_at(data, i) <= u64::MAX,
{
}

/// A smoothed average stays within the bound of what it averages.
proof fn lemma_smoothing_bounds(avg: int, change: int, period: int)
    requires
        period >= 1,
        0 <= avg <= u64::MAX,
        0 <= change <= u64::MAX,
    ensures
        0 <= avg * (period - 1) + change <= u64::MAX * period,
        0 <= (avg * (period - 1) + change) / period <= u64::MAX,
{
    assert(0 <= avg * (period - 1) <= u64::MAX * (period - 1)) by (nonlinear_arith)
        requires
            0 <= avg <= u64::MAX,
            period >= 1,
    ;
    assert(u64::MAX * (period - 1) + u64::MAX == u64::MAX * period) by (nonlinear_arith);
    let total = avg * (period - 1) + change;
    assert(0 <= total / period <= u64::MAX) by (nonlinear_arith)
        requires
            0 <= total <= u64::MAX * period,
            period >= 1,
    ;
}

/// A strength index lies between zero and a hundred.
proof fn lemma_rsi_value_bounds(gain: int, loss: int)
    requires
        0 <= gain,
        0 <= loss,
    ensures
        0 <= rsi_value(gain, loss) <= 100 * SCALE,
{
    if loss != 0 {
        let whole = 100 * SCALE;
        assert(0 <= (whole * gain) / (gain + loss) <= whole) by (nonlinear_arith)
            requires
                0 <= gain,
                0 < loss,
                whole >= 0,
        ;
    }
}

/// Computes one change of the series as a gain and a loss.
fn change_at(data: &Vec<Decimal>, i: usize) -> (change: (u128, u128))
    requires
        i + 1 < data@.len(),
    ensures
        change.0 == gain_at(data@, i as int),
        change.1 == loss_at(data@, i as int),
{
    let n = data.len();
    let from = data[i].units as i128;
    let to = data[i + 1].units as i128;
    if to > from {
        ((to - from) as u128, 0)
    } else if to < from {
        (0, (from - to) as u128)
    } else {
        (0, 0)
    }
}

/// Computes [`rsi_value`].
fn strength(gain: u128, loss: u128) -> (index: Decimal)
    requires
        gain <= u64::MAX,
        loss <= u64::MAX,
    ensures
        index.units == rsi_value(gain as int, loss as int),
{
    proof {
        lemma_rsi_value_bounds(gain as int, loss as int);
        assert(100 * SCALE * gain <= 100 * SCALE * u64::MAX) by (nonlinear_arith)
            requires
                gain <= u64::MAX,
        ;
    }
    let whole: u128 = 100 * (SCALE as u128);
    if loss == 0 {
        Decimal { units: ((whole * 100) / 101) as i64 }
    } else {
        Decimal { units: ((whole * gain) / (gain + loss)) as i64 }
    }
}

/// The relative strength index of `data` over `period`, one value for each
/// value of `data`: fifty for the first `period` of them, and from then on a
/// hundred times the smoothed average gain's share of the smoothed average
/// gain and loss. The result is empty when the period is zero or not
/// shorter than the series.
pub fn relative_strength_index(data: &Vec<Decimal>, period: usize) -> (indices: Vec<Decimal>)
    ensures
        indices@ == rsi_series(data@, period as int),
{
    let mut indices: Vec<Decimal> = Vec::new();
    let n = data.len();
    if period == 0 || period >= n {
        return indices;
    }
    let mut gains: u128 = 0;
    let mut losses: u128 = 0;
    let mut i: usize = 0;
    while i < period
        invariant
            0 < period < n,
            n == data@.len(),
            i <= period,
            indices@.len() == i,
            gains == gains_sum(data@, i as int),
            losses == losses_sum(data@, i as int),
            gains <= u64::MAX * i,
            losses <= u64::MAX * i,
            forall|k: int| 0 <= k < i ==> (#[trigger] indices@[k]).units == 50 * SCALE,
        decreases period - i,
    {
        let (gain, loss) = change_at(data, i);
        proof {
            lemma_change_bounds(data@, i as int);
            assert(u64::MAX * i + u64::MAX == u64::MAX * (i + 1)) by (nonlinear_arith);
            assert(u64::MAX * (i + 1) <= u64::MAX * u64::MAX) by (nonlinear_arith)
                requires
                    i + 1 <= u64::MAX,
            ;
        }
        gains = gains + gain;
        losses = losses + loss;
        indices.push(Decimal { units: 50 * SCALE });
        i = i + 1;
    }
    let p: u128 = period as u128;
    proof {
        assert(gains / p <= u64::MAX && losses / p <= u64::MAX) by (nonlinear_arith)
            requires
                gains <= u64::MAX * p,
                losses <= u64::MAX * p,
                p >= 1,
        ;
    }
    let mut avg_gain: u128 = gains / p;
    let mut avg_loss: u128 = losses / p;
    while i < n
        invariant
            0 < period <= i <= n,
            p == period,
            n == data@.len(),
            indices@.len() == i,
            avg_gain <= u64::MAX,
            avg_loss <= u64::MAX,
            i < n ==> avg_gain == avg_gain_at(data@, period as int, i as int),
            i < n ==> avg_loss == avg_loss_at(data@, period as int, i as int),
            forall|k: int|
                0 <= k < i ==> (#[trigger] indices@[k]).units == rsi_at(data@, period as int, k),
        decreases n - i,
    {
        indices.push(strength(avg_gain, avg_loss));
        if i < n - 1 {
            let (gain, loss) = change_at(data, i);
            proof {
                lemma_change_bounds(data@, i as int);
                lemma_smoothing_bounds(avg_gain as int, gain as int, period as int);
                lemma_smoothing_bounds(avg_loss as int, loss as int, period as int);
                assert(u64::MAX * period <= u64::MAX * u64::MAX) by (nonlinear_arith)
                    requires
                        period <= u64::MAX,
                ;
                assert(avg_gain * (p - 1) <= u64::MAX * period) by (nonlinear_arith)
                    requires
                        avg_gain <= u64::MAX,
                        p == period,
                        p >= 1,
                ;
                assert(avg_loss * (p - 1) <= u64::MAX * period) by (nonlinear_arith)
                    requires
                        avg_loss <= u64::MAX,
                        p == period,
                        p >= 1,
                ;
            }
            avg_gain = (avg_gain * (p - 1) + gain) / p;
            avg_loss = (avg_loss * (p - 1) + loss) / p;
        }
        i = i + 1;
    }
    proof {
        assert forall|k: int| 0 <= k < indices@.len() implies indices@[k] == rsi_series(
            data@,
            period as int,
        )[k] by {}
        assert(indices@ =~= rsi_series(data@, period as int));
    }
    indices
}

/// The differences of two series, value by value, as far as both reach,
/// each held within the 64-bit range.
pub open spec fn differences(a: Seq<Decimal>, b: Seq<Decimal>) -> Seq<Decimal> {
    Seq::new(
        if a.len() <= b.len() {
            a.len()
        } else {
            b.len()
        },
        |i: int| Decimal { units: clamped(a[i].units - b[i].units) as i64 },
    )
}

/// Computes [`differences`].
fn subtract_series(a: &Vec<Decimal>, b: &Vec<Decimal>) -> (out: Vec<Decimal>)
    ensures
        out@ == differences(a@, b@),
{
    let n = if a.len() <= b.len() {
        a.len()
    } else {
        b.len()
    };
    let mut out: Vec<Decimal> = Vec::new();
    let mut i: usize = 0;
    while i < n
        invariant
            i <= n,
            n <= a@.len(),
            n <= b@.len(),
            out@.len() == i,
            forall|k: int|
                0 <= k < i ==> (#[trigger] out@[k]).units == clamped(a@[k].units - b@[k].units),
        decreases n - i,
    {
        out.push(clamp(a[i].units as i128 - b[i].units as i128));
        i = i + 1;
    }
    assert(out@ =~= differences(a@, b@));
    out
}

/// The three lines of the moving average convergence divergence.
#[derive(Debug, PartialEq, Eq)]
pub struct MacdResult {
    pub macd_line: Vec<Decimal>,
    pub signal_line: Vec<Decimal>,
    pub histogram: Vec<Decimal>,
}

/// The moving average convergence divergence of `data`: the line is the fast
/// exponential average less the slow one, the signal is the exponential
/// average of the line, and the histogram is the line less the signal.
pub fn macd(data: &Vec<Decimal>, fast_period: usize, slow_period: usize, signal_period: usize)
    -> (lines: MacdResult)
    ensures
        lines.macd_line@ == differences(
            ema_series(data@, fast_period as int),
            ema_series(data@, slow_period as int),
        ),
        lines.signal_line@ == ema_series(lines.macd_line@, signal_period as int),
        lines.histogram@ == differences(lines.macd_line@, lines.signal_line@),
{
    let fast = exponential_moving_average(data, fast_period);
    let slow = exponential_moving_average(data, slow_period);
    let macd_line = subtract_series(&fast, &slow);
    let signal_line = exponential_moving_average(&macd_line, signal_period);
    let histogram = subtract_series(&macd_line, &signal_line);
    MacdResult { macd_line, signal_line, histogram }
}

/// `x`, held at the greatest 128-bit value.
pub open spec fn capped_wide(x: int) -> int {
    if x > u128::MAX {
        u128::MAX as int
    } else {
        x
    }
}

/// The sum of the squared distances of `values` from `mean`, held at the
/// greatest 128-bit value after every step.
pub open spec fn deviation_sum(values: Seq<Decimal>, mean: int) -> int
    decreases values.len(),
{
    if values.len() == 0 {
        0
    } else {
        capped_wide(
            deviation_sum(values.drop_last(), mean) + (values.last().units - mean) * (
            values.last().units - mean),
        )
    }
}

/// `root` is the square root of `value`, rounded down.
pub open spec fn is_root_of(root: int, value: int) -> bool {
    0 <= root && root * root <= value < (root + 1) * (root + 1)
}

/// The square root of `value`, rounded down.
pub open spec fn root_of(value: int) -> int {
    choose|root: int| is_root_of(root, value)
}

/// A value has only one rounded-down square root.
pub proof fn lemma_root_is_unique(root: int, value: int)
    requires
        is_root_of(root, value),
    ensures
        root_of(value) == root,
{
    let other = root_of(value);
    assert(is_root_of(other, value));
    if other < root {
        assert((other + 1) * (other + 1) <= root * root) by (nonlinear_arith)
            requires
                0 <= other + 1 <= root,
        ;
    } else if root < other {
        assert((root + 1) * (root + 1) <= other * other) by (nonlinear_arith)
            requires
                0 <= root + 1 <= other,
        ;
    }
}

/// The square root of `value`, rounded down.
pub fn integer_sqrt(value: u128) -> (root: u128)
    ensures
        is_root_of(root as int, value as int),
        root == root_of(value as int),
        root <= u64::MAX,
{
    let mut low: u128 = 0;
    let mut high: u128 = 0x1_0000_0000_0000_0000;
    assert(0x1_0000_0000_0000_0000 * 0x1_0000_0000_0000_0000 > u128::MAX) by (nonlinear_arith);
    while high - low > 1
        invariant
            low < high <= 0x1_0000_0000_0000_0000,
            low * low <= value < high * high,
        decreases high - low,
    {
        let mid = low + (high - low) / 2;
        assert(mid * mid <= 0xffff_ffff_ffff_ffff * 0xffff_ffff_ffff_ffff) by (nonlinear_arith)
            requires
                0 <= mid <= 0xffff_ffff_ffff_ffff,
        ;
        if mid * mid <= value {
            low = mid;
        } else {
            high = mid;
        }
    }
    proof {
        lemma_root_is_unique(low as int, value as int);
    }
    low
}

/// How far the bands lie from the middle: `width` standard deviations, in
/// units, rounded towards zero.
pub open spec fn band_offset(width: int, deviation: int) -> int {
    quotient(width * deviation, SCALE as int)
}

/// The standard deviation of the `period` values from `start` on around
/// their mean: the root of the mean squared distance, each rounded down.
pub open spec fn deviation_at(data: Seq<Decimal>, start: int, period: int) -> int {
    root_of(
        deviation_sum(data.subrange(start, start + period), mean_at(data, start, period)) / period,
    )
}

/// Upper band, middle and lower band of `data` at index `i`: all zero for a
/// period that is zero or longer than the series, the value itself before
/// the first full run, and from then on the mean of the run that ends at
/// `i`, with `width` standard deviations added and taken off.
pub open spec fn bollinger_at(data: Seq<Decimal>, period: int, width: int, i: int) -> (
    int,
    int,
    int,
) {
    if period <= 0 || period > data.len() {
        (0, 0, 0)
    } else if i < period - 1 {
        (data[i].units as int, data[i].units as int, data[i].units as int)
    } else {
        let start = i - period + 1;
        let middle = mean_at(data, start, period);
        let offset = band_offset(width, deviation_at(data, start, period));
        (clamped(middle + offset), middle, clamped(middle - offset))
    }
}

/// The sum of squared distances from `mean` over the `period` values from
/// `start` on.
fn squared_distances(data: &Vec<Decimal>, start: usize, period: usize, mean: Decimal) -> (sum: u128)
    requires
        start + period <= data@.len(),
    ensures
        sum == deviation_sum(data@.subrange(start as int, start + period), mean.units as int),
{
    let n = data.len();
    let end = start + period;
    let ghost part = data@.subrange(start as int, end as int);
    let mut sum: u128 = 0;
    let mut i: usize = start;
    assert(part.subrange(0, 0) =~= Seq::<Decimal>::empty());
    while i < end
        invariant
            start <= i <= end,
            end <= data@.len(),
            part == data@.subrange(start as int, end as int),
            sum == deviation_sum(part.subrange(0, i - start), mean.units as int),
        decreases end - i,
    {
        let distance: i128 = data[i].units as i128 - mean.units as i128;
        let size: u128 = if distance >= 0 {
            distance as u128
        } else {
            (-distance) as u128
        };
        proof {
            let next = part.subrange(0, i - start + 1);
            assert(next.drop_last() =~= part.subrange(0, i - start));
            assert(next.last() == data@[i as int]);
            assert(size * size <= 0xffff_ffff_ffff_ffff * 0xffff_ffff_ffff_ffff)
                by (nonlinear_arith)
                requires
                    0 <= size <= 0xffff_ffff_ffff_ffff,
            ;
            assert(size * size == (distance as int) * (distance as int)) by (nonlinear_arith)
                requires
                    size == distance || size == -distance,
            ;
        }
        sum = sum.saturating_add(size * size);
        i = i + 1;
    }
    assert(part.subrange(0, end - start) =~= part);
    sum
}

/// The three bands of Bollinger.
#[derive(Debug, PartialEq, Eq)]
pub struct BollingerBands {
    pub upper: Vec<Decimal>,
    pub middle: Vec<Decimal>,
    pub lower: Vec<Decimal>,
}

/// The Bollinger bands of `data`, one value in each band for each value of
/// `data`: the middle is the mean of the run of `period` values that ends at
/// the index, the upper and lower bands lie `num_std_dev` standard
/// deviations of that run above and below it. Before the first full run all
/// three are the value itself, and for a period that is zero or longer than
/// the series all three are zero.
pub fn bollinger_bands(data: &Vec<Decimal>, period: usize, num_std_dev: Decimal) -> (bands:
    BollingerBands)
    ensures
        bands.upper@.len() == data@.len(),
        bands.middle@.len() == data@.len(),
        bands.lower@.len() == data@.len(),
        forall|i: int|
            0 <= i < data@.len() ==> (#[trigger] bands.upper@[i]).units == bollinger_at(
                data@,
                period as int,
                num_std_dev.units as int,
                i,
            ).0,
        forall|i: int|
            0 <= i < data@.len() ==> (#[trigger] bands.middle@[i]).units == bollinger_at(
                data@,
                period as int,
                num_std_dev.units as int,
                i,
            ).1,
        forall|i: int|
            0 <= i < data@.len() ==> (#[trigger] bands.lower@[i]).units == bollinger_at(
                data@,
                period as int,
                num_std_dev.units as int,
                i,
            ).2,
{
    let n = data.len();
    let mut upper: Vec<Decimal> = Vec::new();
    let mut middle: Vec<Decimal> = Vec::new();
    let mut lower: Vec<Decimal> = Vec::new();
    let ghost width = num_std_dev.units as int;
    let mut i: usize = 0;
    if period == 0 || period > n {
        while i < n
            invariant
                period == 0 || period > n,
                n == data@.len(),
                i <= n,
                upper@.len() == i,
                middle@.len() == i,
                lower@.len() == i,
                forall|k: int| 0 <= k < i ==> (#[trigger] upper@[k]).units == 0,
                forall|k: int| 0 <= k < i ==> (#[trigger] middle@[k]).units == 0,
                forall|k: int| 0 <= k < i ==> (#[trigger] lower@[k]).units == 0,
            decreases n - i,
        {
            upper.push(Decimal { units: 0 });
            middle.push(Decimal { units: 0 });
            lower.push(Decimal { units: 0 });
            i = i + 1;
        }
        return BollingerBands { upper, middle, lower };
    }
    while i < n
        invariant
            0 < period <= n,
            n == data@.len(),
            width == num_std_dev.units,
            i <= n,
            upper@.len() == i,
            middle@.len() == i,
            lower@.len() == i,
            forall|k: int|
                0 <= k < i ==> (#[trigger] upper@[k]).units == bollinger_at(
                    data@,
                    period as int,
                    width,
                    k,
                ).0,
            forall|k: int|
                0 <= k < i ==> (#[trigger] middle@[k]).units == bollinger_at(
                    data@,
                    period as int,
                    width,
                    k,
                ).1,
            forall|k: int|
                0 <= k < i ==> (#[trigger] lower@[k]).units == bollinger_at(
                    data@,
                    period as int,
                    width,
                    k,
                ).2,
        decreases n - i,
    {
        if i < period - 1 {
            upper.push(data[i]);
            middle.push(data[i]);
            lower.push(data[i]);
        } else {
            let start = i + 1 - period;
            let mean = window_mean(data, start, period);
            let squares = squared_distances(data, start, period, mean);
            let deviation = integer_sqrt(squares / (period as u128));
            proof {
                let (w, d) = (width, deviation as int);
                assert(-0x8000_0000_0000_0000 * 0xffff_ffff_ffff_ffff <= w * d
                    <= 0x8000_0000_0000_0000 * 0xffff_ffff_ffff_ffff) by (nonlinear_arith)
                    requires
                        -0x8000_0000_0000_0000 <= w <= 0x8000_0000_0000_0000,
                        0 <= d <= 0xffff_ffff_ffff_ffff,
                ;
                let reach: int = 0x20_0000_0000_0000_0000_0000_0000;
                assert(reach * SCALE >= 0x8000_0000_0000_0000 * 0xffff_ffff_ffff_ffff
                    && (-reach) * SCALE <= -0x8000_0000_0000_0000 * 0xffff_ffff_ffff_ffff)
                    by (nonlinear_arith)
                    requires
                        reach == 0x20_0000_0000_0000_0000_0000_0000,
                ;
                lemma_quotient_bounds(w * d, SCALE as int, -reach, reach);
            }
            let offset = divide((num_std_dev.units as i128) * (deviation as i128), SCALE as i128);
            upper.push(clamp(mean.units as i128 + offset));
            middle.push(mean);
            lower.push(clamp(mean.units as i128 - offset));
        }
        i = i + 1;
    }
    BollingerBands { upper, middle, lower }
}

} // verus!
