//! Counters and tick timings of one runner.

use vstd::prelude::*;
use crate::decimal::{Decimal, SCALE};

verus! {

/// `a + b`, held at the greatest 64-bit value.
pub open spec fn capped_sum(a: u64, b: u64) -> u64 {
    if a + b > u64::MAX {
        u64::MAX
    } else {
        (a + b) as u64
    }
}

/// `a + b`, held at the greatest 128-bit value.
pub open spec fn capped_total(a: u128, b: u64) -> u128 {
    if a + b > u128::MAX {
        u128::MAX
    } else {
        (a + b) as u128
    }
}

/// `total / count`, held at the greatest 64-bit value; zero for no count.
pub open spec fn capped_mean(total: u128, count: u64) -> u64 {
    if count == 0 {
        0
    } else if total / (count as u128) > u64::MAX {
        u64::MAX
    } else {
        (total / (count as u128)) as u64
    }
}

/// `part` per `per` units of `whole` as a decimal in units, rounded down to
/// the eighth place and held at the greatest 64-bit value; zero when `whole`
/// is zero.
pub open spec fn rate_of(part: u64, whole: u64, per: u64) -> int {
    if whole == 0 {
        0
    } else if part * per * SCALE / (whole as int) > i64::MAX {
        i64::MAX as int
    } else {
        part * per * SCALE / (whole as int)
    }
}

/// The counters as they start.
pub open spec fn zeroed_stats() -> RunnerStats {
    RunnerStats {
        ticks_processed: 0,
        actions_executed: 0,
        errors: 0,
        avg_tick_duration: 0,
        min_tick_duration: u64::MAX,
        max_tick_duration: 0,
        total_duration: 0,
    }
}

/// What a runner has counted. All durations are in nanoseconds.
#[derive(Debug, Clone, Copy, PartialEq, Eq)]
pub struct RunnerStats {
    pub ticks_processed: u64,
    pub actions_executed: u64,
    pub errors: u64,
    /// Mean tick duration; zero before the first tick.
    pub avg_tick_duration: u64,
    /// Shortest tick; the greatest 64-bit value before the first tick.
    pub min_tick_duration: u64,
    /// Longest tick; zero before the first tick.
    pub max_tick_duration: u64,
    /// The sum of all tick durations recorded.
    pub total_duration: u128,
}

impl RunnerStats {
    /// The sum of all tick durations recorded.
    pub open spec fn total(&self) -> u128 {
        self.total_duration
    }

    /// The counters as they start.
    pub open spec fn is_zeroed(&self) -> bool {
        *self == zeroed_stats()
    }

    /// The counters after one tick of `duration` nanoseconds is recorded.
    pub open spec fn with_tick(self, duration: u64) -> RunnerStats {
        RunnerStats {
            ticks_processed: capped_sum(self.ticks_processed, 1),
            total_duration: capped_total(self.total_duration, duration),
            min_tick_duration: if duration < self.min_tick_duration {
                duration
            } else {
                self.min_tick_duration
            },
            max_tick_duration: if duration > self.max_tick_duration {
                duration
            } else {
                self.max_tick_duration
            },
            avg_tick_duration: capped_mean(
                capped_total(self.total_duration, duration),
                capped_sum(self.ticks_processed, 1),
            ),
            ..self
        }
    }

    /// Counters at zero.
    pub fn new() -> (stats: RunnerStats)
        ensures
            stats.is_zeroed(),
    {
        RunnerStats {
            ticks_processed: 0,
            actions_executed: 0,
            errors: 0,
            avg_tick_duration: 0,
            min_tick_duration: u64::MAX,
            max_tick_duration: 0,
            total_duration: 0,
        }
    }

    /// Counts one tick that took `duration` nanoseconds and brings minimum,
    /// maximum and mean up to date.
    pub fn record_tick(&mut self, duration: u64)
        ensures
            *final(self) == old(self).with_tick(duration),
    {
        self.ticks_processed = self.ticks_processed.saturating_add(1);
        self.total_duration = self.total_duration.saturating_add(duration as u128);
        if duration < self.min_tick_duration {
            self.min_tick_duration = duration;
        }
        if duration > self.max_tick_duration {
            self.max_tick_duration = duration;
        }
        let mean: u128 = self.total_duration / (self.ticks_processed as u128);
        self.avg_tick_duration = if mean > u64::MAX as u128 {
            u64::MAX
        } else {
            mean as u64
        };
    }

    /// Counts one applied action.
    pub fn record_action(&mut self)
        ensures
            final(self).actions_executed == capped_sum(old(self).actions_executed, 1),
            final(self).ticks_processed == old(self).ticks_processed,
            final(self).errors == old(self).errors,
            final(self).avg_tick_duration == old(self).avg_tick_duration,
            final(self).min_tick_duration == old(self).min_tick_duration,
            final(self).max_tick_duration == old(self).max_tick_duration,
            final(self).total() == old(self).total(),
    {
        self.actions_executed = self.actions_executed.saturating_add(1);
    }

    /// Counts one failed tick.
    pub fn record_error(&mut self)
        ensures
            final(self).errors == capped_sum(old(self).errors, 1),
            final(self).ticks_processed == old(self).ticks_processed,
            final(self).actions_executed == old(self).actions_executed,
            final(self).avg_tick_duration == old(self).avg_tick_duration,
            final(self).min_tick_duration == old(self).min_tick_duration,
            final(self).max_tick_duration == old(self).max_tick_duration,
            final(self).total() == old(self).total(),
    {
        self.errors = self.errors.saturating_add(1);
    }

    /// Errors per thousand ticks.
    pub fn error_rate(&self) -> (rate: Decimal)
        ensures
            rate.units == rate_of(self.errors, self.ticks_processed, 1000),
    {
        Self::rate(self.errors, self.ticks_processed, 1000)
    }

    /// Actions per hundred ticks.
    pub fn action_rate(&self) -> (rate: Decimal)
        ensures
            rate.units == rate_of(self.actions_executed, self.ticks_processed, 100),
    {
        Self::rate(self.actions_executed, self.ticks_processed, 100)
    }

    fn rate(part: u64, whole: u64, per: u64) -> (rate: Decimal)
        requires
            per <= 1000,
        ensures
            rate.units == rate_of(part, whole, per),
    {
        if whole == 0 {
            return Decimal { units: 0 };
        }
        assert(part * per * SCALE <= u64::MAX * 1000 * 100_000_000) by (nonlinear_arith)
            requires
                part <= u64::MAX,
                per <= 1000,
                SCALE == 100_000_000,
        ;
        assert(part * per <= u64::MAX * 1000) by (nonlinear_arith)
            requires
                part <= u64::MAX,
                per <= 1000,
        ;
        let scaled: u128 = (part as u128) * (per as u128) * (SCALE as u128);
        let rate: u128 = scaled / (whole as u128);
        if rate > i64::MAX as u128 {
            Decimal { units: i64::MAX }
        } else {
            Decimal { units: rate as i64 }
        }
    }

    /// Puts every counter back to zero.
    pub fn reset(&mut self)
        ensures
            final(self).is_zeroed(),
    {
        *self = RunnerStats::new();
    }
}

impl Default for RunnerStats {
    fn default() -> (stats: Self)
        ensures
            stats.is_zeroed(),
    {
        RunnerStats::new()
    }
}

} // verus!
