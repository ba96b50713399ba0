//! How a runner behaves around its trading loop.

use vstd::prelude::*;

verus! {

/// Switches of one runner.
#[derive(Debug, Clone, Copy, PartialEq, Eq, Structural)]
pub struct RunnerConfig {
    /// End the runner on the first failed tick.
    pub stop_on_error: bool,
    /// Log every action that is applied.
    pub log_actions: bool,
    /// Log the position after every tick.
    pub log_positions: bool,
    /// Keep timing statistics.
    pub collect_metrics: bool,
}

impl Default for RunnerConfig {
    /// Keep going on errors, log actions, keep metrics.
    fn default() -> (config: Self)
        ensures
            config == (RunnerConfig {
                stop_on_error: false,
                log_actions: true,
                log_positions: false,
                collect_metrics: true,
            }),
    {
        RunnerConfig {
            stop_on_error: false,
            log_actions: true,
            log_positions: false,
            collect_metrics: true,
        }
    }
}

impl RunnerConfig {
    /// Stop on the first error and log everything.
    pub fn production() -> (config: RunnerConfig)
        ensures
            config == (RunnerConfig {
                stop_on_error: true,
                log_actions: true,
                log_positions: true,
                collect_metrics: true,
            }),
    {
        RunnerConfig {
            stop_on_error: true,
            log_actions: true,
            log_positions: true,
            collect_metrics: true,
        }
    }

    /// Keep going on errors, log actions, keep no metrics.
    pub fn development() -> (config: RunnerConfig)
        ensures
            config == (RunnerConfig {
                stop_on_error: false,
                log_actions: true,
                log_positions: false,
                collect_metrics: false,
            }),
    {
        RunnerConfig {
            stop_on_error: false,
            log_actions: true,
            log_positions: false,
            collect_metrics: false,
        }
    }

    /// Keep going on errors and log nothing.
    pub fn quiet() -> (config: RunnerConfig)
        ensures
            config == (RunnerConfig {
                stop_on_error: false,
                log_actions: false,
                log_positions: false,
                collect_metrics: true,
            }),
    {
        RunnerConfig {
            stop_on_error: false,
            log_actions: false,
            log_positions: false,
            collect_metrics: true,
        }
    }
}

} // verus!
