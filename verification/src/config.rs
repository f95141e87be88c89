//! Configuration: the command-line values, the run configuration built from
//! them, and the part of it that every controller gets a copy of.

use vstd::prelude::*;

verus! {

/// Stopped time per cycle when the command line gives none, in milliseconds.
pub const DEFAULT_THROTTLE_DURATION_MS: u64 = 900;

/// Running time per cycle when the command line gives none, in milliseconds.
pub const DEFAULT_FREE_RUN_DURATION_MS: u64 = 300;

/// Length of a control session when the command line gives none, in milliseconds.
pub const DEFAULT_TOTAL_CONTROL_DURATION_MS: u64 = 120000;

/// Whether to wait for the target process when the command line does not say.
pub const DEFAULT_WAIT_FOR_PROCESS: bool = true;

/// Nanoseconds in one millisecond.
pub const NANOS_PER_MILLI: u128 = 1000000;

/// A span of time in whole milliseconds. It is never negative.
#[derive(Clone, Copy, Debug, PartialEq, Eq, Structural)]
pub struct Millis {
    pub ms: u64,
}

impl Millis {
    /// The span in nanoseconds, as a mathematical integer.
    pub open spec fn nanos(self) -> int {
        self.ms * NANOS_PER_MILLI
    }

    /// A span of `ms` milliseconds.
    pub fn from_millis(ms: u64) -> (span: Millis)
        ensures
            span.ms == ms,
    {
        Millis { ms }
    }

    /// The number of whole milliseconds in the span.
    pub fn as_millis(self) -> (ms: u64)
        ensures
            ms == self.ms,
    {
        self.ms
    }

    /// The span in nanoseconds. The product always fits.
    pub fn as_nanos(self) -> (ns: u128)
        ensures
            ns == self.nanos(),
    {
        let ms: u128 = self.ms as u128;
        ms * NANOS_PER_MILLI
    }
}

/// The values that the command line carries.
#[derive(Clone, Debug)]
pub struct Args {
    pub throttle_duration_ms: u64,
    pub free_run_duration_ms: u64,
    pub total_control_duration_ms: u64,
    pub wait_for_process: bool,
    pub process_name: String,
    pub cmd_line_pattern: Option<String>,
}

/// The configuration of one run.
#[derive(Clone, Debug)]
pub struct Config {
    /// Time a task is held stopped in each cycle.
    pub throttle_duration: Millis,
    /// Time a task is left running in each cycle.
    pub free_run_duration: Millis,
    /// Time a control session lasts.
    pub control_duration: Millis,
    /// Whether to keep looking until the target process appears.
    pub wait_for_process: bool,
    /// The name that the target process must have, exactly.
    pub process_name: String,
    /// Text that one command-line argument of the target must contain, if set.
    pub cmd_line_pattern: Option<String>,
}

/// The three durations that govern a control session. Each controller holds
/// its own copy.
#[derive(Clone, Copy, Debug, PartialEq, Eq, Structural)]
pub struct TaskThrottleConfig {
    pub throttle_duration: Millis,
    pub free_run_duration: Millis,
    pub control_duration: Millis,
}

impl Args {
    /// The arguments for `process_name` with every other value at its default.
    pub open spec fn defaults(process_name: String) -> Args {
        Args {
            throttle_duration_ms: 900,
            free_run_duration_ms: 300,
            total_control_duration_ms: 120000,
            wait_for_process: true,
            process_name,
            cmd_line_pattern: None,
        }
    }

    /// The configuration that these arguments describe.
    pub open spec fn config(self) -> Config {
        Config {
            throttle_duration: Millis { ms: self.throttle_duration_ms },
            free_run_duration: Millis { ms: self.free_run_duration_ms },
            control_duration: Millis { ms: self.total_control_duration_ms },
            wait_for_process: self.wait_for_process,
            process_name: self.process_name,
            cmd_line_pattern: self.cmd_line_pattern,
        }
    }

    /// Arguments that name only the target process: 900 ms stopped and 300 ms
    /// running per cycle, a session of 120 s, waiting for the process, and no
    /// command-line pattern.
    pub fn with_defaults(process_name: String) -> (args: Args)
        ensures
            args == Args::defaults(process_name),
    {
        Args {
            throttle_duration_ms: DEFAULT_THROTTLE_DURATION_MS,
            free_run_duration_ms: DEFAULT_FREE_RUN_DURATION_MS,
            total_control_duration_ms: DEFAULT_TOTAL_CONTROL_DURATION_MS,
            wait_for_process: DEFAULT_WAIT_FOR_PROCESS,
            process_name,
            cmd_line_pattern: None,
        }
    }

    /// Turns the arguments into the run configuration: each number of
    /// milliseconds becomes a duration, everything else is carried over.
    pub fn into(self) -> (config: Config)
        ensures
            config == self.config(),
    {
        Config {
            throttle_duration: Millis::from_millis(self.throttle_duration_ms),
            free_run_duration: Millis::from_millis(self.free_run_duration_ms),
            control_duration: Millis::from_millis(self.total_control_duration_ms),
            wait_for_process: self.wait_for_process,
            process_name: self.process_name,
            cmd_line_pattern: self.cmd_line_pattern,
        }
    }
}

impl Config {
    /// The durations of this configuration, as a controller holds them.
    pub open spec fn throttle(self) -> TaskThrottleConfig {
        TaskThrottleConfig {
            throttle_duration: self.throttle_duration,
            free_run_duration: self.free_run_duration,
            control_duration: self.control_duration,
        }
    }
}

impl TaskThrottleConfig {
    /// Copies the three durations out of the run configuration.
    pub fn from(config: &Config) -> (throttle: TaskThrottleConfig)
        ensures
            throttle == config.throttle(),
    {
        TaskThrottleConfig {
            throttle_duration: config.throttle_duration,
            free_run_duration: config.free_run_duration,
            control_duration: config.control_duration,
        }
    }

    /// The length of one full cycle, stopped time and running time together,
    /// in milliseconds.
    pub open spec fn cycle_millis(self) -> int {
        self.throttle_duration.ms + self.free_run_duration.ms
    }

    /// The length of one full cycle in nanoseconds.
    pub open spec fn cycle_nanos(self) -> int {
        self.throttle_duration.nanos() + self.free_run_duration.nanos()
    }
}

} // verus!
