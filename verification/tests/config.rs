use task_throttle::config::{
    Args, Config, Millis, TaskThrottleConfig, DEFAULT_FREE_RUN_DURATION_MS,
    DEFAULT_THROTTLE_DURATION_MS, DEFAULT_TOTAL_CONTROL_DURATION_MS, DEFAULT_WAIT_FOR_PROCESS,
};

#[test]
fn defaults_are_the_documented_values() {
    assert_eq!(DEFAULT_THROTTLE_DURATION_MS, 900);
    assert_eq!(DEFAULT_FREE_RUN_DURATION_MS, 300);
    assert_eq!(DEFAULT_TOTAL_CONTROL_DURATION_MS, 120_000);
    assert!(DEFAULT_WAIT_FOR_PROCESS);
}

#[test]
fn with_defaults_names_only_the_process() {
    let args = Args::with_defaults(String::from("worker"));
    assert_eq!(args.throttle_duration_ms, 900);
    assert_eq!(args.free_run_duration_ms, 300);
    assert_eq!(args.total_control_duration_ms, 120_000);
    assert!(args.wait_for_process);
    assert_eq!(args.process_name, "worker");
    assert_eq!(args.cmd_line_pattern, None);
}

#[test]
fn args_become_a_configuration() {
    let args = Args {
        throttle_duration_ms: 10,
        free_run_duration_ms: 20,
        total_control_duration_ms: 30,
        wait_for_process: false,
        process_name: String::from("server"),
        cmd_line_pattern: Some(String::from("--listen=80")),
    };
    let config: Config = args.into();
    assert_eq!(config.throttle_duration, Millis { ms: 10 });
    assert_eq!(config.free_run_duration, Millis { ms: 20 });
    assert_eq!(config.control_duration, Millis { ms: 30 });
    assert!(!config.wait_for_process);
    assert_eq!(config.process_name, "server");
    assert_eq!(config.cmd_line_pattern, Some(String::from("--listen=80")));
}

#[test]
fn default_args_become_the_default_configuration() {
    let config = Args::with_defaults(String::from("worker")).into();
    assert_eq!(config.throttle_duration.as_millis(), 900);
    assert_eq!(config.free_run_duration.as_millis(), 300);
    assert_eq!(config.control_duration.as_millis(), 120_000);
    assert!(config.wait_for_process);
    assert_eq!(config.cmd_line_pattern, None);
}

#[test]
fn task_config_copies_the_three_durations() {
    let config = Config {
        throttle_duration: Millis::from_millis(1),
        free_run_duration: Millis::from_millis(2),
        control_duration: Millis::from_millis(3),
        wait_for_process: true,
        process_name: String::from("x"),
        cmd_line_pattern: None,
    };
    let throttle = TaskThrottleConfig::from(&config);
    assert_eq!(
        throttle,
        TaskThrottleConfig {
            throttle_duration: Millis { ms: 1 },
            free_run_duration: Millis { ms: 2 },
            control_duration: Millis { ms: 3 },
        }
    );
    // The run configuration is left as it was.
    assert_eq!(config.throttle_duration, Millis { ms: 1 });
    assert_eq!(config.process_name, "x");
}

#[test]
fn millis_round_trip() {
    assert_eq!(Millis::from_millis(0).as_millis(), 0);
    assert_eq!(Millis::from_millis(900).as_millis(), 900);
    assert_eq!(Millis::from_millis(u64::MAX).as_millis(), u64::MAX);
}

#[test]
fn millis_in_nanoseconds() {
    assert_eq!(Millis::from_millis(0).as_nanos(), 0);
    assert_eq!(Millis::from_millis(1).as_nanos(), 1_000_000);
    assert_eq!(Millis::from_millis(900).as_nanos(), 900_000_000);
    assert_eq!(Millis::from_millis(120_000).as_nanos(), 120_000_000_000);
}

#[test]
fn largest_duration_fits_in_nanoseconds() {
    assert_eq!(
        Millis::from_millis(u64::MAX).as_nanos(),
        18_446_744_073_709_551_615_000_000u128
    );
}
