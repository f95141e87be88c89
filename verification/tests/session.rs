use task_throttle::config::{Args, Config, Millis, TaskThrottleConfig};
use task_throttle::controller::{Action, Controller, Phase};
use task_throttle::discovery::{scan, Discovery, ProcessInfo};
use task_throttle::session::{add_trace, dispatch};

fn run_config() -> Config {
    Config {
        throttle_duration: Millis { ms: 50 },
        free_run_duration: Millis { ms: 25 },
        control_duration: Millis { ms: 1_000 },
        wait_for_process: true,
        process_name: String::from("worker"),
        cmd_line_pattern: None,
    }
}

#[test]
fn add_trace_appends_one_unattached_controller() {
    let durations = TaskThrottleConfig::from(&run_config());
    let mut controllers = Vec::new();
    add_trace(5, durations, &mut controllers);
    assert_eq!(controllers.len(), 1);
    assert_eq!(controllers[0], Controller { task: 5, config: durations, phase: Phase::Unattached });
    add_trace(6, durations, &mut controllers);
    assert_eq!(controllers.len(), 2);
    assert_eq!(controllers[0].task, 5);
    assert_eq!(controllers[1].task, 6);
    assert_eq!(controllers[1].pending(), Action::Attach);
}

#[test]
fn dispatch_makes_one_controller_for_each_task() {
    let config = run_config();
    let controllers = dispatch(&vec![11, 12, 13, 10], &config);
    assert_eq!(controllers.len(), 4);
    let tasks: Vec<i32> = controllers.iter().map(|c| c.task).collect();
    assert_eq!(tasks, vec![11, 12, 13, 10]);
    for controller in &controllers {
        assert_eq!(controller.phase, Phase::Unattached);
        assert_eq!(controller.config.throttle_duration, Millis { ms: 50 });
        assert_eq!(controller.config.free_run_duration, Millis { ms: 25 });
        assert_eq!(controller.config.control_duration, Millis { ms: 1_000 });
    }
}

#[test]
fn dispatch_of_no_task_makes_no_controller() {
    assert!(dispatch(&vec![], &run_config()).is_empty());
}

#[test]
fn three_tasks_beside_the_main_task_give_four_controllers() {
    let config = run_config();
    let processes = vec![ProcessInfo {
        pid: 10,
        name: String::from("worker"),
        cmd: vec![String::from("worker")],
        tasks: Some(vec![11, 12, 13]),
    }];
    match scan(&processes, &config).discovery {
        Discovery::Found(tasks) => assert_eq!(dispatch(&tasks, &config).len(), 4),
        Discovery::NotFound => panic!("the process was not found"),
    }
}

#[test]
fn three_tasks_with_the_main_task_among_them_give_three_controllers() {
    let config = run_config();
    let processes = vec![ProcessInfo {
        pid: 10,
        name: String::from("worker"),
        cmd: vec![String::from("worker")],
        tasks: Some(vec![10, 11, 12]),
    }];
    match scan(&processes, &config).discovery {
        Discovery::Found(tasks) => {
            let controllers = dispatch(&tasks, &config);
            assert_eq!(controllers.len(), 3);
            assert_eq!(controllers[0].task, 10);
            assert_eq!(controllers[1].task, 11);
            assert_eq!(controllers[2].task, 12);
        }
        Discovery::NotFound => panic!("the process was not found"),
    }
}

#[test]
fn missing_process_gives_no_controller() {
    let mut config = run_config();
    config.wait_for_process = false;
    let round = scan(&vec![], &config);
    let controllers = match round.discovery {
        Discovery::Found(tasks) => dispatch(&tasks, &config),
        Discovery::NotFound => Vec::new(),
    };
    assert!(controllers.is_empty());
    assert!(round.mismatched.is_empty());
}

#[test]
fn controllers_get_the_durations_of_the_command_line() {
    let mut args = Args::with_defaults(String::from("worker"));
    args.total_control_duration_ms = 5_000;
    let config = args.into();
    let controllers = dispatch(&vec![1, 2], &config);
    for controller in &controllers {
        assert_eq!(
            controller.config,
            TaskThrottleConfig {
                throttle_duration: Millis { ms: 900 },
                free_run_duration: Millis { ms: 300 },
                control_duration: Millis { ms: 5_000 },
            }
        );
    }
}
