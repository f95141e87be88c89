//! The set of controllers of one run: one controller for each task found,
//! each with its own copy of the durations. The controllers share nothing,
//! so each can be driven on a thread of its own.

use vstd::prelude::*;
use crate::config::{Config, TaskThrottleConfig};
use crate::controller::Controller;

verus! {

/// Adds a controller for the task `pid` to the set. The controllers that
/// are in the set stay as they are.
pub fn add_trace(pid: i32, config: TaskThrottleConfig, controllers: &mut Vec<Controller>)
    ensures
        final(controllers)@ == old(controllers)@.push(Controller::unattached(pid, config)),
{
    controllers.push(Controller::new(pid, config));
}

/// Makes the controllers for `tasks`: exactly one for each task, in the
/// order of the list, each with the durations of `config` and with its
/// session still to begin. Where no task is listed twice, no two controllers
/// have the same task.
pub fn dispatch(tasks: &Vec<i32>, config: &Config) -> (controllers: Vec<Controller>)
    ensures
        controllers@.len() == tasks@.len(),
        forall|i: int|
            0 <= i < tasks@.len() ==> #[trigger] controllers@[i] == Controller::unattached(
                tasks@[i],
                config.throttle(),
            ),
        tasks@.no_duplicates() ==> forall|i: int, j: int|
            0 <= i < j < controllers@.len() ==> (#[trigger] controllers@[i]).task
                != (#[trigger] controllers@[j]).task,
{
    let mut controllers: Vec<Controller> = Vec::new();
    let mut i: usize = 0;
    while i < tasks.len()
        invariant
            i <= tasks.len(),
            controllers@.len() == i,
            forall|k: int|
                0 <= k < i ==> #[trigger] controllers@[k] == Controller::unattached(
                    tasks@[k],
                    config.throttle(),
                ),
        decreases tasks.len() - i,
    {
        add_trace(tasks[i], TaskThrottleConfig::from(config), &mut controllers);
        i += 1;
    }
    controllers
}

} // verus!
