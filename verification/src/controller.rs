//! The controller of one task: a state machine that says which request to
//! make next and takes the result of each request as an event.
//!
//! A session runs `Unattached`, then `Attached`, then cycles between stopped
//! and running until the deadline has passed, then drains (one last stop) and
//! detaches. The program that owns the controller performs each [`Action`]
//! and hands the matching [`Event`] to [`Controller::step`].

use vstd::prelude::*;
use crate::config::{Millis, TaskThrottleConfig};

verus! {

/// A request to the operating system that can fail, named by its place in
/// the session.
#[derive(Clone, Copy, Debug, PartialEq, Eq, Structural)]
pub enum Operation {
    /// Attaching to the task without disturbing it.
    Attach,
    /// Asking the task to stop, at the start of a cycle.
    Stop,
    /// Waiting until the task reports that it has stopped, in a cycle.
    AwaitStop,
    /// Letting the stopped task run again.
    Resume,
    /// Asking the task to stop for the last time, after the cycles.
    DrainStop,
    /// Waiting until the task reports that last stop.
    AwaitDrain,
    /// Releasing the task.
    Detach,
}

/// Why a session ended early: the request that failed and the error number
/// that the operating system gave for it.
#[derive(Clone, Copy, Debug, PartialEq, Eq, Structural)]
pub struct ControlError {
    pub operation: Operation,
    pub errno: i32,
}

/// What the owner of a controller has to do next.
#[derive(Clone, Copy, Debug, PartialEq, Eq)]
pub enum Action {
    /// Attach to the task without stopping it.
    Attach,
    /// Read the monotonic clock.
    ReadClock,
    /// Ask the task to stop.
    Stop,
    /// Block until the task reports that it has stopped.
    AwaitStop,
    /// Sleep for the given time.
    Sleep(Millis),
    /// Let the task run again.
    Resume,
    /// Detach from the task.
    Detach,
    /// Nothing more: the session is over, with this result.
    Finish(Result<(), ControlError>),
}

/// What came of the action that a controller asked for.
#[derive(Clone, Copy, Debug, PartialEq, Eq)]
pub enum Event {
    /// The request succeeded, or the sleep is over.
    Completed,
    /// The request failed with this error number.
    Failed(i32),
    /// The clock was read: nanoseconds on a monotonic clock.
    Clock(u128),
}

/// Where a session stands. Each phase has one pending action; the phases of
/// the cycle loop carry the clock reading that the session started at.
#[derive(Clone, Copy, Debug, PartialEq, Eq, Structural)]
pub enum Phase {
    /// Nothing has been done yet; the attach is pending.
    Unattached,
    /// The attach succeeded; the clock reading that starts the session is pending.
    Attached,
    /// Before a cycle: the clock reading that decides between another cycle
    /// and the end of the loop is pending.
    Checking { started_at: u128 },
    /// A cycle begins; the stop request is pending.
    Stopping { started_at: u128 },
    /// The stop was requested; its acknowledgment is pending.
    AwaitingStop { started_at: u128 },
    /// The task has stopped; the throttle sleep is pending.
    Stopped { started_at: u128 },
    /// The throttle sleep is over; the resume is pending.
    Resuming { started_at: u128 },
    /// The task runs; the free-run sleep is pending.
    Running { started_at: u128 },
    /// The loop is over; the last stop request is pending.
    Draining,
    /// The last stop was requested; its acknowledgment is pending.
    AwaitingDrain,
    /// The task has stopped for the last time; the detach is pending.
    Detaching,
    /// The task was released; the session succeeded.
    Detached,
    /// A request failed; the session was abandoned at that point.
    Failed(ControlError),
}

impl TaskThrottleConfig {
    /// The point in time, in nanoseconds on the clock, at which a session
    /// that started at `started_at` stops cycling.
    pub open spec fn deadline(self, started_at: u128) -> int {
        started_at + self.control_duration.nanos()
    }

    /// Whether `now` lies before the deadline of a session that started at
    /// `started_at`.
    pub fn before_deadline(&self, started_at: u128, now: u128) -> (before: bool)
        ensures
            before == (now < self.deadline(started_at)),
    {
        now < started_at || now - started_at < self.control_duration.as_nanos()
    }
}

impl Phase {
    /// The request that is pending in this phase, if it is one that can fail.
    pub open spec fn operation(self) -> Option<Operation> {
        match self {
            Phase::Unattached => Some(Operation::Attach),
            Phase::Stopping { .. } => Some(Operation::Stop),
            Phase::AwaitingStop { .. } => Some(Operation::AwaitStop),
            Phase::Resuming { .. } => Some(Operation::Resume),
            Phase::Draining => Some(Operation::DrainStop),
            Phase::AwaitingDrain => Some(Operation::AwaitDrain),
            Phase::Detaching => Some(Operation::Detach),
            _ => None,
        }
    }

    /// The phase that follows when the pending request succeeds, or the
    /// pending sleep is over. Phases that wait for the clock, and the two
    /// final phases, have none.
    pub open spec fn on_success(self) -> Option<Phase> {
        match self {
            Phase::Unattached => Some(Phase::Attached),
            Phase::Stopping { started_at } => Some(Phase::AwaitingStop { started_at }),
            Phase::AwaitingStop { started_at } => Some(Phase::Stopped { started_at }),
            Phase::Stopped { started_at } => Some(Phase::Resuming { started_at }),
            Phase::Resuming { started_at } => Some(Phase::Running { started_at }),
            Phase::Running { started_at } => Some(Phase::Checking { started_at }),
            Phase::Draining => Some(Phase::AwaitingDrain),
            Phase::AwaitingDrain => Some(Phase::Detaching),
            Phase::Detaching => Some(Phase::Detached),
            _ => None,
        }
    }

    /// The phase that follows when the clock is read as `now`. Only the two
    /// phases that wait for the clock have one: the first reading starts the
    /// session, every later one starts another cycle if it lies before the
    /// deadline and ends the loop if it does not.
    pub open spec fn on_clock(self, config: TaskThrottleConfig, now: u128) -> Option<Phase> {
        match self {
            Phase::Attached => Some(Phase::Checking { started_at: now }),
            Phase::Checking { started_at } => Some(
                if now < config.deadline(started_at) {
                    Phase::Stopping { started_at }
                } else {
                    Phase::Draining
                },
            ),
            _ => None,
        }
    }

    /// The action that the owner of the controller has to perform in this phase.
    pub open spec fn pending(self, config: TaskThrottleConfig) -> Action {
        match self {
            Phase::Unattached => Action::Attach,
            Phase::Attached => Action::ReadClock,
            Phase::Checking { .. } => Action::ReadClock,
            Phase::Stopping { .. } => Action::Stop,
            Phase::AwaitingStop { .. } => Action::AwaitStop,
            Phase::Stopped { .. } => Action::Sleep(config.throttle_duration),
            Phase::Resuming { .. } => Action::Resume,
            Phase::Running { .. } => Action::Sleep(config.free_run_duration),
            Phase::Draining => Action::Stop,
            Phase::AwaitingDrain => Action::AwaitStop,
            Phase::Detaching => Action::Detach,
            Phase::Detached => Action::Finish(Ok(())),
            Phase::Failed(error) => Action::Finish(Err(error)),
        }
    }

    /// Whether `event` is a possible result of the action pending in this
    /// phase: a request succeeds or fails, a sleep ends, a clock reading
    /// gives a time, and a finished session takes no event at all.
    pub open spec fn accepts(self, config: TaskThrottleConfig, event: Event) -> bool {
        match event {
            Event::Completed => self.on_success() is Some,
            Event::Failed(_) => self.operation() is Some,
            Event::Clock(now) => self.on_clock(config, now) is Some,
        }
    }

    /// The phase after `event`. An event that the phase does not accept
    /// changes nothing. A failed request ends the session at once: nothing
    /// further is asked of the task, not even a detach.
    pub open spec fn after(self, config: TaskThrottleConfig, event: Event) -> Phase {
        match event {
            Event::Completed => match self.on_success() {
                Some(next) => next,
                None => self,
            },
            Event::Failed(errno) => match self.operation() {
                Some(operation) => Phase::Failed(ControlError { operation, errno }),
                None => self,
            },
            Event::Clock(now) => match self.on_clock(config, now) {
                Some(next) => next,
                None => self,
            },
        }
    }

    /// Whether the session is over in this phase.
    pub open spec fn is_final(self) -> bool {
        self is Detached || self is Failed
    }

    /// The result of the session: success once the task is detached, the
    /// error once a request has failed, and nothing before that.
    pub open spec fn result(self) -> Option<Result<(), ControlError>> {
        match self {
            Phase::Detached => Some(Ok(())),
            Phase::Failed(error) => Some(Err(error)),
            _ => None,
        }
    }
}

/// The controller of one task.
#[derive(Debug, PartialEq, Eq)]
pub struct Controller {
    /// The task that this controller owns for the length of the session.
    pub task: i32,
    /// This controller's copy of the durations.
    pub config: TaskThrottleConfig,
    /// Where the session stands.
    pub phase: Phase,
}

impl Controller {
    /// The controller for `task` as it is before its session has begun.
    pub open spec fn unattached(task: i32, config: TaskThrottleConfig) -> Controller {
        Controller { task, config, phase: Phase::Unattached }
    }

    /// A controller for `task` that has not touched it yet.
    pub fn new(task: i32, config: TaskThrottleConfig) -> (controller: Controller)
        ensures
            controller == Controller::unattached(task, config),
    {
        Controller { task, config, phase: Phase::Unattached }
    }

    /// The action to perform now. It stays the same until `step` is given an
    /// event that the phase accepts.
    pub fn pending(&self) -> (action: Action)
        ensures
            action == self.phase.pending(self.config),
    {
        match self.phase {
            Phase::Unattached => Action::Attach,
            Phase::Attached | Phase::Checking { .. } => Action::ReadClock,
            Phase::Stopping { .. } | Phase::Draining => Action::Stop,
            Phase::AwaitingStop { .. } | Phase::AwaitingDrain => Action::AwaitStop,
            Phase::Stopped { .. } => Action::Sleep(self.config.throttle_duration),
            Phase::Resuming { .. } => Action::Resume,
            Phase::Running { .. } => Action::Sleep(self.config.free_run_duration),
            Phase::Detaching => Action::Detach,
            Phase::Detached => Action::Finish(Ok(())),
            Phase::Failed(error) => Action::Finish(Err(error)),
        }
    }

    /// Takes the result of the pending action and returns the action to
    /// perform next. The task and the durations never change.
    pub fn step(&mut self, event: Event) -> (action: Action)
        ensures
            final(self).task == old(self).task,
            final(self).config == old(self).config,
            final(self).phase == old(self).phase.after(old(self).config, event),
            action == final(self).phase.pending(final(self).config),
    {
        let phase = self.phase;
        self.phase = match event {
            Event::Completed => match phase {
                Phase::Unattached => Phase::Attached,
                Phase::Stopping { started_at } => Phase::AwaitingStop { started_at },
                Phase::AwaitingStop { started_at } => Phase::Stopped { started_at },
                Phase::Stopped { started_at } => Phase::Resuming { started_at },
                Phase::Resuming { started_at } => Phase::Running { started_at },
                Phase::Running { started_at } => Phase::Checking { started_at },
                Phase::Draining => Phase::AwaitingDrain,
                Phase::AwaitingDrain => Phase::Detaching,
                Phase::Detaching => Phase::Detached,
                _ => phase,
            },
            Event::Failed(errno) => match phase {
                Phase::Unattached => failed(Operation::Attach, errno),
                Phase::Stopping { .. } => failed(Operation::Stop, errno),
                Phase::AwaitingStop { .. } => failed(Operation::AwaitStop, errno),
                Phase::Resuming { .. } => failed(Operation::Resume, errno),
                Phase::Draining => failed(Operation::DrainStop, errno),
                Phase::AwaitingDrain => failed(Operation::AwaitDrain, errno),
                Phase::Detaching => failed(Operation::Detach, errno),
                _ => phase,
            },
            Event::Clock(now) => match phase {
                Phase::Attached => Phase::Checking { started_at: now },
                Phase::Checking { started_at } => {
                    if self.config.before_deadline(started_at, now) {
                        Phase::Stopping { started_at }
                    } else {
                        Phase::Draining
                    }
                },
                _ => phase,
            },
        };
        self.pending()
    }

    /// Whether the session is over.
    pub fn is_finished(&self) -> (finished: bool)
        ensures
            finished == self.phase.is_final(),
    {
        match self.phase {
            Phase::Detached | Phase::Failed(_) => true,
            _ => false,
        }
    }

    /// The result of the session once it is over, and `None` before that.
    pub fn outcome(&self) -> (outcome: Option<Result<(), ControlError>>)
        ensures
            outcome == self.phase.result(),
    {
        match self.phase {
            Phase::Detached => Some(Ok(())),
            Phase::Failed(error) => Some(Err(error)),
            _ => None,
        }
    }
}

/// The phase of a session that was abandoned because `operation` failed.
fn failed(operation: Operation, errno: i32) -> (phase: Phase)
    ensures
        phase == Phase::Failed((ControlError { operation, errno })),
{
    Phase::Failed(ControlError { operation, errno })
}

} // verus!
