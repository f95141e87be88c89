//! What holds of every session, whatever the operating system answers.
//!
//! A session is described by the events that its controller was given, in
//! order. [`trace`] replays them and keeps a record: the phases passed
//! through, the clock readings taken, the cycles completed, and what the
//! successful requests have done to the task. The proofs below are about
//! that record, for every configuration and every sequence of events.

use vstd::prelude::*;
use crate::config::TaskThrottleConfig;
use crate::controller::{Action, ControlError, Event, Operation, Phase};

verus! {

/// What the controller's requests have done to its task, going by the
/// requests that succeeded.
pub struct TaskState {
    /// The controller is attached to the task.
    pub traced: bool,
    /// The task was stopped by the controller and not set running since.
    pub stopped: bool,
}

impl TaskState {
    /// The effect of one finished action on the task: a successful attach
    /// puts it under the controller's trace, an acknowledged stop leaves it
    /// stopped, a successful resume sets it running, and a successful detach
    /// sets it running and free. Nothing else changes anything.
    pub open spec fn apply(self, action: Action, event: Event) -> TaskState {
        if event is Completed {
            match action {
                Action::Attach => TaskState { traced: true, stopped: self.stopped },
                Action::AwaitStop => TaskState { traced: self.traced, stopped: true },
                Action::Resume => TaskState { traced: self.traced, stopped: false },
                Action::Detach => TaskState { traced: false, stopped: false },
                _ => self,
            }
        } else {
            self
        }
    }
}

/// The record of a session.
pub struct Trace {
    /// The phases that the session has been in, the first one first.
    pub phases: Seq<Phase>,
    /// The clock readings that the controller has taken, in order. The first
    /// one starts the session; each later one stands before a cycle or ends
    /// the loop.
    pub readings: Seq<u128>,
    /// The number of cycles that were carried through to the end of their
    /// free-run sleep.
    pub cycles: nat,
    /// What has become of the task.
    pub task: TaskState,
}

impl Trace {
    /// The record of a session in which nothing has happened yet.
    pub open spec fn start() -> Trace {
        Trace {
            phases: seq![Phase::Unattached],
            readings: Seq::empty(),
            cycles: 0,
            task: TaskState { traced: false, stopped: false },
        }
    }

    /// The phase that the session is in.
    pub open spec fn current(self) -> Phase {
        self.phases.last()
    }

    /// The record after one more event. An event that the current phase
    /// does not accept leaves no mark.
    pub open spec fn record(self, config: TaskThrottleConfig, event: Event) -> Trace {
        let phase = self.current();
        if phase.accepts(config, event) {
            Trace {
                phases: self.phases.push(phase.after(config, event)),
                readings: match event {
                    Event::Clock(now) => self.readings.push(now),
                    _ => self.readings,
                },
                cycles: if phase is Running {
                    self.cycles + 1
                } else {
                    self.cycles
                },
                task: self.task.apply(phase.pending(config), event),
            }
        } else {
            self
        }
    }

    /// The time between reading `k` and the next one, in nanoseconds.
    pub open spec fn gap(self, k: int) -> int {
        self.readings[k + 1] - self.readings[k]
    }

    /// The time from the first clock reading to the latest, in nanoseconds.
    pub open spec fn measured_length(self) -> int {
        self.readings.last() - self.readings[0]
    }

    /// The clock did not run backwards between the reading that started the
    /// session and the next one, and from each reading that started a cycle
    /// to the one after the cycle at least the two sleeps of the cycle went by.
    pub open spec fn sleeps_in_full(self, config: TaskThrottleConfig) -> bool {
        &&& self.readings.len() >= 2 ==> self.gap(0) >= 0
        &&& forall|k: int|
            1 <= k && k + 1 < self.readings.len() ==> #[trigger] self.gap(k)
                >= config.cycle_nanos()
    }

    /// No two consecutive clock readings are further apart than one cycle
    /// and `slack` nanoseconds.
    pub open spec fn overruns_by_at_most(self, config: TaskThrottleConfig, slack: int) -> bool {
        forall|k: int|
            0 <= k && k + 1 < self.readings.len() ==> #[trigger] self.gap(k)
                <= config.cycle_nanos() + slack
    }

    /// Whether the cycle loop is over and the session is on its way out
    /// through the last stop and the detach, or has left that way.
    pub open spec fn past_the_loop(self) -> bool {
        let phase = self.current();
        phase is Draining || phase is AwaitingDrain || phase is Detaching || phase is Detached
    }

    /// What ties the parts of a record together. It holds of every record
    /// that `trace` produces.
    pub open spec fn consistent(self, config: TaskThrottleConfig) -> bool {
        &&& self.phases.len() >= 1
        &&& self.phases[0] == Phase::Unattached
        &&& forall|i: int|
            0 < i < self.phases.len() ==> (#[trigger] self.phases[i]).follows(self.phases[i - 1])
        &&& self.task.traced == self.current().holds_task()
        &&& self.task.stopped == self.current().holds_task_stopped()
        &&& self.timed(config)
    }

    /// The part of `consistent` that is about the clock.
    pub open spec fn timed(self, config: TaskThrottleConfig) -> bool {
        let n = self.readings.len();
        &&& n == 0 ==> self.cycles == 0
        &&& n >= 1 ==> self.cycles + 1 <= n <= self.cycles + 2
        &&& forall|k: int|
            1 <= k <= self.cycles ==> #[trigger] self.readings[k] < config.deadline(
                self.readings[0],
            )
        &&& match self.current() {
            Phase::Unattached | Phase::Attached => n == 0,
            Phase::Checking { started_at } => n == self.cycles + 1 && self.readings[0]
                == started_at,
            Phase::Stopping { started_at }
            | Phase::AwaitingStop { started_at }
            | Phase::Stopped { started_at }
            | Phase::Resuming { started_at }
            | Phase::Running { started_at } => {
                &&& n == self.cycles + 2
                &&& self.readings[0] == started_at
                &&& self.readings[n - 1] < config.deadline(started_at)
            },
            Phase::Draining | Phase::AwaitingDrain | Phase::Detaching | Phase::Detached => {
                &&& n == self.cycles + 2
                &&& self.readings[n - 1] >= config.deadline(self.readings[0])
            },
            Phase::Failed(_) => true,
        }
    }
}

impl Phase {
    /// The arrows of the session's state diagram: whether a session can go
    /// from `previous` to this phase in one step.
    pub open spec fn follows(self, previous: Phase) -> bool {
        match self {
            Phase::Unattached => false,
            Phase::Attached => previous is Unattached,
            Phase::Checking { started_at } => previous is Attached || previous == (Phase::Running {
                started_at,
            }),
            Phase::Stopping { started_at } => previous == (Phase::Checking { started_at }),
            Phase::AwaitingStop { started_at } => previous == (Phase::Stopping { started_at }),
            Phase::Stopped { started_at } => previous == (Phase::AwaitingStop { started_at }),
            Phase::Resuming { started_at } => previous == (Phase::Stopped { started_at }),
            Phase::Running { started_at } => previous == (Phase::Resuming { started_at }),
            Phase::Draining => previous is Checking,
            Phase::AwaitingDrain => previous is Draining,
            Phase::Detaching => previous is AwaitingDrain,
            Phase::Detached => previous is Detaching,
            Phase::Failed(error) => previous.operation() == Some(error.operation),
        }
    }

    /// Whether the controller is attached to its task in this phase: from
    /// the successful attach to the successful detach, and for good in a
    /// session that failed after it had attached.
    pub open spec fn holds_task(self) -> bool {
        match self {
            Phase::Unattached | Phase::Detached => false,
            Phase::Failed(error) => error.operation != Operation::Attach,
            _ => true,
        }
    }

    /// Whether the controller has its task stopped in this phase: from an
    /// acknowledged stop to the resume or the detach that follows it, and for
    /// good in a session in which that resume or detach failed.
    pub open spec fn holds_task_stopped(self) -> bool {
        match self {
            Phase::Stopped { .. } | Phase::Resuming { .. } | Phase::Detaching => true,
            Phase::Failed(error) => error.operation == Operation::Resume || error.operation
                == Operation::Detach,
            _ => false,
        }
    }
}

/// The record of the session whose controller was given `events`, in order.
pub open spec fn trace(config: TaskThrottleConfig, events: Seq<Event>) -> Trace
    decreases events.len(),
{
    if events.len() == 0 {
        Trace::start()
    } else {
        trace(config, events.drop_last()).record(config, events.last())
    }
}

/// One more event takes the record's current phase where `Phase::after`
/// takes it: the record follows the controller step by step.
pub proof fn lemma_trace_follows_controller(
    config: TaskThrottleConfig,
    events: Seq<Event>,
    event: Event,
)
    ensures
        trace(config, Seq::<Event>::empty()).current() == Phase::Unattached,
        trace(config, events.push(event)).current() == trace(config, events).current().after(
            config,
            event,
        ),
{
    assert(events.push(event).drop_last() == events);
    assert(events.push(event).last() == event);
}

/// One event keeps a consistent record consistent.
proof fn lemma_record_consistent(record: Trace, config: TaskThrottleConfig, event: Event)
    requires
        record.consistent(config),
    ensures
        record.record(config, event).consistent(config),
{
    let next = record.record(config, event);
    let phase = record.current();
    if phase.accepts(config, event) {
        let n = record.phases.len() as int;
        assert(next.phases.len() == n + 1);
        assert(next.current() == phase.after(config, event));
        assert(next.current().follows(phase));
        assert forall|i: int| 0 < i < next.phases.len() implies (#[trigger] next.phases[i]).follows(
            next.phases[i - 1],
        ) by {
            if i < n {
                assert(next.phases[i] == record.phases[i]);
                assert(next.phases[i - 1] == record.phases[i - 1]);
            } else {
                assert(next.phases[i - 1] == phase);
            }
        }
        assert(next.readings.len() >= 1 ==> next.readings[0] == if record.readings.len() >= 1 {
            record.readings[0]
        } else {
            next.readings[0]
        });
        assert forall|k: int| 1 <= k <= next.cycles implies #[trigger] next.readings[k]
            < config.deadline(next.readings[0]) by {
            if k <= record.cycles {
                assert(next.readings[k] == record.readings[k]);
            }
        }
    }
}

/// Every record that `trace` produces is consistent.
pub proof fn lemma_trace_consistent(config: TaskThrottleConfig, events: Seq<Event>)
    ensures
        trace(config, events).consistent(config),
    decreases events.len(),
{
    if events.len() > 0 {
        lemma_trace_consistent(config, events.drop_last());
        lemma_record_consistent(trace(config, events.drop_last()), config, events.last());
    }
}

/// A session is over exactly when it is detached or has failed, and an
/// event given to a finished session changes nothing: after a failure
/// nothing further is asked of the task.
pub proof fn lemma_finished_session_stays_finished(
    config: TaskThrottleConfig,
    phase: Phase,
    event: Event,
)
    ensures
        phase.pending(config) is Finish <==> phase is Detached || phase is Failed,
        phase.result() is Some <==> phase.is_final(),
        phase.is_final() ==> phase.pending(config) == Action::Finish(phase.result()->0),
        phase.is_final() ==> !phase.accepts(config, event) && phase.after(config, event) == phase,
{
}

/// A session begins unattached and is never unattached again, so it attaches
/// at most once; and it ends where it first is detached or has failed, so
/// nothing is asked of the task after either.
pub proof fn lemma_session_begins_and_ends_once(config: TaskThrottleConfig, events: Seq<Event>)
    ensures
        ({
            let record = trace(config, events);
            &&& record.phases.len() >= 1
            &&& forall|i: int|
                0 <= i < record.phases.len() ==> (#[trigger] record.phases[i] is Unattached <==> i
                    == 0)
            &&& forall|i: int|
                0 <= i < record.phases.len() && (#[trigger] record.phases[i]).is_final() ==> i
                    == record.phases.len() - 1
        }),
{
    lemma_trace_consistent(config, events);
    let record = trace(config, events);
    assert forall|i: int| 0 <= i < record.phases.len() implies (#[trigger] record.phases[i]
        is Unattached <==> i == 0) by {
        if i > 0 {
            assert(record.phases[i].follows(record.phases[i - 1]));
        }
    }
    assert forall|i: int|
        0 <= i < record.phases.len() && (#[trigger] record.phases[i]).is_final() implies i
        == record.phases.len() - 1 by {
        if i < record.phases.len() - 1 {
            assert(record.phases[i + 1].follows(record.phases[i]));
        }
    }
}

/// A session that reports success has released its task: the controller is
/// no longer attached and the task is not left stopped. Success is reported
/// only after the last stop was acknowledged and the detach has succeeded, in
/// that order. A session that reports a failure holds on to its task exactly
/// when the failed request was not the attach.
pub proof fn lemma_success_releases_task(config: TaskThrottleConfig, events: Seq<Event>)
    ensures
        ({
            let record = trace(config, events);
            let last = record.phases.len() - 1;
            &&& record.current().pending(config) == Action::Finish(Ok(())) ==> {
                &&& record.current() is Detached
                &&& !record.task.traced
                &&& !record.task.stopped
                &&& last >= 3
                &&& record.phases[last - 1] is Detaching
                &&& record.phases[last - 2] is AwaitingDrain
                &&& record.phases[last - 3] is Draining
            }
            &&& forall|error: ControlError|
                record.current().pending(config) == Action::Finish(Err(error)) ==> {
                    &&& record.current() == Phase::Failed(error)
                    &&& record.task.traced == (error.operation != Operation::Attach)
                }
        }),
{
    lemma_trace_consistent(config, events);
    let record = trace(config, events);
    let last = record.phases.len() - 1;
    if record.current() is Detached {
        assert(record.phases[last].follows(record.phases[last - 1]));
        assert(record.phases[last - 1].follows(record.phases[last - 2]));
        assert(record.phases[last - 2].follows(record.phases[last - 3]));
    }
}

/// Within every cycle the stop comes before the resume. A resume is asked
/// for only right after the throttle sleep, the throttle sleep begins only
/// right after the stop was acknowledged, and the acknowledgment is waited
/// for only right after the stop was requested. While the throttle sleep or
/// the resume is pending, the task is stopped. The detach, too, comes only
/// right after an acknowledged stop.
pub proof fn lemma_stop_precedes_resume(config: TaskThrottleConfig, events: Seq<Event>)
    ensures
        ({
            let record = trace(config, events);
            &&& forall|i: int|
                0 <= i < record.phases.len() && #[trigger] record.phases[i] is Resuming ==> {
                    &&& i >= 3
                    &&& record.phases[i - 1] is Stopped
                    &&& record.phases[i - 2] is AwaitingStop
                    &&& record.phases[i - 3] is Stopping
                }
            &&& forall|i: int|
                0 <= i < record.phases.len() && #[trigger] record.phases[i] is Stopped ==> {
                    &&& i >= 2
                    &&& record.phases[i - 1] is AwaitingStop
                    &&& record.phases[i - 2] is Stopping
                }
            &&& forall|i: int|
                0 <= i < record.phases.len() && #[trigger] record.phases[i] is Detaching ==> {
                    &&& i >= 2
                    &&& record.phases[i - 1] is AwaitingDrain
                    &&& record.phases[i - 2] is Draining
                }
            &&& record.current() is Stopped || record.current() is Resuming
                ==> record.task.stopped && record.task.traced
        }),
{
    lemma_trace_consistent(config, events);
    let record = trace(config, events);
    assert forall|i: int|
        0 <= i < record.phases.len() && #[trigger] record.phases[i] is Stopped implies {
        &&& i >= 2
        &&& record.phases[i - 1] is AwaitingStop
        &&& record.phases[i - 2] is Stopping
    } by {
        assert(record.phases[i].follows(record.phases[i - 1]));
        assert(record.phases[i - 1].follows(record.phases[i - 2]));
    }
    assert forall|i: int|
        0 <= i < record.phases.len() && #[trigger] record.phases[i] is Resuming implies {
        &&& i >= 3
        &&& record.phases[i - 1] is Stopped
        &&& record.phases[i - 2] is AwaitingStop
        &&& record.phases[i - 3] is Stopping
    } by {
        assert(record.phases[i].follows(record.phases[i - 1]));
        assert(record.phases[i - 1].follows(record.phases[i - 2]));
        assert(record.phases[i - 2].follows(record.phases[i - 3]));
    }
    assert forall|i: int|
        0 <= i < record.phases.len() && #[trigger] record.phases[i] is Detaching implies {
        &&& i >= 2
        &&& record.phases[i - 1] is AwaitingDrain
        &&& record.phases[i - 2] is Draining
    } by {
        assert(record.phases[i].follows(record.phases[i - 1]));
        assert(record.phases[i - 1].follows(record.phases[i - 2]));
    }
}

/// Every request is made of a task that is in the state for it. The attach
/// is asked for only while the controller is not attached; a stop and its
/// acknowledgment only while the controller is attached and the task runs;
/// the resume and the detach only while the controller is attached and the
/// task is stopped. The free-run sleep finds the task attached and running.
pub proof fn lemma_requests_fit_task(config: TaskThrottleConfig, events: Seq<Event>)
    ensures
        ({
            let record = trace(config, events);
            let action = record.current().pending(config);
            &&& action == Action::Attach ==> !record.task.traced
            &&& action == Action::Stop || action == Action::AwaitStop ==> record.task.traced
                && !record.task.stopped
            &&& action == Action::Resume || action == Action::Detach ==> record.task.traced
                && record.task.stopped
            &&& record.current() is Running ==> record.task.traced && !record.task.stopped
        }),
{
    lemma_trace_consistent(config, events);
}

/// A session never leaves the cycle loop early: once it is past the loop,
/// the clock has advanced by at least the control duration since the session
/// started. So a session that reports success has lasted at least that long.
pub proof fn lemma_session_not_cut_short(config: TaskThrottleConfig, events: Seq<Event>)
    ensures
        ({
            let record = trace(config, events);
            record.past_the_loop() ==> {
                &&& record.readings.len() >= 2
                &&& record.measured_length() >= config.control_duration.nanos()
            }
        }),
{
    lemma_trace_consistent(config, events);
}

/// Under `sleeps_in_full`, reading `k` lies at least `k - 1` cycles after the
/// reading that started the session.
proof fn lemma_readings_spread(record: Trace, config: TaskThrottleConfig, k: int)
    requires
        record.sleeps_in_full(config),
        1 <= k < record.readings.len(),
    ensures
        record.readings[k] >= record.readings[0] + (k - 1) * config.cycle_nanos(),
    decreases k,
{
    if k == 1 {
        assert(record.gap(0) >= 0);
    } else {
        lemma_readings_spread(record, config, k - 1);
        assert(record.gap(k - 1) >= config.cycle_nanos());
        assert((k - 1) * config.cycle_nanos() == (k - 2) * config.cycle_nanos()
            + config.cycle_nanos()) by (nonlinear_arith);
    }
}

/// The number of completed cycles is bounded by the control duration: where
/// every sleep lasts at least as long as asked and the clock does not run
/// backwards, the completed cycles take no more time together than the
/// control duration and one cycle.
pub proof fn lemma_cycles_bounded(config: TaskThrottleConfig, events: Seq<Event>)
    requires
        trace(config, events).sleeps_in_full(config),
    ensures
        trace(config, events).cycles * config.cycle_millis() <= config.control_duration.ms
            + config.cycle_millis(),
{
    lemma_trace_consistent(config, events);
    let record = trace(config, events);
    let cycles = record.cycles as int;
    let cycle = config.cycle_millis();
    let control = config.control_duration.ms as int;
    if cycles >= 1 {
        lemma_readings_spread(record, config, cycles);
        assert(record.readings[cycles] < config.deadline(record.readings[0]));
        assert((cycles - 1) * config.cycle_nanos() < control * 1000000);
        assert((cycles - 1) * config.cycle_nanos() == ((cycles - 1) * cycle) * 1000000) by {
            assert(config.cycle_nanos() == cycle * 1000000);
            assert((cycles - 1) * (cycle * 1000000) == ((cycles - 1) * cycle) * 1000000)
                by (nonlinear_arith);
        }
        assert((cycles - 1) * cycle < control);
        assert(cycles * cycle == (cycles - 1) * cycle + cycle) by (nonlinear_arith);
    } else {
        assert(cycles * cycle == 0) by (nonlinear_arith)
            requires
                cycles == 0,
        ;
    }
}

/// A session overshoots the control duration by at most its last cycle:
/// where no two consecutive clock readings are further apart than one cycle
/// and `slack` nanoseconds, the clock reading that ends the loop lies at
/// most the control duration, one cycle and `slack` after the start.
pub proof fn lemma_overshoot_bounded(config: TaskThrottleConfig, events: Seq<Event>, slack: int)
    requires
        slack >= 0,
        trace(config, events).overruns_by_at_most(config, slack),
    ensures
        ({
            let record = trace(config, events);
            record.past_the_loop() ==> record.measured_length() <= config.control_duration.nanos()
                + config.cycle_nanos() + slack
        }),
{
    lemma_trace_consistent(config, events);
    let record = trace(config, events);
    if record.past_the_loop() {
        let n = record.readings.len() as int;
        assert(record.gap(n - 2) <= config.cycle_nanos() + slack);
        if record.cycles >= 1 {
            assert(record.readings[record.cycles as int] < config.deadline(record.readings[0]));
        }
    }
}

} // verus!
