//! One deployment cycle as a state machine over plain values: which state
//! follows which, and what the caller is asked to do in between.

use crate::app_manager::{
    Lifecycle, Operation, ProcessAction, ProcessEvent, ProcessFault, SupervisedProcessState,
};
use crate::package_manager::DependencyAction;
use vstd::prelude::*;

verus! {

/// How a deployment cycle ended.
#[derive(Debug, Clone, Copy, PartialEq, Eq, Structural)]
pub enum Outcome {
    Succeeded,
    Skipped,
    FailedValidation,
    FailedDependencyUpdate,
    FailedRestart,
    FailedHealthCheck,
}

/// Where a deployment cycle stands. A cycle that has ended leaves the
/// orchestrator `Idle`; how it ended is in its record.
#[derive(Debug, Clone, Copy, PartialEq, Eq, Structural)]
pub enum CycleState {
    Idle,
    Received,
    Validating,
    Classifying,
    UpdatingDependencies,
    Restarting,
    HealthChecking,
}

/// What an orchestrator remembers of the cycle in flight, together with the
/// state of its supervisor.
#[derive(Debug, Clone, Copy, PartialEq, Eq, Structural)]
pub struct Cycle {
    pub state: CycleState,
    /// The action chosen for the dependencies, `Nothing` until one is chosen.
    pub dependency_action: DependencyAction,
    /// How many runs of the package manager have been tried again.
    pub retries_made: u32,
    /// How many health probes have failed.
    pub health_failures: u32,
    pub supervisor: Lifecycle,
    /// The service is about to end: cycles are abandoned, none is admitted.
    pub shutting_down: bool,
}

/// What a step of the cycle takes in, apart from the notification.
#[derive(Debug, Clone, Copy, PartialEq, Eq, Structural)]
pub enum Input {
    /// Nothing: the state in hand needs nothing from outside.
    Proceed,
    /// The package manager failed in passing and is to run again.
    CommandRetry,
    /// The package manager has brought the dependencies up to date.
    CommandSucceeded,
    /// The package manager has failed for good.
    CommandFailed,
    /// What was seen of the managed process.
    Process(ProcessEvent),
    /// The result of a health probe.
    Health(bool),
}

/// What a step of the cycle asks for.
#[derive(Debug, Clone, Copy, PartialEq, Eq, Structural)]
pub enum Step {
    /// Step again with `Proceed`.
    Continue,
    /// Nothing changed in the cycle; what was asked for before still holds.
    Ignored,
    /// No cycle is in flight.
    Idle,
    /// The cycle was abandoned because the service is about to end.
    Abandoned,
    /// Run the package manager and report how it ended.
    RunPackageManager { action: DependencyAction, retries_made: u32 },
    /// Do this to the managed process and report what was seen.
    Process(ProcessAction),
    /// Probe the health of the application, at once or after the interval
    /// between probes, and report the result.
    ProbeHealth { after_interval: bool },
    /// The cycle has ended.
    Finished(Outcome),
}

/// What the notification in hand amounts to.
pub struct Facts {
    /// The signature is the one of the payload under the shared secret.
    pub valid: bool,
    pub affects_dependencies: bool,
    pub affects_application: bool,
    /// The action that the change calls for.
    pub action: DependencyAction,
    /// A notification waits for the cycle in flight to end.
    pub pending: bool,
}

/// The limits that a cycle is run under.
pub struct Limits {
    /// How many delayed probes a starting process has to pass.
    pub rechecks: u32,
    /// How many health probes may fail before the cycle has failed. With 0
    /// the health is not probed.
    pub health_attempts: u32,
}

impl Outcome {
    /// The HTTP status that tells of the outcome: 200 for a cycle that
    /// succeeded or was skipped, 401 for a bad signature, 500 for every other
    /// failure.
    pub open spec fn status(self) -> u16 {
        match self {
            Outcome::Succeeded => 200,
            Outcome::Skipped => 200,
            Outcome::FailedValidation => 401,
            _ => 500,
        }
    }

    /// The HTTP status that tells of the outcome.
    pub fn http_status(self) -> (code: u16)
        ensures
            code == self.status(),
    {
        match self {
            Outcome::Succeeded => 200,
            Outcome::Skipped => 200,
            Outcome::FailedValidation => 401,
            _ => 500,
        }
    }
}

impl Cycle {
    /// An orchestrator at rest with a supervisor that has started nothing.
    pub open spec fn initial() -> Cycle {
        Cycle {
            state: CycleState::Idle,
            dependency_action: DependencyAction::Nothing,
            retries_made: 0,
            health_failures: 0,
            supervisor: Lifecycle::initial(),
            shutting_down: false,
        }
    }

    /// The supervisor has an operation open exactly while the cycle is
    /// `Restarting`, and no action is chosen for the dependencies before the
    /// change has been classified.
    pub open spec fn wf(self) -> bool {
        &&& self.supervisor.wf()
        &&& self.state == CycleState::Restarting <==> self.supervisor.operation != Operation::Idle
        &&& self.before_classified() ==> self.dependency_action == DependencyAction::Nothing
    }

    /// Whether the cycle has not come past `Classifying`.
    pub open spec fn before_classified(self) -> bool {
        ||| self.state == CycleState::Idle
        ||| self.state == CycleState::Received
        ||| self.state == CycleState::Validating
        ||| self.state == CycleState::Classifying
    }

    /// The same cycle in another state.
    pub open spec fn in_state(self, state: CycleState) -> Cycle {
        Cycle {
            state,
            dependency_action: self.dependency_action,
            retries_made: self.retries_made,
            health_failures: self.health_failures,
            supervisor: self.supervisor,
            shutting_down: self.shutting_down,
        }
    }

    /// The same cycle with the supervisor in another state.
    pub open spec fn with_supervisor(self, supervisor: Lifecycle) -> Cycle {
        Cycle {
            state: self.state,
            dependency_action: self.dependency_action,
            retries_made: self.retries_made,
            health_failures: self.health_failures,
            supervisor,
            shutting_down: self.shutting_down,
        }
    }

    /// The orchestrator once the cycle is over: nothing is kept of it but
    /// the supervisor.
    pub open spec fn rested(self) -> Cycle {
        Cycle {
            state: CycleState::Idle,
            dependency_action: DependencyAction::Nothing,
            retries_made: 0,
            health_failures: 0,
            supervisor: self.supervisor,
            shutting_down: self.shutting_down,
        }
    }

    /// The cycle for a notification that has just been admitted.
    pub open spec fn admitted(self) -> Cycle {
        self.rested().in_state(CycleState::Received)
    }

    /// Entering `Restarting`: the restart is opened on the supervisor.
    pub open spec fn begin_restart(self, limits: Limits) -> (Cycle, Step) {
        let (supervisor, opened) = self.supervisor.after_restart(limits.rechecks);
        match opened {
            Ok(action) => (
                self.with_supervisor(supervisor).in_state(CycleState::Restarting),
                Step::Process(action),
            ),
            Err(_) => (self.rested(), Step::Finished(Outcome::FailedRestart)),
        }
    }

    /// `Classifying`: a change that affects neither the dependencies nor the
    /// application is skipped. One that calls for an action on the
    /// dependencies has them updated first. Every other one goes on to the
    /// restart.
    pub open spec fn classify(self, facts: Facts, limits: Limits) -> (Cycle, Step) {
        if !facts.affects_dependencies && !facts.affects_application {
            (self.rested(), Step::Finished(Outcome::Skipped))
        } else if facts.affects_dependencies && facts.action != DependencyAction::Nothing {
            (
                Cycle {
                    state: CycleState::UpdatingDependencies,
                    dependency_action: facts.action,
                    retries_made: 0,
                    health_failures: self.health_failures,
                    supervisor: self.supervisor,
                    shutting_down: self.shutting_down,
                },
                Step::RunPackageManager { action: facts.action, retries_made: 0 },
            )
        } else {
            self.begin_restart(limits)
        }
    }

    /// `UpdatingDependencies`: a failure ends the cycle before anything is
    /// done to the process.
    pub open spec fn update(self, input: Input, limits: Limits) -> (Cycle, Step) {
        match input {
            Input::CommandRetry => if self.retries_made < u32::MAX {
                (
                    Cycle {
                        state: self.state,
                        dependency_action: self.dependency_action,
                        retries_made: (self.retries_made + 1) as u32,
                        health_failures: self.health_failures,
                        supervisor: self.supervisor,
                        shutting_down: self.shutting_down,
                    },
                    Step::RunPackageManager {
                        action: self.dependency_action,
                        retries_made: (self.retries_made + 1) as u32,
                    },
                )
            } else {
                (self.rested(), Step::Finished(Outcome::FailedDependencyUpdate))
            },
            Input::CommandSucceeded => self.begin_restart(limits),
            Input::CommandFailed => (self.rested(), Step::Finished(Outcome::FailedDependencyUpdate)),
            _ => (self, Step::Ignored),
        }
    }

    /// `Restarting`: the supervisor is shown what was seen of the process.
    /// When it has completed the restart the health is probed; when it has
    /// given up, the cycle has failed.
    pub open spec fn restart(self, event: ProcessEvent, limits: Limits) -> (Cycle, Step) {
        let (supervisor, action) = self.supervisor.after_event(event, limits.rechecks);
        let next = self.with_supervisor(supervisor);
        match action {
            ProcessAction::Completed => if self.shutting_down {
                (next.rested(), Step::Abandoned)
            } else if limits.health_attempts == 0 {
                (next.rested(), Step::Finished(Outcome::Succeeded))
            } else {
                (
                    Cycle {
                        state: CycleState::HealthChecking,
                        dependency_action: self.dependency_action,
                        retries_made: self.retries_made,
                        health_failures: 0,
                        supervisor,
                        shutting_down: self.shutting_down,
                    },
                    Step::ProbeHealth { after_interval: false },
                )
            },
            ProcessAction::Failed(_) => (next.rested(), Step::Finished(Outcome::FailedRestart)),
            ProcessAction::Nothing => (next, Step::Ignored),
            _ => (next, Step::Process(action)),
        }
    }

    /// `HealthChecking`: a probe that passes ends the cycle in success. One
    /// that fails is repeated until as many have failed as are allowed; then
    /// the cycle has failed, and the process is left as it is.
    pub open spec fn check_health(self, passed: bool, limits: Limits) -> (Cycle, Step) {
        let (supervisor, healthy) = self.supervisor.after_health_check(passed);
        let next = self.with_supervisor(supervisor);
        if healthy == Ok::<bool, ProcessFault>(true) {
            (next.rested(), Step::Finished(Outcome::Succeeded))
        } else if self.health_failures + 1 >= limits.health_attempts {
            (next.rested(), Step::Finished(Outcome::FailedHealthCheck))
        } else {
            (
                Cycle {
                    state: self.state,
                    dependency_action: self.dependency_action,
                    retries_made: self.retries_made,
                    health_failures: (self.health_failures + 1) as u32,
                    supervisor,
                    shutting_down: self.shutting_down,
                },
                Step::ProbeHealth { after_interval: true },
            )
        }
    }

    /// The cycle after a step, and what the step asks for.
    ///
    /// What is seen of the process outside `Restarting` goes to the
    /// supervisor and changes nothing else: this is how a crash is noticed.
    /// At rest, a waiting notification is admitted. Once the service is about
    /// to end, a cycle is abandoned at its next step, but not while the
    /// supervisor has an operation open.
    pub open spec fn after(self, input: Input, facts: Facts, limits: Limits) -> (Cycle, Step) {
        if let Input::Process(event) = input {
            if self.state == CycleState::Restarting {
                self.restart(event, limits)
            } else {
                (
                    self.with_supervisor(self.supervisor.after_event(event, limits.rechecks).0),
                    Step::Ignored,
                )
            }
        } else if self.state == CycleState::Restarting {
            (self, Step::Ignored)
        } else if self.state == CycleState::Idle {
            if input == Input::Proceed && facts.pending && !self.shutting_down {
                (self.admitted(), Step::Continue)
            } else {
                (self, Step::Idle)
            }
        } else if self.shutting_down {
            (self.rested(), Step::Abandoned)
        } else {
            match self.state {
                CycleState::Received => if input == Input::Proceed {
                    (self.in_state(CycleState::Validating), Step::Continue)
                } else {
                    (self, Step::Ignored)
                },
                CycleState::Validating => if input != Input::Proceed {
                    (self, Step::Ignored)
                } else if facts.valid {
                    (self.in_state(CycleState::Classifying), Step::Continue)
                } else {
                    (self.rested(), Step::Finished(Outcome::FailedValidation))
                },
                CycleState::Classifying => if input == Input::Proceed {
                    self.classify(facts, limits)
                } else {
                    (self, Step::Ignored)
                },
                CycleState::UpdatingDependencies => self.update(input, limits),
                CycleState::HealthChecking => match input {
                    Input::Health(passed) => self.check_health(passed, limits),
                    _ => (self, Step::Ignored),
                },
                _ => (self, Step::Ignored),
            }
        }
    }
}

/// Whether a step asks for something to be done to the managed process.
pub open spec fn touches_process(step: Step) -> bool {
    step matches Step::Process(action) && (action == ProcessAction::Spawn || action
        == ProcessAction::Terminate || action == ProcessAction::Kill)
}

/// A cycle that fits its supervisor keeps fitting it, whatever comes in.
pub proof fn lemma_cycle_stays_wf(cycle: Cycle, input: Input, facts: Facts, limits: Limits)
    requires
        cycle.wf(),
    ensures
        Cycle::initial().wf(),
        cycle.after(input, facts, limits).0.wf(),
        cycle.state == CycleState::Idle ==> cycle.admitted().wf(),
{
}

/// Every cycle yields one record, at its end: a step that finishes a cycle
/// leaves the orchestrator at rest, where no step finishes anything.
pub proof fn lemma_one_record_per_cycle(cycle: Cycle, input: Input, facts: Facts, limits: Limits)
    requires
        cycle.wf(),
    ensures
        cycle.after(input, facts, limits).1 is Finished ==> cycle.state != CycleState::Idle
            && cycle.after(input, facts, limits).0.state == CycleState::Idle,
        cycle.state == CycleState::Idle ==> !(cycle.after(input, facts, limits).1 is Finished),
{
}

/// Nothing is done before the signature has been found good: up to the end
/// of `Validating` no step asks for the package manager or touches the
/// process, and a bad signature ends the cycle at once.
pub proof fn lemma_validation_comes_first(cycle: Cycle, input: Input, facts: Facts, limits: Limits)
    requires
        cycle.wf(),
        cycle.state == CycleState::Received || cycle.state == CycleState::Validating,
    ensures
        !touches_process(cycle.after(input, facts, limits).1),
        !(cycle.after(input, facts, limits).1 is RunPackageManager),
        !(input is Process) ==> cycle.after(input, facts, limits).0.supervisor == cycle.supervisor,
        cycle.state == CycleState::Validating && input == Input::Proceed && !facts.valid
            && !cycle.shutting_down ==> cycle.after(input, facts, limits) == (
            cycle.rested(),
            Step::Finished(Outcome::FailedValidation),
        ),
{
}

/// A change that affects neither the dependencies nor the application is
/// skipped, and the process is left alone.
pub proof fn lemma_unaffecting_change_is_skipped(cycle: Cycle, facts: Facts, limits: Limits)
    requires
        cycle.wf(),
        cycle.state == CycleState::Classifying,
        !cycle.shutting_down,
        !facts.affects_dependencies,
        !facts.affects_application,
    ensures
        cycle.after(Input::Proceed, facts, limits) == (
            cycle.rested(),
            Step::Finished(Outcome::Skipped),
        ),
        cycle.after(Input::Proceed, facts, limits).0.supervisor == cycle.supervisor,
{
}

/// When the dependencies cannot be brought up to date the cycle ends as
/// `FailedDependencyUpdate` and the supervisor is as it was: no restart is
/// tried.
pub proof fn lemma_failed_update_leaves_process(cycle: Cycle, facts: Facts, limits: Limits)
    requires
        cycle.wf(),
        cycle.state == CycleState::UpdatingDependencies,
        !cycle.shutting_down,
    ensures
        cycle.after(Input::CommandFailed, facts, limits) == (
            cycle.rested(),
            Step::Finished(Outcome::FailedDependencyUpdate),
        ),
        cycle.after(Input::CommandFailed, facts, limits).0.supervisor == cycle.supervisor,
{
}

/// Up to the restart a cycle does not touch the supervisor: unless something
/// is seen of the process, a step that neither starts in `Restarting` or
/// `HealthChecking` nor leads to `Restarting` leaves the supervisor as it
/// was.
pub proof fn lemma_supervisor_untouched_before_restart(
    cycle: Cycle,
    input: Input,
    facts: Facts,
    limits: Limits,
)
    requires
        cycle.wf(),
        !(input is Process),
        cycle.state != CycleState::Restarting,
        cycle.state != CycleState::HealthChecking,
        cycle.after(input, facts, limits).0.state != CycleState::Restarting,
    ensures
        cycle.after(input, facts, limits).0.supervisor == cycle.supervisor,
{
}

/// When the supervisor gives up the restart the cycle ends as
/// `FailedRestart`; after a launch that failed the supervisor says
/// `Crashed`.
pub proof fn lemma_failed_restart(cycle: Cycle, event: ProcessEvent, facts: Facts, limits: Limits)
    requires
        cycle.wf(),
        cycle.state == CycleState::Restarting,
    ensures
        cycle.supervisor.after_event(event, limits.rechecks).1 is Failed ==> cycle.after(
            Input::Process(event),
            facts,
            limits,
        ).1 == Step::Finished(Outcome::FailedRestart),
        cycle.supervisor.state == SupervisedProcessState::Starting && event
            == ProcessEvent::SpawnFailed ==> cycle.after(Input::Process(event), facts, limits).1
            == Step::Finished(Outcome::FailedRestart) && cycle.after(
            Input::Process(event),
            facts,
            limits,
        ).0.supervisor.state == SupervisedProcessState::Crashed,
{
}

/// The process is touched in `Restarting` only, and entering `Restarting`
/// is the only other step that touches it: no two restarts run at once.
pub proof fn lemma_process_touched_by_restart_only(
    cycle: Cycle,
    input: Input,
    facts: Facts,
    limits: Limits,
)
    requires
        cycle.wf(),
        touches_process(cycle.after(input, facts, limits).1),
    ensures
        cycle.after(input, facts, limits).0.state == CycleState::Restarting,
        cycle.state == CycleState::Restarting || cycle.state == CycleState::Classifying
            || cycle.state == CycleState::UpdatingDependencies,
        cycle.state != CycleState::Restarting ==> cycle.supervisor.operation == Operation::Idle,
{
}

/// A cycle succeeds only on a passed health probe, or on a completed
/// restart where no probe is asked for. When the probes are used up the
/// cycle has failed and the process is left as it is: nothing is asked of
/// it.
pub proof fn lemma_success_needs_health(cycle: Cycle, input: Input, facts: Facts, limits: Limits)
    requires
        cycle.wf(),
    ensures
        cycle.after(input, facts, limits).1 == Step::Finished(Outcome::Succeeded) ==> (cycle.state
            == CycleState::HealthChecking && input == Input::Health(true)) || (cycle.state
            == CycleState::Restarting && limits.health_attempts == 0),
        cycle.after(input, facts, limits).1 == Step::Finished(Outcome::FailedHealthCheck)
            ==> cycle.state == CycleState::HealthChecking && cycle.health_failures + 1
            >= limits.health_attempts && cycle.after(input, facts, limits).0.supervisor.has_process()
            == cycle.supervisor.has_process(),
{
}

} // verus!
