//! The supervisor of the managed application: the one owner of its
//! lifecycle state.
//!
//! The supervisor decides; the caller acts. `start`, `stop` and `restart`
//! open an operation and name the first thing to do to the process. The
//! caller does it and reports what it saw through `observe`, which names the
//! next thing to do, until the operation has completed or failed. While an
//! operation is open, no other is admitted.

use crate::error::{MonitorError, Result};
use vstd::prelude::*;

verus! {

/// Where the managed process stands.
#[derive(Debug, Clone, Copy, PartialEq, Eq, Structural)]
pub enum SupervisedProcessState {
    /// No process, and none was lost.
    Stopped,
    /// The command has been launched; the process has yet to prove alive.
    Starting,
    /// The process is alive.
    Running,
    /// The process has been told to end; its end has not been seen.
    Stopping,
    /// The process is alive and has failed a health check.
    Unhealthy,
    /// The launch failed or the process ended without being told to.
    Crashed,
}

/// The operation that is open on a supervisor.
#[derive(Debug, Clone, Copy, PartialEq, Eq, Structural)]
pub enum Operation {
    Idle,
    Start,
    Stop,
    Restart,
}

/// What the caller saw of the process.
#[derive(Debug, Clone, Copy, PartialEq, Eq, Structural)]
pub enum ProcessEvent {
    /// The command was launched.
    Spawned,
    /// The command could not be launched.
    SpawnFailed,
    /// The process is alive: a probe found it so, or a wait for its end ran
    /// out of time.
    Alive,
    /// The process has ended.
    Exited,
}

/// Why an operation was refused or given up.
#[derive(Debug, Clone, Copy, PartialEq, Eq, Structural)]
pub enum ProcessFault {
    /// Another operation is open.
    Busy,
    /// There is a process already.
    AlreadyRunning,
    /// There is no process to look at.
    NotRunning,
    /// The command could not be launched.
    SpawnFailed,
    /// The process ended before it had proved alive.
    ExitedOnStartup,
    /// The process was still alive when the wait for its end ran out.
    StopTimedOut,
}

/// What the caller is to do next.
#[derive(Debug, Clone, Copy, PartialEq, Eq, Structural)]
pub enum ProcessAction {
    /// Launch the start command in the working directory; report `Spawned`
    /// or `SpawnFailed`.
    Spawn,
    /// Ask at once whether the process is alive; report `Alive` or `Exited`.
    ProbeNow,
    /// Let the grace period pass, then ask whether the process is alive;
    /// report `Alive` or `Exited`.
    ProbeAfterGrace,
    /// Ask the process to end and wait for it up to the graceful time-out;
    /// report `Exited`, or `Alive` when the time is up.
    Terminate,
    /// Kill the process and wait for its end; report `Exited`, or `Alive`
    /// when the time is up.
    Kill,
    /// No operation is open: there is nothing to do.
    Nothing,
    /// The open operation has reached its end.
    Completed,
    /// The open operation is given up.
    Failed(ProcessFault),
}

/// The state of a supervisor.
#[derive(Debug, Clone, Copy, PartialEq, Eq, Structural)]
pub struct Lifecycle {
    pub state: SupervisedProcessState,
    pub operation: Operation,
    /// While starting: how many delayed probes the process has yet to pass.
    pub rechecks_left: u32,
    /// While stopping: whether the process has been killed already.
    pub forced: bool,
}

impl ProcessFault {
    /// The fault in words.
    pub open spec fn text(self) -> Seq<char> {
        match self {
            ProcessFault::Busy => "another operation is in flight"@,
            ProcessFault::AlreadyRunning => "the application is already running"@,
            ProcessFault::NotRunning => "the application is not running"@,
            ProcessFault::SpawnFailed => "the start command could not be launched"@,
            ProcessFault::ExitedOnStartup => "the application exited during startup"@,
            ProcessFault::StopTimedOut => "the application did not stop in time and may still be alive"@,
        }
    }

    /// The fault in words.
    pub fn describe(self) -> (s: String)
        ensures
            s@ == self.text(),
    {
        match self {
            ProcessFault::Busy => String::from_str("another operation is in flight"),
            ProcessFault::AlreadyRunning => String::from_str("the application is already running"),
            ProcessFault::NotRunning => String::from_str("the application is not running"),
            ProcessFault::SpawnFailed => String::from_str("the start command could not be launched"),
            ProcessFault::ExitedOnStartup => String::from_str("the application exited during startup"),
            ProcessFault::StopTimedOut => String::from_str(
                "the application did not stop in time and may still be alive",
            ),
        }
    }

    /// The fault as an error of the application's management.
    pub fn to_error(self) -> (e: MonitorError)
        ensures
            e matches MonitorError::AppManager(m) && m@ == self.text(),
    {
        MonitorError::AppManager(self.describe())
    }
}

impl Lifecycle {
    /// A supervisor that has not started anything.
    pub open spec fn initial() -> Lifecycle {
        Lifecycle {
            state: SupervisedProcessState::Stopped,
            operation: Operation::Idle,
            rechecks_left: 0,
            forced: false,
        }
    }

    /// State and open operation fit together: a start is open exactly while
    /// starting, a stop only while stopping, a restart while stopping or
    /// starting.
    pub open spec fn wf(self) -> bool {
        &&& self.operation == Operation::Idle ==> self.state != SupervisedProcessState::Starting
        &&& self.operation == Operation::Start ==> self.state == SupervisedProcessState::Starting
        &&& self.operation == Operation::Stop ==> self.state == SupervisedProcessState::Stopping
        &&& self.operation == Operation::Restart ==> self.state == SupervisedProcessState::Stopping
            || self.state == SupervisedProcessState::Starting
        &&& self.forced ==> self.operation == Operation::Stop
    }

    /// Whether there is, as far as the supervisor knows, a process that has
    /// been started and not seen to end.
    pub open spec fn has_process(self) -> bool {
        ||| self.state == SupervisedProcessState::Running
        ||| self.state == SupervisedProcessState::Unhealthy
        ||| self.state == SupervisedProcessState::Stopping
    }

    /// The supervisor at rest in `state`.
    pub open spec fn at_rest(state: SupervisedProcessState) -> Lifecycle {
        Lifecycle { state, operation: Operation::Idle, rechecks_left: 0, forced: false }
    }

    /// The supervisor with a launch under way for `operation`.
    pub open spec fn launching(operation: Operation, rechecks: u32) -> Lifecycle {
        Lifecycle {
            state: SupervisedProcessState::Starting,
            operation,
            rechecks_left: rechecks,
            forced: false,
        }
    }

    /// The supervisor waiting for the process to end for `operation`.
    pub open spec fn ending(operation: Operation, forced: bool) -> Lifecycle {
        Lifecycle { state: SupervisedProcessState::Stopping, operation, rechecks_left: 0, forced }
    }

    /// `start()`: from `Stopped`, and from `Crashed`, the command is launched.
    /// It is refused while an operation is open and where there is a
    /// process already.
    pub open spec fn after_start(self, rechecks: u32) -> (
        Lifecycle,
        core::result::Result<ProcessAction, ProcessFault>,
    ) {
        if self.operation != Operation::Idle {
            (self, Err(ProcessFault::Busy))
        } else if self.has_process() {
            (self, Err(ProcessFault::AlreadyRunning))
        } else {
            (Self::launching(Operation::Start, rechecks), Ok(ProcessAction::Spawn))
        }
    }

    /// `stop()`: a process is asked to end; without one there is nothing to
    /// do. It is refused while an operation is open.
    pub open spec fn after_stop(self) -> (
        Lifecycle,
        core::result::Result<ProcessAction, ProcessFault>,
    ) {
        if self.operation != Operation::Idle {
            (self, Err(ProcessFault::Busy))
        } else if self.has_process() {
            (Self::ending(Operation::Stop, false), Ok(ProcessAction::Terminate))
        } else {
            (self, Ok(ProcessAction::Completed))
        }
    }

    /// `restart()`: a stop followed by a start, as one operation. Without a
    /// process it is a start. It is refused while an operation is open.
    pub open spec fn after_restart(self, rechecks: u32) -> (
        Lifecycle,
        core::result::Result<ProcessAction, ProcessFault>,
    ) {
        if self.operation != Operation::Idle {
            (self, Err(ProcessFault::Busy))
        } else if self.has_process() {
            (Self::ending(Operation::Restart, false), Ok(ProcessAction::Terminate))
        } else {
            (Self::launching(Operation::Start, rechecks), Ok(ProcessAction::Spawn))
        }
    }

    /// What an observation does while the process is starting.
    pub open spec fn while_starting(self, event: ProcessEvent) -> (Lifecycle, ProcessAction) {
        match event {
            ProcessEvent::Spawned => (self, ProcessAction::ProbeNow),
            ProcessEvent::SpawnFailed => (
                Self::at_rest(SupervisedProcessState::Crashed),
                ProcessAction::Failed(ProcessFault::SpawnFailed),
            ),
            ProcessEvent::Alive => if self.rechecks_left > 0 {
                (
                    Self::launching(self.operation, (self.rechecks_left - 1) as u32),
                    ProcessAction::ProbeAfterGrace,
                )
            } else {
                (Self::at_rest(SupervisedProcessState::Running), ProcessAction::Completed)
            },
            ProcessEvent::Exited => (
                Self::at_rest(SupervisedProcessState::Crashed),
                ProcessAction::Failed(ProcessFault::ExitedOnStartup),
            ),
        }
    }

    /// What an observation does while a stop is open: the process that has
    /// not ended in time is killed, once.
    pub open spec fn while_stopping(self, event: ProcessEvent) -> (Lifecycle, ProcessAction) {
        match event {
            ProcessEvent::Exited => (
                Self::at_rest(SupervisedProcessState::Stopped),
                ProcessAction::Completed,
            ),
            ProcessEvent::Alive => if !self.forced {
                (Self::ending(Operation::Stop, true), ProcessAction::Kill)
            } else {
                (
                    Self::at_rest(SupervisedProcessState::Stopping),
                    ProcessAction::Failed(ProcessFault::StopTimedOut),
                )
            },
            _ => (self, ProcessAction::Nothing),
        }
    }

    /// What an observation does while a restart waits for the old process to
    /// end: once it has ended the command is launched; a process that has not
    /// ended in time is left alone and the restart is given up.
    pub open spec fn while_restarting(self, event: ProcessEvent, rechecks: u32) -> (
        Lifecycle,
        ProcessAction,
    ) {
        match event {
            ProcessEvent::Exited => (
                Self::launching(Operation::Restart, rechecks),
                ProcessAction::Spawn,
            ),
            ProcessEvent::Alive => (
                Self::at_rest(SupervisedProcessState::Stopping),
                ProcessAction::Failed(ProcessFault::StopTimedOut),
            ),
            _ => (self, ProcessAction::Nothing),
        }
    }

    /// What an observation does while no operation is open: a process that
    /// ended without being told to has crashed; one that had been told to
    /// has stopped.
    pub open spec fn while_idle(self, event: ProcessEvent) -> (Lifecycle, ProcessAction) {
        if event == ProcessEvent::Exited && (self.state == SupervisedProcessState::Running
            || self.state == SupervisedProcessState::Unhealthy) {
            (Self::at_rest(SupervisedProcessState::Crashed), ProcessAction::Nothing)
        } else if event == ProcessEvent::Exited && self.state == SupervisedProcessState::Stopping {
            (Self::at_rest(SupervisedProcessState::Stopped), ProcessAction::Nothing)
        } else {
            (self, ProcessAction::Nothing)
        }
    }

    /// The supervisor after an observation, and what to do next.
    pub open spec fn after_event(self, event: ProcessEvent, rechecks: u32) -> (
        Lifecycle,
        ProcessAction,
    ) {
        if self.state == SupervisedProcessState::Starting {
            self.while_starting(event)
        } else if self.operation == Operation::Stop {
            self.while_stopping(event)
        } else if self.operation == Operation::Restart {
            self.while_restarting(event, rechecks)
        } else {
            self.while_idle(event)
        }
    }

    /// A health check: it can be made of a process at rest, and it moves
    /// between `Running` and `Unhealthy` only.
    pub open spec fn after_health_check(self, passed: bool) -> (
        Lifecycle,
        core::result::Result<bool, ProcessFault>,
    ) {
        if self.operation != Operation::Idle {
            (self, Err(ProcessFault::Busy))
        } else if self.state == SupervisedProcessState::Running || self.state
            == SupervisedProcessState::Unhealthy {
            if passed {
                (Self::at_rest(SupervisedProcessState::Running), Ok(true))
            } else {
                (Self::at_rest(SupervisedProcessState::Unhealthy), Ok(false))
            }
        } else {
            (self, Err(ProcessFault::NotRunning))
        }
    }
}

/// Whatever is asked of a supervisor and whatever it is shown, state and
/// open operation keep fitting together.
pub proof fn lemma_lifecycle_stays_wf(l: Lifecycle, event: ProcessEvent, passed: bool, rechecks: u32)
    requires
        l.wf(),
    ensures
        Lifecycle::initial().wf(),
        l.after_start(rechecks).0.wf(),
        l.after_stop().0.wf(),
        l.after_restart(rechecks).0.wf(),
        l.after_event(event, rechecks).0.wf(),
        l.after_health_check(passed).0.wf(),
{
}

/// While an operation is open, `start`, `stop` and `restart` are refused
/// and change nothing: operations do not interleave.
pub proof fn lemma_one_operation_at_a_time(l: Lifecycle, rechecks: u32)
    requires
        l.operation != Operation::Idle,
    ensures
        l.after_start(rechecks) == (l, Err::<ProcessAction, _>(ProcessFault::Busy)),
        l.after_stop() == (l, Err::<ProcessAction, _>(ProcessFault::Busy)),
        l.after_restart(rechecks) == (l, Err::<ProcessAction, _>(ProcessFault::Busy)),
{
}

/// A process that ends while starting has crashed, whatever it showed
/// before: `Running` is reached from `Starting` only by a process that is
/// found alive with no delayed probe left to pass.
pub proof fn lemma_exit_while_starting_is_a_crash(l: Lifecycle, event: ProcessEvent, rechecks: u32)
    requires
        l.wf(),
        l.state == SupervisedProcessState::Starting,
    ensures
        l.after_event(ProcessEvent::Exited, rechecks).0.state == SupervisedProcessState::Crashed,
        l.after_event(ProcessEvent::Exited, rechecks).1 == ProcessAction::Failed(
            ProcessFault::ExitedOnStartup,
        ),
        l.after_event(event, rechecks).0.state == SupervisedProcessState::Running ==> event
            == ProcessEvent::Alive && l.rechecks_left == 0,
        l.rechecks_left > 0 ==> l.after_event(ProcessEvent::Alive, rechecks).0.state
            == SupervisedProcessState::Starting && l.after_event(
            ProcessEvent::Alive,
            rechecks,
        ).0.after_event(ProcessEvent::Exited, rechecks).0.state == SupervisedProcessState::Crashed,
        l.after_event(event, rechecks).0.state == SupervisedProcessState::Running
            || l.after_event(event, rechecks).0.state == SupervisedProcessState::Crashed
            || l.after_event(event, rechecks).0.state == SupervisedProcessState::Starting,
{
}

/// A restart of a supervisor at rest in `Stopped` is a start; a restart
/// while `Starting` is refused and changes nothing.
pub proof fn lemma_restart_when_stopped_or_starting(l: Lifecycle, rechecks: u32)
    requires
        l.wf(),
    ensures
        l.state == SupervisedProcessState::Stopped && l.operation == Operation::Idle
            ==> l.after_restart(rechecks) == l.after_start(rechecks) && l.after_restart(
            rechecks,
        ).1 == Ok::<_, ProcessFault>(ProcessAction::Spawn),
        l.state == SupervisedProcessState::Starting ==> l.after_restart(rechecks) == (
            l,
            Err::<ProcessAction, _>(ProcessFault::Busy),
        ),
{
}

/// A restart does not kill: when the old process has not ended in time the
/// restart fails, nothing is launched, and the supervisor says `Stopping`.
pub proof fn lemma_restart_gives_up_on_stop_timeout(l: Lifecycle, rechecks: u32)
    requires
        l.wf(),
        l.operation == Operation::Restart,
        l.state == SupervisedProcessState::Stopping,
    ensures
        l.after_event(ProcessEvent::Alive, rechecks) == (
            Lifecycle::at_rest(SupervisedProcessState::Stopping),
            ProcessAction::Failed(ProcessFault::StopTimedOut),
        ),
{
}

/// A health check does not touch the process: it names nothing to do, and
/// it leaves a supervisor either `Running` or `Unhealthy`, or as it was.
pub proof fn lemma_health_check_is_advisory(l: Lifecycle, passed: bool)
    requires
        l.wf(),
    ensures
        l.after_health_check(passed).1 is Ok ==> l.after_health_check(passed).0.state == (if passed {
            SupervisedProcessState::Running
        } else {
            SupervisedProcessState::Unhealthy
        }),
        l.after_health_check(passed).1 is Err ==> l.after_health_check(passed).0 == l,
        l.after_health_check(passed).0.has_process() == l.has_process(),
{
}

/// The supervisor of one application.
pub struct AppManager {
    working_dir: String,
    start_command: Vec<String>,
    grace_rechecks: u32,
    lifecycle: Lifecycle,
}

impl AppManager {
    #[verifier::type_invariant]
    spec fn inv(self) -> bool {
        self.lifecycle.wf()
    }

    /// The state of the supervisor.
    pub closed spec fn lifecycle(&self) -> Lifecycle {
        self.lifecycle
    }

    /// How many delayed probes a starting process has to pass.
    pub closed spec fn rechecks(&self) -> u32 {
        self.grace_rechecks
    }

    /// The directory in which the application runs.
    pub closed spec fn directory(&self) -> Seq<char> {
        self.working_dir@
    }

    /// The command that starts the application.
    pub closed spec fn command(&self) -> Seq<String> {
        self.start_command@
    }

    /// A supervisor for the application that `start_command` starts in
    /// `working_dir`. Nothing is running yet. A starting process is probed
    /// at once and once more after the grace period.
    pub fn new(working_dir: String, start_command: Vec<String>) -> (manager: Self)
        ensures
            manager.lifecycle() == Lifecycle::initial(),
            manager.rechecks() == 1,
            manager.directory() == working_dir@,
            manager.command() == start_command@,
    {
        AppManager {
            working_dir,
            start_command,
            grace_rechecks: 1,
            lifecycle: Lifecycle {
                state: SupervisedProcessState::Stopped,
                operation: Operation::Idle,
                rechecks_left: 0,
                forced: false,
            },
        }
    }

    /// The same supervisor with another number of delayed probes.
    pub fn with_grace_rechecks(self, rechecks: u32) -> (manager: Self)
        ensures
            manager.lifecycle() == self.lifecycle(),
            manager.rechecks() == rechecks,
            manager.directory() == self.directory(),
            manager.command() == self.command(),
    {
        proof {
            use_type_invariant(&self);
        }
        AppManager {
            working_dir: self.working_dir,
            start_command: self.start_command,
            grace_rechecks: rechecks,
            lifecycle: self.lifecycle,
        }
    }

    /// The directory in which the application runs.
    pub fn working_dir(&self) -> (r: &str)
        ensures
            r@ == self.directory(),
    {
        self.working_dir.as_str()
    }

    /// The command that starts the application.
    pub fn start_command(&self) -> (r: &Vec<String>)
        ensures
            r@ == self.command(),
    {
        &self.start_command
    }

    /// Where the managed process stands.
    pub fn state(&self) -> (state: SupervisedProcessState)
        ensures
            state == self.lifecycle().state,
            self.lifecycle().wf(),
    {
        proof {
            use_type_invariant(self);
        }
        self.lifecycle.state
    }

    /// Whether an operation is open.
    pub fn is_busy(&self) -> (busy: bool)
        ensures
            busy == (self.lifecycle().operation != Operation::Idle),
    {
        match self.lifecycle.operation {
            Operation::Idle => false,
            _ => true,
        }
    }

    fn holds_process(&self) -> (r: bool)
        ensures
            r == self.lifecycle().has_process(),
    {
        match self.lifecycle.state {
            SupervisedProcessState::Running => true,
            SupervisedProcessState::Unhealthy => true,
            SupervisedProcessState::Stopping => true,
            _ => false,
        }
    }

    /// Whether the application is up: `Running`, or `Unhealthy`, which is
    /// alive all the same.
    pub fn is_running(&self) -> (running: bool)
        ensures
            running == (self.lifecycle().state == SupervisedProcessState::Running
                || self.lifecycle().state == SupervisedProcessState::Unhealthy),
    {
        match self.lifecycle.state {
            SupervisedProcessState::Running => true,
            SupervisedProcessState::Unhealthy => true,
            _ => false,
        }
    }

    /// Opens a start. `Ok` names what to do first.
    pub fn start(&mut self) -> (r: Result<ProcessAction>)
        ensures
            final(self).lifecycle() == old(self).lifecycle().after_start(old(self).rechecks()).0,
            final(self).lifecycle().wf(),
            final(self).rechecks() == old(self).rechecks(),
            final(self).directory() == old(self).directory(),
            final(self).command() == old(self).command(),
            match r {
                Ok(action) => old(self).lifecycle().after_start(old(self).rechecks()).1 == Ok::<
                    _,
                    ProcessFault,
                >(action),
                Err(e) => old(self).lifecycle().after_start(old(self).rechecks()).1 matches Err(
                    fault,
                ) && e matches MonitorError::AppManager(m) && m@ == fault.text(),
            },
    {
        proof {
            use_type_invariant(&*self);
        }
        if self.is_busy() {
            Err(ProcessFault::Busy.to_error())
        } else if self.holds_process() {
            Err(ProcessFault::AlreadyRunning.to_error())
        } else {
            self.lifecycle = Lifecycle {
                state: SupervisedProcessState::Starting,
                operation: Operation::Start,
                rechecks_left: self.grace_rechecks,
                forced: false,
            };
            Ok(ProcessAction::Spawn)
        }
    }

    /// Opens a stop. `Ok` names what to do first, `Completed` where there
    /// is no process.
    pub fn stop(&mut self) -> (r: Result<ProcessAction>)
        ensures
            final(self).lifecycle() == old(self).lifecycle().after_stop().0,
            final(self).lifecycle().wf(),
            final(self).rechecks() == old(self).rechecks(),
            final(self).directory() == old(self).directory(),
            final(self).command() == old(self).command(),
            match r {
                Ok(action) => old(self).lifecycle().after_stop().1 == Ok::<_, ProcessFault>(
                    action,
                ),
                Err(e) => old(self).lifecycle().after_stop().1 matches Err(fault)
                    && e matches MonitorError::AppManager(m) && m@ == fault.text(),
            },
    {
        proof {
            use_type_invariant(&*self);
        }
        if self.is_busy() {
            Err(ProcessFault::Busy.to_error())
        } else if self.holds_process() {
            self.lifecycle = Lifecycle {
                state: SupervisedProcessState::Stopping,
                operation: Operation::Stop,
                rechecks_left: 0,
                forced: false,
            };
            Ok(ProcessAction::Terminate)
        } else {
            Ok(ProcessAction::Completed)
        }
    }

    /// Opens a restart. `Ok` names what to do first.
    pub fn restart(&mut self) -> (r: Result<ProcessAction>)
        ensures
            final(self).lifecycle() == old(self).lifecycle().after_restart(
                old(self).rechecks(),
            ).0,
            final(self).lifecycle().wf(),
            final(self).rechecks() == old(self).rechecks(),
            final(self).directory() == old(self).directory(),
            final(self).command() == old(self).command(),
            match r {
                Ok(action) => old(self).lifecycle().after_restart(old(self).rechecks()).1 == Ok::<
                    _,
                    ProcessFault,
                >(action),
                Err(e) => old(self).lifecycle().after_restart(old(self).rechecks()).1 matches Err(
                    fault,
                ) && e matches MonitorError::AppManager(m) && m@ == fault.text(),
            },
    {
        proof {
            use_type_invariant(&*self);
        }
        if self.is_busy() {
            Err(ProcessFault::Busy.to_error())
        } else if self.holds_process() {
            self.lifecycle = Lifecycle {
                state: SupervisedProcessState::Stopping,
                operation: Operation::Restart,
                rechecks_left: 0,
                forced: false,
            };
            Ok(ProcessAction::Terminate)
        } else {
            self.lifecycle = Lifecycle {
                state: SupervisedProcessState::Starting,
                operation: Operation::Start,
                rechecks_left: self.grace_rechecks,
                forced: false,
            };
            Ok(ProcessAction::Spawn)
        }
    }

    /// Takes in what the caller saw of the process and names what to do
    /// next.
    pub fn observe(&mut self, event: ProcessEvent) -> (action: ProcessAction)
        ensures
            (final(self).lifecycle(), action) == old(self).lifecycle().after_event(
                event,
                old(self).rechecks(),
            ),
            final(self).lifecycle().wf(),
            final(self).rechecks() == old(self).rechecks(),
            final(self).directory() == old(self).directory(),
            final(self).command() == old(self).command(),
    {
        proof {
            use_type_invariant(&*self);
        }
        let l = self.lifecycle;
        let rest = |state: SupervisedProcessState| -> (r: Lifecycle)
            ensures
                r == Lifecycle::at_rest(state),
            { Lifecycle { state, operation: Operation::Idle, rechecks_left: 0, forced: false } };
        let (next, action) = match l.state {
            SupervisedProcessState::Starting => match event {
                ProcessEvent::Spawned => (l, ProcessAction::ProbeNow),
                ProcessEvent::SpawnFailed => (
                    rest(SupervisedProcessState::Crashed),
                    ProcessAction::Failed(ProcessFault::SpawnFailed),
                ),
                ProcessEvent::Alive => if l.rechecks_left > 0 {
                    (
                        Lifecycle {
                            state: SupervisedProcessState::Starting,
                            operation: l.operation,
                            rechecks_left: l.rechecks_left - 1,
                            forced: false,
                        },
                        ProcessAction::ProbeAfterGrace,
                    )
                } else {
                    (rest(SupervisedProcessState::Running), ProcessAction::Completed)
                },
                ProcessEvent::Exited => (
                    rest(SupervisedProcessState::Crashed),
                    ProcessAction::Failed(ProcessFault::ExitedOnStartup),
                ),
            },
            _ => match l.operation {
                Operation::Stop => match event {
                    ProcessEvent::Exited => (
                        rest(SupervisedProcessState::Stopped),
                        ProcessAction::Completed,
                    ),
                    ProcessEvent::Alive => if !l.forced {
                        (
                            Lifecycle {
                                state: SupervisedProcessState::Stopping,
                                operation: Operation::Stop,
                                rechecks_left: 0,
                                forced: true,
                            },
                            ProcessAction::Kill,
                        )
                    } else {
                        (
                            rest(SupervisedProcessState::Stopping),
                            ProcessAction::Failed(ProcessFault::StopTimedOut),
                        )
                    },
                    _ => (l, ProcessAction::Nothing),
                },
                Operation::Restart => match event {
                    ProcessEvent::Exited => (
                        Lifecycle {
                            state: SupervisedProcessState::Starting,
                            operation: Operation::Restart,
                            rechecks_left: self.grace_rechecks,
                            forced: false,
                        },
                        ProcessAction::Spawn,
                    ),
                    ProcessEvent::Alive => (
                        rest(SupervisedProcessState::Stopping),
                        ProcessAction::Failed(ProcessFault::StopTimedOut),
                    ),
                    _ => (l, ProcessAction::Nothing),
                },
                _ => match (event, l.state) {
                    (ProcessEvent::Exited, SupervisedProcessState::Running) => (
                        rest(SupervisedProcessState::Crashed),
                        ProcessAction::Nothing,
                    ),
                    (ProcessEvent::Exited, SupervisedProcessState::Unhealthy) => (
                        rest(SupervisedProcessState::Crashed),
                        ProcessAction::Nothing,
                    ),
                    (ProcessEvent::Exited, SupervisedProcessState::Stopping) => (
                        rest(SupervisedProcessState::Stopped),
                        ProcessAction::Nothing,
                    ),
                    _ => (l, ProcessAction::Nothing),
                },
            },
        };
        self.lifecycle = next;
        action
    }

    /// Takes in the result of a health probe. A failed probe makes the
    /// supervisor `Unhealthy` and leaves the process alone; a passed one makes
    /// it `Running`. `Ok` repeats the result.
    pub fn health_check(&mut self, passed: bool) -> (r: Result<bool>)
        ensures
            final(self).lifecycle() == old(self).lifecycle().after_health_check(passed).0,
            final(self).lifecycle().wf(),
            final(self).rechecks() == old(self).rechecks(),
            final(self).directory() == old(self).directory(),
            final(self).command() == old(self).command(),
            match r {
                Ok(healthy) => old(self).lifecycle().after_health_check(passed).1 == Ok::<
                    _,
                    ProcessFault,
                >(healthy),
                Err(e) => old(self).lifecycle().after_health_check(passed).1 matches Err(fault)
                    && e matches MonitorError::AppManager(m) && m@ == fault.text(),
            },
    {
        proof {
            use_type_invariant(&*self);
        }
        if self.is_busy() {
            Err(ProcessFault::Busy.to_error())
        } else if self.is_running() {
            self.lifecycle = Lifecycle {
                state: if passed {
                    SupervisedProcessState::Running
                } else {
                    SupervisedProcessState::Unhealthy
                },
                operation: Operation::Idle,
                rechecks_left: 0,
                forced: false,
            };
            Ok(passed)
        } else {
            Err(ProcessFault::NotRunning.to_error())
        }
    }
}

} // verus!
