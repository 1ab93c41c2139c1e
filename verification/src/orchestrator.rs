//! The orchestrator: it takes one notification at a time through a
//! deployment cycle and writes down how the cycle ended.
//!
//! The orchestrator decides; the caller acts. `submit` hands a notification
//! in. `advance` makes one step of the cycle and names what is to be done
//! outside: run the package manager, do something to the process, probe the
//! health. The caller does it and reports the result with the next call of
//! `advance`, until the step is `Finished` and carries the record.

use crate::app_manager::{AppManager, Operation, ProcessAction, ProcessEvent, ProcessFault};
use crate::change::{
    adds_manifest, classify, lemma_no_commits_no_effect, modifies_manifest, touches_application,
    touches_manifest, ChangeNotification,
};
use crate::cycle::{Cycle, CycleState, Facts, Input, Limits, Outcome, Step};
use crate::error::MonitorError;
use crate::package_manager::{
    interpretation, reconcile, reconciled, CommandOutcome, DependencyAction, PackageManager,
    UpdateStep,
};
use crate::paths::texts;
use crate::signature::signature_accepted;
use crate::webhook::WebhookServer;
use vstd::prelude::*;
use vstd::utf8::encode_utf8;

verus! {

/// What arrives with a notification: the bytes as they came over the wire,
/// the signature from the header, the notification read from the bytes, and
/// whether a dependency manifest was known before this change.
#[derive(Debug, Clone, PartialEq, Eq)]
pub struct Submission {
    pub raw_payload: Vec<u8>,
    pub signature: String,
    pub notification: ChangeNotification,
    pub manifest_known: bool,
}

/// What is known of one cycle once it has ended.
#[derive(Debug, Clone, PartialEq, Eq)]
pub struct DeploymentRecord {
    pub notification_ref: String,
    pub started_at: u64,
    pub finished_at: u64,
    pub dependency_action: DependencyAction,
    pub outcome: Outcome,
    pub detail: String,
}

/// What becomes of a notification that arrives while a cycle is in flight.
#[derive(Debug, Clone, Copy, PartialEq, Eq, Structural)]
pub enum QueuePolicy {
    /// It waits; a notification that was waiting before it is dropped.
    KeepLatest,
    /// It is turned away.
    RejectWhenBusy,
}

/// What became of a notification that was handed in.
#[derive(Debug, Clone, Copy, PartialEq, Eq, Structural)]
pub enum Admission {
    /// Its cycle has begun.
    Started,
    /// It waits for the cycle in flight to end.
    Queued,
    /// It waits, and the notification that waited before it was dropped.
    Replaced,
    /// It was turned away.
    Busy,
}

impl Admission {
    /// The HTTP status that tells of a notification that did not start a
    /// cycle: 202 for one that waits, 503 for one that was turned away. One
    /// that started a cycle is answered at the end of the cycle; until then
    /// it counts as waiting.
    pub open spec fn status(self) -> u16 {
        match self {
            Admission::Busy => 503,
            _ => 202,
        }
    }

    /// The HTTP status that tells of the admission.
    pub fn http_status(self) -> (code: u16)
        ensures
            code == self.status(),
    {
        match self {
            Admission::Busy => 503,
            _ => 202,
        }
    }
}

/// What the caller reports to the orchestrator.
#[derive(Debug, Clone, PartialEq, Eq)]
pub enum CycleEvent {
    /// Nothing: the last step asked for nothing.
    Proceed,
    /// How the run of the package manager ended.
    Command(CommandOutcome),
    /// What was seen of the managed process.
    Process(ProcessEvent),
    /// Whether the health probe passed.
    Health(bool),
}

/// What the orchestrator asks of the caller.
#[derive(Debug, Clone, PartialEq, Eq)]
pub enum CycleAction {
    /// Call `advance` again with `Proceed`.
    Continue,
    /// Nothing changed in the cycle; what was asked for before still holds.
    Ignored,
    /// No cycle is in flight.
    Idle,
    /// The cycle was abandoned because the service is about to end.
    Abandoned,
    /// Run the package manager and report how it ended.
    RunPackageManager { action: DependencyAction, retries_made: u32 },
    /// Do this to the managed process and report what was seen.
    Process(ProcessAction),
    /// Probe the health of the application, at once or after the interval
    /// between probes, and report the result.
    ProbeHealth { after_interval: bool },
    /// The cycle has ended; this is its record.
    Finished(DeploymentRecord),
}

impl CycleAction {
    /// The action without what the record holds beyond the outcome.
    pub open spec fn step(self) -> Step {
        match self {
            CycleAction::Continue => Step::Continue,
            CycleAction::Ignored => Step::Ignored,
            CycleAction::Idle => Step::Idle,
            CycleAction::Abandoned => Step::Abandoned,
            CycleAction::RunPackageManager { action, retries_made } => Step::RunPackageManager {
                action,
                retries_made,
            },
            CycleAction::Process(action) => Step::Process(action),
            CycleAction::ProbeHealth { after_interval } => Step::ProbeHealth { after_interval },
            CycleAction::Finished(record) => Step::Finished(record.outcome),
        }
    }
}

/// The orchestrator of the deployments of one application.
pub struct DeploymentOrchestrator {
    server: WebhookServer,
    packages: PackageManager,
    supervisor: AppManager,
    ignored_paths: Vec<String>,
    queue_policy: QueuePolicy,
    health_attempts: u32,
    state: CycleState,
    current: Option<Submission>,
    pending: Option<Submission>,
    started_at: u64,
    dependency_action: DependencyAction,
    retries_made: u32,
    health_failures: u32,
    shutting_down: bool,
}

impl DeploymentOrchestrator {
    /// The cycle in flight and the state of the supervisor.
    pub closed spec fn cycle(&self) -> Cycle {
        Cycle {
            state: self.state,
            dependency_action: self.dependency_action,
            retries_made: self.retries_made,
            health_failures: self.health_failures,
            supervisor: self.supervisor.lifecycle(),
            shutting_down: self.shutting_down,
        }
    }

    /// The limits that cycles are run under.
    pub closed spec fn limits(&self) -> Limits {
        Limits { rechecks: self.supervisor.rechecks(), health_attempts: self.health_attempts }
    }

    /// The notification whose cycle is in flight.
    pub closed spec fn current(&self) -> Option<Submission> {
        self.current
    }

    /// The notification that waits for the cycle in flight to end.
    pub closed spec fn waiting(&self) -> Option<Submission> {
        self.pending
    }

    /// When the cycle in flight began.
    pub closed spec fn started(&self) -> u64 {
        self.started_at
    }

    /// What becomes of a notification that arrives during a cycle.
    pub closed spec fn policy(&self) -> QueuePolicy {
        self.queue_policy
    }

    /// The secret that notifications are signed with.
    pub closed spec fn secret(&self) -> Seq<char> {
        self.server.secret_text()
    }

    /// The paths of the dependency manifests.
    pub closed spec fn manifests(&self) -> Seq<Seq<char>> {
        self.packages.manifests()
    }

    /// The paths that do not concern the application.
    pub closed spec fn ignored(&self) -> Seq<Seq<char>> {
        texts(self.ignored_paths@)
    }

    /// How many times a failed run of the package manager is tried again.
    pub closed spec fn retry_limit(&self) -> u32 {
        self.packages.retry_limit()
    }

    /// The marks of a failure of the package manager that may pass.
    pub closed spec fn markers(&self) -> Seq<Seq<char>> {
        self.packages.markers()
    }

    /// The cycle fits the supervisor, and a notification is in hand exactly
    /// while a cycle is in flight.
    pub closed spec fn wf(&self) -> bool {
        &&& self.cycle().wf()
        &&& self.state != CycleState::Idle <==> self.current is Some
        &&& self.shutting_down ==> self.pending is None
    }

    /// Whether `other` is set up as this orchestrator is.
    pub open spec fn same_setup(&self, other: &Self) -> bool {
        &&& self.limits() == other.limits()
        &&& self.policy() == other.policy()
        &&& self.secret() == other.secret()
        &&& self.manifests() == other.manifests()
        &&& self.ignored() == other.ignored()
        &&& self.retry_limit() == other.retry_limit()
        &&& self.markers() == other.markers()
    }

    /// What the notification in hand amounts to under this setup.
    pub open spec fn facts(&self) -> Facts {
        match self.current() {
            Some(s) => Facts {
                valid: signature_accepted(
                    s.raw_payload@,
                    encode_utf8(s.signature@),
                    encode_utf8(self.secret()),
                ),
                affects_dependencies: touches_manifest(s.notification.changes(), self.manifests()),
                affects_application: touches_application(s.notification.changes(), self.ignored()),
                action: reconciled(
                    adds_manifest(s.notification.changes(), self.manifests()),
                    modifies_manifest(s.notification.changes(), self.manifests()),
                    s.manifest_known,
                ),
                pending: self.waiting() is Some,
            },
            None => Facts {
                valid: false,
                affects_dependencies: false,
                affects_application: false,
                action: DependencyAction::Nothing,
                pending: self.waiting() is Some,
            },
        }
    }

    /// What `event` means to the cycle in flight. The end of a run of the
    /// package manager is read under the retry policy.
    pub open spec fn input_of(&self, event: CycleEvent) -> Input {
        match event {
            CycleEvent::Proceed => Input::Proceed,
            CycleEvent::Process(e) => Input::Process(e),
            CycleEvent::Health(passed) => Input::Health(passed),
            CycleEvent::Command(outcome) => match interpretation(
                self.cycle().dependency_action,
                self.cycle().retries_made,
                outcome,
                self.retry_limit(),
                self.markers(),
            ) {
                UpdateStep::Run { .. } => Input::CommandRetry,
                UpdateStep::Succeeded => Input::CommandSucceeded,
                UpdateStep::Failed(_) => Input::CommandFailed,
            },
        }
    }

    /// The cause that the record of a cycle gives, where `event` ends the
    /// cycle as `outcome`.
    pub open spec fn detail_for(&self, event: CycleEvent, outcome: Outcome) -> Seq<char> {
        match outcome {
            Outcome::Succeeded => "the deployment succeeded"@,
            Outcome::Skipped => "the change concerns neither the dependencies nor the application"@,
            Outcome::FailedValidation => "the signature does not match the payload"@,
            Outcome::FailedHealthCheck => "the application failed its health checks"@,
            Outcome::FailedDependencyUpdate => match event {
                CycleEvent::Command(outcome) => match interpretation(
                    self.cycle().dependency_action,
                    self.cycle().retries_made,
                    outcome,
                    self.retry_limit(),
                    self.markers(),
                ) {
                    UpdateStep::Failed(failure) => failure.text(),
                    _ => "the dependencies could not be brought up to date"@,
                },
                _ => "the dependencies could not be brought up to date"@,
            },
            Outcome::FailedRestart => match event {
                CycleEvent::Process(e) => match self.cycle().supervisor.after_event(
                    e,
                    self.limits().rechecks,
                ).1 {
                    ProcessAction::Failed(fault) => fault.text(),
                    _ => "the application could not be restarted"@,
                },
                _ => match self.cycle().supervisor.after_restart(self.limits().rechecks).1 {
                    Err(fault) => fault.text(),
                    Ok(_) => "the application could not be restarted"@,
                },
            },
        }
    }

    /// Which notification is in hand and which one waits after a step that
    /// led from `old` to this orchestrator at the time `now`: a notification
    /// that is admitted from waiting comes in hand, the end of a cycle leaves
    /// none in hand, and every other step leaves both as they were.
    pub open spec fn carries_on_from(&self, old: &Self, step: Step, now: u64) -> bool {
        if old.cycle().state == CycleState::Idle && step == Step::Continue {
            &&& self.current() == old.waiting()
            &&& self.waiting() is None
            &&& self.started() == now
        } else if self.cycle().state == CycleState::Idle {
            &&& self.current() is None
            &&& self.waiting() == old.waiting()
        } else {
            &&& self.current() == old.current()
            &&& self.waiting() == old.waiting()
            &&& self.started() == old.started()
        }
    }

    /// An orchestrator at rest. Every path concerns the application, a
    /// notification that arrives during a cycle waits, and up to 5 health
    /// probes are made. A supervisor with an operation open is refused.
    pub fn new(server: WebhookServer, packages: PackageManager, supervisor: AppManager) -> (r:
        core::result::Result<Self, MonitorError>)
        ensures
            r is Ok <==> supervisor.lifecycle().operation == Operation::Idle,
            r matches Ok(o) ==> {
                &&& o.wf()
                &&& o.cycle() == Cycle::initial().with_supervisor(supervisor.lifecycle())
                &&& o.limits() == (Limits { rechecks: supervisor.rechecks(), health_attempts: 5 })
                &&& o.policy() == QueuePolicy::KeepLatest
                &&& o.secret() == server.secret_text()
                &&& o.manifests() == packages.manifests()
                &&& o.retry_limit() == packages.retry_limit()
                &&& o.markers() == packages.markers()
                &&& o.ignored() == Seq::<Seq<char>>::empty()
                &&& o.current() is None
                &&& o.waiting() is None
            },
            r matches Err(e) ==> e matches MonitorError::AppManager(m) && m@
                == ProcessFault::Busy.text(),
    {
        if supervisor.is_busy() {
            return Err(ProcessFault::Busy.to_error());
        }
        Ok(Self::with_supervisor_at_rest(server, packages, supervisor))
    }

    /// An orchestrator at rest around a supervisor that has no operation
    /// open, set up as `new` does.
    pub(crate) fn with_supervisor_at_rest(
        server: WebhookServer,
        packages: PackageManager,
        supervisor: AppManager,
    ) -> (o: Self)
        requires
            supervisor.lifecycle().operation == Operation::Idle,
        ensures
            o.wf(),
            o.cycle() == Cycle::initial().with_supervisor(supervisor.lifecycle()),
            o.limits() == (Limits { rechecks: supervisor.rechecks(), health_attempts: 5 }),
            o.policy() == QueuePolicy::KeepLatest,
            o.secret() == server.secret_text(),
            o.manifests() == packages.manifests(),
            o.retry_limit() == packages.retry_limit(),
            o.markers() == packages.markers(),
            o.ignored() == Seq::<Seq<char>>::empty(),
            o.current() is None,
            o.waiting() is None,
    {
        let _ = supervisor.state();
        let ignored_paths: Vec<String> = Vec::new();
        DeploymentOrchestrator {
            server,
            packages,
            supervisor,
            ignored_paths,
            queue_policy: QueuePolicy::KeepLatest,
            health_attempts: 5,
            state: CycleState::Idle,
            current: None,
            pending: None,
            started_at: 0,
            dependency_action: DependencyAction::Nothing,
            retries_made: 0,
            health_failures: 0,
            shutting_down: false,
        }
    }

    /// Where the cycle stands.
    pub fn state(&self) -> (state: CycleState)
        ensures
            state == self.cycle().state,
    {
        self.state
    }

    /// The supervisor, to look at.
    pub fn supervisor(&self) -> (s: &AppManager)
        ensures
            s.lifecycle() == self.cycle().supervisor,
            s.rechecks() == self.limits().rechecks,
    {
        &self.supervisor
    }

    /// The package manager, to look at.
    pub fn packages(&self) -> (p: &PackageManager)
        ensures
            p.manifests() == self.manifests(),
            p.retry_limit() == self.retry_limit(),
            p.markers() == self.markers(),
    {
        &self.packages
    }

    /// Whether a notification waits.
    pub fn has_pending(&self) -> (r: bool)
        ensures
            r == (self.waiting() is Some),
    {
        self.pending.is_some()
    }

    /// The same orchestrator with other paths that do not concern the
    /// application.
    pub fn with_ignored_paths(self, ignored_paths: Vec<String>) -> (o: Self)
        requires
            self.wf(),
        ensures
            o.wf(),
            o.ignored() == texts(ignored_paths@),
            o.cycle() == self.cycle(),
            o.limits() == self.limits(),
            o.policy() == self.policy(),
            o.secret() == self.secret(),
            o.manifests() == self.manifests(),
            o.retry_limit() == self.retry_limit(),
            o.markers() == self.markers(),
            o.current() == self.current(),
            o.waiting() == self.waiting(),
            o.started() == self.started(),
    {
        DeploymentOrchestrator {
            server: self.server,
            packages: self.packages,
            supervisor: self.supervisor,
            ignored_paths,
            queue_policy: self.queue_policy,
            health_attempts: self.health_attempts,
            state: self.state,
            current: self.current,
            pending: self.pending,
            started_at: self.started_at,
            dependency_action: self.dependency_action,
            retries_made: self.retries_made,
            health_failures: self.health_failures,
            shutting_down: self.shutting_down,
        }
    }

    /// The same orchestrator with another answer to notifications that
    /// arrive during a cycle.
    pub fn with_queue_policy(self, queue_policy: QueuePolicy) -> (o: Self)
        requires
            self.wf(),
        ensures
            o.wf(),
            o.policy() == queue_policy,
            o.cycle() == self.cycle(),
            o.limits() == self.limits(),
            o.ignored() == self.ignored(),
            o.secret() == self.secret(),
            o.manifests() == self.manifests(),
            o.retry_limit() == self.retry_limit(),
            o.markers() == self.markers(),
            o.current() == self.current(),
            o.waiting() == self.waiting(),
            o.started() == self.started(),
    {
        DeploymentOrchestrator {
            server: self.server,
            packages: self.packages,
            supervisor: self.supervisor,
            ignored_paths: self.ignored_paths,
            queue_policy,
            health_attempts: self.health_attempts,
            state: self.state,
            current: self.current,
            pending: self.pending,
            started_at: self.started_at,
            dependency_action: self.dependency_action,
            retries_made: self.retries_made,
            health_failures: self.health_failures,
            shutting_down: self.shutting_down,
        }
    }

    /// The same orchestrator with another number of health probes that may
    /// fail before a cycle has failed. With 0 the health is not probed.
    pub fn with_health_attempts(self, health_attempts: u32) -> (o: Self)
        requires
            self.wf(),
        ensures
            o.wf(),
            o.limits() == (Limits { rechecks: self.limits().rechecks, health_attempts }),
            o.cycle() == self.cycle(),
            o.policy() == self.policy(),
            o.ignored() == self.ignored(),
            o.secret() == self.secret(),
            o.manifests() == self.manifests(),
            o.retry_limit() == self.retry_limit(),
            o.markers() == self.markers(),
            o.current() == self.current(),
            o.waiting() == self.waiting(),
            o.started() == self.started(),
    {
        DeploymentOrchestrator {
            server: self.server,
            packages: self.packages,
            supervisor: self.supervisor,
            ignored_paths: self.ignored_paths,
            queue_policy: self.queue_policy,
            health_attempts,
            state: self.state,
            current: self.current,
            pending: self.pending,
            started_at: self.started_at,
            dependency_action: self.dependency_action,
            retries_made: self.retries_made,
            health_failures: self.health_failures,
            shutting_down: self.shutting_down,
        }
    }

    /// What becomes of a notification that is handed in now. Its cycle
    /// begins where none is in flight and none waits. During a cycle it
    /// waits, in place of the one that waited before, or is turned away, as
    /// the policy says. Once the service is about to end it is turned away.
    pub open spec fn admission(&self) -> Admission {
        if self.cycle().shutting_down {
            Admission::Busy
        } else if self.cycle().state == CycleState::Idle && self.waiting() is None {
            Admission::Started
        } else if self.policy() == QueuePolicy::RejectWhenBusy {
            Admission::Busy
        } else if self.waiting() is Some {
            Admission::Replaced
        } else {
            Admission::Queued
        }
    }

    /// Hands a notification in at the time `now`. Whatever becomes of it, a
    /// cycle in flight goes on as before and the supervisor is not touched.
    pub fn submit(&mut self, submission: Submission, now: u64) -> (admission: Admission)
        requires
            old(self).wf(),
        ensures
            final(self).wf(),
            final(self).same_setup(old(self)),
            admission == old(self).admission(),
            final(self).cycle().supervisor == old(self).cycle().supervisor,
            match admission {
                Admission::Started => {
                    &&& final(self).cycle() == old(self).cycle().admitted()
                    &&& final(self).current() == Some(submission)
                    &&& final(self).waiting() is None
                    &&& final(self).started() == now
                },
                Admission::Queued | Admission::Replaced => {
                    &&& final(self).cycle() == old(self).cycle()
                    &&& final(self).current() == old(self).current()
                    &&& final(self).waiting() == Some(submission)
                    &&& final(self).started() == old(self).started()
                },
                Admission::Busy => {
                    &&& final(self).cycle() == old(self).cycle()
                    &&& final(self).current() == old(self).current()
                    &&& final(self).waiting() == old(self).waiting()
                    &&& final(self).started() == old(self).started()
                },
            },
    {
        if self.shutting_down {
            return Admission::Busy;
        }
        let at_rest = match self.state {
            CycleState::Idle => true,
            _ => false,
        };
        if at_rest && self.pending.is_none() {
            self.current = Some(submission);
            self.state = CycleState::Received;
            self.started_at = now;
            self.dependency_action = DependencyAction::Nothing;
            self.retries_made = 0;
            self.health_failures = 0;
            return Admission::Started;
        }
        match self.queue_policy {
            QueuePolicy::RejectWhenBusy => Admission::Busy,
            QueuePolicy::KeepLatest => {
                let replaced = self.pending.is_some();
                self.pending = Some(submission);
                if replaced {
                    Admission::Replaced
                } else {
                    Admission::Queued
                }
            },
        }
    }

    /// Tells the orchestrator that the service is about to end. The
    /// notification that waits is dropped, and none is admitted from now on.
    /// A cycle in flight is abandoned at its next step, once the supervisor
    /// has no operation open.
    pub fn shut_down(&mut self)
        requires
            old(self).wf(),
        ensures
            final(self).wf(),
            final(self).same_setup(old(self)),
            final(self).cycle() == (Cycle {
                state: old(self).cycle().state,
                dependency_action: old(self).cycle().dependency_action,
                retries_made: old(self).cycle().retries_made,
                health_failures: old(self).cycle().health_failures,
                supervisor: old(self).cycle().supervisor,
                shutting_down: true,
            }),
            final(self).current() == old(self).current(),
            final(self).waiting() is None,
            final(self).started() == old(self).started(),
    {
        self.pending = None;
        self.shutting_down = true;
    }

    fn reset(&mut self)
        requires
            old(self).cycle().supervisor.wf(),
            old(self).cycle().supervisor.operation == Operation::Idle,
            old(self).shutting_down ==> old(self).pending is None,
        ensures
            final(self).wf(),
            final(self).same_setup(old(self)),
            final(self).cycle() == old(self).cycle().rested(),
            final(self).current() is None,
            final(self).waiting() == old(self).waiting(),
    {
        self.current = None;
        self.state = CycleState::Idle;
        self.dependency_action = DependencyAction::Nothing;
        self.retries_made = 0;
        self.health_failures = 0;
    }

    fn finish(&mut self, outcome: Outcome, detail: String, now: u64) -> (action: CycleAction)
        requires
            old(self).cycle().supervisor.wf(),
            old(self).cycle().supervisor.operation == Operation::Idle,
            old(self).shutting_down ==> old(self).pending is None,
            old(self).current() is Some,
        ensures
            final(self).wf(),
            final(self).same_setup(old(self)),
            final(self).cycle() == old(self).cycle().rested(),
            final(self).current() is None,
            final(self).waiting() == old(self).waiting(),
            action matches CycleAction::Finished(record) && old(self).current() matches Some(s) && {
                &&& record.outcome == outcome
                &&& record.detail@ == detail@
                &&& record.notification_ref@ == s.notification.ref_text()
                &&& record.started_at == old(self).started()
                &&& record.finished_at == now
                &&& record.dependency_action == old(self).cycle().dependency_action
            },
    {
        let notification_ref = match &self.current {
            Some(s) => s.notification.git_ref().to_owned(),
            None => String::new(),
        };
        let record = DeploymentRecord {
            notification_ref,
            started_at: self.started_at,
            finished_at: now,
            dependency_action: self.dependency_action,
            outcome,
            detail,
        };
        self.reset();
        CycleAction::Finished(record)
    }

    fn open_restart(&mut self, now: u64) -> (action: CycleAction)
        requires
            old(self).wf(),
            old(self).cycle().state != CycleState::Idle,
            old(self).cycle().state != CycleState::Restarting,
        ensures
            final(self).wf(),
            final(self).same_setup(old(self)),
            (final(self).cycle(), action.step()) == old(self).cycle().begin_restart(
                old(self).limits(),
            ),
            final(self).carries_on_from(old(self), action.step(), now),
            action matches CycleAction::Finished(record) ==> old(self).current() matches Some(s)
                && {
                &&& old(self).cycle().supervisor.after_restart(
                    old(self).limits().rechecks,
                ).1 matches Err(fault)
                &&& record.detail@ == fault.text()
                &&& record.notification_ref@ == s.notification.ref_text()
                &&& record.started_at == old(self).started()
                &&& record.finished_at == now
                &&& record.dependency_action == old(self).cycle().dependency_action
            },
    {
        match self.supervisor.restart() {
            Ok(first) => {
                self.state = CycleState::Restarting;
                CycleAction::Process(first)
            },
            Err(e) => {
                let detail = match e {
                    MonitorError::AppManager(cause) => cause,
                    other => other.message(),
                };
                self.finish(Outcome::FailedRestart, detail, now)
            },
        }
    }

    fn restart_step(&mut self, event: ProcessEvent, now: u64) -> (action: CycleAction)
        requires
            old(self).wf(),
            old(self).cycle().state == CycleState::Restarting,
        ensures
            final(self).wf(),
            final(self).same_setup(old(self)),
            (final(self).cycle(), action.step()) == old(self).cycle().restart(
                event,
                old(self).limits(),
            ),
            final(self).carries_on_from(old(self), action.step(), now),
            action matches CycleAction::Finished(record) ==> old(self).current() matches Some(s)
                && {
                &&& record.detail@ == old(self).detail_for(
                    CycleEvent::Process(event),
                    record.outcome,
                )
                &&& record.notification_ref@ == s.notification.ref_text()
                &&& record.started_at == old(self).started()
                &&& record.finished_at == now
                &&& record.dependency_action == old(self).cycle().dependency_action
            },
    {
        let next = self.supervisor.observe(event);
        match next {
            ProcessAction::Completed => {
                if self.shutting_down {
                    self.reset();
                    CycleAction::Abandoned
                } else if self.health_attempts == 0 {
                    self.finish(Outcome::Succeeded, String::from_str("the deployment succeeded"), now)
                } else {
                    self.state = CycleState::HealthChecking;
                    self.health_failures = 0;
                    CycleAction::ProbeHealth { after_interval: false }
                }
            },
            ProcessAction::Failed(fault) => self.finish(
                Outcome::FailedRestart,
                fault.describe(),
                now,
            ),
            ProcessAction::Nothing => CycleAction::Ignored,
            _ => CycleAction::Process(next),
        }
    }

    fn health_step(&mut self, passed: bool, now: u64) -> (action: CycleAction)
        requires
            old(self).wf(),
            old(self).cycle().state == CycleState::HealthChecking,
        ensures
            final(self).wf(),
            final(self).same_setup(old(self)),
            (final(self).cycle(), action.step()) == old(self).cycle().check_health(
                passed,
                old(self).limits(),
            ),
            final(self).carries_on_from(old(self), action.step(), now),
            action matches CycleAction::Finished(record) ==> old(self).current() matches Some(s)
                && {
                &&& record.detail@ == old(self).detail_for(
                    CycleEvent::Health(passed),
                    record.outcome,
                )
                &&& record.notification_ref@ == s.notification.ref_text()
                &&& record.started_at == old(self).started()
                &&& record.finished_at == now
                &&& record.dependency_action == old(self).cycle().dependency_action
            },
    {
        let healthy = match self.supervisor.health_check(passed) {
            Ok(healthy) => healthy,
            Err(_) => false,
        };
        if healthy {
            self.finish(Outcome::Succeeded, String::from_str("the deployment succeeded"), now)
        } else if self.health_attempts == 0 || self.health_failures >= self.health_attempts - 1 {
            self.finish(
                Outcome::FailedHealthCheck,
                String::from_str("the application failed its health checks"),
                now,
            )
        } else {
            self.health_failures = self.health_failures + 1;
            CycleAction::ProbeHealth { after_interval: true }
        }
    }

    fn update_step(&mut self, outcome: CommandOutcome, now: u64) -> (action: CycleAction)
        requires
            old(self).wf(),
            old(self).cycle().state == CycleState::UpdatingDependencies,
        ensures
            final(self).wf(),
            final(self).same_setup(old(self)),
            (final(self).cycle(), action.step()) == old(self).cycle().update(
                old(self).input_of(CycleEvent::Command(outcome)),
                old(self).limits(),
            ),
            final(self).carries_on_from(old(self), action.step(), now),
            action matches CycleAction::Finished(record) ==> old(self).current() matches Some(s)
                && {
                &&& record.detail@ == old(self).detail_for(
                    CycleEvent::Command(outcome),
                    record.outcome,
                )
                &&& record.notification_ref@ == s.notification.ref_text()
                &&& record.started_at == old(self).started()
                &&& record.finished_at == now
                &&& record.dependency_action == old(self).cycle().dependency_action
            },
    {
        match self.packages.interpret(self.dependency_action, self.retries_made, outcome) {
            UpdateStep::Run { action, retries_made } => {
                self.retries_made = retries_made;
                CycleAction::RunPackageManager { action, retries_made }
            },
            UpdateStep::Succeeded => self.open_restart(now),
            UpdateStep::Failed(failure) => self.finish(
                Outcome::FailedDependencyUpdate,
                failure.describe(),
                now,
            ),
        }
    }

    fn validate_step(&mut self, now: u64) -> (action: CycleAction)
        requires
            old(self).wf(),
            old(self).cycle().state == CycleState::Validating,
            !old(self).cycle().shutting_down,
        ensures
            final(self).wf(),
            final(self).same_setup(old(self)),
            (final(self).cycle(), action.step()) == old(self).cycle().after(
                Input::Proceed,
                old(self).facts(),
                old(self).limits(),
            ),
            final(self).carries_on_from(old(self), action.step(), now),
            action matches CycleAction::Finished(record) ==> old(self).current() matches Some(s)
                && {
                &&& record.detail@ == old(self).detail_for(CycleEvent::Proceed, record.outcome)
                &&& record.notification_ref@ == s.notification.ref_text()
                &&& record.started_at == old(self).started()
                &&& record.finished_at == now
                &&& record.dependency_action == old(self).cycle().dependency_action
            },
    {
        let valid = match &self.current {
            Some(s) => match self.server.validate_signature(
                s.raw_payload.as_slice(),
                s.signature.as_str(),
            ) {
                Ok(valid) => valid,
                Err(_) => false,
            },
            None => false,
        };
        if valid {
            self.state = CycleState::Classifying;
            CycleAction::Continue
        } else {
            self.finish(
                Outcome::FailedValidation,
                String::from_str("the signature does not match the payload"),
                now,
            )
        }
    }

    fn classify_step(&mut self, now: u64) -> (action: CycleAction)
        requires
            old(self).wf(),
            old(self).cycle().state == CycleState::Classifying,
            !old(self).cycle().shutting_down,
        ensures
            final(self).wf(),
            final(self).same_setup(old(self)),
            (final(self).cycle(), action.step()) == old(self).cycle().after(
                Input::Proceed,
                old(self).facts(),
                old(self).limits(),
            ),
            final(self).carries_on_from(old(self), action.step(), now),
            action matches CycleAction::Finished(record) ==> old(self).current() matches Some(s)
                && {
                &&& record.detail@ == old(self).detail_for(CycleEvent::Proceed, record.outcome)
                &&& record.notification_ref@ == s.notification.ref_text()
                &&& record.started_at == old(self).started()
                &&& record.finished_at == now
                &&& record.dependency_action == old(self).cycle().dependency_action
            },
    {
        let (affects_dependencies, affects_application, action) = match &self.current {
            Some(s) => {
                let change = classify(
                    &s.notification,
                    self.packages.manifest_paths().as_slice(),
                    self.ignored_paths.as_slice(),
                );
                let action = reconcile(&change, s.manifest_known);
                (change.affects_dependencies, change.affects_application, action)
            },
            None => (false, false, DependencyAction::Nothing),
        };
        let acts = match action {
            DependencyAction::Nothing => false,
            _ => true,
        };
        if !affects_dependencies && !affects_application {
            self.finish(
                Outcome::Skipped,
                String::from_str("the change concerns neither the dependencies nor the application"),
                now,
            )
        } else if affects_dependencies && acts {
            self.state = CycleState::UpdatingDependencies;
            self.dependency_action = action;
            self.retries_made = 0;
            CycleAction::RunPackageManager { action, retries_made: 0 }
        } else {
            self.open_restart(now)
        }
    }

    /// Makes one step of the cycle at the time `now`: takes in what the
    /// caller reports and names what is to be done next. The step that ends
    /// the cycle carries its record.
    pub fn advance(&mut self, event: CycleEvent, now: u64) -> (action: CycleAction)
        requires
            old(self).wf(),
        ensures
            final(self).wf(),
            final(self).same_setup(old(self)),
            (final(self).cycle(), action.step()) == old(self).cycle().after(
                old(self).input_of(event),
                old(self).facts(),
                old(self).limits(),
            ),
            final(self).carries_on_from(old(self), action.step(), now),
            action matches CycleAction::Finished(record) ==> old(self).current() matches Some(s)
                && {
                &&& record.detail@ == old(self).detail_for(event, record.outcome)
                &&& record.notification_ref@ == s.notification.ref_text()
                &&& record.started_at == old(self).started()
                &&& record.finished_at == now
                &&& record.dependency_action == old(self).cycle().dependency_action
            },
    {
        let state = self.state;
        if let CycleEvent::Process(seen) = event {
            return match state {
                CycleState::Restarting => self.restart_step(seen, now),
                _ => {
                    let _ = self.supervisor.observe(seen);
                    CycleAction::Ignored
                },
            };
        }
        match state {
            CycleState::Restarting => {
                return CycleAction::Ignored;
            },
            CycleState::Idle => {
                let proceed = match event {
                    CycleEvent::Proceed => true,
                    _ => false,
                };
                if proceed && self.pending.is_some() && !self.shutting_down {
                    let next = self.pending.take();
                    self.current = next;
                    self.state = CycleState::Received;
                    self.started_at = now;
                    self.dependency_action = DependencyAction::Nothing;
                    self.retries_made = 0;
                    self.health_failures = 0;
                    return CycleAction::Continue;
                }
                return CycleAction::Idle;
            },
            _ => {},
        }
        if self.shutting_down {
            self.reset();
            return CycleAction::Abandoned;
        }
        match event {
            CycleEvent::Proceed => match state {
                CycleState::Received => {
                    self.state = CycleState::Validating;
                    CycleAction::Continue
                },
                CycleState::Validating => self.validate_step(now),
                CycleState::Classifying => self.classify_step(now),
                _ => CycleAction::Ignored,
            },
            CycleEvent::Command(outcome) => match state {
                CycleState::UpdatingDependencies => self.update_step(outcome, now),
                _ => CycleAction::Ignored,
            },
            CycleEvent::Health(passed) => match state {
                CycleState::HealthChecking => self.health_step(passed, now),
                _ => CycleAction::Ignored,
            },
            CycleEvent::Process(_) => CycleAction::Ignored,
        }
    }
}

/// A notification without commits is skipped: the cycle that classifies it
/// ends as `Skipped` and leaves the process alone.
pub proof fn lemma_notification_without_commits_is_skipped(o: DeploymentOrchestrator)
    requires
        o.wf(),
        o.cycle().state == CycleState::Classifying,
        !o.cycle().shutting_down,
        o.current() matches Some(s) && s.notification.changes().len() == 0,
    ensures
        !o.facts().affects_dependencies,
        !o.facts().affects_application,
        o.cycle().after(Input::Proceed, o.facts(), o.limits()) == (
            o.cycle().rested(),
            Step::Finished(Outcome::Skipped),
        ),
{
    let s = o.current()->0;
    lemma_no_commits_no_effect(s.notification.changes(), o.manifests(), o.ignored());
}

/// While a cycle is in flight, a notification that is handed in starts
/// nothing: it waits or is turned away.
pub proof fn lemma_no_admission_during_cycle(o: DeploymentOrchestrator)
    requires
        o.wf(),
        o.cycle().state != CycleState::Idle,
    ensures
        o.admission() != Admission::Started,
{
}

} // verus!
