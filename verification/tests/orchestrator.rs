use github_monitor::app_manager::{
    AppManager, ProcessAction, ProcessEvent, SupervisedProcessState,
};
use github_monitor::cycle::{CycleState, Outcome};
use github_monitor::error::MonitorError;
use github_monitor::orchestrator::{
    Admission, CycleAction, CycleEvent, DeploymentOrchestrator, DeploymentRecord, QueuePolicy,
    Submission,
};
use github_monitor::package_manager::{CommandOutcome, DependencyAction, PackageManager};
use github_monitor::signature::sign;
use github_monitor::webhook::{Commit, Repository, WebhookPayload, WebhookServer};

const SECRET: &str = "shared secret";

fn strings(items: &[&str]) -> Vec<String> {
    items.iter().map(|s| s.to_string()).collect()
}

fn orchestrator() -> DeploymentOrchestrator {
    DeploymentOrchestrator::new(
        WebhookServer::new(SECRET.to_string()),
        PackageManager::new(None, "/srv/app".to_string())
            .with_manifest_paths(strings(&["requirements.txt"]))
            .with_retries(1, strings(&["connection reset"])),
        AppManager::new("/srv/app".to_string(), strings(&["python", "app.py"])),
    )
    .unwrap()
    .with_ignored_paths(strings(&["README.md"]))
}

fn submission_for(
    git_ref: &str,
    added: &[&str],
    modified: &[&str],
    known: bool,
    secret: &str,
) -> Submission {
    let raw = format!("{{\"ref\":\"{}\"}}", git_ref).into_bytes();
    let payload = WebhookPayload {
        git_ref: git_ref.to_string(),
        repository: Repository {
            full_name: "owner/repo".to_string(),
            clone_url: "https://github.com/owner/repo.git".to_string(),
        },
        commits: vec![Commit {
            id: "1".to_string(),
            message: "change".to_string(),
            added: strings(added),
            modified: strings(modified),
            removed: vec![],
        }],
    };
    Submission {
        signature: sign(&raw, secret),
        raw_payload: raw,
        notification: WebhookServer::new(SECRET.to_string()).process_payload(payload).unwrap(),
        manifest_known: known,
    }
}

fn submission(added: &[&str], modified: &[&str], known: bool) -> Submission {
    submission_for("refs/heads/main", added, modified, known, SECRET)
}

fn classified(o: &mut DeploymentOrchestrator, s: Submission, now: u64) -> CycleAction {
    assert_eq!(o.submit(s, now), Admission::Started);
    assert_eq!(o.state(), CycleState::Received);
    assert_eq!(o.advance(CycleEvent::Proceed, now), CycleAction::Continue);
    assert_eq!(o.state(), CycleState::Validating);
    assert_eq!(o.advance(CycleEvent::Proceed, now), CycleAction::Continue);
    assert_eq!(o.state(), CycleState::Classifying);
    o.advance(CycleEvent::Proceed, now)
}

fn start_process(o: &mut DeploymentOrchestrator, now: u64) -> CycleAction {
    assert_eq!(
        o.advance(CycleEvent::Process(ProcessEvent::Spawned), now),
        CycleAction::Process(ProcessAction::ProbeNow)
    );
    assert_eq!(
        o.advance(CycleEvent::Process(ProcessEvent::Alive), now),
        CycleAction::Process(ProcessAction::ProbeAfterGrace)
    );
    o.advance(CycleEvent::Process(ProcessEvent::Alive), now)
}

fn deployed() -> DeploymentOrchestrator {
    let mut o = orchestrator();
    assert_eq!(
        classified(&mut o, submission(&["src/app.py"], &[], true), 1),
        CycleAction::Process(ProcessAction::Spawn)
    );
    assert_eq!(start_process(&mut o, 2), CycleAction::ProbeHealth { after_interval: false });
    assert!(matches!(o.advance(CycleEvent::Health(true), 3), CycleAction::Finished(_)));
    assert_eq!(o.supervisor().state(), SupervisedProcessState::Running);
    assert_eq!(o.state(), CycleState::Idle);
    o
}

fn record(action: CycleAction) -> DeploymentRecord {
    match action {
        CycleAction::Finished(record) => record,
        other => panic!("the cycle has not ended: {:?}", other),
    }
}

#[test]
fn scenario_readme_only_is_skipped() {
    let mut o = orchestrator();
    let r = record(classified(&mut o, submission(&[], &["README.md"], true), 10));
    assert_eq!(r.outcome, Outcome::Skipped);
    assert_eq!(r.dependency_action, DependencyAction::Nothing);
    assert_eq!(r.notification_ref, "refs/heads/main");
    assert_eq!(r.started_at, 10);
    assert_eq!(r.finished_at, 10);
    assert_eq!(r.detail, "the change concerns neither the dependencies nor the application");
    assert_eq!(o.state(), CycleState::Idle);
    assert_eq!(o.supervisor().state(), SupervisedProcessState::Stopped);
    assert_eq!(r.outcome.http_status(), 200);
}

#[test]
fn scenario_notification_without_commits_is_skipped() {
    let mut o = orchestrator();
    let mut s = submission(&[], &[], true);
    let payload = WebhookPayload {
        git_ref: "refs/heads/main".to_string(),
        repository: Repository {
            full_name: "owner/repo".to_string(),
            clone_url: "https://github.com/owner/repo".to_string(),
        },
        commits: vec![],
    };
    s.notification = WebhookServer::new(SECRET.to_string()).process_payload(payload).unwrap();
    let r = record(classified(&mut o, s, 0));
    assert_eq!(r.outcome, Outcome::Skipped);
    assert_eq!(o.supervisor().state(), SupervisedProcessState::Stopped);
}

#[test]
fn scenario_new_manifest_is_installed_and_deployed() {
    let mut o = orchestrator();
    assert_eq!(
        classified(&mut o, submission(&["requirements.txt"], &[], false), 100),
        CycleAction::RunPackageManager { action: DependencyAction::Install, retries_made: 0 }
    );
    assert_eq!(o.state(), CycleState::UpdatingDependencies);
    assert_eq!(o.supervisor().state(), SupervisedProcessState::Stopped);
    assert_eq!(
        o.advance(
            CycleEvent::Command(CommandOutcome::Exited { code: 0, output: "installed".to_string() }),
            110
        ),
        CycleAction::Process(ProcessAction::Spawn)
    );
    assert_eq!(o.state(), CycleState::Restarting);
    assert_eq!(start_process(&mut o, 120), CycleAction::ProbeHealth { after_interval: false });
    assert_eq!(o.state(), CycleState::HealthChecking);
    assert_eq!(o.supervisor().state(), SupervisedProcessState::Running);
    assert_eq!(
        o.advance(CycleEvent::Health(false), 121),
        CycleAction::ProbeHealth { after_interval: true }
    );
    assert_eq!(o.supervisor().state(), SupervisedProcessState::Unhealthy);
    let r = record(o.advance(CycleEvent::Health(true), 123));
    assert_eq!(
        r,
        DeploymentRecord {
            notification_ref: "refs/heads/main".to_string(),
            started_at: 100,
            finished_at: 123,
            dependency_action: DependencyAction::Install,
            outcome: Outcome::Succeeded,
            detail: "the deployment succeeded".to_string(),
        }
    );
    assert_eq!(o.state(), CycleState::Idle);
    assert_eq!(o.supervisor().state(), SupervisedProcessState::Running);
    assert_eq!(r.outcome.http_status(), 200);
}

#[test]
fn scenario_failed_update_leaves_the_running_process() {
    let mut o = deployed();
    assert_eq!(
        classified(&mut o, submission(&[], &["requirements.txt"], true), 200),
        CycleAction::RunPackageManager { action: DependencyAction::Update, retries_made: 0 }
    );
    let r = record(o.advance(
        CycleEvent::Command(CommandOutcome::Exited { code: 1, output: "no such package".to_string() }),
        205,
    ));
    assert_eq!(r.outcome, Outcome::FailedDependencyUpdate);
    assert_eq!(r.dependency_action, DependencyAction::Update);
    assert_eq!(r.detail, "the package manager failed: no such package");
    assert_eq!(r.started_at, 200);
    assert_eq!(r.finished_at, 205);
    assert_eq!(o.supervisor().state(), SupervisedProcessState::Running);
    assert_eq!(o.state(), CycleState::Idle);
    assert_eq!(r.outcome.http_status(), 500);
}

#[test]
fn scenario_failed_launch_is_a_failed_restart() {
    let mut o = orchestrator();
    assert_eq!(
        classified(&mut o, submission(&["src/app.py"], &[], true), 1),
        CycleAction::Process(ProcessAction::Spawn)
    );
    assert_eq!(o.state(), CycleState::Restarting);
    let r = record(o.advance(CycleEvent::Process(ProcessEvent::SpawnFailed), 2));
    assert_eq!(r.outcome, Outcome::FailedRestart);
    assert_eq!(r.dependency_action, DependencyAction::Nothing);
    assert_eq!(r.detail, "the start command could not be launched");
    assert_eq!(o.supervisor().state(), SupervisedProcessState::Crashed);
    assert_eq!(o.state(), CycleState::Idle);
    assert_eq!(r.outcome.http_status(), 500);
}

#[test]
fn scenario_notifications_during_restart_wait_and_the_latest_is_kept() {
    let mut o = deployed();
    assert_eq!(
        classified(&mut o, submission_for("refs/heads/one", &["a.py"], &[], true, SECRET), 1),
        CycleAction::Process(ProcessAction::Terminate)
    );
    assert_eq!(o.state(), CycleState::Restarting);
    assert_eq!(
        o.submit(submission_for("refs/heads/two", &["b.py"], &[], true, SECRET), 2),
        Admission::Queued
    );
    assert_eq!(
        o.submit(submission_for("refs/heads/three", &["c.py"], &[], true, SECRET), 3),
        Admission::Replaced
    );
    assert!(o.has_pending());
    assert_eq!(o.state(), CycleState::Restarting);
    assert_eq!(o.supervisor().state(), SupervisedProcessState::Stopping);
    assert_eq!(o.advance(CycleEvent::Proceed, 4), CycleAction::Ignored);
    assert_eq!(
        o.advance(CycleEvent::Process(ProcessEvent::Exited), 5),
        CycleAction::Process(ProcessAction::Spawn)
    );
    assert_eq!(start_process(&mut o, 6), CycleAction::ProbeHealth { after_interval: false });
    let first = record(o.advance(CycleEvent::Health(true), 7));
    assert_eq!(first.notification_ref, "refs/heads/one");
    assert_eq!(first.outcome, Outcome::Succeeded);
    assert_eq!(o.state(), CycleState::Idle);
    assert_eq!(o.advance(CycleEvent::Proceed, 8), CycleAction::Continue);
    assert_eq!(o.state(), CycleState::Received);
    assert!(!o.has_pending());
    assert_eq!(o.advance(CycleEvent::Proceed, 8), CycleAction::Continue);
    assert_eq!(o.advance(CycleEvent::Proceed, 8), CycleAction::Continue);
    assert_eq!(
        o.advance(CycleEvent::Proceed, 8),
        CycleAction::Process(ProcessAction::Terminate)
    );
    assert_eq!(
        o.advance(CycleEvent::Process(ProcessEvent::Exited), 9),
        CycleAction::Process(ProcessAction::Spawn)
    );
    assert_eq!(start_process(&mut o, 9), CycleAction::ProbeHealth { after_interval: false });
    let second = record(o.advance(CycleEvent::Health(true), 11));
    assert_eq!(second.notification_ref, "refs/heads/three");
    assert_eq!(second.started_at, 8);
    assert_eq!(o.advance(CycleEvent::Proceed, 12), CycleAction::Idle);
}

#[test]
fn notifications_during_a_cycle_are_turned_away_under_reject_policy() {
    let mut o = orchestrator().with_queue_policy(QueuePolicy::RejectWhenBusy);
    assert_eq!(
        classified(&mut o, submission(&["a.py"], &[], true), 1),
        CycleAction::Process(ProcessAction::Spawn)
    );
    assert_eq!(o.submit(submission(&["b.py"], &[], true), 2), Admission::Busy);
    assert!(!o.has_pending());
    assert_eq!(o.state(), CycleState::Restarting);
    assert_eq!(o.supervisor().state(), SupervisedProcessState::Starting);
}

#[test]
fn bad_signature_fails_validation_before_anything_is_done() {
    let mut o = deployed();
    assert_eq!(
        o.submit(submission_for("refs/heads/main", &["requirements.txt"], &[], false, "other"), 5),
        Admission::Started
    );
    assert_eq!(o.advance(CycleEvent::Proceed, 5), CycleAction::Continue);
    let r = record(o.advance(CycleEvent::Proceed, 6));
    assert_eq!(r.outcome, Outcome::FailedValidation);
    assert_eq!(r.detail, "the signature does not match the payload");
    assert_eq!(r.dependency_action, DependencyAction::Nothing);
    assert_eq!(r.outcome.http_status(), 401);
    assert_eq!(o.state(), CycleState::Idle);
    assert_eq!(o.supervisor().state(), SupervisedProcessState::Running);
}

#[test]
fn tampered_payload_fails_validation() {
    let mut o = orchestrator();
    let mut s = submission(&["a.py"], &[], true);
    s.raw_payload[0] ^= 0x20;
    assert_eq!(o.submit(s, 0), Admission::Started);
    o.advance(CycleEvent::Proceed, 0);
    assert_eq!(record(o.advance(CycleEvent::Proceed, 0)).outcome, Outcome::FailedValidation);
    assert_eq!(o.supervisor().state(), SupervisedProcessState::Stopped);
}

#[test]
fn transient_update_failure_is_tried_again_once() {
    let mut o = orchestrator();
    classified(&mut o, submission(&[], &["requirements.txt"], true), 0);
    let reset = || CycleEvent::Command(CommandOutcome::Exited {
        code: 1,
        output: "connection reset by peer".to_string(),
    });
    assert_eq!(
        o.advance(reset(), 1),
        CycleAction::RunPackageManager { action: DependencyAction::Update, retries_made: 1 }
    );
    assert_eq!(o.state(), CycleState::UpdatingDependencies);
    let r = record(o.advance(reset(), 2));
    assert_eq!(r.outcome, Outcome::FailedDependencyUpdate);
    assert_eq!(r.detail, "the package manager failed: connection reset by peer");
    assert_eq!(o.supervisor().state(), SupervisedProcessState::Stopped);
}

#[test]
fn update_that_times_out_fails_the_cycle() {
    let mut o = orchestrator();
    classified(&mut o, submission(&["requirements.txt"], &[], false), 0);
    let r = record(o.advance(CycleEvent::Command(CommandOutcome::TimedOut), 9));
    assert_eq!(r.outcome, Outcome::FailedDependencyUpdate);
    assert_eq!(r.dependency_action, DependencyAction::Install);
    assert_eq!(r.detail, "the package manager did not finish in time");
}

#[test]
fn touched_manifest_without_action_goes_straight_to_restart() {
    let mut o = orchestrator();
    assert_eq!(
        classified(&mut o, submission(&["requirements.txt"], &[], true), 0),
        CycleAction::Process(ProcessAction::Spawn)
    );
    assert_eq!(o.state(), CycleState::Restarting);
}

#[test]
fn exhausted_health_probes_fail_the_cycle_and_leave_the_process() {
    let mut o = orchestrator().with_health_attempts(3);
    classified(&mut o, submission(&["a.py"], &[], true), 0);
    assert_eq!(start_process(&mut o, 1), CycleAction::ProbeHealth { after_interval: false });
    assert_eq!(
        o.advance(CycleEvent::Health(false), 2),
        CycleAction::ProbeHealth { after_interval: true }
    );
    assert_eq!(
        o.advance(CycleEvent::Health(false), 3),
        CycleAction::ProbeHealth { after_interval: true }
    );
    let r = record(o.advance(CycleEvent::Health(false), 4));
    assert_eq!(r.outcome, Outcome::FailedHealthCheck);
    assert_eq!(r.detail, "the application failed its health checks");
    assert_eq!(r.outcome.http_status(), 500);
    assert_eq!(o.supervisor().state(), SupervisedProcessState::Unhealthy);
    assert!(o.supervisor().is_running());
    assert_eq!(o.state(), CycleState::Idle);
}

#[test]
fn default_is_five_health_probes() {
    let mut o = orchestrator();
    classified(&mut o, submission(&["a.py"], &[], true), 0);
    start_process(&mut o, 1);
    for _ in 0..4 {
        assert_eq!(
            o.advance(CycleEvent::Health(false), 2),
            CycleAction::ProbeHealth { after_interval: true }
        );
    }
    assert_eq!(record(o.advance(CycleEvent::Health(false), 3)).outcome, Outcome::FailedHealthCheck);
}

#[test]
fn without_health_probes_a_completed_restart_succeeds() {
    let mut o = orchestrator().with_health_attempts(0);
    classified(&mut o, submission(&["a.py"], &[], true), 0);
    let r = record(start_process(&mut o, 1));
    assert_eq!(r.outcome, Outcome::Succeeded);
    assert_eq!(o.supervisor().state(), SupervisedProcessState::Running);
}

#[test]
fn crash_during_health_checking_fails_the_probes() {
    let mut o = orchestrator().with_health_attempts(1);
    classified(&mut o, submission(&["a.py"], &[], true), 0);
    start_process(&mut o, 1);
    assert_eq!(o.advance(CycleEvent::Process(ProcessEvent::Exited), 2), CycleAction::Ignored);
    assert_eq!(o.supervisor().state(), SupervisedProcessState::Crashed);
    assert_eq!(record(o.advance(CycleEvent::Health(true), 3)).outcome, Outcome::FailedHealthCheck);
}

#[test]
fn restart_that_cannot_stop_the_old_process_fails() {
    let mut o = deployed();
    assert_eq!(
        classified(&mut o, submission(&["a.py"], &[], true), 0),
        CycleAction::Process(ProcessAction::Terminate)
    );
    let r = record(o.advance(CycleEvent::Process(ProcessEvent::Alive), 9));
    assert_eq!(r.outcome, Outcome::FailedRestart);
    assert_eq!(r.detail, "the application did not stop in time and may still be alive");
    assert_eq!(o.supervisor().state(), SupervisedProcessState::Stopping);
}

#[test]
fn process_that_dies_on_startup_fails_the_restart() {
    let mut o = orchestrator();
    classified(&mut o, submission(&["a.py"], &[], true), 0);
    o.advance(CycleEvent::Process(ProcessEvent::Spawned), 1);
    assert_eq!(
        o.advance(CycleEvent::Process(ProcessEvent::Alive), 1),
        CycleAction::Process(ProcessAction::ProbeAfterGrace)
    );
    let r = record(o.advance(CycleEvent::Process(ProcessEvent::Exited), 2));
    assert_eq!(r.outcome, Outcome::FailedRestart);
    assert_eq!(r.detail, "the application exited during startup");
    assert_eq!(o.supervisor().state(), SupervisedProcessState::Crashed);
}

#[test]
fn crash_between_cycles_is_noticed() {
    let mut o = deployed();
    assert_eq!(o.advance(CycleEvent::Process(ProcessEvent::Exited), 50), CycleAction::Ignored);
    assert_eq!(o.supervisor().state(), SupervisedProcessState::Crashed);
    assert_eq!(o.state(), CycleState::Idle);
}

#[test]
fn events_that_do_not_fit_the_state_are_ignored() {
    let mut o = orchestrator();
    assert_eq!(o.advance(CycleEvent::Proceed, 0), CycleAction::Idle);
    assert_eq!(o.advance(CycleEvent::Health(true), 0), CycleAction::Idle);
    assert_eq!(o.advance(CycleEvent::Command(CommandOutcome::TimedOut), 0), CycleAction::Idle);
    assert_eq!(o.submit(submission(&["requirements.txt"], &[], false), 1), Admission::Started);
    assert_eq!(o.advance(CycleEvent::Health(true), 1), CycleAction::Ignored);
    assert_eq!(o.state(), CycleState::Received);
    classified_rest(&mut o);
    assert_eq!(o.state(), CycleState::UpdatingDependencies);
    assert_eq!(o.advance(CycleEvent::Proceed, 2), CycleAction::Ignored);
    assert_eq!(o.advance(CycleEvent::Health(false), 2), CycleAction::Ignored);
    assert_eq!(o.state(), CycleState::UpdatingDependencies);
}

fn classified_rest(o: &mut DeploymentOrchestrator) {
    o.advance(CycleEvent::Proceed, 1);
    o.advance(CycleEvent::Proceed, 1);
    o.advance(CycleEvent::Proceed, 1);
}

#[test]
fn shutdown_abandons_the_cycle_at_the_next_step() {
    let mut o = deployed();
    classified(&mut o, submission(&[], &["requirements.txt"], true), 0);
    assert_eq!(o.submit(submission(&["b.py"], &[], true), 1), Admission::Queued);
    o.shut_down();
    assert!(!o.has_pending());
    assert_eq!(o.submit(submission(&["c.py"], &[], true), 2), Admission::Busy);
    assert_eq!(
        o.advance(
            CycleEvent::Command(CommandOutcome::Exited { code: 0, output: String::new() }),
            3
        ),
        CycleAction::Abandoned
    );
    assert_eq!(o.state(), CycleState::Idle);
    assert_eq!(o.supervisor().state(), SupervisedProcessState::Running);
    assert_eq!(o.advance(CycleEvent::Proceed, 4), CycleAction::Idle);
}

#[test]
fn shutdown_lets_the_supervisor_finish_its_restart() {
    let mut o = deployed();
    classified(&mut o, submission(&["a.py"], &[], true), 0);
    o.shut_down();
    assert_eq!(
        o.advance(CycleEvent::Process(ProcessEvent::Exited), 1),
        CycleAction::Process(ProcessAction::Spawn)
    );
    assert_eq!(o.supervisor().state(), SupervisedProcessState::Starting);
    assert_eq!(start_process(&mut o, 2), CycleAction::Abandoned);
    assert_eq!(o.supervisor().state(), SupervisedProcessState::Running);
    assert_eq!(o.state(), CycleState::Idle);
}

#[test]
fn busy_supervisor_is_refused() {
    let mut supervisor = AppManager::new("/srv/app".to_string(), strings(&["app"]));
    supervisor.start().unwrap();
    let r = DeploymentOrchestrator::new(
        WebhookServer::new(SECRET.to_string()),
        PackageManager::new(None, "/srv/app".to_string()),
        supervisor,
    );
    assert!(matches!(r, Err(MonitorError::AppManager(_))));
}

#[test]
fn outcomes_map_to_http_statuses() {
    assert_eq!(Outcome::Succeeded.http_status(), 200);
    assert_eq!(Outcome::Skipped.http_status(), 200);
    assert_eq!(Outcome::FailedValidation.http_status(), 401);
    assert_eq!(Outcome::FailedDependencyUpdate.http_status(), 500);
    assert_eq!(Outcome::FailedRestart.http_status(), 500);
    assert_eq!(Outcome::FailedHealthCheck.http_status(), 500);
}

#[test]
fn admissions_map_to_http_statuses() {
    assert_eq!(Admission::Started.http_status(), 202);
    assert_eq!(Admission::Queued.http_status(), 202);
    assert_eq!(Admission::Replaced.http_status(), 202);
    assert_eq!(Admission::Busy.http_status(), 503);
}
