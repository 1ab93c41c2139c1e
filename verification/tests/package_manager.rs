use github_monitor::change::ClassifiedChange;
use github_monitor::error::MonitorError;
use github_monitor::package_manager::{
    reconcile, CommandOutcome, DependencyAction, PackageManager, UpdateFailure, UpdateStep,
};

fn classified(manifest_added: bool, manifest_modified: bool) -> ClassifiedChange {
    ClassifiedChange {
        affects_dependencies: manifest_added || manifest_modified,
        affects_application: true,
        touched_paths: vec!["requirements.txt".to_string()],
        manifest_added,
        manifest_modified,
    }
}

fn exited(code: i32, output: &str) -> CommandOutcome {
    CommandOutcome::Exited { code, output: output.to_string() }
}

fn manager(max_retries: u32, markers: &[&str]) -> PackageManager {
    PackageManager::new(None, "/srv/app".to_string())
        .with_retries(max_retries, markers.iter().map(|m| m.to_string()).collect())
}

#[test]
fn new_manifest_calls_for_an_install() {
    assert_eq!(reconcile(&classified(true, false), false), DependencyAction::Install);
}

#[test]
fn modified_manifest_calls_for_an_update() {
    assert_eq!(reconcile(&classified(false, true), true), DependencyAction::Update);
    assert_eq!(reconcile(&classified(false, true), false), DependencyAction::Update);
}

#[test]
fn install_goes_before_update() {
    assert_eq!(reconcile(&classified(true, true), false), DependencyAction::Install);
}

#[test]
fn known_manifest_that_is_added_and_modified_is_updated() {
    assert_eq!(reconcile(&classified(true, true), true), DependencyAction::Update);
}

#[test]
fn nothing_to_do_without_added_or_modified_manifest() {
    assert_eq!(reconcile(&classified(false, false), false), DependencyAction::Nothing);
    assert_eq!(reconcile(&classified(false, false), true), DependencyAction::Nothing);
    assert_eq!(reconcile(&classified(true, false), true), DependencyAction::Nothing);
}

#[test]
fn reconcile_gives_the_same_action_for_the_same_facts() {
    for added in [false, true] {
        for modified in [false, true] {
            for known in [false, true] {
                assert_eq!(
                    reconcile(&classified(added, modified), known),
                    reconcile(&classified(added, modified), known)
                );
            }
        }
    }
}

#[test]
fn package_manager_defaults() {
    let pm = PackageManager::new(Some("/srv/venv".to_string()), "/srv/app".to_string());
    assert_eq!(pm.working_dir(), "/srv/app");
    assert_eq!(pm.venv_path(), Some("/srv/venv"));
    assert_eq!(
        pm.manifest_paths(),
        &vec!["requirements.txt".to_string(), "pyproject.toml".to_string()]
    );
    assert_eq!(PackageManager::new(None, String::new()).venv_path(), None);
}

#[test]
fn begin_runs_the_command_unless_there_is_nothing_to_do() {
    let pm = manager(1, &[]);
    assert_eq!(pm.begin(DependencyAction::Nothing), UpdateStep::Succeeded);
    assert_eq!(
        pm.begin(DependencyAction::Install),
        UpdateStep::Run { action: DependencyAction::Install, retries_made: 0 }
    );
    assert_eq!(
        pm.begin(DependencyAction::Update),
        UpdateStep::Run { action: DependencyAction::Update, retries_made: 0 }
    );
}

#[test]
fn exit_code_zero_is_success() {
    let pm = manager(1, &["timed out"]);
    assert_eq!(pm.interpret(DependencyAction::Install, 0, exited(0, "")), UpdateStep::Succeeded);
    assert_eq!(
        pm.interpret(DependencyAction::Update, 1, exited(0, "connection timed out, retried")),
        UpdateStep::Succeeded
    );
}

#[test]
fn time_out_is_a_failure_at_once() {
    let pm = manager(3, &["timed out"]);
    assert_eq!(
        pm.interpret(DependencyAction::Install, 0, CommandOutcome::TimedOut),
        UpdateStep::Failed(UpdateFailure::Timeout)
    );
}

#[test]
fn persistent_failure_carries_code_and_output() {
    let pm = manager(1, &["timed out"]);
    assert_eq!(
        pm.interpret(DependencyAction::Update, 0, exited(1, "no such package")),
        UpdateStep::Failed(UpdateFailure::Command(1, "no such package".to_string()))
    );
    assert_eq!(
        pm.interpret(DependencyAction::Update, 0, exited(-9, "")),
        UpdateStep::Failed(UpdateFailure::Command(-9, String::new()))
    );
}

#[test]
fn transient_failure_is_tried_again_once_by_default() {
    let pm = PackageManager::new(None, "/srv/app".to_string())
        .with_retries(1, vec!["connection reset".to_string()]);
    assert_eq!(
        pm.interpret(DependencyAction::Install, 0, exited(2, "error: connection reset by peer")),
        UpdateStep::Run { action: DependencyAction::Install, retries_made: 1 }
    );
    assert_eq!(
        pm.interpret(DependencyAction::Install, 1, exited(2, "error: connection reset by peer")),
        UpdateStep::Failed(UpdateFailure::Command(2, "error: connection reset by peer".to_string()))
    );
}

#[test]
fn without_markers_no_failure_is_tried_again() {
    let pm = PackageManager::new(None, "/srv/app".to_string());
    assert_eq!(
        pm.interpret(DependencyAction::Install, 0, exited(1, "connection reset")),
        UpdateStep::Failed(UpdateFailure::Command(1, "connection reset".to_string()))
    );
}

#[test]
fn retries_stop_at_the_limit() {
    let pm = manager(3, &["temporary"]);
    let mut retries = 0;
    let mut runs = 1;
    loop {
        match pm.interpret(DependencyAction::Update, retries, exited(1, "temporary failure")) {
            UpdateStep::Run { action, retries_made } => {
                assert_eq!(action, DependencyAction::Update);
                assert_eq!(retries_made, retries + 1);
                retries = retries_made;
                runs += 1;
            }
            UpdateStep::Failed(UpdateFailure::Command(1, output)) => {
                assert_eq!(output, "temporary failure");
                break;
            }
            other => panic!("unexpected {:?}", other),
        }
    }
    assert_eq!(runs, 4);
    assert_eq!(
        manager(0, &["temporary"]).interpret(DependencyAction::Update, 0, exited(1, "temporary")),
        UpdateStep::Failed(UpdateFailure::Command(1, "temporary".to_string()))
    );
    assert_eq!(
        manager(u32::MAX, &["temporary"]).interpret(
            DependencyAction::Update,
            u32::MAX,
            exited(1, "temporary")
        ),
        UpdateStep::Failed(UpdateFailure::Command(1, "temporary".to_string()))
    );
}

#[test]
fn output_is_transient_when_it_holds_a_marker() {
    let pm = manager(1, &["timed out", "ECONNRESET"]);
    assert!(pm.output_is_transient("read timed out"));
    assert!(pm.output_is_transient("ECONNRESET"));
    assert!(pm.output_is_transient("xx ECONNRESET yy"));
    assert!(!pm.output_is_transient("econnreset"));
    assert!(!pm.output_is_transient("timed  out"));
    assert!(!pm.output_is_transient(""));
    assert!(!manager(1, &[]).output_is_transient("timed out"));
    assert!(manager(1, &[""]).output_is_transient("anything"));
    assert!(manager(1, &[""]).output_is_transient(""));
    assert!(manager(1, &["\u{e9}t\u{e9}"]).output_is_transient("en \u{e9}t\u{e9}."));
}

#[test]
fn update_failures_become_package_manager_errors() {
    assert_eq!(
        UpdateFailure::Timeout.to_error(),
        MonitorError::PackageManager("the package manager did not finish in time".to_string())
    );
    assert_eq!(
        UpdateFailure::Command(7, "x".to_string()).to_error().message(),
        "Package manager error: the package manager failed: x"
    );
}

#[test]
fn update_failures_are_described() {
    assert_eq!(UpdateFailure::Timeout.describe(), "the package manager did not finish in time");
    assert_eq!(
        UpdateFailure::Command(1, "boom".to_string()).describe(),
        "the package manager failed: boom"
    );
}
