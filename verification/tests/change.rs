use github_monitor::change::{classify, ChangeNotification};
use github_monitor::error::MonitorError;
use github_monitor::package_manager::PackageManager;
use github_monitor::paths::{add_new, any_path_listed, any_path_unlisted, has_text};
use github_monitor::webhook::{Commit, Repository, WebhookPayload, WebhookServer};

fn strings(items: &[&str]) -> Vec<String> {
    items.iter().map(|s| s.to_string()).collect()
}

fn commit(id: &str, added: &[&str], modified: &[&str], removed: &[&str]) -> Commit {
    Commit {
        id: id.to_string(),
        message: format!("commit {}", id),
        added: strings(added),
        modified: strings(modified),
        removed: strings(removed),
    }
}

fn payload(commits: Vec<Commit>) -> WebhookPayload {
    WebhookPayload {
        git_ref: "refs/heads/main".to_string(),
        repository: Repository {
            full_name: "owner/repo".to_string(),
            clone_url: "https://github.com/owner/repo.git".to_string(),
        },
        commits,
    }
}

fn notification(commits: Vec<Commit>) -> ChangeNotification {
    WebhookServer::new("secret".to_string()).process_payload(payload(commits)).unwrap()
}

#[test]
fn notification_keeps_ref_identity_and_commits() {
    let n = notification(vec![
        commit("1", &["a"], &["b"], &["c"]),
        commit("2", &[], &["b", "d"], &[]),
    ]);
    assert_eq!(n.git_ref(), "refs/heads/main");
    assert_eq!(n.repository().owner, "owner");
    assert_eq!(n.repository().name, "repo");
    assert_eq!(n.commits().len(), 2);
    assert_eq!(n.commits()[0].id, "1");
    assert_eq!(n.commits()[0].message, "commit 1");
    assert_eq!(n.commits()[0].added, strings(&["a"]));
    assert_eq!(n.commits()[0].modified, strings(&["b"]));
    assert_eq!(n.commits()[0].removed, strings(&["c"]));
    assert_eq!(n.commits()[1].modified, strings(&["b", "d"]));
}

#[test]
fn notification_makes_each_list_a_set() {
    let n = notification(vec![commit("1", &["a", "b", "a", "a", "c", "b"], &["x", "x"], &[])]);
    assert_eq!(n.commits()[0].added, strings(&["a", "b", "c"]));
    assert_eq!(n.commits()[0].modified, strings(&["x"]));
    assert_eq!(n.commits()[0].removed, Vec::<String>::new());
}

#[test]
fn notification_identity_comes_from_the_clone_url() {
    let mut p = payload(vec![]);
    p.repository.full_name = "someone/else".to_string();
    p.repository.clone_url = " git@github.com:Owner/Repo.git ".to_string();
    let n = WebhookServer::new("s".to_string()).process_payload(p).unwrap();
    assert_eq!(n.repository().owner, "Owner");
    assert_eq!(n.repository().name, "Repo");
}

#[test]
fn payload_without_repository_is_refused() {
    let mut p = payload(vec![commit("1", &["a"], &[], &[])]);
    p.repository.clone_url = "https://example.org/owner/repo".to_string();
    assert_eq!(
        WebhookServer::new("s".to_string()).process_payload(p),
        Err(MonitorError::WebhookValidation(
            "Unsupported repository URL format: https://example.org/owner/repo".to_string()
        ))
    );
    let mut q = payload(vec![]);
    q.repository.clone_url = "https://github.com/owner".to_string();
    assert_eq!(
        WebhookServer::new("s".to_string()).process_payload(q),
        Err(MonitorError::WebhookValidation(
            "Invalid repository URL format: https://github.com/owner".to_string()
        ))
    );
}

#[test]
fn notification_without_commits_affects_nothing() {
    let n = notification(vec![]);
    let c = classify(&n, &strings(&["requirements.txt"]), &[]);
    assert!(!c.affects_dependencies);
    assert!(!c.affects_application);
    assert!(!c.manifest_added);
    assert!(!c.manifest_modified);
    assert!(c.touched_paths.is_empty());
}

#[test]
fn commits_without_paths_affect_nothing() {
    let n = notification(vec![commit("1", &[], &[], &[]), commit("2", &[], &[], &[])]);
    let c = classify(&n, &strings(&["requirements.txt"]), &strings(&["README.md"]));
    assert!(!c.affects_dependencies);
    assert!(!c.affects_application);
    assert!(c.touched_paths.is_empty());
}

#[test]
fn touched_paths_are_the_union_over_all_commits() {
    let n = notification(vec![
        commit("1", &["a", "b"], &["c"], &["d"]),
        commit("2", &["b", "e"], &["a", "c"], &["f", "d"]),
    ]);
    let c = classify(&n, &[], &[]);
    let mut touched = c.touched_paths.clone();
    touched.sort();
    assert_eq!(touched, strings(&["a", "b", "c", "d", "e", "f"]));
    assert_eq!(c.touched_paths.len(), 6);
}

#[test]
fn manifest_among_touched_paths_affects_dependencies() {
    let manifests = strings(&["requirements.txt", "pyproject.toml"]);
    let added = classify(&notification(vec![commit("1", &["pyproject.toml"], &[], &[])]), &manifests, &[]);
    assert!(added.affects_dependencies);
    assert!(added.manifest_added);
    assert!(!added.manifest_modified);
    let modified =
        classify(&notification(vec![commit("1", &[], &["requirements.txt"], &[])]), &manifests, &[]);
    assert!(modified.affects_dependencies);
    assert!(!modified.manifest_added);
    assert!(modified.manifest_modified);
    let removed =
        classify(&notification(vec![commit("1", &[], &[], &["requirements.txt"])]), &manifests, &[]);
    assert!(removed.affects_dependencies);
    assert!(!removed.manifest_added);
    assert!(!removed.manifest_modified);
    let other = classify(&notification(vec![commit("1", &["src/app.py"], &[], &[])]), &manifests, &[]);
    assert!(!other.affects_dependencies);
    assert!(other.affects_application);
}

#[test]
fn manifest_paths_are_compared_whole() {
    let manifests = strings(&["requirements.txt"]);
    let c = classify(
        &notification(vec![commit("1", &["sub/requirements.txt", "requirements.txt.bak"], &[], &[])]),
        &manifests,
        &[],
    );
    assert!(!c.affects_dependencies);
    assert!(c.affects_application);
}

#[test]
fn only_ignored_paths_do_not_affect_the_application() {
    let ignored = strings(&["README.md", "docs/index.md"]);
    let readme = classify(&notification(vec![commit("1", &[], &["README.md"], &[])]), &[], &ignored);
    assert!(!readme.affects_application);
    assert!(!readme.affects_dependencies);
    assert_eq!(readme.touched_paths, strings(&["README.md"]));
    let mixed = classify(
        &notification(vec![commit("1", &["docs/index.md"], &["README.md", "src/app.py"], &[])]),
        &[],
        &ignored,
    );
    assert!(mixed.affects_application);
}

#[test]
fn without_ignored_paths_every_touched_path_affects_the_application() {
    let c = classify(&notification(vec![commit("1", &[], &[], &["README.md"])]), &[], &[]);
    assert!(c.affects_application);
}

#[test]
fn both_flags_may_hold_together() {
    let c = classify(
        &notification(vec![commit("1", &["src/app.py"], &["requirements.txt"], &[])]),
        &strings(&["requirements.txt"]),
        &strings(&["README.md"]),
    );
    assert!(c.affects_dependencies);
    assert!(c.affects_application);
}

#[test]
fn ignored_manifest_affects_dependencies_only() {
    let c = classify(
        &notification(vec![commit("1", &[], &["requirements.txt"], &[])]),
        &strings(&["requirements.txt"]),
        &strings(&["requirements.txt"]),
    );
    assert!(c.affects_dependencies);
    assert!(!c.affects_application);
}

#[test]
fn manifest_flags_look_at_all_commits() {
    let c = classify(
        &notification(vec![
            commit("1", &["a"], &[], &[]),
            commit("2", &["requirements.txt"], &[], &[]),
            commit("3", &[], &["requirements.txt"], &[]),
        ]),
        &strings(&["requirements.txt"]),
        &[],
    );
    assert!(c.manifest_added);
    assert!(c.manifest_modified);
    assert!(c.affects_dependencies);
}

#[test]
fn detect_dependency_changes_looks_for_manifests() {
    let pm = PackageManager::new(None, "/srv/app".to_string());
    assert_eq!(pm.detect_dependency_changes(&strings(&["src/a.py", "pyproject.toml"])), Ok(true));
    assert_eq!(pm.detect_dependency_changes(&strings(&["requirements.txt"])), Ok(true));
    assert_eq!(pm.detect_dependency_changes(&strings(&["src/a.py", "README.md"])), Ok(false));
    assert_eq!(pm.detect_dependency_changes(&[]), Ok(false));
    let other = pm.with_manifest_paths(strings(&["Pipfile"]));
    assert_eq!(other.detect_dependency_changes(&strings(&["requirements.txt"])), Ok(false));
    assert_eq!(other.detect_dependency_changes(&strings(&["Pipfile"])), Ok(true));
}

#[test]
fn path_lists_are_read_as_sets() {
    let list = strings(&["a", "b"]);
    assert!(has_text(&list, &"a".to_string()));
    assert!(!has_text(&list, &"c".to_string()));
    assert!(!has_text(&[], &"a".to_string()));
    assert!(any_path_listed(&strings(&["x", "b"]), &list));
    assert!(!any_path_listed(&strings(&["x", "y"]), &list));
    assert!(!any_path_listed(&[], &list));
    assert!(any_path_unlisted(&strings(&["a", "x"]), &list));
    assert!(!any_path_unlisted(&strings(&["a", "b", "a"]), &list));
    assert!(!any_path_unlisted(&[], &list));
}

#[test]
fn add_new_keeps_first_occurrences_in_order() {
    let mut acc = strings(&["b"]);
    add_new(&mut acc, &strings(&["a", "b", "c", "a", "d"]));
    assert_eq!(acc, strings(&["b", "a", "c", "d"]));
    add_new(&mut acc, &[]);
    assert_eq!(acc, strings(&["b", "a", "c", "d"]));
}

#[test]
fn targets_branch_compares_the_whole_reference() {
    let n = notification(vec![]);
    assert!(n.targets_branch("main"));
    assert!(!n.targets_branch("mai"));
    assert!(!n.targets_branch("main2"));
    assert!(!n.targets_branch("refs/heads/main"));
    assert!(!n.targets_branch(""));
    let mut p = payload(vec![]);
    p.git_ref = "refs/tags/main".to_string();
    let tag = WebhookServer::new("s".to_string()).process_payload(p).unwrap();
    assert!(!tag.targets_branch("main"));
}
