//! The settings of the service, and the components that they describe.

use crate::app_manager::{AppManager, Lifecycle};
use crate::cycle::{Cycle, Limits};
use crate::error::{MonitorError, Result};
use crate::github::{parsed_repository_url, GitHubClient};
use crate::orchestrator::{DeploymentOrchestrator, QueuePolicy};
use crate::package_manager::PackageManager;
use crate::paths::texts;
use crate::webhook::WebhookServer;
use vstd::prelude::*;

verus! {

/// All settings of the service.
#[derive(Debug, Clone, PartialEq, Eq)]
pub struct Config {
    pub server: ServerConfig,
    pub github: GitHubConfig,
    pub application: ApplicationConfig,
    pub deployment: DeploymentConfig,
}

/// Where the service listens.
#[derive(Debug, Clone, PartialEq, Eq)]
pub struct ServerConfig {
    pub host: String,
    pub port: u16,
}

/// The tracked repository and the secrets that go with it.
#[derive(Debug, Clone, PartialEq, Eq)]
pub struct GitHubConfig {
    pub repository_url: String,
    pub branch: String,
    pub webhook_secret: String,
    pub api_token: String,
}

/// The application that is deployed.
#[derive(Debug, Clone, PartialEq, Eq)]
pub struct ApplicationConfig {
    pub working_directory: String,
    pub start_command: Vec<String>,
    pub virtual_env_path: Option<String>,
}

/// How deployments are run.
#[derive(Debug, Clone, PartialEq, Eq)]
pub struct DeploymentConfig {
    /// The paths of the dependency manifests.
    pub manifest_paths: Vec<String>,
    /// The paths that do not concern the application.
    pub ignored_paths: Vec<String>,
    /// The time that a run of the package manager may take, in seconds.
    pub package_timeout_secs: u64,
    /// How many times a run that failed in passing is tried again.
    pub update_retries: u32,
    /// The marks by which a failure of the package manager that may pass is
    /// known in its output.
    pub transient_markers: Vec<String>,
    /// The time that a starting process is given before it is probed again,
    /// in milliseconds.
    pub grace_period_millis: u64,
    /// How many delayed probes a starting process has to pass.
    pub grace_rechecks: u32,
    /// The time that a process is given to end by itself, in seconds.
    pub graceful_stop_timeout_secs: u64,
    /// The time between two health probes, in seconds.
    pub health_check_interval_secs: u64,
    /// How many health probes may fail before a deployment has failed.
    pub health_check_retries: u32,
    /// Whether a notification that arrives during a deployment is turned
    /// away; else it waits.
    pub reject_when_busy: bool,
}

/// A copy of `paths`.
pub fn copy_paths(paths: &[String]) -> (copy: Vec<String>)
    ensures
        texts(copy@) == texts(paths@),
{
    let n = paths.len();
    let mut copy: Vec<String> = Vec::new();
    let mut i: usize = 0;
    while i < n
        invariant
            n == paths@.len(),
            i <= n,
            copy@.len() == i,
            forall|k: int| 0 <= k < i ==> copy@[k]@ == paths@[k]@,
        decreases n - i,
    {
        copy.push(paths[i].clone());
        i += 1;
    }
    copy
}

impl Default for DeploymentConfig {
    /// The manifests `requirements.txt` and `pyproject.toml`, no ignored
    /// path, one retry of the package manager within 300 seconds each, one
    /// delayed probe after a second, 5 seconds to stop, 5 health probes 2
    /// seconds apart, and notifications wait.
    fn default() -> (config: Self)
        ensures
            texts(config.manifest_paths@) == seq!["requirements.txt"@, "pyproject.toml"@],
            config.ignored_paths@.len() == 0,
            config.package_timeout_secs == 300,
            config.update_retries == 1,
            config.transient_markers@.len() == 0,
            config.grace_period_millis == 1000,
            config.grace_rechecks == 1,
            config.graceful_stop_timeout_secs == 5,
            config.health_check_interval_secs == 2,
            config.health_check_retries == 5,
            !config.reject_when_busy,
    {
        let mut manifest_paths: Vec<String> = Vec::new();
        manifest_paths.push(String::from_str("requirements.txt"));
        manifest_paths.push(String::from_str("pyproject.toml"));
        DeploymentConfig {
            manifest_paths,
            ignored_paths: Vec::new(),
            package_timeout_secs: 300,
            update_retries: 1,
            transient_markers: Vec::new(),
            grace_period_millis: 1000,
            grace_rechecks: 1,
            graceful_stop_timeout_secs: 5,
            health_check_interval_secs: 2,
            health_check_retries: 5,
            reject_when_busy: false,
        }
    }
}

impl Config {
    /// What becomes of a notification that arrives during a deployment.
    pub open spec fn queue_policy(&self) -> QueuePolicy {
        if self.deployment.reject_when_busy {
            QueuePolicy::RejectWhenBusy
        } else {
            QueuePolicy::KeepLatest
        }
    }

    /// What is wrong with the settings, if anything: a repository URL that
    /// names no repository, or else an empty start command.
    pub open spec fn fault(&self) -> Option<Seq<char>> {
        match parsed_repository_url(self.github.repository_url@) {
            Err(cause) => Some(cause),
            Ok(_) => if self.application.start_command@.len() == 0 {
                Some("the start command is empty"@)
            } else {
                None
            },
        }
    }

    /// Whether the service can run on these settings.
    pub fn validate(&self) -> (r: Result<()>)
        ensures
            match r {
                Ok(_) => self.fault() is None,
                Err(e) => e matches MonitorError::Config(m) && self.fault() == Some(m@),
            },
    {
        match GitHubClient::parse_repository_url(self.github.repository_url.as_str()) {
            Err(e) => Err(e),
            Ok(_) => if self.application.start_command.len() == 0 {
                Err(MonitorError::Config(String::from_str("the start command is empty")))
            } else {
                Ok(())
            },
        }
    }

    /// The client for the tracked repository. A repository URL that names
    /// no repository is refused.
    pub fn github_client(&self) -> (r: Result<GitHubClient>)
        ensures
            match r {
                Ok(client) => {
                    &&& parsed_repository_url(self.github.repository_url@) == Ok::<
                        _,
                        Seq<char>,
                    >((client.owner_text(), client.repo_text()))
                    &&& client.token_text() == self.github.api_token@
                    &&& client.url_text() == self.github.repository_url@
                },
                Err(e) => e matches MonitorError::Config(m) && parsed_repository_url(
                    self.github.repository_url@,
                ) == Err::<(Seq<char>, Seq<char>), _>(m@),
            },
    {
        GitHubClient::new(self.github.api_token.clone(), self.github.repository_url.clone())
    }

    /// The receiving end of the webhook.
    pub fn webhook_server(&self) -> (server: WebhookServer)
        ensures
            server.secret_text() == self.github.webhook_secret@,
    {
        WebhookServer::new(self.github.webhook_secret.clone())
    }

    /// The package manager of the application.
    pub fn package_manager(&self) -> (manager: PackageManager)
        ensures
            manager.manifests() == texts(self.deployment.manifest_paths@),
            manager.retry_limit() == self.deployment.update_retries,
            manager.markers() == texts(self.deployment.transient_markers@),
            manager.directory() == self.application.working_directory@,
            manager.environment() == (match self.application.virtual_env_path {
                Some(p) => Some(p@),
                None => None,
            }),
    {
        let venv = match &self.application.virtual_env_path {
            Some(p) => Some(p.clone()),
            None => None,
        };
        PackageManager::new(venv, self.application.working_directory.clone()).with_manifest_paths(
            copy_paths(self.deployment.manifest_paths.as_slice()),
        ).with_retries(
            self.deployment.update_retries,
            copy_paths(self.deployment.transient_markers.as_slice()),
        )
    }

    /// The supervisor of the application, with nothing started.
    pub fn app_manager(&self) -> (manager: AppManager)
        ensures
            manager.lifecycle() == Lifecycle::initial(),
            manager.rechecks() == self.deployment.grace_rechecks,
            manager.directory() == self.application.working_directory@,
            texts(manager.command()) == texts(self.application.start_command@),
    {
        AppManager::new(
            self.application.working_directory.clone(),
            copy_paths(self.application.start_command.as_slice()),
        ).with_grace_rechecks(self.deployment.grace_rechecks)
    }

    /// The orchestrator that these settings describe, at rest.
    pub fn orchestrator(&self) -> (o: DeploymentOrchestrator)
        ensures
            o.wf(),
            o.cycle() == Cycle::initial(),
            o.limits() == (Limits {
                rechecks: self.deployment.grace_rechecks,
                health_attempts: self.deployment.health_check_retries,
            }),
            o.policy() == self.queue_policy(),
            o.secret() == self.github.webhook_secret@,
            o.manifests() == texts(self.deployment.manifest_paths@),
            o.ignored() == texts(self.deployment.ignored_paths@),
            o.retry_limit() == self.deployment.update_retries,
            o.markers() == texts(self.deployment.transient_markers@),
            o.current() is None,
            o.waiting() is None,
    {
        let policy = if self.deployment.reject_when_busy {
            QueuePolicy::RejectWhenBusy
        } else {
            QueuePolicy::KeepLatest
        };
        DeploymentOrchestrator::with_supervisor_at_rest(
            self.webhook_server(),
            self.package_manager(),
            self.app_manager(),
        ).with_ignored_paths(copy_paths(self.deployment.ignored_paths.as_slice())).with_queue_policy(
            policy,
        ).with_health_attempts(self.deployment.health_check_retries)
    }
}

} // verus!
