//! Dependencies: whether a change calls for an update or an install, and
//! what to make of the package manager's answer.

use crate::change::ClassifiedChange;
use crate::error::{MonitorError, Result};
use crate::paths::{any_listed, any_path_listed, texts};
use crate::text::{chars_of, contains_text, occurs_in};
use vstd::prelude::*;

verus! {

/// What to do about the dependencies in one deployment cycle. At most one
/// of the two commands runs in a cycle.
#[derive(Debug, Clone, Copy, PartialEq, Eq, Structural)]
pub enum DependencyAction {
    Nothing,
    Update,
    Install,
}

/// Why the dependencies could not be brought up to date.
#[derive(Debug, Clone, PartialEq, Eq)]
pub enum UpdateFailure {
    /// The command did not end within its time limit.
    Timeout,
    /// The command ended with this exit code, other than 0, and this output.
    Command(i32, String),
}

/// How a run of the package manager ended.
#[derive(Debug, Clone, PartialEq, Eq)]
pub enum CommandOutcome {
    /// The command ended by itself.
    Exited { code: i32, output: String },
    /// The time limit passed and the command was stopped.
    TimedOut,
}

/// What comes next while the dependencies are brought up to date.
#[derive(Debug, Clone, PartialEq, Eq)]
pub enum UpdateStep {
    /// Run the command for `action` and report how it ended. `retries_made`
    /// counts the runs that came before it.
    Run { action: DependencyAction, retries_made: u32 },
    /// The dependencies are up to date.
    Succeeded,
    /// The update is given up.
    Failed(UpdateFailure),
}

impl UpdateFailure {
    /// The failure in words.
    pub open spec fn text(self) -> Seq<char> {
        match self {
            UpdateFailure::Timeout => "the package manager did not finish in time"@,
            UpdateFailure::Command(_, output) => "the package manager failed: "@ + output@,
        }
    }

    /// The failure as an error of the package manager.
    pub fn to_error(&self) -> (e: MonitorError)
        ensures
            e matches MonitorError::PackageManager(m) && m@ == self.text(),
    {
        MonitorError::PackageManager(self.describe())
    }

    /// The failure in words.
    pub fn describe(&self) -> (s: String)
        ensures
            s@ == self.text(),
    {
        match self {
            UpdateFailure::Timeout => String::from_str("the package manager did not finish in time"),
            UpdateFailure::Command(_, output) => String::from_str(
                "the package manager failed: ",
            ).concat(output.as_str()),
        }
    }
}

/// The action for a change: an install where a manifest is among the added
/// paths and none was known before; else an update where a manifest is among
/// the modified paths; else nothing.
pub open spec fn reconciled(
    manifest_added: bool,
    manifest_modified: bool,
    was_manifest_previously_known: bool,
) -> DependencyAction {
    if manifest_added && !was_manifest_previously_known {
        DependencyAction::Install
    } else if manifest_modified {
        DependencyAction::Update
    } else {
        DependencyAction::Nothing
    }
}

/// Whether `output` bears one of the marks of a failure that may pass.
pub open spec fn is_transient(output: Seq<char>, markers: Seq<Seq<char>>) -> bool {
    exists|i: int| 0 <= i < markers.len() && occurs_in(output, #[trigger] markers[i])
}

/// What follows a run of the command for `action` that came after
/// `retries_made` earlier runs, where up to `retry_limit` retries are allowed
/// and `markers` are the marks of a passing failure.
pub open spec fn interpretation(
    action: DependencyAction,
    retries_made: u32,
    outcome: CommandOutcome,
    retry_limit: u32,
    markers: Seq<Seq<char>>,
) -> UpdateStep {
    match outcome {
        CommandOutcome::TimedOut => UpdateStep::Failed(UpdateFailure::Timeout),
        CommandOutcome::Exited { code, output } => if code == 0 {
            UpdateStep::Succeeded
        } else if retries_made < retry_limit && is_transient(output@, markers) {
            UpdateStep::Run { action, retries_made: (retries_made + 1) as u32 }
        } else {
            UpdateStep::Failed(UpdateFailure::Command(code, output))
        },
    }
}

/// The command runs at most once more than retries are allowed.
pub proof fn lemma_retries_are_bounded(
    action: DependencyAction,
    retries_made: u32,
    outcome: CommandOutcome,
    retry_limit: u32,
    markers: Seq<Seq<char>>,
)
    ensures
        interpretation(action, retries_made, outcome, retry_limit, markers) matches UpdateStep::Run {
            action: again,
            retries_made: made,
        } ==> again == action && made == retries_made + 1 && made <= retry_limit,
{
}

/// Where a manifest was added and none was known before, the action is an
/// install, also where a manifest was modified in the same change: an
/// install goes before an update, and the two never come together.
pub proof fn lemma_install_before_update(manifest_modified: bool)
    ensures
        reconciled(true, manifest_modified, false) == DependencyAction::Install,
        reconciled(true, manifest_modified, false) != DependencyAction::Update,
{
}

/// Picks the action for a classified change.
pub fn reconcile(classified: &ClassifiedChange, was_manifest_previously_known: bool) -> (action:
    DependencyAction)
    ensures
        action == reconciled(
            classified.manifest_added,
            classified.manifest_modified,
            was_manifest_previously_known,
        ),
{
    if classified.manifest_added && !was_manifest_previously_known {
        DependencyAction::Install
    } else if classified.manifest_modified {
        DependencyAction::Update
    } else {
        DependencyAction::Nothing
    }
}

/// The package manager of the application: where it works, which files
/// declare the dependencies, and how often a failed run is tried again.
pub struct PackageManager {
    venv_path: Option<String>,
    working_dir: String,
    manifest_paths: Vec<String>,
    max_retries: u32,
    transient_markers: Vec<String>,
}

impl PackageManager {
    /// The paths of the dependency manifests.
    pub closed spec fn manifests(&self) -> Seq<Seq<char>> {
        texts(self.manifest_paths@)
    }

    /// How many times a run that failed in passing is tried again.
    pub closed spec fn retry_limit(&self) -> u32 {
        self.max_retries
    }

    /// The marks by which a failure that may pass is known.
    pub closed spec fn markers(&self) -> Seq<Seq<char>> {
        texts(self.transient_markers@)
    }

    /// The directory in which the commands run.
    pub closed spec fn directory(&self) -> Seq<char> {
        self.working_dir@
    }

    /// The virtual environment, where there is one.
    pub closed spec fn environment(&self) -> Option<Seq<char>> {
        match self.venv_path {
            Some(p) => Some(p@),
            None => None,
        }
    }

    /// A package manager for the application in `working_dir`. The manifests
    /// are `requirements.txt` and `pyproject.toml`, a failed run is tried
    /// again once, and no failure counts as passing until marks are given.
    pub fn new(venv_path: Option<String>, working_dir: String) -> (manager: Self)
        ensures
            manager.environment() == (match venv_path {
                Some(p) => Some(p@),
                None => None,
            }),
            manager.directory() == working_dir@,
            manager.manifests() == seq!["requirements.txt"@, "pyproject.toml"@],
            manager.retry_limit() == 1,
            manager.markers() == Seq::<Seq<char>>::empty(),
    {
        let mut manifest_paths: Vec<String> = Vec::new();
        manifest_paths.push(String::from_str("requirements.txt"));
        manifest_paths.push(String::from_str("pyproject.toml"));
        let transient_markers: Vec<String> = Vec::new();
        PackageManager { venv_path, working_dir, manifest_paths, max_retries: 1, transient_markers }
    }

    /// The same package manager with other manifests.
    pub fn with_manifest_paths(self, manifest_paths: Vec<String>) -> (manager: Self)
        ensures
            manager.manifests() == texts(manifest_paths@),
            manager.environment() == self.environment(),
            manager.directory() == self.directory(),
            manager.retry_limit() == self.retry_limit(),
            manager.markers() == self.markers(),
    {
        PackageManager {
            venv_path: self.venv_path,
            working_dir: self.working_dir,
            manifest_paths,
            max_retries: self.max_retries,
            transient_markers: self.transient_markers,
        }
    }

    /// The same package manager with another retry policy: a run that ends
    /// with a failure whose output holds one of `transient_markers` is tried
    /// again, up to `max_retries` times.
    pub fn with_retries(self, max_retries: u32, transient_markers: Vec<String>) -> (manager: Self)
        ensures
            manager.retry_limit() == max_retries,
            manager.markers() == texts(transient_markers@),
            manager.manifests() == self.manifests(),
            manager.environment() == self.environment(),
            manager.directory() == self.directory(),
    {
        PackageManager {
            venv_path: self.venv_path,
            working_dir: self.working_dir,
            manifest_paths: self.manifest_paths,
            max_retries,
            transient_markers,
        }
    }

    /// The directory in which the commands run.
    pub fn working_dir(&self) -> (r: &str)
        ensures
            r@ == self.directory(),
    {
        self.working_dir.as_str()
    }

    /// The virtual environment, where there is one.
    pub fn venv_path(&self) -> (r: Option<&str>)
        ensures
            match r {
                Some(p) => self.environment() == Some(p@),
                None => self.environment() is None,
            },
    {
        match &self.venv_path {
            Some(p) => Some(p.as_str()),
            None => None,
        }
    }

    /// The paths of the dependency manifests.
    pub fn manifest_paths(&self) -> (r: &Vec<String>)
        ensures
            texts(r@) == self.manifests(),
    {
        &self.manifest_paths
    }

    /// Whether one of the changed files is a dependency manifest.
    pub fn detect_dependency_changes(&self, changed_files: &[String]) -> (r: Result<bool>)
        ensures
            r matches Ok(changed) && changed == any_listed(texts(changed_files@), self.manifests()),
    {
        Ok(any_path_listed(changed_files, self.manifest_paths.as_slice()))
    }

    /// Whether `output` bears one of the marks of a failure that may pass.
    pub fn output_is_transient(&self, output: &str) -> (r: bool)
        ensures
            r == is_transient(output@, self.markers()),
    {
        let text = chars_of(output);
        let n = self.transient_markers.len();
        let mut i: usize = 0;
        while i < n
            invariant
                n == self.transient_markers@.len(),
                i <= n,
                text@ == output@,
                forall|k: int| 0 <= k < i ==> !occurs_in(output@, #[trigger] self.markers()[k]),
            decreases n - i,
        {
            let marker = chars_of(self.transient_markers[i].as_str());
            if contains_text(text.as_slice(), marker.as_slice()) {
                assert(occurs_in(output@, self.markers()[i as int]));
                return true;
            }
            i += 1;
        }
        false
    }

    /// The first step for `action`: nothing to run where the action is
    /// `Nothing`, else the first run of its command.
    pub fn begin(&self, action: DependencyAction) -> (step: UpdateStep)
        ensures
            action == DependencyAction::Nothing ==> step == UpdateStep::Succeeded,
            action != DependencyAction::Nothing ==> step == (UpdateStep::Run {
                action,
                retries_made: 0,
            }),
    {
        match action {
            DependencyAction::Nothing => UpdateStep::Succeeded,
            _ => UpdateStep::Run { action, retries_made: 0 },
        }
    }

    /// What follows a run of the command for `action` that came after
    /// `retries_made` earlier runs. Exit code 0 is success. A time-out is a
    /// failure at once. Another exit code is tried again while the output
    /// bears a mark of a passing failure and the retries are not used up;
    /// else it is a failure with the code and the output.
    pub fn interpret(
        &self,
        action: DependencyAction,
        retries_made: u32,
        outcome: CommandOutcome,
    ) -> (step: UpdateStep)
        ensures
            step == interpretation(action, retries_made, outcome, self.retry_limit(), self.markers()),
    {
        match outcome {
            CommandOutcome::TimedOut => UpdateStep::Failed(UpdateFailure::Timeout),
            CommandOutcome::Exited { code, output } => {
                if code == 0 {
                    UpdateStep::Succeeded
                } else if retries_made < self.max_retries && self.output_is_transient(
                    output.as_str(),
                ) {
                    UpdateStep::Run { action, retries_made: retries_made + 1 }
                } else {
                    UpdateStep::Failed(UpdateFailure::Command(code, output))
                }
            },
        }
    }
}

} // verus!
