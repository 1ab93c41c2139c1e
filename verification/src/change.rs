//! A change as the repository reports it, and what it means for a
//! deployment.

use crate::error::{MonitorError, Result};
use crate::github::{parsed_repository_url, GitHubClient};
use crate::paths::{
    add_new, any_listed, any_path_listed, any_path_unlisted, any_unlisted, lemma_with_new, texts,
    with_new,
};
use crate::webhook::{Commit, WebhookPayload};
use vstd::prelude::*;

verus! {

/// Who owns a repository and what it is called.
#[derive(Debug, Clone, PartialEq, Eq)]
pub struct RepositoryIdentity {
    pub owner: String,
    pub name: String,
}

/// One commit of a notification. Each of the three lists is a set: no path
/// stands in it twice.
#[derive(Debug, Clone, PartialEq, Eq)]
pub struct CommitChange {
    pub id: String,
    pub message: String,
    pub added: Vec<String>,
    pub modified: Vec<String>,
    pub removed: Vec<String>,
}

/// The event that something changed in the tracked repository. Nothing
/// changes it once it has been received.
#[derive(Debug, Clone, PartialEq, Eq)]
pub struct ChangeNotification {
    git_ref: String,
    repository: RepositoryIdentity,
    commits: Vec<CommitChange>,
}

/// What a change means for a deployment.
#[derive(Debug, Clone, PartialEq, Eq)]
pub struct ClassifiedChange {
    /// A dependency manifest is among the touched paths.
    pub affects_dependencies: bool,
    /// A touched path lies outside the ignored ones.
    pub affects_application: bool,
    /// Every path that some commit added, modified or removed, each once.
    pub touched_paths: Vec<String>,
    /// A dependency manifest is among the added paths.
    pub manifest_added: bool,
    /// A dependency manifest is among the modified paths.
    pub manifest_modified: bool,
}

/// The ways in which a commit touches a path.
pub enum Touch {
    Added,
    Modified,
    Removed,
}

/// The members of `list`, each once, in the order of their first occurrence.
pub open spec fn as_set(list: Seq<String>) -> Seq<Seq<char>> {
    with_new(Seq::empty(), texts(list))
}

impl CommitChange {
    /// The paths that the commit touched in the way `touch`.
    pub open spec fn paths(&self, touch: Touch) -> Seq<Seq<char>> {
        match touch {
            Touch::Added => texts(self.added@),
            Touch::Modified => texts(self.modified@),
            Touch::Removed => texts(self.removed@),
        }
    }

    /// Whether this is `commit` with each list of paths made a set.
    pub open spec fn stands_for(&self, commit: Commit) -> bool {
        &&& self.id@ == commit.id@
        &&& self.message@ == commit.message@
        &&& texts(self.added@) == as_set(commit.added@)
        &&& texts(self.modified@) == as_set(commit.modified@)
        &&& texts(self.removed@) == as_set(commit.removed@)
    }

    /// No path stands twice in one list.
    pub open spec fn wf(&self) -> bool {
        &&& texts(self.added@).no_duplicates()
        &&& texts(self.modified@).no_duplicates()
        &&& texts(self.removed@).no_duplicates()
    }
}

/// Whether one of the first `n` commits touched `path` in the way `touch`.
pub open spec fn touched_before(
    commits: Seq<CommitChange>,
    touch: Touch,
    n: int,
    path: Seq<char>,
) -> bool {
    exists|i: int| 0 <= i < n && (#[trigger] commits[i]).paths(touch).contains(path)
}

/// Whether some commit added `path`.
pub open spec fn added(commits: Seq<CommitChange>, path: Seq<char>) -> bool {
    touched_before(commits, Touch::Added, commits.len() as int, path)
}

/// Whether some commit modified `path`.
pub open spec fn modified(commits: Seq<CommitChange>, path: Seq<char>) -> bool {
    touched_before(commits, Touch::Modified, commits.len() as int, path)
}

/// Whether some commit removed `path`.
pub open spec fn removed(commits: Seq<CommitChange>, path: Seq<char>) -> bool {
    touched_before(commits, Touch::Removed, commits.len() as int, path)
}

/// Whether `path` is one of the touched paths: the union of what the commits
/// added, modified and removed.
pub open spec fn touched(commits: Seq<CommitChange>, path: Seq<char>) -> bool {
    added(commits, path) || modified(commits, path) || removed(commits, path)
}

/// A touched path is a dependency manifest.
pub open spec fn touches_manifest(commits: Seq<CommitChange>, manifests: Seq<Seq<char>>) -> bool {
    exists|path: Seq<char>| #[trigger] touched(commits, path) && manifests.contains(path)
}

/// A touched path is none of the ignored ones.
pub open spec fn touches_application(commits: Seq<CommitChange>, ignored: Seq<Seq<char>>) -> bool {
    exists|path: Seq<char>| #[trigger] touched(commits, path) && !ignored.contains(path)
}

/// An added path is a dependency manifest.
pub open spec fn adds_manifest(commits: Seq<CommitChange>, manifests: Seq<Seq<char>>) -> bool {
    exists|path: Seq<char>| #[trigger] added(commits, path) && manifests.contains(path)
}

/// A modified path is a dependency manifest.
pub open spec fn modifies_manifest(commits: Seq<CommitChange>, manifests: Seq<Seq<char>>) -> bool {
    exists|path: Seq<char>| #[trigger] modified(commits, path) && manifests.contains(path)
}

/// A notification without commits touches nothing: neither the dependencies
/// nor the application are affected.
pub proof fn lemma_no_commits_no_effect(
    commits: Seq<CommitChange>,
    manifests: Seq<Seq<char>>,
    ignored: Seq<Seq<char>>,
)
    requires
        commits.len() == 0,
    ensures
        forall|path: Seq<char>| !touched(commits, path),
        !touches_manifest(commits, manifests),
        !touches_application(commits, ignored),
        !adds_manifest(commits, manifests),
        !modifies_manifest(commits, manifests),
{
}

/// The flags of a classification depend on the set of touched paths alone:
/// a manifest among the added or modified paths is a touched manifest.
pub proof fn lemma_manifest_flags_imply_dependencies(
    commits: Seq<CommitChange>,
    manifests: Seq<Seq<char>>,
)
    ensures
        adds_manifest(commits, manifests) ==> touches_manifest(commits, manifests),
        modifies_manifest(commits, manifests) ==> touches_manifest(commits, manifests),
{
    if adds_manifest(commits, manifests) {
        let path = choose|path: Seq<char>| #[trigger]
            added(commits, path) && manifests.contains(path);
        assert(touched(commits, path));
    }
    if modifies_manifest(commits, manifests) {
        let path = choose|path: Seq<char>| #[trigger]
            modified(commits, path) && manifests.contains(path);
        assert(touched(commits, path));
    }
}

/// One more commit adds its own paths to those touched before it.
proof fn lemma_touched_before_next(
    commits: Seq<CommitChange>,
    touch: Touch,
    i: int,
    path: Seq<char>,
)
    requires
        0 <= i < commits.len(),
    ensures
        touched_before(commits, touch, i + 1, path) <==> touched_before(commits, touch, i, path)
            || commits[i].paths(touch).contains(path),
{
    if touched_before(commits, touch, i + 1, path) {
        let k = choose|k: int| 0 <= k < i + 1 && (#[trigger] commits[k]).paths(touch).contains(path);
        if k < i {
            assert(touched_before(commits, touch, i, path));
        }
    }
    if touched_before(commits, touch, i, path) {
        let k = choose|k: int| 0 <= k < i && (#[trigger] commits[k]).paths(touch).contains(path);
        assert(0 <= k < i + 1);
    }
}

/// A list with given members has a member among `among`, or outside it,
/// exactly where some such member exists.
proof fn lemma_listed_members(
    list: Seq<Seq<char>>,
    among: Seq<Seq<char>>,
    member: spec_fn(Seq<char>) -> bool,
)
    requires
        forall|p: Seq<char>| list.contains(p) <==> #[trigger] member(p),
    ensures
        any_listed(list, among) <==> exists|p: Seq<char>| #[trigger] member(p) && among.contains(p),
        any_unlisted(list, among) <==> exists|p: Seq<char>| #[trigger]
            member(p) && !among.contains(p),
{
    if any_listed(list, among) {
        let i = choose|i: int| 0 <= i < list.len() && among.contains(#[trigger] list[i]);
        assert(member(list[i]) && among.contains(list[i]));
    }
    if any_unlisted(list, among) {
        let i = choose|i: int| 0 <= i < list.len() && !among.contains(#[trigger] list[i]);
        assert(member(list[i]) && !among.contains(list[i]));
    }
}

impl ChangeNotification {
    /// The reference (branch or tag) that was pushed to.
    pub closed spec fn ref_text(&self) -> Seq<char> {
        self.git_ref@
    }

    /// The repository's owner and name.
    pub closed spec fn identity(&self) -> (Seq<char>, Seq<char>) {
        (self.repository.owner@, self.repository.name@)
    }

    /// The commits, in the order in which they were reported.
    pub closed spec fn changes(&self) -> Seq<CommitChange> {
        self.commits@
    }

    /// The reference (branch or tag) that was pushed to.
    pub fn git_ref(&self) -> (r: &str)
        ensures
            r@ == self.ref_text(),
    {
        self.git_ref.as_str()
    }

    /// The repository that the notification is about.
    pub fn repository(&self) -> (r: &RepositoryIdentity)
        ensures
            (r.owner@, r.name@) == self.identity(),
    {
        &self.repository
    }

    /// The commits, in the order in which they were reported.
    pub fn commits(&self) -> (r: &Vec<CommitChange>)
        ensures
            r@ == self.changes(),
    {
        &self.commits
    }

    /// Whether the notification is about a push to `branch`: its reference
    /// is `refs/heads/` followed by the branch's name.
    pub fn targets_branch(&self, branch: &str) -> (r: bool)
        ensures
            r == (self.ref_text() == "refs/heads/"@ + branch@),
    {
        let expected = String::from_str("refs/heads/").concat(branch);
        self.git_ref == expected
    }

    /// Receives a notification: the repository is identified by its clone
    /// URL, and each list of paths becomes a set. A payload whose clone URL
    /// names no repository is refused.
    pub fn from_payload(payload: &WebhookPayload) -> (r: Result<ChangeNotification>)
        ensures
            match r {
                Ok(n) => {
                    &&& parsed_repository_url(payload.repository.clone_url@) == Ok::<
                        _,
                        Seq<char>,
                    >(n.identity())
                    &&& n.ref_text() == payload.git_ref@
                    &&& n.changes().len() == payload.commits@.len()
                    &&& forall|i: int|
                        0 <= i < n.changes().len() ==> (#[trigger] n.changes()[i]).stands_for(
                            payload.commits@[i],
                        ) && n.changes()[i].wf()
                },
                Err(e) => {
                    &&& e matches MonitorError::WebhookValidation(m)
                    &&& parsed_repository_url(payload.repository.clone_url@) == Err::<
                        (Seq<char>, Seq<char>),
                        _,
                    >(m@)
                },
            },
    {
        let repository = match GitHubClient::parse_repository_url(
            payload.repository.clone_url.as_str(),
        ) {
            Ok((owner, name)) => RepositoryIdentity { owner, name },
            Err(MonitorError::Config(m)) => {
                return Err(MonitorError::WebhookValidation(m));
            },
            Err(e) => {
                return Err(e);
            },
        };
        let n = payload.commits.len();
        let mut commits: Vec<CommitChange> = Vec::new();
        let mut i: usize = 0;
        while i < n
            invariant
                n == payload.commits@.len(),
                i <= n,
                commits@.len() == i,
                forall|k: int|
                    0 <= k < i ==> (#[trigger] commits@[k]).stands_for(payload.commits@[k])
                        && commits@[k].wf(),
            decreases n - i,
        {
            let commit = &payload.commits[i];
            let mut added: Vec<String> = Vec::new();
            let mut modified: Vec<String> = Vec::new();
            let mut removed: Vec<String> = Vec::new();
            assert(texts(removed@) =~= Seq::<Seq<char>>::empty());
            add_new(&mut added, commit.added.as_slice());
            add_new(&mut modified, commit.modified.as_slice());
            add_new(&mut removed, commit.removed.as_slice());
            proof {
                lemma_with_new(Seq::empty(), texts(commit.added@));
                lemma_with_new(Seq::empty(), texts(commit.modified@));
                lemma_with_new(Seq::empty(), texts(commit.removed@));
            }
            commits.push(
                CommitChange {
                    id: commit.id.clone(),
                    message: commit.message.clone(),
                    added,
                    modified,
                    removed,
                },
            );
            i += 1;
        }
        Ok(ChangeNotification { git_ref: payload.git_ref.clone(), repository, commits })
    }
}

/// Works out what `notification` means for a deployment, given the paths of
/// the dependency manifests and the paths that do not concern the
/// application.
pub fn classify(
    notification: &ChangeNotification,
    manifest_paths: &[String],
    ignored_paths: &[String],
) -> (change: ClassifiedChange)
    ensures
        change.affects_dependencies == touches_manifest(
            notification.changes(),
            texts(manifest_paths@),
        ),
        change.affects_application == touches_application(
            notification.changes(),
            texts(ignored_paths@),
        ),
        change.manifest_added == adds_manifest(notification.changes(), texts(manifest_paths@)),
        change.manifest_modified == modifies_manifest(
            notification.changes(),
            texts(manifest_paths@),
        ),
        forall|path: Seq<char>|
            texts(change.touched_paths@).contains(path) <==> #[trigger] touched(
                notification.changes(),
                path,
            ),
        texts(change.touched_paths@).no_duplicates(),
{
    let commits = notification.commits();
    let n = commits.len();
    let mut all_added: Vec<String> = Vec::new();
    let mut all_modified: Vec<String> = Vec::new();
    let mut all_removed: Vec<String> = Vec::new();
    let mut i: usize = 0;
    while i < n
        invariant
            n == commits@.len(),
            i <= n,
            texts(all_added@).no_duplicates(),
            texts(all_modified@).no_duplicates(),
            texts(all_removed@).no_duplicates(),
            forall|p: Seq<char>|
                texts(all_added@).contains(p) <==> #[trigger] touched_before(
                    commits@,
                    Touch::Added,
                    i as int,
                    p,
                ),
            forall|p: Seq<char>|
                texts(all_modified@).contains(p) <==> #[trigger] touched_before(
                    commits@,
                    Touch::Modified,
                    i as int,
                    p,
                ),
            forall|p: Seq<char>|
                texts(all_removed@).contains(p) <==> #[trigger] touched_before(
                    commits@,
                    Touch::Removed,
                    i as int,
                    p,
                ),
        decreases n - i,
    {
        let commit = &commits[i];
        let ghost before_added = texts(all_added@);
        let ghost before_modified = texts(all_modified@);
        let ghost before_removed = texts(all_removed@);
        add_new(&mut all_added, commit.added.as_slice());
        add_new(&mut all_modified, commit.modified.as_slice());
        add_new(&mut all_removed, commit.removed.as_slice());
        proof {
            lemma_with_new(before_added, texts(commit.added@));
            lemma_with_new(before_modified, texts(commit.modified@));
            lemma_with_new(before_removed, texts(commit.removed@));
            assert forall|p: Seq<char>|
                texts(all_added@).contains(p) <==> #[trigger] touched_before(
                    commits@,
                    Touch::Added,
                    i + 1,
                    p,
                ) by {
                lemma_touched_before_next(commits@, Touch::Added, i as int, p);
            }
            assert forall|p: Seq<char>|
                texts(all_modified@).contains(p) <==> #[trigger] touched_before(
                    commits@,
                    Touch::Modified,
                    i + 1,
                    p,
                ) by {
                lemma_touched_before_next(commits@, Touch::Modified, i as int, p);
            }
            assert forall|p: Seq<char>|
                texts(all_removed@).contains(p) <==> #[trigger] touched_before(
                    commits@,
                    Touch::Removed,
                    i + 1,
                    p,
                ) by {
                lemma_touched_before_next(commits@, Touch::Removed, i as int, p);
            }
        }
        i += 1;
    }
    let manifest_added = any_path_listed(all_added.as_slice(), manifest_paths);
    let manifest_modified = any_path_listed(all_modified.as_slice(), manifest_paths);
    let mut touched_paths: Vec<String> = Vec::new();
    assert(texts(touched_paths@) =~= Seq::<Seq<char>>::empty());
    add_new(&mut touched_paths, all_added.as_slice());
    let ghost first = texts(touched_paths@);
    add_new(&mut touched_paths, all_modified.as_slice());
    let ghost second = texts(touched_paths@);
    add_new(&mut touched_paths, all_removed.as_slice());
    let affects_dependencies = any_path_listed(touched_paths.as_slice(), manifest_paths);
    let affects_application = any_path_unlisted(touched_paths.as_slice(), ignored_paths);
    proof {
        let changes = notification.changes();
        lemma_with_new(Seq::empty(), texts(all_added@));
        lemma_with_new(first, texts(all_modified@));
        lemma_with_new(second, texts(all_removed@));
        assert forall|p: Seq<char>|
            texts(touched_paths@).contains(p) <==> #[trigger] touched(changes, p) by {}
        lemma_listed_members(
            texts(touched_paths@),
            texts(manifest_paths@),
            |p: Seq<char>| touched(changes, p),
        );
        lemma_listed_members(
            texts(touched_paths@),
            texts(ignored_paths@),
            |p: Seq<char>| touched(changes, p),
        );
        lemma_listed_members(
            texts(all_added@),
            texts(manifest_paths@),
            |p: Seq<char>| added(changes, p),
        );
        lemma_listed_members(
            texts(all_modified@),
            texts(manifest_paths@),
            |p: Seq<char>| modified(changes, p),
        );
    }
    ClassifiedChange {
        affects_dependencies,
        affects_application,
        touched_paths,
        manifest_added,
        manifest_modified,
    }
}

} // verus!
