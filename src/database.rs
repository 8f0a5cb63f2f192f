//! The persistence layer: pull-request, build and workflow rows, kept in an
//! in-memory store whose every operation is stated over an abstract view.
use crate::model::{
    build_transition_allowed, BuildStatus, MergeableState, PrimaryKey, PullRequestNumber, RunId,
    WorkflowStatus, WorkflowType,
};
use vstd::prelude::*;

verus! {

/// Relies on chrono's `Utc::now`: the current time as a Unix timestamp in
/// seconds. Nothing is stated of its value, which depends on the clock.
#[verifier::external_body]
fn now_timestamp() -> (r: i64) {
    chrono::Utc::now().timestamp()
}

/// Owner and name of a repository; the scope of every other row.
#[derive(Clone, Debug)]
pub struct GithubRepoName {
    pub owner: String,
    pub name: String,
}

/// View of a repository name: owner and name as character sequences.
pub type RepoView = (Seq<char>, Seq<char>);

impl View for GithubRepoName {
    type V = RepoView;

    open spec fn view(&self) -> RepoView {
        (self.owner@, self.name@)
    }
}

impl GithubRepoName {
    pub fn new(owner: &str, name: &str) -> (r: GithubRepoName)
        ensures
            r@ == (owner@, name@),
    {
        GithubRepoName { owner: String::from_str(owner), name: String::from_str(name) }
    }

    /// Whether two repository names are the same.
    pub fn same_as(&self, other: &GithubRepoName) -> (r: bool)
        ensures
            r == (self@ == other@),
    {
        self.owner == other.owner && self.name == other.name
    }

    /// A copy with the same view.
    pub fn duplicate(&self) -> (r: GithubRepoName)
        ensures
            r@ == self@,
    {
        GithubRepoName { owner: self.owner.clone(), name: self.name.clone() }
    }
}

/// The view of an optional string.
pub open spec fn opt_str_view(o: Option<String>) -> Option<Seq<char>> {
    match o {
        Some(s) => Some(s@),
        None => None,
    }
}

fn copy_opt_str(o: &Option<String>) -> (r: Option<String>)
    ensures
        opt_str_view(r) == opt_str_view(*o),
{
    match o {
        Some(s) => Some(s.clone()),
        None => None,
    }
}

/// Errors reported by the store.
#[derive(Clone, Copy, Debug, PartialEq, Eq, Structural)]
pub enum DbError {
    /// No pull-request row has the given id.
    PullRequestNotFound,
    /// No build row has the given id.
    BuildNotFound,
    /// The build already has a different terminal status.
    InvalidTransition,
}

/// Represents a single (merged) commit under CI.
#[derive(Clone, Debug)]
pub struct BuildModel {
    pub id: PrimaryKey,
    pub repository: GithubRepoName,
    pub branch: String,
    pub commit_sha: String,
    pub status: BuildStatus,
    pub parent: String,
    pub created_at: i64,
}

/// What the logic reads of a build row (the creation time is left out).
pub struct BuildView {
    pub id: PrimaryKey,
    pub repository: RepoView,
    pub branch: Seq<char>,
    pub commit_sha: Seq<char>,
    pub status: BuildStatus,
    pub parent: Seq<char>,
}

impl View for BuildModel {
    type V = BuildView;

    open spec fn view(&self) -> BuildView {
        BuildView {
            id: self.id,
            repository: self.repository@,
            branch: self.branch@,
            commit_sha: self.commit_sha@,
            status: self.status,
            parent: self.parent@,
        }
    }
}

impl BuildModel {
    /// A copy with the same view.
    pub fn duplicate(&self) -> (r: BuildModel)
        ensures
            r@ == self@,
    {
        BuildModel {
            id: self.id,
            repository: self.repository.duplicate(),
            branch: self.branch.clone(),
            commit_sha: self.commit_sha.clone(),
            status: self.status,
            parent: self.parent.clone(),
            created_at: self.created_at,
        }
    }
}

/// Represents a pull request.
#[derive(Clone, Debug)]
pub struct PullRequestModel {
    pub id: PrimaryKey,
    pub repository: GithubRepoName,
    pub number: PullRequestNumber,
    pub base_branch: String,
    pub mergeable_state: MergeableState,
    /// The user who approved the pull request, if it is approved.
    pub approved_by: Option<String>,
    /// The id of the attached try build, if any.
    pub try_build: Option<PrimaryKey>,
    pub created_at: i64,
}

/// What the logic reads of a pull-request row (the creation time is left out).
pub struct PrView {
    pub id: PrimaryKey,
    pub repository: RepoView,
    pub number: PullRequestNumber,
    pub base_branch: Seq<char>,
    pub mergeable_state: MergeableState,
    pub approved_by: Option<Seq<char>>,
    pub try_build: Option<PrimaryKey>,
}

impl View for PullRequestModel {
    type V = PrView;

    open spec fn view(&self) -> PrView {
        PrView {
            id: self.id,
            repository: self.repository@,
            number: self.number,
            base_branch: self.base_branch@,
            mergeable_state: self.mergeable_state,
            approved_by: opt_str_view(self.approved_by),
            try_build: self.try_build,
        }
    }
}

impl PullRequestModel {
    /// Whether the pull request is currently approved.
    pub fn is_approved(&self) -> (r: bool)
        ensures
            r == self@.approved_by is Some,
    {
        self.approved_by.is_some()
    }

    /// A copy with the same view.
    pub fn duplicate(&self) -> (r: PullRequestModel)
        ensures
            r@ == self@,
    {
        PullRequestModel {
            id: self.id,
            repository: self.repository.duplicate(),
            number: self.number,
            base_branch: self.base_branch.clone(),
            mergeable_state: self.mergeable_state,
            approved_by: copy_opt_str(&self.approved_by),
            try_build: self.try_build,
            created_at: self.created_at,
        }
    }
}

/// Represents a workflow run, coming either from native CI or from an external CI.
#[derive(Clone, Debug)]
pub struct WorkflowModel {
    pub id: PrimaryKey,
    /// The id of the build that the workflow reports into.
    pub build: PrimaryKey,
    pub name: String,
    pub url: String,
    pub run_id: RunId,
    pub workflow_type: WorkflowType,
    pub status: WorkflowStatus,
    pub created_at: i64,
}

/// What the logic reads of a workflow row (the creation time is left out).
pub struct WorkflowView {
    pub id: PrimaryKey,
    pub build: PrimaryKey,
    pub name: Seq<char>,
    pub url: Seq<char>,
    pub run_id: u64,
    pub workflow_type: WorkflowType,
    pub status: WorkflowStatus,
}

impl View for WorkflowModel {
    type V = WorkflowView;

    open spec fn view(&self) -> WorkflowView {
        WorkflowView {
            id: self.id,
            build: self.build,
            name: self.name@,
            url: self.url@,
            run_id: self.run_id.0,
            workflow_type: self.workflow_type,
            status: self.status,
        }
    }
}

impl WorkflowModel {
    /// A copy with the same view.
    pub fn duplicate(&self) -> (r: WorkflowModel)
        ensures
            r@ == self@,
    {
        WorkflowModel {
            id: self.id,
            build: self.build,
            name: self.name.clone(),
            url: self.url.clone(),
            run_id: self.run_id,
            workflow_type: self.workflow_type,
            status: self.status,
            created_at: self.created_at,
        }
    }
}

/// The abstract content of the store: its three tables, in insertion order.
pub struct DbView {
    pub prs: Seq<PrView>,
    pub builds: Seq<BuildView>,
    pub workflows: Seq<WorkflowView>,
}

/// Whether a pull-request row has the given key.
pub open spec fn pr_has_key(p: PrView, repo: RepoView, number: PullRequestNumber) -> bool {
    p.repository == repo && p.number == number
}

/// The invariant of the store: every row's id is its position, a
/// (repository, number) pair has at most one row, and references point at
/// existing builds.
pub open spec fn db_wf(v: DbView) -> bool {
    &&& forall|i: int| 0 <= i < v.prs.len() ==> (#[trigger] v.prs[i]).id == i
    &&& forall|i: int, j: int|
        0 <= i < v.prs.len() && 0 <= j < v.prs.len() && i != j ==> !pr_has_key(
            #[trigger] v.prs[i],
            (#[trigger] v.prs[j]).repository,
            v.prs[j].number,
        )
    &&& forall|i: int|
        0 <= i < v.prs.len() && (#[trigger] v.prs[i]).try_build is Some
            ==> v.prs[i].try_build->0 < v.builds.len()
    &&& forall|i: int| 0 <= i < v.builds.len() ==> (#[trigger] v.builds[i]).id == i
    &&& forall|i: int|
        0 <= i < v.workflows.len() ==> (#[trigger] v.workflows[i]).id == i
            && v.workflows[i].build < v.builds.len()
}

/// The position of the row with the given key, if there is one.
pub open spec fn pr_index(prs: Seq<PrView>, repo: RepoView, number: PullRequestNumber) -> Option<
    int,
> {
    if exists|i: int| 0 <= i < prs.len() && pr_has_key(#[trigger] prs[i], repo, number) {
        Some(choose|i: int| 0 <= i < prs.len() && pr_has_key(#[trigger] prs[i], repo, number))
    } else {
        None
    }
}

/// Under the invariant, a row with the key is the one that `pr_index` finds.
pub proof fn lemma_pr_index_unique(v: DbView, repo: RepoView, number: PullRequestNumber, i: int)
    requires
        db_wf(v),
        0 <= i < v.prs.len(),
        pr_has_key(v.prs[i], repo, number),
    ensures
        pr_index(v.prs, repo, number) == Some(i),
{
    let k = choose|k: int| 0 <= k < v.prs.len() && pr_has_key(#[trigger] v.prs[k], repo, number);
    if k != i {
        assert(!pr_has_key(v.prs[k], v.prs[i].repository, v.prs[i].number));
    }
}

/// A fresh pull-request row: unapproved, with no try build.
pub open spec fn new_pr_row(
    id: int,
    repo: RepoView,
    number: PullRequestNumber,
    base: Seq<char>,
    state: MergeableState,
) -> PrView {
    PrView {
        id: id as u64,
        repository: repo,
        number,
        base_branch: base,
        mergeable_state: state,
        approved_by: None,
        try_build: None,
    }
}

/// Get-or-create: the row with the key gets the given base branch and
/// mergeable state; where there is none, a fresh row is appended.
pub open spec fn upsert_pr(
    v: DbView,
    repo: RepoView,
    number: PullRequestNumber,
    base: Seq<char>,
    state: MergeableState,
) -> DbView {
    match pr_index(v.prs, repo, number) {
        Some(i) => DbView {
            prs: v.prs.update(i, PrView { base_branch: base, mergeable_state: state, ..v.prs[i] }),
            ..v
        },
        None => DbView { prs: v.prs.push(new_pr_row(v.prs.len() as int, repo, number, base, state)), ..v },
    }
}

/// Creation on open: a fresh row where the key has none, else no change.
pub open spec fn insert_pr(v: DbView, repo: RepoView, number: PullRequestNumber, base: Seq<char>) -> DbView {
    match pr_index(v.prs, repo, number) {
        Some(i) => v,
        None => DbView {
            prs: v.prs.push(new_pr_row(v.prs.len() as int, repo, number, base, MergeableState::Unknown)),
            ..v
        },
    }
}

/// Sets the approval of the row with the given id; no change for an unknown id.
pub open spec fn set_approval(v: DbView, id: PrimaryKey, approver: Option<Seq<char>>) -> DbView {
    if id < v.prs.len() {
        DbView { prs: v.prs.update(id as int, PrView { approved_by: approver, ..v.prs[id as int] }), ..v }
    } else {
        v
    }
}

/// Whether a pull-request row is in the repository and targets the branch.
pub open spec fn pr_on_base(p: PrView, repo: RepoView, branch: Seq<char>) -> bool {
    p.repository == repo && p.base_branch == branch
}

/// Bulk reset: every row of the repository whose base branch is `branch`
/// gets `state`; every other row is kept.
pub open spec fn reset_mergeable(v: DbView, repo: RepoView, branch: Seq<char>, state: MergeableState) -> DbView {
    DbView {
        prs: Seq::new(
            v.prs.len(),
            |i: int|
                if pr_on_base(v.prs[i], repo, branch) {
                    PrView { mergeable_state: state, ..v.prs[i] }
                } else {
                    v.prs[i]
                },
        ),
        ..v
    }
}

/// The number of rows of the repository whose base branch is `branch`.
pub open spec fn count_on_base(prs: Seq<PrView>, repo: RepoView, branch: Seq<char>) -> nat
    decreases prs.len(),
{
    if prs.len() == 0 {
        0
    } else {
        count_on_base(prs.drop_last(), repo, branch) + if pr_on_base(prs.last(), repo, branch) {
            1nat
        } else {
            0nat
        }
    }
}

/// Attaching a try build: a pending build row for the pull request's
/// repository is appended, and the pull request refers to it.
pub open spec fn attach_build(
    v: DbView,
    pr_id: PrimaryKey,
    branch: Seq<char>,
    commit_sha: Seq<char>,
    parent: Seq<char>,
) -> DbView {
    let b = v.builds.len();
    DbView {
        prs: v.prs.update(pr_id as int, PrView { try_build: Some(b as u64), ..v.prs[pr_id as int] }),
        builds: v.builds.push(
            BuildView {
                id: b as u64,
                repository: v.prs[pr_id as int].repository,
                branch,
                commit_sha,
                status: BuildStatus::Pending,
                parent,
            },
        ),
        ..v
    }
}

/// Whether a build row has the given repository, branch and commit.
pub open spec fn build_matches(b: BuildView, repo: RepoView, branch: Seq<char>, commit_sha: Seq<char>) -> bool {
    b.repository == repo && b.branch == branch && b.commit_sha == commit_sha
}

/// The first position at or after `from` of a build with the given
/// repository, branch and commit.
pub open spec fn build_index(
    builds: Seq<BuildView>,
    repo: RepoView,
    branch: Seq<char>,
    commit_sha: Seq<char>,
    from: int,
) -> Option<int>
    decreases builds.len() - from,
{
    if from < 0 || from >= builds.len() {
        None
    } else if build_matches(builds[from], repo, branch, commit_sha) {
        Some(from)
    } else {
        build_index(builds, repo, branch, commit_sha, from + 1)
    }
}

/// A position that `build_index` returns holds a matching build.
pub proof fn lemma_build_index(
    builds: Seq<BuildView>,
    repo: RepoView,
    branch: Seq<char>,
    commit_sha: Seq<char>,
    from: int,
)
    ensures
        build_index(builds, repo, branch, commit_sha, from) matches Some(i) ==> from <= i < builds.len()
            && build_matches(builds[i], repo, branch, commit_sha),
    decreases builds.len() - from,
{
    if from >= 0 && from < builds.len() && !build_matches(builds[from], repo, branch, commit_sha) {
        lemma_build_index(builds, repo, branch, commit_sha, from + 1);
    }
}

/// Whether a build row belongs to the repository and is not finished.
pub open spec fn build_running(b: BuildView, repo: RepoView) -> bool {
    b.repository == repo && b.status == BuildStatus::Pending
}

/// The status of the build with the given id becomes `status`.
pub open spec fn set_build_status(v: DbView, id: PrimaryKey, status: BuildStatus) -> DbView {
    DbView { builds: v.builds.update(id as int, BuildView { status, ..v.builds[id as int] }), ..v }
}

/// A workflow row for a run: a pending row takes the new status, a finished
/// row keeps its own.
pub open spec fn workflow_step(w: WorkflowView, run_id: u64, status: WorkflowStatus) -> WorkflowView {
    if w.run_id == run_id && w.status == WorkflowStatus::Pending {
        WorkflowView { status, ..w }
    } else {
        w
    }
}

/// Status update by run id, applied to every workflow row.
pub open spec fn update_workflows(v: DbView, run_id: u64, status: WorkflowStatus) -> DbView {
    DbView {
        workflows: Seq::new(v.workflows.len(), |i: int| workflow_step(v.workflows[i], run_id, status)),
        ..v
    }
}

/// A new workflow row appended for the build.
pub open spec fn add_workflow(
    v: DbView,
    build: PrimaryKey,
    name: Seq<char>,
    url: Seq<char>,
    run_id: u64,
    workflow_type: WorkflowType,
    status: WorkflowStatus,
) -> DbView {
    DbView {
        workflows: v.workflows.push(
            WorkflowView { id: v.workflows.len() as u64, build, name, url, run_id, workflow_type, status },
        ),
        ..v
    }
}

/// An in-memory store of pull requests, builds and workflows.
pub struct MemoryDbClient {
    prs: Vec<PullRequestModel>,
    builds: Vec<BuildModel>,
    workflows: Vec<WorkflowModel>,
}

impl View for MemoryDbClient {
    type V = DbView;

    closed spec fn view(&self) -> DbView {
        DbView {
            prs: self.prs@.map_values(|p: PullRequestModel| p@),
            builds: self.builds@.map_values(|b: BuildModel| b@),
            workflows: self.workflows@.map_values(|w: WorkflowModel| w@),
        }
    }
}

/// The operations on stored pull requests, builds and workflows that the
/// handlers rely on, stated over the abstract content of the store.
pub trait DbClient: Sized {
    /// The abstract content of the store.
    spec fn db_view(&self) -> DbView;

    /// Looks a pull request up by repository and number.
    fn get_pull_request(&self, repo: &GithubRepoName, number: PullRequestNumber) -> (r: Option<
        PullRequestModel,
    >)
        requires
            db_wf(self.db_view()),
        ensures
            match pr_index(self.db_view().prs, repo@, number) {
                Some(i) => r matches Some(p) && p@ == self.db_view().prs[i],
                None => r is None,
            },
    ;

    /// Finds the row of a pull request, creating it if absent; an existing
    /// row gets the given base branch and mergeable state, a new one is
    /// unapproved and has no try build. Returns the row as stored.
    fn get_or_create_pull_request(
        &mut self,
        repo: &GithubRepoName,
        number: PullRequestNumber,
        base_branch: &str,
        mergeable_state: MergeableState,
    ) -> (r: PullRequestModel)
        requires
            db_wf(old(self).db_view()),
        ensures
            db_wf(final(self).db_view()),
            final(self).db_view() == upsert_pr(old(self).db_view(), repo@, number, base_branch@, mergeable_state),
            pr_index(final(self).db_view().prs, repo@, number) matches Some(i) && r@ == final(self).db_view().prs[i],
    ;

    /// Stores a newly opened pull request with its base branch and an unknown
    /// mergeable state; a pull request that already has a row is left as it is.
    fn create_pull_request(
        &mut self,
        repo: &GithubRepoName,
        number: PullRequestNumber,
        base_branch: &str,
    )
        requires
            db_wf(old(self).db_view()),
        ensures
            db_wf(final(self).db_view()),
            final(self).db_view() == insert_pr(old(self).db_view(), repo@, number, base_branch@),
    ;

    /// Records `approver` as the approver of the pull request; a later
    /// approval replaces an earlier approver. No change for an unknown row.
    fn approve(&mut self, pr: &PullRequestModel, approver: &str)
        requires
            db_wf(old(self).db_view()),
        ensures
            db_wf(final(self).db_view()),
            final(self).db_view() == set_approval(old(self).db_view(), pr.id, Some(approver@)),
    ;

    /// Clears the approval of the pull request. No change for an unknown row.
    fn unapprove(&mut self, pr: &PullRequestModel)
        requires
            db_wf(old(self).db_view()),
        ensures
            db_wf(final(self).db_view()),
            final(self).db_view() == set_approval(old(self).db_view(), pr.id, None),
    ;

    /// Sets the mergeable state of every pull request of the repository whose
    /// base branch is `branch`; returns how many rows that was.
    fn update_mergeable_states_by_base_branch(
        &mut self,
        repo: &GithubRepoName,
        branch: &str,
        state: MergeableState,
    ) -> (r: usize)
        requires
            db_wf(old(self).db_view()),
        ensures
            db_wf(final(self).db_view()),
            final(self).db_view() == reset_mergeable(old(self).db_view(), repo@, branch@, state),
            r == count_on_base(old(self).db_view().prs, repo@, branch@),
    ;

    /// Creates a pending build for the pull request and attaches it as the
    /// pull request's try build, in one step.
    fn attach_try_build(
        &mut self,
        pr: &PullRequestModel,
        branch: &str,
        commit_sha: &str,
        parent: &str,
    ) -> (r: Result<(), DbError>)
        requires
            db_wf(old(self).db_view()),
        ensures
            db_wf(final(self).db_view()),
            pr.id >= old(self).db_view().prs.len() ==> r == Err::<(), DbError>(DbError::PullRequestNotFound)
                && final(self).db_view() == old(self).db_view(),
            pr.id < old(self).db_view().prs.len() ==> r is Ok && final(self).db_view() == attach_build(
                old(self).db_view(),
                pr.id,
                branch@,
                commit_sha@,
                parent@,
            ),
    ;

    /// Finds the first build of the repository with the given branch and commit.
    fn find_build(&self, repo: &GithubRepoName, branch: &str, commit_sha: &str) -> (r: Option<BuildModel>)
        ensures
            match build_index(self.db_view().builds, repo@, branch@, commit_sha@, 0) {
                Some(i) => r matches Some(b) && b@ == self.db_view().builds[i],
                None => r is None,
            },
    ;

    /// Returns every build of the repository that has not finished yet, in
    /// creation order.
    fn get_running_builds(&self, repo: &GithubRepoName) -> (r: Vec<BuildModel>)
        ensures
            r@.map_values(|b: BuildModel| b@) == self.db_view().builds.filter(|b: BuildView| build_running(b, repo@)),
    ;

    /// Sets the status of a build. A pending build takes any status; a
    /// finished build only accepts its own status again.
    fn update_build_status(&mut self, build: &BuildModel, status: BuildStatus) -> (r: Result<(), DbError>)
        requires
            db_wf(old(self).db_view()),
        ensures
            db_wf(final(self).db_view()),
            build.id >= old(self).db_view().builds.len() ==> r == Err::<(), DbError>(DbError::BuildNotFound)
                && final(self).db_view() == old(self).db_view(),
            build.id < old(self).db_view().builds.len() && !build_transition_allowed(old(self).db_view().builds[build.id as int].status, status)
                ==> r == Err::<(), DbError>(DbError::InvalidTransition) && final(self).db_view() == old(self).db_view(),
            build.id < old(self).db_view().builds.len() && build_transition_allowed(old(self).db_view().builds[build.id as int].status, status)
                ==> r is Ok && final(self).db_view() == set_build_status(old(self).db_view(), build.id, status),
    ;

    /// Creates a new workflow row attached to a build.
    fn create_workflow(
        &mut self,
        build: &BuildModel,
        name: &str,
        url: &str,
        run_id: RunId,
        workflow_type: WorkflowType,
        status: WorkflowStatus,
    ) -> (r: Result<(), DbError>)
        requires
            db_wf(old(self).db_view()),
        ensures
            db_wf(final(self).db_view()),
            build.id >= old(self).db_view().builds.len() ==> r == Err::<(), DbError>(DbError::BuildNotFound)
                && final(self).db_view() == old(self).db_view(),
            build.id < old(self).db_view().builds.len() ==> r is Ok && final(self).db_view() == add_workflow(
                old(self).db_view(),
                build.id,
                name@,
                url@,
                run_id.0,
                workflow_type,
                status,
            ),
    ;

    /// Sets the status of every pending workflow row of the run. Rows that
    /// already finished keep their status; an unknown run id changes nothing.
    fn update_workflow_status(&mut self, run_id: u64, status: WorkflowStatus)
        requires
            db_wf(old(self).db_view()),
        ensures
            db_wf(final(self).db_view()),
            final(self).db_view() == update_workflows(old(self).db_view(), run_id, status),
    ;

    /// Returns every workflow row attached to the build, in creation order.
    fn get_workflows_for_build(&self, build: &BuildModel) -> (r: Vec<WorkflowModel>)
        ensures
            r@.map_values(|w: WorkflowModel| w@) == self.db_view().workflows.filter(|w: WorkflowView| w.build == build.id),
    ;

    /// Finds the first pull request whose try build is the given build.
    fn find_pr_by_build(&self, build: &BuildModel) -> (r: Option<PullRequestModel>)
        requires
            db_wf(self.db_view()),
        ensures
            r is None ==> forall|i: int|
                0 <= i < self.db_view().prs.len() ==> (#[trigger] self.db_view().prs[i]).try_build != Some(build.id),
            r matches Some(p) ==> p@.id < self.db_view().prs.len() && self.db_view().prs[p@.id as int] == p@
                && p@.try_build == Some(build.id)
                && forall|i: int| 0 <= i < p@.id ==> (#[trigger] self.db_view().prs[i]).try_build != Some(build.id),
    ;
}

impl MemoryDbClient {
    /// An empty store.
    pub fn new() -> (r: MemoryDbClient)
        ensures
            r@.prs.len() == 0,
            r@.builds.len() == 0,
            r@.workflows.len() == 0,
            db_wf(r@),
    {
        MemoryDbClient { prs: Vec::new(), builds: Vec::new(), workflows: Vec::new() }
    }

    /// The number of stored pull requests.
    pub fn pull_request_count(&self) -> (r: usize)
        ensures
            r == self@.prs.len(),
    {
        self.prs.len()
    }

    fn find_pr_position(&self, repo: &GithubRepoName, number: PullRequestNumber) -> (r: Option<usize>)
        requires
            db_wf(self@),
        ensures
            match r {
                Some(i) => pr_index(self@.prs, repo@, number) == Some(i as int) && i < self@.prs.len(),
                None => pr_index(self@.prs, repo@, number) is None,
            },
    {
        let mut i: usize = 0;
        while i < self.prs.len()
            invariant
                i <= self.prs.len(),
                db_wf(self@),
                self@.prs.len() == self.prs.len(),
                forall|j: int| 0 <= j < i ==> !pr_has_key(#[trigger] self@.prs[j], repo@, number),
            decreases self.prs.len() - i,
        {
            if self.prs[i].repository.same_as(repo) && self.prs[i].number == number {
                proof {
                    lemma_pr_index_unique(self@, repo@, number, i as int);
                }
                return Some(i);
            }
            i += 1;
        }
        None
    }

    fn set_approved_by(&mut self, id: PrimaryKey, approver: Option<String>)
        requires
            db_wf(old(self)@),
        ensures
            db_wf(final(self)@),
            final(self)@ == set_approval(old(self)@, id, opt_str_view(approver)),
    {
        let ghost v0 = self@;
        if id < self.prs.len() as u64 {
            let i = id as usize;
            let mut row = self.prs[i].duplicate();
            row.approved_by = approver;
            self.prs.set(i, row);
            proof {
                assert(self@.prs =~= v0.prs.update(
                    i as int,
                    PrView { approved_by: opt_str_view(approver), ..v0.prs[i as int] },
                ));
                assert(self@.builds =~= v0.builds);
                assert(self@.workflows =~= v0.workflows);
                assert forall|a: int, b: int|
                    0 <= a < self@.prs.len() && 0 <= b < self@.prs.len() && a != b implies !pr_has_key(
                    #[trigger] self@.prs[a],
                    (#[trigger] self@.prs[b]).repository,
                    self@.prs[b].number,
                ) by {
                    assert(!pr_has_key(v0.prs[a], v0.prs[b].repository, v0.prs[b].number));
                }
            }
        }
    }
}

impl DbClient for MemoryDbClient {
    open spec fn db_view(&self) -> DbView {
        self@
    }

    fn get_pull_request(&self, repo: &GithubRepoName, number: PullRequestNumber) -> (r: Option<PullRequestModel>) {
        match self.find_pr_position(repo, number) {
            Some(i) => Some(self.prs[i].duplicate()),
            None => None,
        }
    }

    fn get_or_create_pull_request(
        &mut self,
        repo: &GithubRepoName,
        number: PullRequestNumber,
        base_branch: &str,
        mergeable_state: MergeableState,
    ) -> (r: PullRequestModel) {
        let ghost v0 = self@;
        match self.find_pr_position(repo, number) {
            Some(i) => {
                let mut row = self.prs[i].duplicate();
                row.base_branch = String::from_str(base_branch);
                row.mergeable_state = mergeable_state;
                let r = row.duplicate();
                self.prs.set(i, row);
                proof {
                    assert(self@.prs =~= v0.prs.update(
                        i as int,
                        PrView { base_branch: base_branch@, mergeable_state, ..v0.prs[i as int] },
                    ));
                    assert(self@.builds =~= v0.builds);
                    assert(self@.workflows =~= v0.workflows);
                    assert forall|a: int, b: int|
                        0 <= a < self@.prs.len() && 0 <= b < self@.prs.len() && a != b implies !pr_has_key(
                        #[trigger] self@.prs[a],
                        (#[trigger] self@.prs[b]).repository,
                        self@.prs[b].number,
                    ) by {
                        assert(!pr_has_key(v0.prs[a], v0.prs[b].repository, v0.prs[b].number));
                    }
                    lemma_pr_index_unique(self@, repo@, number, i as int);
                }
                r
            },
            None => {
                let id = self.prs.len() as u64;
                let row = PullRequestModel {
                    id,
                    repository: repo.duplicate(),
                    number,
                    base_branch: String::from_str(base_branch),
                    mergeable_state,
                    approved_by: None,
                    try_build: None,
                    created_at: now_timestamp(),
                };
                let r = row.duplicate();
                self.prs.push(row);
                proof {
                    assert(self@.prs =~= v0.prs.push(
                        new_pr_row(v0.prs.len() as int, repo@, number, base_branch@, mergeable_state),
                    ));
                    assert(self@.builds =~= v0.builds);
                    assert(self@.workflows =~= v0.workflows);
                    assert forall|a: int, b: int|
                        0 <= a < self@.prs.len() && 0 <= b < self@.prs.len() && a != b implies !pr_has_key(
                        #[trigger] self@.prs[a],
                        (#[trigger] self@.prs[b]).repository,
                        self@.prs[b].number,
                    ) by {
                        if a < v0.prs.len() && b < v0.prs.len() {
                            assert(!pr_has_key(v0.prs[a], v0.prs[b].repository, v0.prs[b].number));
                        } else if a < v0.prs.len() {
                            assert(!pr_has_key(v0.prs[a], repo@, number));
                        } else {
                            assert(!pr_has_key(v0.prs[b], repo@, number));
                        }
                    }
                    lemma_pr_index_unique(self@, repo@, number, v0.prs.len() as int);
                }
                r
            },
        }
    }

    fn create_pull_request(
        &mut self,
        repo: &GithubRepoName,
        number: PullRequestNumber,
        base_branch: &str,
    ) {
        if self.find_pr_position(repo, number).is_none() {
            self.get_or_create_pull_request(repo, number, base_branch, MergeableState::Unknown);
        }
    }

    fn approve(&mut self, pr: &PullRequestModel, approver: &str) {
        self.set_approved_by(pr.id, Some(String::from_str(approver)));
    }

    fn unapprove(&mut self, pr: &PullRequestModel) {
        self.set_approved_by(pr.id, None);
    }

    fn update_mergeable_states_by_base_branch(
        &mut self,
        repo: &GithubRepoName,
        branch: &str,
        state: MergeableState,
    ) -> (r: usize) {
        let ghost v0 = self@;
        let target = String::from_str(branch);
        let mut count: usize = 0;
        let mut i: usize = 0;
        while i < self.prs.len()
            invariant
                i <= self.prs.len(),
                self.prs.len() == v0.prs.len(),
                self@.builds == v0.builds,
                self@.workflows == v0.workflows,
                target@ == branch@,
                count <= i,
                count == count_on_base(v0.prs.subrange(0, i as int), repo@, branch@),
                forall|j: int| 0 <= j < i ==> #[trigger] self@.prs[j] == reset_mergeable(v0, repo@, branch@, state).prs[j],
                forall|j: int| i <= j < self.prs.len() ==> #[trigger] self@.prs[j] == v0.prs[j],
            decreases self.prs.len() - i,
        {
            let ghost before = self@;
            proof {
                assert(v0.prs.subrange(0, i as int + 1).drop_last() =~= v0.prs.subrange(0, i as int));
            }
            if self.prs[i].repository.same_as(repo) && self.prs[i].base_branch == target {
                let mut row = self.prs[i].duplicate();
                row.mergeable_state = state;
                self.prs.set(i, row);
                count += 1;
                proof {
                    assert(self@.prs =~= before.prs.update(i as int, PrView { mergeable_state: state, ..before.prs[i as int] }));
                    assert(self@.builds =~= before.builds);
                    assert(self@.workflows =~= before.workflows);
                }
            }
            i += 1;
        }
        proof {
            assert(self@.prs =~= reset_mergeable(v0, repo@, branch@, state).prs);
            assert(v0.prs.subrange(0, v0.prs.len() as int) =~= v0.prs);
            assert forall|a: int, b: int|
                0 <= a < self@.prs.len() && 0 <= b < self@.prs.len() && a != b implies !pr_has_key(
                #[trigger] self@.prs[a],
                (#[trigger] self@.prs[b]).repository,
                self@.prs[b].number,
            ) by {
                assert(!pr_has_key(v0.prs[a], v0.prs[b].repository, v0.prs[b].number));
            }
            assert forall|a: int| 0 <= a < self@.prs.len() && (#[trigger] self@.prs[a]).try_build is Some
                implies self@.prs[a].try_build->0 < self@.builds.len() by {
                assert(v0.prs[a].try_build == self@.prs[a].try_build);
            }
            assert forall|a: int| 0 <= a < self@.prs.len() implies (#[trigger] self@.prs[a]).id == a by {
                assert(v0.prs[a].id == self@.prs[a].id);
            }
        }
        count
    }

    fn attach_try_build(
        &mut self,
        pr: &PullRequestModel,
        branch: &str,
        commit_sha: &str,
        parent: &str,
    ) -> (r: Result<(), DbError>) {
        let ghost v0 = self@;
        if pr.id >= self.prs.len() as u64 {
            return Err(DbError::PullRequestNotFound);
        }
        let i = pr.id as usize;
        let build_id = self.builds.len() as u64;
        let build = BuildModel {
            id: build_id,
            repository: self.prs[i].repository.duplicate(),
            branch: String::from_str(branch),
            commit_sha: String::from_str(commit_sha),
            status: BuildStatus::Pending,
            parent: String::from_str(parent),
            created_at: now_timestamp(),
        };
        self.builds.push(build);
        let mut row = self.prs[i].duplicate();
        row.try_build = Some(build_id);
        self.prs.set(i, row);
        proof {
            let v1 = attach_build(v0, pr.id, branch@, commit_sha@, parent@);
            assert(self@.prs =~= v1.prs);
            assert(self@.builds =~= v1.builds);
            assert(self@.workflows =~= v1.workflows);
            assert forall|a: int, b: int|
                0 <= a < self@.prs.len() && 0 <= b < self@.prs.len() && a != b implies !pr_has_key(
                #[trigger] self@.prs[a],
                (#[trigger] self@.prs[b]).repository,
                self@.prs[b].number,
            ) by {
                assert(!pr_has_key(v0.prs[a], v0.prs[b].repository, v0.prs[b].number));
            }
            assert forall|a: int| 0 <= a < self@.prs.len() && (#[trigger] self@.prs[a]).try_build is Some
                implies self@.prs[a].try_build->0 < self@.builds.len() by {
                if a != i {
                    assert(v0.prs[a].try_build == self@.prs[a].try_build);
                }
            }
        }
        Ok(())
    }

    fn find_build(&self, repo: &GithubRepoName, branch: &str, commit_sha: &str) -> (r: Option<BuildModel>) {
        let br = String::from_str(branch);
        let sha = String::from_str(commit_sha);
        let mut i: usize = 0;
        while i < self.builds.len()
            invariant
                i <= self.builds.len(),
                self@.builds.len() == self.builds.len(),
                br@ == branch@,
                sha@ == commit_sha@,
                build_index(self@.builds, repo@, branch@, commit_sha@, 0) == build_index(
                    self@.builds,
                    repo@,
                    branch@,
                    commit_sha@,
                    i as int,
                ),
            decreases self.builds.len() - i,
        {
            if self.builds[i].repository.same_as(repo) && self.builds[i].branch == br
                && self.builds[i].commit_sha == sha {
                return Some(self.builds[i].duplicate());
            }
            i += 1;
        }
        None
    }

    fn get_running_builds(&self, repo: &GithubRepoName) -> (r: Vec<BuildModel>) {
        let ghost pred = |b: BuildView| build_running(b, repo@);
        let mut out: Vec<BuildModel> = Vec::new();
        let mut i: usize = 0;
        while i < self.builds.len()
            invariant
                i <= self.builds.len(),
                self@.builds.len() == self.builds.len(),
                pred == (|b: BuildView| build_running(b, repo@)),
                out@.map_values(|b: BuildModel| b@) == self@.builds.subrange(0, i as int).filter(pred),
            decreases self.builds.len() - i,
        {
            let ghost before = out@.map_values(|b: BuildModel| b@);
            proof {
                assert(self@.builds.subrange(0, i as int + 1) =~= self@.builds.subrange(0, i as int).push(self@.builds[i as int]));
                self@.builds.subrange(0, i as int).lemma_filter_push(self@.builds[i as int], pred);
            }
            if self.builds[i].repository.same_as(repo) && self.builds[i].status == BuildStatus::Pending {
                out.push(self.builds[i].duplicate());
                assert(out@.map_values(|b: BuildModel| b@) =~= before.push(self@.builds[i as int]));
                assert(pred(self@.builds[i as int]));
            } else {
                assert(!pred(self@.builds[i as int]));
            }
            i += 1;
        }
        assert(self@.builds.subrange(0, self@.builds.len() as int) =~= self@.builds);
        out
    }

    fn update_build_status(&mut self, build: &BuildModel, status: BuildStatus) -> (r: Result<(), DbError>) {
        let ghost v0 = self@;
        if build.id >= self.builds.len() as u64 {
            return Err(DbError::BuildNotFound);
        }
        let i = build.id as usize;
        if !self.builds[i].status.can_transition_to(status) {
            return Err(DbError::InvalidTransition);
        }
        let mut row = self.builds[i].duplicate();
        row.status = status;
        self.builds.set(i, row);
        proof {
            let v1 = set_build_status(v0, build.id, status);
            assert(self@.prs =~= v1.prs);
            assert(self@.builds =~= v1.builds);
            assert(self@.workflows =~= v1.workflows);
        }
        Ok(())
    }

    fn create_workflow(
        &mut self,
        build: &BuildModel,
        name: &str,
        url: &str,
        run_id: RunId,
        workflow_type: WorkflowType,
        status: WorkflowStatus,
    ) -> (r: Result<(), DbError>) {
        let ghost v0 = self@;
        if build.id >= self.builds.len() as u64 {
            return Err(DbError::BuildNotFound);
        }
        let row = WorkflowModel {
            id: self.workflows.len() as u64,
            build: build.id,
            name: String::from_str(name),
            url: String::from_str(url),
            run_id,
            workflow_type,
            status,
            created_at: now_timestamp(),
        };
        self.workflows.push(row);
        proof {
            let v1 = add_workflow(v0, build.id, name@, url@, run_id.0, workflow_type, status);
            assert(self@.prs =~= v1.prs);
            assert(self@.builds =~= v1.builds);
            assert(self@.workflows =~= v1.workflows);
        }
        Ok(())
    }

    fn update_workflow_status(&mut self, run_id: u64, status: WorkflowStatus) {
        let ghost v0 = self@;
        let mut i: usize = 0;
        while i < self.workflows.len()
            invariant
                i <= self.workflows.len(),
                self.workflows.len() == v0.workflows.len(),
                self@.prs == v0.prs,
                self@.builds == v0.builds,
                forall|j: int| 0 <= j < i ==> #[trigger] self@.workflows[j] == workflow_step(v0.workflows[j], run_id, status),
                forall|j: int| i <= j < self.workflows.len() ==> #[trigger] self@.workflows[j] == v0.workflows[j],
            decreases self.workflows.len() - i,
        {
            let ghost before = self@;
            if self.workflows[i].run_id.0 == run_id && self.workflows[i].status == WorkflowStatus::Pending {
                let mut row = self.workflows[i].duplicate();
                row.status = status;
                self.workflows.set(i, row);
                proof {
                    assert(self@.workflows =~= before.workflows.update(i as int, WorkflowView { status, ..before.workflows[i as int] }));
                    assert(self@.prs =~= before.prs);
                    assert(self@.builds =~= before.builds);
                }
            }
            i += 1;
        }
        proof {
            assert(self@.workflows =~= update_workflows(v0, run_id, status).workflows);
        }
    }

    fn get_workflows_for_build(&self, build: &BuildModel) -> (r: Vec<WorkflowModel>) {
        let ghost pred = |w: WorkflowView| w.build == build.id;
        let mut out: Vec<WorkflowModel> = Vec::new();
        let mut i: usize = 0;
        while i < self.workflows.len()
            invariant
                i <= self.workflows.len(),
                self@.workflows.len() == self.workflows.len(),
                pred == (|w: WorkflowView| w.build == build.id),
                out@.map_values(|w: WorkflowModel| w@) == self@.workflows.subrange(0, i as int).filter(pred),
            decreases self.workflows.len() - i,
        {
            let ghost before = out@.map_values(|w: WorkflowModel| w@);
            proof {
                assert(self@.workflows.subrange(0, i as int + 1) =~= self@.workflows.subrange(0, i as int).push(self@.workflows[i as int]));
                self@.workflows.subrange(0, i as int).lemma_filter_push(self@.workflows[i as int], pred);
            }
            if self.workflows[i].build == build.id {
                out.push(self.workflows[i].duplicate());
                assert(out@.map_values(|w: WorkflowModel| w@) =~= before.push(self@.workflows[i as int]));
                assert(pred(self@.workflows[i as int]));
            } else {
                assert(!pred(self@.workflows[i as int]));
            }
            i += 1;
        }
        assert(self@.workflows.subrange(0, self@.workflows.len() as int) =~= self@.workflows);
        out
    }

    fn find_pr_by_build(&self, build: &BuildModel) -> (r: Option<PullRequestModel>) {
        let mut i: usize = 0;
        while i < self.prs.len()
            invariant
                i <= self.prs.len(),
                db_wf(self@),
                self@.prs.len() == self.prs.len(),
                forall|j: int| 0 <= j < i ==> (#[trigger] self@.prs[j]).try_build != Some(build.id),
            decreases self.prs.len() - i,
        {
            if self.prs[i].try_build == Some(build.id) {
                let p = self.prs[i].duplicate();
                assert(self@.prs[i as int].id == i);
                return Some(p);
            }
            i += 1;
        }
        None
    }

}

} // verus!
