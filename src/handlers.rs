//! Event types, outbound actions, and the handlers that decide, from the
//! stored state and one event, what changes in the store and which actions
//! go out to the platform.
use crate::command::{parsed_command, parse_command, BorsCommand};
use crate::database::{
    attach_build, build_index, db_wf, lemma_build_index, insert_pr, pr_index, reset_mergeable, set_approval,
    set_build_status, update_workflows, upsert_pr, DbError, DbView, GithubRepoName,
    DbClient, RepoView,
};
use crate::model::{
    build_transition_allowed, BuildStatus, LabelTrigger, MergeableState, PullRequestNumber,
    RunId, WorkflowStatus,
};
use vstd::prelude::*;

verus! {

/// A pull request as the platform describes it in an event.
#[derive(Clone, Debug)]
pub struct PullRequest {
    pub number: PullRequestNumber,
    pub base_branch: String,
    pub head_sha: String,
    pub mergeable_state: MergeableState,
}

/// A comment was posted on a pull request.
#[derive(Clone, Debug)]
pub struct PullRequestComment {
    pub repository: GithubRepoName,
    pub pull_request: PullRequest,
    pub author: String,
    pub text: String,
}

/// A pull request was edited; `from_base_sha` is set when its base branch changed.
#[derive(Clone, Debug)]
pub struct PullRequestEdited {
    pub repository: GithubRepoName,
    pub pull_request: PullRequest,
    pub from_base_sha: Option<String>,
}

/// A new commit was pushed to the head of a pull request.
#[derive(Clone, Debug)]
pub struct PullRequestPushed {
    pub repository: GithubRepoName,
    pub pull_request: PullRequest,
}

/// A pull request was opened.
#[derive(Clone, Debug)]
pub struct PullRequestOpened {
    pub repository: GithubRepoName,
    pub pull_request: PullRequest,
}

/// A commit was pushed to a branch of the repository.
#[derive(Clone, Debug)]
pub struct PushToBranch {
    pub repository: GithubRepoName,
    pub branch: String,
}

/// A CI workflow run changed its status.
#[derive(Clone, Debug)]
pub struct WorkflowStatusChanged {
    pub run_id: RunId,
    pub status: WorkflowStatus,
}

/// The platform created the merge commit of a requested try build.
#[derive(Clone, Debug)]
pub struct TryBuildStarted {
    pub repository: GithubRepoName,
    pub pull_request: PullRequest,
    pub branch: String,
    pub merge_sha: String,
    pub parent_sha: String,
}

/// CI reported the outcome of a build.
#[derive(Clone, Debug)]
pub struct BuildCompleted {
    pub repository: GithubRepoName,
    pub branch: String,
    pub commit_sha: String,
    pub status: BuildStatus,
}

/// An event delivered to the bot.
#[derive(Clone, Debug)]
pub enum BorsEvent {
    Comment(PullRequestComment),
    PullRequestEdited(PullRequestEdited),
    PullRequestPushed(PullRequestPushed),
    PullRequestOpened(PullRequestOpened),
    PushToBranch(PushToBranch),
    WorkflowStatusChanged(WorkflowStatusChanged),
    TryBuildStarted(TryBuildStarted),
    BuildCompleted(BuildCompleted),
}

/// Work that a handler hands to the platform.
#[derive(Clone, Debug)]
pub enum Action {
    /// Post a comment on a pull request.
    PostComment { repository: GithubRepoName, pr_number: PullRequestNumber, text: String },
    /// Apply the label transition of a trigger to a pull request.
    ApplyLabels { repository: GithubRepoName, pr_number: PullRequestNumber, trigger: LabelTrigger },
    /// Create the merge commit of a try build for a pull request.
    StartTryBuild { repository: GithubRepoName, pr_number: PullRequestNumber },
}

/// What an action says, with text as character sequences.
pub enum ActionView {
    PostComment { repository: RepoView, pr_number: PullRequestNumber, text: Seq<char> },
    ApplyLabels { repository: RepoView, pr_number: PullRequestNumber, trigger: LabelTrigger },
    StartTryBuild { repository: RepoView, pr_number: PullRequestNumber },
}

impl View for Action {
    type V = ActionView;

    open spec fn view(&self) -> ActionView {
        match self {
            Action::PostComment { repository, pr_number, text } => ActionView::PostComment {
                repository: repository@,
                pr_number: *pr_number,
                text: text@,
            },
            Action::ApplyLabels { repository, pr_number, trigger } => ActionView::ApplyLabels {
                repository: repository@,
                pr_number: *pr_number,
                trigger: *trigger,
            },
            Action::StartTryBuild { repository, pr_number } => ActionView::StartTryBuild {
                repository: repository@,
                pr_number: *pr_number,
            },
        }
    }
}

/// The views of a list of actions.
pub open spec fn actions_view(a: Seq<Action>) -> Seq<ActionView> {
    a.map_values(|x: Action| x@)
}

/// The bot's answer to `ping`.
pub open spec fn pong_message() -> Seq<char> {
    "Pong \u{1F3D3}!"@
}

/// The warning posted when an approved pull request changes its base branch.
pub open spec fn edited_message(base: Seq<char>) -> Seq<char> {
    ":warning: The base branch changed to `"@ + base + "`, and the\nPR will need to be re-approved."@
}

/// The warning posted when a commit is pushed to an approved pull request.
pub open spec fn pushed_message(sha: Seq<char>) -> Seq<char> {
    ":warning: A new commit `"@ + sha + "` was pushed to the branch, the\nPR will need to be re-approved."@
}

/// The acknowledgement of an approval.
pub open spec fn approved_message(sha: Seq<char>, approver: Seq<char>) -> Seq<char> {
    ":pushpin: Commit "@ + sha + " has been approved by `"@ + approver + "`"@
}

/// The note posted when a try build starts.
pub open spec fn try_started_message(head: Seq<char>, merge: Seq<char>) -> Seq<char> {
    ":hourglass: Trying commit "@ + head + " with merge "@ + merge + "..."@
}

/// The store after the pull request of an event is fetched or created, with
/// its base branch and mergeable state refreshed.
pub open spec fn touch_pr(v: DbView, repo: RepoView, pr: PullRequest) -> DbView {
    upsert_pr(v, repo, pr.number, pr.base_branch@, pr.mergeable_state)
}

/// The row of a pull request in a store where it exists.
pub open spec fn pr_row_id(v: DbView, repo: RepoView, number: PullRequestNumber) -> u64 {
    v.prs[pr_index(v.prs, repo, number)->0].id
}

/// Whether the stored pull request is approved.
pub open spec fn pr_is_approved(v: DbView, repo: RepoView, number: PullRequestNumber) -> bool {
    v.prs[pr_index(v.prs, repo, number)->0].approved_by is Some
}

/// The result of a handler: the new store and the actions, or an error.
pub type Outcome = (DbView, Result<Seq<ActionView>, DbError>);

/// Edited pull request: refresh its row; if the base branch changed and it
/// was approved, clear the approval, flip its labels and post a warning.
pub open spec fn on_pr_edited(v: DbView, e: PullRequestEdited) -> Outcome {
    let repo = e.repository@;
    let n = e.pull_request.number;
    let v1 = touch_pr(v, repo, e.pull_request);
    if e.from_base_sha is Some && pr_is_approved(v1, repo, n) {
        (
            set_approval(v1, pr_row_id(v1, repo, n), None),
            Ok(
                seq![
                    ActionView::ApplyLabels { repository: repo, pr_number: n, trigger: LabelTrigger::Unapproved },
                    ActionView::PostComment {
                        repository: repo,
                        pr_number: n,
                        text: edited_message(e.pull_request.base_branch@),
                    },
                ],
            ),
        )
    } else {
        (v1, Ok(Seq::empty()))
    }
}

/// Push to a pull request: refresh its row; if it was approved, clear the
/// approval, flip its labels and post a warning naming the new head.
pub open spec fn on_pr_pushed(v: DbView, e: PullRequestPushed) -> Outcome {
    let repo = e.repository@;
    let n = e.pull_request.number;
    let v1 = touch_pr(v, repo, e.pull_request);
    if pr_is_approved(v1, repo, n) {
        (
            set_approval(v1, pr_row_id(v1, repo, n), None),
            Ok(
                seq![
                    ActionView::ApplyLabels { repository: repo, pr_number: n, trigger: LabelTrigger::Unapproved },
                    ActionView::PostComment {
                        repository: repo,
                        pr_number: n,
                        text: pushed_message(e.pull_request.head_sha@),
                    },
                ],
            ),
        )
    } else {
        (v1, Ok(Seq::empty()))
    }
}

/// Opened pull request: store it with its base branch.
pub open spec fn on_pr_opened(v: DbView, e: PullRequestOpened) -> Outcome {
    (insert_pr(v, e.repository@, e.pull_request.number, e.pull_request.base_branch@), Ok(Seq::empty()))
}

/// Push to a branch: every pull request of the repository based on it has
/// an unknown mergeable state again.
pub open spec fn on_push_to_branch(v: DbView, e: PushToBranch) -> Outcome {
    (reset_mergeable(v, e.repository@, e.branch@, MergeableState::Unknown), Ok(Seq::empty()))
}

/// Workflow status change: pending rows of the run take the new status.
pub open spec fn on_workflow_status_changed(v: DbView, e: WorkflowStatusChanged) -> Outcome {
    (update_workflows(v, e.run_id.0, e.status), Ok(Seq::empty()))
}

/// Try build started: attach a pending build to the pull request and say so.
pub open spec fn on_try_build_started(v: DbView, e: TryBuildStarted) -> Outcome {
    let repo = e.repository@;
    let n = e.pull_request.number;
    let v1 = touch_pr(v, repo, e.pull_request);
    (
        attach_build(v1, pr_row_id(v1, repo, n), e.branch@, e.merge_sha@, e.parent_sha@),
        Ok(
            seq![
                ActionView::PostComment {
                    repository: repo,
                    pr_number: n,
                    text: try_started_message(e.pull_request.head_sha@, e.merge_sha@),
                },
            ],
        ),
    )
}

/// Build completed: the first matching build takes the status where its
/// current status allows it; an unknown build is ignored.
pub open spec fn on_build_completed(v: DbView, e: BuildCompleted) -> Outcome {
    match build_index(v.builds, e.repository@, e.branch@, e.commit_sha@, 0) {
        None => (v, Ok(Seq::empty())),
        Some(i) => if build_transition_allowed(v.builds[i].status, e.status) {
            (set_build_status(v, i as u64, e.status), Ok(Seq::empty()))
        } else {
            (v, Err(DbError::InvalidTransition))
        },
    }
}

/// Comment: comments of the bot itself and comments without a command
/// change nothing; otherwise the command decides.
pub open spec fn on_comment(v: DbView, prefix: Seq<char>, bot_name: Seq<char>, e: PullRequestComment) -> Outcome {
    let repo = e.repository@;
    let n = e.pull_request.number;
    if e.author@ == bot_name {
        (v, Ok(Seq::empty()))
    } else {
        match parsed_command(e.text@, prefix) {
            None => (v, Ok(Seq::empty())),
            Some(BorsCommand::Ping) => (
                v,
                Ok(seq![ActionView::PostComment { repository: repo, pr_number: n, text: pong_message() }]),
            ),
            Some(BorsCommand::Approve) => {
                let v1 = touch_pr(v, repo, e.pull_request);
                (
                    set_approval(v1, pr_row_id(v1, repo, n), Some(e.author@)),
                    Ok(
                        seq![
                            ActionView::ApplyLabels { repository: repo, pr_number: n, trigger: LabelTrigger::Approved },
                            ActionView::PostComment {
                                repository: repo,
                                pr_number: n,
                                text: approved_message(e.pull_request.head_sha@, e.author@),
                            },
                        ],
                    ),
                )
            },
            Some(BorsCommand::Unapprove) => {
                let v1 = touch_pr(v, repo, e.pull_request);
                (
                    set_approval(v1, pr_row_id(v1, repo, n), None),
                    Ok(seq![ActionView::ApplyLabels { repository: repo, pr_number: n, trigger: LabelTrigger::Unapproved }]),
                )
            },
            Some(BorsCommand::Try) => (
                touch_pr(v, repo, e.pull_request),
                Ok(seq![ActionView::StartTryBuild { repository: repo, pr_number: n }]),
            ),
        }
    }
}

/// The view of a handler's result.
pub open spec fn result_view(r: Result<Vec<Action>, DbError>) -> Result<Seq<ActionView>, DbError> {
    match r {
        Ok(a) => Ok(actions_view(a@)),
        Err(e) => Err(e),
    }
}

/// The handler of any event.
pub open spec fn on_event(v: DbView, prefix: Seq<char>, bot_name: Seq<char>, e: BorsEvent) -> Outcome {
    match e {
        BorsEvent::Comment(c) => on_comment(v, prefix, bot_name, c),
        BorsEvent::PullRequestEdited(p) => on_pr_edited(v, p),
        BorsEvent::PullRequestPushed(p) => on_pr_pushed(v, p),
        BorsEvent::PullRequestOpened(p) => on_pr_opened(v, p),
        BorsEvent::PushToBranch(p) => on_push_to_branch(v, p),
        BorsEvent::WorkflowStatusChanged(w) => on_workflow_status_changed(v, w),
        BorsEvent::TryBuildStarted(t) => on_try_build_started(v, t),
        BorsEvent::BuildCompleted(b) => on_build_completed(v, b),
    }
}

fn pong_text() -> (r: String)
    ensures
        r@ == pong_message(),
{
    String::from_str("Pong \u{1F3D3}!")
}

fn edited_text(base: &String) -> (r: String)
    ensures
        r@ == edited_message(base@),
{
    let mut m = String::from_str(":warning: The base branch changed to `");
    m.append(base.as_str());
    m.append("`, and the\nPR will need to be re-approved.");
    m
}

fn pushed_text(sha: &String) -> (r: String)
    ensures
        r@ == pushed_message(sha@),
{
    let mut m = String::from_str(":warning: A new commit `");
    m.append(sha.as_str());
    m.append("` was pushed to the branch, the\nPR will need to be re-approved.");
    m
}

fn approved_text(sha: &String, approver: &String) -> (r: String)
    ensures
        r@ == approved_message(sha@, approver@),
{
    let mut m = String::from_str(":pushpin: Commit ");
    m.append(sha.as_str());
    m.append(" has been approved by `");
    m.append(approver.as_str());
    m.append("`");
    m
}

fn try_started_text(head: &String, merge: &String) -> (r: String)
    ensures
        r@ == try_started_message(head@, merge@),
{
    let mut m = String::from_str(":hourglass: Trying commit ");
    m.append(head.as_str());
    m.append(" with merge ");
    m.append(merge.as_str());
    m.append("...");
    m
}

/// Fetches or creates the row of the event's pull request.
fn touch<D: DbClient>(db: &mut D, repo: &GithubRepoName, pr: &PullRequest) -> (r: crate::database::PullRequestModel)
    requires
        db_wf(old(db).db_view()),
    ensures
        db_wf(final(db).db_view()),
        final(db).db_view() == touch_pr(old(db).db_view(), repo@, *pr),
        pr_index(final(db).db_view().prs, repo@, pr.number) matches Some(i) && r@ == final(db).db_view().prs[i],
{
    db.get_or_create_pull_request(repo, pr.number, pr.base_branch.as_str(), pr.mergeable_state)
}

/// Handles an edit of a pull request.
pub fn handle_pull_request_edited<D: DbClient>(db: &mut D, payload: &PullRequestEdited) -> (r: Result<Vec<Action>, DbError>)
    requires
        db_wf(old(db).db_view()),
    ensures
        db_wf(final(db).db_view()),
        on_pr_edited(old(db).db_view(), *payload) == (final(db).db_view(), result_view(r)),
{
    let pr = &payload.pull_request;
    let pr_model = touch(db, &payload.repository, pr);
    let mut actions: Vec<Action> = Vec::new();
    if payload.from_base_sha.is_none() || !pr_model.is_approved() {
        assert(actions_view(actions@) =~= Seq::empty());
        return Ok(actions);
    }
    db.unapprove(&pr_model);
    actions.push(Action::ApplyLabels {
        repository: payload.repository.duplicate(),
        pr_number: pr.number,
        trigger: LabelTrigger::Unapproved,
    });
    actions.push(Action::PostComment {
        repository: payload.repository.duplicate(),
        pr_number: pr.number,
        text: edited_text(&pr.base_branch),
    });
    assert(actions_view(actions@) =~= on_pr_edited(old(db).db_view(), *payload).1->Ok_0);
    Ok(actions)
}

/// Handles a push to the head of a pull request.
pub fn handle_push_to_pull_request<D: DbClient>(db: &mut D, payload: &PullRequestPushed) -> (r: Result<Vec<Action>, DbError>)
    requires
        db_wf(old(db).db_view()),
    ensures
        db_wf(final(db).db_view()),
        on_pr_pushed(old(db).db_view(), *payload) == (final(db).db_view(), result_view(r)),
{
    let pr = &payload.pull_request;
    let pr_model = touch(db, &payload.repository, pr);
    let mut actions: Vec<Action> = Vec::new();
    if !pr_model.is_approved() {
        assert(actions_view(actions@) =~= Seq::empty());
        return Ok(actions);
    }
    db.unapprove(&pr_model);
    actions.push(Action::ApplyLabels {
        repository: payload.repository.duplicate(),
        pr_number: pr.number,
        trigger: LabelTrigger::Unapproved,
    });
    actions.push(Action::PostComment {
        repository: payload.repository.duplicate(),
        pr_number: pr.number,
        text: pushed_text(&pr.head_sha),
    });
    assert(actions_view(actions@) =~= on_pr_pushed(old(db).db_view(), *payload).1->Ok_0);
    Ok(actions)
}

/// Handles a newly opened pull request.
pub fn handle_pull_request_opened<D: DbClient>(db: &mut D, payload: &PullRequestOpened) -> (r: Result<Vec<Action>, DbError>)
    requires
        db_wf(old(db).db_view()),
    ensures
        db_wf(final(db).db_view()),
        on_pr_opened(old(db).db_view(), *payload) == (final(db).db_view(), result_view(r)),
{
    let pr = &payload.pull_request;
    db.create_pull_request(&payload.repository, pr.number, pr.base_branch.as_str());
    let actions: Vec<Action> = Vec::new();
    assert(actions_view(actions@) =~= Seq::empty());
    Ok(actions)
}

/// Handles a push to a branch: a bulk reset of mergeable states.
pub fn handle_push_to_branch<D: DbClient>(db: &mut D, payload: &PushToBranch) -> (r: Result<Vec<Action>, DbError>)
    requires
        db_wf(old(db).db_view()),
    ensures
        db_wf(final(db).db_view()),
        on_push_to_branch(old(db).db_view(), *payload) == (final(db).db_view(), result_view(r)),
{
    db.update_mergeable_states_by_base_branch(&payload.repository, payload.branch.as_str(), MergeableState::Unknown);
    let actions: Vec<Action> = Vec::new();
    assert(actions_view(actions@) =~= Seq::empty());
    Ok(actions)
}

/// Handles a status change of a workflow run.
pub fn handle_workflow_status_changed<D: DbClient>(db: &mut D, payload: &WorkflowStatusChanged) -> (r: Result<Vec<Action>, DbError>)
    requires
        db_wf(old(db).db_view()),
    ensures
        db_wf(final(db).db_view()),
        on_workflow_status_changed(old(db).db_view(), *payload) == (final(db).db_view(), result_view(r)),
{
    db.update_workflow_status(payload.run_id.0, payload.status);
    let actions: Vec<Action> = Vec::new();
    assert(actions_view(actions@) =~= Seq::empty());
    Ok(actions)
}

/// Handles the start of a try build: the build is attached to the pull request.
pub fn handle_try_build_started<D: DbClient>(db: &mut D, payload: &TryBuildStarted) -> (r: Result<Vec<Action>, DbError>)
    requires
        db_wf(old(db).db_view()),
    ensures
        db_wf(final(db).db_view()),
        on_try_build_started(old(db).db_view(), *payload) == (final(db).db_view(), result_view(r)),
{
    let pr = &payload.pull_request;
    let pr_model = touch(db, &payload.repository, pr);
    let attached = db.attach_try_build(&pr_model, payload.branch.as_str(), payload.merge_sha.as_str(), payload.parent_sha.as_str());
    match attached {
        Err(e) => {
            return Err(e);
        },
        Ok(()) => {},
    }
    let mut actions: Vec<Action> = Vec::new();
    actions.push(Action::PostComment {
        repository: payload.repository.duplicate(),
        pr_number: pr.number,
        text: try_started_text(&pr.head_sha, &payload.merge_sha),
    });
    assert(actions_view(actions@) =~= on_try_build_started(old(db).db_view(), *payload).1->Ok_0);
    Ok(actions)
}

/// Handles the reported outcome of a build.
pub fn handle_build_completed<D: DbClient>(db: &mut D, payload: &BuildCompleted) -> (r: Result<Vec<Action>, DbError>)
    requires
        db_wf(old(db).db_view()),
    ensures
        db_wf(final(db).db_view()),
        on_build_completed(old(db).db_view(), *payload) == (final(db).db_view(), result_view(r)),
{
    let actions: Vec<Action> = Vec::new();
    assert(actions_view(actions@) =~= Seq::empty());
    proof {
        lemma_build_index(db.db_view().builds, payload.repository@, payload.branch@, payload.commit_sha@, 0);
    }
    match db.find_build(&payload.repository, payload.branch.as_str(), payload.commit_sha.as_str()) {
        None => Ok(actions),
        Some(build) => {
            match db.update_build_status(&build, payload.status) {
                Ok(()) => Ok(actions),
                Err(e) => Err(e),
            }
        },
    }
}

/// Handles a comment: runs the command it holds, if any.
pub fn handle_comment<D: DbClient>(db: &mut D, prefix: &str, bot_name: &str, payload: &PullRequestComment) -> (r: Result<Vec<Action>, DbError>)
    requires
        db_wf(old(db).db_view()),
    ensures
        db_wf(final(db).db_view()),
        on_comment(old(db).db_view(), prefix@, bot_name@, *payload) == (final(db).db_view(), result_view(r)),
{
    let ghost v0 = db.db_view();
    let mut actions: Vec<Action> = Vec::new();
    let pr = &payload.pull_request;
    if payload.author == String::from_str(bot_name) {
        assert(actions_view(actions@) =~= Seq::empty());
        return Ok(actions);
    }
    match parse_command(payload.text.as_str(), prefix) {
        None => {
            assert(actions_view(actions@) =~= Seq::empty());
        },
        Some(BorsCommand::Ping) => {
            actions.push(Action::PostComment {
                repository: payload.repository.duplicate(),
                pr_number: pr.number,
                text: pong_text(),
            });
        },
        Some(BorsCommand::Approve) => {
            let pr_model = touch(db, &payload.repository, pr);
            db.approve(&pr_model, payload.author.as_str());
            actions.push(Action::ApplyLabels {
                repository: payload.repository.duplicate(),
                pr_number: pr.number,
                trigger: LabelTrigger::Approved,
            });
            actions.push(Action::PostComment {
                repository: payload.repository.duplicate(),
                pr_number: pr.number,
                text: approved_text(&pr.head_sha, &payload.author),
            });
        },
        Some(BorsCommand::Unapprove) => {
            let pr_model = touch(db, &payload.repository, pr);
            db.unapprove(&pr_model);
            actions.push(Action::ApplyLabels {
                repository: payload.repository.duplicate(),
                pr_number: pr.number,
                trigger: LabelTrigger::Unapproved,
            });
        },
        Some(BorsCommand::Try) => {
            touch(db, &payload.repository, pr);
            actions.push(Action::StartTryBuild {
                repository: payload.repository.duplicate(),
                pr_number: pr.number,
            });
        },
    }
    assert(actions_view(actions@) =~= on_comment(v0, prefix@, bot_name@, *payload).1->Ok_0);
    Ok(actions)
}

/// Handles one event of any kind.
pub fn handle_event<D: DbClient>(db: &mut D, prefix: &str, bot_name: &str, event: &BorsEvent) -> (r: Result<Vec<Action>, DbError>)
    requires
        db_wf(old(db).db_view()),
    ensures
        db_wf(final(db).db_view()),
        on_event(old(db).db_view(), prefix@, bot_name@, *event) == (final(db).db_view(), result_view(r)),
{
    match event {
        BorsEvent::Comment(c) => handle_comment(db, prefix, bot_name, c),
        BorsEvent::PullRequestEdited(p) => handle_pull_request_edited(db, p),
        BorsEvent::PullRequestPushed(p) => handle_push_to_pull_request(db, p),
        BorsEvent::PullRequestOpened(p) => handle_pull_request_opened(db, p),
        BorsEvent::PushToBranch(p) => handle_push_to_branch(db, p),
        BorsEvent::WorkflowStatusChanged(w) => handle_workflow_status_changed(db, w),
        BorsEvent::TryBuildStarted(t) => handle_try_build_started(db, t),
        BorsEvent::BuildCompleted(b) => handle_build_completed(db, b),
    }
}

} // verus!
