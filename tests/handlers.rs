use bors::actor::BorsActor;
use bors::database::{DbClient, GithubRepoName, PullRequestModel};
use bors::database::DbError;
use bors::handlers::{
    Action, BorsEvent, BuildCompleted, TryBuildStarted, PullRequest, PullRequestComment, PullRequestEdited, PullRequestOpened,
    PullRequestPushed, PushToBranch,
};
use bors::model::{BuildStatus, LabelTrigger, MergeableState};

fn default_repo_name() -> GithubRepoName {
    GithubRepoName::new("rust-lang", "borstest")
}

fn default_pr_number() -> u64 {
    1
}

fn default_branch_name() -> String {
    "main".to_string()
}

fn default_author() -> String {
    "default-user".to_string()
}

fn default_pr() -> PullRequest {
    PullRequest {
        number: default_pr_number(),
        base_branch: default_branch_name(),
        head_sha: "pr-1-sha".to_string(),
        mergeable_state: MergeableState::Mergeable,
    }
}

fn actor() -> BorsActor {
    BorsActor::new("@bors", "bors")
}

fn comment(text: &str) -> BorsEvent {
    comment_by(text, &default_author())
}

fn comment_by(text: &str, author: &str) -> BorsEvent {
    BorsEvent::Comment(PullRequestComment {
        repository: default_repo_name(),
        pull_request: default_pr(),
        author: author.to_string(),
        text: text.to_string(),
    })
}

fn edit(pr: PullRequest, from_base_sha: Option<&str>) -> BorsEvent {
    BorsEvent::PullRequestEdited(PullRequestEdited {
        repository: default_repo_name(),
        pull_request: pr,
        from_base_sha: from_base_sha.map(|s| s.to_string()),
    })
}

fn push_to_pr(head_sha: &str) -> BorsEvent {
    let mut pr = default_pr();
    pr.head_sha = head_sha.to_string();
    BorsEvent::PullRequestPushed(PullRequestPushed {
        repository: default_repo_name(),
        pull_request: pr,
    })
}

fn comments(actions: &[Action]) -> Vec<String> {
    actions
        .iter()
        .filter_map(|a| match a {
            Action::PostComment { text, .. } => Some(text.clone()),
            _ => None,
        })
        .collect()
}

fn default_pr_db(actor: &BorsActor) -> Option<PullRequestModel> {
    actor
        .db()
        .get_pull_request(&default_repo_name(), default_pr_number())
}

fn run(actor: &mut BorsActor, event: BorsEvent) -> Vec<Action> {
    actor.handle(&event).expect("the handler failed")
}

#[test]
fn test_ping() {
    let mut state = actor();
    let actions = run(&mut state, comment("@bors ping"));
    assert_eq!(comments(&actions), vec!["Pong 🏓!".to_string()]);
}

#[test]
fn test_ping2() {
    let mut state = actor();
    let actions = run(&mut state, comment("@bors ping"));
    assert_eq!(actions.len(), 1);
    assert!(default_pr_db(&state).is_none());
}

#[test]
fn unapprove_on_base_edited() {
    let mut state = actor();
    let actions = run(&mut state, comment("@bors r+"));
    assert_eq!(comments(&actions).len(), 1);
    let mut pr = default_pr();
    pr.base_branch = "beta".to_string();
    let actions = run(&mut state, edit(pr, Some("base-sha")));
    assert_eq!(
        comments(&actions),
        vec![":warning: The base branch changed to `beta`, and the\nPR will need to be re-approved."
            .to_string()]
    );
    assert!(!default_pr_db(&state).unwrap().is_approved());
}

#[test]
fn edit_pr_do_nothing_when_base_not_edited() {
    let mut state = actor();
    let actions = run(&mut state, comment("@bors r+"));
    assert_eq!(comments(&actions).len(), 1);
    let actions = run(&mut state, edit(default_pr(), None));
    assert!(actions.is_empty());
    let pr = default_pr_db(&state).unwrap();
    assert_eq!(pr.approved_by, Some(default_author()));
}

#[test]
fn edit_pr_do_nothing_when_not_approved() {
    let mut state = actor();
    let mut pr = default_pr();
    pr.base_branch = "beta".to_string();
    let actions = run(&mut state, edit(pr, Some("base-sha")));
    assert!(comments(&actions).is_empty());
}

#[test]
fn unapprove_on_push() {
    let mut state = actor();
    let actions = run(&mut state, comment("@bors r+"));
    assert_eq!(comments(&actions).len(), 1);
    let actions = run(&mut state, push_to_pr("pr-1-commit-1"));
    assert_eq!(
        comments(&actions),
        vec![":warning: A new commit `pr-1-commit-1` was pushed to the branch, the\nPR will need to be re-approved."
            .to_string()]
    );
    assert!(!default_pr_db(&state).unwrap().is_approved());
}

#[test]
fn push_to_pr_do_nothing_when_not_approved() {
    let mut state = actor();
    let actions = run(&mut state, push_to_pr("pr-1-commit-1"));
    assert!(actions.is_empty());
}

#[test]
fn store_base_branch_on_pr_opened() {
    let mut state = actor();
    let event = BorsEvent::PullRequestOpened(PullRequestOpened {
        repository: default_repo_name(),
        pull_request: default_pr(),
    });
    run(&mut state, event);
    let pr = default_pr_db(&state).unwrap();
    assert_eq!(pr.base_branch, default_branch_name());
}

#[test]
fn update_base_branch_on_pr_edited() {
    let mut state = actor();
    let mut pr = default_pr();
    pr.base_branch = "foo".to_string();
    run(&mut state, edit(pr, Some("base-sha")));
    assert_eq!(default_pr_db(&state).unwrap().base_branch, "foo");
}

#[test]
fn update_mergeable_state_on_pr_edited() {
    let mut state = actor();
    let mut pr = default_pr();
    pr.mergeable_state = MergeableState::HasConflicts;
    run(&mut state, edit(pr, None));
    assert_eq!(
        default_pr_db(&state).unwrap().mergeable_state,
        MergeableState::HasConflicts
    );
}

#[test]
fn approve_then_edit_base_end_to_end() {
    let mut state = actor();
    let opened = BorsEvent::PullRequestOpened(PullRequestOpened {
        repository: default_repo_name(),
        pull_request: default_pr(),
    });
    assert!(run(&mut state, opened).is_empty());
    let pr = default_pr_db(&state).unwrap();
    assert_eq!(pr.base_branch, "main");
    assert!(!pr.is_approved());

    let actions = run(&mut state, comment("@bors r+"));
    assert_eq!(
        comments(&actions),
        vec![":pushpin: Commit pr-1-sha has been approved by `default-user`".to_string()]
    );
    assert!(matches!(
        actions[0],
        Action::ApplyLabels { trigger: LabelTrigger::Approved, .. }
    ));
    assert_eq!(default_pr_db(&state).unwrap().approved_by, Some(default_author()));

    // A second approval keeps the pull request approved, by the latest approver.
    run(&mut state, comment_by("@bors r+", "maintainer"));
    assert_eq!(
        default_pr_db(&state).unwrap().approved_by,
        Some("maintainer".to_string())
    );

    let mut pr = default_pr();
    pr.base_branch = "beta".to_string();
    let actions = run(&mut state, edit(pr, Some("base-sha")));
    let posted = comments(&actions);
    assert_eq!(posted.len(), 1);
    assert!(posted[0].contains("beta"));
    let stored = default_pr_db(&state).unwrap();
    assert!(!stored.is_approved());
    assert_eq!(stored.base_branch, "beta");

    let actions = run(&mut state, push_to_pr("abc123"));
    assert!(actions.is_empty());
    assert_eq!(state.db().pull_request_count(), 1);
}

#[test]
fn unapprove_command_clears_approval() {
    let mut state = actor();
    run(&mut state, comment("@bors r+"));
    let actions = run(&mut state, comment("@bors r-"));
    assert!(comments(&actions).is_empty());
    assert!(matches!(
        actions[0],
        Action::ApplyLabels { trigger: LabelTrigger::Unapproved, .. }
    ));
    assert!(!default_pr_db(&state).unwrap().is_approved());
}

#[test]
fn own_comments_and_plain_text_are_ignored() {
    let mut state = actor();
    assert!(run(&mut state, comment_by("@bors ping", "bors")).is_empty());
    assert!(run(&mut state, comment("no command here")).is_empty());
    assert!(run(&mut state, comment("@bors frobnicate")).is_empty());
    assert!(default_pr_db(&state).is_none());
}

#[test]
fn ping_changes_no_state() {
    let mut state = actor();
    run(&mut state, comment("@bors r+"));
    let before = default_pr_db(&state).unwrap();
    run(&mut state, comment("@bors ping"));
    let after = default_pr_db(&state).unwrap();
    assert_eq!(before.approved_by, after.approved_by);
    assert_eq!(state.db().pull_request_count(), 1);
}

#[test]
fn push_to_branch_resets_mergeable_state() {
    let mut state = actor();
    let other_repo = GithubRepoName::new("rust-lang", "other");
    let mut on_beta = default_pr();
    on_beta.number = 2;
    on_beta.base_branch = "beta".to_string();
    run(&mut state, edit(default_pr(), None));
    run(&mut state, edit(on_beta, None));
    run(
        &mut state,
        BorsEvent::PullRequestEdited(PullRequestEdited {
            repository: other_repo.clone(),
            pull_request: default_pr(),
            from_base_sha: None,
        }),
    );
    let actions = run(
        &mut state,
        BorsEvent::PushToBranch(PushToBranch {
            repository: default_repo_name(),
            branch: "main".to_string(),
        }),
    );
    assert!(actions.is_empty());
    let db = state.db();
    assert_eq!(
        db.get_pull_request(&default_repo_name(), 1).unwrap().mergeable_state,
        MergeableState::Unknown
    );
    assert_eq!(
        db.get_pull_request(&default_repo_name(), 2).unwrap().mergeable_state,
        MergeableState::Mergeable
    );
    assert_eq!(
        db.get_pull_request(&other_repo, 1).unwrap().mergeable_state,
        MergeableState::Mergeable
    );
}

#[test]
fn events_are_processed_in_order_and_errors_do_not_stop() {
    let mut state = actor();
    let events = vec![comment("@bors r+"), push_to_pr("abc"), comment("@bors ping")];
    let results = state.process_events(&events);
    assert_eq!(results.len(), 3);
    assert_eq!(comments(results[0].as_ref().unwrap()).len(), 1);
    assert_eq!(
        comments(results[1].as_ref().unwrap()),
        vec![":warning: A new commit `abc` was pushed to the branch, the\nPR will need to be re-approved."
            .to_string()]
    );
    assert_eq!(
        comments(results[2].as_ref().unwrap()),
        vec!["Pong 🏓!".to_string()]
    );
}

fn build_completed(status: BuildStatus) -> BorsEvent {
    BorsEvent::BuildCompleted(BuildCompleted {
        repository: default_repo_name(),
        branch: "automation/bors/try".to_string(),
        commit_sha: "merge-1".to_string(),
        status,
    })
}

#[test]
fn try_build_lifecycle() {
    let mut state = actor();
    let actions = run(&mut state, comment("@bors try"));
    assert_eq!(actions.len(), 1);
    assert!(matches!(actions[0], Action::StartTryBuild { pr_number: 1, .. }));

    let started = BorsEvent::TryBuildStarted(TryBuildStarted {
        repository: default_repo_name(),
        pull_request: default_pr(),
        branch: "automation/bors/try".to_string(),
        merge_sha: "merge-1".to_string(),
        parent_sha: "main-sha".to_string(),
    });
    let actions = run(&mut state, started);
    assert_eq!(
        comments(&actions),
        vec![":hourglass: Trying commit pr-1-sha with merge merge-1...".to_string()]
    );
    let pr = default_pr_db(&state).unwrap();
    let build = state
        .db()
        .find_build(&default_repo_name(), "automation/bors/try", "merge-1")
        .unwrap();
    assert_eq!(pr.try_build, Some(build.id));
    assert_eq!(state.db().get_running_builds(&default_repo_name()).len(), 1);

    assert!(run(&mut state, build_completed(BuildStatus::Success)).is_empty());
    assert!(state.db().get_running_builds(&default_repo_name()).is_empty());

    let results = state.process_events(&vec![
        build_completed(BuildStatus::Failure),
        build_completed(BuildStatus::Pending),
        comment("@bors ping"),
    ]);
    assert_eq!(results.len(), 3);
    assert!(matches!(results[0], Err(DbError::InvalidTransition)));
    assert!(matches!(results[1], Err(DbError::InvalidTransition)));
    assert_eq!(
        comments(results[2].as_ref().unwrap()),
        vec!["Pong 🏓!".to_string()]
    );
    let build = state
        .db()
        .find_build(&default_repo_name(), "automation/bors/try", "merge-1")
        .unwrap();
    assert_eq!(build.status, BuildStatus::Success);
}

#[test]
fn completion_of_unknown_build_is_ignored() {
    let mut state = actor();
    assert!(run(&mut state, build_completed(BuildStatus::Success)).is_empty());
}
