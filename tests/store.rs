use bors::command::{parse_command, BorsCommand};
use bors::database::{DbClient, DbError, GithubRepoName, MemoryDbClient};
use bors::model::{BuildStatus, MergeableState, RunId, WorkflowStatus, WorkflowType};

fn repo() -> GithubRepoName {
    GithubRepoName::new("rust-lang", "borstest")
}

#[test]
fn get_or_create_twice_keeps_one_row() {
    let mut db = MemoryDbClient::new();
    let a = db.get_or_create_pull_request(&repo(), 5, "main", MergeableState::Unknown);
    let b = db.get_or_create_pull_request(&repo(), 5, "beta", MergeableState::Mergeable);
    assert_eq!(a.id, b.id);
    assert_eq!(db.pull_request_count(), 1);
    assert_eq!(b.base_branch, "beta");
    assert_eq!(b.mergeable_state, MergeableState::Mergeable);
    assert!(b.approved_by.is_none());
    assert!(b.try_build.is_none());
}

#[test]
fn create_pull_request_keeps_existing_row() {
    let mut db = MemoryDbClient::new();
    db.create_pull_request(&repo(), 1, "main");
    db.create_pull_request(&repo(), 1, "beta");
    let pr = db.get_pull_request(&repo(), 1).unwrap();
    assert_eq!(pr.base_branch, "main");
    assert_eq!(pr.mergeable_state, MergeableState::Unknown);
    assert_eq!(db.pull_request_count(), 1);
}

#[test]
fn mergeable_reset_counts_rows() {
    let mut db = MemoryDbClient::new();
    db.get_or_create_pull_request(&repo(), 1, "main", MergeableState::Mergeable);
    db.get_or_create_pull_request(&repo(), 2, "main", MergeableState::HasConflicts);
    db.get_or_create_pull_request(&repo(), 3, "beta", MergeableState::Mergeable);
    let n = db.update_mergeable_states_by_base_branch(&repo(), "main", MergeableState::Unknown);
    assert_eq!(n, 2);
    assert_eq!(
        db.get_pull_request(&repo(), 3).unwrap().mergeable_state,
        MergeableState::Mergeable
    );
    let none = db.update_mergeable_states_by_base_branch(&repo(), "nope", MergeableState::Unknown);
    assert_eq!(none, 0);
}

#[test]
fn try_build_attach_find_and_status() {
    let mut db = MemoryDbClient::new();
    let pr = db.get_or_create_pull_request(&repo(), 1, "main", MergeableState::Unknown);
    assert_eq!(db.attach_try_build(&pr, "automation/bors/try", "merge-1", "parent-1"), Ok(()));
    let pr = db.get_pull_request(&repo(), 1).unwrap();
    let build = db.find_build(&repo(), "automation/bors/try", "merge-1").unwrap();
    assert_eq!(pr.try_build, Some(build.id));
    assert_eq!(build.status, BuildStatus::Pending);
    assert_eq!(build.parent, "parent-1");
    assert!(db.find_build(&repo(), "automation/bors/try", "other").is_none());
    assert_eq!(db.get_running_builds(&repo()).len(), 1);
    let found = db.find_pr_by_build(&build).unwrap();
    assert_eq!(found.number, 1);

    assert_eq!(db.update_build_status(&build, BuildStatus::Success), Ok(()));
    assert!(db.get_running_builds(&repo()).is_empty());
    assert_eq!(db.update_build_status(&build, BuildStatus::Success), Ok(()));
    assert_eq!(
        db.update_build_status(&build, BuildStatus::Pending),
        Err(DbError::InvalidTransition)
    );
    assert_eq!(
        db.update_build_status(&build, BuildStatus::Failure),
        Err(DbError::InvalidTransition)
    );
    let build = db.find_build(&repo(), "automation/bors/try", "merge-1").unwrap();
    assert_eq!(build.status, BuildStatus::Success);
}

#[test]
fn attach_to_unknown_pr_fails() {
    let mut db = MemoryDbClient::new();
    let mut other = MemoryDbClient::new();
    let pr = other.get_or_create_pull_request(&repo(), 1, "main", MergeableState::Unknown);
    let mut pr2 = pr.clone();
    pr2.id = 7;
    assert_eq!(
        db.attach_try_build(&pr2, "b", "c", "p"),
        Err(DbError::PullRequestNotFound)
    );
}

#[test]
fn workflows_follow_their_run() {
    let mut db = MemoryDbClient::new();
    let pr = db.get_or_create_pull_request(&repo(), 1, "main", MergeableState::Unknown);
    db.attach_try_build(&pr, "try", "sha", "parent").unwrap();
    let build = db.find_build(&repo(), "try", "sha").unwrap();
    db.create_workflow(&build, "ci", "https://ci/1", RunId(11), WorkflowType::Github, WorkflowStatus::Pending)
        .unwrap();
    db.create_workflow(&build, "ext", "https://ext/2", RunId(12), WorkflowType::External, WorkflowStatus::Pending)
        .unwrap();

    db.update_workflow_status(999, WorkflowStatus::Success);
    let rows = db.get_workflows_for_build(&build);
    assert_eq!(rows.len(), 2);
    assert!(rows.iter().all(|w| w.status == WorkflowStatus::Pending));

    db.update_workflow_status(11, WorkflowStatus::Failure);
    db.update_workflow_status(11, WorkflowStatus::Success);
    let rows = db.get_workflows_for_build(&build);
    assert_eq!(rows[0].status, WorkflowStatus::Failure);
    assert_eq!(rows[1].status, WorkflowStatus::Pending);
    assert_eq!(rows[1].workflow_type, WorkflowType::External);
}

#[test]
fn workflow_for_unknown_build_fails() {
    let mut db = MemoryDbClient::new();
    let mut other = MemoryDbClient::new();
    let pr = other.get_or_create_pull_request(&repo(), 1, "main", MergeableState::Unknown);
    other.attach_try_build(&pr, "try", "sha", "parent").unwrap();
    let build = other.find_build(&repo(), "try", "sha").unwrap();
    assert_eq!(
        db.create_workflow(&build, "ci", "u", RunId(1), WorkflowType::Github, WorkflowStatus::Pending),
        Err(DbError::BuildNotFound)
    );
    assert_eq!(
        db.update_build_status(&build, BuildStatus::Success),
        Err(DbError::BuildNotFound)
    );
}

#[test]
fn run_id_crosses_the_signed_boundary() {
    assert_eq!(RunId(u64::MAX).to_i64(), -1);
    assert_eq!(RunId::from_i64(-1), RunId(u64::MAX));
    assert_eq!(RunId(42).to_i64(), 42);
    assert_eq!(RunId::from_i64(i64::MIN), RunId(1u64 << 63));
    let id = RunId(0x8000_0000_0000_0005);
    assert_eq!(RunId::from_i64(id.to_i64()), id);
}

#[test]
fn status_spellings_round_trip() {
    for s in [
        BuildStatus::Pending,
        BuildStatus::Success,
        BuildStatus::Failure,
        BuildStatus::Cancelled,
        BuildStatus::Timeouted,
    ] {
        assert_eq!(BuildStatus::decode(s.as_str()), Some(s));
    }
    assert_eq!(BuildStatus::Timeouted.as_str(), "timeouted");
    assert_eq!(BuildStatus::decode("done"), None);
    assert_eq!(WorkflowType::decode("external"), Some(WorkflowType::External));
    assert_eq!(WorkflowType::Github.as_str(), "github");
    assert_eq!(WorkflowType::decode("gitlab"), None);
    assert_eq!(WorkflowStatus::decode("failure"), Some(WorkflowStatus::Failure));
    assert_eq!(WorkflowStatus::Pending.as_str(), "pending");
    assert_eq!(WorkflowStatus::decode("Pending"), None);
}

#[test]
fn parser_finds_commands() {
    assert_eq!(parse_command("@bors ping", "@bors"), Some(BorsCommand::Ping));
    assert_eq!(parse_command("@bors r+", "@bors"), Some(BorsCommand::Approve));
    assert_eq!(parse_command("@bors r-", "@bors"), Some(BorsCommand::Unapprove));
    assert_eq!(parse_command("@bors try", "@bors"), Some(BorsCommand::Try));
    assert_eq!(
        parse_command("Looks good to me.\n@bors   r+ thanks", "@bors"),
        Some(BorsCommand::Approve)
    );
    assert_eq!(parse_command("@bors r+\nmore", "@bors"), Some(BorsCommand::Approve));
}

#[test]
fn parser_ignores_other_text() {
    assert_eq!(parse_command("", "@bors"), None);
    assert_eq!(parse_command("ping", "@bors"), None);
    assert_eq!(parse_command("@bors", "@bors"), None);
    assert_eq!(parse_command("@borsping", "@bors"), None);
    assert_eq!(parse_command("@BORS ping", "@bors"), None);
    assert_eq!(parse_command("@bors pingg", "@bors"), None);
    assert_eq!(parse_command("@bors r", "@bors"), None);
    assert_eq!(parse_command("@bors hello @bors ping", "@bors"), None);
}

#[test]
fn build_transitions_leave_terminal_states_alone() {
    assert!(BuildStatus::Pending.can_transition_to(BuildStatus::Timeouted));
    assert!(BuildStatus::Pending.can_transition_to(BuildStatus::Pending));
    assert!(BuildStatus::Cancelled.can_transition_to(BuildStatus::Cancelled));
    assert!(!BuildStatus::Cancelled.can_transition_to(BuildStatus::Pending));
    assert!(!BuildStatus::Success.can_transition_to(BuildStatus::Failure));
}
