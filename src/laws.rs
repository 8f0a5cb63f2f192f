//! Guarantees of the state machine, stated over the handlers' transitions.
use crate::command::{parsed_command, BorsCommand};
use crate::database::{
    db_wf, lemma_build_index, lemma_pr_index_unique, pr_has_key, pr_index,
    pr_on_base, set_approval, update_workflows, upsert_pr, DbError, DbView, PrView, RepoView,
};
use crate::handlers::{
    edited_message, on_build_completed, on_comment, on_pr_edited, on_pr_pushed,
    on_push_to_branch, pong_message, pushed_message, touch_pr, ActionView, BuildCompleted,
    PullRequestComment, PullRequestEdited, PullRequestPushed, PushToBranch,
};
use crate::model::{
    build_status_is_terminal, loaded_run_id, stored_run_id, LabelTrigger, MergeableState,
    PullRequestNumber, WorkflowStatus,
};
use vstd::prelude::*;

verus! {

/// Get-or-create keeps the store well formed, and afterwards the key has a
/// row: the one it had before, or a new last row.
pub proof fn lemma_upsert(
    v: DbView,
    repo: RepoView,
    number: PullRequestNumber,
    base: Seq<char>,
    state: MergeableState,
)
    requires
        db_wf(v),
        v.prs.len() < u64::MAX,
    ensures
        db_wf(upsert_pr(v, repo, number, base, state)),
        pr_index(upsert_pr(v, repo, number, base, state).prs, repo, number) matches Some(i) && match pr_index(
            v.prs,
            repo,
            number,
        ) {
            Some(j) => i == j,
            None => i == v.prs.len(),
        },
        upsert_pr(v, repo, number, base, state).builds == v.builds,
        upsert_pr(v, repo, number, base, state).workflows == v.workflows,
{
    let v1 = upsert_pr(v, repo, number, base, state);
    match pr_index(v.prs, repo, number) {
        Some(j) => {
            assert forall|a: int, b: int|
                0 <= a < v1.prs.len() && 0 <= b < v1.prs.len() && a != b implies !pr_has_key(
                #[trigger] v1.prs[a],
                (#[trigger] v1.prs[b]).repository,
                v1.prs[b].number,
            ) by {
                assert(!pr_has_key(v.prs[a], v.prs[b].repository, v.prs[b].number));
            }
            assert(pr_has_key(v1.prs[j], repo, number));
            lemma_pr_index_unique(v1, repo, number, j);
        },
        None => {
            assert forall|a: int, b: int|
                0 <= a < v1.prs.len() && 0 <= b < v1.prs.len() && a != b implies !pr_has_key(
                #[trigger] v1.prs[a],
                (#[trigger] v1.prs[b]).repository,
                v1.prs[b].number,
            ) by {
                if a < v.prs.len() && b < v.prs.len() {
                    assert(!pr_has_key(v.prs[a], v.prs[b].repository, v.prs[b].number));
                } else if a < v.prs.len() {
                    assert(!pr_has_key(v.prs[a], repo, number));
                } else {
                    assert(!pr_has_key(v.prs[b], repo, number));
                }
            }
            lemma_pr_index_unique(v1, repo, number, v.prs.len() as int);
        },
    }
}

/// Fetching or creating the same pull request twice leaves exactly one row
/// for it, and both calls observe the same row.
pub proof fn get_or_create_twice_yields_one_row(
    v: DbView,
    repo: RepoView,
    number: PullRequestNumber,
    base1: Seq<char>,
    state1: MergeableState,
    base2: Seq<char>,
    state2: MergeableState,
)
    requires
        db_wf(v),
        v.prs.len() + 1 < u64::MAX,
    ensures
        ({
            let v1 = upsert_pr(v, repo, number, base1, state1);
            let v2 = upsert_pr(v1, repo, number, base2, state2);
            &&& v2.prs.len() == v1.prs.len()
            &&& pr_index(v1.prs, repo, number) matches Some(i) && pr_index(v2.prs, repo, number) == Some(i)
                && v1.prs[i].id == v2.prs[i].id
                && forall|k: int| 0 <= k < v2.prs.len() && pr_has_key(#[trigger] v2.prs[k], repo, number) ==> k == i
        }),
{
    let v1 = upsert_pr(v, repo, number, base1, state1);
    lemma_upsert(v, repo, number, base1, state1);
    lemma_upsert(v1, repo, number, base2, state2);
    let v2 = upsert_pr(v1, repo, number, base2, state2);
    let i = pr_index(v2.prs, repo, number)->0;
    assert forall|k: int| 0 <= k < v2.prs.len() && pr_has_key(#[trigger] v2.prs[k], repo, number) implies k == i by {
        lemma_pr_index_unique(v2, repo, number, k);
    }
}

/// Setting an approval keeps the store well formed and every key at its row.
pub proof fn lemma_set_approval(
    v: DbView,
    id: u64,
    approver: Option<Seq<char>>,
    repo: RepoView,
    number: PullRequestNumber,
    i: int,
)
    requires
        db_wf(v),
        pr_index(v.prs, repo, number) == Some(i),
    ensures
        db_wf(set_approval(v, id, approver)),
        pr_index(set_approval(v, id, approver).prs, repo, number) == Some(i),
{
    let v1 = set_approval(v, id, approver);
    assert(pr_has_key(v.prs[i], repo, number));
    assert forall|a: int, b: int|
        0 <= a < v1.prs.len() && 0 <= b < v1.prs.len() && a != b implies !pr_has_key(
        #[trigger] v1.prs[a],
        (#[trigger] v1.prs[b]).repository,
        v1.prs[b].number,
    ) by {
        assert(!pr_has_key(v.prs[a], v.prs[b].repository, v.prs[b].number));
    }
    assert(pr_has_key(v1.prs[i], repo, number));
    lemma_pr_index_unique(v1, repo, number, i);
}

/// After `r+` on a pull request, its row exists and is approved by the commenter.
pub proof fn lemma_approved_after_approve(v: DbView, prefix: Seq<char>, bot_name: Seq<char>, c: PullRequestComment)
    requires
        db_wf(v),
        v.prs.len() < u64::MAX,
        c.author@ != bot_name,
        parsed_command(c.text@, prefix) == Some(BorsCommand::Approve),
    ensures
        ({
            let v1 = on_comment(v, prefix, bot_name, c).0;
            &&& db_wf(v1)
            &&& v1.prs.len() <= v.prs.len() + 1
            &&& pr_index(v1.prs, c.repository@, c.pull_request.number) matches Some(i)
                && v1.prs[i].approved_by == Some(c.author@)
        }),
{
    let repo = c.repository@;
    let n = c.pull_request.number;
    let v0 = touch_pr(v, repo, c.pull_request);
    lemma_upsert(v, repo, n, c.pull_request.base_branch@, c.pull_request.mergeable_state);
    let i = pr_index(v0.prs, repo, n)->0;
    lemma_set_approval(v0, v0.prs[i].id, Some(c.author@), repo, n, i);
}

/// Approving a pull request and then changing its base branch clears the
/// approval, stores the new base branch, and hands out a label change and
/// exactly one comment: a warning that names the new base branch.
pub proof fn approve_then_base_edit_unapproves(
    v: DbView,
    prefix: Seq<char>,
    bot_name: Seq<char>,
    c: PullRequestComment,
    e: PullRequestEdited,
)
    requires
        db_wf(v),
        v.prs.len() + 1 < u64::MAX,
        c.author@ != bot_name,
        parsed_command(c.text@, prefix) == Some(BorsCommand::Approve),
        e.repository@ == c.repository@,
        e.pull_request.number == c.pull_request.number,
        e.from_base_sha is Some,
    ensures
        ({
            let v1 = on_comment(v, prefix, bot_name, c).0;
            let (v2, r) = on_pr_edited(v1, e);
            let repo = e.repository@;
            let n = e.pull_request.number;
            &&& pr_index(v2.prs, repo, n) matches Some(i) && v2.prs[i].approved_by is None
                && v2.prs[i].base_branch == e.pull_request.base_branch@
            &&& r == Ok::<Seq<ActionView>, DbError>(
                seq![
                    ActionView::ApplyLabels { repository: repo, pr_number: n, trigger: LabelTrigger::Unapproved },
                    ActionView::PostComment {
                        repository: repo,
                        pr_number: n,
                        text: edited_message(e.pull_request.base_branch@),
                    },
                ],
            )
        }),
{
    let repo = e.repository@;
    let n = e.pull_request.number;
    lemma_approved_after_approve(v, prefix, bot_name, c);
    let v1 = on_comment(v, prefix, bot_name, c).0;
    let v1b = touch_pr(v1, repo, e.pull_request);
    lemma_upsert(v1, repo, n, e.pull_request.base_branch@, e.pull_request.mergeable_state);
    let i = pr_index(v1b.prs, repo, n)->0;
    lemma_set_approval(v1b, v1b.prs[i].id, None, repo, n, i);
}

/// Approving a pull request and then pushing to its head clears the
/// approval and hands out a label change and exactly one comment: a warning
/// that names the new head commit.
pub proof fn approve_then_push_unapproves(
    v: DbView,
    prefix: Seq<char>,
    bot_name: Seq<char>,
    c: PullRequestComment,
    e: PullRequestPushed,
)
    requires
        db_wf(v),
        v.prs.len() + 1 < u64::MAX,
        c.author@ != bot_name,
        parsed_command(c.text@, prefix) == Some(BorsCommand::Approve),
        e.repository@ == c.repository@,
        e.pull_request.number == c.pull_request.number,
    ensures
        ({
            let v1 = on_comment(v, prefix, bot_name, c).0;
            let (v2, r) = on_pr_pushed(v1, e);
            let repo = e.repository@;
            let n = e.pull_request.number;
            &&& pr_index(v2.prs, repo, n) matches Some(i) && v2.prs[i].approved_by is None
            &&& r == Ok::<Seq<ActionView>, DbError>(
                seq![
                    ActionView::ApplyLabels { repository: repo, pr_number: n, trigger: LabelTrigger::Unapproved },
                    ActionView::PostComment {
                        repository: repo,
                        pr_number: n,
                        text: pushed_message(e.pull_request.head_sha@),
                    },
                ],
            )
        }),
{
    let repo = e.repository@;
    let n = e.pull_request.number;
    lemma_approved_after_approve(v, prefix, bot_name, c);
    let v1 = on_comment(v, prefix, bot_name, c).0;
    let v1b = touch_pr(v1, repo, e.pull_request);
    lemma_upsert(v1, repo, n, e.pull_request.base_branch@, e.pull_request.mergeable_state);
    let i = pr_index(v1b.prs, repo, n)->0;
    lemma_set_approval(v1b, v1b.prs[i].id, None, repo, n, i);
}

/// Editing a pull request without changing its base branch hands out
/// nothing and keeps its approval as it was.
pub proof fn edit_without_base_change_is_quiet(v: DbView, e: PullRequestEdited)
    requires
        db_wf(v),
        v.prs.len() < u64::MAX,
        e.from_base_sha is None,
    ensures
        on_pr_edited(v, e).1 == Ok::<Seq<ActionView>, DbError>(Seq::empty()),
        pr_index(on_pr_edited(v, e).0.prs, e.repository@, e.pull_request.number) matches Some(i)
            && match pr_index(v.prs, e.repository@, e.pull_request.number) {
            Some(j) => i == j && on_pr_edited(v, e).0.prs[i].approved_by == v.prs[j].approved_by,
            None => on_pr_edited(v, e).0.prs[i].approved_by is None,
        },
{
    lemma_upsert(v, e.repository@, e.pull_request.number, e.pull_request.base_branch@, e.pull_request.mergeable_state);
}

/// Pushing to a pull request that is not approved hands out nothing and
/// leaves it unapproved.
pub proof fn push_to_unapproved_is_quiet(v: DbView, e: PullRequestPushed)
    requires
        db_wf(v),
        v.prs.len() < u64::MAX,
        pr_index(v.prs, e.repository@, e.pull_request.number) matches Some(j) ==> v.prs[j].approved_by is None,
    ensures
        on_pr_pushed(v, e).1 == Ok::<Seq<ActionView>, DbError>(Seq::empty()),
        pr_index(on_pr_pushed(v, e).0.prs, e.repository@, e.pull_request.number) matches Some(i)
            && on_pr_pushed(v, e).0.prs[i].approved_by is None,
{
    lemma_upsert(v, e.repository@, e.pull_request.number, e.pull_request.base_branch@, e.pull_request.mergeable_state);
}

/// A push to a branch makes the mergeable state unknown for every pull
/// request of that repository based on that branch, and touches nothing else.
pub proof fn push_to_branch_resets_only_matching(v: DbView, e: PushToBranch)
    ensures
        ({
            let v2 = on_push_to_branch(v, e).0;
            &&& v2.prs.len() == v.prs.len()
            &&& v2.builds == v.builds
            &&& v2.workflows == v.workflows
            &&& on_push_to_branch(v, e).1 == Ok::<Seq<ActionView>, DbError>(Seq::empty())
            &&& forall|i: int|
                0 <= i < v.prs.len() ==> if pr_on_base(#[trigger] v.prs[i], e.repository@, e.branch@) {
                    v2.prs[i] == PrView { mergeable_state: MergeableState::Unknown, ..v.prs[i] }
                } else {
                    v2.prs[i] == v.prs[i]
                }
        }),
{
}

/// A status update never creates a workflow row, and one for a run id that
/// no row has changes nothing.
pub proof fn unknown_run_id_changes_nothing(v: DbView, run_id: u64, status: WorkflowStatus)
    ensures
        update_workflows(v, run_id, status).workflows.len() == v.workflows.len(),
        (forall|i: int| 0 <= i < v.workflows.len() ==> (#[trigger] v.workflows[i]).run_id != run_id)
            ==> update_workflows(v, run_id, status) == v,
{
    if forall|i: int| 0 <= i < v.workflows.len() ==> (#[trigger] v.workflows[i]).run_id != run_id {
        assert(update_workflows(v, run_id, status).workflows =~= v.workflows);
    }
}

/// A build whose status is terminal keeps that status whatever completion
/// is reported afterwards.
pub proof fn terminal_build_status_is_final(v: DbView, e: BuildCompleted, i: int)
    requires
        0 <= i < v.builds.len(),
        v.builds.len() <= u64::MAX,
        build_status_is_terminal(v.builds[i].status),
    ensures
        on_build_completed(v, e).0.builds.len() == v.builds.len(),
        on_build_completed(v, e).0.builds[i].status == v.builds[i].status,
{
    lemma_build_index(v.builds, e.repository@, e.branch@, e.commit_sha@, 0);
}

/// `ping` answers with exactly the pong comment and changes nothing.
pub proof fn ping_only_answers(v: DbView, prefix: Seq<char>, bot_name: Seq<char>, c: PullRequestComment)
    requires
        c.author@ != bot_name,
        parsed_command(c.text@, prefix) == Some(BorsCommand::Ping),
    ensures
        on_comment(v, prefix, bot_name, c) == (
            v,
            Ok::<Seq<ActionView>, DbError>(
                seq![
                    ActionView::PostComment {
                        repository: c.repository@,
                        pr_number: c.pull_request.number,
                        text: pong_message(),
                    },
                ],
            ),
        ),
        pong_message() == "Pong \u{1F3D3}!"@,
{
}

/// Comments written by the bot itself change nothing and hand out nothing.
pub proof fn own_comments_are_ignored(v: DbView, prefix: Seq<char>, bot_name: Seq<char>, c: PullRequestComment)
    requires
        c.author@ == bot_name,
    ensures
        on_comment(v, prefix, bot_name, c) == (v, Ok::<Seq<ActionView>, DbError>(Seq::empty())),
{
}

/// A run id survives being stored as a signed value and loaded back, and so
/// does every stored value.
pub proof fn run_id_storage_round_trip(id: u64, value: i64)
    ensures
        loaded_run_id(stored_run_id(id)) == id,
        stored_run_id(loaded_run_id(value)) == value,
{
}

} // verus!
