//! What the Git operations never do, stated over every sequence of replies.
use vstd::prelude::*;

use crate::git_utils::{
    AddFiles, AddFilesStage, CommitChanges, CommitStage, CreateBranch, CreateBranchStage,
    DeleteBranch, DeleteBranchStage, GitReplyView, GitRequestView, GitStepView, Integrate,
    IntegrateStage, RemoteOp, fetched_ref, RemoteStage, SwitchBranch, SwitchBranchStage, head_name_or_empty,
    succeed, CommitParents, RemoteTask,
};

verus! {

/// Deleting a branch never deletes the current one: in any run, the call
/// that deletes the branch comes only after HEAD was read and found to name
/// another branch.
pub proof fn delete_never_removes_current_branch(
    op: DeleteBranch,
    replies: Seq<GitReplyView>,
    k: int,
)
    requires
        op.stage == DeleteBranchStage::Opening || op.stage == DeleteBranchStage::ReadingHead,
        0 <= k < op.run(replies).len(),
        op.run(replies)[k] == GitStepView::Request(GitRequestView::DeleteFoundBranch),
    ensures
        exists|j: int|
            0 <= j <= k && j < replies.len() && op.asked(replies, j) == GitRequestView::ReadHeadShorthand && !(
            replies[j] is Failed) && head_name_or_empty(replies[j]) != op.branch_name@,
    decreases replies.len(),
{
    let (stage, step) = op.transition(replies[0]);
    let next = op.with_stage(stage);
    let rest = replies.drop_first();
    assert(op.run(replies) == seq![step] + next.run(rest));
    if op.stage == DeleteBranchStage::Opening {
        if stage == DeleteBranchStage::Finished {
            assert(next.run(rest).len() == 0);
        } else {
            delete_never_removes_current_branch(next, rest, k - 1);
            let j = choose|j: int|
                0 <= j <= k - 1 && j < rest.len() && next.asked(rest, j) == GitRequestView::ReadHeadShorthand && !(
                rest[j] is Failed) && head_name_or_empty(rest[j]) != op.branch_name@;
            assert(op.asked(replies, j + 1) == GitRequestView::ReadHeadShorthand);
            assert(replies[j + 1] == rest[j]);
        }
    } else {
        if stage == DeleteBranchStage::Finished {
            assert(next.run(rest).len() == 0);
        } else {
            assert(op.asked(replies, 0) == GitRequestView::ReadHeadShorthand);
        }
    }
}


/// Creating a branch never overwrites one: in any run, the call that creates
/// the branch comes only after looking up a local branch of that name failed.
pub proof fn create_never_replaces_existing_branch(
    op: CreateBranch,
    replies: Seq<GitReplyView>,
    k: int,
)
    requires
        op.stage == CreateBranchStage::Opening || op.stage == CreateBranchStage::LookingUp,
        0 <= k < op.run(replies).len(),
        op.run(replies)[k] is Request,
        op.run(replies)[k]->Request_0 is CreateBranchAtHead,
    ensures
        exists|j: int|
            0 <= j <= k && j < replies.len() && op.asked(replies, j)
                == GitRequestView::LookupLocalBranch(op.branch_name@) && replies[j] is Failed,
    decreases replies.len(),
{
    let (stage, step) = op.transition(replies[0]);
    let next = op.with_stage(stage);
    let rest = replies.drop_first();
    assert(op.run(replies) == seq![step] + next.run(rest));
    if stage == CreateBranchStage::Finished {
        assert(next.run(rest).len() == 0);
    } else if op.stage == CreateBranchStage::Opening {
        create_never_replaces_existing_branch(next, rest, k - 1);
        let j = choose|j: int|
            0 <= j <= k - 1 && j < rest.len() && next.asked(rest, j)
                == GitRequestView::LookupLocalBranch(op.branch_name@) && rest[j] is Failed;
        assert(op.asked(replies, j + 1) == next.asked(rest, j));
        assert(replies[j + 1] == rest[j]);
    } else {
        assert(op.asked(replies, 0) == GitRequestView::LookupLocalBranch(op.branch_name@));
    }
}

/// Committing never commits an empty index: in any run, the commit call
/// comes only after the index was found not to be empty.
pub proof fn commit_never_records_empty_index(
    op: CommitChanges,
    replies: Seq<GitReplyView>,
    k: int,
)
    requires
        op.stage == CommitStage::Opening || op.stage == CommitStage::OpeningIndex || op.stage
            == CommitStage::CheckingEmpty,
        0 <= k < op.run(replies).len(),
        op.run(replies)[k] is Request,
        op.run(replies)[k]->Request_0 is Commit,
    ensures
        exists|j: int|
            0 <= j <= k && j < replies.len() && op.asked(replies, j)
                == GitRequestView::CheckIndexEmpty && replies[j] != GitReplyView::Flag(true),
    decreases replies.len(),
{
    let (stage, step) = op.transition(replies[0]);
    let next = op.with_stage(stage);
    let rest = replies.drop_first();
    assert(op.run(replies) == seq![step] + next.run(rest));
    if stage == CommitStage::Finished {
        assert(next.run(rest).len() == 0);
    } else if op.stage != CommitStage::CheckingEmpty {
        commit_never_records_empty_index(next, rest, k - 1);
        let j = choose|j: int|
            0 <= j <= k - 1 && j < rest.len() && next.asked(rest, j)
                == GitRequestView::CheckIndexEmpty && rest[j] != GitReplyView::Flag(true);
        assert(op.asked(replies, j + 1) == next.asked(rest, j));
        assert(replies[j + 1] == rest[j]);
    } else {
        assert(op.asked(replies, 0) == GitRequestView::CheckIndexEmpty);
    }
}

/// Merging never merges a branch into itself: in any run of a merge, the
/// calls that change the current branch (the merge itself, or moving a
/// reference for a fast-forward) come only after HEAD was read and found to
/// name another branch.
pub proof fn merge_never_merges_branch_into_itself(
    op: Integrate,
    replies: Seq<GitReplyView>,
    k: int,
)
    requires
        op.remote is None,
        op.stage == IntegrateStage::Opening || op.stage == IntegrateStage::ReadingHead,
        0 <= k < op.run(replies).len(),
        op.run(replies)[k] is Request,
        op.run(replies)[k]->Request_0 is MergeIncoming || op.run(replies)[k]->Request_0 is SetReferenceTarget,
    ensures
        exists|j: int|
            0 <= j <= k && j < replies.len() && op.asked(replies, j)
                == GitRequestView::ReadHeadShorthand && (replies[j] matches GitReplyView::Name(
                Some(current),
            ) && current != op.branch_name@),
    decreases replies.len(),
{
    let (stage, step) = op.transition(replies[0]);
    let next = op.with_stage(stage);
    let rest = replies.drop_first();
    assert(op.run(replies) == seq![step] + next.run(rest));
    if stage == IntegrateStage::Finished {
        assert(next.run(rest).len() == 0);
    } else if op.stage == IntegrateStage::Opening {
        merge_never_merges_branch_into_itself(next, rest, k - 1);
        let j = choose|j: int|
            0 <= j <= k - 1 && j < rest.len() && next.asked(rest, j)
                == GitRequestView::ReadHeadShorthand && (rest[j] matches GitReplyView::Name(
                Some(current),
            ) && current != op.branch_name@);
        assert(op.asked(replies, j + 1) == next.asked(rest, j));
        assert(replies[j + 1] == rest[j]);
    } else {
        assert(op.asked(replies, 0) == GitRequestView::ReadHeadShorthand);
    }
}

/// The stages of a pull before it has resolved the commit that it fetched.
pub open spec fn before_fetched_commit(stage: IntegrateStage) -> bool {
    match stage {
        IntegrateStage::Opening | IntegrateStage::FindingRemote | IntegrateStage::Resolving
        | IntegrateStage::Annotating | IntegrateStage::Fetching
        | IntegrateStage::ResolvingFetched => true,
        _ => false,
    }
}

/// A pull merges what it fetched: in any run of a pull from its start, the
/// merge analysis (and so any fast-forward or merge after it) comes only
/// after the fetch succeeded and, after it, the reference that the fetch
/// leaves was resolved to the incoming commit that they work on.
pub proof fn pull_integrates_fetched_commit(op: Integrate, replies: Seq<GitReplyView>, k: int)
    requires
        op.remote is Some,
        before_fetched_commit(op.stage),
        0 <= k < op.run(replies).len(),
        op.run(replies)[k] == GitStepView::Request(GitRequestView::AnalyzeMerge),
    ensures
        exists|j: int|
            0 <= j <= k && j < replies.len() && op.asked(replies, j)
                == GitRequestView::ResolveReference(fetched_ref()) && !(replies[j] is Failed),
        op.stage != IntegrateStage::ResolvingFetched ==> exists|j: int|
            0 <= j <= k && j < replies.len() && op.asked(replies, j)
                == GitRequestView::FetchBranch(op.branch_name@) && !(replies[j] is Failed),
    decreases replies.len(),
{
    let (stage, step) = op.transition(replies[0]);
    let next = op.with_stage(stage);
    let rest = replies.drop_first();
    assert(op.run(replies) == seq![step] + next.run(rest));
    if stage == IntegrateStage::Finished {
        assert(next.run(rest).len() == 0);
    } else if op.stage == IntegrateStage::ResolvingFetched {
        assert(op.asked(replies, 0) == GitRequestView::ResolveReference(fetched_ref()));
    } else {
        assert(before_fetched_commit(stage));
        pull_integrates_fetched_commit(next, rest, k - 1);
        let j = choose|j: int|
            0 <= j <= k - 1 && j < rest.len() && next.asked(rest, j)
                == GitRequestView::ResolveReference(fetched_ref()) && !(rest[j] is Failed);
        assert(op.asked(replies, j + 1) == next.asked(rest, j));
        assert(replies[j + 1] == rest[j]);
        if op.stage == IntegrateStage::Fetching {
            assert(op.asked(replies, 0) == GitRequestView::FetchBranch(op.branch_name@));
        } else {
            let j2 = choose|j: int|
                0 <= j <= k - 1 && j < rest.len() && next.asked(rest, j)
                    == GitRequestView::FetchBranch(op.branch_name@) && !(rest[j] is Failed);
            assert(op.asked(replies, j2 + 1) == next.asked(rest, j2));
            assert(replies[j2 + 1] == rest[j2]);
        }
    }
}

/// The stages of a merge or pull before a fast-forward resolves the current branch.
pub open spec fn before_fast_forward_target(stage: IntegrateStage) -> bool {
    match stage {
        IntegrateStage::SettingTarget | IntegrateStage::CheckingOut | IntegrateStage::Finished => false,
        _ => true,
    }
}

/// After HEAD's reference is moved, no run moves a reference again.
proof fn no_target_after_moving(op: Integrate, replies: Seq<GitReplyView>, k: int)
    requires
        !before_fast_forward_target(op.stage),
        0 <= k < op.run(replies).len(),
    ensures
        !(op.run(replies)[k] is Request && op.run(replies)[k]->Request_0 is SetReferenceTarget),
    decreases replies.len(),
{
    let (stage, step) = op.transition(replies[0]);
    let next = op.with_stage(stage);
    let rest = replies.drop_first();
    assert(op.run(replies) == seq![step] + next.run(rest));
    if k > 0 {
        no_target_after_moving(next, rest, k - 1);
    }
}

/// A fast-forward moves the current branch: in any run, the call that moves
/// a reference to the incoming commit answers HEAD being resolved to the
/// reference of the current branch, which is the reference it moves.
pub proof fn fast_forward_moves_current_branch(op: Integrate, replies: Seq<GitReplyView>, k: int)
    requires
        0 <= k < op.run(replies).len(),
        op.run(replies)[k] is Request,
        op.run(replies)[k]->Request_0 is SetReferenceTarget,
    ensures
        k < replies.len() && op.asked(replies, k) == GitRequestView::ResolveHead && !(
        replies[k] is Failed),
    decreases replies.len(),
{
    if !before_fast_forward_target(op.stage) {
        no_target_after_moving(op, replies, k);
    } else {
        let (stage, step) = op.transition(replies[0]);
        let next = op.with_stage(stage);
        let rest = replies.drop_first();
        assert(op.run(replies) == seq![step] + next.run(rest));
        if k > 0 {
            fast_forward_moves_current_branch(next, rest, k - 1);
            assert(op.asked(replies, k) == next.asked(rest, k - 1));
            assert(replies[k] == rest[k - 1]);
        }
    }
}

/// The stages of a merge or pull before its check for conflicts.
pub open spec fn before_conflict_check(stage: IntegrateStage) -> bool {
    match stage {
        IntegrateStage::ReadingSignature | IntegrateStage::ResolvingHead
        | IntegrateStage::PeelingHead | IntegrateStage::FindingIncoming
        | IntegrateStage::OpeningIndex | IntegrateStage::WritingTree | IntegrateStage::FindingTree
        | IntegrateStage::Committing | IntegrateStage::Finished => false,
        _ => true,
    }
}

/// A merge or pull never records a merge with conflicts: in any run, the
/// commit call comes only after the check for conflicts
/// answered without failing and without reporting conflicts.
pub proof fn merge_commits_only_without_conflicts(
    op: Integrate,
    replies: Seq<GitReplyView>,
    k: int,
)
    requires
        before_conflict_check(op.stage),
        0 <= k < op.run(replies).len(),
        op.run(replies)[k] is Request,
        op.run(replies)[k]->Request_0 is Commit,
    ensures
        exists|j: int|
            0 <= j <= k && j < replies.len() && op.asked(replies, j)
                == GitRequestView::CheckConflicts && replies[j] != GitReplyView::Flag(true) && !(
            replies[j] is Failed),
    decreases replies.len(),
{
    let (stage, step) = op.transition(replies[0]);
    let next = op.with_stage(stage);
    let rest = replies.drop_first();
    assert(op.run(replies) == seq![step] + next.run(rest));
    if stage == IntegrateStage::Finished {
        assert(next.run(rest).len() == 0);
    } else if op.stage != IntegrateStage::CheckingConflicts {
        assert(before_conflict_check(stage));
        merge_commits_only_without_conflicts(next, rest, k - 1);
        let j = choose|j: int|
            0 <= j <= k - 1 && j < rest.len() && next.asked(rest, j)
                == GitRequestView::CheckConflicts && rest[j] != GitReplyView::Flag(true) && !(
                rest[j] is Failed);
        assert(op.asked(replies, j + 1) == next.asked(rest, j));
        assert(replies[j + 1] == rest[j]);
    } else {
        assert(op.asked(replies, 0) == GitRequestView::CheckConflicts);
    }
}


/// Every run ends: an unfinished operation makes at most `rank` more calls,
/// and given replies to that many, its last step is its result.
pub proof fn create_branch_ends(op: CreateBranch, replies: Seq<GitReplyView>)
    requires
        op.stage != CreateBranchStage::Finished,
        replies.len() >= op.rank(),
    ensures
        0 < op.run(replies).len() <= op.rank(),
        op.run(replies).last() is Finished,
    decreases replies.len(),
{
    let (stage, step) = op.transition(replies[0]);
    let next = op.with_stage(stage);
    let rest = replies.drop_first();
    assert(op.run(replies) == seq![step] + next.run(rest));
    if stage == CreateBranchStage::Finished {
        assert(next.run(rest).len() == 0);
        assert(op.run(replies) =~= seq![step]);
    } else {
        create_branch_ends(next, rest);
        assert(op.run(replies).last() == next.run(rest).last());
    }
}

/// Every run ends: an unfinished operation makes at most `rank` more calls,
/// and given replies to that many, its last step is its result.
pub proof fn delete_branch_ends(op: DeleteBranch, replies: Seq<GitReplyView>)
    requires
        op.stage != DeleteBranchStage::Finished,
        replies.len() >= op.rank(),
    ensures
        0 < op.run(replies).len() <= op.rank(),
        op.run(replies).last() is Finished,
    decreases replies.len(),
{
    let (stage, step) = op.transition(replies[0]);
    let next = op.with_stage(stage);
    let rest = replies.drop_first();
    assert(op.run(replies) == seq![step] + next.run(rest));
    if stage == DeleteBranchStage::Finished {
        assert(next.run(rest).len() == 0);
        assert(op.run(replies) =~= seq![step]);
    } else {
        delete_branch_ends(next, rest);
        assert(op.run(replies).last() == next.run(rest).last());
    }
}

/// Every run ends: an unfinished operation makes at most `rank` more calls,
/// and given replies to that many, its last step is its result.
pub proof fn switch_branch_ends(op: SwitchBranch, replies: Seq<GitReplyView>)
    requires
        op.stage != SwitchBranchStage::Finished,
        replies.len() >= op.rank(),
    ensures
        0 < op.run(replies).len() <= op.rank(),
        op.run(replies).last() is Finished,
    decreases replies.len(),
{
    let (stage, step) = op.transition(replies[0]);
    let next = op.with_stage(stage);
    let rest = replies.drop_first();
    assert(op.run(replies) == seq![step] + next.run(rest));
    if stage == SwitchBranchStage::Finished {
        assert(next.run(rest).len() == 0);
        assert(op.run(replies) =~= seq![step]);
    } else {
        switch_branch_ends(next, rest);
        assert(op.run(replies).last() == next.run(rest).last());
    }
}

/// Every run ends: an unfinished operation makes at most `rank` more calls,
/// and given replies to that many, its last step is its result.
pub proof fn add_files_ends(op: AddFiles, replies: Seq<GitReplyView>)
    requires
        op.stage != AddFilesStage::Finished,
        op.wf(),
        replies.len() >= op.rank(),
    ensures
        0 < op.run(replies).len() <= op.rank(),
        op.run(replies).last() is Finished,
    decreases replies.len(),
{
    let (stage, step) = op.transition(replies[0]);
    let next = op.with_stage(stage);
    let rest = replies.drop_first();
    assert(op.run(replies) == seq![step] + next.run(rest));
    if stage == AddFilesStage::Finished {
        assert(next.run(rest).len() == 0);
        assert(op.run(replies) =~= seq![step]);
    } else {
        assert(next.wf());
        add_files_ends(next, rest);
        assert(op.run(replies).last() == next.run(rest).last());
    }
}

/// Every run ends: an unfinished operation makes at most `rank` more calls,
/// and given replies to that many, its last step is its result.
pub proof fn commit_changes_ends(op: CommitChanges, replies: Seq<GitReplyView>)
    requires
        op.stage != CommitStage::Finished,
        replies.len() >= op.rank(),
    ensures
        0 < op.run(replies).len() <= op.rank(),
        op.run(replies).last() is Finished,
    decreases replies.len(),
{
    let (stage, step) = op.transition(replies[0]);
    let next = op.with_stage(stage);
    let rest = replies.drop_first();
    assert(op.run(replies) == seq![step] + next.run(rest));
    if stage == CommitStage::Finished {
        assert(next.run(rest).len() == 0);
        assert(op.run(replies) =~= seq![step]);
    } else {
        commit_changes_ends(next, rest);
        assert(op.run(replies).last() == next.run(rest).last());
    }
}

/// Every run ends: an unfinished operation makes at most `rank` more calls,
/// and given replies to that many, its last step is its result.
pub proof fn merge_and_pull_end(op: Integrate, replies: Seq<GitReplyView>)
    requires
        op.stage != IntegrateStage::Finished,
        replies.len() >= op.rank(),
    ensures
        0 < op.run(replies).len() <= op.rank(),
        op.run(replies).last() is Finished,
    decreases replies.len(),
{
    let (stage, step) = op.transition(replies[0]);
    let next = op.with_stage(stage);
    let rest = replies.drop_first();
    assert(op.run(replies) == seq![step] + next.run(rest));
    if stage == IntegrateStage::Finished {
        assert(next.run(rest).len() == 0);
        assert(op.run(replies) =~= seq![step]);
    } else {
        merge_and_pull_end(next, rest);
        assert(op.run(replies).last() == next.run(rest).last());
    }
}

/// Every run ends: an unfinished operation makes at most `rank` more calls,
/// and given replies to that many, its last step is its result.
pub proof fn remote_operations_end(op: RemoteOp, replies: Seq<GitReplyView>)
    requires
        op.stage != RemoteStage::Finished,
        replies.len() >= op.rank(),
    ensures
        0 < op.run(replies).len() <= op.rank(),
        op.run(replies).last() is Finished,
    decreases replies.len(),
{
    let (stage, step) = op.transition(replies[0]);
    let next = op.with_stage(stage);
    let rest = replies.drop_first();
    assert(op.run(replies) == seq![step] + next.run(rest));
    if stage == RemoteStage::Finished {
        assert(next.run(rest).len() == 0);
        assert(op.run(replies) =~= seq![step]);
    } else {
        remote_operations_end(next, rest);
        assert(op.run(replies).last() == next.run(rest).last());
    }
}


/// A run takes at most one step for each reply.
proof fn integrate_run_fits_replies(op: Integrate, replies: Seq<GitReplyView>)
    ensures
        op.run(replies).len() <= replies.len(),
    decreases replies.len(),
{
    if replies.len() > 0 && op.stage != IntegrateStage::Finished {
        let (stage, step) = op.transition(replies[0]);
        integrate_run_fits_replies(op.with_stage(stage), replies.drop_first());
    }
}

/// A run takes at most one step for each reply.
proof fn remote_run_fits_replies(op: RemoteOp, replies: Seq<GitReplyView>)
    ensures
        op.run(replies).len() <= replies.len(),
    decreases replies.len(),
{
    if replies.len() > 0 && op.stage != RemoteStage::Finished {
        let (stage, step) = op.transition(replies[0]);
        remote_run_fits_replies(op.with_stage(stage), replies.drop_first());
    }
}

/// A successful fast-forward moves the current branch: in any run of a merge
/// or a pull in which the merge analysis finds that the incoming commit is
/// ahead (a fast-forward is possible and the branch is not up to date) and
/// which ends in success, the three calls after the analysis resolve HEAD's
/// reference, point it at the incoming commit and check out HEAD, each without
/// failing, and the run ends right after the checkout.
pub proof fn successful_fast_forward_moves_current_branch(
    op: Integrate,
    replies: Seq<GitReplyView>,
    a: int,
)
    requires
        0 <= a < op.run(replies).len(),
        op.asked(replies, a) == GitRequestView::AnalyzeMerge,
        (replies[a] matches GitReplyView::Analysis { up_to_date, fast_forward, normal: _ } && !up_to_date
            && fast_forward),
        op.run(replies).last() == succeed(),
    ensures
        op.run(replies).len() == a + 4,
        op.asked(replies, a + 1) == GitRequestView::ResolveHead && !(replies[a + 1] is Failed),
        op.asked(replies, a + 2) == GitRequestView::SetReferenceTarget("Fast-Forward Merge"@)
            && !(replies[a + 2] is Failed),
        op.asked(replies, a + 3) == (GitRequestView::CheckoutHead { allow_conflicts: false }) && !(
        replies[a + 3] is Failed),
    decreases replies.len(),
{
    integrate_run_fits_replies(op, replies);
    let (stage, step) = op.transition(replies[0]);
    let next = op.with_stage(stage);
    let rest = replies.drop_first();
    assert(op.run(replies) == seq![step] + next.run(rest));
    if a == 0 {
        assert(op.stage == IntegrateStage::Analyzing);
        assert(stage == IntegrateStage::ResolvingTarget);
        // The reply to resolving HEAD.
        let (s1, t1) = next.transition(rest[0]);
        let n1 = next.with_stage(s1);
        let r1 = rest.drop_first();
        assert(next.run(rest) == seq![t1] + n1.run(r1));
        assert(!(rest[0] is Failed));
        assert(s1 == IntegrateStage::SettingTarget);
        // The reply to setting the target.
        let (s2, t2) = n1.transition(r1[0]);
        let n2 = n1.with_stage(s2);
        let r2 = r1.drop_first();
        assert(n1.run(r1) == seq![t2] + n2.run(r2));
        assert(!(r1[0] is Failed));
        assert(s2 == IntegrateStage::CheckingOut);
        // The reply to the checkout.
        let (s3, t3) = n2.transition(r2[0]);
        let n3 = n2.with_stage(s3);
        let r3 = r2.drop_first();
        assert(n2.run(r2) == seq![t3] + n3.run(r3));
        assert(!(r2[0] is Failed));
        assert(n3.run(r3).len() == 0);
        assert(replies[1] == rest[0]);
        assert(replies[2] == r1[0]);
        assert(replies[3] == r2[0]);
    } else {
        assert(next.run(rest).len() > 0);
        assert(op.asked(replies, a) == next.asked(rest, a - 1));
        assert(replies[a] == rest[a - 1]);
        assert(op.run(replies).last() == next.run(rest).last());
        successful_fast_forward_moves_current_branch(next, rest, a - 1);
        integrate_run_fits_replies(next, rest);
        assert(op.asked(replies, a + 1) == next.asked(rest, a));
        assert(op.asked(replies, a + 2) == next.asked(rest, a + 1));
        assert(op.asked(replies, a + 3) == next.asked(rest, a + 2));
        assert(replies[a + 1] == rest[a]);
        assert(replies[a + 2] == rest[a + 1]);
        assert(replies[a + 3] == rest[a + 2]);
    }
}

/// A commit records the message that it was started with: in any run, the
/// call waited on and every call made after it, where it is a commit (the
/// first commit of the repository or one on HEAD), carries exactly that message.
pub proof fn commit_records_given_message(op: CommitChanges, replies: Seq<GitReplyView>)
    ensures
        op.pending() is Commit ==> op.pending()->Commit_message == op.message@,
        forall|k: int|
            0 <= k < op.run(replies).len() && (#[trigger] op.run(replies)[k]) is Request
                && op.run(replies)[k]->Request_0 is Commit ==> op.run(replies)[k]->Request_0->Commit_message
                == op.message@,
    decreases replies.len(),
{
    if replies.len() > 0 && op.stage != CommitStage::Finished {
        let (stage, step) = op.transition(replies[0]);
        let next = op.with_stage(stage);
        let rest = replies.drop_first();
        assert(op.run(replies) == seq![step] + next.run(rest));
        commit_records_given_message(next, rest);
        assert forall|k: int|
            0 <= k < op.run(replies).len() && (#[trigger] op.run(replies)[k]) is Request
                && op.run(replies)[k]->Request_0 is Commit implies op.run(replies)[k]->Request_0->Commit_message
                == op.message@ by {
            if k > 0 {
                assert(op.run(replies)[k] == next.run(rest)[k - 1]);
            }
        }
    }
}

/// A remote operation fails exactly where the repository reports a failure:
/// each step of any run (adding or removing a remote, or pushing a branch)
/// is an error if and only if the reply that it answers is a failure.
pub proof fn remote_operation_fails_only_on_failed_reply(
    op: RemoteOp,
    replies: Seq<GitReplyView>,
    k: int,
)
    requires
        0 <= k < op.run(replies).len(),
    ensures
        (op.run(replies)[k] is Finished && op.run(replies)[k]->Finished_0 is Err) <==> replies[k] is Failed,
    decreases replies.len(),
{
    remote_run_fits_replies(op, replies);
    let (stage, step) = op.transition(replies[0]);
    let next = op.with_stage(stage);
    let rest = replies.drop_first();
    assert(op.run(replies) == seq![step] + next.run(rest));
    if k > 0 {
        remote_operation_fails_only_on_failed_reply(next, rest, k - 1);
        assert(op.run(replies)[k] == next.run(rest)[k - 1]);
        assert(replies[k] == rest[k - 1]);
    }
}

/// A remote operation whose calls all succeed succeeds: given replies none of
/// which is a failure, as many as the calls it can make, it ends with `Ok`.
pub proof fn remote_operation_succeeds_without_failures(op: RemoteOp, replies: Seq<GitReplyView>)
    requires
        op.stage != RemoteStage::Finished,
        replies.len() >= op.rank(),
        forall|j: int| 0 <= j < replies.len() ==> !(#[trigger] replies[j] is Failed),
    ensures
        op.run(replies).last() == succeed(),
{
    remote_operations_end(op, replies);
    remote_run_fits_replies(op, replies);
    let k = op.run(replies).len() - 1;
    remote_operation_fails_only_on_failed_reply(op, replies, k);
    assert(k < replies.len());
    assert(!(replies[k] is Failed));
    if let GitStepView::Finished(Ok(u)) = op.run(replies)[k] {
        assert(u == ());
    }
}


/// A merge or pull succeeds only by moving the current branch: the step of
/// any run that ends it with `Ok` answers, without a failure, either the
/// checkout of HEAD that completes a fast-forward or the commit that records
/// the merge on HEAD and the incoming commit, with the message
/// "Merge branch '<branch>'" (merge) or "Pull from <remote>/<branch>" (pull).
pub proof fn merge_succeeds_only_by_moving_current_branch(
    op: Integrate,
    replies: Seq<GitReplyView>,
    k: int,
)
    requires
        0 <= k < op.run(replies).len(),
        op.run(replies)[k] == succeed(),
    ensures
        !(replies[k] is Failed),
        op.asked(replies, k) == (GitRequestView::CheckoutHead { allow_conflicts: false })
            || op.asked(replies, k) == (GitRequestView::Commit {
            message: match op.remote {
                None => "Merge branch '"@ + op.branch_name@ + "'"@,
                Some(r) => "Pull from "@ + r@ + "/"@ + op.branch_name@,
            },
            parents: CommitParents::HeadAndIncoming,
        }),
    decreases replies.len(),
{
    integrate_run_fits_replies(op, replies);
    let (stage, step) = op.transition(replies[0]);
    let next = op.with_stage(stage);
    let rest = replies.drop_first();
    assert(op.run(replies) == seq![step] + next.run(rest));
    if k == 0 {
        assert(op.stage == IntegrateStage::CheckingOut || op.stage == IntegrateStage::Committing);
    } else {
        assert(op.run(replies)[k] == next.run(rest)[k - 1]);
        merge_succeeds_only_by_moving_current_branch(next, rest, k - 1);
        assert(op.asked(replies, k) == next.asked(rest, k - 1));
        assert(replies[k] == rest[k - 1]);
    }
}

/// A commit succeeds only by committing: the step of any run that ends it
/// with `Ok` answers, without a failure, a commit call with the message the
/// operation was started with. It is the first commit of the repository
/// exactly where the call before it, resolving HEAD, failed; otherwise it is
/// a commit on HEAD, made after HEAD was resolved and peeled to its commit.
pub proof fn commit_succeeds_only_by_committing(
    op: CommitChanges,
    replies: Seq<GitReplyView>,
    k: int,
)
    requires
        0 <= k < op.run(replies).len(),
        op.run(replies)[k] == succeed(),
    ensures
        !(replies[k] is Failed),
        op.asked(replies, k) == (GitRequestView::Commit {
            message: op.message@,
            parents: CommitParents::Initial,
        }) || op.asked(replies, k) == (GitRequestView::Commit {
            message: op.message@,
            parents: CommitParents::Head,
        }),
        k >= 1 ==> (op.asked(replies, k)->Commit_parents == CommitParents::Initial <==> (op.asked(
            replies,
            k - 1,
        ) == GitRequestView::ResolveHead && replies[k - 1] is Failed)),
        k >= 1 && op.asked(replies, k)->Commit_parents == CommitParents::Head ==> op.asked(
            replies,
            k - 1,
        ) == GitRequestView::PeelHeadToCommit && !(replies[k - 1] is Failed),
        k >= 2 && op.asked(replies, k)->Commit_parents == CommitParents::Head ==> op.asked(
            replies,
            k - 2,
        ) == GitRequestView::ResolveHead && !(replies[k - 2] is Failed),
    decreases replies.len(),
{
    commit_run_fits_replies(op, replies);
    let (stage, step) = op.transition(replies[0]);
    let next = op.with_stage(stage);
    let rest = replies.drop_first();
    assert(op.run(replies) == seq![step] + next.run(rest));
    if k == 0 {
        assert(op.stage == CommitStage::CommittingInitial || op.stage == CommitStage::Committing);
    } else {
        assert(op.run(replies)[k] == next.run(rest)[k - 1]);
        commit_succeeds_only_by_committing(next, rest, k - 1);
        commit_run_fits_replies(next, rest);
        assert(op.asked(replies, k) == next.asked(rest, k - 1));
        assert(replies[k] == rest[k - 1]);
        if k >= 2 {
            assert(op.asked(replies, k - 1) == next.asked(rest, k - 2));
            assert(replies[k - 1] == rest[k - 2]);
        }
        if k >= 3 {
            assert(op.asked(replies, k - 2) == next.asked(rest, k - 3));
            assert(replies[k - 2] == rest[k - 3]);
        }
    }
}

/// A run takes at most one step for each reply.
proof fn commit_run_fits_replies(op: CommitChanges, replies: Seq<GitReplyView>)
    ensures
        op.run(replies).len() <= replies.len(),
    decreases replies.len(),
{
    if replies.len() > 0 && op.stage != CommitStage::Finished {
        let (stage, step) = op.transition(replies[0]);
        commit_run_fits_replies(op.with_stage(stage), replies.drop_first());
    }
}


/// The calls of a remote operation from its start, each answered by a reply
/// of the run: it opens the repository;
/// then adds the remote with its name and URL, or deletes the remote of that
/// name, or, for a push, finds the remote and pushes
/// "refs/heads/<branch>:refs/heads/<branch>" to it.
pub proof fn remote_operation_calls(op: RemoteOp, replies: Seq<GitReplyView>, k: int)
    requires
        op.stage == RemoteStage::Opening,
        0 <= k < op.run(replies).len(),
    ensures
        k == 0 ==> op.asked(replies, k) == GitRequestView::OpenRepository(op.repo_path@),
        k >= 1 ==> match op.task {
            RemoteTask::Add { name, url } => k == 1 && op.asked(replies, k)
                == (GitRequestView::AddRemote { name: name@, url: url@ }),
            RemoteTask::Remove { name } => k == 1 && op.asked(replies, k)
                == GitRequestView::DeleteRemote(name@),
            RemoteTask::Push { remote, branch } => (k == 1 && op.asked(replies, k)
                == GitRequestView::FindRemote(remote@)) || (k == 2 && op.asked(replies, k)
                == GitRequestView::PushRefspec(
                "refs/heads/"@ + branch@ + ":"@ + "refs/heads/"@ + branch@,
            )),
        },
{
    remote_run_fits_replies(op, replies);
    if k >= 1 {
        let (s1, t1) = op.transition(replies[0]);
        let n1 = op.with_stage(s1);
        let r1 = replies.drop_first();
        assert(op.run(replies) == seq![t1] + n1.run(r1));
        assert(op.asked(replies, 1) == n1.pending());
        if k >= 2 {
            let (s2, t2) = n1.transition(r1[0]);
            let n2 = n1.with_stage(s2);
            let r2 = r1.drop_first();
            assert(n1.run(r1) == seq![t2] + n2.run(r2));
            assert(op.asked(replies, 2) == n2.pending());
            if k >= 3 {
                let (s3, t3) = n2.transition(r2[0]);
                assert(n2.run(r2) == seq![t3] + n2.with_stage(s3).run(r2.drop_first()));
            }
        }
        if let RemoteTask::Push { remote, branch } = op.task {
            assert(("refs/heads/"@ + branch@) + ":"@ + ("refs/heads/"@ + branch@)
                =~= "refs/heads/"@ + branch@ + ":"@ + "refs/heads/"@ + branch@);
        }
    }
}

} // verus!
