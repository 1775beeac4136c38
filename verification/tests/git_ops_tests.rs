use rugit::git_utils::{
    add_files, add_remote, commit_changes, create_branch, delete_branch, merge_branch, pull_branch,
    push_branch, remove_remote, switch_branch, CommitParents, GitReply, GitRequest, GitStep,
};

fn done() -> GitReply {
    GitReply::Done
}

fn failed() -> GitReply {
    GitReply::Failed("boom".to_string())
}

fn request(step: GitStep) -> GitRequest {
    match step {
        GitStep::Request(r) => r,
        GitStep::Finished(r) => panic!("finished early: {:?}", r),
    }
}

fn finished(step: GitStep) -> Result<(), String> {
    match step {
        GitStep::Finished(r) => r,
        GitStep::Request(_) => panic!("expected the end"),
    }
}

#[test]
fn create_branch_checks_for_an_existing_branch() {
    let (mut op, first) = create_branch(".", "dev");
    assert!(matches!(first, GitRequest::OpenRepository(ref p) if p == "."));
    assert!(matches!(request(op.next(done())), GitRequest::LookupLocalBranch(ref n) if n == "dev"));
    assert_eq!(finished(op.next(done())), Err("Branch 'dev' already exists.".to_string()));

    let (mut op, _) = create_branch(".", "dev");
    op.next(done());
    assert!(matches!(request(op.next(failed())), GitRequest::ResolveHead));
    assert!(matches!(request(op.next(done())), GitRequest::PeelHeadToCommit));
    assert!(matches!(request(op.next(done())), GitRequest::CreateBranchAtHead(ref n) if n == "dev"));
    assert_eq!(finished(op.next(done())), Ok(()));
}

#[test]
fn create_branch_reports_each_failure() {
    let (mut op, _) = create_branch("/repo", "x");
    assert_eq!(finished(op.next(failed())), Err("Failed to open repository at '/repo'".to_string()));
    let (mut op, _) = create_branch(".", "x");
    op.next(done());
    op.next(failed());
    assert_eq!(finished(op.next(failed())), Err("Failed to get HEAD".to_string()));
    let (mut op, _) = create_branch(".", "x");
    op.next(done());
    op.next(failed());
    op.next(done());
    assert_eq!(finished(op.next(failed())), Err("Failed to peel HEAD to commit".to_string()));
    let (mut op, _) = create_branch(".", "x");
    op.next(done());
    op.next(failed());
    op.next(done());
    op.next(done());
    assert_eq!(finished(op.next(failed())), Err("Failed to create branch 'x'".to_string()));
}

#[test]
fn delete_branch_refuses_the_current_branch() {
    let (mut op, _) = delete_branch(".", "main");
    assert!(matches!(request(op.next(done())), GitRequest::ReadHeadShorthand));
    assert_eq!(
        finished(op.next(GitReply::Name(Some("main".to_string())))),
        Err("Cannot delete the current active branch 'main'.".to_string())
    );
    let (mut op, _) = delete_branch(".", "old");
    op.next(done());
    assert!(matches!(request(op.next(GitReply::Name(None))), GitRequest::FindLocalBranch(ref n) if n == "old"));
    assert!(matches!(request(op.next(done())), GitRequest::DeleteFoundBranch));
    assert_eq!(finished(op.next(done())), Ok(()));
    let (mut op, _) = delete_branch(".", "old");
    op.next(done());
    op.next(GitReply::Name(Some("main".to_string())));
    assert_eq!(finished(op.next(failed())), Err("Branch 'old' not found.".to_string()));
    let (mut op, _) = delete_branch(".", "old");
    op.next(done());
    assert_eq!(finished(op.next(failed())), Err("Failed to get HEAD".to_string()));
}

#[test]
fn delete_branch_with_empty_name_and_no_head_name() {
    let (mut op, _) = delete_branch(".", "");
    op.next(done());
    assert_eq!(
        finished(op.next(GitReply::Name(None))),
        Err("Cannot delete the current active branch ''.".to_string())
    );
}

#[test]
fn switch_branch_resolves_then_checks_out() {
    let (mut op, _) = switch_branch(".", "topic");
    assert!(matches!(request(op.next(done())), GitRequest::ResolveReference(ref r) if r == "refs/heads/topic"));
    assert!(matches!(request(op.next(done())), GitRequest::FindAnnotatedCommit));
    assert!(matches!(request(op.next(done())), GitRequest::SetHead(ref r) if r == "refs/heads/topic"));
    assert!(matches!(request(op.next(done())), GitRequest::CheckoutHead { allow_conflicts: true }));
    assert_eq!(finished(op.next(done())), Ok(()));
    let (mut op, _) = switch_branch(".", "nope");
    op.next(done());
    assert_eq!(finished(op.next(failed())), Err("Branch 'nope' not found.".to_string()));
}

#[test]
fn add_files_adds_each_then_writes() {
    let files = vec!["a.txt".to_string(), "b.txt".to_string()];
    let (mut op, _) = add_files(".", &files);
    assert!(matches!(request(op.next(done())), GitRequest::OpenIndex));
    assert!(matches!(request(op.next(done())), GitRequest::AddPath(ref p) if p == "a.txt"));
    assert!(matches!(request(op.next(done())), GitRequest::AddPath(ref p) if p == "b.txt"));
    assert!(matches!(request(op.next(done())), GitRequest::WriteIndex));
    assert_eq!(finished(op.next(done())), Ok(()));
    let (mut op, _) = add_files(".", &files);
    op.next(done());
    op.next(done());
    op.next(done());
    assert_eq!(finished(op.next(failed())), Err("Failed to add file 'b.txt'".to_string()));
    let (mut op, _) = add_files(".", &[]);
    op.next(done());
    assert!(matches!(request(op.next(done())), GitRequest::WriteIndex));
    assert_eq!(finished(op.next(failed())), Err("Failed to write to index".to_string()));
}

#[test]
fn commit_changes_initial_and_with_parent() {
    let (mut op, _) = commit_changes(".", "msg");
    op.next(done());
    assert!(matches!(request(op.next(done())), GitRequest::CheckIndexEmpty));
    assert_eq!(finished(op.next(GitReply::Flag(true))), Err("No changes to commit.".to_string()));

    let (mut op, _) = commit_changes(".", "msg");
    op.next(done());
    op.next(done());
    assert!(matches!(request(op.next(GitReply::Flag(false))), GitRequest::WriteTree));
    assert!(matches!(request(op.next(done())), GitRequest::FindTree));
    assert!(matches!(request(op.next(done())), GitRequest::ReadSignature));
    assert!(matches!(request(op.next(done())), GitRequest::ResolveHead));
    match request(op.next(failed())) {
        GitRequest::Commit { message, parents } => {
            assert_eq!(message, "msg");
            assert_eq!(parents, CommitParents::Initial);
        }
        _ => panic!("expected an initial commit"),
    }
    assert_eq!(finished(op.next(failed())), Err("Failed to create initial commit".to_string()));

    let (mut op, _) = commit_changes(".", "msg");
    for r in [done(), done(), GitReply::Flag(false), done(), done(), done()] {
        op.next(r);
    }
    assert!(matches!(request(op.next(done())), GitRequest::PeelHeadToCommit));
    assert!(matches!(request(op.next(done())), GitRequest::Commit { parents: CommitParents::Head, .. }));
    assert_eq!(finished(op.next(failed())), Err("Failed to create commit".to_string()));
}

fn analysis(up_to_date: bool, fast_forward: bool, normal: bool) -> GitReply {
    GitReply::Analysis { up_to_date, fast_forward, normal }
}

#[test]
fn merge_refuses_itself_and_up_to_date() {
    let (mut op, _) = merge_branch(".", "main");
    op.next(done());
    assert_eq!(
        finished(op.next(GitReply::Name(Some("main".to_string())))),
        Err("Cannot merge branch 'main' into itself.".to_string())
    );
    let (mut op, _) = merge_branch(".", "main");
    op.next(done());
    assert_eq!(finished(op.next(GitReply::Name(None))), Err("Invalid HEAD".to_string()));
    let (mut op, _) = merge_branch(".", "topic");
    op.next(done());
    assert!(matches!(request(op.next(GitReply::Name(Some("main".to_string())))), GitRequest::FindLocalBranch(ref n) if n == "topic"));
    assert!(matches!(request(op.next(done())), GitRequest::PeelBranchToCommit));
    assert!(matches!(request(op.next(done())), GitRequest::FindAnnotatedCommit));
    assert!(matches!(request(op.next(done())), GitRequest::AnalyzeMerge));
    assert_eq!(
        finished(op.next(analysis(true, true, true))),
        Err("Branch 'topic' is already up-to-date.".to_string())
    );
}

#[test]
fn merge_fast_forward_and_normal() {
    let start = || {
        let (mut op, _) = merge_branch(".", "topic");
        for r in [done(), GitReply::Name(Some("main".to_string())), done(), done(), done()] {
            op.next(r);
        }
        op
    };
    let mut op = start();
    assert!(matches!(request(op.next(analysis(false, true, true))), GitRequest::ResolveHead));
    assert!(matches!(request(op.next(done())), GitRequest::SetReferenceTarget(ref m) if m == "Fast-Forward Merge"));
    assert!(matches!(request(op.next(done())), GitRequest::CheckoutHead { allow_conflicts: false }));
    assert_eq!(finished(op.next(done())), Ok(()));

    let mut op = start();
    assert!(matches!(request(op.next(analysis(false, false, true))), GitRequest::MergeIncoming));
    assert!(matches!(request(op.next(done())), GitRequest::CheckConflicts));
    assert_eq!(
        finished(op.next(GitReply::Flag(true))),
        Err("Merge conflicts detected. Please resolve them manually.".to_string())
    );

    let mut op = start();
    op.next(analysis(false, false, true));
    op.next(done());
    assert!(matches!(request(op.next(GitReply::Flag(false))), GitRequest::ReadSignature));
    assert!(matches!(request(op.next(done())), GitRequest::ResolveHead));
    assert!(matches!(request(op.next(done())), GitRequest::PeelHeadToCommit));
    assert!(matches!(request(op.next(done())), GitRequest::FindIncomingCommit));
    assert!(matches!(request(op.next(done())), GitRequest::OpenIndex));
    assert!(matches!(request(op.next(done())), GitRequest::WriteTree));
    assert!(matches!(request(op.next(done())), GitRequest::FindTree));
    match request(op.next(done())) {
        GitRequest::Commit { message, parents } => {
            assert_eq!(message, "Merge branch 'topic'");
            assert_eq!(parents, CommitParents::HeadAndIncoming);
        }
        _ => panic!("expected the merge commit"),
    }
    assert_eq!(finished(op.next(failed())), Err("Failed to create merge commit".to_string()));

    let mut op = start();
    assert_eq!(
        finished(op.next(analysis(false, false, false))),
        Err("Merge analysis returned unknown status.".to_string())
    );
}

#[test]
fn pull_fetches_then_merges() {
    let (mut op, _) = pull_branch(".", "origin", "main");
    assert!(matches!(request(op.next(done())), GitRequest::FindRemote(ref r) if r == "origin"));
    assert!(matches!(request(op.next(done())), GitRequest::ResolveReference(ref r) if r == "refs/heads/main"));
    assert!(matches!(request(op.next(done())), GitRequest::FindAnnotatedCommit));
    assert!(matches!(request(op.next(done())), GitRequest::FetchBranch(ref b) if b == "main"));
    assert!(matches!(request(op.next(done())), GitRequest::ResolveReference(ref r) if r == "FETCH_HEAD"));
    assert!(matches!(request(op.next(done())), GitRequest::FindAnnotatedCommit));
    assert!(matches!(request(op.next(done())), GitRequest::AnalyzeMerge));
    assert!(matches!(request(op.next(analysis(false, false, true))), GitRequest::MergeIncoming));
    assert_eq!(finished(op.next(failed())), Err("Failed to merge fetched changes".to_string()));

    let (mut op, _) = pull_branch(".", "origin", "main");
    op.next(done());
    op.next(done());
    op.next(done());
    op.next(done());
    assert_eq!(
        finished(op.next(failed())),
        Err("Failed to fetch branch 'main' from remote 'origin'".to_string())
    );

    let (mut op, _) = pull_branch(".", "origin", "main");
    for r in [done(), done(), done(), done(), done(), done(), done(), analysis(false, false, true), done()] {
        op.next(r);
    }
    assert_eq!(
        finished(op.next(GitReply::Flag(true))),
        Err("Merge conflicts detected during pull. Please resolve them manually.".to_string())
    );

    let (mut op, _) = pull_branch(".", "origin", "main");
    for r in [done(), done(), done(), done(), done(), done(), done(), analysis(false, false, true), done(), GitReply::Flag(false), done(), done(), done(), done()] {
        op.next(r);
    }
    assert_eq!(finished(op.next(failed())), Err("boom".to_string()));

    let (mut op, _) = pull_branch(".", "up", "dev");
    op.next(done());
    assert_eq!(finished(op.next(failed())), Err("Remote 'up' not found.".to_string()));
}

#[test]
fn pull_commit_message_names_remote_and_branch() {
    let (mut op, _) = pull_branch(".", "origin", "main");
    for r in [done(), done(), done(), done(), done(), done(), done(), analysis(false, false, true), done(), GitReply::Flag(false), done(), done(), done(), done(), done(), done()] {
        op.next(r);
    }
    match request(op.next(done())) {
        GitRequest::Commit { message, .. } => assert_eq!(message, "Pull from origin/main"),
        _ => panic!("expected the pull commit"),
    }
    assert_eq!(finished(op.next(failed())), Err("Failed to create commit after pull".to_string()));
}

#[test]
fn remotes_add_remove_and_push() {
    let (mut op, _) = add_remote(".", "origin", "https://example.com/r.git");
    assert!(matches!(request(op.next(done())), GitRequest::AddRemote { ref name, ref url } if name == "origin" && url == "https://example.com/r.git"));
    assert_eq!(
        finished(op.next(failed())),
        Err("Failed to add remote 'origin' with URL 'https://example.com/r.git'".to_string())
    );
    let (mut op, _) = remove_remote(".", "origin");
    assert!(matches!(request(op.next(done())), GitRequest::DeleteRemote(ref n) if n == "origin"));
    assert_eq!(finished(op.next(done())), Ok(()));
    let (mut op, _) = remove_remote(".", "origin");
    op.next(done());
    assert_eq!(finished(op.next(failed())), Err("Failed to remove remote 'origin'".to_string()));
    let (mut op, _) = push_branch(".", "origin", "main");
    assert!(matches!(request(op.next(done())), GitRequest::FindRemote(ref n) if n == "origin"));
    assert!(matches!(request(op.next(done())), GitRequest::PushRefspec(ref r) if r == "refs/heads/main:refs/heads/main"));
    assert_eq!(
        finished(op.next(failed())),
        Err("Failed to push branch 'main' to remote 'origin'".to_string())
    );
    let (mut op, _) = push_branch(".", "nowhere", "main");
    op.next(done());
    assert_eq!(finished(op.next(failed())), Err("Remote 'nowhere' not found.".to_string()));
}

#[test]
fn replies_must_fit_their_request() {
    assert!(GitRequest::ReadHeadShorthand.fits(&GitReply::Name(None)));
    assert!(!GitRequest::ReadHeadShorthand.fits(&GitReply::Done));
    assert!(GitRequest::CheckIndexEmpty.fits(&GitReply::Flag(true)));
    assert!(!GitRequest::CheckIndexEmpty.fits(&GitReply::Failed("x".to_string())));
    assert!(GitRequest::AnalyzeMerge.fits(&GitReply::Analysis { up_to_date: false, fast_forward: false, normal: true }));
    assert!(GitRequest::WriteTree.fits(&GitReply::Done));
    assert!(!GitRequest::WriteTree.fits(&GitReply::Flag(false)));
}

/// Runs `op` with `before` replies and then a failure, and returns its result.
fn fail_after<F: FnMut(GitReply) -> GitStep>(mut next: F, before: Vec<GitReply>) -> Result<(), String> {
    for r in before {
        request(next(r));
    }
    finished(next(failed()))
}

#[test]
fn merge_reports_each_failure() {
    let head = || GitReply::Name(Some("main".to_string()));
    let normal = || analysis(false, false, true);
    let cases: Vec<(Vec<GitReply>, &str)> = vec![
        (vec![], "Failed to open repository at '.'"),
        (vec![done()], "Failed to get HEAD"),
        (vec![done(), head()], "Branch 'topic' not found."),
        (vec![done(), head(), done()], "Failed to peel branch to commit"),
        (vec![done(), head(), done(), done()], "Failed to find annotated commit for merge"),
        (vec![done(), head(), done(), done(), done()], "Failed to perform merge analysis"),
        (vec![done(), head(), done(), done(), done(), analysis(false, true, false)], "Failed to find reference for fast-forward"),
        (vec![done(), head(), done(), done(), done(), analysis(false, true, false), done()], "Failed to set target for fast-forward"),
        (vec![done(), head(), done(), done(), done(), analysis(false, true, false), done(), done()], "Failed to checkout head after fast-forward"),
        (vec![done(), head(), done(), done(), done(), normal()], "Failed to merge branches"),
        (vec![done(), head(), done(), done(), done(), normal(), done()], "boom"),
        (vec![done(), head(), done(), done(), done(), normal(), done(), GitReply::Flag(false)], "Failed to get repository signature"),
        (vec![done(), head(), done(), done(), done(), normal(), done(), GitReply::Flag(false), done()], "Failed to get HEAD"),
        (vec![done(), head(), done(), done(), done(), normal(), done(), GitReply::Flag(false), done(), done()], "Failed to peel HEAD to commit"),
        (vec![done(), head(), done(), done(), done(), normal(), done(), GitReply::Flag(false), done(), done(), done()], "Failed to find merge commit"),
        (vec![done(), head(), done(), done(), done(), normal(), done(), GitReply::Flag(false), done(), done(), done(), done()], "boom"),
        (vec![done(), head(), done(), done(), done(), normal(), done(), GitReply::Flag(false), done(), done(), done(), done(), done()], "Failed to write tree after merge"),
        (vec![done(), head(), done(), done(), done(), normal(), done(), GitReply::Flag(false), done(), done(), done(), done(), done(), done()], "Failed to find tree after merge"),
    ];
    for (before, expected) in cases {
        let (mut op, _) = merge_branch(".", "topic");
        assert_eq!(fail_after(|r| op.next(r), before), Err(expected.to_string()));
    }
}

#[test]
fn commit_and_switch_report_each_failure() {
    let cases: Vec<(Vec<GitReply>, &str)> = vec![
        (vec![], "Failed to open repository at '.'"),
        (vec![done()], "Failed to get repository index"),
        (vec![done(), done(), GitReply::Flag(false)], "Failed to write tree"),
        (vec![done(), done(), GitReply::Flag(false), done()], "Failed to find written tree"),
        (vec![done(), done(), GitReply::Flag(false), done(), done()], "Failed to get repository signature"),
        (vec![done(), done(), GitReply::Flag(false), done(), done(), done(), done()], "Failed to peel HEAD to commit"),
    ];
    for (before, expected) in cases {
        let (mut op, _) = commit_changes(".", "m");
        assert_eq!(fail_after(|r| op.next(r), before), Err(expected.to_string()));
    }
    let cases: Vec<(Vec<GitReply>, &str)> = vec![
        (vec![done(), done()], "Failed to find annotated commit for branch 'b'"),
        (vec![done(), done(), done()], "Failed to set HEAD to 'b'"),
        (vec![done(), done(), done(), done()], "Failed to checkout branch"),
    ];
    for (before, expected) in cases {
        let (mut op, _) = switch_branch(".", "b");
        assert_eq!(fail_after(|r| op.next(r), before), Err(expected.to_string()));
    }
    let (mut op, _) = add_files(".", &["a".to_string()]);
    assert_eq!(fail_after(|r| op.next(r), vec![done()]), Err("Failed to get repository index".to_string()));
    let (mut op, _) = delete_branch(".", "x");
    assert_eq!(
        fail_after(|r| op.next(r), vec![done(), GitReply::Name(Some("main".to_string())), done()]),
        Err("Failed to delete branch 'x'".to_string())
    );
}
