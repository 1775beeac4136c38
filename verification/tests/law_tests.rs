use rugit::app::{ActiveView, App};
use rugit::git_utils::{
    add_files, commit_changes, create_branch, delete_branch, merge_branch, GitReply, GitRequest,
    GitStep,
};
use rugit::keys::{move_down, move_up, Key};
use rugit::tui_module::branch_view::{BranchAction, BranchView};
use rugit::tui_module::commit_view::CommitView;

#[test]
fn law_five_tabs_return_to_the_start() {
    let mut app = App::new();
    for start in 0..5 {
        let before = app.active_view;
        for _ in 0..5 {
            app.handle_input(Key::Tab);
        }
        assert_eq!(app.active_view, before, "round {}", start);
        app.switch_view();
    }
    assert_eq!(app.active_view, ActiveView::Status);
}

#[test]
fn law_navigation_stays_in_the_list() {
    for n in 1..6usize {
        for s in 0..n {
            assert!(move_down(s, n) < n);
            assert!(move_up(s) < n);
            if s + 1 < n {
                assert_eq!(move_up(move_down(s, n)), s);
            } else {
                assert_eq!(move_down(s, n), s);
            }
        }
    }
}

#[test]
fn law_backspace_undoes_typing() {
    let mut b = BranchView::new();
    let mut m = Vec::new();
    b.handle_input(Key::Char('c'), &mut m);
    b.handle_input(Key::Char('a'), &mut m);
    let before = b.input.clone();
    b.handle_input(Key::Char('é'), &mut m);
    b.handle_input(Key::Backspace, &mut m);
    assert_eq!(b.input, before);
    let mut c = CommitView::new();
    c.handle_input(Key::Char('c'), &mut m);
    c.handle_input(Key::Char('z'), &mut m);
    c.handle_input(Key::Backspace, &mut m);
    assert_eq!(c.commit_message, "");
}

#[test]
fn law_blank_names_run_no_git_operation() {
    let mut b = BranchView::new();
    let mut m = Vec::new();
    b.handle_input(Key::Char('c'), &mut m);
    b.handle_input(Key::Char('\t'), &mut m);
    b.handle_input(Key::Char('\u{3000}'), &mut m);
    assert!(matches!(b.handle_input(Key::Enter, &mut m), BranchAction::Nothing));
    assert_eq!(m.last().unwrap(), "Branch name cannot be empty.");
}

fn step_request(step: GitStep) -> Option<GitRequest> {
    match step {
        GitStep::Request(r) => Some(r),
        GitStep::Finished(_) => None,
    }
}

#[test]
fn law_delete_never_removes_current_branch() {
    let (mut op, _) = delete_branch(".", "main");
    op.next(GitReply::Done);
    assert!(step_request(op.next(GitReply::Name(Some("main".to_string())))).is_none());
}

#[test]
fn law_create_never_replaces_existing_branch() {
    let (mut op, _) = create_branch(".", "main");
    op.next(GitReply::Done);
    assert!(step_request(op.next(GitReply::Done)).is_none());
}

#[test]
fn law_commit_never_records_empty_index() {
    let (mut op, _) = commit_changes(".", "m");
    op.next(GitReply::Done);
    op.next(GitReply::Done);
    assert!(step_request(op.next(GitReply::Flag(true))).is_none());
}

#[test]
fn law_merge_never_merges_branch_into_itself() {
    let (mut op, _) = merge_branch(".", "dev");
    op.next(GitReply::Done);
    assert!(step_request(op.next(GitReply::Name(Some("dev".to_string())))).is_none());
}

#[test]
fn law_every_operation_ends() {
    let files: Vec<String> = (0..4).map(|i| format!("f{}", i)).collect();
    let (mut op, _) = add_files(".", &files);
    let mut calls = 0;
    loop {
        calls += 1;
        if step_request(op.next(GitReply::Done)).is_none() {
            break;
        }
        assert!(calls <= files.len() + 3);
    }
    assert_eq!(calls, files.len() + 3);
}

#[test]
fn law_pull_integrates_the_fetched_commit() {
    let (mut op, _) = rugit::git_utils::pull_branch(".", "origin", "main");
    let mut asked = Vec::new();
    for _ in 0..4 {
        if let Some(r) = step_request(op.next(GitReply::Done)) {
            asked.push(r);
        }
    }
    assert!(matches!(asked.last(), Some(GitRequest::FetchBranch(_))));
    assert!(matches!(step_request(op.next(GitReply::Done)), Some(GitRequest::ResolveReference(ref r)) if r == "FETCH_HEAD"));
}

#[test]
fn law_fast_forward_moves_the_current_branch() {
    let (mut op, _) = merge_branch(".", "topic");
    for r in [GitReply::Done, GitReply::Name(Some("main".to_string())), GitReply::Done, GitReply::Done] {
        op.next(r);
    }
    let ff = GitReply::Analysis { up_to_date: false, fast_forward: true, normal: false };
    assert!(matches!(step_request(op.next(GitReply::Done)), Some(GitRequest::AnalyzeMerge)));
    assert!(matches!(step_request(op.next(ff)), Some(GitRequest::ResolveHead)));
    assert!(matches!(step_request(op.next(GitReply::Done)), Some(GitRequest::SetReferenceTarget(_))));
}
