use rugit::keys::Key;
use rugit::tui_module::commit_view::{CommitAction, CommitView, InputMode};
use rugit::panel::{Body, Tint};

#[test]
fn writing_and_committing_a_message() {
    let mut v = CommitView::new();
    let mut m = Vec::new();
    assert!(matches!(v.handle_input(Key::Char('x'), &mut m), CommitAction::Nothing));
    assert_eq!(v.input_mode, InputMode::Normal);
    assert!(m.is_empty());
    v.handle_input(Key::Char('c'), &mut m);
    assert_eq!(v.input_mode, InputMode::WritingCommit);
    assert_eq!(m, vec!["Enter your commit message below.".to_string()]);
    for c in "  Fix bug!".chars() {
        v.handle_input(Key::Char(c), &mut m);
    }
    v.handle_input(Key::Backspace, &mut m);
    match v.handle_input(Key::Enter, &mut m) {
        CommitAction::Commit(msg) => assert_eq!(msg, "Fix bug"),
        CommitAction::Nothing => panic!("expected a commit"),
    }
    assert_eq!(v.input_mode, InputMode::Normal);
    assert_eq!(v.commit_message, "");
    CommitView::report(&"Fix bug".to_string(), &Ok(()), &mut m);
    CommitView::report(&"Fix bug".to_string(), &Err("No changes to commit.".to_string()), &mut m);
    assert_eq!(m[1], "Committed with message: 'Fix bug'");
    assert_eq!(m[2], "Failed to commit: No changes to commit.");
}

#[test]
fn empty_message_keeps_the_prompt() {
    let mut v = CommitView::new();
    let mut m = Vec::new();
    v.handle_input(Key::Char('c'), &mut m);
    v.handle_input(Key::Char(' '), &mut m);
    assert!(matches!(v.handle_input(Key::Enter, &mut m), CommitAction::Nothing));
    assert_eq!(m.last().unwrap(), "Commit message cannot be empty.");
    assert_eq!(v.input_mode, InputMode::WritingCommit);
    assert_eq!(v.commit_message, " ");
    v.handle_input(Key::Esc, &mut m);
    assert_eq!(m.last().unwrap(), "Commit cancelled.");
    assert_eq!(v.input_mode, InputMode::Normal);
    assert_eq!(v.commit_message, "");
}

#[test]
fn backspace_on_empty_message_does_nothing() {
    let mut v = CommitView::new();
    let mut m = Vec::new();
    v.handle_input(Key::Char('c'), &mut m);
    v.handle_input(Key::Backspace, &mut m);
    assert_eq!(v.commit_message, "");
    v.handle_input(Key::Up, &mut m);
    assert_eq!(v.commit_message, "");
}

#[test]
fn commit_panel_shows_hint_or_message() {
    let mut v = CommitView::new();
    let mut m = Vec::new();
    let p = v.panel();
    assert_eq!(p.title, "Commit");
    match p.body {
        Body::Text { text, tint, .. } => {
            assert_eq!(text, "Press 'c' to write a commit message.");
            assert_eq!(tint, Some(Tint::Yellow));
        }
        _ => panic!("expected text"),
    }
    v.handle_input(Key::Char('c'), &mut m);
    v.handle_input(Key::Char('h'), &mut m);
    let p = v.panel();
    assert_eq!(p.title, "Enter Commit Message");
    assert_eq!(p.frame_tint, Some(Tint::Green));
    assert!(p.clear_first);
    match p.body {
        Body::Text { text, .. } => assert_eq!(text, "h"),
        _ => panic!("expected text"),
    }
}
