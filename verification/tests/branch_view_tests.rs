use rugit::keys::Key;
use rugit::tui_module::branch_view::{BranchAction, BranchEntry, BranchListing, BranchView, InputMode};
use rugit::panel::{Body, Tint};

fn listed(names: &[(&str, bool)]) -> BranchListing {
    BranchListing::Listed(
        names
            .iter()
            .map(|(n, h)| BranchEntry::Listed { name: Some(n.to_string()), is_head: *h })
            .collect(),
    )
}

#[test]
fn update_marks_the_head_branch() {
    let mut v = BranchView::new();
    v.update(listed(&[("feature", false), ("main", true)]));
    assert_eq!(v.items, vec!["  feature".to_string(), "* main".to_string()]);
}

#[test]
fn update_reports_errors_and_unnamed_branches() {
    let mut v = BranchView::new();
    v.update(BranchListing::Listed(vec![
        BranchEntry::Listed { name: None, is_head: false },
        BranchEntry::Failed("bad ref".to_string()),
    ]));
    assert_eq!(v.items, vec!["  Unnamed".to_string(), "Error iterating branches: bad ref".to_string()]);
    v.update(BranchListing::RepositoryFailed("no repo".to_string()));
    assert_eq!(v.items, vec!["Error opening repository: no repo".to_string()]);
    v.update(BranchListing::ListingFailed("oops".to_string()));
    assert_eq!(v.items, vec!["Error retrieving branches: oops".to_string()]);
}

#[test]
fn creating_a_branch_types_a_trimmed_name() {
    let mut v = BranchView::new();
    let mut m = Vec::new();
    assert!(matches!(v.handle_input(Key::Char('c'), &mut m), BranchAction::Nothing));
    assert_eq!(v.input_mode, InputMode::CreatingBranch);
    assert_eq!(m, vec!["Enter new branch name:".to_string()]);
    for c in " dev x".chars() {
        v.handle_input(Key::Char(c), &mut m);
    }
    v.handle_input(Key::Backspace, &mut m);
    v.handle_input(Key::Backspace, &mut m);
    assert_eq!(v.input, " dev");
    match v.handle_input(Key::Enter, &mut m) {
        BranchAction::Create(name) => assert_eq!(name, "dev"),
        _ => panic!("expected a create action"),
    }
    assert_eq!(v.input_mode, InputMode::Normal);
    assert_eq!(v.input, "");
    let action = BranchAction::Create("dev".to_string());
    v.report(&action, &Ok(()), &mut m);
    v.report(&action, &Err("Branch 'dev' already exists.".to_string()), &mut m);
    assert_eq!(m[1], "Branch 'dev' created.");
    assert_eq!(m[2], "Failed to create branch: Branch 'dev' already exists.");
}

#[test]
fn blank_names_and_escape_run_nothing() {
    let mut v = BranchView::new();
    let mut m = Vec::new();
    v.handle_input(Key::Char('c'), &mut m);
    v.handle_input(Key::Char(' '), &mut m);
    assert!(matches!(v.handle_input(Key::Enter, &mut m), BranchAction::Nothing));
    assert_eq!(m.last().unwrap(), "Branch name cannot be empty.");
    assert_eq!(v.input_mode, InputMode::Normal);
    v.handle_input(Key::Char('c'), &mut m);
    v.handle_input(Key::Char('x'), &mut m);
    assert!(matches!(v.handle_input(Key::Esc, &mut m), BranchAction::Nothing));
    assert_eq!(m.last().unwrap(), "Branch creation cancelled.");
    assert_eq!(v.input, "");
}

#[test]
fn delete_needs_branches() {
    let mut v = BranchView::new();
    let mut m = Vec::new();
    v.handle_input(Key::Char('d'), &mut m);
    assert_eq!(v.input_mode, InputMode::Normal);
    assert_eq!(m, vec!["No branches available to delete.".to_string()]);
    v.update(listed(&[("main", true), ("old", false)]));
    v.handle_input(Key::Char('d'), &mut m);
    assert_eq!(v.input_mode, InputMode::DeletingBranch);
    assert_eq!(m.last().unwrap(), "Enter branch name to delete:");
    for c in "old".chars() {
        v.handle_input(Key::Char(c), &mut m);
    }
    match v.handle_input(Key::Enter, &mut m) {
        BranchAction::Delete(name) => assert_eq!(name, "old"),
        _ => panic!("expected a delete action"),
    }
    v.report(&BranchAction::Delete("old".to_string()), &Ok(()), &mut m);
    assert_eq!(m.last().unwrap(), "Branch 'old' deleted.");
    v.handle_input(Key::Char('d'), &mut m);
    v.handle_input(Key::Esc, &mut m);
    assert_eq!(m.last().unwrap(), "Branch deletion cancelled.");
}

#[test]
fn enter_switches_to_the_selected_branch() {
    let mut v = BranchView::new();
    let mut m = Vec::new();
    v.update(listed(&[("main", true), ("topic", false)]));
    match v.handle_input(Key::Enter, &mut m) {
        BranchAction::Switch(name) => assert_eq!(name, "main"),
        _ => panic!("expected a switch"),
    }
    v.handle_input(Key::Down, &mut m);
    v.handle_input(Key::Down, &mut m);
    assert_eq!(v.selected, 1);
    match v.handle_input(Key::Enter, &mut m) {
        BranchAction::Switch(name) => assert_eq!(name, "topic"),
        _ => panic!("expected a switch"),
    }
    v.report(&BranchAction::Switch("topic".to_string()), &Ok(()), &mut m);
    v.report(&BranchAction::Switch("x".to_string()), &Err("Branch 'x' not found.".to_string()), &mut m);
    assert_eq!(m, vec!["Switched to branch 'topic'.".to_string(), "Failed to switch branch: Branch 'x' not found.".to_string()]);
    v.handle_input(Key::Up, &mut m);
    v.handle_input(Key::Up, &mut m);
    assert_eq!(v.selected, 0);
}

#[test]
fn panel_shows_prompt_or_list() {
    let mut v = BranchView::new();
    let mut m = Vec::new();
    v.update(listed(&[("main", true)]));
    let p = v.panel();
    assert_eq!(p.title, "Branches");
    match p.body {
        Body::Rows { rows, highlighted } => {
            assert_eq!(rows, vec!["* main".to_string()]);
            assert_eq!(highlighted, Some(0));
        }
        _ => panic!("expected rows"),
    }
    v.handle_input(Key::Char('d'), &mut m);
    v.handle_input(Key::Char('m'), &mut m);
    let p = v.panel();
    assert_eq!(p.title, "Delete Branch");
    assert!(p.clear_first);
    match p.body {
        Body::Text { text, tint, .. } => {
            assert_eq!(text, "m");
            assert_eq!(tint, Some(Tint::Red));
        }
        _ => panic!("expected text"),
    }
}
