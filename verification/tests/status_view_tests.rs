use rugit::keys::Key;
use rugit::panel::Body;
use rugit::tui_module::status_view::{status_code_of, FileStatus, StatusEntry, StatusListing, StatusView};
use rugit::tui_module::views::status_view::{InputMode, StatusAction, StatusView as StagingView};

fn flags(i: usize) -> FileStatus {
    FileStatus {
        index_new: i == 0,
        index_modified: i == 1,
        index_deleted: i == 2,
        wt_new: i == 3,
        wt_modified: i == 4,
        wt_deleted: i == 5,
    }
}

fn entries() -> StatusListing {
    StatusListing::Entries(vec![
        StatusEntry { status: flags(3), path: Some("new.txt".to_string()) },
        StatusEntry { status: flags(1), path: Some("src/main.rs".to_string()) },
        StatusEntry { status: flags(9), path: None },
    ])
}

#[test]
fn status_codes_follow_flag_order() {
    let codes: Vec<&str> = (0..7).map(|i| status_code_of(&flags(i))).collect();
    assert_eq!(codes, vec!["A", "M", "D", "??", "M", "D", " "]);
    let both = FileStatus { index_new: true, wt_modified: true, ..flags(9) };
    assert_eq!(status_code_of(&both), "A");
}

#[test]
fn status_rows_and_errors() {
    let mut v = StatusView::new();
    v.update(entries());
    assert_eq!(v.items, vec!["?? new.txt".to_string(), "M src/main.rs".to_string(), "  Unknown".to_string()]);
    v.update(StatusListing::Entries(vec![]));
    assert_eq!(v.items, vec!["Nothing to commit, working tree clean.".to_string()]);
    v.update(StatusListing::RepositoryFailed("gone".to_string()));
    assert_eq!(v.items, vec!["Error opening repository: gone".to_string()]);
    v.update(StatusListing::StatusFailed("bad".to_string()));
    assert_eq!(v.items, vec!["Error retrieving status: bad".to_string()]);
    assert_eq!(v.handle_input(Key::Char('a')), Some("Add functionality not yet implemented.".to_string()));
    assert_eq!(v.handle_input(Key::Enter), None);
    match v.panel().body {
        Body::Rows { highlighted, .. } => assert_eq!(highlighted, None),
        _ => panic!("expected rows"),
    }
}

#[test]
fn staging_the_selected_file() {
    let mut v = StagingView::new();
    let mut m = Vec::new();
    assert!(v.fetch_status(entries()).is_ok());
    v.handle_input(Key::Down, &mut m);
    assert!(matches!(v.handle_input(Key::Enter, &mut m), StatusAction::Nothing));
    v.handle_input(Key::Char('a'), &mut m);
    assert_eq!(v.input_mode, InputMode::AddingFiles);
    assert_eq!(m, vec!["Press 'Enter' to stage selected file or 'Esc' to cancel.".to_string()]);
    let file = match v.handle_input(Key::Enter, &mut m) {
        StatusAction::Stage(f) => f,
        StatusAction::Nothing => panic!("expected a file to stage"),
    };
    assert_eq!(file, "src/main.rs");
    assert_eq!(v.input_mode, InputMode::Normal);
    assert!(StagingView::report_stage(&file, &Ok(()), &mut m));
    assert!(!StagingView::report_stage(&file, &Err("locked".to_string()), &mut m));
    assert_eq!(m[1], "Staged file 'src/main.rs'.");
    assert_eq!(m[2], "Failed to stage 'src/main.rs': locked");
    v.refetch(StatusListing::StatusFailed("e".to_string()), &mut m);
    assert_eq!(m[3], "Error fetching status: e");
    assert!(v.items.is_empty());
}

#[test]
fn staging_cancel_and_errors() {
    let mut v = StagingView::new();
    let mut m = Vec::new();
    v.handle_input(Key::Char('a'), &mut m);
    assert!(matches!(v.handle_input(Key::Enter, &mut m), StatusAction::Nothing));
    v.handle_input(Key::Char('a'), &mut m);
    v.handle_input(Key::Esc, &mut m);
    assert_eq!(m.last().unwrap(), "Cancelled staging files.");
    assert_eq!(v.fetch_status(StatusListing::RepositoryFailed("x".to_string())), Err("x".to_string()));
    v.update(StatusListing::StatusFailed("y".to_string()));
    assert_eq!(v.items, vec!["Error fetching status: y".to_string()]);
    v.update(StatusListing::Entries(vec![]));
    assert_eq!(v.items, vec!["Nothing to commit, working tree clean.".to_string()]);
    v.handle_input(Key::Char('a'), &mut m);
    assert!(matches!(v.handle_input(Key::Enter, &mut m), StatusAction::Stage(_)));
}
