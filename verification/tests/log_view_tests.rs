use rugit::keys::Key;
use rugit::panel::Body;
use rugit::tui_module::log_view::{
    format_commit_time, CommitItem, CommitRecord, DetailLookup, LogAction, LogView, LogWalk,
    WalkEntry,
};

fn record(id: &str, author: Option<&str>, message: Option<&str>, seconds: i64) -> CommitRecord {
    CommitRecord {
        id: id.to_string(),
        author: author.map(|s| s.to_string()),
        message: message.map(|s| s.to_string()),
        seconds,
    }
}

#[test]
fn commit_time_is_formatted_by_chrono() {
    assert_eq!(format_commit_time(0), "1970-01-01 00:00:00");
    assert_eq!(format_commit_time(1431648000), "2015-05-15 00:00:00");
    assert_eq!(format_commit_time(1725029869), "2024-08-30 14:57:49");
    assert_eq!(format_commit_time(-1), "1969-12-31 23:59:59");
}

#[test]
fn out_of_range_time_falls_back_to_epoch() {
    assert_eq!(format_commit_time(i64::MAX), "1970-01-01 00:00:00");
    assert_eq!(format_commit_time(i64::MIN), "1970-01-01 00:00:00");
}

#[test]
fn items_take_the_first_line_and_defaults() {
    let c = CommitItem::from_record(&record("abc", Some("Ann"), Some("Subject\n\nBody"), 0));
    assert_eq!(c.id, "abc");
    assert_eq!(c.author, "Ann");
    assert_eq!(c.message, "Subject");
    assert_eq!(c.date, "1970-01-01 00:00:00");
    assert_eq!(c.row_text(), "abc Ann [1970-01-01 00:00:00] - Subject");
    let d = CommitItem::from_record(&record("def", None, None, 0));
    assert_eq!(d.author, "Unknown");
    assert_eq!(d.message, "");
}

#[test]
fn update_builds_rows_and_error_rows() {
    let mut v = LogView::new();
    v.update(LogWalk::Walked(vec![
        WalkEntry::Found(record("a1", Some("Ann"), Some("first"), 0)),
        WalkEntry::FindFailed { oid: "b2".to_string(), error: "missing".to_string() },
        WalkEntry::OidFailed("broken".to_string()),
    ]));
    assert_eq!(v.items.len(), 3);
    assert_eq!(v.items[1].id, "Error");
    assert_eq!(v.items[1].author, "Error");
    assert_eq!(v.items[1].date, "");
    assert_eq!(v.items[1].message, "Error finding commit b2: missing");
    assert_eq!(v.items[2].message, "Error iterating oid: broken");
    v.update(LogWalk::RepositoryFailed("nope".to_string()));
    assert_eq!(v.items.len(), 1);
    assert_eq!(v.items[0].message, "Error opening repository: nope");
    v.update(LogWalk::RevwalkFailed("r".to_string()));
    assert_eq!(v.items[0].message, "Error creating revwalk: r");
    v.update(LogWalk::PushHeadFailed("p".to_string()));
    assert_eq!(v.items[0].message, "Error pushing HEAD: p");
}

#[test]
fn update_moves_selection_back_into_list() {
    let mut v = LogView::new();
    let walk = |n: usize| {
        LogWalk::Walked((0..n).map(|i| WalkEntry::Found(record(&i.to_string(), None, None, 0))).collect())
    };
    v.update(walk(5));
    let mut m = Vec::new();
    for _ in 0..10 {
        v.handle_input(Key::Down, &mut m);
    }
    assert_eq!(v.selected, 4);
    v.update(walk(2));
    assert_eq!(v.selected, 1);
    v.update(LogWalk::PushHeadFailed("x".to_string()));
    assert_eq!(v.selected, 1);
    v.update(LogWalk::RepositoryFailed("x".to_string()));
    assert_eq!(v.selected, 0);
}

#[test]
fn enter_refresh_and_escape() {
    let mut v = LogView::new();
    let mut m = Vec::new();
    assert!(matches!(v.handle_input(Key::Enter, &mut m), LogAction::Nothing));
    v.update(LogWalk::Walked(vec![WalkEntry::Found(record("c0ffee", Some("Bo"), Some("m"), 0))]));
    let id = match v.handle_input(Key::Enter, &mut m) {
        LogAction::ShowDetail(id) => id,
        _ => panic!("expected a lookup"),
    };
    assert_eq!(id, "c0ffee");
    let r = v.show_detail(
        &id,
        DetailLookup::Found {
            commit: record("c0ffee", Some("Bo"), Some("m\nmore"), 0),
            parents: vec!["p1".to_string(), "p2".to_string()],
        },
    );
    assert!(r.is_ok());
    let d = v.detailed_commit.as_ref().unwrap();
    assert_eq!(d.message, "m\nmore");
    assert_eq!(
        d.text(),
        "Commit ID: c0ffee\nAuthor: Bo\nDate: 1970-01-01 00:00:00\n\nMessage:\nm\nmore\n\nParents:\np1, p2"
    );
    match v.panel().body {
        Body::Text { wrap, .. } => assert!(wrap),
        _ => panic!("expected the details"),
    }
    assert!(matches!(v.handle_input(Key::Char('r'), &mut m), LogAction::Refresh));
    assert_eq!(m, vec!["Commit logs refreshed.".to_string()]);
    v.handle_input(Key::Esc, &mut m);
    assert!(v.detailed_commit.is_none());
    match v.panel().body {
        Body::Rows { rows, highlighted } => {
            assert_eq!(rows, vec!["c0ffee Bo [1970-01-01 00:00:00] - m".to_string()]);
            assert_eq!(highlighted, Some(0));
        }
        _ => panic!("expected rows"),
    }
}

#[test]
fn failed_lookups_report_their_error() {
    let mut v = LogView::new();
    let id = "zz".to_string();
    assert_eq!(v.show_detail(&id, DetailLookup::RepositoryFailed), Err("Failed to open repository".to_string()));
    assert_eq!(v.show_detail(&id, DetailLookup::ParseFailed("bad hex".to_string())), Err("bad hex".to_string()));
    assert_eq!(v.show_detail(&id, DetailLookup::FindFailed), Err("Failed to find commit 'zz'".to_string()));
    assert!(v.detailed_commit.is_none());
}
