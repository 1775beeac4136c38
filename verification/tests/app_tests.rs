use rugit::app::{ActiveView, App, AppCommand, Area, Extent, Refresh, ScreenPart, Stacking};
use rugit::panel::{Body, Tint};
use rugit::keys::Key;
use rugit::tui_module::branch_view::BranchAction;
use rugit::tui_module::log_view::DetailLookup;

#[test]
fn new_app_starts_on_status() {
    let app = App::new();
    assert_eq!(app.active_view, ActiveView::Status);
    assert!(app.messages.is_empty());
    assert_eq!(app.on_tick(), Some(Refresh::Status));
}

#[test]
fn q_quits_and_tab_cycles() {
    let mut app = App::new();
    assert!(app.handle_input(Key::Char('q')).quits());
    assert!(app.messages.is_empty());
    let expected = [ActiveView::Log, ActiveView::Branch, ActiveView::Commit, ActiveView::Help, ActiveView::Status];
    for v in expected.iter() {
        assert!(!app.handle_input(Key::Tab).quits());
        assert_eq!(app.active_view, *v);
    }
    assert_eq!(
        app.messages,
        vec!["Switched to Log", "Switched to Branch", "Switched to Commit", "Switched to Help", "Switched to Status"]
    );
    assert_eq!(
        app.messages_text(),
        "Switched to Log\nSwitched to Branch\nSwitched to Commit\nSwitched to Help\nSwitched to Status"
    );
}

#[test]
fn switch_view_visits_every_view() {
    let mut app = App::new();
    app.switch_view();
    assert_eq!(app.active_view, ActiveView::Log);
    assert_eq!(app.on_tick(), Some(Refresh::Log));
    app.switch_view();
    assert_eq!(app.on_tick(), Some(Refresh::Branch));
    app.switch_view();
    assert_eq!(app.on_tick(), None);
    app.switch_view();
    assert_eq!(app.active_view, ActiveView::Help);
    assert_eq!(app.on_tick(), None);
    assert!(matches!(app.handle_input(Key::Char('x')), AppCommand::Continue));
}

#[test]
fn keys_go_to_the_active_view() {
    let mut app = App::new();
    assert!(matches!(app.handle_input(Key::Char('c')), AppCommand::Continue));
    app.switch_view();
    app.switch_view();
    match app.handle_input(Key::Char('c')) {
        AppCommand::Branch(BranchAction::Nothing) => {}
        _ => panic!("expected the branch view to take the key"),
    }
    assert_eq!(app.messages.last().unwrap(), "Enter new branch name:");
    app.switch_view();
    assert!(matches!(app.handle_input(Key::Char('c')), AppCommand::Commit(_)));
    assert_eq!(app.messages.last().unwrap(), "Enter your commit message below.");
}

#[test]
fn failed_commit_lookup_is_reported() {
    let mut app = App::new();
    app.finish_log_detail(&"abc".to_string(), DetailLookup::FindFailed);
    assert_eq!(app.messages, vec!["Error: Failed to find commit 'abc'".to_string()]);
}

#[test]
fn title_footer_and_layout() {
    assert_eq!(App::title(), "Rugit-TUI: Rust Git Interface");
    assert_eq!(App::footer(), "Press 'q' to exit | Tab to switch views");
    let areas = App::screen_areas(Area { x: 0, y: 0, width: 80, height: 24 });
    assert_eq!(areas.len(), 4);
    assert_eq!(areas[0], Area { x: 1, y: 1, width: 78, height: 3 });
    assert_eq!(areas[1], Area { x: 1, y: 4, width: 78, height: 11 });
    assert_eq!(areas[2], Area { x: 1, y: 15, width: 78, height: 5 });
    assert_eq!(areas[3], Area { x: 1, y: 20, width: 78, height: 3 });
}

#[test]
fn every_layout_outcome_ends_at_the_bottom() {
    for (w, h) in [(80u16, 12u16), (20, 5), (1, 1), (200, 60)] {
        let areas = App::screen_areas(Area { x: 0, y: 0, width: w, height: h });
        assert_eq!(areas.len(), 4);
        let inner_bottom = if w < 2 || h < 2 { 0 } else { 1 + (h - 2) };
        assert_eq!(areas[3].y + areas[3].height, inner_bottom);
    }
}

#[test]
fn screen_layout_is_title_content_messages_footer() {
    let l = App::screen_layout();
    assert_eq!(l.stacking, Stacking::Vertical);
    assert_eq!(l.margin, 1);
    assert_eq!(l.extents, vec![Extent::Length(3), Extent::Min(1), Extent::Length(5), Extent::Length(3)]);
}

#[test]
fn screen_pairs_each_area_with_its_part() {
    let mut app = App::new();
    app.messages.push("hello".to_string());
    app.messages.push("world".to_string());
    let parts = app.screen(Area { x: 0, y: 0, width: 80, height: 24 });
    assert_eq!(parts.len(), 4);
    let areas = App::screen_areas(Area { x: 0, y: 0, width: 80, height: 24 });
    for i in 0..4 {
        assert_eq!(parts[i].0, areas[i]);
    }
    match &parts[0].1 {
        ScreenPart::Banner { text, tint } => {
            assert_eq!(text, "Rugit-TUI: Rust Git Interface");
            assert_eq!(*tint, Tint::Yellow);
        }
        ScreenPart::Framed(_) => panic!("the title is a banner"),
    }
    match &parts[1].1 {
        ScreenPart::Framed(p) => assert_eq!(p.title, app.main_panel().title),
        ScreenPart::Banner { .. } => panic!("the content is a panel"),
    }
    match &parts[2].1 {
        ScreenPart::Framed(p) => {
            assert_eq!(p.title, "Messages");
            assert_eq!(p.frame_tint, None);
            assert!(!p.clear_first);
            match &p.body {
                Body::Text { text, tint, wrap } => {
                    assert_eq!(text, "hello\nworld");
                    assert_eq!(*tint, Some(Tint::Magenta));
                    assert!(*wrap);
                }
                Body::Rows { .. } => panic!("the messages are text"),
            }
        }
        ScreenPart::Banner { .. } => panic!("the messages are a panel"),
    }
    match &parts[3].1 {
        ScreenPart::Banner { text, tint } => {
            assert_eq!(text, "Press 'q' to exit | Tab to switch views");
            assert_eq!(*tint, Tint::Magenta);
        }
        ScreenPart::Framed(_) => panic!("the footer is a banner"),
    }
}
