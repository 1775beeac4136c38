//! The application: which view is active, the views themselves, and the
//! message log that they write to.
use vstd::prelude::*;

use tui::layout::{Constraint, Direction, Layout, Rect};

use crate::help_view::HelpView;
use crate::keys::Key;
use crate::panel::{Body, Panel, Tint};
use crate::text::{concat2, join, join_strings, views};
use crate::tui_module::branch_view::{BranchAction, BranchView, InputMode as BranchMode};
use crate::tui_module::commit_view::{CommitAction, CommitView, InputMode as CommitMode};
use crate::tui_module::log_view::{
    DetailLookup, LogAction, LogView, LogViewModel, commit_detail, lookup_error,
};
use crate::tui_module::status_view::StatusView;

verus! {

#[derive(Clone, Copy, PartialEq, Eq, Debug, Structural)]
pub enum ActiveView {
    Status,
    Log,
    Branch,
    Commit,
    Help,
}

/// The view that `Tab` moves to from `v`: Status, Log, Branch, Commit, Help,
/// and round again.
pub open spec fn next_view(v: ActiveView) -> ActiveView {
    match v {
        ActiveView::Status => ActiveView::Log,
        ActiveView::Log => ActiveView::Branch,
        ActiveView::Branch => ActiveView::Commit,
        ActiveView::Commit => ActiveView::Help,
        ActiveView::Help => ActiveView::Status,
    }
}

/// The name of a view, as its `Debug` form writes it.
pub open spec fn view_name(v: ActiveView) -> Seq<char> {
    match v {
        ActiveView::Status => "Status"@,
        ActiveView::Log => "Log"@,
        ActiveView::Branch => "Branch"@,
        ActiveView::Commit => "Commit"@,
        ActiveView::Help => "Help"@,
    }
}

impl ActiveView {
    /// The name of the view.
    pub fn name(&self) -> (r: &'static str)
        ensures
            r@ == view_name(*self),
    {
        match self {
            ActiveView::Status => "Status",
            ActiveView::Log => "Log",
            ActiveView::Branch => "Branch",
            ActiveView::Commit => "Commit",
            ActiveView::Help => "Help",
        }
    }
}

pub struct App {
    pub active_view: ActiveView,
    pub status_view: StatusView,
    pub log_view: LogView,
    pub branch_view: BranchView,
    pub commit_view: CommitView,
    pub help_view: HelpView,
    pub messages: Vec<String>,
}

/// What a key asks of the caller: to quit, nothing more, or the Git work of
/// the active view.
pub enum AppCommand {
    Quit,
    Continue,
    Log(LogAction),
    Branch(BranchAction),
    Commit(CommitAction),
}

impl AppCommand {
    /// Whether the application is to end.
    pub fn quits(&self) -> (r: bool)
        ensures
            r == self is Quit,
    {
        match self {
            AppCommand::Quit => true,
            _ => false,
        }
    }
}

/// The view that a tick refreshes from the repository.
#[derive(Clone, Copy, PartialEq, Eq, Debug, Structural)]
pub enum Refresh {
    Status,
    Log,
    Branch,
}

/// A rectangle of the terminal, in cells.
#[derive(Clone, Copy, PartialEq, Eq, Debug, Structural)]
pub struct Area {
    pub x: u16,
    pub y: u16,
    pub width: u16,
    pub height: u16,
}

/// A layout: which way it stacks its areas, the margin around them, and
/// what it asks of each area's size.
pub struct ScreenLayout {
    pub stacking: Stacking,
    pub margin: u16,
    pub extents: Vec<Extent>,
}

/// What is drawn in one area of the screen: a line of centred text in a
/// colour, or a bordered panel.
pub enum ScreenPart {
    Banner { text: String, tint: Tint },
    Framed(Panel),
}

/// Which way a layout stacks its areas.
#[derive(Clone, Copy, PartialEq, Eq, Debug, Structural)]
pub enum Stacking {
    Horizontal,
    Vertical,
}

/// What a layout asks of the size of one area along its stacking direction:
/// exactly this many cells, or at least this many.
#[derive(Clone, Copy, PartialEq, Eq, Debug, Structural)]
pub enum Extent {
    Length(u16),
    Min(u16),
}

/// The area that tui's `Rect::inner` leaves inside `a` with a margin of `m`
/// cells on every side: none where `a` is narrower or lower than two margins.
pub open spec fn inner_area(a: Area, m: u16) -> Area {
    if a.width < 2 * m || a.height < 2 * m {
        Area { x: 0, y: 0, width: 0, height: 0 }
    } else {
        Area {
            x: (a.x + m) as u16,
            y: (a.y + m) as u16,
            width: (a.width - 2 * m) as u16,
            height: (a.height - 2 * m) as u16,
        }
    }
}

/// Whether tui's layout can split `a` with margin `m` without overflowing a
/// `u16`: twice the margin fits, and so do the right and bottom edges of the
/// area inside the margin.
pub open spec fn splittable(a: Area, m: u16) -> bool {
    &&& 2 * m <= u16::MAX
    &&& (a.width < 2 * m || a.height < 2 * m || (a.x + a.width - m <= u16::MAX && a.y + a.height
        - m <= u16::MAX))
}

/// Whether `last` reaches the far edge of `inner` along `stacking`: its bottom
/// for a vertical layout, its right edge for a horizontal one.
pub open spec fn reaches_far_edge(last: Area, inner: Area, stacking: Stacking) -> bool {
    match stacking {
        Stacking::Vertical => last.y + last.height == inner.y + inner.height,
        Stacking::Horizontal => last.x + last.width == inner.x + inner.width,
    }
}

/// Calls `tui::layout::Layout::split` on `area` for a layout that stacks
/// along `stacking`, with `margin` on every side and one constraint per
/// extent. The solver behind it may pick any of several optima, so the
/// contract states only what tui's source fixes of every outcome: one area
/// per extent, and the last one stretched to the far edge of the area inside
/// the margin. Where the area is not `splittable`, tui overflows a `u16`.
#[verifier::external_body]
fn split_area(area: Area, stacking: Stacking, margin: u16, extents: &Vec<Extent>) -> (r: Vec<Area>)
    requires
        splittable(area, margin),
    ensures
        r@.len() == extents@.len(),
        r@.len() > 0 ==> reaches_far_edge(r@.last(), inner_area(area, margin), stacking),
{
    let direction = match stacking {
        Stacking::Horizontal => Direction::Horizontal,
        Stacking::Vertical => Direction::Vertical,
    };
    let constraints: Vec<Constraint> = extents.iter().map(|e| match *e {
        Extent::Length(v) => Constraint::Length(v),
        Extent::Min(v) => Constraint::Min(v),
    }).collect();
    let rect = Rect { x: area.x, y: area.y, width: area.width, height: area.height };
    let chunks = Layout::default().direction(direction).margin(margin).constraints(constraints).split(rect);
    chunks.iter().map(|c| Area { x: c.x, y: c.y, width: c.width, height: c.height }).collect()
}

/// The messages of the app, as text.
pub open spec fn messages_of(app: &App) -> Seq<Seq<char>> {
    views(app.messages@)
}

impl App {
    pub fn new() -> (app: App)
        ensures
            app.active_view == ActiveView::Status,
            app.messages@.len() == 0,
            app.status_view.items@.len() == 0,
            app.log_view@.items.len() == 0 && app.log_view@.selected == 0
                && app.log_view@.detailed_commit is None,
            app.branch_view@.items.len() == 0 && app.branch_view@.selected == 0
                && app.branch_view@.input.len() == 0,
            app.branch_view.input_mode == BranchMode::Normal,
            app.commit_view@.commit_message.len() == 0,
            app.commit_view.input_mode == CommitMode::Normal,
    {
        App {
            active_view: ActiveView::Status,
            status_view: StatusView::new(),
            log_view: LogView::new(),
            branch_view: BranchView::new(),
            commit_view: CommitView::new(),
            help_view: HelpView::new(),
            messages: Vec::new(),
        }
    }

    /// Moves to the next view and records the move in the messages.
    pub fn switch_view(&mut self)
        ensures
            final(self).active_view == next_view(old(self).active_view),
            messages_of(final(self)) == messages_of(old(self)).push(
                "Switched to "@ + view_name(next_view(old(self).active_view)),
            ),
            final(self).status_view == old(self).status_view,
            final(self).log_view == old(self).log_view,
            final(self).branch_view == old(self).branch_view,
            final(self).commit_view == old(self).commit_view,
    {
        let ghost m0 = messages_of(self);
        self.active_view = match self.active_view {
            ActiveView::Status => ActiveView::Log,
            ActiveView::Log => ActiveView::Branch,
            ActiveView::Branch => ActiveView::Commit,
            ActiveView::Commit => ActiveView::Help,
            ActiveView::Help => ActiveView::Status,
        };
        let text = concat2("Switched to ", self.active_view.name());
        self.messages.push(text);
        assert(messages_of(self) =~= m0.push(text@));
    }

    /// Whether `key` can be handled without the active view indexing past
    /// its list.
    pub open spec fn key_in_range(&self, key: Key) -> bool {
        &&& self.active_view == ActiveView::Log ==> self.log_view@.key_in_range(key)
        &&& self.active_view == ActiveView::Branch ==> self.branch_view@.key_in_range(key)
    }

    /// Reacts to a key: `q` quits, `Tab` moves to the next view, and any
    /// other key goes to the active view, whose Git work, if any, comes back
    /// for the caller to run.
    pub fn handle_input(&mut self, key: Key) -> (cmd: AppCommand)
        requires
            old(self).key_in_range(key),
        ensures
            key == Key::Char('q') ==> cmd is Quit && *final(self) == *old(self),
            final(self).status_view == old(self).status_view,
            old(self).active_view != ActiveView::Log || key == Key::Char('q') || key == Key::Tab
                ==> final(self).log_view == old(self).log_view,
            old(self).active_view != ActiveView::Branch || key == Key::Char('q') || key == Key::Tab
                ==> final(self).branch_view == old(self).branch_view,
            old(self).active_view != ActiveView::Commit || key == Key::Char('q') || key == Key::Tab
                ==> final(self).commit_view == old(self).commit_view,
            key == Key::Tab ==> cmd is Continue && final(self).active_view == next_view(
                old(self).active_view,
            ) && messages_of(final(self)) == messages_of(old(self)).push(
                "Switched to "@ + view_name(next_view(old(self).active_view)),
            ),
            key != Key::Char('q') && key != Key::Tab ==> final(self).active_view == old(
                self,
            ).active_view && match old(self).active_view {
                ActiveView::Log => (cmd matches AppCommand::Log(a) && a@ == old(self).log_view@.on_key(
                    key,
                ).2) && final(self).log_view@ == old(self).log_view@.on_key(key).0 && messages_of(
                    final(self),
                ) == messages_of(old(self)) + old(self).log_view@.on_key(key).1,
                ActiveView::Branch => (cmd matches AppCommand::Branch(a) && a@ == old(
                    self,
                ).branch_view@.on_key(key).2) && final(self).branch_view@ == old(
                    self,
                ).branch_view@.on_key(key).0 && messages_of(final(self)) == messages_of(old(self))
                    + old(self).branch_view@.on_key(key).1,
                ActiveView::Commit => (cmd matches AppCommand::Commit(a) && a@ == old(
                    self,
                ).commit_view@.on_key(key).2) && final(self).commit_view@ == old(
                    self,
                ).commit_view@.on_key(key).0 && messages_of(final(self)) == messages_of(old(self))
                    + old(self).commit_view@.on_key(key).1,
                _ => cmd is Continue && *final(self) == *old(self),
            },
    {
        if key == Key::Char('q') {
            return AppCommand::Quit;
        }
        if key == Key::Tab {
            self.switch_view();
            return AppCommand::Continue;
        }
        match self.active_view {
            ActiveView::Status => AppCommand::Continue,
            ActiveView::Log => AppCommand::Log(self.log_view.handle_input(key, &mut self.messages)),
            ActiveView::Branch => AppCommand::Branch(
                self.branch_view.handle_input(key, &mut self.messages),
            ),
            ActiveView::Commit => AppCommand::Commit(
                self.commit_view.handle_input(key, &mut self.messages),
            ),
            ActiveView::Help => {
                self.help_view.handle_input(key);
                AppCommand::Continue
            },
        }
    }

    /// Shows the commit that a lookup found in the log view, or records its
    /// error as a message.
    pub fn finish_log_detail(&mut self, commit_id: &String, lookup: DetailLookup)
        ensures
            lookup matches DetailLookup::Found { commit, parents } ==> messages_of(final(self))
                == messages_of(old(self)) && final(self).log_view@ == (LogViewModel {
                detailed_commit: Some(commit_detail(commit, parents@)),
                ..old(self).log_view@
            }),
            !(lookup is Found) ==> messages_of(final(self)) == messages_of(old(self)).push(
                "Error: "@ + lookup_error(lookup, commit_id@),
            ) && final(self).log_view@ == old(self).log_view@,
            final(self).active_view == old(self).active_view,
            final(self).status_view == old(self).status_view,
            final(self).branch_view == old(self).branch_view,
            final(self).commit_view == old(self).commit_view,
    {
        let ghost m0 = messages_of(self);
        let ghost l = lookup;
        match self.log_view.show_detail(commit_id, lookup) {
            Ok(()) => {},
            Err(e) => {
                self.messages.push(concat2("Error: ", e.as_str()));
                assert(messages_of(self) =~= m0.push("Error: "@ + lookup_error(l, commit_id@)));
            },
        }
    }

    /// The view that a tick refreshes from the repository: the status, log and
    /// branch views do; the commit and help views do not.
    pub fn on_tick(&self) -> (r: Option<Refresh>)
        ensures
            r == match self.active_view {
                ActiveView::Status => Some(Refresh::Status),
                ActiveView::Log => Some(Refresh::Log),
                ActiveView::Branch => Some(Refresh::Branch),
                _ => None,
            },
    {
        match self.active_view {
            ActiveView::Status => Some(Refresh::Status),
            ActiveView::Log => Some(Refresh::Log),
            ActiveView::Branch => Some(Refresh::Branch),
            ActiveView::Commit => None,
            ActiveView::Help => None,
        }
    }

    /// The messages, one per line.
    pub fn messages_text(&self) -> (t: String)
        ensures
            t@ == join(messages_of(self), "\n"@),
    {
        join_strings(&self.messages, "\n")
    }

    /// The title line of the screen.
    pub fn title() -> (t: &'static str)
        ensures
            t@ == "Rugit-TUI: Rust Git Interface"@,
    {
        "Rugit-TUI: Rust Git Interface"
    }

    /// The footer line of the screen.
    pub fn footer() -> (t: &'static str)
        ensures
            t@ == "Press 'q' to exit | Tab to switch views"@,
    {
        "Press 'q' to exit | Tab to switch views"
    }

    /// How the screen is divided: stacked from the top inside a margin of one
    /// cell, into the title (3 rows), the content (at least 1), the messages
    /// (5) and the footer (3).
    pub fn screen_layout() -> (l: ScreenLayout)
        ensures
            l.stacking == Stacking::Vertical,
            l.margin == 1,
            l.extents@ == seq![Extent::Length(3), Extent::Min(1), Extent::Length(5), Extent::Length(3)],
    {
        let mut extents: Vec<Extent> = Vec::new();
        extents.push(Extent::Length(3));
        extents.push(Extent::Min(1));
        extents.push(Extent::Length(5));
        extents.push(Extent::Length(3));
        ScreenLayout { stacking: Stacking::Vertical, margin: 1, extents }
    }

    /// The areas of the screen, as tui's layout divides it by `screen_layout`:
    /// one per extent, the last reaching the bottom of the area inside the margin.
    pub fn screen_areas(screen: Area) -> (r: Vec<Area>)
        requires
            splittable(screen, 1),
        ensures
            r@.len() == 4,
            reaches_far_edge(r@[3], inner_area(screen, 1), Stacking::Vertical),
    {
        let l = App::screen_layout();
        split_area(screen, l.stacking, l.margin, &l.extents)
    }

    /// Whether `p` is what the content area shows: the panel of the active view.
    pub open spec fn shows_main(&self, p: Panel) -> bool {
        match self.active_view {
            ActiveView::Status => self.status_view.shows(p),
            ActiveView::Log => self.log_view.shows(p),
            ActiveView::Branch => self.branch_view.shows(p),
            ActiveView::Commit => self.commit_view.shows(p),
            ActiveView::Help => self.help_view.shows(p),
        }
    }

    /// Whether `part` is what is drawn in area `i` of the screen: the title
    /// in yellow, the active view, the messages in a magenta panel titled
    /// "Messages", and the footer in magenta.
    pub open spec fn shows_part(&self, i: int, part: ScreenPart) -> bool {
        if i == 0 {
            part matches ScreenPart::Banner { text, tint } && text@ == "Rugit-TUI: Rust Git Interface"@
                && tint == Tint::Yellow
        } else if i == 1 {
            part matches ScreenPart::Framed(p) && self.shows_main(p)
        } else if i == 2 {
            part matches ScreenPart::Framed(p) && p.title@ == "Messages"@ && p.frame_tint is None
                && !p.clear_first && (p.body matches Body::Text { text, tint, wrap } && text@
                == join(messages_of(self), "\n"@) && tint == Some(Tint::Magenta) && wrap)
        } else {
            i == 3 && (part matches ScreenPart::Banner { text, tint } && text@
                == "Press 'q' to exit | Tab to switch views"@ && tint == Tint::Magenta)
        }
    }

    /// The whole screen: each area of `screen_areas`, paired with what is
    /// drawn in it.
    pub fn screen(&self, screen: Area) -> (r: Vec<(Area, ScreenPart)>)
        requires
            splittable(screen, 1),
        ensures
            r@.len() == 4,
            forall|i: int| 0 <= i < 4 ==> self.shows_part(i, #[trigger] r@[i].1),
            reaches_far_edge(r@[3].0, inner_area(screen, 1), Stacking::Vertical),
    {
        let areas = App::screen_areas(screen);
        let mut r: Vec<(Area, ScreenPart)> = Vec::new();
        r.push((areas[0], ScreenPart::Banner { text: String::from_str(App::title()), tint: Tint::Yellow }));
        r.push((areas[1], ScreenPart::Framed(self.main_panel())));
        let messages = Panel {
            title: String::from_str("Messages"),
            frame_tint: None,
            clear_first: false,
            body: Body::Text { text: self.messages_text(), tint: Some(Tint::Magenta), wrap: true },
        };
        r.push((areas[2], ScreenPart::Framed(messages)));
        r.push((areas[3], ScreenPart::Banner { text: String::from_str(App::footer()), tint: Tint::Magenta }));
        assert forall|i: int| 0 <= i < 4 implies self.shows_part(i, #[trigger] r@[i].1) by {
            if i == 3 {
                assert(r@[3].1 == r@.last().1);
            }
        }
        r
    }

    /// What the content area shows: the panel of the active view.
    pub fn main_panel(&self) -> (p: Panel)
        ensures
            self.shows_main(p),
    {
        match self.active_view {
            ActiveView::Status => self.status_view.panel(),
            ActiveView::Log => self.log_view.panel(),
            ActiveView::Branch => self.branch_view.panel(),
            ActiveView::Commit => self.commit_view.panel(),
            ActiveView::Help => self.help_view.panel(),
        }
    }
}

} // verus!
