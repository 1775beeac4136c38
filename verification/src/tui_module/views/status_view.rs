//! The status view that stages files: a selectable list of changed files,
//! and a mode in which `Enter` stages the selected one.
use vstd::prelude::*;

use crate::keys::{Key, move_down, move_up, select_down, select_up};
use crate::panel::{Body, Panel};
use crate::text::{concat2, concat3, split_once, split_once_char, views};
use crate::tui_module::status_view::{
    StatusListing, rows_of_entries, status_rows,
};

verus! {

/// What the keys of the view currently do.
#[derive(Clone, Copy, Debug, PartialEq, Eq, Structural)]
pub enum InputMode {
    Normal,
    AddingFiles,
}

pub struct StatusView {
    pub items: Vec<String>,
    pub input_mode: InputMode,
    pub input: String,
    pub selected: usize,
}

pub struct StatusViewModel {
    pub items: Seq<Seq<char>>,
    pub input_mode: InputMode,
    pub input: Seq<char>,
    pub selected: int,
}

impl View for StatusView {
    type V = StatusViewModel;

    open spec fn view(&self) -> StatusViewModel {
        StatusViewModel {
            items: views(self.items@),
            input_mode: self.input_mode,
            input: self.input@,
            selected: self.selected as int,
        }
    }
}

/// The Git operation that a key asks for: none, or staging one file.
pub enum StatusAction {
    Nothing,
    Stage(String),
}

impl View for StatusAction {
    type V = Option<Seq<char>>;

    open spec fn view(&self) -> Option<Seq<char>> {
        match self {
            StatusAction::Nothing => None,
            StatusAction::Stage(f) => Some(f@),
        }
    }
}

/// The file that a status row names: the text after its first space.
pub open spec fn row_file(row: Seq<char>) -> Option<Seq<char>> {
    match split_once(row, ' ') {
        Some((_, file)) => Some(file),
        None => None,
    }
}

impl StatusViewModel {
    /// The new state, the messages to append, and the file to stage, if any, after `key`.
    pub open spec fn on_key(self, key: Key) -> (StatusViewModel, Seq<Seq<char>>, Option<Seq<char>>) {
        match self.input_mode {
            InputMode::Normal => if key == Key::Char('a') {
                (
                    StatusViewModel {
                        input_mode: InputMode::AddingFiles,
                        input: Seq::empty(),
                        ..self
                    },
                    seq!["Press 'Enter' to stage selected file or 'Esc' to cancel."@],
                    None,
                )
            } else if key == Key::Down {
                (
                    StatusViewModel {
                        selected: select_down(self.selected, self.items.len() as int),
                        ..self
                    },
                    seq![],
                    None,
                )
            } else if key == Key::Up {
                (StatusViewModel { selected: select_up(self.selected), ..self }, seq![], None)
            } else {
                (self, seq![], None)
            },
            InputMode::AddingFiles => if key == Key::Enter {
                (
                    StatusViewModel { input_mode: InputMode::Normal, ..self },
                    seq![],
                    if 0 <= self.selected < self.items.len() {
                        row_file(self.items[self.selected])
                    } else {
                        None
                    },
                )
            } else if key == Key::Esc {
                (
                    StatusViewModel { input_mode: InputMode::Normal, ..self },
                    seq!["Cancelled staging files."@],
                    None,
                )
            } else {
                (self, seq![], None)
            },
        }
    }
}

/// The rows after a status fetch, or the error that it reports.
pub open spec fn fetch_result(listing: StatusListing) -> Result<Seq<Seq<char>>, Seq<char>> {
    match listing {
        StatusListing::RepositoryFailed(e) => Err(e@),
        StatusListing::StatusFailed(e) => Err(e@),
        StatusListing::Entries(entries) => Ok(status_rows(entries@)),
    }
}

/// The rows that an update shows: those of the fetch, or one line with its error.
pub open spec fn updated_rows(listing: StatusListing) -> Seq<Seq<char>> {
    match fetch_result(listing) {
        Ok(rows) => rows,
        Err(e) => seq!["Error fetching status: "@ + e],
    }
}

impl StatusView {
    pub fn new() -> (v: StatusView)
        ensures
            v@ == (StatusViewModel {
                items: Seq::empty(),
                input_mode: InputMode::Normal,
                input: Seq::empty(),
                selected: 0,
            }),
    {
        let v = StatusView {
            items: vec![],
            input_mode: InputMode::Normal,
            input: String::new(),
            selected: 0,
        };
        assert(v@.items =~= Seq::empty());
        v
    }

    /// Fills the rows from a status listing. Where reading the status failed,
    /// the rows are left empty and the error is returned.
    pub fn fetch_status(&mut self, listing: StatusListing) -> (r: Result<(), String>)
        ensures
            match fetch_result(listing) {
                Ok(rows) => r is Ok && final(self)@ == (StatusViewModel { items: rows, ..old(self)@ }),
                Err(e) => r matches Err(m) && m@ == e && final(self)@ == (StatusViewModel {
                    items: Seq::empty(),
                    ..old(self)@
                }),
            },
    {
        self.items = Vec::new();
        assert(views(self.items@) =~= Seq::<Seq<char>>::empty());
        match listing {
            StatusListing::RepositoryFailed(e) => Err(e),
            StatusListing::StatusFailed(e) => Err(e),
            StatusListing::Entries(entries) => {
                self.items = rows_of_entries(&entries);
                Ok(())
            },
        }
    }

    /// Fills the rows from a status listing, or shows the error of the fetch
    /// as the one row.
    pub fn update(&mut self, listing: StatusListing)
        ensures
            final(self)@ == (StatusViewModel { items: updated_rows(listing), ..old(self)@ }),
    {
        let ghost l = listing;
        match self.fetch_status(listing) {
            Ok(()) => {},
            Err(e) => {
                self.items.push(concat2("Error fetching status: ", e.as_str()));
                assert(views(self.items@) =~= updated_rows(l));
            },
        }
    }

    /// Reacts to a key: changes the view, appends messages, and names the file
    /// to stage, if any. The caller stages it and reports it with `report_stage`.
    pub fn handle_input(&mut self, key: Key, messages: &mut Vec<String>) -> (action: StatusAction)
        ensures
            final(self)@ == old(self)@.on_key(key).0,
            views(final(messages)@) == views(old(messages)@) + old(self)@.on_key(key).1,
            action@ == old(self)@.on_key(key).2,
    {
        let ghost m0 = views(messages@);
        match self.input_mode {
            InputMode::Normal => {
                if key == Key::Char('a') {
                    self.input_mode = InputMode::AddingFiles;
                    self.input.clear();
                    messages.push(
                        String::from_str("Press 'Enter' to stage selected file or 'Esc' to cancel."),
                    );
                    assert(views(messages@) =~= m0.push(
                        "Press 'Enter' to stage selected file or 'Esc' to cancel."@,
                    ));
                } else if key == Key::Down {
                    self.selected = move_down(self.selected, self.items.len());
                    assert(views(messages@) =~= m0);
                } else if key == Key::Up {
                    self.selected = move_up(self.selected);
                    assert(views(messages@) =~= m0);
                } else {
                    assert(views(messages@) =~= m0);
                }
                StatusAction::Nothing
            },
            InputMode::AddingFiles => {
                if key == Key::Enter {
                    let mut action = StatusAction::Nothing;
                    if self.selected < self.items.len() {
                        let row = self.items[self.selected].as_str();
                        match split_once_char(row, ' ') {
                            Some((_, file)) => {
                                action = StatusAction::Stage(String::from_str(file));
                            },
                            None => {},
                        }
                    }
                    self.input_mode = InputMode::Normal;
                    assert(views(messages@) =~= m0);
                    action
                } else if key == Key::Esc {
                    self.input_mode = InputMode::Normal;
                    messages.push(String::from_str("Cancelled staging files."));
                    assert(views(messages@) =~= m0.push("Cancelled staging files."@));
                    StatusAction::Nothing
                } else {
                    assert(views(messages@) =~= m0);
                    StatusAction::Nothing
                }
            },
        }
    }

    /// Appends the message that tells how staging `file` went, and returns
    /// whether the status is to be fetched again (after a success).
    pub fn report_stage(file: &String, outcome: &Result<(), String>, messages: &mut Vec<String>) -> (refetch: bool)
        ensures
            refetch == outcome is Ok,
            views(final(messages)@) == views(old(messages)@).push(
                match outcome {
                    Ok(_) => "Staged file '"@ + file@ + "'."@,
                    Err(e) => "Failed to stage '"@ + file@ + "': "@ + e@,
                },
            ),
    {
        let ghost m0 = views(messages@);
        let text = match outcome {
            Ok(_) => concat3("Staged file '", file.as_str(), "'."),
            Err(e) => {
                let mut t = concat3("Failed to stage '", file.as_str(), "': ");
                t.append(e.as_str());
                t
            },
        };
        let refetch = outcome.is_ok();
        messages.push(text);
        assert(views(messages@) =~= m0.push(text@));
        refetch
    }

    /// Fetches the status again after staging; a failure is reported as a message.
    pub fn refetch(&mut self, listing: StatusListing, messages: &mut Vec<String>)
        ensures
            match fetch_result(listing) {
                Ok(rows) => final(self)@ == (StatusViewModel { items: rows, ..old(self)@ }) && views(
                    final(messages)@,
                ) == views(old(messages)@),
                Err(e) => final(self)@ == (StatusViewModel { items: Seq::empty(), ..old(self)@ })
                    && views(final(messages)@) == views(old(messages)@).push(
                    "Error fetching status: "@ + e,
                ),
            },
    {
        let ghost m0 = views(messages@);
        match self.fetch_status(listing) {
            Ok(()) => {},
            Err(e) => {
                messages.push(concat2("Error fetching status: ", e.as_str()));
                assert(views(messages@) =~= m0.push(("Error fetching status: "@ + e@)));
            },
        }
    }

    /// Whether `p` is what the view shows: its rows, under the title "Status".
    pub open spec fn shows(&self, p: Panel) -> bool {
        &&& p.title@ == "Status"@ && p.frame_tint is None && !p.clear_first
        &&& p.body matches Body::Rows { rows, highlighted } && views(rows@) == views(self.items@)
            && highlighted == Some(self.selected)
    }

    /// The panel that the view shows, as `shows` describes it.
    pub fn panel(&self) -> (p: Panel)
        ensures
            self.shows(p),
    {
        Panel {
            title: String::from_str("Status"),
            frame_tint: None,
            clear_first: false,
            body: Body::Rows { rows: self.items.clone(), highlighted: Some(self.selected) },
        }
    }
}

} // verus!
