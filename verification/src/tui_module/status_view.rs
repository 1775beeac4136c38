//! The status view: one row for each changed file of the working tree.
use vstd::prelude::*;

use crate::keys::Key;
use crate::panel::{Body, Panel};
use crate::text::{concat2, concat3, views};

verus! {

/// The flags of a file's status that the rows tell apart: new, modified or
/// deleted, in the index and in the working tree.
#[derive(Clone, Copy, Debug, PartialEq, Eq, Structural)]
pub struct FileStatus {
    pub index_new: bool,
    pub index_modified: bool,
    pub index_deleted: bool,
    pub wt_new: bool,
    pub wt_modified: bool,
    pub wt_deleted: bool,
}

/// One changed file: its status, and its path where it reads as text.
pub struct StatusEntry {
    pub status: FileStatus,
    pub path: Option<String>,
}

/// What reading the status gave: the error that stopped it at opening the
/// repository or at reading the status, or the changed files.
pub enum StatusListing {
    RepositoryFailed(String),
    StatusFailed(String),
    Entries(Vec<StatusEntry>),
}

/// The code that stands for a status; the first flag that is set, in this
/// order, decides it.
pub open spec fn status_code(s: FileStatus) -> Seq<char> {
    if s.index_new {
        "A"@
    } else if s.index_modified {
        "M"@
    } else if s.index_deleted {
        "D"@
    } else if s.wt_new {
        "??"@
    } else if s.wt_modified {
        "M"@
    } else if s.wt_deleted {
        "D"@
    } else {
        " "@
    }
}

/// The row of one changed file: its code and its path (or "Unknown").
pub open spec fn status_row(e: StatusEntry) -> Seq<char> {
    status_code(e.status) + " "@ + match e.path {
        Some(p) => p@,
        None => "Unknown"@,
    }
}

/// The rows for the changed files; one line that says so where there are none.
pub open spec fn status_rows(entries: Seq<StatusEntry>) -> Seq<Seq<char>> {
    if entries.len() == 0 {
        seq!["Nothing to commit, working tree clean."@]
    } else {
        entries.map_values(|e: StatusEntry| status_row(e))
    }
}

/// The code for a status.
pub fn status_code_of(s: &FileStatus) -> (r: &'static str)
    ensures
        r@ == status_code(*s),
{
    if s.index_new {
        "A"
    } else if s.index_modified {
        "M"
    } else if s.index_deleted {
        "D"
    } else if s.wt_new {
        "??"
    } else if s.wt_modified {
        "M"
    } else if s.wt_deleted {
        "D"
    } else {
        " "
    }
}

/// The rows for a list of changed files.
pub fn rows_of_entries(entries: &Vec<StatusEntry>) -> (rows: Vec<String>)
    ensures
        views(rows@) == status_rows(entries@),
{
    let mut rows: Vec<String> = Vec::new();
    if entries.len() == 0 {
        rows.push(String::from_str("Nothing to commit, working tree clean."));
        assert(views(rows@) =~= status_rows(entries@));
        return rows;
    }
    let mut i: usize = 0;
    while i < entries.len()
        invariant
            i <= entries.len(),
            views(rows@) == entries@.take(i as int).map_values(|e: StatusEntry| status_row(e)),
        decreases entries.len() - i,
    {
        let e = &entries[i];
        let path = match &e.path {
            Some(p) => p.as_str(),
            None => "Unknown",
        };
        let ghost before = rows@;
        rows.push(concat3(status_code_of(&e.status), " ", path));
        assert(views(rows@) =~= views(before).push(status_row(entries@[i as int])));
        assert(entries@.take(i + 1).map_values(|e: StatusEntry| status_row(e)) =~= entries@.take(
            i as int,
        ).map_values(|e: StatusEntry| status_row(e)).push(status_row(entries@[i as int])));
        i = i + 1;
    }
    assert(entries@.take(entries.len() as int) =~= entries@);
    rows
}

/// The rows that a status listing shows.
pub open spec fn listing_rows(listing: StatusListing) -> Seq<Seq<char>> {
    match listing {
        StatusListing::RepositoryFailed(e) => seq!["Error opening repository: "@ + e@],
        StatusListing::StatusFailed(e) => seq!["Error retrieving status: "@ + e@],
        StatusListing::Entries(entries) => status_rows(entries@),
    }
}

pub struct StatusView {
    pub items: Vec<String>,
}

impl StatusView {
    pub fn new() -> (v: StatusView)
        ensures
            v.items@ == Seq::<String>::empty(),
    {
        StatusView { items: vec![] }
    }

    /// Reacts to a key; `a` gives the notice that staging is not offered here.
    pub fn handle_input(&mut self, key: Key) -> (notice: Option<String>)
        ensures
            final(self).items == old(self).items,
            key == Key::Char('a') ==> (notice matches Some(n) && n@
                == "Add functionality not yet implemented."@),
            key != Key::Char('a') ==> notice is None,
    {
        if key == Key::Char('a') {
            Some(String::from_str("Add functionality not yet implemented."))
        } else {
            None
        }
    }

    /// Replaces the rows by those of a fresh status listing.
    pub fn update(&mut self, listing: StatusListing)
        ensures
            views(final(self).items@) == listing_rows(listing),
    {
        let rows = match &listing {
            StatusListing::RepositoryFailed(e) => {
                let mut rows = Vec::new();
                rows.push(concat2("Error opening repository: ", e.as_str()));
                assert(views(rows@) =~= listing_rows(listing));
                rows
            },
            StatusListing::StatusFailed(e) => {
                let mut rows = Vec::new();
                rows.push(concat2("Error retrieving status: ", e.as_str()));
                assert(views(rows@) =~= listing_rows(listing));
                rows
            },
            StatusListing::Entries(entries) => rows_of_entries(entries),
        };
        self.items = rows;
    }

    /// Whether `p` is what the view shows: its rows, under the title "Status".
    pub open spec fn shows(&self, p: Panel) -> bool {
        &&& p.title@ == "Status"@ && p.frame_tint is None && !p.clear_first
        &&& p.body matches Body::Rows { rows, highlighted } && views(rows@) == views(self.items@)
            && highlighted is None
    }

    /// The panel that the view shows, as `shows` describes it.
    pub fn panel(&self) -> (p: Panel)
        ensures
            self.shows(p),
    {
        Panel {
            title: String::from_str("Status"),
            frame_tint: None,
            clear_first: false,
            body: Body::Rows { rows: self.items.clone(), highlighted: None },
        }
    }
}

} // verus!
