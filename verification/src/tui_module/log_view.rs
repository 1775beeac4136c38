//! The log view: the commits reachable from HEAD, oldest first, and the
//! details of one of them.
use vstd::prelude::*;

use crate::keys::{Key, move_down, move_up, select_down, select_up};
use crate::panel::{Body, Panel, Tint};
use crate::text::{concat2, first_piece, first_piece_str, join, join_strings, views};

verus! {

/// A letter that chrono's `strftime` syntax reads after `%` as a plain
/// number: year, month, day, hour, minute or second.
pub open spec fn date_field_letter(c: char) -> bool {
    c == 'Y' || c == 'm' || c == 'd' || c == 'H' || c == 'M' || c == 'S'
}

/// A `strftime` format whose every `%` starts one of the fields above, so
/// that chrono formats it without error; other characters stand for themselves.
pub open spec fn plain_date_format(f: Seq<char>) -> bool
    decreases f.len(),
{
    if f.len() == 0 {
        true
    } else if f[0] == '%' {
        f.len() >= 2 && date_field_letter(f[1]) && plain_date_format(f.subrange(2, f.len() as int))
    } else {
        plain_date_format(f.drop_first())
    }
}

/// What chrono's `NaiveDateTime` shows for a Unix timestamp in whole
/// seconds, formatted with `format`; `None` where the timestamp is outside
/// the range of dates that it can hold.
pub uninterp spec fn naive_timestamp_text(seconds: i64, format: Seq<char>) -> Option<Seq<char>>;

/// The format in which the log shows dates.
pub open spec fn log_date_format() -> Seq<char> {
    "%Y-%m-%d %H:%M:%S"@
}

/// Calls `chrono::NaiveDateTime::from_timestamp_opt(seconds, 0)` and, where
/// it gives a date, its `format(format)` as a `String`. The contract names
/// the result and states facts from chrono's documentation: timestamp 0 is
/// the Unix epoch, which the log's format shows as midnight of January 1,
/// 1970. Where the format holds a `%` that chrono does not read, turning it
/// into a `String` panics; `requires` leaves such formats out.
#[verifier::external_body]
#[allow(deprecated)]
fn timestamp_text(seconds: i64, format: &str) -> (r: Option<String>)
    requires
        plain_date_format(format@),
    ensures
        r is Some <==> naive_timestamp_text(seconds, format@) is Some,
        r matches Some(t) ==> naive_timestamp_text(seconds, format@) == Some(t@),
        r is Some || seconds != 0,
        r matches Some(t) ==> (seconds == 0 && format@ == log_date_format() ==> t@
            == "1970-01-01 00:00:00"@),
{
    match chrono::NaiveDateTime::from_timestamp_opt(seconds, 0) {
        Some(d) => Some(d.format(format).to_string()),
        None => None,
    }
}

/// The date shown for a commit made at `seconds`: chrono's text for it in
/// the log's format, or the epoch where chrono cannot represent it.
pub open spec fn commit_time_text(seconds: i64) -> Seq<char> {
    match naive_timestamp_text(seconds, log_date_format()) {
        Some(t) => t,
        None => "1970-01-01 00:00:00"@,
    }
}

proof fn lemma_log_date_format_is_plain()
    ensures
        plain_date_format(log_date_format()),
{
    reveal_strlit("%Y-%m-%d %H:%M:%S");
    reveal_with_fuel(plain_date_format, 20);
    let f = log_date_format();
    assert(f.len() == 17);
    assert(f =~= seq![
        '%', 'Y', '-', '%', 'm', '-', '%', 'd', ' ', '%', 'H', ':', '%', 'M', ':', '%', 'S',
    ]);
}

/// Formats the time of a commit; a commit at timestamp 0 shows the epoch.
pub fn format_commit_time(seconds: i64) -> (r: String)
    ensures
        r@ == commit_time_text(seconds),
        seconds == 0 ==> r@ == "1970-01-01 00:00:00"@,
{
    let format = "%Y-%m-%d %H:%M:%S";
    proof {
        lemma_log_date_format_is_plain();
    }
    match timestamp_text(seconds, format) {
        Some(t) => t,
        None => timestamp_text(0, format).unwrap(),
    }
}

/// One row of the log.
#[derive(Clone)]
pub struct CommitItem {
    pub id: String,
    pub author: String,
    /// The commit date.
    pub date: String,
    pub message: String,
}

/// One commit in full.
pub struct CommitDetail {
    pub id: String,
    pub author: String,
    pub date: String,
    pub message: String,
    pub parents: Vec<String>,
}

/// What the repository holds of one commit: its id, its author's name and
/// its message (each `None` where it does not read as text), and its time in
/// seconds since the Unix epoch.
pub struct CommitRecord {
    pub id: String,
    pub author: Option<String>,
    pub message: Option<String>,
    pub seconds: i64,
}

/// One step of the walk over the history: a commit, or the error met in
/// looking up the commit `oid` or in reading the next id.
pub enum WalkEntry {
    Found(CommitRecord),
    FindFailed { oid: String, error: String },
    OidFailed(String),
}

/// What walking the history from HEAD gave: the error that stopped it at
/// opening the repository, at starting the walk, or at adding HEAD to it; or
/// the steps of the walk.
pub enum LogWalk {
    RepositoryFailed(String),
    RevwalkFailed(String),
    PushHeadFailed(String),
    Walked(Vec<WalkEntry>),
}

/// What looking up one commit gave: the step that failed (with the error
/// text where the failure is reported as it is) or the commit and the ids of
/// its parents.
pub enum DetailLookup {
    RepositoryFailed,
    ParseFailed(String),
    FindFailed,
    Found { commit: CommitRecord, parents: Vec<String> },
}

pub struct CommitItemModel {
    pub id: Seq<char>,
    pub author: Seq<char>,
    pub date: Seq<char>,
    pub message: Seq<char>,
}

pub struct CommitDetailModel {
    pub id: Seq<char>,
    pub author: Seq<char>,
    pub date: Seq<char>,
    pub message: Seq<char>,
    pub parents: Seq<Seq<char>>,
}

impl View for CommitItem {
    type V = CommitItemModel;

    open spec fn view(&self) -> CommitItemModel {
        CommitItemModel {
            id: self.id@,
            author: self.author@,
            date: self.date@,
            message: self.message@,
        }
    }
}

impl View for CommitDetail {
    type V = CommitDetailModel;

    open spec fn view(&self) -> CommitDetailModel {
        CommitDetailModel {
            id: self.id@,
            author: self.author@,
            date: self.date@,
            message: self.message@,
            parents: views(self.parents@),
        }
    }
}

pub struct LogView {
    pub items: Vec<CommitItem>,
    pub selected: usize,
    pub detailed_commit: Option<CommitDetail>,
}

pub struct LogViewModel {
    pub items: Seq<CommitItemModel>,
    pub selected: int,
    pub detailed_commit: Option<CommitDetailModel>,
}

pub open spec fn item_views(items: Seq<CommitItem>) -> Seq<CommitItemModel> {
    items.map_values(|c: CommitItem| c@)
}

impl View for LogView {
    type V = LogViewModel;

    open spec fn view(&self) -> LogViewModel {
        LogViewModel {
            items: item_views(self.items@),
            selected: self.selected as int,
            detailed_commit: match self.detailed_commit {
                Some(d) => Some(d@),
                None => None,
            },
        }
    }
}

/// The text of an optional string, or `default` where there is none.
pub open spec fn text_or(s: Option<String>, default: Seq<char>) -> Seq<char> {
    match s {
        Some(t) => t@,
        None => default,
    }
}

/// The row that the log shows for a commit: its author (or "Unknown"), its
/// date, and the first line of its message.
pub open spec fn commit_item(r: CommitRecord) -> CommitItemModel {
    CommitItemModel {
        id: r.id@,
        author: text_or(r.author, "Unknown"@),
        date: commit_time_text(r.seconds),
        message: first_piece(text_or(r.message, ""@), '\n'),
    }
}

/// The row that stands for an error in the log.
pub open spec fn error_item(message: Seq<char>) -> CommitItemModel {
    CommitItemModel { id: "Error"@, author: "Error"@, date: ""@, message }
}

/// The row for one step of the walk.
pub open spec fn walk_item(e: WalkEntry) -> CommitItemModel {
    match e {
        WalkEntry::Found(r) => commit_item(r),
        WalkEntry::FindFailed { oid, error } => error_item(
            "Error finding commit "@ + oid@ + ": "@ + error@,
        ),
        WalkEntry::OidFailed(error) => error_item("Error iterating oid: "@ + error@),
    }
}

/// The rows that a walk of the history shows.
pub open spec fn walk_items(walk: LogWalk) -> Seq<CommitItemModel> {
    match walk {
        LogWalk::RepositoryFailed(e) => seq![error_item("Error opening repository: "@ + e@)],
        LogWalk::RevwalkFailed(e) => seq![error_item("Error creating revwalk: "@ + e@)],
        LogWalk::PushHeadFailed(e) => seq![error_item("Error pushing HEAD: "@ + e@)],
        LogWalk::Walked(entries) => entries@.map_values(|e: WalkEntry| walk_item(e)),
    }
}

/// Whether the walk ends the update early, before the selection is checked
/// against the new list.
pub open spec fn walk_stops_early(walk: LogWalk) -> bool {
    walk is RevwalkFailed || walk is PushHeadFailed
}

/// The selection kept after the list is replaced by `n` rows: moved back to
/// the last row where it would point past the end.
pub open spec fn clamp_selection(selected: int, n: int) -> int {
    if selected >= n && selected > 0 {
        n - 1
    } else {
        selected
    }
}

/// The full details of a commit.
pub open spec fn commit_detail(r: CommitRecord, parents: Seq<String>) -> CommitDetailModel {
    CommitDetailModel {
        id: r.id@,
        author: text_or(r.author, "Unknown"@),
        date: commit_time_text(r.seconds),
        message: text_or(r.message, ""@),
        parents: views(parents),
    }
}

/// The error that a failed lookup of `commit_id` reports.
pub open spec fn lookup_error(lookup: DetailLookup, commit_id: Seq<char>) -> Seq<char> {
    match lookup {
        DetailLookup::RepositoryFailed => "Failed to open repository"@,
        DetailLookup::ParseFailed(e) => e@,
        DetailLookup::FindFailed => "Failed to find commit '"@ + commit_id + "'"@,
        DetailLookup::Found { .. } => Seq::empty(),
    }
}

/// The lines that show a commit in full.
pub open spec fn detail_lines(d: CommitDetailModel) -> Seq<Seq<char>> {
    seq![
        "Commit ID: "@ + d.id,
        "Author: "@ + d.author,
        "Date: "@ + d.date,
        ""@,
        "Message:"@,
        d.message,
        ""@,
        "Parents:"@,
        join(d.parents, ", "@),
    ]
}

/// The text of one row of the list.
pub open spec fn row_text(c: CommitItemModel) -> Seq<char> {
    c.id + " "@ + c.author + " ["@ + c.date + "] - "@ + c.message
}

/// The Git work that a key asks for.
pub enum LogAction {
    Nothing,
    /// Look up the commit with this id and show it with `show_detail`.
    ShowDetail(String),
    /// Walk the history again and pass it to `update`.
    Refresh,
}

impl View for LogAction {
    type V = Option<Option<Seq<char>>>;

    /// `None` for nothing, `Some(None)` for a refresh, `Some(Some(id))` for a lookup.
    open spec fn view(&self) -> Option<Option<Seq<char>>> {
        match self {
            LogAction::Nothing => None,
            LogAction::Refresh => Some(None),
            LogAction::ShowDetail(id) => Some(Some(id@)),
        }
    }
}

impl LogViewModel {
    /// The new state, the messages to append, and the work to do, after `key`.
    pub open spec fn on_key(self, key: Key) -> (
        LogViewModel,
        Seq<Seq<char>>,
        Option<Option<Seq<char>>>,
    ) {
        match key {
            Key::Down => (
                LogViewModel {
                    selected: select_down(self.selected, self.items.len() as int),
                    ..self
                },
                seq![],
                None,
            ),
            Key::Up => (LogViewModel { selected: select_up(self.selected), ..self }, seq![], None),
            Key::Enter => if self.items.len() > 0 {
                (self, seq![], Some(Some(self.items[self.selected].id)))
            } else {
                (self, seq![], None)
            },
            Key::Char(c) => if c == 'r' {
                (self, seq!["Commit logs refreshed."@], Some(None))
            } else {
                (self, seq![], None)
            },
            Key::Esc => (LogViewModel { detailed_commit: None, ..self }, seq![], None),
            _ => (self, seq![], None),
        }
    }

    /// Whether `key` can be handled without indexing past the list.
    pub open spec fn key_in_range(self, key: Key) -> bool {
        key == Key::Enter && self.items.len() > 0 ==> 0 <= self.selected < self.items.len()
    }

    /// Whether replacing the list by `walk` can check the selection without
    /// taking 1 from an empty length.
    pub open spec fn walk_in_range(self, walk: LogWalk) -> bool {
        !walk_stops_early(walk) ==> walk_items(walk).len() > 0 || self.selected == 0
    }
}

impl CommitItem {
    /// The row for a commit.
    pub fn from_record(r: &CommitRecord) -> (c: CommitItem)
        ensures
            c@ == commit_item(*r),
    {
        let author = match &r.author {
            Some(a) => a.clone(),
            None => String::from_str("Unknown"),
        };
        let message = match &r.message {
            Some(m) => String::from_str(first_piece_str(m.as_str(), '\n')),
            None => String::from_str(first_piece_str("", '\n')),
        };
        proof {
            if r.message is None {
                let e: Seq<char> = ""@;
                assert(first_piece(""@, '\n') == first_piece(e, '\n'));
            }
        }
        CommitItem { id: r.id.clone(), author, date: format_commit_time(r.seconds), message }
    }

    /// The row for an error.
    pub fn error(message: String) -> (c: CommitItem)
        ensures
            c@ == error_item(message@),
    {
        CommitItem {
            id: String::from_str("Error"),
            author: String::from_str("Error"),
            date: String::from_str(""),
            message,
        }
    }

    /// The row for one step of the walk.
    pub fn from_walk(e: &WalkEntry) -> (c: CommitItem)
        ensures
            c@ == walk_item(*e),
    {
        match e {
            WalkEntry::Found(r) => CommitItem::from_record(r),
            WalkEntry::FindFailed { oid, error } => {
                let mut m = String::from_str("Error finding commit ");
                m.append(oid.as_str());
                m.append(": ");
                m.append(error.as_str());
                CommitItem::error(m)
            },
            WalkEntry::OidFailed(error) => CommitItem::error(
                concat2("Error iterating oid: ", error.as_str()),
            ),
        }
    }

    /// The text of the row.
    pub fn row_text(&self) -> (t: String)
        ensures
            t@ == row_text(self@),
    {
        let mut t = self.id.clone();
        t.append(" ");
        t.append(self.author.as_str());
        t.append(" [");
        t.append(self.date.as_str());
        t.append("] - ");
        t.append(self.message.as_str());
        t
    }
}

impl CommitDetail {
    /// The details of a commit.
    pub fn from_record(r: &CommitRecord, parents: Vec<String>) -> (d: CommitDetail)
        ensures
            d@ == commit_detail(*r, parents@),
    {
        let author = match &r.author {
            Some(a) => a.clone(),
            None => String::from_str("Unknown"),
        };
        let message = match &r.message {
            Some(m) => m.clone(),
            None => String::from_str(""),
        };
        CommitDetail {
            id: r.id.clone(),
            author,
            date: format_commit_time(r.seconds),
            message,
            parents,
        }
    }

    /// The text that shows the commit in full, one item per line.
    pub fn text(&self) -> (t: String)
        ensures
            t@ == join(detail_lines(self@), "\n"@),
    {
        let mut lines: Vec<String> = Vec::new();
        lines.push(concat2("Commit ID: ", self.id.as_str()));
        lines.push(concat2("Author: ", self.author.as_str()));
        lines.push(concat2("Date: ", self.date.as_str()));
        lines.push(String::from_str(""));
        lines.push(String::from_str("Message:"));
        lines.push(self.message.clone());
        lines.push(String::from_str(""));
        lines.push(String::from_str("Parents:"));
        lines.push(join_strings(&self.parents, ", "));
        assert(views(lines@) =~= detail_lines(self@));
        join_strings(&lines, "\n")
    }
}

impl LogView {
    pub fn new() -> (v: LogView)
        ensures
            v@.items == Seq::<CommitItemModel>::empty(),
            v@.selected == 0,
            v@.detailed_commit is None,
    {
        LogView { items: vec![], selected: 0, detailed_commit: None }
    }

    /// Reacts to a key: moves the selection, closes the details, or names the
    /// Git work to do (a lookup for `show_detail`, or a new walk for `update`).
    pub fn handle_input(&mut self, key: Key, messages: &mut Vec<String>) -> (action: LogAction)
        requires
            old(self)@.key_in_range(key),
        ensures
            final(self)@ == old(self)@.on_key(key).0,
            views(final(messages)@) == views(old(messages)@) + old(self)@.on_key(key).1,
            action@ == old(self)@.on_key(key).2,
    {
        let ghost m0 = views(messages@);
        match key {
            Key::Down => {
                self.selected = move_down(self.selected, self.items.len());
                assert(views(messages@) =~= m0);
                LogAction::Nothing
            },
            Key::Up => {
                self.selected = move_up(self.selected);
                assert(views(messages@) =~= m0);
                LogAction::Nothing
            },
            Key::Enter => {
                assert(views(messages@) =~= m0);
                if self.items.len() > 0 {
                    LogAction::ShowDetail(self.items[self.selected].id.clone())
                } else {
                    LogAction::Nothing
                }
            },
            Key::Char('r') => {
                messages.push(String::from_str("Commit logs refreshed."));
                assert(views(messages@) =~= m0.push("Commit logs refreshed."@));
                LogAction::Refresh
            },
            Key::Esc => {
                if self.detailed_commit.is_some() {
                    self.detailed_commit = None;
                }
                assert(views(messages@) =~= m0);
                LogAction::Nothing
            },
            _ => {
                assert(views(messages@) =~= m0);
                LogAction::Nothing
            },
        }
    }

    /// Replaces the list by the rows of a walk of the history, closes the
    /// details, and, unless the walk stopped at its start, keeps the selection
    /// within the new list.
    pub fn update(&mut self, walk: LogWalk)
        requires
            old(self)@.walk_in_range(walk),
        ensures
            final(self)@.items == walk_items(walk),
            final(self)@.detailed_commit is None,
            final(self)@.selected == if walk_stops_early(walk) {
                old(self)@.selected
            } else {
                clamp_selection(old(self)@.selected, walk_items(walk).len() as int)
            },
    {
        self.detailed_commit = None;
        let mut items: Vec<CommitItem> = Vec::new();
        let stops_early = match &walk {
            LogWalk::RevwalkFailed(_) | LogWalk::PushHeadFailed(_) => true,
            _ => false,
        };
        match walk {
            LogWalk::RepositoryFailed(e) => {
                items.push(CommitItem::error(concat2("Error opening repository: ", e.as_str())));
            },
            LogWalk::RevwalkFailed(e) => {
                items.push(CommitItem::error(concat2("Error creating revwalk: ", e.as_str())));
            },
            LogWalk::PushHeadFailed(e) => {
                items.push(CommitItem::error(concat2("Error pushing HEAD: ", e.as_str())));
            },
            LogWalk::Walked(entries) => {
                let mut i: usize = 0;
                while i < entries.len()
                    invariant
                        i <= entries.len(),
                        item_views(items@) == entries@.take(i as int).map_values(
                            |e: WalkEntry| walk_item(e),
                        ),
                    decreases entries.len() - i,
                {
                    let ghost before = items@;
                    items.push(CommitItem::from_walk(&entries[i]));
                    assert(item_views(items@) =~= item_views(before).push(
                        walk_item(entries@[i as int]),
                    ));
                    assert(entries@.take(i + 1).map_values(|e: WalkEntry| walk_item(e))
                        =~= entries@.take(i as int).map_values(|e: WalkEntry| walk_item(e)).push(
                        walk_item(entries@[i as int]),
                    ));
                    i = i + 1;
                }
                assert(entries@.take(entries.len() as int) =~= entries@);
            },
        }
        assert(item_views(items@) =~= walk_items(walk));
        self.items = items;
        if !stops_early && self.selected >= self.items.len() && self.selected > 0 {
            self.selected = self.items.len() - 1;
        }
    }

    /// Shows the details that a lookup of `commit_id` found, or returns the
    /// error that it reports and leaves the view as it was.
    pub fn show_detail(&mut self, commit_id: &String, lookup: DetailLookup) -> (r: Result<(), String>)
        ensures
            match lookup {
                DetailLookup::Found { commit, parents } => r is Ok && final(self)@
                    == (LogViewModel {
                    detailed_commit: Some(commit_detail(commit, parents@)),
                    ..old(self)@
                }),
                _ => r matches Err(e) && e@ == lookup_error(lookup, commit_id@) && final(self)@
                    == old(self)@,
            },
    {
        match lookup {
            DetailLookup::RepositoryFailed => Err(String::from_str("Failed to open repository")),
            DetailLookup::ParseFailed(e) => Err(e),
            DetailLookup::FindFailed => Err(
                crate::text::concat3("Failed to find commit '", commit_id.as_str(), "'"),
            ),
            DetailLookup::Found { commit, parents } => {
                self.detailed_commit = Some(CommitDetail::from_record(&commit, parents));
                Ok(())
            },
        }
    }

    /// Whether `p` is what the view shows: the details of a commit where one
    /// is open, else the list with the selected row standing out.
    pub open spec fn shows(&self, p: Panel) -> bool {
        match self.detailed_commit {
            Some(d) => p.title@ == "Commit Details"@ && p.frame_tint == Some(Tint::Green)
                && !p.clear_first && (p.body matches Body::Text { text, tint, wrap } && text@
                == join(detail_lines(d@), "\n"@) && tint == Some(Tint::White) && wrap),
            None => p.title@ == "Commit Log"@ && p.frame_tint is None && !p.clear_first && (
            p.body matches Body::Rows { rows, highlighted } && views(rows@)
                == self@.items.map_values(|c: CommitItemModel| row_text(c)) && highlighted
                == Some(self.selected)),
        }
    }

    /// The panel that the view shows, as `shows` describes it.
    pub fn panel(&self) -> (p: Panel)
        ensures
            self.shows(p),
    {
        match &self.detailed_commit {
            Some(d) => Panel {
                title: String::from_str("Commit Details"),
                frame_tint: Some(Tint::Green),
                clear_first: false,
                body: Body::Text { text: d.text(), tint: Some(Tint::White), wrap: true },
            },
            None => {
                let mut rows: Vec<String> = Vec::new();
                let mut i: usize = 0;
                while i < self.items.len()
                    invariant
                        i <= self.items.len(),
                        views(rows@) == self@.items.take(i as int).map_values(
                            |c: CommitItemModel| row_text(c),
                        ),
                    decreases self.items.len() - i,
                {
                    let ghost before = rows@;
                    rows.push(self.items[i].row_text());
                    assert(views(rows@) =~= views(before).push(row_text(self@.items[i as int])));
                    assert(self@.items.take(i + 1).map_values(|c: CommitItemModel| row_text(c))
                        =~= self@.items.take(i as int).map_values(
                        |c: CommitItemModel| row_text(c),
                    ).push(row_text(self@.items[i as int])));
                    i = i + 1;
                }
                assert(self@.items.take(self.items.len() as int) =~= self@.items);
                Panel {
                    title: String::from_str("Commit Log"),
                    frame_tint: None,
                    clear_first: false,
                    body: Body::Rows { rows, highlighted: Some(self.selected) },
                }
            },
        }
    }
}

} // verus!
