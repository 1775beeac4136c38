//! The branch view: the list of local branches, and the prompts that create
//! and delete one.
use vstd::prelude::*;

use crate::keys::{Key, move_down, move_up, select_down, select_up};
use crate::panel::{Body, Panel, Tint};
use crate::text::{
    concat2, concat3, strip_prefixes, strip_prefixes_str, trim, trim_str, views,
};

verus! {

/// What the keys of the branch view currently do.
#[derive(Clone, Copy, Debug, PartialEq, Eq, Structural)]
pub enum InputMode {
    Normal,
    CreatingBranch,
    DeletingBranch,
}

pub struct BranchView {
    pub items: Vec<String>,
    pub input_mode: InputMode,
    pub input: String,
    /// Index of the selected branch.
    pub selected: usize,
}

/// The state of a branch view, with its text taken as characters.
pub struct BranchViewModel {
    pub items: Seq<Seq<char>>,
    pub input_mode: InputMode,
    pub input: Seq<char>,
    pub selected: int,
}

/// The Git operation that a key asks for.
pub enum BranchAction {
    Nothing,
    /// Check out the named branch.
    Switch(String),
    /// Create a branch of this name at HEAD.
    Create(String),
    /// Delete the named local branch.
    Delete(String),
}

/// A `BranchAction` with its name taken as characters.
pub enum BranchActionModel {
    Nothing,
    Switch(Seq<char>),
    Create(Seq<char>),
    Delete(Seq<char>),
}

impl View for BranchAction {
    type V = BranchActionModel;

    open spec fn view(&self) -> BranchActionModel {
        match self {
            BranchAction::Nothing => BranchActionModel::Nothing,
            BranchAction::Switch(n) => BranchActionModel::Switch(n@),
            BranchAction::Create(n) => BranchActionModel::Create(n@),
            BranchAction::Delete(n) => BranchActionModel::Delete(n@),
        }
    }
}

impl View for BranchView {
    type V = BranchViewModel;

    open spec fn view(&self) -> BranchViewModel {
        BranchViewModel {
            items: views(self.items@),
            input_mode: self.input_mode,
            input: self.input@,
            selected: self.selected as int,
        }
    }
}

/// One branch as the repository lists it: its name (`None` where it has no
/// name that reads as text) and whether HEAD points at it, or the error met
/// while listing it.
pub enum BranchEntry {
    Listed { name: Option<String>, is_head: bool },
    Failed(String),
}

/// What reading the local branches gave: the error that stopped it at opening
/// the repository or at listing its branches, or the branches found.
pub enum BranchListing {
    RepositoryFailed(String),
    ListingFailed(String),
    Listed(Vec<BranchEntry>),
}

/// The row that shows one listed branch.
pub open spec fn branch_row(e: BranchEntry) -> Seq<char> {
    match e {
        BranchEntry::Listed { name, is_head } => {
            let n = match name {
                Some(n) => n@,
                None => "Unnamed"@,
            };
            if is_head {
                "* "@ + n
            } else {
                "  "@ + n
            }
        },
        BranchEntry::Failed(err) => "Error iterating branches: "@ + err@,
    }
}

/// The rows that a branch listing shows.
pub open spec fn branch_rows(listing: BranchListing) -> Seq<Seq<char>> {
    match listing {
        BranchListing::RepositoryFailed(err) => seq!["Error opening repository: "@ + err@],
        BranchListing::ListingFailed(err) => seq!["Error retrieving branches: "@ + err@],
        BranchListing::Listed(entries) => entries@.map_values(|e: BranchEntry| branch_row(e)),
    }
}

/// The name that a row of the list stands for: the row without its leading
/// `"* "` marks and surrounding white space.
pub open spec fn row_branch_name(row: Seq<char>) -> Seq<char> {
    trim(strip_prefixes(row, "* "@))
}

/// The message that reports how a requested operation went.
pub open spec fn outcome_message(action: BranchActionModel, outcome: Result<(), Seq<char>>) -> Seq<
    Seq<char>,
> {
    match action {
        BranchActionModel::Nothing => seq![],
        BranchActionModel::Switch(n) => match outcome {
            Ok(_) => seq!["Switched to branch '"@ + n + "'."@],
            Err(e) => seq!["Failed to switch branch: "@ + e],
        },
        BranchActionModel::Create(n) => match outcome {
            Ok(_) => seq!["Branch '"@ + n + "' created."@],
            Err(e) => seq!["Failed to create branch: "@ + e],
        },
        BranchActionModel::Delete(n) => match outcome {
            Ok(_) => seq!["Branch '"@ + n + "' deleted."@],
            Err(e) => seq!["Failed to delete branch: "@ + e],
        },
    }
}

/// An `Err` text taken as characters.
pub open spec fn outcome_view(outcome: Result<(), String>) -> Result<(), Seq<char>> {
    match outcome {
        Ok(u) => Ok(u),
        Err(e) => Err(e@),
    }
}

impl BranchViewModel {
    /// The state with a new input mode and an empty input line.
    pub open spec fn enter_mode(self, mode: InputMode) -> BranchViewModel {
        BranchViewModel { input_mode: mode, input: Seq::empty(), ..self }
    }

    /// A key typed at the name prompt; `creating` tells which prompt it is.
    pub open spec fn on_prompt_key(self, key: Key, creating: bool) -> (
        BranchViewModel,
        Seq<Seq<char>>,
        BranchActionModel,
    ) {
        match key {
            Key::Enter => {
                let name = trim(self.input);
                if name.len() == 0 {
                    (
                        self.enter_mode(InputMode::Normal),
                        seq!["Branch name cannot be empty."@],
                        BranchActionModel::Nothing,
                    )
                } else if creating {
                    (self.enter_mode(InputMode::Normal), seq![], BranchActionModel::Create(name))
                } else {
                    (self.enter_mode(InputMode::Normal), seq![], BranchActionModel::Delete(name))
                }
            },
            Key::Esc => (
                self.enter_mode(InputMode::Normal),
                if creating {
                    seq!["Branch creation cancelled."@]
                } else {
                    seq!["Branch deletion cancelled."@]
                },
                BranchActionModel::Nothing,
            ),
            Key::Char(c) => (
                BranchViewModel { input: self.input.push(c), ..self },
                seq![],
                BranchActionModel::Nothing,
            ),
            Key::Backspace => (
                BranchViewModel {
                    input: if self.input.len() > 0 {
                        self.input.drop_last()
                    } else {
                        self.input
                    },
                    ..self
                },
                seq![],
                BranchActionModel::Nothing,
            ),
            _ => (self, seq![], BranchActionModel::Nothing),
        }
    }

    /// A key pressed while the list is shown.
    pub open spec fn on_list_key(self, key: Key) -> (
        BranchViewModel,
        Seq<Seq<char>>,
        BranchActionModel,
    ) {
        if key == Key::Char('c') {
            (
                self.enter_mode(InputMode::CreatingBranch),
                seq!["Enter new branch name:"@],
                BranchActionModel::Nothing,
            )
        } else if key == Key::Char('d') {
            if self.items.len() > 0 {
                (
                    self.enter_mode(InputMode::DeletingBranch),
                    seq!["Enter branch name to delete:"@],
                    BranchActionModel::Nothing,
                )
            } else {
                (self, seq!["No branches available to delete."@], BranchActionModel::Nothing)
            }
        } else if key == Key::Down {
            (
                BranchViewModel {
                    selected: select_down(self.selected, self.items.len() as int),
                    ..self
                },
                seq![],
                BranchActionModel::Nothing,
            )
        } else if key == Key::Up {
            (
                BranchViewModel { selected: select_up(self.selected), ..self },
                seq![],
                BranchActionModel::Nothing,
            )
        } else if key == Key::Enter && self.items.len() > 0 {
            (
                self,
                seq![],
                BranchActionModel::Switch(row_branch_name(self.items[self.selected])),
            )
        } else {
            (self, seq![], BranchActionModel::Nothing)
        }
    }

    /// The new state, the messages to append, and the operation to run, after `key`.
    pub open spec fn on_key(self, key: Key) -> (
        BranchViewModel,
        Seq<Seq<char>>,
        BranchActionModel,
    ) {
        match self.input_mode {
            InputMode::Normal => self.on_list_key(key),
            InputMode::CreatingBranch => self.on_prompt_key(key, true),
            InputMode::DeletingBranch => self.on_prompt_key(key, false),
        }
    }

    /// Whether `key` can be handled without indexing past the list: `Enter`
    /// on the list reads the selected row.
    pub open spec fn key_in_range(self, key: Key) -> bool {
        self.input_mode == InputMode::Normal && key == Key::Enter && self.items.len() > 0
            ==> 0 <= self.selected < self.items.len()
    }
}

impl BranchView {
    /// Whether `p` is what the view shows: the prompt while a name is typed,
    /// else the list with the selected row standing out.
    pub open spec fn shows(&self, p: Panel) -> bool {
        &&& p.frame_tint is None
        &&& p.clear_first == (self.input_mode != InputMode::Normal)
        &&& match self.input_mode {
            InputMode::Normal => p.title@ == "Branches"@ && (p.body matches Body::Rows {
                rows,
                highlighted,
            } && views(rows@) == self@.items && highlighted == Some(self.selected)),
            InputMode::CreatingBranch => p.title@ == "Create New Branch"@ && (p.body matches Body::Text {
                text,
                tint,
                wrap,
            } && text@ == self.input@ && tint == Some(Tint::Green) && !wrap),
            InputMode::DeletingBranch => p.title@ == "Delete Branch"@ && (p.body matches Body::Text {
                text,
                tint,
                wrap,
            } && text@ == self.input@ && tint == Some(Tint::Red) && !wrap),
        }
    }

    pub fn new() -> (v: BranchView)
        ensures
            v@.items == Seq::<Seq<char>>::empty(),
            v@.input_mode == InputMode::Normal,
            v@.input == Seq::<char>::empty(),
            v@.selected == 0,
    {
        BranchView { items: vec![], input_mode: InputMode::Normal, input: String::new(), selected: 0 }
    }

    fn prompt_key(&mut self, key: Key, creating: bool, messages: &mut Vec<String>) -> (action:
        BranchAction)
        requires
            old(self).input_mode != InputMode::Normal,
        ensures
            final(self)@ == old(self)@.on_prompt_key(key, creating).0,
            views(final(messages)@) == views(old(messages)@) + old(self)@.on_prompt_key(
                key,
                creating,
            ).1,
            action@ == old(self)@.on_prompt_key(key, creating).2,
    {
        let ghost m0 = views(messages@);
        match key {
            Key::Enter => {
                let name = String::from_str(trim_str(self.input.as_str()));
                self.input_mode = InputMode::Normal;
                self.input.clear();
                if name.as_str().is_empty() {
                    messages.push(String::from_str("Branch name cannot be empty."));
                    assert(views(messages@) =~= m0.push("Branch name cannot be empty."@));
                    BranchAction::Nothing
                } else if creating {
                    assert(views(messages@) =~= m0);
                    BranchAction::Create(name)
                } else {
                    assert(views(messages@) =~= m0);
                    BranchAction::Delete(name)
                }
            },
            Key::Esc => {
                self.input_mode = InputMode::Normal;
                self.input.clear();
                if creating {
                    messages.push(String::from_str("Branch creation cancelled."));
                    assert(views(messages@) =~= m0.push("Branch creation cancelled."@));
                } else {
                    messages.push(String::from_str("Branch deletion cancelled."));
                    assert(views(messages@) =~= m0.push("Branch deletion cancelled."@));
                }
                BranchAction::Nothing
            },
            Key::Char(c) => {
                self.input.push(c);
                assert(views(messages@) =~= m0);
                BranchAction::Nothing
            },
            Key::Backspace => {
                self.input.pop();
                assert(views(messages@) =~= m0);
                BranchAction::Nothing
            },
            _ => {
                assert(views(messages@) =~= m0);
                BranchAction::Nothing
            },
        }
    }

    fn list_key(&mut self, key: Key, messages: &mut Vec<String>) -> (action: BranchAction)
        requires
            old(self).input_mode == InputMode::Normal,
            old(self)@.key_in_range(key),
        ensures
            final(self)@ == old(self)@.on_list_key(key).0,
            views(final(messages)@) == views(old(messages)@) + old(self)@.on_list_key(key).1,
            action@ == old(self)@.on_list_key(key).2,
    {
        let ghost m0 = views(messages@);
        match key {
            Key::Char('c') => {
                self.input_mode = InputMode::CreatingBranch;
                self.input.clear();
                messages.push(String::from_str("Enter new branch name:"));
                assert(views(messages@) =~= m0.push("Enter new branch name:"@));
                BranchAction::Nothing
            },
            Key::Char('d') => {
                if self.items.len() > 0 {
                    self.input_mode = InputMode::DeletingBranch;
                    self.input.clear();
                    messages.push(String::from_str("Enter branch name to delete:"));
                    assert(views(messages@) =~= m0.push("Enter branch name to delete:"@));
                } else {
                    messages.push(String::from_str("No branches available to delete."));
                    assert(views(messages@) =~= m0.push("No branches available to delete."@));
                }
                BranchAction::Nothing
            },
            Key::Down => {
                self.selected = move_down(self.selected, self.items.len());
                assert(views(messages@) =~= m0);
                BranchAction::Nothing
            },
            Key::Up => {
                self.selected = move_up(self.selected);
                assert(views(messages@) =~= m0);
                BranchAction::Nothing
            },
            Key::Enter => {
                assert(views(messages@) =~= m0);
                if self.items.len() > 0 {
                    let row = self.items[self.selected].as_str();
                    let name = String::from_str(trim_str(strip_prefixes_str(row, "* ")));
                    BranchAction::Switch(name)
                } else {
                    BranchAction::Nothing
                }
            },
            _ => {
                assert(views(messages@) =~= m0);
                BranchAction::Nothing
            },
        }
    }

    /// Reacts to a key: changes the view, appends messages, and names the Git
    /// operation to run, if any. The caller runs it and reports it with
    /// `report`, then reads the branches again for `update`.
    pub fn handle_input(&mut self, key: Key, messages: &mut Vec<String>) -> (action: BranchAction)
        requires
            old(self)@.key_in_range(key),
        ensures
            final(self)@ == old(self)@.on_key(key).0,
            views(final(messages)@) == views(old(messages)@) + old(self)@.on_key(key).1,
            action@ == old(self)@.on_key(key).2,
    {
        match self.input_mode {
            InputMode::Normal => self.list_key(key, messages),
            InputMode::CreatingBranch => self.prompt_key(key, true, messages),
            InputMode::DeletingBranch => self.prompt_key(key, false, messages),
        }
    }

    /// Appends the message that tells how the operation asked for went.
    pub fn report(&self, action: &BranchAction, outcome: &Result<(), String>, messages: &mut Vec<
        String,
    >)
        ensures
            views(final(messages)@) == views(old(messages)@) + outcome_message(
                action@,
                outcome_view(*outcome),
            ),
    {
        let ghost m0 = views(messages@);
        let text = match action {
            BranchAction::Nothing => {
                assert(views(messages@) =~= m0 + seq![]);
                return ;
            },
            BranchAction::Switch(n) => match outcome {
                Ok(_) => concat3("Switched to branch '", n.as_str(), "'."),
                Err(e) => concat2("Failed to switch branch: ", e.as_str()),
            },
            BranchAction::Create(n) => match outcome {
                Ok(_) => concat3("Branch '", n.as_str(), "' created."),
                Err(e) => concat2("Failed to create branch: ", e.as_str()),
            },
            BranchAction::Delete(n) => match outcome {
                Ok(_) => concat3("Branch '", n.as_str(), "' deleted."),
                Err(e) => concat2("Failed to delete branch: ", e.as_str()),
            },
        };
        messages.push(text);
        assert(views(messages@) =~= m0 + outcome_message(action@, outcome_view(*outcome)));
    }

    /// Replaces the list with the rows of a fresh branch listing.
    pub fn update(&mut self, listing: BranchListing)
        ensures
            final(self)@ == (BranchViewModel { items: branch_rows(listing), ..old(self)@ }),
    {
        let mut rows: Vec<String> = Vec::new();
        match listing {
            BranchListing::RepositoryFailed(err) => {
                rows.push(concat2("Error opening repository: ", err.as_str()));
                assert(views(rows@) =~= branch_rows(listing));
            },
            BranchListing::ListingFailed(err) => {
                rows.push(concat2("Error retrieving branches: ", err.as_str()));
                assert(views(rows@) =~= branch_rows(listing));
            },
            BranchListing::Listed(entries) => {
                let mut i: usize = 0;
                while i < entries.len()
                    invariant
                        i <= entries.len(),
                        views(rows@) == entries@.take(i as int).map_values(
                            |e: BranchEntry| branch_row(e),
                        ),
                    decreases entries.len() - i,
                {
                    let row = match &entries[i] {
                        BranchEntry::Listed { name, is_head } => {
                            let n = match name {
                                Some(n) => n.as_str(),
                                None => "Unnamed",
                            };
                            if *is_head {
                                concat2("* ", n)
                            } else {
                                concat2("  ", n)
                            }
                        },
                        BranchEntry::Failed(err) => concat2(
                            "Error iterating branches: ",
                            err.as_str(),
                        ),
                    };
                    let ghost before = rows@;
                    rows.push(row);
                    assert(views(rows@) =~= views(before).push(branch_row(entries@[i as int])));
                    assert(entries@.take(i + 1).map_values(|e: BranchEntry| branch_row(e))
                        =~= entries@.take(i as int).map_values(|e: BranchEntry| branch_row(e)).push(
                        branch_row(entries@[i as int]),
                    ));
                    i = i + 1;
                }
                assert(entries@.take(entries.len() as int) =~= entries@);
                assert(views(rows@) =~= branch_rows(listing));
            },
        }
        self.items = rows;
    }

    /// What the view shows: the prompt while a name is typed, else the list
    /// with the selected row standing out.
    pub fn panel(&self) -> (p: Panel)
        ensures
            self.shows(p),
    {
        match self.input_mode {
            InputMode::Normal => Panel {
                title: String::from_str("Branches"),
                frame_tint: None,
                clear_first: false,
                body: Body::Rows { rows: self.items.clone(), highlighted: Some(self.selected) },
            },
            InputMode::CreatingBranch => Panel {
                title: String::from_str("Create New Branch"),
                frame_tint: None,
                clear_first: true,
                body: Body::Text { text: self.input.clone(), tint: Some(Tint::Green), wrap: false },
            },
            InputMode::DeletingBranch => Panel {
                title: String::from_str("Delete Branch"),
                frame_tint: None,
                clear_first: true,
                body: Body::Text { text: self.input.clone(), tint: Some(Tint::Red), wrap: false },
            },
        }
    }
}

} // verus!
