//! The commit view: a prompt for the message of a new commit.
use vstd::prelude::*;

use crate::keys::Key;
use crate::panel::{Body, Panel, Tint};
use crate::text::{concat2, concat3, trim, trim_str, views};

verus! {

/// What the keys of the commit view currently do.
#[derive(Clone, Copy, Debug, PartialEq, Eq, Structural)]
pub enum InputMode {
    Normal,
    WritingCommit,
}

#[derive(Debug)]
pub struct CommitView {
    pub input_mode: InputMode,
    pub commit_message: String,
}

/// The state of a commit view, with the message taken as characters.
pub struct CommitViewModel {
    pub input_mode: InputMode,
    pub commit_message: Seq<char>,
}

impl View for CommitView {
    type V = CommitViewModel;

    open spec fn view(&self) -> CommitViewModel {
        CommitViewModel { input_mode: self.input_mode, commit_message: self.commit_message@ }
    }
}

/// The Git operation that a key asks for: none, or a commit of the staged
/// changes with the given message.
pub enum CommitAction {
    Nothing,
    Commit(String),
}

impl View for CommitAction {
    type V = Option<Seq<char>>;

    open spec fn view(&self) -> Option<Seq<char>> {
        match self {
            CommitAction::Nothing => None,
            CommitAction::Commit(m) => Some(m@),
        }
    }
}

impl CommitViewModel {
    /// The new state, the messages to append, and the message to commit
    /// with, if any, after `key`.
    pub open spec fn on_key(self, key: Key) -> (CommitViewModel, Seq<Seq<char>>, Option<Seq<char>>) {
        let cleared = CommitViewModel { input_mode: InputMode::Normal, commit_message: Seq::empty() };
        match self.input_mode {
            InputMode::Normal => if key == Key::Char('c') {
                (
                    CommitViewModel {
                        input_mode: InputMode::WritingCommit,
                        commit_message: Seq::empty(),
                    },
                    seq!["Enter your commit message below."@],
                    None,
                )
            } else {
                (self, seq![], None)
            },
            InputMode::WritingCommit => match key {
                Key::Enter => {
                    let message = trim(self.commit_message);
                    if message.len() == 0 {
                        (self, seq!["Commit message cannot be empty."@], None)
                    } else {
                        (cleared, seq![], Some(message))
                    }
                },
                Key::Esc => (cleared, seq!["Commit cancelled."@], None),
                Key::Char(c) => (
                    CommitViewModel { commit_message: self.commit_message.push(c), ..self },
                    seq![],
                    None,
                ),
                Key::Backspace => (
                    CommitViewModel {
                        commit_message: if self.commit_message.len() > 0 {
                            self.commit_message.drop_last()
                        } else {
                            self.commit_message
                        },
                        ..self
                    },
                    seq![],
                    None,
                ),
                _ => (self, seq![], None),
            },
        }
    }
}

/// The message that reports a commit made with `message`.
pub open spec fn commit_report(message: Seq<char>, outcome: Result<(), Seq<char>>) -> Seq<char> {
    match outcome {
        Ok(_) => "Committed with message: '"@ + message + "'"@,
        Err(e) => "Failed to commit: "@ + e,
    }
}

impl CommitView {
    pub fn new() -> (v: CommitView)
        ensures
            v@ == (CommitViewModel { input_mode: InputMode::Normal, commit_message: Seq::empty() }),
    {
        CommitView { input_mode: InputMode::Normal, commit_message: String::new() }
    }

    /// Reacts to a key: changes the view, appends messages, and returns the
    /// commit to make, if any. The caller makes it and reports it with `report`.
    pub fn handle_input(&mut self, key: Key, messages: &mut Vec<String>) -> (action: CommitAction)
        ensures
            final(self)@ == old(self)@.on_key(key).0,
            views(final(messages)@) == views(old(messages)@) + old(self)@.on_key(key).1,
            action@ == old(self)@.on_key(key).2,
    {
        let ghost m0 = views(messages@);
        match self.input_mode {
            InputMode::Normal => {
                if key == Key::Char('c') {
                    self.input_mode = InputMode::WritingCommit;
                    self.commit_message.clear();
                    messages.push(String::from_str("Enter your commit message below."));
                    assert(views(messages@) =~= m0.push("Enter your commit message below."@));
                } else {
                    assert(views(messages@) =~= m0);
                }
                CommitAction::Nothing
            },
            InputMode::WritingCommit => match key {
                Key::Enter => {
                    let message = String::from_str(trim_str(self.commit_message.as_str()));
                    if message.as_str().is_empty() {
                        messages.push(String::from_str("Commit message cannot be empty."));
                        assert(views(messages@) =~= m0.push("Commit message cannot be empty."@));
                        CommitAction::Nothing
                    } else {
                        self.input_mode = InputMode::Normal;
                        self.commit_message.clear();
                        assert(views(messages@) =~= m0);
                        CommitAction::Commit(message)
                    }
                },
                Key::Esc => {
                    self.input_mode = InputMode::Normal;
                    self.commit_message.clear();
                    messages.push(String::from_str("Commit cancelled."));
                    assert(views(messages@) =~= m0.push("Commit cancelled."@));
                    CommitAction::Nothing
                },
                Key::Char(c) => {
                    self.commit_message.push(c);
                    assert(views(messages@) =~= m0);
                    CommitAction::Nothing
                },
                Key::Backspace => {
                    self.commit_message.pop();
                    assert(views(messages@) =~= m0);
                    CommitAction::Nothing
                },
                _ => {
                    assert(views(messages@) =~= m0);
                    CommitAction::Nothing
                },
            },
        }
    }

    /// Appends the message that tells how the commit with `message` went.
    pub fn report(message: &String, outcome: &Result<(), String>, messages: &mut Vec<String>)
        ensures
            views(final(messages)@) == views(old(messages)@).push(
                commit_report(
                    message@,
                    match outcome {
                        Ok(u) => Ok(*u),
                        Err(e) => Err(e@),
                    },
                ),
            ),
    {
        let ghost m0 = views(messages@);
        let text = match outcome {
            Ok(_) => concat3("Committed with message: '", message.as_str(), "'"),
            Err(e) => concat2("Failed to commit: ", e.as_str()),
        };
        messages.push(text);
        assert(views(messages@) =~= m0.push(text@));
    }

    /// Whether `p` is what the view shows: a hint, or the message being typed.
    pub open spec fn shows(&self, p: Panel) -> bool {
        match self.input_mode {
            InputMode::Normal => p.title@ == "Commit"@ && !p.clear_first && p.frame_tint is None
                && (p.body matches Body::Text { text, tint, wrap } && text@
                == "Press 'c' to write a commit message."@ && tint == Some(Tint::Yellow) && !wrap),
            InputMode::WritingCommit => p.title@ == "Enter Commit Message"@ && p.clear_first
                && p.frame_tint == Some(Tint::Green) && (p.body matches Body::Text {
                text,
                tint,
                wrap,
            } && text@ == self.commit_message@ && tint == Some(Tint::White) && !wrap),
        }
    }

    /// The panel that the view shows, as `shows` describes it.
    pub fn panel(&self) -> (p: Panel)
        ensures
            self.shows(p),
    {
        match self.input_mode {
            InputMode::Normal => Panel {
                title: String::from_str("Commit"),
                frame_tint: None,
                clear_first: false,
                body: Body::Text {
                    text: String::from_str("Press 'c' to write a commit message."),
                    tint: Some(Tint::Yellow),
                    wrap: false,
                },
            },
            InputMode::WritingCommit => Panel {
                title: String::from_str("Enter Commit Message"),
                frame_tint: Some(Tint::Green),
                clear_first: true,
                body: Body::Text {
                    text: self.commit_message.clone(),
                    tint: Some(Tint::White),
                    wrap: false,
                },
            },
        }
    }
}

} // verus!
