//! The help view: a fixed page that lists the keys of each view.
use vstd::prelude::*;

use crate::keys::Key;
use crate::panel::{Body, Panel, Tint};
use crate::text::{join, join_strings, views};

verus! {

pub struct HelpView;

/// The lines of the help page.
pub open spec fn help_lines() -> Seq<Seq<char>> {
    seq![
        "Help Menu"@,
        ""@,
        "General:"@,
        "  - q: Quit application"@,
        "  - Tab: Switch between views"@,
        ""@,
        "Status View:"@,
        "  - a: Add files to staging"@,
        ""@,
        "Log View:"@,
        "  - r: Refresh commit logs"@,
        ""@,
        "Branch View:"@,
        "  - c: Create a new branch"@,
        "  - d: Delete the selected branch"@,
        "  - Up/Down: Navigate branches"@,
        ""@,
        "Commit View:"@,
        "  - c: Write a commit message"@,
        ""@,
    ]
}

impl HelpView {
    pub fn new() -> HelpView {
        HelpView
    }

    /// The help page, one line per item.
    pub fn lines(&self) -> (v: Vec<String>)
        ensures
            views(v@) == help_lines(),
    {
        let mut v: Vec<String> = Vec::new();
        v.push(String::from_str("Help Menu"));
        v.push(String::from_str(""));
        v.push(String::from_str("General:"));
        v.push(String::from_str("  - q: Quit application"));
        v.push(String::from_str("  - Tab: Switch between views"));
        v.push(String::from_str(""));
        v.push(String::from_str("Status View:"));
        v.push(String::from_str("  - a: Add files to staging"));
        v.push(String::from_str(""));
        v.push(String::from_str("Log View:"));
        v.push(String::from_str("  - r: Refresh commit logs"));
        v.push(String::from_str(""));
        v.push(String::from_str("Branch View:"));
        v.push(String::from_str("  - c: Create a new branch"));
        v.push(String::from_str("  - d: Delete the selected branch"));
        v.push(String::from_str("  - Up/Down: Navigate branches"));
        v.push(String::from_str(""));
        v.push(String::from_str("Commit View:"));
        v.push(String::from_str("  - c: Write a commit message"));
        v.push(String::from_str(""));
        assert(views(v@) =~= help_lines());
        v
    }

    /// Whether `p` is what the view shows: the help page in a cyan frame.
    pub open spec fn shows(&self, p: Panel) -> bool {
        &&& p.title@ == "Help"@ && p.frame_tint == Some(Tint::Cyan) && !p.clear_first
        &&& p.body matches Body::Text { text, tint, wrap } && text@ == join(help_lines(), "\n"@)
            && tint == Some(Tint::White) && wrap
    }

    /// The panel that the view shows, as `shows` describes it.
    pub fn panel(&self) -> (p: Panel)
        ensures
            self.shows(p),
    {
        let lines = self.lines();
        Panel {
            title: String::from_str("Help"),
            frame_tint: Some(Tint::Cyan),
            clear_first: false,
            body: Body::Text { text: join_strings(&lines, "\n"), tint: Some(Tint::White), wrap: true },
        }
    }

    /// The help page ignores every key.
    pub fn handle_input(&self, _key: Key) {
    }
}

} // verus!
