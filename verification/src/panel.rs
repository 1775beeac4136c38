//! What a view shows: a titled panel that holds either a list of rows or a
//! block of text. The terminal front end draws it.
use vstd::prelude::*;

verus! {

/// The colours that the views use.
#[derive(Clone, Copy, Debug, PartialEq, Eq, Structural)]
pub enum Tint {
    Yellow,
    Green,
    Red,
    White,
    Cyan,
    Magenta,
}

/// The content of a panel.
pub enum Body {
    /// A list; the row at `highlighted`, if there is one, stands out.
    Rows { rows: Vec<String>, highlighted: Option<usize> },
    /// A paragraph in the given colour, wrapped at the panel's width or not.
    Text { text: String, tint: Option<Tint>, wrap: bool },
}

/// A bordered panel with a title. `frame_tint` colours the whole panel;
/// `clear_first` asks that the area be blanked before it is drawn.
pub struct Panel {
    pub title: String,
    pub frame_tint: Option<Tint>,
    pub clear_first: bool,
    pub body: Body,
}

} // verus!
