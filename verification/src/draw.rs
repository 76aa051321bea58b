//! What a menu looks like: a bordered box with one row of text per item.
//!
//! The types here are plain data. They describe a picture without drawing it,
//! so that any terminal backend can put it on a screen.

use vstd::prelude::*;

verus! {

/// The colors that the menu uses.
#[derive(Clone, Copy, Debug, PartialEq, Eq, Structural)]
pub enum Color {
    White,
    LightBlue,
}

/// The colors of a row. `None` leaves the terminal's own color in place.
#[derive(Clone, Copy, Debug, PartialEq, Eq, Structural)]
pub struct Style {
    pub fg: Option<Color>,
    pub bg: Option<Color>,
}

impl Style {
    /// The style that sets no color.
    pub open spec fn spec_plain() -> Style {
        Style { fg: None, bg: None }
    }

    /// The style that sets no color.
    #[verifier::when_used_as_spec(spec_plain)]
    pub fn plain() -> (style: Style)
        ensures
            style == Style::spec_plain(),
    {
        Style { fg: None, bg: None }
    }

    /// This style on the row under the cursor: the foreground is white
    /// whatever it was, and the background is light blue unless one was
    /// already set.
    pub open spec fn spec_highlight(self) -> Style {
        Style {
            fg: Some(Color::White),
            bg: match self.bg {
                Some(bg) => Some(bg),
                None => Some(Color::LightBlue),
            },
        }
    }

    /// Restyles for the row under the cursor: the foreground becomes white
    /// whatever it was, and the background becomes light blue unless one is
    /// already set.
    #[verifier::when_used_as_spec(spec_highlight)]
    pub fn highlight(self) -> (style: Style)
        ensures
            style == self.spec_highlight(),
    {
        let bg: Color = match self.bg {
            Some(bg) => bg,
            None => Color::LightBlue,
        };
        Style { fg: Some(Color::White), bg: Some(bg) }
    }
}

/// The marker that is written in front of the item under the cursor: `"> "`.
pub open spec fn marker() -> Seq<char> {
    seq!['>', ' ']
}

/// A rectangle of terminal cells: its top left corner and its size.
#[derive(Clone, Copy, Debug, PartialEq, Eq, Structural)]
pub struct Area {
    pub x: u16,
    pub y: u16,
    pub width: u16,
    pub height: u16,
}

/// One row of the menu: the text to show and its colors.
#[derive(Debug, PartialEq, Eq)]
pub struct Row {
    pub text: String,
    pub style: Style,
}

/// The mathematical value of a [`Row`].
pub struct RowModel {
    pub text: Seq<char>,
    pub style: Style,
}

impl View for Row {
    type V = RowModel;

    open spec fn view(&self) -> RowModel {
        RowModel { text: self.text@, style: self.style }
    }
}

/// The picture of a menu: a box at `area`, with a border around it if
/// `bordered` is set, and `rows` inside it from top to bottom. Where the box
/// is too low for all rows, the row at `cursor` is the one to keep in sight.
#[derive(Debug, PartialEq, Eq)]
pub struct Drawing {
    pub area: Area,
    pub bordered: bool,
    pub rows: Vec<Row>,
    pub cursor: Option<usize>,
}

/// The mathematical value of a [`Drawing`].
pub struct DrawingModel {
    pub area: Area,
    pub bordered: bool,
    pub rows: Seq<RowModel>,
    pub cursor: Option<int>,
}

impl View for Drawing {
    type V = DrawingModel;

    open spec fn view(&self) -> DrawingModel {
        DrawingModel {
            area: self.area,
            bordered: self.bordered,
            rows: self.rows@.map_values(|row: Row| row@),
            cursor: match self.cursor {
                Some(i) => Some(i as int),
                None => None,
            },
        }
    }
}

} // verus!
