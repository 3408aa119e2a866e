//! What is drawn, as a list of commands for the terminal.
//!
//! The widgets do not write to the terminal. They say what is to be written,
//! command by command, and the caller carries the commands out.

use vstd::prelude::*;

verus! {

/// The colors that the widgets use.
#[derive(Clone, Copy, Debug, PartialEq, Eq, Structural)]
pub enum Color {
    /// The terminal's own color.
    Reset,
    Black,
    White,
    Yellow,
    Cyan,
    Green,
    Magenta,
    Grey,
    Red,
}

/// How a piece of text is to look.
#[derive(Clone, Copy, Debug, PartialEq, Eq, Structural)]
pub struct TextStyle {
    /// Whether all attributes are reset first.
    pub reset: bool,
    pub bold: bool,
    pub foreground: Option<Color>,
    pub background: Option<Color>,
}

impl TextStyle {
    /// No attribute and no color.
    pub open spec fn plain_style() -> TextStyle {
        TextStyle { reset: false, bold: false, foreground: None, background: None }
    }

    /// Black on white, as what is under a cursor is written.
    pub open spec fn highlighted_style() -> TextStyle {
        TextStyle {
            reset: false,
            bold: false,
            foreground: Some(Color::Black),
            background: Some(Color::White),
        }
    }

    /// The style of an item of a list: black on white under the cursor,
    /// plain elsewhere.
    pub open spec fn item_style(selected: bool) -> TextStyle {
        if selected {
            TextStyle::highlighted_style()
        } else {
            TextStyle::plain_style()
        }
    }

    /// The style of an item of a list: black on white under the cursor,
    /// plain elsewhere.
    pub fn item(selected: bool) -> (style: TextStyle)
        ensures
            style == TextStyle::item_style(selected),
    {
        if selected {
            TextStyle::plain().on(Color::White).with(Color::Black)
        } else {
            TextStyle::plain()
        }
    }

    /// No attribute and no color.
    pub fn plain() -> (style: TextStyle)
        ensures
            style == TextStyle::plain_style(),
    {
        TextStyle { reset: false, bold: false, foreground: None, background: None }
    }

    /// The style in bold.
    pub fn bold(self) -> (style: TextStyle)
        ensures
            style == (TextStyle { bold: true, ..self }),
    {
        TextStyle { bold: true, ..self }
    }

    /// The style with all attributes reset first.
    pub fn reset(self) -> (style: TextStyle)
        ensures
            style == (TextStyle { reset: true, ..self }),
    {
        TextStyle { reset: true, ..self }
    }

    /// The style with the text in `color`.
    pub fn with(self, color: Color) -> (style: TextStyle)
        ensures
            style == (TextStyle { foreground: Some(color), ..self }),
    {
        TextStyle { foreground: Some(color), ..self }
    }

    /// The style with the text on `color`.
    pub fn on(self, color: Color) -> (style: TextStyle)
        ensures
            style == (TextStyle { background: Some(color), ..self }),
    {
        TextStyle { background: Some(color), ..self }
    }
}

/// One command for the terminal.
#[derive(Debug, PartialEq, Eq)]
pub enum DrawOp {
    /// Put the cursor at a column and a row.
    MoveTo(u16, u16),
    /// Put the cursor at a column of its row.
    MoveToColumn(u16),
    /// Put the cursor at the start of a row this many rows down.
    MoveToNextLine(u16),
    /// Move the cursor this many columns to the right.
    MoveRight(u16),
    /// Write what follows in this color.
    SetForeground(Color),
    /// Write what follows on this color.
    SetBackground(Color),
    /// Write the text as it is.
    Write(String),
    /// Write the text in a style of its own.
    Print(String, TextStyle),
}

/// What a command holds.
pub enum DrawOpView {
    MoveTo(u16, u16),
    MoveToColumn(u16),
    MoveToNextLine(u16),
    MoveRight(u16),
    SetForeground(Color),
    SetBackground(Color),
    Write(Seq<char>),
    Print(Seq<char>, TextStyle),
}

impl View for DrawOp {
    type V = DrawOpView;

    open spec fn view(&self) -> DrawOpView {
        match self {
            DrawOp::MoveTo(x, y) => DrawOpView::MoveTo(*x, *y),
            DrawOp::MoveToColumn(x) => DrawOpView::MoveToColumn(*x),
            DrawOp::MoveToNextLine(n) => DrawOpView::MoveToNextLine(*n),
            DrawOp::MoveRight(n) => DrawOpView::MoveRight(*n),
            DrawOp::SetForeground(color) => DrawOpView::SetForeground(*color),
            DrawOp::SetBackground(color) => DrawOpView::SetBackground(*color),
            DrawOp::Write(text) => DrawOpView::Write(text@),
            DrawOp::Print(text, style) => DrawOpView::Print(text@, *style),
        }
    }
}

/// What each command of a list holds, in the order of the list.
pub open spec fn op_views(ops: Seq<DrawOp>) -> Seq<DrawOpView> {
    ops.map_values(|op: DrawOp| op@)
}

/// Appends one command to a list.
pub fn emit(out: &mut Vec<DrawOp>, op: DrawOp)
    ensures
        op_views(final(out)@) == op_views(old(out)@).push(op@),
{
    out.push(op);
    assert(op_views(out@) =~= op_views(old(out)@).push(op@));
}

} // verus!
