//! The popup that takes one line of text.

use vstd::prelude::*;
use crate::draw::{emit, op_views, DrawOp, DrawOpView, TextStyle};
use crate::keys::{KeyCode, KeyEvent};
use crate::text::{tail, tail_of};
use crate::utils::{border, border_ops, lemma_ascii_byte_len, Rect};
use crate::widgets::{PopupWidget, Widget};

verus! {

/// The text typed so far, and whether the popup has been opened.
#[derive(Debug, PartialEq, Eq)]
pub struct LineInput {
    input: String,
    visible: bool,
}

/// What a line input holds.
#[verifier::ext_equal]
pub struct LineInputView {
    pub input: Seq<char>,
    pub visible: bool,
}

/// The width of the line input. Two columns of it are border.
pub const LINE_INPUT_WIDTH: u16 = 120;

/// The height of the line input.
pub const LINE_INPUT_HEIGHT: u16 = 3;

/// The area of the line input in the room it may have: a quarter of the way
/// in from the left and from the top.
pub open spec fn line_input_area(available: Rect) -> Rect {
    Rect {
        x: available.width / 4,
        y: available.height / 4,
        width: LINE_INPUT_WIDTH,
        height: LINE_INPUT_HEIGHT,
    }
}

impl LineInputView {
    /// The commands that draw the line input: a border with a title, and
    /// inside it the end of the text, as much as fits.
    pub open spec fn render_ops(self, available: Rect) -> Seq<DrawOpView> {
        let area = line_input_area(available);
        border_ops(area, "Insert value here"@, true) + seq![
            DrawOpView::MoveTo((area.x + 1) as u16, (area.y + 1) as u16),
            DrawOpView::Print(
                tail_of(self.input, (LINE_INPUT_WIDTH - 2) as nat),
                TextStyle { reset: true, bold: false, foreground: None, background: None },
            ),
        ]
    }

    /// A line input that holds no text and is not open.
    pub open spec fn closed() -> LineInputView {
        LineInputView { input: Seq::empty(), visible: false }
    }

    /// The line input, open.
    pub open spec fn opened(self) -> LineInputView {
        LineInputView { visible: true, ..self }
    }

    /// The open line input after one key: a character is appended,
    /// backspace takes the last character off, and escape closes it.
    pub open spec fn after_key(self, key: KeyEvent) -> LineInputView {
        match key.code {
            KeyCode::Char(c) => LineInputView { input: self.input.push(c), ..self },
            KeyCode::Backspace => if self.input.len() > 0 {
                LineInputView { input: self.input.drop_last(), ..self }
            } else {
                self
            },
            KeyCode::Esc => LineInputView::closed(),
            _ => self,
        }
    }

    /// The line input after one key: a first key only opens it, and once it
    /// is open it acts on the key.
    pub open spec fn after_input(self, key: KeyEvent) -> LineInputView {
        if !self.visible {
            self.opened()
        } else {
            self.after_key(key)
        }
    }
}

impl View for LineInput {
    type V = LineInputView;

    closed spec fn view(&self) -> LineInputView {
        LineInputView { input: self.input@, visible: self.visible }
    }
}

impl LineInput {
    /// A closed line input.
    pub fn new() -> (r: LineInput)
        ensures
            r@ == LineInputView::closed(),
    {
        LineInput { input: String::new(), visible: false }
    }

    /// A copy of the text typed so far.
    pub fn value(&self) -> (text: String)
        ensures
            text@ == self@.input,
    {
        self.input.clone()
    }

    /// Replaces the text.
    pub fn set_value(&mut self, input: String)
        ensures
            final(self)@ == (LineInputView { input: input@, ..old(self)@ }),
    {
        self.input = input;
    }

    /// Whether a first key has opened the popup.
    pub fn is_visible(&self) -> (v: bool)
        ensures
            v == self@.visible,
    {
        self.visible
    }

    /// Whether the line input holds no text and is not open.
    pub fn is_closed(&self) -> (closed: bool)
        ensures
            closed == (self@ == LineInputView::closed()),
    {
        let closed = !self.visible && self.input.as_str().is_empty();
        proof {
            if closed {
                assert(self@ =~= LineInputView::closed());
            }
        }
        closed
    }
}

impl PopupWidget for LineInput {
    open spec fn shown(&self) -> bool {
        self@.visible
    }

    open spec fn opened_from(&self, before: &Self) -> bool {
        self@ == before@.opened()
    }

    open spec fn answers(&self, before: &Self, key: KeyEvent) -> bool {
        self@ == before@.after_key(key)
    }

    open spec fn blank(&self) -> bool {
        self@ == LineInputView::closed()
    }

    fn process_input(&mut self, key_event: &KeyEvent)
        ensures
            final(self)@ == old(self)@.after_input(*key_event),
    {
        if self.visible {
            match key_event.code {
                KeyCode::Char(c) => {
                    self.input.push(c);
                },
                KeyCode::Backspace => {
                    let _ = self.input.pop();
                },
                KeyCode::Esc => {
                    self.visible = false;
                    self.input.clear();
                },
                _ => {},
            }
        } else {
            self.visible = true;
        }
    }

    fn close(&mut self)
        ensures
            final(self)@ == LineInputView::closed(),
    {
        self.visible = false;
        self.input.clear();
    }
}

impl Widget for LineInput {
    open spec fn area(&self, available: Rect) -> Rect {
        line_input_area(available)
    }

    open spec fn drawn_by(&self, available: Rect, ops: Seq<DrawOpView>) -> bool {
        ops == self@.render_ops(available)
    }

    fn render(&self, out: &mut Vec<DrawOp>, available_area: &Rect)
        ensures
            op_views(final(out)@) == op_views(old(out)@) + self@.render_ops(*available_area),
    {
        let area = self.rect(available_area);
        proof {
            reveal_strlit("Insert value here");
            lemma_ascii_byte_len("Insert value here"@);
        }
        border(out, &area, "Insert value here", true);
        emit(out, DrawOp::MoveTo(area.x + 1, area.y + area.height - 2));
        let shown = tail(self.input.as_str(), (area.width - 2) as usize);
        emit(out, DrawOp::Print(shown, TextStyle::plain().reset()));
        assert(op_views(out@) =~= op_views(old(out)@) + self@.render_ops(*available_area));
        assert(self.drawn_by(*available_area, self@.render_ops(*available_area)));
    }

    fn rect(&self, available_area: &Rect) -> (area: Rect) {
        Rect {
            x: available_area.width / 4,
            y: available_area.height / 4,
            width: LINE_INPUT_WIDTH,
            height: LINE_INPUT_HEIGHT,
        }
    }
}

} // verus!
