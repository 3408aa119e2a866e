//! The popup that asks a question and takes yes or no for an answer.

use vstd::prelude::*;
use crate::draw::TextStyle;
use crate::keys::{KeyCode, KeyEvent};
use crate::utils::Rect;
use crate::widgets::PopupWidget;

verus! {

/// The two answers.
#[derive(Clone, Copy, Debug, PartialEq, Eq, Structural)]
pub enum Button {
    Yes,
    No,
}

impl Button {
    /// The other answer.
    pub open spec fn flipped(self) -> Button {
        match self {
            Button::Yes => Button::No,
            Button::No => Button::Yes,
        }
    }
}

/// A question, the answer under the cursor, and whether the popup has been
/// opened.
#[derive(Debug, PartialEq, Eq)]
pub struct MessageBox {
    question: String,
    visible: bool,
    selected: Button,
}

/// What a message box holds.
#[verifier::ext_equal]
pub struct MessageBoxView {
    pub question: Seq<char>,
    pub visible: bool,
    pub selected: Button,
}

impl MessageBoxView {
    /// A message box that asks nothing, is not open, and has the cursor on
    /// "No".
    pub open spec fn closed() -> MessageBoxView {
        MessageBoxView { question: Seq::empty(), visible: false, selected: Button::No }
    }

    /// The message box, open.
    pub open spec fn opened(self) -> MessageBoxView {
        MessageBoxView { visible: true, ..self }
    }

    /// The open message box after one key: the tabulator moves the cursor to
    /// the other answer.
    pub open spec fn after_key(self, key: KeyEvent) -> MessageBoxView {
        if key.code == KeyCode::Tab {
            MessageBoxView { selected: self.selected.flipped(), ..self }
        } else {
            self
        }
    }

    /// The message box after one key: a first key only opens it, and once it
    /// is open it acts on the key.
    pub open spec fn after_input(self, key: KeyEvent) -> MessageBoxView {
        if !self.visible {
            self.opened()
        } else {
            self.after_key(key)
        }
    }
}

impl View for MessageBox {
    type V = MessageBoxView;

    closed spec fn view(&self) -> MessageBoxView {
        MessageBoxView { question: self.question@, visible: self.visible, selected: self.selected }
    }
}

impl MessageBox {
    /// A closed message box.
    pub fn new() -> (r: MessageBox)
        ensures
            r@ == MessageBoxView::closed(),
    {
        MessageBox { question: String::new(), visible: false, selected: Button::No }
    }

    /// Whether the cursor is on "Yes".
    pub fn accepted(&self) -> (yes: bool)
        ensures
            yes == (self@.selected == Button::Yes),
    {
        self.selected == Button::Yes
    }

    /// Replaces the question.
    pub fn set_question(&mut self, text: String)
        ensures
            final(self)@ == (MessageBoxView { question: text@, ..old(self)@ }),
    {
        self.question = text;
    }

    /// The question.
    pub fn question(&self) -> (q: &String)
        ensures
            q@ == self@.question,
    {
        &self.question
    }

    /// Whether a first key has opened the popup.
    pub fn is_visible(&self) -> (v: bool)
        ensures
            v == self@.visible,
    {
        self.visible
    }

    /// Whether the message box asks nothing, is not open, and has the cursor
    /// on "No".
    pub fn is_closed(&self) -> (closed: bool)
        ensures
            closed == (self@ == MessageBoxView::closed()),
    {
        let closed = !self.visible && self.selected == Button::No
            && self.question.as_str().is_empty();
        proof {
            if closed {
                assert(self@ =~= MessageBoxView::closed());
            }
        }
        closed
    }

    /// How the two answers look, "Yes" first: the one under the cursor is
    /// black on white.
    pub fn button_styles(&self) -> (styles: (TextStyle, TextStyle))
        ensures
            styles.0 == TextStyle::item_style(self@.selected == Button::Yes),
            styles.1 == TextStyle::item_style(self@.selected == Button::No),
    {
        let yes = TextStyle::item(self.selected == Button::Yes);
        let no = TextStyle::item(self.selected == Button::No);
        (yes, no)
    }

    /// The area of the message box in the room it may have: a quarter of the
    /// way in from the left and from the top, 100 columns wide and 10 rows
    /// high.
    pub fn size(&self, available_rect: Rect) -> (area: Rect)
        ensures
            area == (Rect {
                x: available_rect.width / 4,
                y: available_rect.height / 4,
                width: 100,
                height: 10,
            }),
    {
        Rect { x: available_rect.width / 4, y: available_rect.height / 4, width: 100, height: 10 }
    }
}

impl PopupWidget for MessageBox {
    open spec fn shown(&self) -> bool {
        self@.visible
    }

    open spec fn opened_from(&self, before: &Self) -> bool {
        self@ == before@.opened()
    }

    open spec fn answers(&self, before: &Self, key: KeyEvent) -> bool {
        self@ == before@.after_key(key)
    }

    open spec fn blank(&self) -> bool {
        self@ == MessageBoxView::closed()
    }

    fn process_input(&mut self, key_event: &KeyEvent)
        ensures
            final(self)@ == old(self)@.after_input(*key_event),
    {
        if self.visible {
            if key_event.code == KeyCode::Tab {
                self.selected = if self.selected == Button::Yes {
                    Button::No
                } else {
                    Button::Yes
                };
            }
        } else {
            self.visible = true;
        }
    }

    fn close(&mut self)
        ensures
            final(self)@ == MessageBoxView::closed(),
    {
        self.visible = false;
        self.selected = Button::No;
        self.question = String::new();
    }
}

/// Two presses of the tabulator on an open message box leave the cursor
/// where it was.
pub proof fn lemma_toggle_twice(m: MessageBoxView, tab: KeyEvent)
    requires
        m.visible,
        tab.code == KeyCode::Tab,
    ensures
        m.after_input(tab).after_input(tab) == m,
{
}

} // verus!
