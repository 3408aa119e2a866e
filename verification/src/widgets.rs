//! What the widgets have in common.

use vstd::prelude::*;
use crate::draw::{op_views, DrawOp, DrawOpView};
use crate::keys::KeyEvent;
use crate::selection::{index_above, index_below, selection_valid};
use crate::utils::Rect;

pub mod line_input;
pub mod message_box;

verus! {

/// Something that can be drawn on the screen.
pub trait Widget {
    /// The area that the widget takes of the room it may have.
    spec fn area(&self, available: Rect) -> Rect;

    /// Whether `ops` are commands that draw the widget in the room it may
    /// have. A widget that shows what is not its own to say, such as a time
    /// of day in the machine's time zone, has more than one drawing.
    spec fn drawn_by(&self, available: Rect, ops: Seq<DrawOpView>) -> bool;

    /// Appends to a list the commands that draw the widget. `available_area`
    /// is all the room that the widget may take.
    fn render(&self, out: &mut Vec<DrawOp>, available_area: &Rect)
        ensures
            exists|ops: Seq<DrawOpView>|
                #[trigger] self.drawn_by(*available_area, ops) && op_views(final(out)@)
                    == op_views(old(out)@) + ops,
    ;

    /// The area that the widget takes of the room it may have.
    fn rect(&self, available_area: &Rect) -> (area: Rect)
        ensures
            area == self.area(*available_area),
    ;
}

/// A widget that lists items one below the other and keeps a cursor on one of
/// them.
pub trait ContainerWidget {
    /// How many items the widget lists.
    spec fn item_count(&self) -> nat;

    /// The index of the item under the cursor.
    spec fn cursor(&self) -> nat;

    /// Whether the widget holds the focus.
    spec fn focus(&self) -> bool;

    /// Whether the widget lists what `other` lists, in the same order.
    spec fn same_items(&self, other: &Self) -> bool;

    /// Moves the cursor one item up, from the first item to the last. Does
    /// nothing on an empty list.
    fn move_up(&mut self)
        requires
            selection_valid(old(self).cursor(), old(self).item_count()),
        ensures
            final(self).same_items(old(self)),
            final(self).item_count() == old(self).item_count(),
            final(self).focus() == old(self).focus(),
            final(self).cursor() == index_above(old(self).cursor(), old(self).item_count()),
            selection_valid(final(self).cursor(), final(self).item_count()),
    ;

    /// Moves the cursor one item down, from the last item to the first. Does
    /// nothing on an empty list.
    fn move_down(&mut self)
        requires
            selection_valid(old(self).cursor(), old(self).item_count()),
        ensures
            final(self).same_items(old(self)),
            final(self).item_count() == old(self).item_count(),
            final(self).focus() == old(self).focus(),
            final(self).cursor() == index_below(old(self).cursor(), old(self).item_count()),
            selection_valid(final(self).cursor(), final(self).item_count()),
    ;

    /// Whether the widget holds the focus.
    fn is_focused(&self) -> (focused: bool)
        ensures
            focused == self.focus(),
    ;

    /// Gives the focus to a widget without it and takes it from one that has
    /// it.
    fn toogle_focus(&mut self)
        ensures
            final(self).same_items(old(self)),
            final(self).item_count() == old(self).item_count(),
            final(self).cursor() == old(self).cursor(),
            final(self).focus() == !old(self).focus(),
    ;

    /// Gives or takes the focus.
    fn set_focus(&mut self, focus: bool)
        ensures
            final(self).same_items(old(self)),
            final(self).item_count() == old(self).item_count(),
            final(self).cursor() == old(self).cursor(),
            final(self).focus() == focus,
    ;
}

/// A widget that lies over the others while it is open, and takes the keys.
pub trait PopupWidget {
    /// Whether the popup has been opened by a first key.
    spec fn shown(&self) -> bool;

    /// Whether the popup is what `before` was, but open.
    spec fn opened_from(&self, before: &Self) -> bool;

    /// Whether the popup is what the open popup `before` becomes when it
    /// takes `key`.
    spec fn answers(&self, before: &Self, key: KeyEvent) -> bool;

    /// Whether the popup is closed and holds nothing that the user chose or
    /// typed.
    spec fn blank(&self) -> bool;

    /// Takes one key. The first key that reaches a popup only opens it; the
    /// popup acts on the keys after that.
    fn process_input(&mut self, key_event: &KeyEvent)
        ensures
            !old(self).shown() ==> final(self).shown() && final(self).opened_from(old(self)),
            old(self).shown() ==> final(self).answers(old(self), *key_event),
    ;

    /// Closes the popup and forgets what the user chose or typed.
    fn close(&mut self)
        ensures
            !final(self).shown(),
            final(self).blank(),
    ;
}

} // verus!
