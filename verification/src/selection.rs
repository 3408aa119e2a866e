//! The cursor of a list: where it goes when it moves, and where it stays when
//! the list changes.

use vstd::prelude::*;

verus! {

/// The cursor points at an item, or rests at 0 on an empty list.
pub open spec fn selection_valid(selected: nat, len: nat) -> bool {
    if len == 0 {
        selected == 0
    } else {
        selected < len
    }
}

/// The cursor after one step up: from the first item it goes to the last.
pub open spec fn index_above(selected: nat, len: nat) -> nat {
    if len == 0 {
        selected
    } else if selected == 0 {
        (len - 1) as nat
    } else {
        (selected - 1) as nat
    }
}

/// The cursor after one step down: from the last item it goes to the first.
pub open spec fn index_below(selected: nat, len: nat) -> nat {
    if len == 0 {
        selected
    } else if selected + 1 == len {
        0
    } else {
        selected + 1
    }
}

/// The cursor after the item under it was removed: 0 from 0 and from 1, else
/// one step up.
pub open spec fn index_after_removal(selected: nat) -> nat {
    if selected <= 1 {
        0
    } else {
        (selected - 1) as nat
    }
}

/// The cursor held inside a list of `len` items: unchanged where it still
/// points at an item, else on the last item, and 0 on an empty list.
pub open spec fn index_clamped(selected: nat, len: nat) -> nat {
    if len == 0 {
        0
    } else if selected >= len {
        (len - 1) as nat
    } else {
        selected
    }
}

/// One step of the cursor.
#[derive(Clone, Copy, Debug, PartialEq, Eq, Structural)]
pub enum Move {
    Up,
    Down,
}

/// The cursor after one `step`.
pub open spec fn index_moved(selected: nat, len: nat, step: Move) -> nat {
    match step {
        Move::Up => index_above(selected, len),
        Move::Down => index_below(selected, len),
    }
}

/// The cursor after all of `steps`, first to last.
pub open spec fn index_after_moves(selected: nat, len: nat, steps: Seq<Move>) -> nat
    decreases steps.len(),
{
    if steps.len() == 0 {
        selected
    } else {
        index_moved(index_after_moves(selected, len, steps.drop_last()), len, steps.last())
    }
}

/// However the cursor is moved up and down, it stays on an item of the list,
/// and on an empty list it stays at 0.
pub proof fn lemma_moves_keep_selection_valid(selected: nat, len: nat, steps: Seq<Move>)
    requires
        selection_valid(selected, len),
    ensures
        selection_valid(index_after_moves(selected, len, steps), len),
        len == 0 ==> index_after_moves(selected, len, steps) == 0,
    decreases steps.len(),
{
    if steps.len() > 0 {
        lemma_moves_keep_selection_valid(selected, len, steps.drop_last());
    }
}

/// A step down undoes a step up, and a step up undoes a step down.
pub proof fn lemma_moves_are_inverse(selected: nat, len: nat)
    requires
        selection_valid(selected, len),
    ensures
        index_below(index_above(selected, len), len) == selected,
        index_above(index_below(selected, len), len) == selected,
{
}

/// Removing the item under the cursor leaves the cursor on an item of the
/// shorter list.
pub proof fn lemma_removal_keeps_selection_valid(selected: nat, len: nat)
    requires
        selected < len,
    ensures
        selection_valid(index_after_removal(selected), (len - 1) as nat),
        selected <= 1 ==> index_after_removal(selected) == 0,
        selected > 1 ==> index_after_removal(selected) == selected - 1,
{
}

/// The cursor moved up.
pub fn move_index_up(selected: usize, len: usize) -> (r: usize)
    requires
        selection_valid(selected as nat, len as nat),
    ensures
        r == index_above(selected as nat, len as nat),
        selection_valid(r as nat, len as nat),
{
    if len == 0 {
        selected
    } else if selected != 0 {
        selected - 1
    } else {
        len - 1
    }
}

/// The cursor moved down.
pub fn move_index_down(selected: usize, len: usize) -> (r: usize)
    requires
        selection_valid(selected as nat, len as nat),
    ensures
        r == index_below(selected as nat, len as nat),
        selection_valid(r as nat, len as nat),
{
    if len == 0 {
        selected
    } else if selected != len - 1 {
        selected + 1
    } else {
        0
    }
}

/// The cursor held inside a list of `len` items.
pub fn clamp_index(selected: usize, len: usize) -> (r: usize)
    ensures
        r == index_clamped(selected as nat, len as nat),
        selection_valid(r as nat, len as nat),
{
    if len == 0 {
        0
    } else if selected >= len {
        len - 1
    } else {
        selected
    }
}

} // verus!
