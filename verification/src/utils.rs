//! Areas of the screen, and the pieces that the widgets are drawn from:
//! borders, rows and buttons.

use vstd::prelude::*;
use vstd::string::StringExecFns;
use vstd::utf8::{encode_utf8, is_ascii_chars, is_ascii_chars_encode_utf8};
use crate::draw::{emit, op_views, Color, DrawOp, DrawOpView, TextStyle};

verus! {

/// An area of the screen: the column and the row of its upper left corner,
/// and how far it reaches from there.
#[derive(Clone, Copy, Debug, PartialEq, Eq, Structural)]
pub struct Rect {
    pub x: u16,
    pub y: u16,
    pub height: u16,
    pub width: u16,
}

/// How many bytes a text takes, as `str::len` counts them.
pub open spec fn byte_len(text: Seq<char>) -> nat {
    (encode_utf8(text).len() as usize) as nat
}

/// A text of ASCII characters takes one byte for each of them.
pub proof fn lemma_ascii_byte_len(text: Seq<char>)
    requires
        is_ascii_chars(text),
        text.len() <= usize::MAX,
    ensures
        byte_len(text) == text.len(),
{
    is_ascii_chars_encode_utf8(text);
}

/// The character `c`, `n` times.
pub open spec fn repeated(c: char, n: nat) -> Seq<char> {
    Seq::new(n, |i: int| c)
}

/// A line of `length` characters: `first`, then `blank` spaces, then
/// `middle` up to the last place, then `last`.
pub open spec fn line_of(
    first: char,
    last: char,
    middle: char,
    blank: nat,
    length: nat,
) -> Seq<char> {
    seq![first] + repeated(' ', blank) + repeated(middle, (length - 2 - blank) as nat) + seq![last]
}

/// The content of a cell, and spaces behind it up to the width of the cell,
/// which is counted in bytes. Content that is wider than its cell stands
/// alone.
pub open spec fn cell_text(content: Seq<char>, space: nat) -> Seq<char> {
    if byte_len(content) <= space {
        content + repeated(' ', (space - byte_len(content)) as nat)
    } else {
        content
    }
}

/// The cells of a row, one behind the other.
pub open spec fn row_text(cells: Seq<(Seq<char>, nat)>) -> Seq<char>
    decreases cells.len(),
{
    if cells.len() == 0 {
        Seq::empty()
    } else {
        row_text(cells.drop_last()) + cell_text(cells.last().0, cells.last().1)
    }
}

/// The cells of a row as contents and widths.
pub open spec fn cell_views(contents: Seq<(&str, usize)>) -> Seq<(Seq<char>, nat)> {
    contents.map_values(|c: (&str, usize)| (c.0@, c.1 as nat))
}

/// The color of a border: yellow around the widget that has the focus.
pub open spec fn border_color(focused: bool) -> Color {
    if focused {
        Color::Yellow
    } else {
        Color::White
    }
}

/// The commands that put the cursor on the next row of an area, `x_offset`
/// columns from its left edge.
pub open spec fn next_line_ops(area: Rect, x_offset: u16) -> Seq<DrawOpView> {
    seq![DrawOpView::MoveToNextLine(1), DrawOpView::MoveToColumn((area.x + x_offset) as u16)]
}

/// The commands that draw the two sides of a border on one row.
pub open spec fn side_ops(area: Rect) -> Seq<DrawOpView> {
    next_line_ops(area, 0) + seq![
        DrawOpView::Write("│"@),
        DrawOpView::MoveRight((area.width - 2) as u16),
        DrawOpView::Write("│"@),
    ]
}

/// The commands that draw the two sides of a border on `rows` rows.
pub open spec fn sides_ops(area: Rect, rows: nat) -> Seq<DrawOpView>
    decreases rows,
{
    if rows == 0 {
        Seq::empty()
    } else {
        sides_ops(area, (rows - 1) as nat) + side_ops(area)
    }
}

/// How many rows of a border show its sides only.
pub open spec fn side_rows(area: Rect) -> nat {
    if area.height >= 1 {
        (area.height - 1) as nat
    } else {
        0
    }
}

/// The commands that draw a border around an area: the upper edge with room
/// for the title, the title in bold, the sides, and the lower edge.
pub open spec fn border_ops(area: Rect, title: Seq<char>, focused: bool) -> Seq<DrawOpView> {
    seq![
        DrawOpView::SetForeground(border_color(focused)),
        DrawOpView::MoveTo(area.x, area.y),
        DrawOpView::Write(line_of('┌', '┐', '─', byte_len(title), area.width as nat)),
        DrawOpView::MoveToColumn((area.x + 1) as u16),
        DrawOpView::Print(
            title,
            TextStyle { reset: true, bold: true, foreground: None, background: None },
        ),
        DrawOpView::SetForeground(border_color(focused)),
    ] + sides_ops(area, side_rows(area)) + next_line_ops(area, 0) + seq![
        DrawOpView::Write(line_of('└', '┘', '─', 0, area.width as nat)),
        DrawOpView::SetForeground(Color::Reset),
    ]
}

/// The commands that write the text of a button, in black on white where
/// the button is under the cursor, and set the colors back.
pub open spec fn button_ops(text: Seq<char>, highlight: bool) -> Seq<DrawOpView> {
    (if highlight {
        seq![DrawOpView::SetForeground(Color::Black), DrawOpView::SetBackground(Color::White)]
    } else {
        Seq::empty()
    }) + seq![
        DrawOpView::Write(text),
        DrawOpView::SetForeground(Color::White),
        DrawOpView::SetBackground(Color::Reset),
    ]
}

/// The upper half of an area.
pub open spec fn upper_half(rect: Rect) -> Rect {
    Rect { height: rect.height / 2, ..rect }
}

/// The lower half of an area: it starts one row below the upper half and is
/// one row shorter.
pub open spec fn lower_half(rect: Rect) -> Rect {
    Rect {
        y: (rect.y + rect.height / 2 + 1) as u16,
        height: (rect.height / 2 - 1) as u16,
        ..rect
    }
}

/// Appends `c` to a text, `n` times.
pub fn push_repeated(text: &mut String, c: char, n: usize)
    ensures
        final(text)@ == old(text)@ + repeated(c, n as nat),
{
    let mut i: usize = 0;
    while i < n
        invariant
            i <= n,
            text@ == old(text)@ + repeated(c, i as nat),
        decreases n - i,
    {
        text.push(c);
        i += 1;
        assert(text@ =~= old(text)@ + repeated(c, i as nat));
    }
    assert(text@ =~= old(text)@ + repeated(c, n as nat));
}

/// Appends to a list the commands that draw a border around an area. The
/// area has to be wide enough for the title and the two corners.
pub fn border(out: &mut Vec<DrawOp>, area: &Rect, title: &str, focused: bool)
    requires
        byte_len(title@) + 2 <= area.width,
        area.x < u16::MAX,
    ensures
        op_views(final(out)@) == op_views(old(out)@) + border_ops(*area, title@, focused),
{
    proof {
        reveal_strlit("");
    }
    let first_line = build_line('┌', '┐', '─', title, area.width);
    let last_line = build_line('└', '┘', '─', "", area.width);
    emit(out, DrawOp::SetForeground(border_background(focused)));
    reset_cursor_in_area(out, area);
    emit(out, DrawOp::Write(first_line));
    emit(out, DrawOp::MoveToColumn(area.x + 1));
    emit(out, DrawOp::Print(title.to_owned(), TextStyle::plain().reset().bold()));
    emit(out, DrawOp::SetForeground(border_background(focused)));
    let ghost head = op_views(out@);
    assert(head =~= op_views(old(out)@) + seq![
        DrawOpView::SetForeground(border_color(focused)),
        DrawOpView::MoveTo(area.x, area.y),
        DrawOpView::Write(line_of('┌', '┐', '─', byte_len(title@), area.width as nat)),
        DrawOpView::MoveToColumn((area.x + 1) as u16),
        DrawOpView::Print(
            title@,
            TextStyle { reset: true, bold: true, foreground: None, background: None },
        ),
        DrawOpView::SetForeground(border_color(focused)),
    ]);
    let mut row: u16 = 1;
    while row < area.height
        invariant
            1 <= row,
            row <= area.height || area.height == 0,
            2 <= area.width,
            op_views(out@) == head + sides_ops(
                *area,
                if area.height >= 1 {
                    (row - 1) as nat
                } else {
                    0
                },
            ),
        decreases area.height - row,
    {
        let ghost before = op_views(out@);
        go_to_next_line_in_area(out, area, 0);
        emit(out, DrawOp::Write("│".to_owned()));
        emit(out, DrawOp::MoveRight(area.width - 2));
        emit(out, DrawOp::Write("│".to_owned()));
        assert(op_views(out@) =~= before + side_ops(*area));
        assert(head + sides_ops(*area, (row - 1) as nat) + side_ops(*area) =~= head + sides_ops(
            *area,
            row as nat,
        ));
        row += 1;
    }
    let ghost sides = op_views(out@);
    assert(sides == head + sides_ops(*area, side_rows(*area)));
    go_to_next_line_in_area(out, area, 0);
    emit(out, DrawOp::Write(last_line));
    emit(out, DrawOp::SetForeground(Color::Reset));
    assert(op_views(out@) =~= sides + next_line_ops(*area, 0) + seq![
        DrawOpView::Write(line_of('└', '┘', '─', 0, area.width as nat)),
        DrawOpView::SetForeground(Color::Reset),
    ]);
    assert(op_views(out@) =~= op_views(old(out)@) + border_ops(*area, title@, focused));
}

/// The color of a border: yellow around the widget that has the focus.
pub fn border_background(focused: bool) -> (color: Color)
    ensures
        color == border_color(focused),
{
    if focused {
        Color::Yellow
    } else {
        Color::White
    }
}

/// One edge of a border: `first`, as many spaces as the title has bytes,
/// `middle` up to the last place, then `last`; `length` characters in all.
/// The line has to be long enough for the title and the two corners.
pub fn build_line(first: char, last: char, middle: char, title: &str, length: u16) -> (line: String)
    requires
        byte_len(title@) + 2 <= length,
    ensures
        line@ == line_of(first, last, middle, byte_len(title@), length as nat),
        line@.len() == length,
{
    let mut line = String::new();
    line.push(first);
    let blank = title.len();
    push_repeated(&mut line, ' ', blank);
    push_repeated(&mut line, middle, length as usize - 2 - blank);
    line.push(last);
    assert(line@ =~= line_of(first, last, middle, byte_len(title@), length as nat));
    line
}

/// Appends to a list the commands that write the text of a button, in black
/// on white where the button is under the cursor, and set the colors back.
pub fn highlight_button_text(out: &mut Vec<DrawOp>, text: &str, highlight: bool)
    ensures
        op_views(final(out)@) == op_views(old(out)@) + button_ops(text@, highlight),
{
    if highlight {
        emit(out, DrawOp::SetForeground(Color::Black));
        emit(out, DrawOp::SetBackground(Color::White));
    }
    emit(out, DrawOp::Write(text.to_owned()));
    emit(out, DrawOp::SetForeground(Color::White));
    emit(out, DrawOp::SetBackground(Color::Reset));
    assert(op_views(out@) =~= op_views(old(out)@) + button_ops(text@, highlight));
}

/// The two halves of an area, the upper one and the lower one. A row is left
/// free between them. The area has to be two rows high at least, and its
/// lower half has to start on a row that the screen can have.
pub fn split_rect_by_height(rect: &Rect) -> (halves: (Rect, Rect))
    requires
        rect.height >= 2,
        rect.y + rect.height / 2 + 1 <= u16::MAX,
    ensures
        halves.0 == upper_half(*rect),
        halves.1 == lower_half(*rect),
{
    let height = rect.height / 2;
    let mut one = *rect;
    let mut two = *rect;
    one.height = height;
    two.y += height + 1;
    two.height = height - 1;
    (one, two)
}

/// Appends to a list the commands that put the cursor on the next row of an
/// area, `x_offset` columns from its left edge.
pub fn go_to_next_line_in_area(out: &mut Vec<DrawOp>, area: &Rect, x_offset: u16)
    requires
        area.x + x_offset <= u16::MAX,
    ensures
        op_views(final(out)@) == op_views(old(out)@) + next_line_ops(*area, x_offset),
{
    emit(out, DrawOp::MoveToNextLine(1));
    emit(out, DrawOp::MoveToColumn(area.x + x_offset));
    assert(op_views(out@) =~= op_views(old(out)@) + next_line_ops(*area, x_offset));
}

/// Appends to a list the command that puts the cursor in the upper left
/// corner of an area.
pub fn reset_cursor_in_area(out: &mut Vec<DrawOp>, area: &Rect)
    ensures
        op_views(final(out)@) == op_views(old(out)@).push(DrawOpView::MoveTo(area.x, area.y)),
{
    emit(out, DrawOp::MoveTo(area.x, area.y));
}

/// The text of a row: each cell's content, filled up with spaces to the
/// width of the cell. Widths are counted in bytes. Content that is wider
/// than its cell is written whole, with nothing behind it.
pub fn build_row(contents: Vec<(&str, usize)>) -> (row: String)
    ensures
        row@ == row_text(cell_views(contents@)),
{
    let mut row = String::new();
    let mut i: usize = 0;
    let ghost cells = cell_views(contents@);
    assert(cells.take(0) =~= Seq::empty());
    while i < contents.len()
        invariant
            i <= contents.len(),
            cells == cell_views(contents@),
            row@ == row_text(cells.take(i as int)),
        decreases contents.len() - i,
    {
        let (content, space) = contents[i];
        row.append(content);
        if content.len() <= space {
            push_repeated(&mut row, ' ', space - content.len());
        }
        assert(cells.take(i + 1).drop_last() =~= cells.take(i as int));
        assert(cells.take(i + 1).last() == (content@, space as nat));
        assert(row@ =~= row_text(cells.take(i as int)) + cell_text(content@, space as nat));
        i += 1;
    }
    assert(cells.take(i as int) =~= cells);
    row
}

} // verus!
