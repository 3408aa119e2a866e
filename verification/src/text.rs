//! Texts: their lines, the pieces that fit on a row, and numbers in digits.

use vstd::prelude::*;

verus! {

/// What each text of a list holds, in the order of the list.
pub open spec fn text_views(texts: Seq<String>) -> Seq<Seq<char>> {
    texts.map_values(|t: String| t@)
}

/// A line without the carriage return at its end, if it has one.
pub open spec fn without_return(line: Seq<char>) -> Seq<char> {
    if line.len() > 0 && line.last() == '\r' {
        line.drop_last()
    } else {
        line
    }
}

/// The lines of a text that a line feed has ended.
pub open spec fn ended_lines(text: Seq<char>) -> Seq<Seq<char>>
    decreases text.len(),
{
    if text.len() == 0 {
        Seq::empty()
    } else if text.last() == '\n' {
        ended_lines(text.drop_last()).push(without_return(open_line(text.drop_last())))
    } else {
        ended_lines(text.drop_last())
    }
}

/// What follows the last line feed of a text.
pub open spec fn open_line(text: Seq<char>) -> Seq<char>
    decreases text.len(),
{
    if text.len() == 0 {
        Seq::empty()
    } else if text.last() == '\n' {
        Seq::empty()
    } else {
        open_line(text.drop_last()).push(text.last())
    }
}

/// The lines of a text. A line ends at a line feed, or at a carriage return
/// and a line feed; neither belongs to the line. What follows the last line
/// feed is a line too, unless it is empty.
pub open spec fn lines_of(text: Seq<char>) -> Seq<Seq<char>> {
    if open_line(text).len() > 0 {
        ended_lines(text).push(open_line(text))
    } else {
        ended_lines(text)
    }
}

/// The pieces that a line is written in where only `width` characters fit
/// on a row: pieces of `width` characters as long as more than `width` are
/// left, and then what is left, if it is shorter than the row. An empty
/// rest, and one that would fill the row to its end, is not written.
pub open spec fn pieces_of(line: Seq<char>, width: nat) -> Seq<Seq<char>>
    decreases line.len(),
{
    if width == 0 {
        Seq::empty()
    } else if line.len() > width {
        seq![line.take(width as int)] + pieces_of(line.skip(width as int), width)
    } else if 0 < line.len() < width {
        seq![line]
    } else {
        Seq::empty()
    }
}

/// The end of a text: its last `n` characters, or all of it where it has
/// fewer.
pub open spec fn tail_of(text: Seq<char>, n: nat) -> Seq<char> {
    if text.len() > n {
        text.skip(text.len() - n)
    } else {
        text
    }
}

/// The character for a digit.
pub open spec fn digit_char(d: nat) -> char {
    if d == 0 {
        '0'
    } else if d == 1 {
        '1'
    } else if d == 2 {
        '2'
    } else if d == 3 {
        '3'
    } else if d == 4 {
        '4'
    } else if d == 5 {
        '5'
    } else if d == 6 {
        '6'
    } else if d == 7 {
        '7'
    } else if d == 8 {
        '8'
    } else {
        '9'
    }
}

/// A number in decimal digits, without leading zeros.
pub open spec fn decimal_of(n: nat) -> Seq<char>
    decreases n,
{
    if n < 10 {
        seq![digit_char(n)]
    } else {
        decimal_of(n / 10).push(digit_char(n % 10))
    }
}

/// The characters of a text.
pub fn chars_of(text: &str) -> (chars: Vec<char>)
    ensures
        chars@ == text@,
{
    let mut chars: Vec<char> = Vec::new();
    for c in it: text.chars()
        invariant
            it.seq() == text@,
            chars@ == text@.take(it.index() as int),
    {
        chars.push(c);
        assert(chars@ =~= text@.take(it.index() + 1));
    }
    assert(chars@ =~= text@);
    chars
}

/// The text made of the characters from `from` up to `to`.
pub fn text_between(chars: &Vec<char>, from: usize, to: usize) -> (text: String)
    requires
        from <= to <= chars@.len(),
    ensures
        text@ == chars@.subrange(from as int, to as int),
{
    let mut text = String::new();
    let mut i: usize = from;
    while i < to
        invariant
            from <= i <= to <= chars@.len(),
            text@ == chars@.subrange(from as int, i as int),
        decreases to - i,
    {
        text.push(chars[i]);
        i += 1;
        assert(text@ =~= chars@.subrange(from as int, i as int));
    }
    text
}

/// The lines of a text.
pub fn split_lines(text: &str) -> (lines: Vec<String>)
    ensures
        text_views(lines@) == lines_of(text@),
{
    let mut lines: Vec<String> = Vec::new();
    let mut current = String::new();
    assert(text@.take(0) =~= Seq::empty());
    assert(text_views(lines@) =~= Seq::empty());
    for c in it: text.chars()
        invariant
            it.seq() == text@,
            text_views(lines@) == ended_lines(text@.take(it.index() as int)),
            current@ == open_line(text@.take(it.index() as int)),
    {
        let ghost before = text@.take(it.index() as int);
        let ghost after = text@.take(it.index() + 1);
        assert(after.drop_last() =~= before);
        assert(after.last() == c);
        if c == '\n' {
            let mut line = String::new();
            std::mem::swap(&mut line, &mut current);
            let ghost whole = line@;
            match line.pop() {
                Some(last) => {
                    if last != '\r' {
                        line.push(last);
                        assert(line@ =~= whole);
                    }
                },
                None => {},
            }
            assert(line@ =~= without_return(open_line(before)));
            let ghost done = text_views(lines@);
            lines.push(line);
            assert(text_views(lines@) =~= done.push(line@));
        } else {
            current.push(c);
        }
    }
    assert(text@.take(text@.len() as int) =~= text@);
    if !current.as_str().is_empty() {
        let ghost done = text_views(lines@);
        lines.push(current);
        assert(text_views(lines@) =~= done.push(open_line(text@)));
    }
    lines
}

/// The pieces that a line is written in where only `width` characters fit
/// on a row.
pub fn wrap_line(line: &str, width: usize) -> (pieces: Vec<String>)
    ensures
        text_views(pieces@) == pieces_of(line@, width as nat),
{
    let mut pieces: Vec<String> = Vec::new();
    assert(text_views(pieces@) =~= Seq::empty());
    if width == 0 {
        return pieces;
    }
    let chars = chars_of(line);
    let mut start: usize = 0;
    assert(line@.skip(0) =~= line@);
    while chars.len() - start > width
        invariant
            width > 0,
            chars@ == line@,
            start <= chars@.len(),
            pieces_of(line@, width as nat) == text_views(pieces@) + pieces_of(
                line@.skip(start as int),
                width as nat,
            ),
        decreases chars@.len() - start,
    {
        let piece = text_between(&chars, start, start + width);
        let ghost done = text_views(pieces@);
        let ghost rest = line@.skip(start as int);
        assert(piece@ =~= rest.take(width as int));
        assert(rest.skip(width as int) =~= line@.skip(start + width));
        pieces.push(piece);
        assert(text_views(pieces@) =~= done.push(piece@));
        assert(done + (seq![piece@] + pieces_of(line@.skip(start + width), width as nat))
            =~= done.push(piece@) + pieces_of(line@.skip(start + width), width as nat));
        start += width;
    }
    let left = chars.len() - start;
    if 0 < left && left < width {
        let piece = text_between(&chars, start, chars.len());
        let ghost done = text_views(pieces@);
        assert(piece@ =~= line@.skip(start as int));
        pieces.push(piece);
        assert(text_views(pieces@) =~= done.push(piece@));
        assert(done + seq![piece@] =~= done.push(piece@));
    } else {
        assert(text_views(pieces@) + Seq::<Seq<char>>::empty() =~= text_views(pieces@));
    }
    pieces
}

/// The last `n` characters of a text, or all of it where it has fewer.
pub fn tail(text: &str, n: usize) -> (end: String)
    ensures
        end@ == tail_of(text@, n as nat),
{
    let chars = chars_of(text);
    let from = if chars.len() > n {
        chars.len() - n
    } else {
        0
    };
    let end = text_between(&chars, from, chars.len());
    assert(end@ =~= tail_of(text@, n as nat));
    end
}

/// A number in decimal digits.
pub fn decimal(n: usize) -> (digits: String)
    ensures
        digits@ == decimal_of(n as nat),
    decreases n,
{
    let mut digits = if n < 10 {
        String::new()
    } else {
        decimal(n / 10)
    };
    let d = n % 10;
    let c = if d == 0 {
        '0'
    } else if d == 1 {
        '1'
    } else if d == 2 {
        '2'
    } else if d == 3 {
        '3'
    } else if d == 4 {
        '4'
    } else if d == 5 {
        '5'
    } else if d == 6 {
        '6'
    } else if d == 7 {
        '7'
    } else if d == 8 {
        '8'
    } else {
        '9'
    };
    digits.push(c);
    assert(digits@ =~= decimal_of(n as nat));
    digits
}

} // verus!
