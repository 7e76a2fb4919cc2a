//! The panel that shows an answer beside a picture: the answer is wrapped
//! to a fixed width, and the lines of both are laid out in rows.

use vstd::prelude::*;
use vstd::string::*;
use crate::text::{chars_of, rows, text_of};

verus! {

/// The width, in columns, to which an answer is wrapped.
pub const MESSAGE_WIDTH: usize = 60;

/// What `textwrap::fill` makes of `text` at `width` columns.
pub uninterp spec fn filled(text: Seq<char>, width: nat) -> Seq<char>;

/// Calls `textwrap::fill` with a plain width, which wraps `text` into
/// lines of at most `width` columns where it can and joins them with
/// newlines. The result is a function of the text and the width; it is
/// named, not spelled out.
#[verifier::external_body]
fn fill(text: &str, width: usize) -> (out: String)
    ensures
        out@ == filled(text@, width as nat),
{
    textwrap::fill(text, width)
}

/// The end of the line that starts at `i`: the first position from `i`
/// on that holds a newline, or the length of `s`.
pub open spec fn line_end(s: Seq<char>, i: int) -> int
    decreases s.len() - i,
{
    if 0 <= i < s.len() && s[i] != '\n' {
        line_end(s, i + 1)
    } else {
        i
    }
}

/// `l` without a carriage return at its end.
pub open spec fn without_cr(l: Seq<char>) -> Seq<char> {
    if l.len() > 0 && l.last() == '\r' {
        l.drop_last()
    } else {
        l
    }
}

/// The lines of `s` from position `i` on. A line ends at a newline, which
/// is not part of it, nor is a carriage return just before the newline.
/// What follows the last newline is a line too, unless it is empty.
pub open spec fn lines_from(s: Seq<char>, i: int) -> Seq<Seq<char>>
    decreases s.len() - i,
{
    if i < 0 || i >= s.len() {
        Seq::empty()
    } else {
        let end = line_end(s, i);
        if i <= end < s.len() {
            seq![without_cr(s.subrange(i, end))] + lines_from(s, end + 1)
        } else {
            seq![s.subrange(i, s.len() as int)]
        }
    }
}

/// The lines of `s`.
pub open spec fn lines_of(s: Seq<char>) -> Seq<Seq<char>> {
    lines_from(s, 0)
}

/// The line at index `i`, or the empty line where there is none.
pub open spec fn cell(lines: Seq<Seq<char>>, i: int) -> Seq<char> {
    if 0 <= i < lines.len() {
        lines[i]
    } else {
        Seq::empty()
    }
}

/// The rows that show `left` beside `right`: as many as the longer of the
/// two has lines, each with the line of either at that index.
pub open spec fn paired(left: Seq<Seq<char>>, right: Seq<Seq<char>>) -> Seq<
    (Seq<char>, Seq<char>),
> {
    Seq::new(
        if left.len() >= right.len() {
            left.len()
        } else {
            right.len()
        },
        |i: int| (cell(left, i), cell(right, i)),
    )
}

/// The texts of the rows in `v`.
pub open spec fn row_texts(v: Seq<(String, String)>) -> Seq<(Seq<char>, Seq<char>)> {
    Seq::new(v.len(), |i: int| (v[i].0@, v[i].1@))
}

/// Splits a text into its lines.
pub fn split_lines(text: &Vec<char>) -> (out: Vec<Vec<char>>)
    ensures
        rows(out@) == lines_of(text@),
{
    let n: usize = text.len();
    let mut out: Vec<Vec<char>> = Vec::new();
    let mut i: usize = 0;
    assert(rows(out@) + lines_from(text@, 0) =~= lines_of(text@));
    while i < n
        invariant
            n == text@.len(),
            i <= n,
            rows(out@) + lines_from(text@, i as int) == lines_of(text@),
        decreases n - i,
    {
        let start: usize = i;
        let mut line: Vec<char> = Vec::new();
        while i < n && text[i] != '\n'
            invariant
                n == text@.len(),
                start <= i <= n,
                line@ == text@.subrange(start as int, i as int),
                line_end(text@, i as int) == line_end(text@, start as int),
            decreases n - i,
        {
            line.push(text[i]);
            i += 1;
            assert(line@ =~= text@.subrange(start as int, i as int));
        }
        assert(line_end(text@, start as int) == i);
        let ghost rest = lines_from(text@, start as int);
        let ghost before = rows(out@);
        if i < n {
            if line.len() > 0 && line[line.len() - 1] == '\r' {
                line.pop();
            }
            i += 1;
        }
        out.push(line);
        assert(rows(out@) =~= before.push(line@));
        assert(rows(out@) + lines_from(text@, i as int) =~= before + rest);
    }
    assert(rows(out@) + lines_from(text@, n as int) =~= rows(out@));
    out
}

/// Lays the lines of `art` and of `message` out in rows, side by side.
pub fn pair_lines(art: &str, message: &str) -> (out: Vec<(String, String)>)
    ensures
        row_texts(out@) == paired(lines_of(art@), lines_of(message@)),
{
    let left = split_lines(&chars_of(art));
    let right = split_lines(&chars_of(message));
    let count: usize = if left.len() >= right.len() {
        left.len()
    } else {
        right.len()
    };
    let mut out: Vec<(String, String)> = Vec::new();
    let mut i: usize = 0;
    while i < count
        invariant
            i <= count,
            count == paired(rows(left@), rows(right@)).len(),
            row_texts(out@) == paired(rows(left@), rows(right@)).subrange(0, i as int),
        decreases count - i,
    {
        let a: String = if i < left.len() {
            assert(rows(left@)[i as int] == left@[i as int]@);
            text_of(&left[i])
        } else {
            String::new()
        };
        let b: String = if i < right.len() {
            assert(rows(right@)[i as int] == right@[i as int]@);
            text_of(&right[i])
        } else {
            String::new()
        };
        let ghost before = row_texts(out@);
        out.push((a, b));
        assert(row_texts(out@) =~= before.push((a@, b@)));
        i += 1;
        assert(row_texts(out@) =~= paired(rows(left@), rows(right@)).subrange(0, i as int));
    }
    assert(row_texts(out@) =~= paired(rows(left@), rows(right@)));
    out
}

/// The rows of the panel for an answer: the picture on the left, the
/// answer, wrapped to the panel's width, on the right.
pub fn side_by_side(art: &str, message: &str) -> (out: Vec<(String, String)>)
    ensures
        row_texts(out@) == paired(
            lines_of(art@),
            lines_of(filled(message@, MESSAGE_WIDTH as nat)),
        ),
{
    let wrapped = fill(message, MESSAGE_WIDTH);
    pair_lines(art, wrapped.as_str())
}

} // verus!
