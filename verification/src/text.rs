//! Characters and words: the conversions between text and character
//! vectors, the character classes, and splitting a line at whitespace.

use vstd::prelude::*;
use vstd::string::*;
use vstd::std_specs::iter::IteratorSpec;

verus! {

/// `String::push` appends one character at the end of the string.
pub assume_specification[ String::push ](s: &mut String, c: char)
    ensures
        final(s)@ == old(s)@.push(c),
;

/// The characters of `s`, in order.
pub fn chars_of(s: &str) -> (out: Vec<char>)
    ensures
        out@ == s@,
{
    broadcast use {axiom_spec_iter, next_postcondition};

    let mut out: Vec<char> = Vec::new();
    let mut it = s.chars();
    let ghost total = s@;
    loop
        invariant
            it.obeys_prophetic_iter_laws(),
            it.decrease() is Some,
            out@ + it.remaining() == total,
        ensures
            out@ == total,
        decreases it.decrease()->0,
    {
        let ghost before = it;
        match it.next() {
            Some(c) => {
                assert(next_post(&before, &it, Some(c)));
                assert(out@.push(c) + it.remaining() =~= out@ + before.remaining());
                out.push(c);
            },
            None => {
                assert(next_post(&before, &it, None));
                assert(out@ + it.remaining() =~= out@);
                break ;
            },
        }
    }
    out
}

/// The text made of the characters of `v`, in order.
pub fn text_of(v: &Vec<char>) -> (out: String)
    ensures
        out@ == v@,
{
    let mut out: String = String::new();
    let mut i: usize = 0;
    while i < v.len()
        invariant
            i <= v.len(),
            out@ == v@.subrange(0, i as int),
        decreases v.len() - i,
    {
        out.push(v[i]);
        i += 1;
        assert(out@ =~= v@.subrange(0, i as int));
    }
    assert(v@.subrange(0, v.len() as int) =~= v@);
    out
}

/// Whether `c` is white space: a character with the Unicode property
/// `White_Space`.
pub open spec fn is_space(c: char) -> bool {
    let n = c as u32;
    ||| 0x09 <= n <= 0x0D
    ||| n == 0x20
    ||| n == 0x85
    ||| n == 0xA0
    ||| n == 0x1680
    ||| 0x2000 <= n <= 0x200A
    ||| n == 0x2028
    ||| n == 0x2029
    ||| n == 0x202F
    ||| n == 0x205F
    ||| n == 0x3000
}

/// Whether `c` may stand in an identifier: an ASCII letter, an ASCII digit
/// or the underscore.
pub open spec fn is_word(c: char) -> bool {
    let n = c as u32;
    ||| 0x30 <= n <= 0x39
    ||| 0x41 <= n <= 0x5A
    ||| 0x61 <= n <= 0x7A
    ||| n == 0x5F
}

/// Tests a character for white space.
pub fn space(c: char) -> (b: bool)
    ensures
        b == is_space(c),
{
    let n: u32 = c as u32;
    (0x09 <= n && n <= 0x0D) || n == 0x20 || n == 0x85 || n == 0xA0 || n == 0x1680 || (0x2000 <= n
        && n <= 0x200A) || n == 0x2028 || n == 0x2029 || n == 0x202F || n == 0x205F || n == 0x3000
}

/// Tests a character for an identifier character.
pub fn word_char(c: char) -> (b: bool)
    ensures
        b == is_word(c),
{
    let n: u32 = c as u32;
    (0x30 <= n && n <= 0x39) || (0x41 <= n && n <= 0x5A) || (0x61 <= n && n <= 0x7A) || n == 0x5F
}

/// The views of the character vectors in `v`, in order.
pub open spec fn rows(v: Seq<Vec<char>>) -> Seq<Seq<char>> {
    Seq::new(v.len(), |k: int| v[k]@)
}

/// The views of the strings in `v`, in order.
pub open spec fn texts(v: Seq<String>) -> Seq<Seq<char>> {
    Seq::new(v.len(), |k: int| v[k]@)
}

/// The end of the run of characters other than white space that starts at
/// `i`: the first position from `i` on that holds white space, or the
/// length of `s`.
pub open spec fn word_end(s: Seq<char>, i: int) -> int
    decreases s.len() - i,
{
    if 0 <= i < s.len() && !is_space(s[i]) {
        word_end(s, i + 1)
    } else {
        i
    }
}

/// The words of `s` from position `i` on: the maximal runs of characters
/// other than white space, in order.
pub open spec fn words_from(s: Seq<char>, i: int) -> Seq<Seq<char>>
    decreases s.len() - i,
{
    if i < 0 || i >= s.len() {
        Seq::empty()
    } else if is_space(s[i]) {
        words_from(s, i + 1)
    } else {
        let end = word_end(s, i);
        if i < end <= s.len() {
            seq![s.subrange(i, end)] + words_from(s, end)
        } else {
            Seq::empty()
        }
    }
}

/// The words of `s`: what is left of it when it is cut at white space.
pub open spec fn words(s: Seq<char>) -> Seq<Seq<char>> {
    words_from(s, 0)
}

/// A word ends after its start and within the text.
pub proof fn lemma_word_end_bounds(s: Seq<char>, i: int)
    requires
        0 <= i <= s.len(),
    ensures
        i <= word_end(s, i) <= s.len(),
        i < s.len() && !is_space(s[i]) ==> i < word_end(s, i),
        forall|k: int| i <= k < word_end(s, i) ==> !is_space(#[trigger] s[k]),
        word_end(s, i) < s.len() ==> is_space(s[word_end(s, i)]),
    decreases s.len() - i,
{
    if i < s.len() && !is_space(s[i]) {
        lemma_word_end_bounds(s, i + 1);
    }
}

/// Whether every text of `ws` is non-empty and free of white space.
pub open spec fn are_words(ws: Seq<Seq<char>>) -> bool {
    forall|w: int|
        0 <= w < ws.len() ==> (#[trigger] ws[w]).len() > 0 && forall|k: int|
            0 <= k < ws[w].len() ==> !is_space(#[trigger] ws[w][k])
}

/// The words of a text from a position on are non-empty and hold no
/// white space, and there are none exactly if white space is all that
/// the text holds from there.
pub proof fn lemma_words_from(s: Seq<char>, i: int)
    requires
        0 <= i <= s.len(),
    ensures
        are_words(words_from(s, i)),
        words_from(s, i).len() == 0 <==> forall|p: int| i <= p < s.len() ==> is_space(s[p]),
    decreases s.len() - i,
{
    if i < s.len() {
        if is_space(s[i]) {
            lemma_words_from(s, i + 1);
            if words_from(s, i).len() == 0 {
                assert forall|p: int| i <= p < s.len() implies is_space(s[p]) by {
                    if p > i {
                        assert(i + 1 <= p);
                    }
                }
            }
        } else {
            let end = word_end(s, i);
            lemma_word_end_bounds(s, i);
            lemma_words_from(s, end);
            let first = s.subrange(i, end);
            let rest = words_from(s, end);
            let all = words_from(s, i);
            assert(all == seq![first] + rest);
            assert forall|w: int| 0 <= w < all.len() implies (#[trigger] all[w]).len() > 0
                && forall|k: int| 0 <= k < all[w].len() ==> !is_space(#[trigger] all[w][k]) by {
                if w > 0 {
                    assert(all[w] == rest[w - 1]);
                } else {
                    assert(all[0] == first);
                    assert forall|k: int| 0 <= k < first.len() implies !is_space(
                        #[trigger] first[k],
                    ) by {
                        assert(first[k] == s[i + k]);
                    }
                }
            }
            assert(all.len() > 0);
        }
    }
}

/// The words of a line are non-empty and hold no white space; a line has
/// no words exactly if it is empty or all white space.
pub proof fn law_words(s: Seq<char>)
    ensures
        are_words(words(s)),
        words(s).len() == 0 <==> forall|p: int| 0 <= p < s.len() ==> is_space(s[p]),
{
    lemma_words_from(s, 0);
}

/// Splits a line at white space into its words.
pub fn split_words(line: &Vec<char>) -> (out: Vec<Vec<char>>)
    ensures
        rows(out@) == words(line@),
{
    let n: usize = line.len();
    let mut out: Vec<Vec<char>> = Vec::new();
    let mut i: usize = 0;
    assert(rows(out@) + words_from(line@, 0) =~= words_from(line@, 0));
    while i < n
        invariant
            n == line@.len(),
            i <= n,
            rows(out@) + words_from(line@, i as int) == words(line@),
        decreases n - i,
    {
        if space(line[i]) {
            i += 1;
        } else {
            let start: usize = i;
            let mut word: Vec<char> = Vec::new();
            while i < n && !space(line[i])
                invariant
                    n == line@.len(),
                    start <= i <= n,
                    word@ == line@.subrange(start as int, i as int),
                    word_end(line@, i as int) == word_end(line@, start as int),
                decreases n - i,
            {
                word.push(line[i]);
                i += 1;
                assert(word@ =~= line@.subrange(start as int, i as int));
            }
            proof {
                let rest = words_from(line@, i as int);
                lemma_word_end_bounds(line@, start as int);
                assert(word_end(line@, start as int) == i);
                assert(words_from(line@, start as int) == seq![word@] + rest);
                assert(rows(out@.push(word)) =~= rows(out@) + seq![word@]);
                assert(rows(out@.push(word)) + rest =~= rows(out@) + (seq![word@]
                    + rest));
            }
            out.push(word);
        }
    }
    assert(rows(out@) + words_from(line@, n as int) =~= rows(out@));
    out
}

/// The texts of `parts` from position `from` up to `to`, with one space
/// between neighbours.
pub open spec fn join_spaced(parts: Seq<Seq<char>>, from: int, to: int) -> Seq<char>
    decreases to - from,
{
    if to <= from {
        Seq::empty()
    } else if to == from + 1 {
        parts[from]
    } else {
        join_spaced(parts, from, to - 1) + seq![' '] + parts[to - 1]
    }
}

/// Joins the words of `parts` from position `from` on with single spaces.
pub fn join_words(parts: &Vec<Vec<char>>, from: usize) -> (out: Vec<char>)
    ensures
        out@ == join_spaced(rows(parts@), from as int, parts@.len() as int),
{
    let mut out: Vec<char> = Vec::new();
    let mut i: usize = from;
    while i < parts.len()
        invariant
            from <= i,
            i <= parts.len() || i == from,
            out@ == join_spaced(rows(parts@), from as int, i as int),
        decreases parts.len() - i,
    {
        if i > from {
            out.push(' ');
        }
        let part: &Vec<char> = &parts[i];
        let ghost before = out@;
        let mut k: usize = 0;
        while k < part.len()
            invariant
                k <= part.len(),
                out@ == before + part@.subrange(0, k as int),
            decreases part.len() - k,
        {
            out.push(part[k]);
            k += 1;
            assert(out@ =~= before + part@.subrange(0, k as int));
        }
        assert(part@.subrange(0, part.len() as int) =~= part@);
        assert(rows(parts@)[i as int] == part@);
        assert(out@ =~= join_spaced(rows(parts@), from as int, i + 1));
        i += 1;
    }
    out
}

/// Whether two character vectors hold the same text.
pub fn same_chars(a: &Vec<char>, b: &Vec<char>) -> (same: bool)
    ensures
        same == (a@ == b@),
{
    if a.len() != b.len() {
        return false;
    }
    let mut i: usize = 0;
    while i < a.len()
        invariant
            a.len() == b.len(),
            i <= a.len(),
            a@.subrange(0, i as int) == b@.subrange(0, i as int),
        decreases a.len() - i,
    {
        if a[i] != b[i] {
            return false;
        }
        i += 1;
        assert(a@.subrange(0, i as int) =~= a@.subrange(0, i - 1).push(a@[i - 1]));
        assert(b@.subrange(0, i as int) =~= b@.subrange(0, i - 1).push(b@[i - 1]));
    }
    assert(a@ =~= a@.subrange(0, a.len() as int));
    assert(b@ =~= b@.subrange(0, b.len() as int));
    true
}

} // verus!
