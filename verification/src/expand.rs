//! Expansion of `$NAME` references: each reference to a variable of the
//! table is replaced by the text of its value, in one pass from left to
//! right, the longest name first.

use vstd::prelude::*;
use vstd::string::*;
use crate::text::{chars_of, is_word, rows, same_chars, text_of, word_char};
use crate::vars::{push_all, render, table_names, table_values, Variable};

verus! {

/// Whether position `p` of `s` holds an identifier character. A position
/// outside `s` holds none.
pub open spec fn word_at(s: Seq<char>, p: int) -> bool {
    0 <= p < s.len() && is_word(s[p])
}

/// Whether a word boundary lies before position `p` of `s`: of the two
/// positions around it, exactly one holds an identifier character.
pub open spec fn boundary(s: Seq<char>, p: int) -> bool {
    word_at(s, p - 1) != word_at(s, p)
}

/// Whether `line` refers to `name` at position `i`: a `$` stands there,
/// `name` follows it, and word boundaries lie before and after `name`.
pub open spec fn refers_at(line: Seq<char>, i: int, name: Seq<char>) -> bool {
    &&& 0 <= i < line.len()
    &&& line[i] == '$'
    &&& i + 1 + name.len() <= line.len()
    &&& line.subrange(i + 1, i + 1 + name.len()) == name
    &&& boundary(line, i + 1)
    &&& boundary(line, i + 1 + name.len())
}

/// The name among the first `n` of `names` that `line` is taken to refer
/// to at position `i`: the longest that it refers to there, and of several
/// of that length the first.
pub open spec fn chosen_among(line: Seq<char>, i: int, names: Seq<Seq<char>>, n: int) -> Option<
    int,
>
    decreases n,
{
    if n <= 0 || n > names.len() {
        None
    } else {
        let before = chosen_among(line, i, names, n - 1);
        let k = n - 1;
        if refers_at(line, i, names[k]) && (before is None || names[before->0].len()
            < names[k].len()) {
            Some(k)
        } else {
            before
        }
    }
}

/// The name that `line` is taken to refer to at position `i`, if any.
pub open spec fn chosen(line: Seq<char>, i: int, names: Seq<Seq<char>>) -> Option<int> {
    chosen_among(line, i, names, names.len() as int)
}

/// What `chosen_among` picks: a name that the line refers to, at least as
/// long as every other such name and longer than every earlier one; and
/// nothing only where the line refers to none of the names.
pub proof fn lemma_chosen_among(line: Seq<char>, i: int, names: Seq<Seq<char>>, n: int)
    requires
        0 <= n <= names.len(),
    ensures
        match chosen_among(line, i, names, n) {
            Some(k) => {
                &&& 0 <= k < n
                &&& refers_at(line, i, names[k])
                &&& forall|j: int|
                    0 <= j < n && refers_at(line, i, #[trigger] names[j]) ==> names[j].len()
                        <= names[k].len()
                &&& forall|j: int|
                    0 <= j < k && refers_at(line, i, #[trigger] names[j]) ==> names[j].len()
                        < names[k].len()
            },
            None => forall|j: int| 0 <= j < n ==> !refers_at(line, i, #[trigger] names[j]),
        },
    decreases n,
{
    if n > 0 {
        lemma_chosen_among(line, i, names, n - 1);
    }
}

/// The expansion of `line` from position `i` on: where the line refers to
/// a name, the value of the chosen name stands in place of the reference,
/// and reading goes on behind the reference; every other character stands
/// for itself. `values[k]` is the text of the value of `names[k]`.
pub open spec fn expand_from(
    line: Seq<char>,
    i: int,
    names: Seq<Seq<char>>,
    values: Seq<Seq<char>>,
) -> Seq<char>
    decreases line.len() - i,
{
    if i < 0 || i >= line.len() {
        Seq::empty()
    } else {
        match chosen(line, i, names) {
            Some(k) => {
                proof {
                    lemma_chosen_among(line, i, names, names.len() as int);
                }
                values[k] + expand_from(line, i + 1 + names[k].len(), names, values)
            },
            None => seq![line[i]] + expand_from(line, i + 1, names, values),
        }
    }
}

/// The expansion of `line` under the variables `names` with the texts
/// `values`.
pub open spec fn expanded(line: Seq<char>, names: Seq<Seq<char>>, values: Seq<Seq<char>>) -> Seq<
    char,
> {
    expand_from(line, 0, names, values)
}

/// From a position on from which `line` holds no `$`, expansion leaves the
/// line as it is.
pub proof fn lemma_expand_plain_tail(
    line: Seq<char>,
    i: int,
    names: Seq<Seq<char>>,
    values: Seq<Seq<char>>,
)
    requires
        0 <= i <= line.len(),
        forall|p: int| i <= p < line.len() ==> line[p] != '$',
    ensures
        expand_from(line, i, names, values) == line.subrange(i, line.len() as int),
    decreases line.len() - i,
{
    if i < line.len() {
        lemma_chosen_among(line, i, names, names.len() as int);
        lemma_expand_plain_tail(line, i + 1, names, values);
        assert(line.subrange(i, line.len() as int) =~= seq![line[i]] + line.subrange(
            i + 1,
            line.len() as int,
        ));
    } else {
        assert(line.subrange(i, line.len() as int) =~= Seq::<char>::empty());
    }
}

/// A line without `$` is its own expansion, whatever the table holds.
pub proof fn law_line_without_dollar_is_unchanged(
    line: Seq<char>,
    names: Seq<Seq<char>>,
    values: Seq<Seq<char>>,
)
    requires
        forall|p: int| 0 <= p < line.len() ==> line[p] != '$',
    ensures
        expanded(line, names, values) == line,
{
    lemma_expand_plain_tail(line, 0, names, values);
    assert(line.subrange(0, line.len() as int) =~= line);
}

/// A reference to a name that the table lacks stays in the line: where the
/// line refers to none of the names at `i`, the character at `i` is
/// copied and reading goes on behind it.
pub proof fn law_unknown_reference_stays(
    line: Seq<char>,
    i: int,
    names: Seq<Seq<char>>,
    values: Seq<Seq<char>>,
)
    requires
        0 <= i < line.len(),
        forall|j: int| 0 <= j < names.len() ==> !refers_at(line, i, #[trigger] names[j]),
    ensures
        expand_from(line, i, names, values) == seq![line[i]] + expand_from(
            line,
            i + 1,
            names,
            values,
        ),
{
    lemma_chosen_among(line, i, names, names.len() as int);
}

/// The longest name wins: where the line refers at `i` to two names of
/// the table, the shorter one is not chosen, and the value that is
/// substituted belongs to a name at least as long as the longer one.
pub proof fn law_longest_name_wins(
    line: Seq<char>,
    i: int,
    names: Seq<Seq<char>>,
    values: Seq<Seq<char>>,
    short: int,
    long: int,
)
    requires
        0 <= short < names.len(),
        0 <= long < names.len(),
        refers_at(line, i, names[short]),
        refers_at(line, i, names[long]),
        names[short].len() < names[long].len(),
    ensures
        chosen(line, i, names) is Some,
        chosen(line, i, names) != Some(short),
        names[chosen(line, i, names)->0].len() >= names[long].len(),
        expand_from(line, i, names, values) == values[chosen(line, i, names)->0] + expand_from(
            line,
            i + 1 + names[chosen(line, i, names)->0].len(),
            names,
            values,
        ),
{
    lemma_chosen_among(line, i, names, names.len() as int);
}

/// Where every name is a non-empty identifier, the line refers at one
/// position to names of one text only: the identifier that follows the `$`, up to
/// its end. A name that is the start of a longer identifier is no match.
pub proof fn law_identifier_reference_is_whole(
    line: Seq<char>,
    i: int,
    a: Seq<char>,
    b: Seq<char>,
)
    requires
        a.len() > 0,
        b.len() > 0,
        forall|p: int| 0 <= p < a.len() ==> is_word(#[trigger] a[p]),
        forall|p: int| 0 <= p < b.len() ==> is_word(#[trigger] b[p]),
        refers_at(line, i, a),
        refers_at(line, i, b),
    ensures
        a == b,
{
    if a.len() < b.len() {
        assert(b[a.len() as int] == line.subrange(i + 1, i + 1 + b.len())[a.len() as int]);
        assert(a[a.len() - 1] == line.subrange(i + 1, i + 1 + a.len())[a.len() - 1]);
        assert(false);
    } else if b.len() < a.len() {
        assert(a[b.len() as int] == line.subrange(i + 1, i + 1 + a.len())[b.len() as int]);
        assert(b[b.len() - 1] == line.subrange(i + 1, i + 1 + b.len())[b.len() - 1]);
        assert(false);
    } else {
        assert(a =~= b);
    }
}

/// Expansion reads the line once: a line that is one reference to a name
/// of the table expands to the text of that name's value as it stands,
/// whatever that text holds, a `$` and a name of the table included. The
/// name begins and ends with an identifier character, and `k` is the
/// first place in the table where it stands.
pub proof fn law_value_is_not_expanded_again(
    names: Seq<Seq<char>>,
    values: Seq<Seq<char>>,
    k: int,
)
    requires
        0 <= k < names.len(),
        names[k].len() > 0,
        is_word(names[k].first()),
        is_word(names[k].last()),
        forall|j: int| 0 <= j < k ==> names[j] != names[k],
    ensures
        chosen(seq!['$'] + names[k], 0, names) == Some(k),
        expanded(seq!['$'] + names[k], names, values) == values[k],
{
    let line = seq!['$'] + names[k];
    assert(line.subrange(1, 1 + names[k].len() as int) =~= names[k]);
    assert(line[1] == names[k].first());
    assert(line[names[k].len() as int] == names[k].last());
    assert(refers_at(line, 0, names[k]));
    lemma_chosen_among(line, 0, names, names.len() as int);
    let c = chosen(line, 0, names)->0;
    assert(names[c].len() == names[k].len());
    assert(names[c] == names[k]);
    assert(c == k);
    assert(expand_from(line, line.len() as int, names, values) =~= Seq::<char>::empty());
    assert(values[k] + Seq::<char>::empty() =~= values[k]);
}

/// Tests whether `line` refers to `name` at position `i`.
pub fn refers(line: &Vec<char>, i: usize, name: &Vec<char>) -> (b: bool)
    ensures
        b == refers_at(line@, i as int, name@),
{
    let n: usize = line.len();
    if i >= n || line[i] != '$' {
        return false;
    }
    let len: usize = name.len();
    if len > n - i - 1 {
        return false;
    }
    let start: usize = i + 1;
    let end: usize = start + len;
    let mut k: usize = 0;
    while k < len
        invariant
            n == line@.len(),
            len == name@.len(),
            start == i + 1,
            start + len <= n,
            k <= len,
            line@.subrange(start as int, start + k) == name@.subrange(0, k as int),
        decreases len - k,
    {
        if line[start + k] != name[k] {
            assert(line@.subrange(start as int, start + len)[k as int] != name@[k as int]);
            return false;
        }
        k += 1;
        assert(line@.subrange(start as int, start + k) =~= line@.subrange(
            start as int,
            start + k - 1,
        ).push(line@[start + k - 1]));
        assert(name@.subrange(0, k as int) =~= name@.subrange(0, k - 1).push(name@[k - 1]));
    }
    assert(name@.subrange(0, len as int) =~= name@);
    let first: bool = start < n && word_char(line[start]);
    let last: bool = len > 0 && word_char(line[end - 1]);
    let after: bool = end < n && word_char(line[end]);
    first && (last != after)
}

/// Finds the name that `line` is taken to refer to at position `i`.
pub fn find_reference(line: &Vec<char>, i: usize, names: &Vec<Vec<char>>) -> (found: Option<usize>)
    ensures
        match found {
            Some(k) => chosen(line@, i as int, rows(names@)) == Some(k as int),
            None => chosen(line@, i as int, rows(names@)) is None,
        },
{
    let mut found: Option<usize> = None;
    let mut n: usize = 0;
    while n < names.len()
        invariant
            n <= names.len(),
            match found {
                Some(k) => k < n && chosen_among(line@, i as int, rows(names@), n as int) == Some(
                    k as int,
                ),
                None => chosen_among(line@, i as int, rows(names@), n as int) is None,
            },
        decreases names.len() - n,
    {
        assert(rows(names@)[n as int] == names@[n as int]@);
        let longer: bool = match found {
            Some(k) => {
                assert(rows(names@)[k as int] == names@[k as int]@);
                names[k].len() < names[n].len()
            },
            None => true,
        };
        if longer && refers(line, i, &names[n]) {
            found = Some(n);
        }
        n += 1;
    }
    found
}

/// Expands `line` under the variables `names` with the texts `values`.
pub fn expand_chars(line: &Vec<char>, names: &Vec<Vec<char>>, values: &Vec<Vec<char>>) -> (out:
    Vec<char>)
    requires
        names@.len() == values@.len(),
    ensures
        out@ == expanded(line@, rows(names@), rows(values@)),
{
    let n: usize = line.len();
    let mut out: Vec<char> = Vec::new();
    let mut i: usize = 0;
    assert(out@ + expand_from(line@, 0, rows(names@), rows(values@)) =~= expanded(
        line@,
        rows(names@),
        rows(values@),
    ));
    while i < n
        invariant
            n == line@.len(),
            i <= n,
            names@.len() == values@.len(),
            out@ + expand_from(line@, i as int, rows(names@), rows(values@)) == expanded(
                line@,
                rows(names@),
                rows(values@),
            ),
        decreases n - i,
    {
        let ghost before = out@;
        let ghost rest = expand_from(line@, i as int, rows(names@), rows(values@));
        match find_reference(line, i, names) {
            Some(k) => {
                proof {
                    lemma_chosen_among(line@, i as int, rows(names@), names@.len() as int);
                    assert(rows(names@)[k as int] == names@[k as int]@);
                    assert(rows(values@)[k as int] == values@[k as int]@);
                }
                push_all(&mut out, &values[k]);
                i = i + 1 + names[k].len();
                assert(out@ + expand_from(line@, i as int, rows(names@), rows(values@)) =~= before
                    + rest);
            },
            None => {
                out.push(line[i]);
                i += 1;
                assert(out@ + expand_from(line@, i as int, rows(names@), rows(values@)) =~= before
                    + rest);
            },
        }
    }
    assert(out@ + expand_from(line@, n as int, rows(names@), rows(values@)) =~= out@);
    out
}

/// Expands the `$NAME` references of `raw_value` from the variables of
/// `vtm`. A reference to a name that the table lacks stays as it is, and
/// what a value brings in is not read again.
pub fn expand_xiro_variables(raw_value: String, vtm: &Vec<Variable>) -> (out: String)
    ensures
        out@ == expanded(raw_value@, table_names(vtm@), table_values(vtm@)),
{
    let line = chars_of(raw_value.as_str());
    let mut names: Vec<Vec<char>> = Vec::new();
    let mut values: Vec<Vec<char>> = Vec::new();
    let mut k: usize = 0;
    while k < vtm.len()
        invariant
            k <= vtm.len(),
            names@.len() == k,
            values@.len() == k,
            rows(names@) == table_names(vtm@).subrange(0, k as int),
            rows(values@) == table_values(vtm@).subrange(0, k as int),
        decreases vtm.len() - k,
    {
        let name = chars_of(vtm[k].name.as_str());
        let value = render(&vtm[k].value);
        names.push(name);
        values.push(value);
        k += 1;
        assert(rows(names@) =~= table_names(vtm@).subrange(0, k as int));
        assert(rows(values@) =~= table_values(vtm@).subrange(0, k as int));
    }
    assert(rows(names@) =~= table_names(vtm@));
    assert(rows(values@) =~= table_values(vtm@));
    let out = expand_chars(&line, &names, &values);
    text_of(&out)
}

} // verus!
