//! The variable table as the shell sees it: names, tagged values, and the
//! text that stands for a value on a command line.

use vstd::prelude::*;
use vstd::string::*;
use crate::text::chars_of;

verus! {

/// A value that a variable may hold.
pub enum Value {
    /// A string.
    Text(String),
    /// A whole number.
    Integer(i64),
    /// A number with a fraction, held as its decimal text.
    Decimal(String),
    /// A truth value.
    Boolean(bool),
    /// A list of values.
    List(Vec<Value>),
}

/// A named variable.
pub struct Variable {
    pub name: String,
    pub value: Value,
}

/// The character of the decimal digit `d`.
pub open spec fn digit_char(d: int) -> char {
    ((48 + d) as u8) as char
}

/// The decimal digits of `n`, most significant first, without leading
/// zeros.
pub open spec fn digits(n: nat) -> Seq<char>
    decreases n,
{
    if n < 10 {
        seq![digit_char(n as int)]
    } else {
        digits(n / 10).push(digit_char((n % 10) as int))
    }
}

/// The canonical decimal text of `n`.
pub open spec fn decimal(n: int) -> Seq<char> {
    if n < 0 {
        seq!['-'] + digits((-n) as nat)
    } else {
        digits(n as nat)
    }
}

/// The text of a truth value.
pub open spec fn truth_text(b: bool) -> Seq<char> {
    if b {
        seq!['t', 'r', 'u', 'e']
    } else {
        seq!['f', 'a', 'l', 's', 'e']
    }
}

/// The text that stands for `v` on a command line: a string as it is, a
/// number in decimal, a truth value as `true` or `false`, a list as the
/// texts of its elements with one space between neighbours.
pub open spec fn rendered(v: Value) -> Seq<char>
    decreases v,
{
    match v {
        Value::Text(s) => s@,
        Value::Integer(n) => decimal(n as int),
        Value::Decimal(s) => s@,
        Value::Boolean(b) => truth_text(b),
        Value::List(items) => rendered_list(items, items@.len() as int),
    }
}

/// The texts of the first `n` elements of `items`, with one space between
/// neighbours.
pub open spec fn rendered_list(items: Vec<Value>, n: int) -> Seq<char>
    decreases items, n,
{
    if n <= 0 || n > items@.len() {
        Seq::empty()
    } else if n == 1 {
        rendered(items@[0])
    } else {
        rendered_list(items, n - 1) + seq![' '] + rendered(items@[n - 1])
    }
}

/// Appends the decimal digits of `n` to `out`.
pub fn push_digits(n: u64, out: &mut Vec<char>)
    ensures
        final(out)@ == old(out)@ + digits(n as nat),
    decreases n,
{
    if n >= 10 {
        push_digits(n / 10, out);
    }
    let d: u8 = (n % 10) as u8;
    let c: char = (48u8 + d) as char;
    assert(c == digit_char((n % 10) as int));
    out.push(c);
    assert(final(out)@ =~= old(out)@ + digits(n as nat));
}

/// Appends the characters of `more` to `out`.
pub fn push_all(out: &mut Vec<char>, more: &Vec<char>)
    ensures
        final(out)@ == old(out)@ + more@,
{
    let mut k: usize = 0;
    while k < more.len()
        invariant
            k <= more.len(),
            out@ == old(out)@ + more@.subrange(0, k as int),
        decreases more.len() - k,
    {
        out.push(more[k]);
        k += 1;
        assert(out@ =~= old(out)@ + more@.subrange(0, k as int));
    }
    assert(more@.subrange(0, more.len() as int) =~= more@);
}

/// Appends to `out` the text that stands for `v`.
pub fn render_into(v: &Value, out: &mut Vec<char>)
    ensures
        final(out)@ == old(out)@ + rendered(*v),
    decreases *v,
{
    match v {
        Value::Text(s) => {
            let chars = chars_of(s.as_str());
            push_all(out, &chars);
        },
        Value::Integer(n) => {
            if *n < 0 {
                out.push('-');
                let m: u64 = ((-(*n + 1)) as u64) + 1;
                push_digits(m, out);
            } else {
                push_digits(*n as u64, out);
            }
            assert(final(out)@ =~= old(out)@ + decimal(*n as int));
        },
        Value::Decimal(s) => {
            let chars = chars_of(s.as_str());
            push_all(out, &chars);
        },
        Value::Boolean(b) => {
            if *b {
                out.push('t');
                out.push('r');
                out.push('u');
                out.push('e');
            } else {
                out.push('f');
                out.push('a');
                out.push('l');
                out.push('s');
                out.push('e');
            }
            assert(final(out)@ =~= old(out)@ + truth_text(*b));
        },
        Value::List(items) => {
            let mut k: usize = 0;
            while k < items.len()
                invariant
                    k <= items.len(),
                    *v == Value::List(*items),
                    out@ == old(out)@ + rendered_list(*items, k as int),
                decreases items.len() - k,
            {
                if k > 0 {
                    out.push(' ');
                }
                proof {
                    vstd::std_specs::vec::axiom_vec_index_decreases(*items, k as int);
                    assert(decreases_to!(*v => v->List_0));
                }
                render_into(&items[k], out);
                k += 1;
                assert(out@ =~= old(out)@ + rendered_list(*items, k as int));
            }
        },
    }
}

/// The text that stands for `v` on a command line.
pub fn render(v: &Value) -> (out: Vec<char>)
    ensures
        out@ == rendered(*v),
{
    let mut out: Vec<char> = Vec::new();
    render_into(v, &mut out);
    out
}

/// The names of the variables of `table`, in order.
pub open spec fn table_names(table: Seq<Variable>) -> Seq<Seq<char>> {
    Seq::new(table.len(), |k: int| table[k].name@)
}

/// The texts that stand for the values of the variables of `table`, in
/// order.
pub open spec fn table_values(table: Seq<Variable>) -> Seq<Seq<char>> {
    Seq::new(table.len(), |k: int| rendered(table[k].value))
}

} // verus!
