//! The plan for launching a program: the path of the binary and the
//! argument vector, from an expanded line.

use vstd::prelude::*;
use vstd::string::*;
use crate::config::RshConfig;
use crate::text::{chars_of, rows, split_words, text_of, texts, words};
use crate::vars::push_all;

verus! {

/// What to execute: the path of the program and its arguments, the first
/// of which is the program's name as it was typed.
pub struct LaunchPlan {
    pub program: String,
    pub argv: Vec<String>,
}

/// The path `part` below the directory `base`: `part` itself where it
/// starts at the root, else `base` and `part` with one `/` between them,
/// which is left out where `base` is empty or ends in one.
pub open spec fn joined_path(base: Seq<char>, part: Seq<char>) -> Seq<char> {
    if part.len() > 0 && part[0] == '/' {
        part
    } else if base.len() == 0 || base.last() == '/' {
        base + part
    } else {
        base + seq!['/'] + part
    }
}

/// Joins the directory `base` and the path `part`.
pub fn join_path(base: &Vec<char>, part: &Vec<char>) -> (out: Vec<char>)
    ensures
        out@ == joined_path(base@, part@),
{
    let mut out: Vec<char> = Vec::new();
    if part.len() > 0 && part[0] == '/' {
        push_all(&mut out, part);
        assert(out@ =~= part@);
    } else {
        push_all(&mut out, base);
        if base.len() > 0 && base[base.len() - 1] != '/' {
            out.push('/');
        }
        push_all(&mut out, part);
        assert(out@ =~= joined_path(base@, part@));
    }
    out
}

/// Plans the launch of the program that `input` names. A line without
/// words launches nothing. The program is looked for below the configured
/// directory only, and the arguments are the words of the line.
pub fn launch_plan(config: &RshConfig, input: &str) -> (plan: Option<LaunchPlan>)
    ensures
        match plan {
            None => words(input@).len() == 0,
            Some(p) => {
                &&& words(input@).len() > 0
                &&& p.program@ == joined_path(config.bin_path@, words(input@)[0])
                &&& texts(p.argv@) == words(input@)
            },
        },
{
    let line = chars_of(input);
    let parts = split_words(&line);
    if parts.len() == 0 {
        return None;
    }
    assert(rows(parts@)[0] == parts@[0]@);
    let base = chars_of(config.bin_path.as_str());
    let program = join_path(&base, &parts[0]);
    let mut argv: Vec<String> = Vec::new();
    let mut k: usize = 0;
    while k < parts.len()
        invariant
            k <= parts.len(),
            texts(argv@) == rows(parts@).subrange(0, k as int),
        decreases parts.len() - k,
    {
        let word = text_of(&parts[k]);
        assert(word@ == rows(parts@)[k as int]);
        let ghost before = texts(argv@);
        argv.push(word);
        assert(texts(argv@) =~= before.push(word@));
        k += 1;
        assert(texts(argv@) =~= rows(parts@).subrange(0, k as int));
    }
    assert(texts(argv@) =~= rows(parts@));
    Some(LaunchPlan { program: text_of(&program), argv })
}

} // verus!
