//! The kind of a submitted line: a built-in command, a statement of the
//! scripting language, or a program to launch.

use vstd::prelude::*;
use crate::builtin::{check_is_command, is_command};

verus! {

/// What a submitted line is.
#[derive(Clone, Copy, Debug, PartialEq, Eq)]
pub enum LineKind {
    /// A built-in command.
    Builtin,
    /// A declaration of a variable or an assignment to one.
    Script,
    /// A program with its arguments.
    External,
}

/// The kind of `line`, given what the syntax analyzer says of it. A
/// built-in command comes first, then a declaration or an assignment;
/// everything else is a program.
pub open spec fn kind_of(line: Seq<char>, is_declaration: bool, is_assignment: bool) -> LineKind {
    if is_command(line) {
        LineKind::Builtin
    } else if is_declaration || is_assignment {
        LineKind::Script
    } else {
        LineKind::External
    }
}

/// Classifies a submitted line. The result depends on the line and the
/// analyzer's two answers alone.
pub fn classify(line: &str, is_declaration: bool, is_assignment: bool) -> (kind: LineKind)
    ensures
        kind == kind_of(line@, is_declaration, is_assignment),
{
    if check_is_command(line) {
        LineKind::Builtin
    } else if is_declaration || is_assignment {
        LineKind::Script
    } else {
        LineKind::External
    }
}

} // verus!
