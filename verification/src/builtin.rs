//! The built-in commands: the closed set of names that begin with `@`, and
//! the reading of a command line into the command it asks for.

use vstd::prelude::*;
use vstd::string::*;
use crate::text::{chars_of, join_spaced, join_words, rows, same_chars, split_words, text_of, words};

verus! {

/// Whether `w` is the name of a built-in command.
pub open spec fn is_builtin_name(w: Seq<char>) -> bool {
    ||| w == "@create_neuron"@
    ||| w == "@talk"@
    ||| w == "@help"@
    ||| w == "@list_neurons"@
}

/// Whether the first word of `line` is the name of a built-in command.
pub open spec fn is_command(line: Seq<char>) -> bool {
    words(line).len() > 0 && is_builtin_name(words(line)[0])
}

/// What a built-in command line asks for.
#[derive(Debug, PartialEq, Eq)]
pub enum BuiltinCommand {
    /// Register a session `name` with the contents of the file at `path`.
    CreateNeuron { name: String, path: String },
    /// `@create_neuron` with too few arguments.
    CreateNeuronUsage,
    /// List the sessions.
    ListNeurons,
    /// Send `message` to the session `id`.
    Talk { id: String, message: String },
    /// `@talk` with too few arguments.
    TalkUsage,
    /// Show the help panel.
    Help,
    /// The first word names no built-in command, or there is none.
    Unknown,
}

/// Whether `cmd` is what the words `ws` of a command line ask for: the
/// first word names the command, the second the session, and the others,
/// joined by single spaces, are the path or the message. A command that
/// takes arguments needs three words.
pub open spec fn asks_for(ws: Seq<Seq<char>>, cmd: BuiltinCommand) -> bool {
    match cmd {
        BuiltinCommand::CreateNeuron { name, path } => {
            &&& ws.len() >= 3
            &&& ws[0] == "@create_neuron"@
            &&& name@ == ws[1]
            &&& path@ == join_spaced(ws, 2, ws.len() as int)
        },
        BuiltinCommand::CreateNeuronUsage => 0 < ws.len() < 3 && ws[0] == "@create_neuron"@,
        BuiltinCommand::ListNeurons => ws.len() > 0 && ws[0] == "@list_neurons"@,
        BuiltinCommand::Talk { id, message } => {
            &&& ws.len() >= 3
            &&& ws[0] == "@talk"@
            &&& id@ == ws[1]
            &&& message@ == join_spaced(ws, 2, ws.len() as int)
        },
        BuiltinCommand::TalkUsage => 0 < ws.len() < 3 && ws[0] == "@talk"@,
        BuiltinCommand::Help => ws.len() > 0 && ws[0] == "@help"@,
        BuiltinCommand::Unknown => ws.len() == 0 || !is_builtin_name(ws[0]),
    }
}

fn is_name(word: &Vec<char>, name: &str) -> (b: bool)
    ensures
        b == (word@ == name@),
{
    let chars = chars_of(name);
    same_chars(word, &chars)
}

/// Whether `input` is a built-in command: its first word is one of the
/// names of the closed set.
pub fn check_is_command(input: &str) -> (b: bool)
    ensures
        b == is_command(input@),
{
    let line = chars_of(input);
    let parts = split_words(&line);
    if parts.len() == 0 {
        return false;
    }
    assert(rows(parts@)[0] == parts@[0]@);
    let first = &parts[0];
    is_name(first, "@create_neuron") || is_name(first, "@talk") || is_name(first, "@help")
        || is_name(first, "@list_neurons")
}

/// Reads a command line into the built-in command that it asks for.
pub fn map_cmd(input: &str) -> (cmd: BuiltinCommand)
    ensures
        asks_for(words(input@), cmd),
{
    let line = chars_of(input);
    let parts = split_words(&line);
    if parts.len() == 0 {
        return BuiltinCommand::Unknown;
    }
    assert(rows(parts@)[0] == parts@[0]@);
    let first = &parts[0];
    if is_name(first, "@create_neuron") {
        if parts.len() < 3 {
            return BuiltinCommand::CreateNeuronUsage;
        }
        assert(rows(parts@)[1] == parts@[1]@);
        let name = text_of(&parts[1]);
        let rest = join_words(&parts, 2);
        BuiltinCommand::CreateNeuron { name, path: text_of(&rest) }
    } else if is_name(first, "@list_neurons") {
        BuiltinCommand::ListNeurons
    } else if is_name(first, "@talk") {
        if parts.len() < 3 {
            return BuiltinCommand::TalkUsage;
        }
        assert(rows(parts@)[1] == parts@[1]@);
        let id = text_of(&parts[1]);
        let rest = join_words(&parts, 2);
        BuiltinCommand::Talk { id, message: text_of(&rest) }
    } else if is_name(first, "@help") {
        BuiltinCommand::Help
    } else {
        BuiltinCommand::Unknown
    }
}

} // verus!
