//! The line editor and dispatcher as a state machine. The caller reads a
//! key, hands it to [`Shell::key`], and does what the returned step says:
//! draw the line again, run the submitted line and call
//! [`Shell::resume`], or leave.

use vstd::prelude::*;
use vstd::string::*;
use crate::config::RshConfig;
use crate::history::{cursor_in_range, newer_cursor, older_cursor, History};
use crate::text::{chars_of, text_of};
use crate::vars::push_all;

verus! {

/// A key event, as far as the editor tells keys apart.
#[derive(Clone, Copy, Debug, PartialEq, Eq)]
pub enum Key {
    /// A printable character.
    Char(char),
    Backspace,
    Up,
    Down,
    Enter,
    Escape,
    /// Any other key.
    Other,
}

/// The discipline of the terminal.
#[derive(Clone, Copy, Debug, PartialEq, Eq)]
pub enum TerminalMode {
    /// Line-buffered, with echo: for programs and after the shell.
    Cooked,
    /// Key by key, without echo: while the editor reads.
    Raw,
}

/// What the shell is doing.
#[derive(Clone, Copy, Debug, PartialEq, Eq)]
pub enum Phase {
    /// Waiting for the next key.
    Reading,
    /// A submitted line is being carried out.
    Running,
    /// The shell has been left.
    Exited,
}

/// What the caller does after a key.
#[derive(Debug, PartialEq, Eq)]
pub enum Step {
    /// Draw the prompt and the buffer again, and read the next key.
    Redraw,
    /// Carry out this line with the terminal cooked, then resume.
    Run(String),
    /// Leave the loop with the terminal cooked.
    Exit,
}

/// The state of the shell as contracts see it.
pub ghost struct ShellState {
    /// The line being composed.
    pub buffer: Seq<char>,
    /// The history, oldest first.
    pub lines: Seq<Seq<char>>,
    /// The index of the line being recalled, if any.
    pub cursor: Option<int>,
    pub phase: Phase,
    pub mode: TerminalMode,
}

/// What holds of every state of the shell: the cursor, where set, points
/// into the history; the terminal is raw exactly while keys are read; and
/// a line that is being carried out is not empty.
pub open spec fn valid(s: ShellState) -> bool {
    &&& cursor_in_range(s.cursor, s.lines.len() as int)
    &&& (s.mode is Raw <==> s.phase is Reading)
    &&& (s.phase is Running ==> s.buffer.len() > 0)
}

/// The state in which a shell starts: nothing typed, no history, reading
/// keys from a raw terminal.
pub open spec fn initial() -> ShellState {
    ShellState {
        buffer: Seq::empty(),
        lines: Seq::empty(),
        cursor: None,
        phase: Phase::Reading,
        mode: TerminalMode::Raw,
    }
}

/// Whether `key` submits the line of `s`: it is Enter and the buffer is
/// not empty.
pub open spec fn submits(s: ShellState, key: Key) -> bool {
    key is Enter && s.buffer.len() > 0
}

/// The state after `key` was typed in state `s`.
pub open spec fn after_key(s: ShellState, key: Key) -> ShellState {
    match key {
        Key::Char(c) => ShellState { buffer: s.buffer.push(c), ..s },
        Key::Backspace => if s.buffer.len() > 0 {
            ShellState { buffer: s.buffer.drop_last(), ..s }
        } else {
            s
        },
        Key::Up => if s.lines.len() == 0 {
            s
        } else {
            let cursor = older_cursor(s.cursor, s.lines.len() as int);
            ShellState { buffer: s.lines[cursor->0], cursor, ..s }
        },
        Key::Down => match newer_cursor(s.cursor, s.lines.len() as int) {
            Some(i) => ShellState { buffer: s.lines[i], cursor: Some(i), ..s },
            None => if s.cursor is Some {
                ShellState { buffer: Seq::empty(), cursor: None, ..s }
            } else {
                s
            },
        },
        Key::Enter => if s.buffer.len() > 0 {
            ShellState { phase: Phase::Running, mode: TerminalMode::Cooked, ..s }
        } else {
            s
        },
        Key::Escape => ShellState { phase: Phase::Exited, mode: TerminalMode::Cooked, ..s },
        Key::Other => s,
    }
}

/// The state after the submitted line of `s` was carried out: the line, as
/// it was typed, is the newest of the history, the buffer is empty, and
/// keys are read again from a raw terminal.
pub open spec fn after_run(s: ShellState) -> ShellState {
    ShellState {
        buffer: Seq::empty(),
        lines: s.lines.push(s.buffer),
        cursor: None,
        phase: Phase::Reading,
        mode: TerminalMode::Raw,
    }
}

/// Every step keeps the state valid. In particular the terminal is raw
/// after a step exactly if the next thing to happen is the reading of a
/// key.
pub proof fn law_steps_keep_valid(s: ShellState, key: Key)
    requires
        valid(s),
    ensures
        valid(initial()),
        s.phase is Reading ==> valid(after_key(s, key)),
        s.phase is Reading ==> (after_key(s, key).mode is Raw <==> after_key(s, key).phase
            is Reading),
        s.phase is Running ==> valid(after_run(s)),
        s.phase is Running ==> after_run(s).mode is Raw && after_run(s).phase is Reading,
{
}

/// A submitted line that is not empty enters the history once, as it was
/// typed, when it has been carried out; nothing else of the history
/// changes.
pub proof fn law_submitted_line_enters_history(s: ShellState)
    requires
        valid(s),
        s.phase is Reading,
        s.buffer.len() > 0,
    ensures
        submits(s, Key::Enter),
        after_key(s, Key::Enter).phase is Running,
        after_key(s, Key::Enter).buffer == s.buffer,
        after_run(after_key(s, Key::Enter)).lines == s.lines.push(s.buffer),
        after_run(after_key(s, Key::Enter)).lines.len() == s.lines.len() + 1,
{
}

/// Only a submitted line changes the history: no key does.
pub proof fn law_keys_leave_history(s: ShellState, key: Key)
    ensures
        after_key(s, key).lines == s.lines,
{
}

/// Enter on an empty buffer submits nothing and changes nothing.
pub proof fn law_empty_line_changes_nothing(s: ShellState)
    requires
        s.buffer.len() == 0,
    ensures
        !submits(s, Key::Enter),
        after_key(s, Key::Enter) == s,
{
}

/// Down from the newest line of the history leads back to a fresh line
/// with an empty buffer.
pub proof fn law_down_past_newest_is_fresh(s: ShellState)
    requires
        valid(s),
        s.cursor == Some(s.lines.len() - 1),
    ensures
        after_key(s, Key::Down).cursor is None,
        after_key(s, Key::Down).buffer == Seq::<char>::empty(),
{
}

/// Up from a fresh line recalls the newest line of the history; Up from
/// any line keeps the cursor within the history, and at the oldest line
/// it stays there.
pub proof fn law_up_recalls_and_stops_at_oldest(s: ShellState)
    requires
        valid(s),
        s.lines.len() > 0,
    ensures
        s.cursor is None ==> after_key(s, Key::Up).cursor == Some(s.lines.len() - 1)
            && after_key(s, Key::Up).buffer == s.lines.last(),
        after_key(s, Key::Up).cursor is Some,
        0 <= after_key(s, Key::Up).cursor->0 < s.lines.len(),
        after_key(s, Key::Up).buffer == s.lines[after_key(s, Key::Up).cursor->0],
        s.cursor == Some(0int) ==> after_key(s, Key::Up).cursor == Some(0int),
{
}

/// The line editor with its history, and the phase and terminal mode of
/// the shell around it.
pub struct Shell {
    buffer: Vec<char>,
    history: History,
    phase: Phase,
    mode: TerminalMode,
}

impl View for Shell {
    type V = ShellState;

    closed spec fn view(&self) -> ShellState {
        ShellState {
            buffer: self.buffer@,
            lines: self.history.lines(),
            cursor: self.history.cursor(),
            phase: self.phase,
            mode: self.mode,
        }
    }
}

impl Shell {
    /// The state is valid.
    pub open spec fn wf(&self) -> bool {
        valid(self@)
    }

    /// A shell that starts reading keys: the caller has made the terminal
    /// raw.
    pub fn new() -> (shell: Shell)
        ensures
            shell.wf(),
            shell@ == initial(),
    {
        Shell {
            buffer: Vec::new(),
            history: History::new(),
            phase: Phase::Reading,
            mode: TerminalMode::Raw,
        }
    }

    /// What the shell is doing.
    pub fn phase(&self) -> (phase: Phase)
        ensures
            phase == self@.phase,
    {
        self.phase
    }

    /// The mode that the terminal is to be in.
    pub fn mode(&self) -> (mode: TerminalMode)
        ensures
            mode == self@.mode,
    {
        self.mode
    }

    /// The line being composed.
    pub fn buffer(&self) -> (line: String)
        ensures
            line@ == self@.buffer,
    {
        text_of(&self.buffer)
    }

    /// The number of lines in the history.
    pub fn history_len(&self) -> (n: usize)
        ensures
            n == self@.lines.len(),
    {
        self.history.len()
    }

    /// The line of the history at index `i`, counted from the oldest.
    pub fn history_line(&self, i: usize) -> (line: &str)
        requires
            i < self@.lines.len(),
        ensures
            line@ == self@.lines[i as int],
    {
        self.history.line(i)
    }

    /// The line to draw: the prompt, then the buffer.
    pub fn display(&self, config: &RshConfig) -> (line: String)
        ensures
            line@ == config.prompt@ + self@.buffer,
    {
        let mut out: Vec<char> = chars_of(config.prompt.as_str());
        push_all(&mut out, &self.buffer);
        text_of(&out)
    }

    /// Applies one key. A printable character is appended, Backspace drops
    /// the last character, Up and Down recall lines of the history, Enter
    /// submits a buffer that is not empty, Escape leaves, and any other
    /// key does nothing.
    pub fn key(&mut self, key: Key) -> (step: Step)
        requires
            old(self).wf(),
            old(self)@.phase is Reading,
        ensures
            final(self).wf(),
            final(self)@ == after_key(old(self)@, key),
            match step {
                Step::Run(line) => submits(old(self)@, key) && line@ == old(self)@.buffer,
                Step::Exit => key is Escape,
                Step::Redraw => !submits(old(self)@, key) && !(key is Escape),
            },
    {
        match key {
            Key::Char(c) => {
                self.buffer.push(c);
                Step::Redraw
            },
            Key::Backspace => {
                if self.buffer.len() > 0 {
                    self.buffer.pop();
                }
                Step::Redraw
            },
            Key::Up => {
                match self.history.older() {
                    Some(line) => {
                        self.buffer = chars_of(line.as_str());
                    },
                    None => {},
                }
                Step::Redraw
            },
            Key::Down => {
                if self.history.is_recalling() {
                    match self.history.newer() {
                        Some(line) => {
                            self.buffer = chars_of(line.as_str());
                        },
                        None => {
                            self.buffer = Vec::new();
                        },
                    }
                }
                Step::Redraw
            },
            Key::Enter => {
                if self.buffer.len() > 0 {
                    self.phase = Phase::Running;
                    self.mode = TerminalMode::Cooked;
                    Step::Run(text_of(&self.buffer))
                } else {
                    Step::Redraw
                }
            },
            Key::Escape => {
                self.phase = Phase::Exited;
                self.mode = TerminalMode::Cooked;
                Step::Exit
            },
            Key::Other => Step::Redraw,
        }
    }

    /// Takes up reading after the submitted line was carried out,
    /// whatever became of it: the line enters the history as it was typed,
    /// the buffer is emptied, and the terminal is to be raw again.
    pub fn resume(&mut self)
        requires
            old(self).wf(),
            old(self)@.phase is Running,
        ensures
            final(self).wf(),
            final(self)@ == after_run(old(self)@),
    {
        let line = text_of(&self.buffer);
        self.history.append(line);
        self.buffer = Vec::new();
        self.phase = Phase::Reading;
        self.mode = TerminalMode::Raw;
    }
}

} // verus!
