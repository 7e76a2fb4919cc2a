//! The history of submitted lines, with a cursor for recalling them.

use vstd::prelude::*;
use vstd::string::*;
use crate::text::texts;

verus! {

/// The lines submitted so far, oldest first, and the place of the line
/// being recalled. Without a cursor a fresh line is being composed.
pub struct History {
    entries: Vec<String>,
    cursor: Option<usize>,
}

/// The cursor after a step towards older lines among `len` of them: from
/// a fresh line to the newest, from the oldest to itself.
pub open spec fn older_cursor(cursor: Option<int>, len: int) -> Option<int> {
    if len <= 0 {
        cursor
    } else {
        match cursor {
            None => Some(len - 1),
            Some(i) => if i <= 0 {
                Some(0)
            } else {
                Some(i - 1)
            },
        }
    }
}

/// The cursor after a step towards newer lines among `len` of them: past
/// the newest it is unset.
pub open spec fn newer_cursor(cursor: Option<int>, len: int) -> Option<int> {
    match cursor {
        None => None,
        Some(i) => if i + 1 < len {
            Some(i + 1)
        } else {
            None
        },
    }
}

/// Whether `cursor` is unset or points at one of `len` lines.
pub open spec fn cursor_in_range(cursor: Option<int>, len: int) -> bool {
    match cursor {
        None => true,
        Some(i) => 0 <= i < len,
    }
}

impl History {
    /// The lines held, oldest first.
    pub closed spec fn lines(&self) -> Seq<Seq<char>> {
        texts(self.entries@)
    }

    /// The index of the line being recalled, if any.
    pub closed spec fn cursor(&self) -> Option<int> {
        match self.cursor {
            None => None,
            Some(i) => Some(i as int),
        }
    }

    /// The cursor, where set, points at a line of the history.
    pub open spec fn wf(&self) -> bool {
        cursor_in_range(self.cursor(), self.lines().len() as int)
    }

    /// An empty history, composing a fresh line.
    pub fn new() -> (h: History)
        ensures
            h.wf(),
            h.lines() == Seq::<Seq<char>>::empty(),
            h.cursor() is None,
    {
        let h = History { entries: Vec::new(), cursor: None };
        assert(h.lines() =~= Seq::<Seq<char>>::empty());
        h
    }

    /// The number of lines held.
    pub fn len(&self) -> (n: usize)
        ensures
            n == self.lines().len(),
    {
        self.entries.len()
    }

    /// The line at index `i`, counted from the oldest.
    pub fn line(&self, i: usize) -> (s: &str)
        requires
            i < self.lines().len(),
        ensures
            s@ == self.lines()[i as int],
    {
        self.entries[i].as_str()
    }

    /// Whether a line is being recalled.
    pub fn is_recalling(&self) -> (b: bool)
        ensures
            b == self.cursor() is Some,
    {
        self.cursor.is_some()
    }

    /// Adds `line` as the newest and unsets the cursor. An empty line is
    /// not recorded and changes nothing.
    pub fn append(&mut self, line: String)
        requires
            old(self).wf(),
        ensures
            final(self).wf(),
            line@.len() == 0 ==> final(self).lines() == old(self).lines() && final(self).cursor()
                == old(self).cursor(),
            line@.len() > 0 ==> final(self).lines() == old(self).lines().push(line@),
            line@.len() > 0 ==> final(self).cursor() is None,
    {
        if line.as_str().unicode_len() == 0 {
            return ;
        }
        self.entries.push(line);
        self.cursor = None;
        assert(final(self).lines() =~= old(self).lines().push(line@));
    }

    /// Steps to the next older line and returns it: from a fresh line to
    /// the newest, from the oldest to itself. An empty history has none.
    pub fn older(&mut self) -> (line: Option<String>)
        requires
            old(self).wf(),
        ensures
            final(self).wf(),
            final(self).lines() == old(self).lines(),
            final(self).cursor() == older_cursor(
                old(self).cursor(),
                old(self).lines().len() as int,
            ),
            old(self).lines().len() == 0 ==> line is None,
            old(self).lines().len() > 0 ==> line is Some && final(self).cursor() is Some
                && line->0@ == old(self).lines()[final(self).cursor()->0],
    {
        if self.entries.len() == 0 {
            return None;
        }
        let at: usize = match self.cursor {
            None => self.entries.len() - 1,
            Some(i) => if i == 0 {
                0
            } else {
                i - 1
            },
        };
        self.cursor = Some(at);
        Some(self.entries[at].clone())
    }

    /// Steps to the next newer line and returns it. Past the newest the
    /// cursor is unset and there is none; without a cursor nothing changes.
    pub fn newer(&mut self) -> (line: Option<String>)
        requires
            old(self).wf(),
        ensures
            final(self).wf(),
            final(self).lines() == old(self).lines(),
            final(self).cursor() == newer_cursor(
                old(self).cursor(),
                old(self).lines().len() as int,
            ),
            match final(self).cursor() {
                Some(i) => line is Some && line->0@ == old(self).lines()[i],
                None => line is None,
            },
    {
        let n: usize = self.entries.len();
        match self.cursor {
            None => None,
            Some(i) => {
                if n > 0 && i < n - 1 {
                    self.cursor = Some(i + 1);
                    Some(self.entries[i + 1].clone())
                } else {
                    self.cursor = None;
                    None
                }
            },
        }
    }
}

} // verus!
