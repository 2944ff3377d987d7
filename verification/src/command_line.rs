//! The command line: one line of input with a cursor.

use crate::cursor::Cursor;
use crate::text::{char_count, slice};
use vstd::prelude::*;
use vstd::string::*;

verus! {

/// The offset `x` moved by `dx` and held between `0` and `len`.
pub open spec fn clamped_offset(x: int, dx: int, len: int) -> int {
    if x + dx < 0 {
        0
    } else if x + dx > len {
        len
    } else {
        x + dx
    }
}

/// The input line of the command area.
#[derive(Debug)]
pub struct CommandLine {
    pub input: String,
    pub cursor: Cursor,
}

impl CommandLine {
    /// An empty command line with the cursor at its start.
    pub fn new() -> (c: CommandLine)
        ensures
            c.input@.len() == 0,
            c.cursor.x == 0,
            c.cursor.y == 0,
    {
        CommandLine { input: String::new(), cursor: Cursor::new() }
    }

    /// Moves the cursor by `x` characters, no further than the start and the
    /// end of the input.
    pub fn move_cursor(&mut self, x: i16)
        ensures
            final(self).input == old(self).input,
            final(self).cursor.y == old(self).cursor.y,
            final(self).cursor.x == clamped_offset(
                old(self).cursor.x as int,
                x as int,
                old(self).input@.len() as int,
            ),
    {
        let len = char_count(&self.input);
        let at = self.cursor.x;
        if x >= 0 {
            let by = x as usize;
            if at >= len || by >= len - at {
                self.cursor.x = len;
            } else {
                self.cursor.x = at + by;
            }
        } else {
            let by = (-(x as i32)) as usize;
            if by >= at {
                self.cursor.x = 0;
            } else if at - by > len {
                self.cursor.x = len;
            } else {
                self.cursor.x = at - by;
            }
        }
    }

    /// Sets `c` in at the cursor and moves the cursor behind it. A cursor
    /// behind the end of the input counts as standing at its end.
    pub fn write_char(&mut self, c: char)
        ensures
            final(self).input@ == old(self).input@.insert(
                clamped_offset(old(self).cursor.x as int, 0, old(self).input@.len() as int),
                c,
            ),
            final(self).cursor.x == clamped_offset(
                old(self).cursor.x as int,
                0,
                old(self).input@.len() as int,
            ) + 1,
            final(self).cursor.y == old(self).cursor.y,
    {
        let len = char_count(&self.input);
        let at = if self.cursor.x > len {
            len
        } else {
            self.cursor.x
        };
        let mut line = slice(&self.input, 0, at);
        line.push(c);
        line.append(slice(&self.input, at, len).as_str());
        assert(line@ =~= self.input@.insert(at as int, c));
        self.input = line;
        // The input is one longer now, so the place behind `c` has an offset.
        let longer = char_count(&self.input);
        self.cursor.x = longer - (len - at);
    }

    /// Removes the character before the cursor and moves the cursor onto its
    /// place. Does nothing at the start of the input, nor with the cursor
    /// behind its end.
    pub fn backspace(&mut self)
        ensures
            0 < old(self).cursor.x <= old(self).input@.len() ==> final(self).input@ == old(self).input@.remove(old(self).cursor.x - 1) && final(self).cursor.x == old(self).cursor.x
                - 1,
            !(0 < old(self).cursor.x <= old(self).input@.len()) ==> final(self).input@ == old(self).input@ && final(self).cursor.x == old(self).cursor.x,
            final(self).cursor.y == old(self).cursor.y,
    {
        let len = char_count(&self.input);
        let at = self.cursor.x;
        if at > 0 && at <= len {
            let mut line = slice(&self.input, 0, at - 1);
            line.append(slice(&self.input, at, len).as_str());
            assert(line@ =~= self.input@.remove(at - 1));
            self.input = line;
            self.cursor.x = at - 1;
        }
    }
}

} // verus!
