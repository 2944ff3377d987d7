//! Cursor positions: a line index `y` and a character offset `x` in that line.

use vstd::prelude::*;

verus! {

/// A position in a document, as specifications speak of it.
pub struct Pos {
    /// The character offset in the line.
    pub x: nat,
    /// The index of the line.
    pub y: nat,
}

impl Pos {
    /// Document order: by line, then by offset.
    pub open spec fn le(self, other: Pos) -> bool {
        self.y < other.y || (self.y == other.y && self.x <= other.x)
    }

    /// Whether the position names a place of `lines`; the end of a line counts.
    pub open spec fn within(self, lines: Seq<Seq<char>>) -> bool {
        self.y < lines.len() && self.x <= lines[self.y as int].len()
    }
}

/// A position in a document: line `y`, character offset `x`.
#[derive(Clone, Copy, Debug, PartialEq, Eq, Structural)]
pub struct CursorPosition {
    /// The character offset in the line.
    pub x: usize,
    /// The index of the line.
    pub y: usize,
}

impl View for CursorPosition {
    type V = Pos;

    open spec fn view(&self) -> Pos {
        Pos { x: self.x as nat, y: self.y as nat }
    }
}

impl CursorPosition {
    /// The position at offset `x` of line `y`.
    pub fn new(x: usize, y: usize) -> (p: CursorPosition)
        ensures
            p.x == x,
            p.y == y,
    {
        CursorPosition { x, y }
    }

    /// Whether `self` comes no later than `other` in document order.
    pub fn precedes(&self, other: &CursorPosition) -> (b: bool)
        ensures
            b == self@.le(other@),
    {
        self.y < other.y || (self.y == other.y && self.x <= other.x)
    }
}

/// The caret of an editing surface.
#[derive(Clone, Copy, Debug, PartialEq, Eq, Structural)]
pub struct Cursor {
    /// The character offset in the line.
    pub x: usize,
    /// The index of the line.
    pub y: usize,
}

impl View for Cursor {
    type V = Pos;

    open spec fn view(&self) -> Pos {
        Pos { x: self.x as nat, y: self.y as nat }
    }
}

impl Cursor {
    /// A caret at the start of the first line.
    pub fn new() -> (c: Cursor)
        ensures
            c.x == 0,
            c.y == 0,
    {
        Cursor { x: 0, y: 0 }
    }

    /// The place of the caret as a plain position.
    pub fn position(&self) -> (p: CursorPosition)
        ensures
            p@ == self@,
    {
        CursorPosition { x: self.x, y: self.y }
    }
}

} // verus!
