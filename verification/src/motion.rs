//! Cursor motion, selection by motion, and the scroll window.

use crate::cursor::{CursorPosition, Pos};
use crate::editor::{Editor, Selection};
use crate::model::{band, left_of, moved_sideways, padded, right_of, EditorModel};
use crate::proofs::{lemma_clamped, lemma_moved_sideways_within, lemma_padded, lemma_settled_placed, lemma_steps};
use crate::text::char_count;
use vstd::prelude::*;

verus! {

/// The position one step to the left of `p`.
pub fn step_left(lines: &Vec<String>, p: CursorPosition) -> (q: CursorPosition)
    requires
        p@.within(lines.deep_view()),
    ensures
        q@ == left_of(lines.deep_view(), p@),
{
    if p.x > 0 {
        CursorPosition { x: p.x - 1, y: p.y }
    } else if p.y > 0 {
        CursorPosition { x: char_count(&lines[p.y - 1]), y: p.y - 1 }
    } else {
        p
    }
}

/// The position one step to the right of `p`.
pub fn step_right(lines: &Vec<String>, p: CursorPosition) -> (q: CursorPosition)
    requires
        p@.within(lines.deep_view()),
    ensures
        q@ == right_of(lines.deep_view(), p@),
{
    let len = char_count(&lines[p.y]);
    let count = lines.len();
    if p.x < len {
        CursorPosition { x: p.x + 1, y: p.y }
    } else if p.y + 1 < count {
        CursorPosition { x: 0, y: p.y + 1 }
    } else {
        p
    }
}

/// The position `steps` single steps from `p`: to the right if positive, to
/// the left if negative.
pub fn walk(lines: &Vec<String>, p: CursorPosition, steps: i16) -> (q: CursorPosition)
    requires
        p@.within(lines.deep_view()),
    ensures
        q@ == moved_sideways(lines.deep_view(), p@, steps as int),
        q@.within(lines.deep_view()),
{
    let mut q = p;
    let mut left: i16 = steps;
    proof {
        lemma_moved_sideways_within(lines.deep_view(), p@, steps as int);
    }
    while left != 0
        invariant
            q@.within(lines.deep_view()),
            moved_sideways(lines.deep_view(), q@, left as int) == moved_sideways(
                lines.deep_view(),
                p@,
                steps as int,
            ),
        decreases
                if left < 0 {
                    -left
                } else {
                    left as int
                },
    {
        proof {
            lemma_steps(lines.deep_view(), q@);
        }
        if left > 0 {
            q = step_right(lines, q);
            left = left - 1;
        } else {
            q = step_left(lines, q);
            left = left + 1;
        }
    }
    q
}

/// Goes `by` lines down from line `y`, adding empty lines below the document
/// where it ends sooner, and gives the line reached.
pub fn descend(lines: &mut Vec<String>, y: usize, by: u16) -> (r: usize)
    requires
        y < old(lines).len(),
    ensures
        r == y + by,
        final(lines).deep_view() == padded(old(lines).deep_view(), (y + by) as nat),
{
    let ghost was = lines.deep_view();
    let mut r = y;
    let mut done: u16 = 0;
    assert(lines.deep_view() =~= padded(was, y as nat));
    while done < by
        invariant
            done <= by,
            r == y + done,
            r < lines.len(),
            y < was.len(),
            lines.deep_view() == padded(was, r as nat),
        decreases by - done,
    {
        proof {
            lemma_padded(was, r as nat);
            lemma_padded(was, (r + 1) as nat);
        }
        let ghost prev = lines.deep_view();
        let count = lines.len();
        r = r + 1;
        if r == count {
            lines.push(String::new());
            assert(lines.deep_view() =~= prev.push(Seq::<char>::empty()));
        }
        done = done + 1;
        assert(lines.deep_view().len() == padded(was, r as nat).len());
        assert forall|k: int| 0 <= k < lines.deep_view().len() implies lines.deep_view()[k]
            == padded(was, r as nat)[k] by {
            if k < prev.len() {
                assert(prev[k] == padded(was, (r - 1) as nat)[k]);
            }
        }
        assert(lines.deep_view() =~= padded(was, r as nat));
    }
    r
}

impl Editor {
    /// Moves the cursor by `x` steps sideways, then by `y` lines. Going
    /// right at the end of a line leads to the start of the line below, and
    /// going left at the start of a line to the end of the line above; at the
    /// ends of the document the cursor stays. Going up stops at the first
    /// line. Going down below the last line adds empty lines. The offset is
    /// held to the length of the line reached, and the scroll window follows
    /// the cursor.
    pub fn move_cursor(&mut self, x: i16, y: i16)
        requires
            old(self)@.wf(),
        ensures
            final(self)@ == old(self)@.moved(x as int, y as int),
            final(self)@.wf(),
    {
        let ghost was = self@;
        let side = walk(&self.editor_content, self.cursor.position(), x);
        let line = if y < 0 {
            let up = (-(y as i32)) as usize;
            if up > side.y {
                0
            } else {
                side.y - up
            }
        } else {
            descend(&mut self.editor_content, side.y, y as u16)
        };
        proof {
            lemma_padded(was.lines, line as nat);
        }
        let len = char_count(&self.editor_content[line]);
        self.cursor.x = if side.x <= len {
            side.x
        } else {
            len
        };
        self.cursor.y = line;
        proof {
            let lines = padded(was.lines, line as nat);
            lemma_clamped(lines, Pos { x: side.x as nat, y: line as nat });
            lemma_settled_placed(self@);
        }
        self.settle();
    }

    /// Moves the cursor as [`Editor::move_cursor`] does and extends the
    /// selection. From no selection, the place left and the place reached
    /// become its endpoints. With a selection active, a motion forward sets
    /// its end and a motion backward its start, and the other endpoint stays.
    /// A selection is active afterwards whatever the motion: a motion by
    /// nothing from no selection selects the empty range at the cursor.
    pub fn move_selection_cursor(&mut self, x: i16, y: i16)
        requires
            old(self)@.wf(),
        ensures
            final(self)@ == old(self)@.moved_selecting(x as int, y as int),
            final(self)@.wf(),
    {
        let ghost was = self@;
        let from = self.cursor.position();
        let selection = self.selection;
        self.move_cursor(x, y);
        let to = self.cursor.position();
        proof {
            let at = if y < 0 {
                0nat
            } else {
                (moved_sideways(was.lines, was.cursor, x as int).y + y) as nat
            };
            lemma_padded(was.lines, at);
        }
        if y > 0 || (y == 0 && x > 0) {
            self.selection = match selection {
                Selection::Inactive => Selection::Active { start: from, end: to },
                Selection::Active { start, end } => Selection::Active { start, end: to },
            };
        } else if y < 0 || (y == 0 && x < 0) {
            self.selection = match selection {
                Selection::Inactive => Selection::Active { start: to, end: from },
                Selection::Active { start, end } => Selection::Active { start: to, end },
            };
        } else {
            self.selection = match selection {
                Selection::Inactive => Selection::Active { start: from, end: to },
                Selection::Active { start, end } => Selection::Active { start, end },
            };
        }
    }

    /// Moves the scroll window by `offset` lines, no further than the first
    /// and the last line of the document. Where the cursor would leave the
    /// band of visible lines, it follows the window.
    pub fn move_scroll_offset(&mut self, offset: i16)
        requires
            old(self)@.wf(),
        ensures
            final(self)@ == old(self)@.scrolled_by(offset as int),
            final(self)@.wf(),
    {
        let count = self.editor_content.len();
        let first = if offset < 0 {
            let up = (-(offset as i32)) as usize;
            if up > self.scroll_offset {
                0
            } else {
                self.scroll_offset - up
            }
        } else {
            let down = offset as usize;
            if down >= count - self.scroll_offset {
                count - 1
            } else {
                self.scroll_offset + down
            }
        };
        let room = if self.viewport_height >= 2 {
            self.viewport_height - 2
        } else {
            0
        };
        let line = if self.cursor.y < first {
            first
        } else if self.cursor.y - first > room {
            first + room
        } else {
            self.cursor.y
        };
        let len = char_count(&self.editor_content[line]);
        self.scroll_offset = first;
        self.cursor.y = line;
        if self.cursor.x > len {
            self.cursor.x = len;
        }
        proof {
            lemma_settled_placed(self@);
        }
        self.settle();
    }

    /// Sets the height of the viewport and moves the scroll window just far
    /// enough to show the cursor line.
    pub fn resize(&mut self, viewport_height: usize)
        requires
            old(self)@.wf(),
        ensures
            final(self)@ == (EditorModel {
                viewport_height: viewport_height as nat,
                ..old(self)@
            }).settled(),
            final(self)@.wf(),
    {
        self.viewport_height = viewport_height;
        proof {
            lemma_settled_placed(self@);
        }
        self.settle();
    }
}

} // verus!
