//! Undo and redo.

use crate::cursor::CursorPosition;
use crate::editor::{Editor, Selection};
use crate::errors::{RedoError, UndoError};
use crate::model::spliced;
use crate::proofs::{lemma_restored_wf, lemma_spliced_clean};
use crate::text::{char_count, text_is_clean};
use vstd::prelude::*;

verus! {

/// Replaces the `count` lines of `lines` from `start_line` on by copies of
/// `with`; a range that reaches past the end of `lines` is cut short there.
#[verifier::loop_isolation(false)]
pub fn splice(lines: &mut Vec<String>, start_line: usize, count: usize, with: &Vec<String>)
    ensures
        final(lines).deep_view() == spliced(
            old(lines).deep_view(),
            start_line as nat,
            count as nat,
            with.deep_view(),
        ),
{
    let ghost was = lines.deep_view();
    let ghost goal = spliced(was, start_line as nat, count as nat, with.deep_view());
    let len = lines.len();
    let from = if start_line <= len {
        start_line
    } else {
        len
    };
    let to = if count <= len - from {
        from + count
    } else {
        len
    };
    let mut tail = lines.split_off(to);
    lines.truncate(from);
    let mut i: usize = 0;
    while i < with.len()
        invariant
            i <= with.len(),
            lines.len() == from + i,
            from <= was.len(),
            forall|j: int| 0 <= j < from ==> #[trigger] lines@[j]@ == was[j],
            forall|j: int| 0 <= j < i ==> #[trigger] lines@[from + j]@ == with@[j]@,
        decreases with.len() - i,
    {
        lines.push(with[i].clone());
        i = i + 1;
    }
    let ghost middle = lines@;
    let ghost rest = tail@;
    lines.append(&mut tail);
    assert(lines.deep_view().len() == goal.len());
    assert forall|k: int| 0 <= k < goal.len() implies lines.deep_view()[k] == goal[k] by {
        if k < from {
            assert(lines@[k] == middle[k]);
        } else if k < from + with.len() {
            assert(lines@[k] == middle[from + (k - from)]);
            assert(goal[k] == with.deep_view()[k - from]);
        } else {
            assert(lines@[k] == rest[k - from - with.len()]);
            assert(goal[k] == was[k - from - with.len() + to]);
        }
    }
    assert(lines.deep_view() =~= goal);
}

impl Editor {
    /// Replaces the `count` lines from `start_line` on by the lines `with`
    /// and sets the cursor to `cursor`, moved into the document if it would
    /// stand outside. The selection clears.
    pub fn restore_lines(
        &mut self,
        start_line: usize,
        count: usize,
        with: &Vec<String>,
        cursor: CursorPosition,
    )
        requires
            old(self)@.sound(),
            with.len() > 0,
            text_is_clean(with.deep_view()),
        ensures
            final(self)@ == old(self)@.restored(
                start_line as nat,
                count as nat,
                with.deep_view(),
                cursor@,
            ),
    {
        proof {
            lemma_spliced_clean(
                self@.lines,
                start_line as nat,
                count as nat,
                with.deep_view(),
            );
        }
        splice(&mut self.editor_content, start_line, count, with);
        let last = self.editor_content.len() - 1;
        let y = if cursor.y <= last {
            cursor.y
        } else {
            last
        };
        let len = char_count(&self.editor_content[y]);
        let x = if cursor.x <= len {
            cursor.x
        } else {
            len
        };
        self.cursor.x = x;
        self.cursor.y = y;
        self.selection = Selection::Inactive;
        self.settle();
    }

    /// Undo: takes the last edit back. The lines that the edit touched are as
    /// they were before it, the cursor is where it was before it, and the
    /// edit can be redone. Fails if there is nothing to undo.
    pub fn undo(&mut self) -> (r: Result<(), UndoError>)
        requires
            old(self)@.sound(),
        ensures
            r is Ok <==> old(self)@.undo.len() > 0,
            r is Ok ==> final(self)@ == old(self)@.undone() && final(self)@.wf(),
            r is Err ==> final(self)@ == old(self)@,
    {
        let ghost was = self@;
        match self.undo_stack.pop() {
            None => Err(UndoError),
            Some(record) => {
                proof {
                    assert(record.deep_view() == was.undo.last());
                    assert(self.undo_stack.deep_view() =~= was.undo.drop_last());
                    assert(was.undo.last().sound());
                    assert(self@.sound());
                    lemma_restored_wf(
                        self@,
                        was.undo.last().start_line,
                        was.undo.last().after.len(),
                        was.undo.last().before,
                        was.undo.last().cursor_before,
                    );
                }
                self.restore_lines(
                    record.start_line,
                    record.after.len(),
                    &record.before,
                    record.cursor_before,
                );
                self.redo_stack.push(record);
                proof {
                    assert(self.redo_stack.deep_view() =~= was.redo.push(was.undo.last()));
                    assert(self@ == was.undone());
                    assert forall|i: int| 0 <= i < self@.redo.len() implies (
                    #[trigger] self@.redo[i]).sound() by {
                        if i < was.redo.len() {
                            assert(self@.redo[i] == was.redo[i]);
                        }
                    }
                }
                Ok(())
            },
        }
    }

    /// Redo: does the edit again that was undone last. Fails if there is
    /// nothing to redo.
    pub fn redo(&mut self) -> (r: Result<(), RedoError>)
        requires
            old(self)@.sound(),
        ensures
            r is Ok <==> old(self)@.redo.len() > 0,
            r is Ok ==> final(self)@ == old(self)@.redone() && final(self)@.wf(),
            r is Err ==> final(self)@ == old(self)@,
    {
        let ghost was = self@;
        match self.redo_stack.pop() {
            None => Err(RedoError),
            Some(record) => {
                proof {
                    assert(record.deep_view() == was.redo.last());
                    assert(self.redo_stack.deep_view() =~= was.redo.drop_last());
                    assert(was.redo.last().sound());
                    assert(self@.sound());
                    lemma_restored_wf(
                        self@,
                        was.redo.last().start_line,
                        was.redo.last().before.len(),
                        was.redo.last().after,
                        was.redo.last().cursor_after,
                    );
                }
                self.restore_lines(
                    record.start_line,
                    record.before.len(),
                    &record.after,
                    record.cursor_after,
                );
                self.undo_stack.push(record);
                proof {
                    assert(self.undo_stack.deep_view() =~= was.undo.push(was.redo.last()));
                    assert(self@ == was.redone());
                    assert forall|i: int| 0 <= i < self@.undo.len() implies (
                    #[trigger] self@.undo[i]).sound() by {
                        if i < was.undo.len() {
                            assert(self@.undo[i] == was.undo[i]);
                        }
                    }
                }
                Ok(())
            },
        }
    }
}

} // verus!
