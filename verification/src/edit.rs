//! The edit operations: insert, backspace, delete, tab, newline, and their
//! forms on a selection.

use crate::cursor::CursorPosition;
use crate::editor::{Editor, Selection};
use crate::model::padded;
use crate::motion::{step_left, step_right};
use crate::proofs::{lemma_blanked_clean, lemma_padded, lemma_steps, lemma_text_in_range_clean};
use crate::range::{blank_text, copy_range};
use crate::text::{char_count, is_line_terminator, text_is_clean};
use vstd::prelude::*;

verus! {

/// The text of one line that holds the character `c` alone.
pub fn single_char(c: char) -> (text: Vec<String>)
    ensures
        text.deep_view() == seq![seq![c]],
        !is_line_terminator(c) ==> text_is_clean(text.deep_view()),
{
    let mut line = String::new();
    line.push(c);
    let mut text: Vec<String> = Vec::new();
    text.push(line);
    assert(text@[0]@ =~= seq![c]);
    assert(text.deep_view() =~= seq![seq![c]]);
    text
}

/// The text of one empty line: what takes the place of a range that is
/// removed.
pub fn no_text() -> (text: Vec<String>)
    ensures
        text.deep_view() == seq![Seq::<char>::empty()],
        text_is_clean(text.deep_view()),
{
    let mut text: Vec<String> = Vec::new();
    text.push(String::new());
    assert(text.deep_view() =~= seq![Seq::<char>::empty()]);
    text
}

/// The text of `count` empty lines.
pub fn empty_lines(count: usize) -> (text: Vec<String>)
    ensures
        text.deep_view() == Seq::new(count as nat, |i: int| Seq::<char>::empty()),
        text_is_clean(text.deep_view()),
{
    let mut text: Vec<String> = Vec::new();
    let mut i: usize = 0;
    while i < count
        invariant
            i <= count,
            text.len() == i,
            forall|j: int| 0 <= j < i ==> #[trigger] text@[j]@ == Seq::<char>::empty(),
        decreases count - i,
    {
        text.push(String::new());
        i = i + 1;
    }
    assert(text.deep_view() =~= Seq::new(count as nat, |i: int| Seq::<char>::empty()));
    text
}

impl Editor {
    /// Whether a selection is active.
    pub fn is_text_selected(&self) -> (b: bool)
        ensures
            b == (self@.selection is Some),
    {
        match self.selection {
            Selection::Inactive => false,
            Selection::Active { .. } => true,
        }
    }

    /// Clears the selection.
    pub fn clear_selection(&mut self)
        ensures
            final(self)@ == (crate::model::EditorModel { selection: None, ..old(self)@ }),
    {
        self.selection = Selection::Inactive;
    }

    /// Whether `p` names a place of the document.
    pub fn holds(&self, p: CursorPosition) -> (b: bool)
        ensures
            b == p@.within(self@.lines),
    {
        p.y < self.editor_content.len() && p.x <= char_count(&self.editor_content[p.y])
    }

    /// The selection in document order, if one is active and both its
    /// endpoints lie in the document.
    pub fn normalized_selection(&self) -> (r: Option<(CursorPosition, CursorPosition)>)
        ensures
            r is Some <==> self@.has_valid_selection(),
            r matches Some((start, end)) ==> (start@, end@) == self@.normalized_selection()
                && crate::range::is_range(self@.lines, start@, end@),
    {
        match self.selection {
            Selection::Inactive => None,
            Selection::Active { start, end } => {
                if !self.holds(start) || !self.holds(end) {
                    None
                } else if start.precedes(&end) {
                    Some((start, end))
                } else {
                    Some((end, start))
                }
            },
        }
    }

    /// Makes room for the cursor: adds empty lines up to the cursor line and
    /// moves an offset behind the end of that line to its end.
    pub fn make_room(&mut self)
        ensures
            final(self)@ == old(self)@.with_room(),
            final(self)@.cursor.within(final(self)@.lines),
    {
        let ghost was = self@;
        let y = self.cursor.y;
        proof {
            lemma_padded(was.lines, y as nat);
        }
        while self.editor_content.len() <= y
            invariant
                y == self.cursor.y,
                self.cursor == old(self).cursor,
                self.selection == old(self).selection,
                self.scroll_offset == old(self).scroll_offset,
                self.viewport_height == old(self).viewport_height,
                self.settings == old(self).settings,
                self.visual_cursor_x == old(self).visual_cursor_x,
                self.undo_stack == old(self).undo_stack,
                self.redo_stack == old(self).redo_stack,
                was.lines.len() <= self.editor_content.len() <= padded(was.lines, y as nat).len(),
                forall|i: int|
                    0 <= i < self.editor_content.len() ==> #[trigger] self.editor_content@[i]@
                        == padded(was.lines, y as nat)[i],
            decreases y + 1 - self.editor_content.len(),
        {
            self.editor_content.push(String::new());
        }
        assert(self.editor_content.deep_view() =~= padded(was.lines, y as nat));
        let len = char_count(&self.editor_content[y]);
        if self.cursor.x > len {
            self.cursor.x = len;
        }
    }

    /// Insert at the cursor: makes room for the cursor, sets `c` in at the
    /// cursor and moves the cursor behind it. As every edit that changes the
    /// document, it clears the selection, puts one record onto the undo
    /// stack and empties the redo stack.
    pub fn write_char(&mut self, c: char)
        requires
            old(self)@.sound(),
            !is_line_terminator(c),
        ensures
            final(self)@ == old(self)@.write_char(c),
            final(self)@.wf(),
    {
        self.make_room();
        let at = self.cursor.position();
        let text = single_char(c);
        proof {
            lemma_padded(old(self)@.lines, old(self)@.cursor.y);
        }
        self.commit(at, at, &text);
    }

    /// Insert over the selection: the selected range is replaced by `c`, and
    /// the cursor lands behind it.
    pub fn write_char_text_is_selected(&mut self, c: char)
        requires
            old(self)@.sound(),
            old(self)@.has_valid_selection(),
            !is_line_terminator(c),
        ensures
            final(self)@ == old(self)@.write_char_selected(c),
            final(self)@.wf(),
    {
        let text = single_char(c);
        match self.normalized_selection() {
            Some((start, end)) => {
                self.commit(start, end, &text);
            },
            None => {},
        }
    }

    /// Backspace at the cursor: removes the character before the cursor; at
    /// the start of a line joins the line onto the one above; at the start
    /// of the document does nothing.
    pub fn backspace_in_editor(&mut self)
        requires
            old(self)@.wf(),
        ensures
            final(self)@ == old(self)@.backspace(),
            final(self)@.wf(),
    {
        if self.cursor.x == 0 && self.cursor.y == 0 {
            return ;
        }
        let at = self.cursor.position();
        let from = step_left(&self.editor_content, at);
        let text = no_text();
        proof {
            lemma_steps(self@.lines, at@);
        }
        self.commit(from, at, &text);
    }

    /// Backspace over the selection: the selected range is removed, and the
    /// cursor lands where it began.
    pub fn backspace_text_is_selected(&mut self)
        requires
            old(self)@.sound(),
            old(self)@.has_valid_selection(),
        ensures
            final(self)@ == old(self)@.backspace_selected(),
            final(self)@.wf(),
    {
        let text = no_text();
        match self.normalized_selection() {
            Some((start, end)) => {
                self.commit(start, end, &text);
            },
            None => {},
        }
    }

    /// Delete at the cursor: removes the character at the cursor; at the end
    /// of a line joins the line below onto it; at the end of the document
    /// does nothing.
    pub fn delete_in_editor(&mut self)
        requires
            old(self)@.wf(),
        ensures
            final(self)@ == old(self)@.delete(),
            final(self)@.wf(),
    {
        let at = self.cursor.position();
        let len = char_count(&self.editor_content[at.y]);
        let count = self.editor_content.len();
        if at.x == len && at.y + 1 == count {
            return ;
        }
        let to = step_right(&self.editor_content, at);
        let text = no_text();
        proof {
            lemma_steps(self@.lines, at@);
        }
        self.commit(at, to, &text);
    }

    /// Delete over the selection: every character of the selected range is
    /// replaced by a space, so that each line keeps its length, and the
    /// cursor lands at the end of the range.
    pub fn delete_text_is_selected(&mut self)
        requires
            old(self)@.sound(),
            old(self)@.has_valid_selection(),
        ensures
            final(self)@ == old(self)@.delete_selected(),
            final(self)@.wf(),
    {
        match self.normalized_selection() {
            Some((start, end)) => {
                let text = copy_range(&self.editor_content, start, end);
                let blanks = blank_text(&text);
                proof {
                    lemma_text_in_range_clean(self@.lines, start@, end@);
                    lemma_blanked_clean(text.deep_view());
                }
                self.commit(start, end, &blanks);
            },
            None => {},
        }
    }

    /// Tab: a tab character is set in at the cursor, as any character is.
    /// The cursor moves on by one character, and its visual column to the
    /// next tab stop.
    pub fn tab(&mut self)
        requires
            old(self)@.sound(),
        ensures
            final(self)@ == old(self)@.write_char('\t'),
            final(self)@.wf(),
    {
        self.write_char('\t');
    }

    /// Newline: the line breaks at the cursor. What stood behind the cursor
    /// becomes a new line directly below, and the cursor goes to its start.
    pub fn enter(&mut self)
        requires
            old(self)@.wf(),
        ensures
            final(self)@ == old(self)@.enter(),
            final(self)@.wf(),
    {
        let at = self.cursor.position();
        let text = empty_lines(2);
        assert(text.deep_view() =~= seq![Seq::<char>::empty(), Seq::<char>::empty()]);
        self.commit(at, at, &text);
    }
}

} // verus!
