//! The editor: the line buffer, the cursor, the selection, the scroll window
//! and the history, with the edit operations that keep them consistent.

use crate::config::EditorSettings;
use crate::cursor::{Cursor, CursorPosition, Pos};
use crate::model::{EditorModel, RecordModel};
use crate::proofs::{lemma_edited_wf, lemma_replaced_shape};
use crate::range::{clone_lines, is_range, replace_range};
use crate::text::{char_count, compute_visual_column, text_is_clean};
use vstd::prelude::*;

verus! {

/// The selection: inactive, or active with both endpoints. The endpoints are
/// kept as the motions set them, not in document order.
#[derive(Clone, Copy, Debug, PartialEq, Eq, Structural)]
pub enum Selection {
    /// Nothing is selected.
    Inactive,
    /// The text between `start` and `end` is selected.
    Active { start: CursorPosition, end: CursorPosition },
}

impl View for Selection {
    type V = Option<(Pos, Pos)>;

    open spec fn view(&self) -> Option<(Pos, Pos)> {
        match *self {
            Selection::Inactive => None,
            Selection::Active { start, end } => Some((start@, end@)),
        }
    }
}

/// One reversible edit, as the history keeps it.
#[derive(Debug)]
pub struct EditRecord {
    /// The first line that the edit touched.
    pub start_line: usize,
    /// The lines that it touched, as they were.
    pub before: Vec<String>,
    /// The lines that took their place.
    pub after: Vec<String>,
    /// Where the cursor stood before the edit.
    pub cursor_before: CursorPosition,
    /// Where the cursor stood after the edit.
    pub cursor_after: CursorPosition,
}

impl DeepView for EditRecord {
    type V = RecordModel;

    open spec fn deep_view(&self) -> RecordModel {
        RecordModel {
            start_line: self.start_line as nat,
            before: self.before.deep_view(),
            after: self.after.deep_view(),
            cursor_before: self.cursor_before@,
            cursor_after: self.cursor_after@,
        }
    }
}

/// The in-memory text model of the editing surface.
#[derive(Debug)]
pub struct Editor {
    /// The lines of the document; never none.
    pub editor_content: Vec<String>,
    /// The column of the cursor on screen, with tabs expanded.
    pub visual_cursor_x: u128,
    /// The place of the caret in the document.
    pub cursor: Cursor,
    pub selection: Selection,
    /// The index of the first visible line.
    pub scroll_offset: usize,
    /// The height of the viewport in rows.
    pub viewport_height: usize,
    pub settings: EditorSettings,
    /// The edits that can be taken back, the last one on top.
    pub undo_stack: Vec<EditRecord>,
    /// The edits that were taken back and can be done again.
    pub redo_stack: Vec<EditRecord>,
}

impl View for Editor {
    type V = EditorModel;

    open spec fn view(&self) -> EditorModel {
        EditorModel {
            lines: self.editor_content.deep_view(),
            cursor: self.cursor@,
            selection: self.selection@,
            scroll_offset: self.scroll_offset as nat,
            viewport_height: self.viewport_height as nat,
            tab_width: self.settings.tab_width as nat,
            visual_x: self.visual_cursor_x as nat,
            undo: self.undo_stack.deep_view(),
            redo: self.redo_stack.deep_view(),
        }
    }
}

impl Editor {
    /// An editor on the empty document: one empty line, the cursor at its
    /// start, no selection, nothing to undo.
    pub fn new() -> (e: Editor)
        ensures
            e@.wf(),
            e@.lines == seq![Seq::<char>::empty()],
            e@.cursor == (Pos { x: 0, y: 0 }),
            e@.selection is None,
            e@.scroll_offset == 0,
            e@.viewport_height == 0,
            e@.tab_width == 4,
            e@.undo.len() == 0,
            e@.redo.len() == 0,
    {
        let mut lines: Vec<String> = Vec::new();
        lines.push(String::new());
        let e = Editor {
            editor_content: lines,
            visual_cursor_x: 0,
            cursor: Cursor::new(),
            selection: Selection::Inactive,
            scroll_offset: 0,
            viewport_height: 0,
            settings: EditorSettings::new(),
            undo_stack: Vec::new(),
            redo_stack: Vec::new(),
        };
        assert(e@.lines =~= seq![Seq::<char>::empty()]);
        e
    }

    /// Computes the visual column anew and moves the scroll window just far
    /// enough to show the cursor line.
    pub fn settle(&mut self)
        requires
            old(self)@.cursor.within(old(self)@.lines),
            old(self)@.tab_width > 0,
        ensures
            final(self)@ == old(self)@.settled(),
    {
        let y = self.cursor.y;
        self.visual_cursor_x =
        compute_visual_column(&self.editor_content[y], self.cursor.x, self.settings.tab_width);
        let band = if self.viewport_height >= 2 {
            self.viewport_height - 2
        } else {
            0
        };
        if y < self.scroll_offset {
            self.scroll_offset = y;
        } else if y - self.scroll_offset > band {
            self.scroll_offset = y - band;
        }
    }

    /// Commits the edit that replaces the range `start..end` by `text`.
    pub fn commit(&mut self, start: CursorPosition, end: CursorPosition, text: &Vec<String>)
        requires
            old(self)@.sound(),
            is_range(old(self)@.lines, start@, end@),
            text.len() > 0,
            text_is_clean(text.deep_view()),
        ensures
            final(self)@ == old(self)@.edited(start@, end@, text.deep_view()),
            final(self)@.wf(),
    {
        let ghost was = self@;
        proof {
            lemma_edited_wf(was, start@, end@, text.deep_view());
            lemma_replaced_shape(was.lines, start@, end@, text.deep_view());
        }
        let cursor_before = self.cursor.position();
        let suffix_len = char_count(&self.editor_content[end.y]) - end.x;
        let before = replace_range(&mut self.editor_content, start, end, text);
        let count = text.len();
        let after = clone_lines(&self.editor_content, start.y, count);
        let total = self.editor_content.len();
        assert(start.y + count <= total);
        let y = start.y + (count - 1);
        let x = char_count(&self.editor_content[y]) - suffix_len;
        let cursor_after = CursorPosition { x, y };
        let record = EditRecord { start_line: start.y, before, after, cursor_before, cursor_after };
        assert(record.deep_view() == was.record_of(start@, end@, text.deep_view()));
        self.undo_stack.push(record);
        self.redo_stack.clear();
        self.selection = Selection::Inactive;
        self.cursor.x = x;
        self.cursor.y = y;
        assert(self.undo_stack.deep_view() =~= was.undo.push(
            was.record_of(start@, end@, text.deep_view()),
        ));
        assert(self.redo_stack.deep_view() =~= Seq::<RecordModel>::empty());
        self.settle();
    }
}

} // verus!
