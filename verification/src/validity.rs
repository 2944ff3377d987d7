//! Checking the invariant of an editor at run time, for callers that build
//! or change an editor by its fields.

use crate::editor::{EditRecord, Editor, Selection};
use crate::text::{check_text_clean, compute_visual_column};
use vstd::prelude::*;

verus! {

/// Whether a record is sound.
pub fn record_is_sound(record: &EditRecord) -> (b: bool)
    ensures
        b == record.deep_view().sound(),
{
    record.before.len() > 0 && record.after.len() > 0 && check_text_clean(&record.before)
        && check_text_clean(&record.after)
}

/// Whether every record of a stack is sound.
pub fn records_are_sound(records: &Vec<EditRecord>) -> (b: bool)
    ensures
        b == forall|i: int|
            0 <= i < records.deep_view().len() ==> (#[trigger] records.deep_view()[i]).sound(),
{
    let mut i: usize = 0;
    while i < records.len()
        invariant
            i <= records.len(),
            forall|j: int| 0 <= j < i ==> (#[trigger] records.deep_view()[j]).sound(),
        decreases records.len() - i,
    {
        if !record_is_sound(&records[i]) {
            assert(!records.deep_view()[i as int].sound());
            return false;
        }
        i = i + 1;
    }
    true
}

impl Editor {
    /// Whether the tab width is positive, no line holds a line terminator
    /// and the history is sound.
    pub fn is_sound(&self) -> (b: bool)
        ensures
            b == self@.sound(),
    {
        if self.settings.tab_width == 0 {
            return false;
        }
        if !check_text_clean(&self.editor_content) {
            return false;
        }
        let undo_sound = records_are_sound(&self.undo_stack);
        let redo_sound = records_are_sound(&self.redo_stack);
        assert(self@.undo == self.undo_stack.deep_view());
        assert(self@.redo == self.redo_stack.deep_view());
        undo_sound && redo_sound
    }

    /// Whether the cursor, the selection, the scroll window and the visual
    /// column fit the document.
    pub fn is_placed(&self) -> (b: bool)
        requires
            self@.tab_width > 0,
        ensures
            b == self@.placed(),
    {
        if self.editor_content.len() == 0 || !self.holds(self.cursor.position()) {
            return false;
        }
        let selection_fits = match self.selection {
            Selection::Inactive => true,
            Selection::Active { start, end } => self.holds(start) && self.holds(end),
        };
        if !selection_fits {
            return false;
        }
        let room = if self.viewport_height >= 2 {
            self.viewport_height - 2
        } else {
            0
        };
        if self.cursor.y < self.scroll_offset || self.cursor.y - self.scroll_offset > room {
            return false;
        }
        let column = compute_visual_column(
            &self.editor_content[self.cursor.y],
            self.cursor.x,
            self.settings.tab_width,
        );
        self.visual_cursor_x == column
    }

    /// Whether the editor meets its invariant.
    pub fn is_well_formed(&self) -> (b: bool)
        ensures
            b == self@.wf(),
    {
        self.is_sound() && self.is_placed()
    }
}

} // verus!
