//! The clipboard payload, and the editor's copy, cut and paste.

use crate::editor::Editor;
use crate::errors::{ClipboardError, TextSelectionError};
use crate::range::copy_range;
use crate::text::{check_text_clean, text_is_clean};
use crate::edit::no_text;
use vstd::prelude::*;

verus! {

/// The text that was cut or copied last, as an ordered sequence of lines.
/// Empty means that nothing was copied yet.
#[derive(Debug)]
pub struct Clipboard {
    pub copied_text: Vec<String>,
}

impl Clipboard {
    /// A clipboard that holds nothing.
    pub fn new() -> (c: Clipboard)
        ensures
            c.copied_text.deep_view().len() == 0,
    {
        Clipboard { copied_text: Vec::new() }
    }

    /// Replaces the payload by `text`.
    pub fn copy(&mut self, text: &Vec<String>)
        ensures
            final(self).copied_text.deep_view() == text.deep_view(),
    {
        let mut payload: Vec<String> = Vec::new();
        let mut i: usize = 0;
        while i < text.len()
            invariant
                i <= text.len(),
                payload.len() == i,
                forall|j: int| 0 <= j < i ==> #[trigger] payload@[j]@ == text@[j]@,
            decreases text.len() - i,
        {
            payload.push(text[i].clone());
            i = i + 1;
        }
        assert(payload.deep_view() =~= text.deep_view());
        self.copied_text = payload;
    }
}

impl Editor {
    /// Copy: the text of the selection in document order. The editor does not
    /// change. Fails if no selection is active, and if an endpoint of the
    /// selection lies outside the document.
    pub fn copy_selected_text(&self) -> (r: Result<Vec<String>, TextSelectionError>)
        ensures
            r is Ok <==> self@.has_valid_selection(),
            r matches Ok(text) ==> text.deep_view() == self@.selected_text(),
            r matches Err(e) ==> (e == TextSelectionError::NoSelection <==> self@.selection
                is None),
    {
        if !self.is_text_selected() {
            return Err(TextSelectionError::NoSelection);
        }
        match self.normalized_selection() {
            Some((start, end)) => Ok(copy_range(&self.editor_content, start, end)),
            None => Err(TextSelectionError::InvalidRange),
        }
    }

    /// Cut: copies the selection and removes it, as backspace over the
    /// selection does. Fails as copy does, and then changes nothing.
    pub fn cut_selected_text(&mut self) -> (r: Result<Vec<String>, TextSelectionError>)
        requires
            old(self)@.sound(),
        ensures
            r is Ok <==> old(self)@.has_valid_selection(),
            r matches Ok(text) ==> text.deep_view() == old(self)@.selected_text() && final(self)@
                == old(self)@.backspace_selected() && final(self)@.wf(),
            r matches Err(e) ==> final(self)@ == old(self)@ && (e
                == TextSelectionError::NoSelection <==> old(self)@.selection is None),
    {
        if !self.is_text_selected() {
            return Err(TextSelectionError::NoSelection);
        }
        match self.normalized_selection() {
            Some((start, end)) => {
                let text = copy_range(&self.editor_content, start, end);
                let nothing = no_text();
                self.commit(start, end, &nothing);
                Ok(text)
            },
            None => Err(TextSelectionError::InvalidRange),
        }
    }

    /// Paste: sets the payload in at the cursor and moves the cursor behind
    /// it. A payload of one line goes into the cursor line; of a payload of
    /// more lines the first follows what stands before the cursor, the last
    /// is followed by what stood behind it, and the lines between come
    /// between them. An empty payload changes nothing. Fails, and changes
    /// nothing, if the cursor lies outside the document or a line of the
    /// payload holds a line terminator.
    pub fn paste_selected_text(&mut self, copied_text: Vec<String>) -> (r: Result<
        (),
        ClipboardError,
    >)
        requires
            old(self)@.sound(),
        ensures
            r is Ok <==> copied_text.len() == 0 || (old(self)@.cursor.within(old(self)@.lines)
                && text_is_clean(copied_text.deep_view())),
            r is Ok ==> final(self)@ == old(self)@.paste(copied_text.deep_view()),
            r is Ok && copied_text.len() > 0 ==> final(self)@.wf(),
            r matches Err(e) ==> final(self)@ == old(self)@ && (e
                == ClipboardError::CursorOutOfRange <==> !old(self)@.cursor.within(
                old(self)@.lines,
            )),
    {
        if copied_text.len() == 0 {
            return Ok(());
        }
        let at = self.cursor.position();
        if !self.holds(at) {
            return Err(ClipboardError::CursorOutOfRange);
        }
        if !check_text_clean(&copied_text) {
            return Err(ClipboardError::MalformedPayload);
        }
        self.commit(at, at, &copied_text);
        Ok(())
    }
}

} // verus!
