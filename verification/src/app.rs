//! The application surface around the editor: which area is active, the
//! command line, the clipboard, popups, and what is pending.

use crate::clipboard::Clipboard;
use crate::command_line::{clamped_offset, CommandLine};
use crate::editor::Editor;
use crate::errors::{ClipboardError, EditorError, TextSelectionError};
use crate::model::EditorModel;
use crate::popup::{Popup, PopupResult};
use crate::range::clone_lines;
use crate::text::{is_line_terminator, text_is_clean};
use vstd::prelude::*;

verus! {

/// What waits for an answer or for its turn.
#[derive(Debug, PartialEq)]
pub enum PendingState {
    /// Nothing.
    Idle,
    /// A save to this path waits for confirmation.
    Saving(String),
    /// The application is to quit.
    Quitting,
}

/// The area that takes the input.
#[derive(Clone, Copy, Debug, Default, PartialEq, Eq, Structural)]
pub enum ActiveArea {
    /// The document.
    #[default]
    Editor,
    /// The command line.
    CommandLine,
    /// The popup that is open.
    Popup,
}

/// The application.
#[derive(Debug)]
pub struct App {
    /// Is the application running?
    pub running: bool,
    pub active_area: ActiveArea,
    pub editor: Editor,
    pub command_line: CommandLine,
    /// Whether the blinking cursor is shown right now.
    pub cursor_visible: bool,
    /// The height of the terminal in rows, as drawn last.
    pub terminal_height: i16,
    pub clipboard: Clipboard,
    /// The file that the editor was opened on, if any.
    pub file_path: Option<String>,
    /// The popup that is open, if any.
    pub popup: Option<Popup>,
    /// The answer to the popup that was open last.
    pub popup_result: PopupResult,
    /// What waits, first come first.
    pub pending_states: Vec<PendingState>,
}

/// The number of milliseconds after which the cursor blinks.
pub const BLINK_MILLIS: u64 = 500;

impl Default for App {
    /// The application as [`App::new`] makes it.
    fn default() -> (app: App)
        ensures
            !app.running,
            app.active_area == ActiveArea::Editor,
            app.editor@.wf(),
            app.editor@.lines == seq![Seq::<char>::empty()],
            app.editor@.cursor == (crate::cursor::Pos { x: 0, y: 0 }),
            app.editor@.selection is None,
            app.editor@.scroll_offset == 0,
            app.editor@.viewport_height == 0,
            app.editor@.tab_width == 4,
            app.editor@.undo.len() == 0,
            app.editor@.redo.len() == 0,
            app.command_line.input@.len() == 0,
            app.command_line.cursor.x == 0,
            app.command_line.cursor.y == 0,
            app.cursor_visible,
            app.terminal_height == 0,
            app.clipboard.copied_text.deep_view().len() == 0,
            app.file_path is None,
            app.popup is None,
            app.popup_result == PopupResult::Unanswered,
            app.pending_states@.len() == 0,
    {
        App::new()
    }
}

impl App {
    /// Whether two applications differ in their editors at most.
    pub open spec fn same_around_editor(self, other: App) -> bool {
        &&& self.running == other.running
        &&& self.active_area == other.active_area
        &&& self.command_line == other.command_line
        &&& self.cursor_visible == other.cursor_visible
        &&& self.terminal_height == other.terminal_height
        &&& self.clipboard == other.clipboard
        &&& self.file_path == other.file_path
        &&& self.popup == other.popup
        &&& self.popup_result == other.popup_result
        &&& self.pending_states == other.pending_states
    }

    /// Construct a new instance of [`App`]: not running, the editor active
    /// on the empty document with nothing to undo or redo, an empty command
    /// line and clipboard, no file, no popup, nothing pending.
    pub fn new() -> (app: App)
        ensures
            !app.running,
            app.active_area == ActiveArea::Editor,
            app.editor@.wf(),
            app.editor@.lines == seq![Seq::<char>::empty()],
            app.editor@.cursor == (crate::cursor::Pos { x: 0, y: 0 }),
            app.editor@.selection is None,
            app.editor@.scroll_offset == 0,
            app.editor@.viewport_height == 0,
            app.editor@.tab_width == 4,
            app.editor@.undo.len() == 0,
            app.editor@.redo.len() == 0,
            app.command_line.input@.len() == 0,
            app.command_line.cursor.x == 0,
            app.command_line.cursor.y == 0,
            app.cursor_visible,
            app.terminal_height == 0,
            app.clipboard.copied_text.deep_view().len() == 0,
            app.file_path is None,
            app.popup is None,
            app.popup_result == PopupResult::Unanswered,
            app.pending_states@.len() == 0,
    {
        App {
            running: false,
            active_area: ActiveArea::Editor,
            editor: Editor::new(),
            command_line: CommandLine::new(),
            cursor_visible: true,
            terminal_height: 0,
            clipboard: Clipboard::new(),
            file_path: None,
            popup: None,
            popup_result: PopupResult::Unanswered,
            pending_states: Vec::new(),
        }
    }

    /// Starts the application on a file: it runs, the editor is active, and
    /// the document is what `contents` holds, or the empty document where
    /// there is no content.
    pub fn start(&mut self, file_path: Option<String>, contents: Option<String>)
        requires
            old(self).editor@.tab_width > 0,
        ensures
            final(self).editor@.wf(),
            final(self).editor@.lines == match contents {
                Some(text) => crate::document::document_of(text@),
                None => seq![Seq::<char>::empty()],
            },
            final(self).editor@.cursor == (crate::cursor::Pos { x: 0, y: 0 }),
            final(self).editor@.selection is None,
            final(self).editor@.undo.len() == 0,
            final(self).editor@.redo.len() == 0,
            final(self).editor@.viewport_height == old(self).editor@.viewport_height,
            final(self).editor@.tab_width == old(self).editor@.tab_width,
            final(self).same_around_editor(
                App {
                    running: true,
                    active_area: ActiveArea::Editor,
                    file_path: file_path,
                    ..*old(self)
                },
            ),
    {
        self.running = true;
        self.active_area = ActiveArea::Editor;
        self.file_path = file_path;
        match contents {
            Some(text) => {
                self.editor.load(text.as_str());
            },
            None => {
                proof {
                    reveal_strlit("");
                }
                self.editor.load("");
                assert(crate::document::lines_of(""@).len() == 0);
            },
        }
    }

    /// The blink of the cursor: once `elapsed_millis` since the last blink
    /// reach half a second, the cursor changes between shown and hidden.
    /// Tells whether it did.
    pub fn on_tick(&mut self, elapsed_millis: u64) -> (blinked: bool)
        ensures
            blinked == (elapsed_millis >= BLINK_MILLIS),
            final(self).cursor_visible == (old(self).cursor_visible != blinked),
            final(self).editor == old(self).editor,
            final(self).same_around_editor(
                App { cursor_visible: final(self).cursor_visible, ..*old(self) },
            ),
    {
        if elapsed_millis >= BLINK_MILLIS {
            self.cursor_visible = !self.cursor_visible;
            true
        } else {
            false
        }
    }

    /// Takes the height of the terminal as the height of the viewport; a
    /// negative height counts as none.
    pub fn set_terminal_height(&mut self, height: i16)
        requires
            old(self).editor@.wf(),
        ensures
            final(self).terminal_height == height,
            final(self).editor@ == (EditorModel {
                viewport_height: if height < 0 {
                    0nat
                } else {
                    height as nat
                },
                ..old(self).editor@
            }).settled(),
            final(self).editor@.wf(),
            final(self).same_around_editor(App { terminal_height: height, ..*old(self) }),
    {
        self.terminal_height = height;
        let rows = if height < 0 {
            0
        } else {
            height as usize
        };
        self.editor.resize(rows);
    }

    /// Whether text is selected in the editor.
    pub fn is_text_selected(&self) -> (b: bool)
        ensures
            b == (self.editor@.selection is Some),
    {
        self.editor.is_text_selected()
    }

    /// Writes `c` over the selection if there is one, and at the cursor if
    /// there is none. Without a selection the cursor may stand outside the
    /// document: the write makes room for it.
    pub fn write_all_char_in_editor(&mut self, c: char)
        requires
            old(self).editor@.sound(),
            old(self).editor@.selection is Some ==> old(self).editor@.has_valid_selection(),
            !is_line_terminator(c),
        ensures
            final(self).editor@ == if old(self).editor@.selection is Some {
                old(self).editor@.write_char_selected(c)
            } else {
                old(self).editor@.write_char(c)
            },
            final(self).editor@.wf(),
            final(self).same_around_editor(*old(self)),
    {
        if self.is_text_selected() {
            self.write_char_in_editor_text_is_selected(c)
        } else {
            self.write_char_in_editor(c)
        }
    }

    /// Replaces the selected text by `c`.
    pub fn write_char_in_editor_text_is_selected(&mut self, c: char)
        requires
            old(self).editor@.sound(),
            old(self).editor@.has_valid_selection(),
            !is_line_terminator(c),
        ensures
            final(self).editor@ == old(self).editor@.write_char_selected(c),
            final(self).editor@.wf(),
            final(self).same_around_editor(*old(self)),
    {
        self.editor.write_char_text_is_selected(c);
    }

    /// Writes `c` at the cursor.
    pub fn write_char_in_editor(&mut self, c: char)
        requires
            old(self).editor@.sound(),
            !is_line_terminator(c),
        ensures
            final(self).editor@ == old(self).editor@.write_char(c),
            final(self).editor@.wf(),
            final(self).same_around_editor(*old(self)),
    {
        self.editor.write_char(c);
    }

    /// Backspace over the selection if there is one, and at the cursor if
    /// there is none.
    pub fn backspace_all_in_editor(&mut self)
        requires
            old(self).editor@.sound(),
            old(self).editor@.selection is Some ==> old(self).editor@.has_valid_selection(),
            old(self).editor@.selection is None ==> old(self).editor@.placed(),
        ensures
            final(self).editor@ == if old(self).editor@.selection is Some {
                old(self).editor@.backspace_selected()
            } else {
                old(self).editor@.backspace()
            },
            final(self).editor@.wf(),
            final(self).same_around_editor(*old(self)),
    {
        if self.is_text_selected() {
            self.backspace_in_editor_text_is_selected();
        } else {
            self.backspace_in_editor();
        }
    }

    /// Removes the selected text.
    pub fn backspace_in_editor_text_is_selected(&mut self)
        requires
            old(self).editor@.sound(),
            old(self).editor@.has_valid_selection(),
        ensures
            final(self).editor@ == old(self).editor@.backspace_selected(),
            final(self).editor@.wf(),
            final(self).same_around_editor(*old(self)),
    {
        self.editor.backspace_text_is_selected();
    }

    /// Removes the character before the cursor.
    pub fn backspace_in_editor(&mut self)
        requires
            old(self).editor@.wf(),
        ensures
            final(self).editor@ == old(self).editor@.backspace(),
            final(self).editor@.wf(),
            final(self).same_around_editor(*old(self)),
    {
        self.editor.backspace_in_editor();
    }

    /// Delete over the selection if there is one, and at the cursor if there
    /// is none.
    pub fn delete_all_in_editor(&mut self)
        requires
            old(self).editor@.sound(),
            old(self).editor@.selection is Some ==> old(self).editor@.has_valid_selection(),
            old(self).editor@.selection is None ==> old(self).editor@.placed(),
        ensures
            final(self).editor@ == if old(self).editor@.selection is Some {
                old(self).editor@.delete_selected()
            } else {
                old(self).editor@.delete()
            },
            final(self).editor@.wf(),
            final(self).same_around_editor(*old(self)),
    {
        if self.is_text_selected() {
            self.delete_in_editor_text_is_selected();
        } else {
            self.delete_in_editor();
        }
    }

    /// Blanks the selected text.
    pub fn delete_in_editor_text_is_selected(&mut self)
        requires
            old(self).editor@.sound(),
            old(self).editor@.has_valid_selection(),
        ensures
            final(self).editor@ == old(self).editor@.delete_selected(),
            final(self).editor@.wf(),
            final(self).same_around_editor(*old(self)),
    {
        self.editor.delete_text_is_selected()
    }

    /// Removes the character at the cursor.
    pub fn delete_in_editor(&mut self)
        requires
            old(self).editor@.wf(),
        ensures
            final(self).editor@ == old(self).editor@.delete(),
            final(self).editor@.wf(),
            final(self).same_around_editor(*old(self)),
    {
        self.editor.delete_in_editor();
    }

    /// Writes a tab at the cursor.
    pub fn tab_in_editor(&mut self)
        requires
            old(self).editor@.sound(),
        ensures
            final(self).editor@ == old(self).editor@.write_char('\t'),
            final(self).editor@.wf(),
            final(self).same_around_editor(*old(self)),
    {
        self.editor.tab();
    }

    /// Breaks the line at the cursor.
    pub fn enter_in_editor(&mut self)
        requires
            old(self).editor@.wf(),
        ensures
            final(self).editor@ == old(self).editor@.enter(),
            final(self).editor@.wf(),
            final(self).same_around_editor(*old(self)),
    {
        self.editor.enter();
    }

    /// Writes `c` into the command line at its cursor and moves the cursor
    /// behind it.
    pub fn write_char_to_command_line(&mut self, c: char)
        ensures
            final(self).command_line.input@ == old(self).command_line.input@.insert(
                clamped_offset(
                    old(self).command_line.cursor.x as int,
                    0,
                    old(self).command_line.input@.len() as int,
                ),
                c,
            ),
            final(self).command_line.cursor.x == clamped_offset(
                old(self).command_line.cursor.x as int,
                0,
                old(self).command_line.input@.len() as int,
            ) + 1,
            final(self).command_line.cursor.y == old(self).command_line.cursor.y,
            final(self).editor == old(self).editor,
            final(self).same_around_editor(
                App { command_line: final(self).command_line, ..*old(self) },
            ),
    {
        self.command_line.write_char(c);
    }

    /// Removes the character before the cursor of the command line.
    pub fn backspace_on_command_line(&mut self)
        ensures
            0 < old(self).command_line.cursor.x <= old(self).command_line.input@.len() ==> final(self).command_line.input@ == old(self).command_line.input@.remove(
                old(self).command_line.cursor.x - 1,
            ) && final(self).command_line.cursor.x == old(self).command_line.cursor.x - 1,
            !(0 < old(self).command_line.cursor.x <= old(self).command_line.input@.len())
                ==> final(self).command_line.input@ == old(self).command_line.input@ && final(self).command_line.cursor.x == old(self).command_line.cursor.x,
            final(self).command_line.cursor.y == old(self).command_line.cursor.y,
            final(self).editor == old(self).editor,
            final(self).same_around_editor(
                App { command_line: final(self).command_line, ..*old(self) },
            ),
    {
        self.command_line.backspace();
    }

    /// Moves the cursor of the command line by `x` characters, within the
    /// input.
    pub fn move_cursor_in_command_line(&mut self, x: i16)
        ensures
            final(self).command_line.input == old(self).command_line.input,
            final(self).command_line.cursor.y == old(self).command_line.cursor.y,
            final(self).command_line.cursor.x == clamped_offset(
                old(self).command_line.cursor.x as int,
                x as int,
                old(self).command_line.input@.len() as int,
            ),
            final(self).editor == old(self).editor,
            final(self).same_around_editor(
                App { command_line: final(self).command_line, ..*old(self) },
            ),
    {
        self.command_line.move_cursor(x);
    }

    /// Moves the cursor of the editor. With shift held the motion extends
    /// the selection; without, it clears the selection.
    pub fn move_all_cursor_editor(&mut self, x: i16, y: i16, shift_held: bool)
        requires
            old(self).editor@.wf(),
        ensures
            final(self).editor@ == if shift_held {
                old(self).editor@.moved_selecting(x as int, y as int)
            } else {
                EditorModel { selection: None, ..old(self).editor@.moved(x as int, y as int) }
            },
            final(self).editor@.wf(),
            final(self).same_around_editor(*old(self)),
    {
        if shift_held {
            self.move_selection_cursor(x, y);
        } else {
            self.move_cursor_in_editor(x, y);
            self.editor.clear_selection();
        }
    }

    /// Moves the cursor of the editor and computes its visual column anew.
    pub fn move_cursor_in_editor(&mut self, x: i16, y: i16)
        requires
            old(self).editor@.wf(),
        ensures
            final(self).editor@ == old(self).editor@.moved(x as int, y as int),
            final(self).editor@.wf(),
            final(self).same_around_editor(*old(self)),
    {
        self.editor.move_cursor(x, y);
    }

    /// Moves the cursor of the editor and extends the selection.
    pub fn move_selection_cursor(&mut self, x: i16, y: i16)
        requires
            old(self).editor@.wf(),
        ensures
            final(self).editor@ == old(self).editor@.moved_selecting(x as int, y as int),
            final(self).editor@.wf(),
            final(self).same_around_editor(*old(self)),
    {
        self.editor.move_selection_cursor(x, y);
    }

    /// Moves the scroll window of the editor.
    pub fn move_scroll_offset(&mut self, offset: i16)
        requires
            old(self).editor@.wf(),
        ensures
            final(self).editor@ == old(self).editor@.scrolled_by(offset as int),
            final(self).editor@.wf(),
            final(self).same_around_editor(*old(self)),
    {
        self.editor.move_scroll_offset(offset);
    }

    /// Toggles the active area between the editor and the command line. With
    /// a popup active nothing changes.
    pub fn toggle_active_area(&mut self)
        ensures
            final(self).active_area == match old(self).active_area {
                ActiveArea::Editor => ActiveArea::CommandLine,
                ActiveArea::CommandLine => ActiveArea::Editor,
                ActiveArea::Popup => ActiveArea::Popup,
            },
            final(self).editor == old(self).editor,
            final(self).same_around_editor(
                App { active_area: final(self).active_area, ..*old(self) },
            ),
    {
        match self.active_area {
            ActiveArea::Editor => {
                self.active_area = ActiveArea::CommandLine;
            },
            ActiveArea::CommandLine => {
                self.active_area = ActiveArea::Editor;
            },
            _ => {},
        }
    }

    /// Closes the error popup once it was acknowledged.
    pub fn handle_error_popup_response(&mut self)
        ensures
            final(self).editor == old(self).editor,
            old(self).popup_result == PopupResult::Affirmed ==> final(self).popup is None
                && final(self).active_area == ActiveArea::Editor && final(self).same_around_editor(
                App { popup: None, active_area: ActiveArea::Editor, ..*old(self) },
            ),
            old(self).popup_result != PopupResult::Affirmed ==> final(self).same_around_editor(
                *old(self),
            ),
    {
        if self.popup_result == PopupResult::Affirmed {
            self.close_popup();
        }
    }

    /// Opens `popup`: it becomes the popup shown and takes the input.
    pub fn open_popup(&mut self, popup: Popup)
        ensures
            final(self).popup == Some(popup),
            final(self).active_area == ActiveArea::Popup,
            final(self).editor == old(self).editor,
            final(self).same_around_editor(
                App { popup: Some(popup), active_area: ActiveArea::Popup, ..*old(self) },
            ),
    {
        self.popup = Some(popup);
        self.active_area = ActiveArea::Popup;
    }

    /// Closes the popup: none is shown, and the editor takes the input.
    pub fn close_popup(&mut self)
        ensures
            final(self).popup is None,
            final(self).active_area == ActiveArea::Editor,
            final(self).editor == old(self).editor,
            final(self).same_around_editor(
                App { popup: None, active_area: ActiveArea::Editor, ..*old(self) },
            ),
    {
        self.popup = None;
        self.active_area = ActiveArea::Editor;
    }

    /// Quits: the application runs no more.
    pub fn quit(&mut self)
        ensures
            !final(self).running,
            final(self).editor == old(self).editor,
            final(self).same_around_editor(App { running: false, ..*old(self) }),
    {
        self.running = false;
    }

    /// Copies the selected text to the clipboard and clears the selection.
    /// Fails, and changes nothing, if no text is selected or the selection
    /// does not lie in the document.
    pub fn copy_selected_text(&mut self) -> (r: Result<(), EditorError>)
        ensures
            r is Ok <==> old(self).editor@.has_valid_selection(),
            r is Ok ==> final(self).clipboard.copied_text.deep_view() == old(self).editor@.selected_text() && final(self).editor@ == (EditorModel {
                selection: None,
                ..old(self).editor@
            }) && final(self).same_around_editor(
                App { clipboard: final(self).clipboard, ..*old(self) },
            ),
            r matches Err(e) ==> final(self).editor@ == old(self).editor@ && final(self).same_around_editor(*old(self)) && e == EditorError::TextSelectionError(
                if old(self).editor@.selection is None {
                    TextSelectionError::NoSelection
                } else {
                    TextSelectionError::InvalidRange
                },
            ),
    {
        match self.editor.copy_selected_text() {
            Ok(selected_text) => {
                self.clipboard.copy(&selected_text);
                self.editor.clear_selection();
                Ok(())
            },
            Err(e) => Err(EditorError::TextSelectionError(e)),
        }
    }

    /// Cuts the selected text to the clipboard. Fails as copy does.
    pub fn cut_selected_text(&mut self) -> (r: Result<(), EditorError>)
        requires
            old(self).editor@.sound(),
        ensures
            r is Ok <==> old(self).editor@.has_valid_selection(),
            r is Ok ==> final(self).clipboard.copied_text.deep_view() == old(self).editor@.selected_text() && final(self).editor@ == old(self).editor@.backspace_selected() && final(self).editor@.wf() && final(self).same_around_editor(App { clipboard: final(self).clipboard, ..*old(self) }),
            r matches Err(e) ==> final(self).editor@ == old(self).editor@ && final(self).same_around_editor(*old(self)) && e == EditorError::TextSelectionError(
                if old(self).editor@.selection is None {
                    TextSelectionError::NoSelection
                } else {
                    TextSelectionError::InvalidRange
                },
            ),
    {
        match self.editor.cut_selected_text() {
            Ok(selected_text) => {
                self.clipboard.copy(&selected_text);
                Ok(())
            },
            Err(e) => Err(EditorError::TextSelectionError(e)),
        }
    }

    /// Pastes the text of the clipboard at the cursor. An empty clipboard
    /// changes nothing. Fails, and changes nothing, if the cursor lies
    /// outside the document or the clipboard holds a line terminator.
    pub fn paste_selected_text(&mut self) -> (r: Result<(), EditorError>)
        requires
            old(self).editor@.sound(),
        ensures
            r is Ok <==> old(self).clipboard.copied_text.len() == 0 || (old(self).editor@.cursor.within(old(self).editor@.lines) && text_is_clean(
                old(self).clipboard.copied_text.deep_view(),
            )),
            r is Ok ==> final(self).editor@ == old(self).editor@.paste(
                old(self).clipboard.copied_text.deep_view(),
            ),
            r is Ok && old(self).clipboard.copied_text.len() > 0 ==> final(self).editor@.wf(),
            r matches Err(e) ==> final(self).editor@ == old(self).editor@ && e
                == EditorError::ClipboardError(
                if old(self).editor@.cursor.within(old(self).editor@.lines) {
                    ClipboardError::MalformedPayload
                } else {
                    ClipboardError::CursorOutOfRange
                },
            ),
            final(self).same_around_editor(*old(self)),
    {
        let count = self.clipboard.copied_text.len();
        let payload = clone_lines(&self.clipboard.copied_text, 0, count);
        assert(payload.deep_view() =~= self.clipboard.copied_text.deep_view());
        match self.editor.paste_selected_text(payload) {
            Ok(()) => Ok(()),
            Err(e) => Err(EditorError::ClipboardError(e)),
        }
    }

    /// Takes the last edit back.
    pub fn undo_in_editor(&mut self) -> (r: Result<(), EditorError>)
        requires
            old(self).editor@.sound(),
        ensures
            r is Ok <==> old(self).editor@.undo.len() > 0,
            r is Ok ==> final(self).editor@ == old(self).editor@.undone() && final(self).editor@.wf(),
            r matches Err(e) ==> final(self).editor@ == old(self).editor@ && e
                == EditorError::UndoError(crate::errors::UndoError),
            final(self).same_around_editor(*old(self)),
    {
        match self.editor.undo() {
            Ok(()) => Ok(()),
            Err(e) => Err(EditorError::UndoError(e)),
        }
    }

    /// Does the edit again that was taken back last.
    pub fn redo_in_editor(&mut self) -> (r: Result<(), EditorError>)
        requires
            old(self).editor@.sound(),
        ensures
            r is Ok <==> old(self).editor@.redo.len() > 0,
            r is Ok ==> final(self).editor@ == old(self).editor@.redone() && final(self).editor@.wf(),
            r matches Err(e) ==> final(self).editor@ == old(self).editor@ && e
                == EditorError::RedoError(crate::errors::RedoError),
            final(self).same_around_editor(*old(self)),
    {
        match self.editor.redo() {
            Ok(()) => Ok(()),
            Err(e) => Err(EditorError::RedoError(e)),
        }
    }
}

} // verus!
