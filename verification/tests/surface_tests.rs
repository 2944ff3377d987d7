use textedit::app::{ActiveArea, App, PendingState};
use textedit::clipboard::Clipboard;
use textedit::command_line::CommandLine;
use textedit::cursor::CursorPosition;
use textedit::editor::Selection;
use textedit::errors::{
    AppError, ClipboardError, EditorError, RedoError, TextSelectionError, UndoError,
};
use textedit::popup::{ConfirmationPopup, ErrorPopup, Popup, PopupResult};
use textedit::saving::SaveAction;

fn app_on(text: &str) -> App {
    let mut app = App::new();
    app.start(None, Some(text.to_string()));
    app
}

fn texts(lines: &[&str]) -> Vec<String> {
    lines.iter().map(|s| s.to_string()).collect()
}

fn mark(app: &mut App, from: (usize, usize), to: (usize, usize)) {
    app.editor.selection = Selection::Active {
        start: CursorPosition::new(from.0, from.1),
        end: CursorPosition::new(to.0, to.1),
    };
}

#[test]
fn new_app_has_its_defaults() {
    let app = App::new();
    assert!(!app.running);
    assert_eq!(app.active_area, ActiveArea::Editor);
    assert!(app.cursor_visible);
    assert_eq!(app.terminal_height, 0);
    assert!(app.clipboard.copied_text.is_empty());
    assert!(app.file_path.is_none());
    assert!(app.popup.is_none());
    assert_eq!(app.popup_result, PopupResult::Unanswered);
    assert!(app.pending_states.is_empty());
    assert_eq!(app.editor.editor_content, texts(&[""]));
    let other = App::default();
    assert_eq!(other.active_area, ActiveArea::Editor);
    assert_eq!(ActiveArea::default(), ActiveArea::Editor);
}

#[test]
fn start_without_content_is_the_empty_document() {
    let mut app = App::new();
    app.start(Some("notes.txt".to_string()), None);
    assert!(app.running);
    assert_eq!(app.file_path, Some("notes.txt".to_string()));
    assert_eq!(app.editor.editor_content, texts(&[""]));
}

#[test]
fn blink_after_half_a_second() {
    let mut app = App::new();
    assert!(!app.on_tick(499));
    assert!(app.cursor_visible);
    assert!(app.on_tick(500));
    assert!(!app.cursor_visible);
    assert!(app.on_tick(1200));
    assert!(app.cursor_visible);
}

#[test]
fn toggle_with_popup_active_changes_nothing() {
    let mut app = App::new();
    app.open_popup(Popup::Confirmation(ConfirmationPopup::new("sure?")));
    assert_eq!(app.active_area, ActiveArea::Popup);
    app.toggle_active_area();
    assert_eq!(app.active_area, ActiveArea::Popup);
    app.close_popup();
    assert_eq!(app.active_area, ActiveArea::Editor);
    assert!(app.popup.is_none());
}

#[test]
fn error_popup_closes_once_acknowledged() {
    let mut app = App::new();
    let popup = ErrorPopup::new("failed", AppError::InternalError("e".to_string()));
    app.open_popup(Popup::Error(popup));
    app.handle_error_popup_response();
    assert!(app.popup.is_some());
    app.popup_result = PopupResult::Affirmed;
    app.handle_error_popup_response();
    assert!(app.popup.is_none());
    assert_eq!(app.active_area, ActiveArea::Editor);
}

#[test]
fn write_all_takes_the_selection_if_there_is_one() {
    let mut app = app_on("Hello Denmark");
    app.write_all_char_in_editor('>');
    assert_eq!(app.editor.editor_content, texts(&[">Hello Denmark"]));
    mark(&mut app, (7, 0), (14, 0));
    app.write_all_char_in_editor('W');
    assert_eq!(app.editor.editor_content, texts(&[">Hello W"]));
    assert!(!app.is_text_selected());
}

#[test]
fn backspace_and_delete_take_the_selection_if_there_is_one() {
    let mut app = app_on("Hello Denmark");
    mark(&mut app, (6, 0), (13, 0));
    app.delete_all_in_editor();
    assert_eq!(app.editor.editor_content, texts(&["Hello        "]));
    mark(&mut app, (5, 0), (13, 0));
    app.backspace_all_in_editor();
    assert_eq!(app.editor.editor_content, texts(&["Hello"]));
    app.backspace_all_in_editor();
    assert_eq!(app.editor.editor_content, texts(&["Hell"]));
    app.move_all_cursor_editor(-4, 0, false);
    app.delete_all_in_editor();
    assert_eq!(app.editor.editor_content, texts(&["ell"]));
    app.tab_in_editor();
    app.enter_in_editor();
    assert_eq!(app.editor.editor_content, texts(&["\t", "ell"]));
}

#[test]
fn motion_without_shift_clears_the_selection() {
    let mut app = app_on("Hello Denmark");
    app.move_all_cursor_editor(1, 0, true);
    app.move_all_cursor_editor(1, 0, true);
    assert!(app.is_text_selected());
    assert_eq!(
        app.editor.selection,
        Selection::Active {
            start: CursorPosition::new(0, 0),
            end: CursorPosition::new(2, 0)
        }
    );
    app.move_all_cursor_editor(1, 0, false);
    assert!(!app.is_text_selected());
    assert_eq!(app.editor.cursor.x, 3);
}

#[test]
fn copy_fills_the_clipboard_and_clears_the_selection() {
    let mut app = app_on("Hello Denmark");
    mark(&mut app, (6, 0), (13, 0));
    assert_eq!(app.copy_selected_text(), Ok(()));
    assert_eq!(app.clipboard.copied_text, texts(&["Denmark"]));
    assert!(!app.is_text_selected());
    assert_eq!(app.editor.editor_content, texts(&["Hello Denmark"]));
    assert_eq!(app.paste_selected_text(), Ok(()));
    assert_eq!(app.editor.editor_content, texts(&["DenmarkHello Denmark"]));
    assert_eq!(app.clipboard.copied_text, texts(&["Denmark"]));
}

#[test]
fn copy_without_selection_reports_a_selection_error() {
    let mut app = app_on("Hello");
    assert_eq!(
        app.copy_selected_text(),
        Err(EditorError::TextSelectionError(
            TextSelectionError::NoSelection
        ))
    );
    assert_eq!(
        app.cut_selected_text(),
        Err(EditorError::TextSelectionError(
            TextSelectionError::NoSelection
        ))
    );
    mark(&mut app, (0, 0), (6, 0));
    assert_eq!(
        app.copy_selected_text(),
        Err(EditorError::TextSelectionError(
            TextSelectionError::InvalidRange
        ))
    );
    assert!(app.clipboard.copied_text.is_empty());
}

#[test]
fn cut_then_paste_through_the_clipboard() {
    let mut app = app_on("test\nHello Denmark\nHello Sudetenland");
    mark(&mut app, (6, 1), (13, 2));
    assert_eq!(app.cut_selected_text(), Ok(()));
    assert_eq!(app.editor.editor_content, texts(&["test", "Hello land"]));
    assert_eq!(
        app.clipboard.copied_text,
        texts(&["Denmark", "Hello Sudeten"])
    );
    assert_eq!(app.paste_selected_text(), Ok(()));
    assert_eq!(
        app.editor.editor_content,
        texts(&["test", "Hello Denmark", "Hello Sudetenland"])
    );
}

#[test]
fn paste_reports_a_clipboard_error() {
    let mut app = app_on("Hello");
    app.clipboard.copied_text = texts(&["bad\n"]);
    assert_eq!(
        app.paste_selected_text(),
        Err(EditorError::ClipboardError(
            ClipboardError::MalformedPayload
        ))
    );
    app.clipboard.copied_text = texts(&["good"]);
    app.editor.cursor.y = 9;
    assert_eq!(
        app.paste_selected_text(),
        Err(EditorError::ClipboardError(
            ClipboardError::CursorOutOfRange
        ))
    );
    assert_eq!(app.editor.editor_content, texts(&["Hello"]));
}

#[test]
fn paste_from_an_empty_clipboard_changes_nothing() {
    let mut app = app_on("Hello");
    assert_eq!(app.paste_selected_text(), Ok(()));
    assert_eq!(app.editor.editor_content, texts(&["Hello"]));
}

#[test]
fn undo_and_redo_report_their_errors() {
    let mut app = app_on("Hello");
    assert_eq!(
        app.undo_in_editor(),
        Err(EditorError::UndoError(UndoError))
    );
    assert_eq!(
        app.redo_in_editor(),
        Err(EditorError::RedoError(RedoError))
    );
    app.write_char_in_editor('x');
    assert_eq!(app.undo_in_editor(), Ok(()));
    assert_eq!(app.editor.editor_content, texts(&["Hello"]));
    assert_eq!(app.redo_in_editor(), Ok(()));
    assert_eq!(app.editor.editor_content, texts(&["xHello"]));
}

#[test]
fn terminal_height_sets_the_viewport() {
    let mut app = app_on("0\n1\n2\n3\n4\n5");
    app.set_terminal_height(4);
    assert_eq!(app.editor.viewport_height, 4);
    app.move_cursor_in_editor(0, 5);
    assert_eq!(app.editor.scroll_offset, 3);
    app.move_scroll_offset(-3);
    assert_eq!(app.editor.scroll_offset, 0);
    assert_eq!(app.editor.cursor.y, 2);
    app.set_terminal_height(-3);
    assert_eq!(app.editor.viewport_height, 0);
    assert_eq!(app.editor.scroll_offset, 2);
}

#[test]
fn clipboard_keeps_the_last_copy() {
    let mut clipboard = Clipboard::new();
    assert!(clipboard.copied_text.is_empty());
    clipboard.copy(&texts(&["one", "two"]));
    clipboard.copy(&texts(&["three"]));
    assert_eq!(clipboard.copied_text, texts(&["three"]));
}

#[test]
fn command_line_cursor_stays_in_the_input() {
    let mut line = CommandLine::new();
    line.input = "save".to_string();
    line.move_cursor(3);
    assert_eq!(line.cursor.x, 3);
    line.move_cursor(5);
    assert_eq!(line.cursor.x, 4);
    line.move_cursor(-1);
    assert_eq!(line.cursor.x, 3);
    line.move_cursor(-9);
    assert_eq!(line.cursor.x, 0);
    line.cursor.x = 30;
    line.move_cursor(-2);
    assert_eq!(line.cursor.x, 4);
}

#[test]
fn command_line_counts_scalar_values() {
    let mut app = App::new();
    app.command_line.input = "aé𝄞".to_string();
    app.command_line.cursor.x = 2;
    app.write_char_to_command_line('ß');
    assert_eq!(app.command_line.input, "aéß𝄞");
    assert_eq!(app.command_line.cursor.x, 3);
    app.move_cursor_in_command_line(1);
    app.backspace_on_command_line();
    assert_eq!(app.command_line.input, "aéß");
}

#[test]
fn command_line_cursor_behind_the_end() {
    let mut app = App::new();
    app.command_line.input = "ab".to_string();
    app.command_line.cursor.x = 9;
    app.backspace_on_command_line();
    assert_eq!(app.command_line.input, "ab");
    assert_eq!(app.command_line.cursor.x, 9);
    app.write_char_to_command_line('c');
    assert_eq!(app.command_line.input, "abc");
    assert_eq!(app.command_line.cursor.x, 3);
}

#[test]
fn save_target_follows_the_arguments() {
    let mut app = app_on("text");
    let target = app.save_target(&texts(&[]));
    assert_eq!(target.path, "untitled");
    assert!(!target.is_current_file && !target.force && target.may_ask);
    app.file_path = Some("notes.txt".to_string());
    let target = app.save_target(&texts(&[]));
    assert_eq!(target.path, "notes.txt");
    assert!(target.is_current_file);
    let target = app.save_target(&texts(&["other.txt", "--force"]));
    assert_eq!(target.path, "other.txt");
    assert!(!target.is_current_file && target.force);
    app.popup_result = PopupResult::Bool(true);
    let target = app.save_target(&texts(&["other.txt"]));
    assert!(!target.force && !target.may_ask);
}

#[test]
fn save_writes_what_differs_from_disk() {
    let mut app = app_on("Test content");
    let target = app.save_target(&texts(&["out.txt", "--force"]));
    match app.save(target, Some("old".to_string())) {
        SaveAction::Write {
            path,
            content,
            create_directory,
        } => {
            assert_eq!(path, "out.txt");
            assert_eq!(content, "Test content");
            assert!(!create_directory);
        }
        other => panic!("unexpected {:?}", other),
    }
    let target = app.save_target(&texts(&["new.txt"]));
    assert!(matches!(
        app.save(target, None),
        SaveAction::Write {
            create_directory: true,
            ..
        }
    ));
    assert!(app.pending_states.is_empty());
}

#[test]
fn save_of_unchanged_content_writes_nothing() {
    let mut app = app_on("Unchanged content");
    app.file_path = Some("same.txt".to_string());
    let target = app.save_target(&texts(&[]));
    assert!(matches!(
        app.save(target, Some("Unchanged content".to_string())),
        SaveAction::Nothing {
            create_directory: false
        }
    ));
    let mut empty = App::new();
    let target = empty.save_target(&texts(&["dir/none.txt"]));
    assert!(matches!(
        empty.save(target, None),
        SaveAction::Nothing {
            create_directory: true
        }
    ));
}

#[test]
fn save_over_another_file_asks_first() {
    let mut app = app_on("New content");
    app.file_path = Some("mine.txt".to_string());
    let target = app.save_target(&texts(&["theirs.txt"]));
    assert!(matches!(
        app.save(target, Some("Their content".to_string())),
        SaveAction::AwaitConfirmation
    ));
    assert_eq!(app.active_area, ActiveArea::Popup);
    assert!(matches!(app.popup, Some(Popup::Confirmation(_))));
    assert_eq!(
        app.pending_states,
        vec![PendingState::Saving("theirs.txt".to_string())]
    );
    // the current file is overwritten without asking
    let target = app.save_target(&texts(&[]));
    assert!(matches!(
        app.save(target, Some("Old".to_string())),
        SaveAction::Write { .. }
    ));
}

#[test]
fn confirmed_save_is_handed_back_and_leaves_the_queue() {
    let mut app = app_on("test");
    app.pending_states
        .push(PendingState::Saving("test_saves/file1.txt".to_string()));
    app.open_popup(Popup::Confirmation(ConfirmationPopup::new("sure?")));
    app.popup_result = PopupResult::Bool(true);
    let target = app.handle_confirmation_popup_response().unwrap();
    assert_eq!(target.path, "test_saves/file1.txt");
    assert!(!target.may_ask);
    assert!(app.pending_states.is_empty());
    assert_eq!(app.popup_result, PopupResult::Unanswered);
    assert!(app.popup.is_none());
    assert!(app.running);
    assert!(matches!(
        app.save(target, Some("other".to_string())),
        SaveAction::Write { .. }
    ));
}

#[test]
fn confirmed_save_before_quitting_quits() {
    let mut app = app_on("test");
    app.pending_states
        .push(PendingState::Saving("test_saves/file3.txt".to_string()));
    app.pending_states.push(PendingState::Quitting);
    app.popup_result = PopupResult::Bool(true);
    let target = app.handle_confirmation_popup_response();
    assert!(target.is_some());
    assert!(app.pending_states.is_empty());
    assert!(!app.running);
}

#[test]
fn declined_save_stays_in_the_queue() {
    let mut app = app_on("test");
    app.pending_states
        .push(PendingState::Saving("file2.txt".to_string()));
    app.popup_result = PopupResult::Bool(false);
    assert!(app.handle_confirmation_popup_response().is_none());
    assert_eq!(app.pending_states.len(), 1);
    assert!(app.running);
}

#[test]
fn unanswered_popup_and_idle_state_change_nothing() {
    let mut app = app_on("test");
    app.pending_states
        .push(PendingState::Saving("file.txt".to_string()));
    assert!(app.handle_confirmation_popup_response().is_none());
    assert_eq!(app.pending_states.len(), 1);
    let mut idle = app_on("test");
    idle.pending_states.push(PendingState::Idle);
    idle.popup_result = PopupResult::Bool(true);
    assert!(idle.handle_confirmation_popup_response().is_none());
    assert_eq!(idle.pending_states, vec![PendingState::Idle]);
    assert_eq!(idle.popup_result, PopupResult::Bool(true));
    assert!(idle.running);
}

#[test]
fn quitting_first_in_the_queue_quits() {
    let mut app = app_on("test");
    app.pending_states.push(PendingState::Quitting);
    app.pending_states
        .push(PendingState::Saving("late.txt".to_string()));
    assert!(app.handle_confirmation_popup_response().is_none());
    assert!(app.pending_states.is_empty());
    assert!(!app.running);
}

#[test]
fn exit_after_save_waits_behind_a_pending_save() {
    let mut app = app_on("test");
    app.exit_after_save();
    assert!(!app.running);
    let mut waiting = app_on("test");
    waiting
        .pending_states
        .push(PendingState::Saving("file.txt".to_string()));
    waiting.exit_after_save();
    assert!(waiting.running);
    assert_eq!(
        waiting.pending_states,
        vec![
            PendingState::Saving("file.txt".to_string()),
            PendingState::Quitting
        ]
    );
}

#[test]
fn file_has_changes_compares_the_texts() {
    let app = App::new();
    assert!(app.file_has_changes("a".to_string(), "b".to_string()));
    assert!(!app.file_has_changes("same".to_string(), "same".to_string()));
}

#[test]
fn write_all_serves_a_cursor_beyond_the_document() {
    let mut app = app_on("a");
    app.editor.cursor.x = 9;
    app.editor.cursor.y = 2;
    app.write_all_char_in_editor('é');
    assert_eq!(app.editor.editor_content, texts(&["a", "", "é"]));
    assert_eq!((app.editor.cursor.x, app.editor.cursor.y), (1, 2));
    assert!(app.editor.is_well_formed());
}

#[test]
fn motion_by_nothing_with_shift_selects_at_the_cursor() {
    let mut app = app_on("Hello");
    app.move_all_cursor_editor(2, 0, false);
    app.move_all_cursor_editor(0, 0, true);
    assert!(app.is_text_selected());
    assert_eq!(
        app.editor.selection,
        Selection::Active {
            start: CursorPosition::new(2, 0),
            end: CursorPosition::new(2, 0)
        }
    );
    assert_eq!(app.editor.editor_content, texts(&["Hello"]));
    app.move_all_cursor_editor(0, 0, false);
    assert!(!app.is_text_selected());
    assert_eq!(app.editor.cursor.x, 2);
}

#[test]
fn new_app_has_nothing_to_undo() {
    let app = App::new();
    assert!(app.editor.undo_stack.is_empty());
    assert!(app.editor.redo_stack.is_empty());
    assert_eq!(app.editor.settings.tab_width, 4);
    assert_eq!(app.editor.viewport_height, 0);
    assert_eq!(app.editor.scroll_offset, 0);
    let other = App::default();
    assert!(other.editor.undo_stack.is_empty());
    assert_eq!(other.editor.settings.tab_width, 4);
}
