use textedit::cursor::CursorPosition;
use textedit::editor::{Editor, Selection};
use textedit::errors::{ClipboardError, RedoError, TextSelectionError, UndoError};

fn editor_with(text: &str) -> Editor {
    let mut editor = Editor::new();
    editor.load(text);
    editor
}

fn place(editor: &mut Editor, x: usize, y: usize) {
    editor.cursor.x = x;
    editor.cursor.y = y;
    editor.settle();
}

fn select(editor: &mut Editor, from: (usize, usize), to: (usize, usize)) {
    editor.selection = Selection::Active {
        start: CursorPosition::new(from.0, from.1),
        end: CursorPosition::new(to.0, to.1),
    };
}

fn strings(lines: &[&str]) -> Vec<String> {
    lines.iter().map(|s| s.to_string()).collect()
}

#[test]
fn new_editor_is_one_empty_line() {
    let editor = Editor::new();
    assert_eq!(editor.editor_content, strings(&[""]));
    assert_eq!((editor.cursor.x, editor.cursor.y), (0, 0));
    assert_eq!(editor.selection, Selection::Inactive);
    assert!(editor.is_well_formed());
}

#[test]
fn insert_over_single_line_selection() {
    let mut editor = editor_with("Hello Denmark");
    place(&mut editor, 6, 0);
    select(&mut editor, (6, 0), (13, 0));
    editor.write_char_text_is_selected('W');
    assert_eq!(editor.editor_content, strings(&["Hello W"]));
    assert_eq!((editor.cursor.x, editor.cursor.y), (7, 0));
    assert_eq!(editor.selection, Selection::Inactive);
    assert!(editor.is_well_formed());
}

#[test]
fn insert_over_selection_stored_backwards() {
    let mut editor = editor_with("Hello Denmark");
    select(&mut editor, (13, 0), (6, 0));
    editor.write_char_text_is_selected('W');
    assert_eq!(editor.editor_content, strings(&["Hello W"]));
    assert_eq!(editor.cursor.x, 7);
}

#[test]
fn insert_over_multi_line_selection() {
    let mut editor = editor_with("test\nHello Denmark\nmiddle\nHello Sudetenland");
    select(&mut editor, (6, 1), (13, 3));
    editor.write_char_text_is_selected('W');
    assert_eq!(editor.editor_content, strings(&["test", "Hello Wland"]));
    assert_eq!((editor.cursor.x, editor.cursor.y), (7, 1));
}

#[test]
fn backspace_over_multi_line_selection() {
    let mut editor = editor_with("test\nHello Denmark\nHello Sudetenland");
    place(&mut editor, 13, 2);
    select(&mut editor, (6, 1), (13, 2));
    editor.backspace_text_is_selected();
    assert_eq!(editor.editor_content, strings(&["test", "Hello land"]));
    assert_eq!((editor.cursor.x, editor.cursor.y), (6, 1));
    assert_eq!(editor.selection, Selection::Inactive);
    assert!(editor.is_well_formed());
}

#[test]
fn backspace_over_single_line_selection() {
    let mut editor = editor_with("Hello Denmark");
    select(&mut editor, (6, 0), (13, 0));
    editor.backspace_text_is_selected();
    assert_eq!(editor.editor_content, strings(&["Hello "]));
    assert_eq!(editor.cursor.x, 6);
}

#[test]
fn delete_over_selection_blanks_and_keeps_lengths() {
    let mut editor = editor_with("test\nHello Denmark\nHello Sudetenland");
    select(&mut editor, (6, 1), (13, 2));
    editor.delete_text_is_selected();
    assert_eq!(
        editor.editor_content,
        strings(&["test", "Hello        ", "             land"])
    );
    assert_eq!((editor.cursor.x, editor.cursor.y), (13, 2));
    assert!(editor.is_well_formed());
}

#[test]
fn delete_and_backspace_over_selection_differ() {
    let mut deleted = editor_with("Hello Denmark");
    select(&mut deleted, (6, 0), (13, 0));
    deleted.delete_text_is_selected();
    let mut removed = editor_with("Hello Denmark");
    select(&mut removed, (6, 0), (13, 0));
    removed.backspace_text_is_selected();
    assert_eq!(deleted.editor_content, strings(&["Hello        "]));
    assert_eq!(removed.editor_content, strings(&["Hello "]));
    assert_ne!(deleted.editor_content, removed.editor_content);
    assert_eq!(deleted.cursor.x, 13);
    assert_eq!(removed.cursor.x, 6);
}

#[test]
fn tab_moves_visual_column_to_next_stop() {
    let mut editor = editor_with("1234");
    place(&mut editor, 2, 0);
    editor.tab();
    assert_eq!(editor.editor_content, strings(&["12\t34"]));
    assert_eq!(editor.cursor.x, 3);
    assert_eq!(editor.visual_cursor_x, 4);
    editor.move_cursor(1, 0);
    assert_eq!(editor.visual_cursor_x, 5);
    editor.move_cursor(1, 0);
    assert_eq!(editor.cursor.x, 5);
    assert_eq!(editor.visual_cursor_x, 6);
}

#[test]
fn tab_at_a_tab_stop_reaches_the_stop_after_it() {
    let mut editor = editor_with("abcd");
    place(&mut editor, 4, 0);
    editor.tab();
    assert_eq!(editor.visual_cursor_x, 8);
    editor.settings.tab_width = 3;
    editor.settle();
    assert_eq!(editor.visual_cursor_x, 6);
}

#[test]
fn paste_of_two_lines_splits_the_cursor_line() {
    let mut editor = editor_with("This is a test.");
    place(&mut editor, 5, 0);
    let pasted = editor.paste_selected_text(strings(&["First", "Second "]));
    assert_eq!(pasted, Ok(()));
    assert_eq!(
        editor.editor_content,
        strings(&["This First", "Second is a test."])
    );
    assert_eq!((editor.cursor.x, editor.cursor.y), (7, 1));
    assert!(editor.is_well_formed());
}

#[test]
fn paste_of_one_line_goes_into_the_cursor_line() {
    let mut editor = editor_with("This is a test.");
    place(&mut editor, 5, 0);
    assert_eq!(editor.paste_selected_text(strings(&["not "])), Ok(()));
    assert_eq!(editor.editor_content, strings(&["This not is a test."]));
    assert_eq!((editor.cursor.x, editor.cursor.y), (9, 0));
}

#[test]
fn paste_of_three_lines_keeps_the_middle_line() {
    let mut editor = editor_with("above\nleftright\nbelow");
    place(&mut editor, 4, 1);
    assert_eq!(editor.paste_selected_text(strings(&["A", "B", "C"])), Ok(()));
    assert_eq!(
        editor.editor_content,
        strings(&["above", "leftA", "B", "Cright", "below"])
    );
    assert_eq!((editor.cursor.x, editor.cursor.y), (1, 3));
}

#[test]
fn paste_of_nothing_changes_nothing() {
    let mut editor = editor_with("text");
    place(&mut editor, 2, 0);
    assert_eq!(editor.paste_selected_text(Vec::new()), Ok(()));
    assert_eq!(editor.editor_content, strings(&["text"]));
    assert_eq!(editor.cursor.x, 2);
    assert!(editor.undo_stack.is_empty());
}

#[test]
fn paste_rejects_a_line_terminator_in_the_payload() {
    let mut editor = editor_with("text");
    let pasted = editor.paste_selected_text(strings(&["one\ntwo"]));
    assert_eq!(pasted, Err(ClipboardError::MalformedPayload));
    assert_eq!(editor.editor_content, strings(&["text"]));
    assert!(editor.undo_stack.is_empty());
}

#[test]
fn paste_rejects_a_cursor_outside_the_document() {
    let mut editor = editor_with("text");
    editor.cursor.y = 4;
    let pasted = editor.paste_selected_text(strings(&["one"]));
    assert_eq!(pasted, Err(ClipboardError::CursorOutOfRange));
    assert_eq!(editor.editor_content, strings(&["text"]));
}

#[test]
fn copy_reads_single_line_selection() {
    let mut editor = editor_with("Hello Denmark");
    select(&mut editor, (6, 0), (13, 0));
    assert_eq!(editor.copy_selected_text(), Ok(strings(&["Denmark"])));
    assert_eq!(editor.editor_content, strings(&["Hello Denmark"]));
}

#[test]
fn copy_reads_multi_line_selection() {
    let mut editor = editor_with("test\nHello Denmark\nmiddle\nHello Sudetenland");
    select(&mut editor, (13, 3), (6, 1));
    assert_eq!(
        editor.copy_selected_text(),
        Ok(strings(&["Denmark", "middle", "Hello Sudeten"]))
    );
}

#[test]
fn copy_without_selection_fails() {
    let editor = editor_with("text");
    assert_eq!(
        editor.copy_selected_text(),
        Err(TextSelectionError::NoSelection)
    );
}

#[test]
fn copy_of_selection_outside_document_fails() {
    let mut editor = editor_with("text");
    select(&mut editor, (0, 0), (9, 0));
    assert_eq!(
        editor.copy_selected_text(),
        Err(TextSelectionError::InvalidRange)
    );
    select(&mut editor, (0, 0), (0, 3));
    assert_eq!(
        editor.copy_selected_text(),
        Err(TextSelectionError::InvalidRange)
    );
}

#[test]
fn cut_removes_the_range_and_counts_add_up() {
    let mut editor = editor_with("test\nHello Denmark\nHello Sudetenland");
    let before: usize = editor.editor_content.iter().map(|l| l.chars().count()).sum();
    select(&mut editor, (6, 1), (13, 2));
    let cut = editor.cut_selected_text();
    assert_eq!(cut, Ok(strings(&["Denmark", "Hello Sudeten"])));
    assert_eq!(editor.editor_content, strings(&["test", "Hello land"]));
    assert_eq!((editor.cursor.x, editor.cursor.y), (6, 1));
    let after: usize = editor.editor_content.iter().map(|l| l.chars().count()).sum();
    assert_eq!(before - after, 7 + 13);
    assert_eq!(editor.selection, Selection::Inactive);
}

#[test]
fn cut_without_selection_fails_and_changes_nothing() {
    let mut editor = editor_with("text");
    assert_eq!(
        editor.cut_selected_text(),
        Err(TextSelectionError::NoSelection)
    );
    assert_eq!(editor.editor_content, strings(&["text"]));
    assert!(editor.undo_stack.is_empty());
}

#[test]
fn cut_then_paste_gives_the_document_back() {
    let mut editor = editor_with("test\nHello Denmark\nHello Sudetenland");
    select(&mut editor, (6, 1), (13, 2));
    let payload = editor.cut_selected_text().unwrap();
    assert_eq!(editor.paste_selected_text(payload), Ok(()));
    assert_eq!(
        editor.editor_content,
        strings(&["test", "Hello Denmark", "Hello Sudetenland"])
    );
    assert_eq!((editor.cursor.x, editor.cursor.y), (13, 2));
}

#[test]
fn cut_then_paste_in_one_line_gives_the_document_back() {
    let mut editor = editor_with("Hello Denmark");
    select(&mut editor, (2, 0), (9, 0));
    let payload = editor.cut_selected_text().unwrap();
    assert_eq!(payload, strings(&["llo Den"]));
    assert_eq!(editor.paste_selected_text(payload), Ok(()));
    assert_eq!(editor.editor_content, strings(&["Hello Denmark"]));
}

#[test]
fn insert_then_backspace_is_a_no_op() {
    let mut editor = editor_with("one\ntwo");
    place(&mut editor, 2, 1);
    editor.write_char('x');
    assert_eq!(editor.editor_content, strings(&["one", "twxo"]));
    assert_eq!(editor.cursor.x, 3);
    editor.backspace_in_editor();
    assert_eq!(editor.editor_content, strings(&["one", "two"]));
    assert_eq!((editor.cursor.x, editor.cursor.y), (2, 1));
}

#[test]
fn insert_counts_scalar_values_not_bytes() {
    let mut editor = editor_with("aé𝄞z");
    place(&mut editor, 3, 0);
    editor.write_char('ß');
    assert_eq!(editor.editor_content, strings(&["aé𝄞ßz"]));
    assert_eq!(editor.cursor.x, 4);
    editor.backspace_in_editor();
    editor.backspace_in_editor();
    assert_eq!(editor.editor_content, strings(&["aéz"]));
    assert_eq!(editor.cursor.x, 2);
    assert_eq!(editor.visual_cursor_x, 2);
}

#[test]
fn insert_beyond_the_document_adds_lines() {
    let mut editor = editor_with("a");
    editor.cursor.x = 7;
    editor.cursor.y = 2;
    editor.write_char('b');
    assert_eq!(editor.editor_content, strings(&["a", "", "b"]));
    assert_eq!((editor.cursor.x, editor.cursor.y), (1, 2));
    assert!(editor.is_well_formed());
}

#[test]
fn insert_with_stale_offset_goes_to_the_end_of_the_line() {
    let mut editor = editor_with("abc");
    editor.cursor.x = 40;
    editor.write_char('d');
    assert_eq!(editor.editor_content, strings(&["abcd"]));
    assert_eq!(editor.cursor.x, 4);
}

#[test]
fn backspace_at_line_start_joins_lines() {
    let mut editor = editor_with("one\ntwo\nthree");
    place(&mut editor, 0, 1);
    editor.backspace_in_editor();
    assert_eq!(editor.editor_content, strings(&["onetwo", "three"]));
    assert_eq!((editor.cursor.x, editor.cursor.y), (3, 0));
}

#[test]
fn backspace_at_document_start_does_nothing() {
    let mut editor = editor_with("one");
    editor.backspace_in_editor();
    assert_eq!(editor.editor_content, strings(&["one"]));
    assert_eq!((editor.cursor.x, editor.cursor.y), (0, 0));
    assert!(editor.undo_stack.is_empty());
}

#[test]
fn delete_removes_the_character_at_the_cursor() {
    let mut editor = editor_with("one");
    place(&mut editor, 1, 0);
    editor.delete_in_editor();
    assert_eq!(editor.editor_content, strings(&["oe"]));
    assert_eq!(editor.cursor.x, 1);
}

#[test]
fn delete_at_line_end_joins_the_line_below() {
    let mut editor = editor_with("one\ntwo");
    place(&mut editor, 3, 0);
    editor.delete_in_editor();
    assert_eq!(editor.editor_content, strings(&["onetwo"]));
    assert_eq!((editor.cursor.x, editor.cursor.y), (3, 0));
}

#[test]
fn delete_at_document_end_does_nothing() {
    let mut editor = editor_with("one\ntwo");
    place(&mut editor, 3, 1);
    editor.delete_in_editor();
    assert_eq!(editor.editor_content, strings(&["one", "two"]));
    assert!(editor.undo_stack.is_empty());
}

#[test]
fn enter_at_line_end_adds_an_empty_line() {
    let mut editor = editor_with("one\ntwo");
    place(&mut editor, 3, 0);
    editor.enter();
    assert_eq!(editor.editor_content, strings(&["one", "", "two"]));
    assert_eq!((editor.cursor.x, editor.cursor.y), (0, 1));
}

#[test]
fn enter_inside_a_line_splits_it() {
    let mut editor = editor_with("onetwo");
    place(&mut editor, 3, 0);
    editor.enter();
    assert_eq!(editor.editor_content, strings(&["one", "two"]));
    assert_eq!((editor.cursor.x, editor.cursor.y), (0, 1));
    assert_eq!(editor.visual_cursor_x, 0);
}

#[test]
fn undo_and_redo_of_an_insert() {
    let mut editor = editor_with("ab");
    place(&mut editor, 1, 0);
    editor.write_char('x');
    assert_eq!(editor.undo(), Ok(()));
    assert_eq!(editor.editor_content, strings(&["ab"]));
    assert_eq!((editor.cursor.x, editor.cursor.y), (1, 0));
    assert_eq!(editor.redo(), Ok(()));
    assert_eq!(editor.editor_content, strings(&["axb"]));
    assert_eq!((editor.cursor.x, editor.cursor.y), (2, 0));
    assert!(editor.is_well_formed());
}

#[test]
fn undo_and_redo_of_a_multi_line_removal() {
    let mut editor = editor_with("test\nHello Denmark\nHello Sudetenland\nend");
    place(&mut editor, 13, 2);
    select(&mut editor, (6, 1), (13, 2));
    editor.backspace_text_is_selected();
    assert_eq!(editor.editor_content, strings(&["test", "Hello land", "end"]));
    assert_eq!(editor.undo(), Ok(()));
    assert_eq!(
        editor.editor_content,
        strings(&["test", "Hello Denmark", "Hello Sudetenland", "end"])
    );
    assert_eq!((editor.cursor.x, editor.cursor.y), (13, 2));
    assert_eq!(editor.redo(), Ok(()));
    assert_eq!(editor.editor_content, strings(&["test", "Hello land", "end"]));
    assert_eq!((editor.cursor.x, editor.cursor.y), (6, 1));
}

#[test]
fn undo_of_each_kind_of_edit() {
    let start = "one\ntwo three\nfour";
    let mut editor = editor_with(start);
    place(&mut editor, 3, 1);
    editor.enter();
    editor.tab();
    editor.delete_in_editor();
    editor.backspace_in_editor();
    editor.paste_selected_text(strings(&["p", "q"])).unwrap();
    select(&mut editor, (1, 0), (1, 2));
    editor.delete_text_is_selected();
    assert_eq!(
        editor.editor_content,
        strings(&["o  ", "   ", " ", "qthree", "four"])
    );
    let made = editor.editor_content.clone();
    let mut steps = 0;
    while editor.undo().is_ok() {
        steps += 1;
    }
    assert_eq!(steps, 6);
    assert_eq!(editor.editor_content, strings(&["one", "two three", "four"]));
    assert_eq!((editor.cursor.x, editor.cursor.y), (3, 1));
    while editor.redo().is_ok() {}
    assert_eq!(editor.editor_content, made);
}

#[test]
fn undo_with_nothing_to_undo_fails() {
    let mut editor = editor_with("one");
    assert_eq!(editor.undo(), Err(UndoError));
    assert_eq!(editor.editor_content, strings(&["one"]));
}

#[test]
fn redo_with_nothing_to_redo_fails() {
    let mut editor = editor_with("one");
    assert_eq!(editor.redo(), Err(RedoError));
    editor.write_char('x');
    assert_eq!(editor.redo(), Err(RedoError));
}

#[test]
fn a_new_edit_clears_the_redo_stack() {
    let mut editor = editor_with("one");
    editor.write_char('x');
    editor.undo().unwrap();
    assert_eq!(editor.redo_stack.len(), 1);
    editor.write_char('y');
    assert!(editor.redo_stack.is_empty());
    assert_eq!(editor.redo(), Err(RedoError));
    assert_eq!(editor.editor_content, strings(&["yone"]));
}

#[test]
fn paste_then_copy_reads_the_payload_back() {
    let mut editor = editor_with("above\nleftright\nbelow");
    place(&mut editor, 4, 1);
    let payload = strings(&["one", "", "three"]);
    assert_eq!(editor.paste_selected_text(payload.clone()), Ok(()));
    let end = (editor.cursor.x, editor.cursor.y);
    assert_eq!(end, (5, 3));
    select(&mut editor, (4, 1), end);
    assert_eq!(editor.copy_selected_text(), Ok(payload));
    editor.backspace_text_is_selected();
    assert_eq!(
        editor.editor_content,
        strings(&["above", "leftright", "below"])
    );
}

#[test]
fn every_request_leaves_the_cursor_in_the_document() {
    let mut editor = editor_with("ab\n\ncdef");
    let check = |editor: &Editor| {
        assert!(editor.cursor.y < editor.editor_content.len());
        assert!(editor.cursor.x <= editor.editor_content[editor.cursor.y].chars().count());
        assert!(editor.is_well_formed());
    };
    editor.move_cursor(0, 2);
    check(&editor);
    editor.move_cursor(9, 0);
    check(&editor);
    editor.move_cursor(0, -1);
    check(&editor);
    editor.backspace_in_editor();
    check(&editor);
    editor.delete_in_editor();
    check(&editor);
    editor.enter();
    check(&editor);
    editor.move_selection_cursor(-1, 0);
    check(&editor);
    editor.delete_text_is_selected();
    check(&editor);
    editor.move_selection_cursor(0, 4);
    check(&editor);
    editor.write_char_text_is_selected('x');
    check(&editor);
    editor.move_scroll_offset(3);
    check(&editor);
    editor.undo().unwrap();
    check(&editor);
    editor.redo().unwrap();
    check(&editor);
}
