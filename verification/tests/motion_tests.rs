use textedit::cursor::CursorPosition;
use textedit::editor::{Editor, Selection};

fn editor_on(text: &str) -> Editor {
    let mut editor = Editor::new();
    editor.load(text);
    editor
}

fn put(editor: &mut Editor, x: usize, y: usize) {
    editor.cursor.x = x;
    editor.cursor.y = y;
    editor.settle();
}

fn at(editor: &Editor) -> (usize, usize) {
    (editor.cursor.x, editor.cursor.y)
}

fn active(from: (usize, usize), to: (usize, usize)) -> Selection {
    Selection::Active {
        start: CursorPosition::new(from.0, from.1),
        end: CursorPosition::new(to.0, to.1),
    }
}

#[test]
fn right_inside_a_line_moves_one_character() {
    let mut editor = editor_on("one\ntwo");
    editor.move_cursor(1, 0);
    assert_eq!(at(&editor), (1, 0));
}

#[test]
fn right_at_line_end_wraps_to_next_line() {
    let mut editor = editor_on("one\ntwo");
    put(&mut editor, 3, 0);
    editor.move_cursor(1, 0);
    assert_eq!(at(&editor), (0, 1));
}

#[test]
fn right_at_document_end_stays() {
    let mut editor = editor_on("one\ntwo");
    put(&mut editor, 3, 1);
    editor.move_cursor(1, 0);
    assert_eq!(at(&editor), (3, 1));
    assert_eq!(editor.editor_content.len(), 2);
}

#[test]
fn left_at_line_start_wraps_to_end_of_line_above() {
    let mut editor = editor_on("one\ntwo");
    put(&mut editor, 0, 1);
    editor.move_cursor(-1, 0);
    assert_eq!(at(&editor), (3, 0));
}

#[test]
fn left_at_document_start_stays() {
    let mut editor = editor_on("one\ntwo");
    editor.move_cursor(-1, 0);
    assert_eq!(at(&editor), (0, 0));
}

#[test]
fn several_steps_sideways_cross_lines() {
    let mut editor = editor_on("ab\ncd\nef");
    editor.move_cursor(4, 0);
    assert_eq!(at(&editor), (1, 1));
    editor.move_cursor(-3, 0);
    assert_eq!(at(&editor), (1, 0));
    editor.move_cursor(100, 0);
    assert_eq!(at(&editor), (2, 2));
    editor.move_cursor(-100, 0);
    assert_eq!(at(&editor), (0, 0));
}

#[test]
fn up_at_first_line_stays() {
    let mut editor = editor_on("one\ntwo");
    put(&mut editor, 2, 0);
    editor.move_cursor(0, -1);
    assert_eq!(at(&editor), (2, 0));
    editor.move_cursor(0, -7);
    assert_eq!(at(&editor), (2, 0));
}

#[test]
fn vertical_motion_holds_the_offset_to_the_line_length() {
    let mut editor = editor_on("a long line\nab\nanother long line");
    put(&mut editor, 9, 0);
    editor.move_cursor(0, 1);
    assert_eq!(at(&editor), (2, 1));
    editor.move_cursor(0, 1);
    assert_eq!(at(&editor), (2, 2));
}

#[test]
fn down_below_the_last_line_adds_empty_lines() {
    let mut editor = editor_on("one\ntwo");
    put(&mut editor, 2, 1);
    editor.move_cursor(0, 3);
    assert_eq!(at(&editor), (0, 4));
    assert_eq!(
        editor.editor_content,
        vec!["one".to_string(), "two".to_string(), String::new(), String::new(), String::new()]
    );
    assert!(editor.is_well_formed());
}

#[test]
fn sideways_comes_before_vertical() {
    let mut editor = editor_on("ab\ncdef");
    put(&mut editor, 2, 0);
    editor.move_cursor(1, 1);
    assert_eq!(at(&editor), (0, 2));
    assert_eq!(editor.editor_content.len(), 3);
}

#[test]
fn scroll_window_follows_the_cursor() {
    let mut editor = editor_on("0\n1\n2\n3\n4\n5\n6\n7\n8\n9");
    editor.resize(5);
    assert_eq!(editor.scroll_offset, 0);
    editor.move_cursor(0, 3);
    assert_eq!(editor.scroll_offset, 0);
    editor.move_cursor(0, 1);
    assert_eq!(editor.cursor.y, 4);
    assert_eq!(editor.scroll_offset, 1);
    editor.move_cursor(0, 5);
    assert_eq!(editor.scroll_offset, 6);
    editor.move_cursor(0, -2);
    assert_eq!(editor.scroll_offset, 6);
    editor.move_cursor(0, -5);
    assert_eq!(editor.cursor.y, 2);
    assert_eq!(editor.scroll_offset, 2);
    assert!(editor.is_well_formed());
}

#[test]
fn scrolling_drags_the_cursor_along() {
    let mut editor = editor_on("0\n1\n2\n3\n4\n5\n6\n7\n8\n9");
    editor.resize(5);
    editor.move_scroll_offset(4);
    assert_eq!(editor.scroll_offset, 4);
    assert_eq!(editor.cursor.y, 4);
    editor.move_cursor(0, 3);
    editor.move_scroll_offset(-2);
    assert_eq!(editor.scroll_offset, 2);
    assert_eq!(editor.cursor.y, 5);
    editor.move_scroll_offset(100);
    assert_eq!(editor.scroll_offset, 9);
    assert_eq!(editor.cursor.y, 9);
    editor.move_scroll_offset(-100);
    assert_eq!(editor.scroll_offset, 0);
    assert_eq!(editor.cursor.y, 3);
    assert!(editor.is_well_formed());
}

#[test]
fn resize_brings_the_cursor_line_into_view() {
    let mut editor = editor_on("0\n1\n2\n3\n4\n5");
    editor.resize(10);
    editor.move_cursor(0, 5);
    assert_eq!(editor.scroll_offset, 0);
    editor.resize(4);
    assert_eq!(editor.scroll_offset, 3);
    editor.resize(0);
    assert_eq!(editor.scroll_offset, 5);
}

#[test]
fn selecting_forward_from_nothing() {
    let mut editor = editor_on("Hello Denmark");
    put(&mut editor, 6, 0);
    editor.move_selection_cursor(1, 0);
    assert_eq!(editor.selection, active((6, 0), (7, 0)));
    editor.move_selection_cursor(1, 0);
    assert_eq!(editor.selection, active((6, 0), (8, 0)));
}

#[test]
fn selecting_backward_from_nothing() {
    let mut editor = editor_on("Hello Denmark");
    put(&mut editor, 6, 0);
    editor.move_selection_cursor(-1, 0);
    assert_eq!(editor.selection, active((5, 0), (6, 0)));
    editor.move_selection_cursor(-1, 0);
    assert_eq!(editor.selection, active((4, 0), (6, 0)));
}

#[test]
fn selecting_down_then_up() {
    let mut editor = editor_on("one\ntwo\nthree");
    put(&mut editor, 1, 1);
    editor.move_selection_cursor(0, 1);
    assert_eq!(editor.selection, active((1, 1), (1, 2)));
    editor.move_selection_cursor(0, -1);
    assert_eq!(editor.selection, active((1, 1), (1, 2)));
    editor.move_selection_cursor(0, -1);
    assert_eq!(editor.selection, active((1, 0), (1, 2)));
}

#[test]
fn reversing_a_selection_moves_only_the_matching_endpoint() {
    let mut editor = editor_on("Hello Denmark");
    put(&mut editor, 6, 0);
    editor.move_selection_cursor(1, 0);
    editor.move_selection_cursor(1, 0);
    editor.move_selection_cursor(-1, 0);
    assert_eq!(editor.selection, active((7, 0), (8, 0)));
}

#[test]
fn selecting_by_no_motion_selects_the_empty_range_at_the_cursor() {
    let mut editor = editor_on("Hello");
    put(&mut editor, 2, 0);
    editor.move_selection_cursor(0, 0);
    assert_eq!(editor.selection, active((2, 0), (2, 0)));
    assert_eq!(at(&editor), (2, 0));
    editor.move_selection_cursor(1, 0);
    editor.move_selection_cursor(0, 0);
    assert_eq!(editor.selection, active((2, 0), (3, 0)));
}
