use tedit::editor::Editor;
use tedit::editor::EditorMode;
use tedit::editor::HorizontalMove;
use tedit::editor::InsertOutcome;
use tedit::editor::LineMove;
use tedit::editor::NormalOutcome;
use tedit::editor::VerticalMove;

fn editor_from(text: &str, width: usize, height: usize) -> Editor {
    Editor::new(text.chars().collect(), width, height)
}

fn line_string(line: &[char]) -> String {
    line.iter().collect()
}

#[test]
fn empty_buffer_has_one_empty_line() {
    let ed = editor_from("", 80, 24);
    assert_eq!(ed.get_num_rows(), 1);
    let line = ed.get_content_of_row(0).unwrap();
    assert_eq!(line_string(&line), "");
    assert!(ed.get_content_of_row(1).is_none());
    assert_eq!(ed.get_cursor_row_index(), 0);
    assert_eq!(ed.get_cursor_col_index(), 0);
}

#[test]
fn trailing_newline_adds_final_empty_line() {
    let mut ed = editor_from("a\n", 80, 24);
    let lines = ed.get_lines();
    assert_eq!(lines.len(), 2);
    assert_eq!(line_string(&lines[0]), "a");
    assert_eq!(line_string(&lines[1]), "");
    assert_eq!(ed.move_cursor_right(), HorizontalMove::SameLine);
    assert_eq!(ed.move_cursor_right(), HorizontalMove::WrappedLine);
    assert_eq!(ed.cursor_index, 2);
    assert_eq!(ed.get_cursor_row_index(), 1);
    assert_eq!(ed.get_cursor_col_index(), 0);
}

#[test]
fn end_to_end_scenario() {
    let mut ed = editor_from("ab\ncd", 80, 24);
    assert_eq!(ed.move_cursor_right(), HorizontalMove::SameLine);
    assert_eq!(ed.cursor_index, 1);

    assert_eq!(ed.move_cursor_right(), HorizontalMove::SameLine);
    assert_eq!(ed.cursor_index, 2);
    assert_eq!(ed.get_cursor_row_index(), 0);
    assert_eq!(ed.get_cursor_col_index(), 2);

    assert_eq!(ed.move_cursor_right(), HorizontalMove::WrappedLine);
    assert_eq!(ed.cursor_index, 3);
    assert_eq!(ed.get_cursor_row_index(), 1);
    assert_eq!(ed.get_cursor_col_index(), 0);

    let mut ed2 = editor_from("ab\ncd", 80, 24);
    let moved = ed2.move_cursor_down();
    assert_eq!(moved, VerticalMove::Moved { clamped: false, scrolled: false });
    assert_eq!(ed2.cursor_index, 3);
    assert_eq!(ed2.get_cursor_row_index(), 1);
    assert_eq!(ed2.get_cursor_col_index(), 0);
}

#[test]
fn movement_blocked_exactly_at_boundaries() {
    let mut ed = editor_from("", 80, 24);
    assert_eq!(ed.move_cursor_right(), HorizontalMove::Blocked);
    assert_eq!(ed.move_cursor_left(), HorizontalMove::Blocked);
    assert_eq!(ed.cursor_index, 0);

    let mut ed = editor_from("a", 80, 24);
    assert_eq!(ed.move_cursor_right(), HorizontalMove::SameLine);
    assert_eq!(ed.cursor_index, 1);
    assert_eq!(ed.move_cursor_right(), HorizontalMove::Blocked);
    assert_eq!(ed.cursor_index, 1);
    assert_eq!(ed.move_cursor_left(), HorizontalMove::SameLine);
    assert_eq!(ed.cursor_index, 0);
    assert_eq!(ed.move_cursor_left(), HorizontalMove::Blocked);
    assert_eq!(ed.cursor_index, 0);
}

#[test]
fn vertical_blocked_on_first_and_last_line() {
    let mut ed = editor_from("ab\ncd", 80, 24);
    assert_eq!(ed.move_cursor_up(), VerticalMove::Blocked);
    assert_eq!(ed.cursor_index, 0);
    ed.cursor_index = 4;
    assert_eq!(ed.move_cursor_down(), VerticalMove::Blocked);
    assert_eq!(ed.cursor_index, 4);
}

#[test]
fn move_left_wraps_to_end_of_previous_line() {
    let mut ed = editor_from("ab\ncd", 80, 24);
    ed.cursor_index = 3;
    assert_eq!(ed.move_cursor_left(), HorizontalMove::WrappedLine);
    assert_eq!(ed.cursor_index, 2);
    assert_eq!(ed.get_cursor_row_index(), 0);
    assert_eq!(ed.get_cursor_col_index(), 2);
}

#[test]
fn move_down_onto_shorter_line_clamps_to_its_end() {
    let mut ed = editor_from("abcd\nx", 80, 24);
    ed.cursor_index = 3;
    let moved = ed.move_cursor_down();
    assert_eq!(moved, VerticalMove::Moved { clamped: true, scrolled: false });
    assert_eq!(ed.cursor_index, 6);
    assert_eq!(ed.get_cursor_row_index(), 1);
    assert_eq!(ed.get_cursor_col_index(), 1);
}

#[test]
fn move_up_onto_shorter_line_clamps_to_its_end() {
    let mut ed = editor_from("x\nabcd", 80, 24);
    ed.cursor_index = 5;
    let moved = ed.move_cursor_up();
    assert_eq!(moved, VerticalMove::Moved { clamped: true, scrolled: false });
    assert_eq!(ed.cursor_index, 1);
    assert_eq!(ed.get_cursor_row_index(), 0);
    assert_eq!(ed.get_cursor_col_index(), 1);
}

#[test]
fn move_down_keeps_column_on_longer_line() {
    let mut ed = editor_from("ab\ncdef", 80, 24);
    ed.cursor_index = 1;
    let moved = ed.move_cursor_down();
    assert_eq!(moved, VerticalMove::Moved { clamped: false, scrolled: false });
    assert_eq!(ed.cursor_index, 4);
    assert_eq!(ed.get_cursor_row_index(), 1);
    assert_eq!(ed.get_cursor_col_index(), 1);
}

#[test]
fn scroll_triggers_on_last_visible_content_row() {
    // height 3: one status row, two content rows, band rows 0 and 1.
    let mut ed = editor_from("a\nb\nc\nd", 80, 3);

    // Row 0 is not on the band's edge: the cursor moves, the viewport stays.
    let first = ed.move_cursor_down();
    assert_eq!(first, VerticalMove::Moved { clamped: false, scrolled: false });
    assert_eq!(ed.top_line, 0);
    assert_eq!(ed.get_cursor_row_index(), 1);

    // Row 1 is the last visible content row: the viewport scrolls by one and
    // the rendered row (cursor row minus top line) stays where it was.
    let rendered_before = ed.get_cursor_row_index() - ed.top_line;
    let second = ed.move_cursor_down();
    assert_eq!(second, VerticalMove::Moved { clamped: false, scrolled: true });
    assert_eq!(ed.top_line, 1);
    assert_eq!(ed.get_cursor_row_index(), 2);
    assert_eq!(ed.get_cursor_row_index() - ed.top_line, rendered_before);
}

#[test]
fn scroll_up_triggers_on_first_visible_row() {
    let mut ed = editor_from("a\nb\nc\nd", 80, 3);
    ed.cursor_index = 4; // row 2
    ed.top_line = 2;
    let moved = ed.move_cursor_up();
    assert_eq!(moved, VerticalMove::Moved { clamped: false, scrolled: true });
    assert_eq!(ed.top_line, 1);
    assert_eq!(ed.get_cursor_row_index(), 1);
}

#[test]
fn move_to_next_line_goes_to_line_start() {
    let mut ed = editor_from("ab\ncd", 80, 24);
    ed.cursor_index = 1;
    assert_eq!(ed.move_cursor_to_next_line(), LineMove::Moved);
    assert_eq!(ed.cursor_index, 3);
    assert_eq!(ed.get_cursor_col_index(), 0);
    assert_eq!(ed.move_cursor_to_next_line(), LineMove::Blocked);
    assert_eq!(ed.cursor_index, 3);
}

#[test]
fn insert_char_inserts_and_moves_right() {
    let mut ed = editor_from("ab", 80, 24);
    ed.mode = EditorMode::Insert;
    ed.cursor_index = 1;
    assert_eq!(ed.handle_insert_char('x'), InsertOutcome::Inserted);
    assert_eq!(line_string(&ed.text_buffer), "axb");
    assert_eq!(ed.cursor_index, 2);
}

#[test]
fn insert_rejects_non_printable_class() {
    let mut ed = editor_from("ab", 80, 24);
    ed.mode = EditorMode::Insert;
    assert_eq!(ed.handle_insert_char(' '), InsertOutcome::UnsupportedChar);
    assert_eq!(ed.handle_insert_char('\n'), InsertOutcome::UnsupportedChar);
    assert_eq!(line_string(&ed.text_buffer), "ab");
    assert_eq!(ed.cursor_index, 0);
}

#[test]
fn insert_on_full_line_is_unsupported() {
    let mut ed = editor_from("ab", 2, 24);
    ed.mode = EditorMode::Insert;
    assert_eq!(ed.handle_insert_char('x'), InsertOutcome::LineFull);
    assert_eq!(line_string(&ed.text_buffer), "ab");
    assert_eq!(ed.cursor_index, 0);
}

#[test]
fn insert_then_delete_at_insertion_offset_restores_buffer() {
    // The round trip: insert, step back onto the inserted character, delete.
    let mut ed = editor_from("ab", 80, 24);
    ed.mode = EditorMode::Insert;
    assert_eq!(ed.handle_insert_char('x'), InsertOutcome::Inserted);
    assert_eq!(line_string(&ed.text_buffer), "xab");
    assert_eq!(ed.cursor_index, 1);
    assert_eq!(ed.move_cursor_left(), HorizontalMove::SameLine);
    ed.delete_char();
    assert_eq!(line_string(&ed.text_buffer), "ab");
    assert_eq!(ed.cursor_index, 0);
}

#[test]
fn delete_removes_character_at_cursor() {
    let mut ed = editor_from("abc", 80, 24);
    ed.delete_char();
    assert_eq!(line_string(&ed.text_buffer), "bc");
    assert_eq!(ed.cursor_index, 0);
}

#[test]
fn delete_is_refused_at_and_past_last_character() {
    let mut ed = editor_from("", 80, 24);
    ed.delete_char();
    assert_eq!(line_string(&ed.text_buffer), "");

    let mut ed = editor_from("ab", 80, 24);
    ed.cursor_index = 1;
    ed.delete_char();
    assert_eq!(line_string(&ed.text_buffer), "ab");
    ed.cursor_index = 2;
    ed.delete_char();
    assert_eq!(line_string(&ed.text_buffer), "ab");
}

#[test]
fn normal_mode_i_enters_insert_mode() {
    let mut ed = editor_from("ab", 80, 24);
    assert_eq!(ed.handle_normal_char('i'), NormalOutcome::EnteredInsert);
    assert_eq!(ed.mode, EditorMode::Insert);
}

#[test]
fn normal_mode_other_characters_are_unsupported() {
    let mut ed = editor_from("ab", 80, 24);
    assert_eq!(ed.handle_normal_char('q'), NormalOutcome::Unsupported);
    assert_eq!(ed.mode, EditorMode::Normal);
    assert_eq!(line_string(&ed.text_buffer), "ab");
}

#[test]
fn get_lines_splits_on_markers() {
    let ed = editor_from("a\n\nb", 80, 24);
    let lines = ed.get_lines();
    assert_eq!(lines.len(), 3);
    assert_eq!(line_string(&lines[0]), "a");
    assert_eq!(line_string(&lines[1]), "");
    assert_eq!(line_string(&lines[2]), "b");

    let ed = editor_from("", 80, 24);
    let lines = ed.get_lines();
    assert_eq!(lines.len(), 1);
    assert_eq!(line_string(&lines[0]), "");
}

#[test]
fn offset_row_col_consistency_on_sample_buffer() {
    // For every valid offset: the column plus the combined length of the
    // earlier lines (each with its break marker) gives the offset back.
    let text = "ab\ncd\n";
    for offset in 0..=text.len() {
        let mut ed = editor_from(text, 80, 24);
        ed.cursor_index = offset;
        let row = ed.get_cursor_row_index();
        let col = ed.get_cursor_col_index();
        let lines = ed.get_lines();
        let before: usize = lines[..row].iter().map(|l| l.len() + 1).sum();
        assert_eq!(col + before, offset);
    }
}

#[test]
fn set_size_reports_changes_only() {
    let mut ed = editor_from("ab", 80, 24);
    assert!(!ed.set_size(80, 24));
    assert!(ed.set_size(100, 40));
    assert_eq!(ed.width, 100);
    assert_eq!(ed.height, 40);
    assert!(!ed.set_size(100, 40));
}
