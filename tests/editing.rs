use modal_editor::buffer::{Document, EditError};
use modal_editor::dispatch::EditorAction;
use modal_editor::edit::{backspace, insert_char, split_line, ChangeKind};
use modal_editor::editor::{EditorState, Request, StatusLine};
use modal_editor::render::CursorShape;
use modal_editor::tracker::{move_cursor, Cursor, Viewport};

fn chars(s: &str) -> Vec<char> {
    s.chars().collect()
}

fn doc_of(lines: &[&str]) -> Document {
    Document::from_lines(lines.iter().map(|l| chars(l)).collect())
}

fn state_of(lines: &[&str], rows: usize, cols: usize) -> EditorState {
    EditorState::new(lines.iter().map(|l| chars(l)).collect(), rows, cols)
}

fn lines_of(doc: &Document) -> Vec<String> {
    (0..doc.num_lines())
        .map(|r| doc.get_line(r).unwrap().iter().collect())
        .collect()
}

fn cur(row: usize, col: usize) -> Cursor {
    Cursor { row, col }
}

#[test]
fn split_at_end_of_line_inserts_empty_line() {
    let mut st = state_of(&["abc", "def"], 10, 80);
    st.cursor = cur(0, 3);
    st.step(EditorAction::SplitLine);
    assert_eq!(lines_of(&st.doc), vec!["abc", "", "def"]);
    assert_eq!(st.cursor, cur(1, 0));
}

#[test]
fn insert_char_at_end_of_line() {
    let mut st = state_of(&["ab"], 10, 80);
    st.cursor = cur(0, 2);
    st.step(EditorAction::InsertChar('c'));
    assert_eq!(lines_of(&st.doc), vec!["abc"]);
    assert_eq!(st.cursor, cur(0, 3));
}

#[test]
fn backspace_at_line_start_joins_lines() {
    let mut st = state_of(&["ab", "cd"], 10, 80);
    st.cursor = cur(1, 0);
    assert_eq!(st.doc.num_lines(), 2);
    st.step(EditorAction::Backspace);
    assert_eq!(lines_of(&st.doc), vec!["abcd"]);
    assert_eq!(st.cursor, cur(0, 2));
    assert_eq!(st.doc.num_lines(), 1);
}

#[test]
fn move_down_scrolls_one_line_at_a_time() {
    let mut st = state_of(&["1", "2", "3", "4", "5"], 2, 80);
    let mut seen = vec![st.viewport.row_scroll];
    for _ in 0..4 {
        st.step(EditorAction::MoveDown);
        seen.push(st.viewport.row_scroll);
    }
    assert_eq!(seen, vec![0, 0, 1, 2, 3]);
    assert_eq!(st.cursor, cur(4, 0));
}

#[test]
fn backspace_at_document_start_is_no_op() {
    let mut st = state_of(&["ab", "cd"], 10, 80);
    let before = st.viewport;
    st.step(EditorAction::Backspace);
    assert_eq!(lines_of(&st.doc), vec!["ab", "cd"]);
    assert_eq!(st.cursor, cur(0, 0));
    assert_eq!(st.viewport, before);
}

#[test]
fn move_right_at_end_of_last_line_is_no_op() {
    let mut st = state_of(&["ab", "cd"], 10, 80);
    st.cursor = cur(1, 2);
    st.step(EditorAction::MoveRight);
    assert_eq!(st.cursor, cur(1, 2));
    assert_eq!(lines_of(&st.doc), vec!["ab", "cd"]);
}

#[test]
fn move_down_at_last_row_is_no_op() {
    let mut st = state_of(&["ab", "cd"], 10, 80);
    st.cursor = cur(1, 1);
    st.step(EditorAction::MoveDown);
    assert_eq!(st.cursor, cur(1, 1));
}

#[test]
fn split_then_backspace_restores_lines_and_cursor() {
    let mut st = state_of(&["hello", "world"], 10, 80);
    st.cursor = cur(0, 2);
    st.step(EditorAction::SplitLine);
    assert_eq!(lines_of(&st.doc), vec!["he", "llo", "world"]);
    st.step(EditorAction::Backspace);
    assert_eq!(lines_of(&st.doc), vec!["hello", "world"]);
    assert_eq!(st.cursor, cur(0, 2));
}

#[test]
fn split_then_join_line_restores_document() {
    let mut d = doc_of(&["abc", "xyz"]);
    d.split_line(1, 1).unwrap();
    assert_eq!(lines_of(&d), vec!["abc", "x", "yz"]);
    d.join_line(2).unwrap();
    assert_eq!(lines_of(&d), vec!["abc", "xyz"]);
}

#[test]
fn ensure_visible_twice_changes_nothing_more() {
    let mut v = Viewport { row_scroll: 3, col_scroll: 0, num_rows: 4, num_cols: 10 };
    let c = cur(7, 10);
    v.ensure_visible(c);
    let once = v;
    assert_eq!(once, Viewport { row_scroll: 4, col_scroll: 1, num_rows: 4, num_cols: 10 });
    v.ensure_visible(c);
    assert_eq!(v, once);
}

#[test]
fn ensure_visible_scrolls_back_to_cursor_above() {
    let mut v = Viewport { row_scroll: 5, col_scroll: 6, num_rows: 4, num_cols: 10 };
    v.ensure_visible(cur(2, 1));
    assert_eq!(v, Viewport { row_scroll: 2, col_scroll: 1, num_rows: 4, num_cols: 10 });
}

#[test]
fn scroll_to_jumps_straight_to_cursor() {
    let mut v = Viewport { row_scroll: 0, col_scroll: 0, num_rows: 4, num_cols: 10 };
    v.scroll_to(cur(20, 35));
    assert_eq!(v, Viewport { row_scroll: 17, col_scroll: 26, num_rows: 4, num_cols: 10 });
}

#[test]
fn every_state_keeps_cursor_in_document_and_view() {
    let mut st = state_of(&["first line", "", "a much longer third line", "x"], 2, 5);
    let actions = [
        EditorAction::MoveToEndOfLine,
        EditorAction::MoveDown,
        EditorAction::MoveDown,
        EditorAction::MoveToEndOfLine,
        EditorAction::MoveUp,
        EditorAction::InsertMode,
        EditorAction::InsertChar('q'),
        EditorAction::SplitLine,
        EditorAction::Backspace,
        EditorAction::Backspace,
        EditorAction::MoveDown,
        EditorAction::MoveDown,
        EditorAction::MoveDown,
        EditorAction::MoveRight,
        EditorAction::MoveLeft,
        EditorAction::MoveToStartOfLine,
        EditorAction::Backspace,
    ];
    for a in actions {
        st.step(a);
        check_state(&st);
    }
    st.resize(1, 3);
    check_state(&st);
    st.resize(8, 40);
    check_state(&st);
}

fn check_state(st: &EditorState) {
    let c = st.cursor;
    let v = st.viewport;
    assert!(c.row < st.doc.num_lines());
    assert!(c.col <= st.doc.line_len(c.row));
    assert!(v.row_scroll <= c.row && c.row < v.row_scroll + v.num_rows);
    assert!(v.col_scroll <= c.col && c.col <= v.col_scroll + v.num_cols);
}

#[test]
fn resize_narrower_moves_col_scroll_directly() {
    let mut st = state_of(&["0123456789abcdef"], 5, 20);
    st.step(EditorAction::MoveToEndOfLine);
    assert_eq!(st.cursor, cur(0, 16));
    assert_eq!(st.viewport.col_scroll, 0);
    st.resize(5, 4);
    assert_eq!(st.viewport.col_scroll, 13);
    assert_eq!(st.viewport.num_cols, 4);
}

#[test]
fn move_to_end_of_long_line_scrolls_sideways() {
    let mut st = state_of(&["abcdefghij"], 3, 4);
    st.step(EditorAction::MoveToEndOfLine);
    assert_eq!(st.cursor, cur(0, 10));
    assert_eq!(st.viewport.col_scroll, 7);
}

#[test]
fn vertical_move_truncates_column() {
    let d = doc_of(&["long line", "ab", "another long"]);
    let c = move_cursor(&d, cur(0, 7), 1, 0);
    assert_eq!(c, cur(1, 2));
    let c = move_cursor(&d, c, 1, 0);
    assert_eq!(c, cur(2, 2));
}

#[test]
fn move_cursor_clamps_large_deltas() {
    let d = doc_of(&["abc", "de"]);
    assert_eq!(move_cursor(&d, cur(0, 1), 100, 100), cur(1, 2));
    assert_eq!(move_cursor(&d, cur(1, 1), -100, -100), cur(0, 0));
}

#[test]
fn edit_engine_reports_changes() {
    let mut d = doc_of(&["ab", "cd"]);
    let r = insert_char(&mut d, cur(1, 1), 'x');
    assert_eq!(r.change, ChangeKind::CharInserted);
    assert_eq!((r.first_row, r.end_row), (1, 2));
    assert_eq!(r.cursor, cur(1, 2));
    let r = backspace(&mut d, cur(1, 2));
    assert_eq!(r.change, ChangeKind::CharDeleted);
    assert_eq!(lines_of(&d), vec!["ab", "cd"]);
    let r = split_line(&mut d, cur(0, 1));
    assert_eq!(r.change, ChangeKind::LineSplit);
    assert_eq!((r.first_row, r.end_row), (0, 2));
    let r = backspace(&mut d, cur(1, 0));
    assert_eq!(r.change, ChangeKind::LinesJoined);
    assert_eq!((r.first_row, r.end_row), (0, 1));
    let r = backspace(&mut d, cur(0, 0));
    assert_eq!(r.change, ChangeKind::NoChange);
    assert_eq!(lines_of(&d), vec!["ab", "cd"]);
}

#[test]
fn buffer_rejects_out_of_range_positions() {
    let mut d = doc_of(&["ab"]);
    assert_eq!(d.get_line(1).err(), Some(EditError::OutOfRange));
    assert_eq!(d.insert_char(0, 3, 'x'), Err(EditError::OutOfRange));
    assert_eq!(d.insert_char(1, 0, 'x'), Err(EditError::OutOfRange));
    assert_eq!(d.remove_at(0, 2), Err(EditError::OutOfRange));
    assert_eq!(d.split_line(0, 3), Err(EditError::OutOfRange));
    assert_eq!(d.join_line(0), Err(EditError::OutOfRange));
    assert_eq!(d.join_line(1), Err(EditError::OutOfRange));
    assert_eq!(lines_of(&d), vec!["ab"]);
}

#[test]
fn buffer_edits_in_place() {
    let mut d = doc_of(&["ab", "cd"]);
    d.insert_char(0, 1, 'x').unwrap();
    assert_eq!(lines_of(&d), vec!["axb", "cd"]);
    assert_eq!(d.remove_at(0, 0), Ok('a'));
    assert_eq!(lines_of(&d), vec!["xb", "cd"]);
    d.join_line(1).unwrap();
    assert_eq!(lines_of(&d), vec!["xbcd"]);
    assert_eq!(d.char_at(0, 2), 'c');
}

#[test]
fn empty_file_gives_one_empty_line() {
    let d = Document::from_lines(Vec::new());
    assert_eq!(lines_of(&d), vec![""]);
    assert_eq!(Document::new().num_lines(), 1);
}

#[test]
fn text_joins_lines_with_newlines() {
    let d = doc_of(&["ab", "", "c"]);
    assert_eq!(d.text().iter().collect::<String>(), "ab\n\nc");
    let lines = d.into_lines();
    assert_eq!(lines.len(), 3);
}

#[test]
fn non_ascii_characters_count_as_one_column() {
    let mut st = state_of(&["héllo"], 5, 20);
    st.cursor = cur(0, 2);
    st.step(EditorAction::InsertChar('ü'));
    assert_eq!(lines_of(&st.doc), vec!["héüllo"]);
    assert_eq!(st.cursor, cur(0, 3));
}

#[test]
fn command_mode_collects_and_runs_commands() {
    let mut st = state_of(&["x"], 5, 20);
    let out = st.step(EditorAction::CommandMode);
    assert_eq!(out.status, StatusLine::PendingCommand);
    st.step(EditorAction::CommandChar('w'));
    assert_eq!(st.command_status().iter().collect::<String>(), ":w");
    let out = st.step(EditorAction::CommandEnter);
    assert_eq!(out.request, Request::Save);
    assert_eq!(out.status, StatusLine::FileName);
    assert!(st.command.is_empty());
    st.step(EditorAction::CommandMode);
    st.step(EditorAction::CommandChar('q'));
    assert_eq!(st.step(EditorAction::CommandEnter).request, Request::Quit);
    st.step(EditorAction::CommandMode);
    st.step(EditorAction::CommandChar('z'));
    assert_eq!(st.step(EditorAction::CommandEnter).request, Request::Nothing);
}

#[test]
fn mode_changes_set_cursor_shape() {
    let mut st = state_of(&["abc"], 5, 20);
    let out = st.step(EditorAction::InsertMode);
    assert_eq!(out.shape, Some(CursorShape::Bar));
    let out = st.step(EditorAction::NormalMode);
    assert_eq!(out.shape, Some(CursorShape::Block));
    let out = st.step(EditorAction::Append);
    assert_eq!(out.shape, Some(CursorShape::Bar));
    assert_eq!(st.cursor, cur(0, 1));
    assert_eq!(st.step(EditorAction::Save).request, Request::Save);
    assert_eq!(st.step(EditorAction::Quit).request, Request::Quit);
}
