use modal_editor::dispatch::EditorAction;
use modal_editor::editor::EditorState;
use modal_editor::render::{plan, status_text, visible_text, RenderCommand};
use modal_editor::edit::{ChangeKind, EditResult};
use modal_editor::buffer::Document;
use modal_editor::tracker::{Cursor, Viewport};

use RenderCommand::{ClearLine, ClearScreen, MoveTo, ScrollDown, ScrollUp, SetScrollRegion, Write};

fn chars(s: &str) -> Vec<char> {
    s.chars().collect()
}

fn state_of(lines: &[&str], rows: usize, cols: usize) -> EditorState {
    EditorState::new(lines.iter().map(|l| chars(l)).collect(), rows, cols)
}

fn write(s: &str) -> RenderCommand {
    Write(chars(s))
}

fn redraw(row: usize, s: &str) -> Vec<RenderCommand> {
    vec![MoveTo { row, col: 0 }, ClearLine, write(s)]
}

#[test]
fn no_room_gives_only_cursor_placement() {
    let doc = Document::from_lines(vec![chars("abc")]);
    let old = Viewport { row_scroll: 0, col_scroll: 0, num_rows: 4, num_cols: 10 };
    let new = Viewport { num_rows: 0, ..old };
    let e = EditResult { cursor: Cursor { row: 0, col: 2 }, change: ChangeKind::NoChange, first_row: 0, end_row: 0 };
    assert_eq!(plan(&doc, old, new, e), vec![MoveTo { row: 0, col: 0 }]);
    let new = Viewport { num_cols: 0, ..old };
    assert_eq!(plan(&doc, old, new, e), vec![MoveTo { row: 0, col: 0 }]);
}

#[test]
fn resize_repaints_whole_window() {
    let mut st = state_of(&["ab", "cd", "ef"], 2, 10);
    let got = st.resize(2, 1);
    let mut want = vec![ClearScreen];
    want.extend(redraw(0, "a"));
    want.extend(redraw(1, "c"));
    want.push(MoveTo { row: 0, col: 0 });
    assert_eq!(got, want);
}

#[test]
fn first_paint_draws_lines_that_exist() {
    let st = state_of(&["one", "two"], 4, 10);
    let mut want = vec![ClearScreen];
    want.extend(redraw(0, "one"));
    want.extend(redraw(1, "two"));
    want.push(MoveTo { row: 0, col: 0 });
    assert_eq!(st.print_screen(), want);
}

#[test]
fn move_down_past_bottom_scrolls_and_draws_new_line() {
    let mut st = state_of(&["1", "2", "3"], 2, 10);
    st.cursor = Cursor { row: 1, col: 0 };
    let out = st.step(EditorAction::MoveDown);
    assert_eq!(st.viewport.row_scroll, 1);
    let mut want = vec![ScrollUp(1)];
    want.extend(redraw(1, "3"));
    want.push(MoveTo { row: 1, col: 0 });
    assert_eq!(out.plan, want);
}

#[test]
fn move_up_past_top_scrolls_and_draws_new_line() {
    let mut st = state_of(&["a", "b", "c"], 2, 10);
    st.cursor = Cursor { row: 1, col: 0 };
    st.viewport.row_scroll = 1;
    let out = st.step(EditorAction::MoveUp);
    assert_eq!(st.viewport.row_scroll, 0);
    let mut want = vec![ScrollDown(1)];
    want.extend(redraw(0, "a"));
    want.push(MoveTo { row: 0, col: 0 });
    assert_eq!(out.plan, want);
}

#[test]
fn split_in_place_inserts_a_row() {
    let mut st = state_of(&["abc", "def"], 5, 10);
    st.cursor = Cursor { row: 0, col: 1 };
    let out = st.step(EditorAction::SplitLine);
    let mut want = vec![
        SetScrollRegion { top: 1, bottom: 4 },
        ScrollDown(1),
        SetScrollRegion { top: 0, bottom: 4 },
    ];
    want.extend(redraw(0, "a"));
    want.extend(redraw(1, "bc"));
    want.push(MoveTo { row: 1, col: 0 });
    assert_eq!(out.plan, want);
}

#[test]
fn split_on_bottom_row_scrolls_up() {
    let mut st = state_of(&["a", "b"], 2, 10);
    st.cursor = Cursor { row: 1, col: 1 };
    let out = st.step(EditorAction::SplitLine);
    assert_eq!(st.viewport.row_scroll, 1);
    let mut want = vec![ScrollUp(1)];
    want.extend(redraw(0, "b"));
    want.extend(redraw(1, ""));
    want.push(MoveTo { row: 1, col: 0 });
    assert_eq!(out.plan, want);
}

#[test]
fn join_in_place_deletes_a_row() {
    let mut st = state_of(&["ab", "cd", "ef"], 5, 10);
    st.cursor = Cursor { row: 1, col: 0 };
    let out = st.step(EditorAction::Backspace);
    let mut want = vec![
        SetScrollRegion { top: 1, bottom: 4 },
        ScrollUp(1),
        SetScrollRegion { top: 0, bottom: 4 },
    ];
    want.extend(redraw(0, "abcd"));
    want.extend(redraw(4, ""));
    want.push(MoveTo { row: 0, col: 2 });
    assert_eq!(out.plan, want);
}

#[test]
fn join_on_top_row_redraws_only_that_row() {
    let mut st = state_of(&["ab", "cd", "ef"], 2, 10);
    st.cursor = Cursor { row: 1, col: 0 };
    st.viewport.row_scroll = 1;
    let out = st.step(EditorAction::Backspace);
    assert_eq!(st.viewport.row_scroll, 0);
    let mut want = redraw(0, "abcd");
    want.push(MoveTo { row: 0, col: 2 });
    assert_eq!(out.plan, want);
}

#[test]
fn typing_redraws_only_the_edited_row() {
    let mut st = state_of(&["ab", "zz"], 5, 10);
    st.cursor = Cursor { row: 0, col: 2 };
    let out = st.step(EditorAction::InsertChar('c'));
    let mut want = redraw(0, "abc");
    want.push(MoveTo { row: 0, col: 3 });
    assert_eq!(out.plan, want);
}

#[test]
fn plain_move_only_places_cursor() {
    let mut st = state_of(&["abc"], 5, 10);
    let out = st.step(EditorAction::MoveRight);
    assert_eq!(out.plan, vec![MoveTo { row: 0, col: 1 }]);
}

#[test]
fn sideways_scroll_redraws_every_row() {
    let mut st = state_of(&["abcd", "xyz"], 3, 2);
    st.cursor = Cursor { row: 0, col: 1 };
    let out = st.step(EditorAction::MoveRight);
    assert_eq!(st.viewport.col_scroll, 1);
    let mut want = redraw(0, "bc");
    want.extend(redraw(1, "yz"));
    want.extend(redraw(2, ""));
    want.push(MoveTo { row: 0, col: 1 });
    assert_eq!(out.plan, want);
}

#[test]
fn scroll_jump_of_several_rows_repaints_everything() {
    let doc = Document::from_lines(vec![chars("a"), chars("b"), chars("c"), chars("d")]);
    let old = Viewport { row_scroll: 0, col_scroll: 0, num_rows: 2, num_cols: 5 };
    let new = Viewport { row_scroll: 2, ..old };
    let e = EditResult { cursor: Cursor { row: 3, col: 0 }, change: ChangeKind::NoChange, first_row: 3, end_row: 3 };
    let mut want = vec![ClearScreen];
    want.extend(redraw(0, "c"));
    want.extend(redraw(1, "d"));
    want.push(MoveTo { row: 1, col: 0 });
    assert_eq!(plan(&doc, old, new, e), want);
}

#[test]
fn visible_text_clips_to_window() {
    let line = chars("abcdef");
    assert_eq!(visible_text(&line, 2, 3), chars("cde"));
    assert_eq!(visible_text(&line, 4, 10), chars("ef"));
    assert_eq!(visible_text(&line, 10, 3), chars(""));
}

#[test]
fn status_text_pads_or_cuts() {
    assert_eq!(status_text(&chars("abc"), 5), chars("abc  "));
    assert_eq!(status_text(&chars("abcdef"), 3), chars("abc"));
    assert_eq!(status_text(&chars(""), 0), chars(""));
}
