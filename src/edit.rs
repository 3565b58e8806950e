use vstd::prelude::*;
use crate::buffer::{Document, split_spec, join_spec, insert_char_spec, remove_at_spec};
use crate::tracker::{Cursor, cursor_in};

verus! {

/// What an edit did to the document's structure.
#[derive(Debug, Clone, Copy, PartialEq, Eq, Structural)]
pub enum ChangeKind {
    CharInserted,
    CharDeleted,
    LineSplit,
    LinesJoined,
    NoChange,
}

/// The outcome of one edit: where the cursor went, what changed, and the rows
/// `[first_row, end_row)` of the new document whose text changed.
#[derive(Debug, Clone, Copy, PartialEq, Eq, Structural)]
pub struct EditResult {
    pub cursor: Cursor,
    pub change: ChangeKind,
    pub first_row: usize,
    pub end_row: usize,
}

/// The result of an action that changed no text.
pub open spec fn unchanged_spec(c: Cursor) -> EditResult {
    EditResult { cursor: c, change: ChangeKind::NoChange, first_row: c.row, end_row: c.row }
}

pub open spec fn insert_outcome(d: Seq<Seq<char>>, c: Cursor, ch: char) -> (Seq<Seq<char>>, EditResult) {
    (
        insert_char_spec(d, c.row as int, c.col as int, ch),
        EditResult {
            cursor: Cursor { row: c.row, col: (c.col + 1) as usize },
            change: ChangeKind::CharInserted,
            first_row: c.row,
            end_row: (c.row + 1) as usize,
        },
    )
}

pub open spec fn backspace_outcome(d: Seq<Seq<char>>, c: Cursor) -> (Seq<Seq<char>>, EditResult) {
    if c.col > 0 {
        (
            remove_at_spec(d, c.row as int, c.col - 1),
            EditResult {
                cursor: Cursor { row: c.row, col: (c.col - 1) as usize },
                change: ChangeKind::CharDeleted,
                first_row: c.row,
                end_row: (c.row + 1) as usize,
            },
        )
    } else if c.row > 0 {
        (
            join_spec(d, c.row as int),
            EditResult {
                cursor: Cursor { row: (c.row - 1) as usize, col: d[c.row - 1].len() as usize },
                change: ChangeKind::LinesJoined,
                first_row: (c.row - 1) as usize,
                end_row: c.row,
            },
        )
    } else {
        (d, unchanged_spec(c))
    }
}

pub open spec fn split_outcome(d: Seq<Seq<char>>, c: Cursor) -> (Seq<Seq<char>>, EditResult) {
    (
        split_spec(d, c.row as int, c.col as int),
        EditResult {
            cursor: Cursor { row: (c.row + 1) as usize, col: 0 },
            change: ChangeKind::LineSplit,
            first_row: c.row,
            end_row: (c.row + 2) as usize,
        },
    )
}

/// Inserts `ch` at the cursor and moves the cursor past it.
pub fn insert_char(doc: &mut Document, c: Cursor, ch: char) -> (r: EditResult)
    requires
        old(doc).wf(),
        cursor_in(old(doc)@, c),
    ensures
        (final(doc)@, r) == insert_outcome(old(doc)@, c, ch),
        final(doc).wf(),
        cursor_in(final(doc)@, r.cursor),
{
    let _ = doc.insert_char(c.row, c.col, ch);
    let _ = doc.line_len(c.row);
    let _ = doc.num_lines();
    EditResult {
        cursor: Cursor { row: c.row, col: c.col + 1 },
        change: ChangeKind::CharInserted,
        first_row: c.row,
        end_row: c.row + 1,
    }
}

/// Deletes the character before the cursor; at the start of a line other than
/// the first, joins the line onto the previous one and puts the cursor where
/// they meet; at the start of the document, changes nothing.
pub fn backspace(doc: &mut Document, c: Cursor) -> (r: EditResult)
    requires
        old(doc).wf(),
        cursor_in(old(doc)@, c),
    ensures
        (final(doc)@, r) == backspace_outcome(old(doc)@, c),
        final(doc).wf(),
        cursor_in(final(doc)@, r.cursor),
{
    let _ = doc.num_lines();
    if c.col > 0 {
        let _ = doc.remove_at(c.row, c.col - 1);
        EditResult {
            cursor: Cursor { row: c.row, col: c.col - 1 },
            change: ChangeKind::CharDeleted,
            first_row: c.row,
            end_row: c.row + 1,
        }
    } else if c.row > 0 {
        let prev_len = doc.line_len(c.row - 1);
        let _ = doc.join_line(c.row);
        EditResult {
            cursor: Cursor { row: c.row - 1, col: prev_len },
            change: ChangeKind::LinesJoined,
            first_row: c.row - 1,
            end_row: c.row,
        }
    } else {
        EditResult { cursor: c, change: ChangeKind::NoChange, first_row: c.row, end_row: c.row }
    }
}

/// Splits the line at the cursor and moves the cursor to the start of the new line.
pub fn split_line(doc: &mut Document, c: Cursor) -> (r: EditResult)
    requires
        old(doc).wf(),
        cursor_in(old(doc)@, c),
    ensures
        (final(doc)@, r) == split_outcome(old(doc)@, c),
        final(doc).wf(),
        cursor_in(final(doc)@, r.cursor),
{
    let _ = doc.split_line(c.row, c.col);
    let _ = doc.num_lines();
    EditResult {
        cursor: Cursor { row: c.row + 1, col: 0 },
        change: ChangeKind::LineSplit,
        first_row: c.row,
        end_row: c.row + 2,
    }
}

/// Splitting a line and joining it straight back gives the original lines.
pub proof fn lemma_split_join_round_trip(d: Seq<Seq<char>>, row: int, col: int)
    requires
        0 <= row < d.len(),
        0 <= col <= d[row].len(),
    ensures
        join_spec(split_spec(d, row, col), row + 1) == d,
{
    let s = split_spec(d, row, col);
    assert(s[row] + s[row + 1] =~= d[row]);
    assert(join_spec(s, row + 1) =~= d);
}

/// A line split at the cursor followed by a backspace at the start of the new
/// line restores the original lines and puts the cursor back where it was.
pub proof fn lemma_split_backspace_round_trip(d: Seq<Seq<char>>, c: Cursor)
    requires
        1 <= d.len() <= usize::MAX,
        cursor_in(d, c),
    ensures
        ({
            let (d1, r1) = split_outcome(d, c);
            let (d2, r2) = backspace_outcome(d1, r1.cursor);
            d2 == d && r2.cursor == c && r2.change == ChangeKind::LinesJoined
        }),
{
    lemma_split_join_round_trip(d, c.row as int, c.col as int);
    let (d1, r1) = split_outcome(d, c);
    assert(d1[c.row as int].len() == c.col);
}

} // verus!
