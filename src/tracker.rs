use vstd::prelude::*;
use crate::buffer::Document;

verus! {

/// A logical position in the document: line `row`, before character `col`
/// (`col` equal to the line's length is the place after its last character).
#[derive(Debug, Clone, Copy, PartialEq, Eq, Structural)]
pub struct Cursor {
    pub row: usize,
    pub col: usize,
}

/// The visible window into the document: the first line and column shown,
/// and how many rows and columns the screen has for text.
#[derive(Debug, Clone, Copy, PartialEq, Eq, Structural)]
pub struct Viewport {
    pub row_scroll: usize,
    pub col_scroll: usize,
    pub num_rows: usize,
    pub num_cols: usize,
}

/// The cursor names an existing line and a column within it, or just past its end.
pub open spec fn cursor_in(d: Seq<Seq<char>>, c: Cursor) -> bool {
    c.row < d.len() && c.col <= d[c.row as int].len()
}

/// `x` brought into `[lo, hi]`.
pub open spec fn clamp(x: int, lo: int, hi: int) -> int {
    if x < lo {
        lo
    } else if x > hi {
        hi
    } else {
        x
    }
}

/// The cursor moved by the given deltas, the row kept within the document and
/// the column within the line it lands on.
pub open spec fn move_spec(d: Seq<Seq<char>>, c: Cursor, delta_row: int, delta_col: int) -> Cursor {
    let row = clamp(c.row + delta_row, 0, d.len() - 1);
    Cursor { row: row as usize, col: clamp(c.col + delta_col, 0, d[row].len() as int) as usize }
}

/// One scrolling step of one axis: back to the position when it lies before
/// the window, one unit forward when it lies at or past the window's end.
pub open spec fn step_scroll(scroll: int, pos: int, size: int) -> int {
    if pos < scroll {
        pos
    } else if size > 0 && pos >= scroll + size {
        scroll + 1
    } else {
        scroll
    }
}

/// Scrolling one axis straight to the position: the least scroll that shows it
/// when it lies past the window's end.
pub open spec fn jump_scroll(scroll: int, pos: int, size: int) -> int {
    if pos < scroll {
        pos
    } else if size > 0 && pos >= scroll + size {
        pos - size + 1
    } else {
        scroll
    }
}

/// The window after one scrolling step on each axis towards the cursor.
pub open spec fn ensure_visible_spec(v: Viewport, c: Cursor) -> Viewport {
    Viewport {
        row_scroll: step_scroll(v.row_scroll as int, c.row as int, v.num_rows as int) as usize,
        col_scroll: step_scroll(v.col_scroll as int, c.col as int, v.num_cols as int) as usize,
        ..v
    }
}

/// The window scrolled straight to the cursor on each axis.
pub open spec fn scroll_to_spec(v: Viewport, c: Cursor) -> Viewport {
    Viewport {
        row_scroll: jump_scroll(v.row_scroll as int, c.row as int, v.num_rows as int) as usize,
        col_scroll: jump_scroll(v.col_scroll as int, c.col as int, v.num_cols as int) as usize,
        ..v
    }
}

/// The window with new dimensions, scrolled straight to the cursor.
pub open spec fn resize_spec(v: Viewport, c: Cursor, num_rows: usize, num_cols: usize) -> Viewport {
    scroll_to_spec(Viewport { num_rows, num_cols, ..v }, c)
}

/// The scroll offsets never pass the cursor, and on a screen with room for
/// text the cursor lies inside the window.
pub open spec fn scroll_ok(v: Viewport, c: Cursor) -> bool {
    &&& v.row_scroll <= c.row
    &&& v.col_scroll <= c.col
    &&& v.num_rows > 0 ==> c.row < v.row_scroll + v.num_rows
    &&& v.num_cols > 0 ==> c.col < v.col_scroll + v.num_cols
}

/// The cursor lies inside the window.
pub open spec fn cursor_visible(v: Viewport, c: Cursor) -> bool {
    &&& v.row_scroll <= c.row < v.row_scroll + v.num_rows
    &&& v.col_scroll <= c.col <= v.col_scroll + v.num_cols
}

/// The cursor is at most one row and one column past the window's end, as
/// after a single step of movement from a visible position.
pub open spec fn within_one_step(v: Viewport, c: Cursor) -> bool {
    &&& v.num_rows > 0 ==> c.row <= v.row_scroll + v.num_rows
    &&& v.num_cols > 0 ==> c.col <= v.col_scroll + v.num_cols
}

fn clamp_exec(x: i128, lo: i128, hi: i128) -> (r: i128)
    requires
        lo <= hi,
    ensures
        r == clamp(x as int, lo as int, hi as int),
{
    if x < lo {
        lo
    } else if x > hi {
        hi
    } else {
        x
    }
}

/// Moves the cursor by the deltas, clamping the row to the document and the
/// column to the destination line; a vertical move keeps no memory of a
/// longer column.
pub fn move_cursor(doc: &Document, c: Cursor, delta_row: i64, delta_col: i64) -> (r: Cursor)
    requires
        doc.wf(),
    ensures
        r == move_spec(doc@, c, delta_row as int, delta_col as int),
        cursor_in(doc@, r),
{
    let last = doc.num_lines() - 1;
    let row = clamp_exec(c.row as i128 + delta_row as i128, 0, last as i128) as usize;
    let len = doc.line_len(row);
    let col = clamp_exec(c.col as i128 + delta_col as i128, 0, len as i128) as usize;
    Cursor { row, col }
}

impl Viewport {
    /// A window at the top left of the document.
    pub fn new(num_rows: usize, num_cols: usize) -> (r: Viewport)
        ensures
            r == (Viewport { row_scroll: 0, col_scroll: 0, num_rows, num_cols }),
    {
        Viewport { row_scroll: 0, col_scroll: 0, num_rows, num_cols }
    }

    /// Scrolls by at most one unit on each axis so that the cursor shows: back
    /// to it where it lies before the window, one step forward where it lies
    /// at or past the window's end. An axis with no room is not scrolled forward.
    pub fn ensure_visible(&mut self, c: Cursor)
        ensures
            *final(self) == ensure_visible_spec(*old(self), c),
    {
        if c.row < self.row_scroll {
            self.row_scroll = c.row;
        } else if self.num_rows > 0 && c.row - self.row_scroll >= self.num_rows {
            self.row_scroll = self.row_scroll + 1;
        }
        if c.col < self.col_scroll {
            self.col_scroll = c.col;
        } else if self.num_cols > 0 && c.col - self.col_scroll >= self.num_cols {
            self.col_scroll = self.col_scroll + 1;
        }
    }

    /// Scrolls straight to the cursor: where it lies outside the window, the
    /// window's nearest edge is put on it.
    pub fn scroll_to(&mut self, c: Cursor)
        ensures
            *final(self) == scroll_to_spec(*old(self), c),
            scroll_ok(*final(self), c),
    {
        if c.row < self.row_scroll {
            self.row_scroll = c.row;
        } else if self.num_rows > 0 && c.row - self.row_scroll >= self.num_rows {
            self.row_scroll = c.row - self.num_rows + 1;
        }
        if c.col < self.col_scroll {
            self.col_scroll = c.col;
        } else if self.num_cols > 0 && c.col - self.col_scroll >= self.num_cols {
            self.col_scroll = c.col - self.num_cols + 1;
        }
    }

    /// Takes new screen dimensions and scrolls straight to the cursor.
    pub fn resize(&mut self, c: Cursor, num_rows: usize, num_cols: usize)
        ensures
            *final(self) == resize_spec(*old(self), c, num_rows, num_cols),
            scroll_ok(*final(self), c),
    {
        self.num_rows = num_rows;
        self.num_cols = num_cols;
        self.scroll_to(c);
    }
}

/// `ensure_visible` settles in one call from any position at most one step
/// past the window: a second call changes nothing.
pub proof fn lemma_ensure_visible_idempotent(v: Viewport, c: Cursor)
    requires
        within_one_step(v, c),
    ensures
        ensure_visible_spec(ensure_visible_spec(v, c), c) == ensure_visible_spec(v, c),
{
}

/// From a position at most one step past the window, with scroll offsets
/// that do not pass the cursor, one `ensure_visible` puts the cursor in view.
pub proof fn lemma_ensure_visible_shows(v: Viewport, c: Cursor)
    requires
        within_one_step(v, c),
    ensures
        scroll_ok(ensure_visible_spec(v, c), c),
{
}

} // verus!
