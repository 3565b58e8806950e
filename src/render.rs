use vstd::prelude::*;
use crate::buffer::Document;
use crate::edit::{ChangeKind, EditResult};
use crate::tracker::{Cursor, Viewport, clamp};

verus! {

/// The shape the terminal draws the cursor in.
#[derive(Debug, Clone, Copy, PartialEq, Eq, Structural)]
pub enum CursorShape {
    Block,
    Bar,
}

/// One command for the terminal. Rows and columns are screen positions from
/// the top left, counted from 0; a scroll region's rows are inclusive.
#[derive(Debug, PartialEq, Eq)]
pub enum RenderCommand {
    MoveTo { row: usize, col: usize },
    ClearLine,
    ClearScreen,
    SetScrollRegion { top: usize, bottom: usize },
    ScrollUp(usize),
    ScrollDown(usize),
    Write(Vec<char>),
}

/// The value of a `RenderCommand`, with the text it writes as a sequence.
pub enum RenderOp {
    MoveTo { row: usize, col: usize },
    ClearLine,
    ClearScreen,
    SetScrollRegion { top: usize, bottom: usize },
    ScrollUp(usize),
    ScrollDown(usize),
    Write(Seq<char>),
}

impl View for RenderCommand {
    type V = RenderOp;

    open spec fn view(&self) -> RenderOp {
        match self {
            RenderCommand::MoveTo { row, col } => RenderOp::MoveTo { row: *row, col: *col },
            RenderCommand::ClearLine => RenderOp::ClearLine,
            RenderCommand::ClearScreen => RenderOp::ClearScreen,
            RenderCommand::SetScrollRegion { top, bottom } => RenderOp::SetScrollRegion {
                top: *top,
                bottom: *bottom,
            },
            RenderCommand::ScrollUp(n) => RenderOp::ScrollUp(*n),
            RenderCommand::ScrollDown(n) => RenderOp::ScrollDown(*n),
            RenderCommand::Write(t) => RenderOp::Write(t@),
        }
    }
}

/// The values of a sequence of commands.
pub open spec fn ops_of(s: Seq<RenderCommand>) -> Seq<RenderOp> {
    s.map_values(|c: RenderCommand| c@)
}

/// The characters of `line` in columns `[from, from + width)`, clipped to the line.
pub open spec fn visible_part(line: Seq<char>, from: int, width: int) -> Seq<char> {
    if from >= line.len() {
        Seq::empty()
    } else if from + width >= line.len() {
        line.subrange(from, line.len() as int)
    } else {
        line.subrange(from, from + width)
    }
}

/// What screen row `i` shows: the visible part of its line, or nothing below
/// the document's end.
pub open spec fn screen_row(d: Seq<Seq<char>>, v: Viewport, i: int) -> Seq<char> {
    if v.row_scroll + i < d.len() {
        visible_part(d[v.row_scroll + i], v.col_scroll as int, v.num_cols as int)
    } else {
        Seq::empty()
    }
}

/// Redraws screen row `i`: moves to its start, clears it, writes its text.
pub open spec fn redraw_row(d: Seq<Seq<char>>, v: Viewport, i: int) -> Seq<RenderOp> {
    seq![
        RenderOp::MoveTo { row: i as usize, col: 0 },
        RenderOp::ClearLine,
        RenderOp::Write(screen_row(d, v, i)),
    ]
}

/// Redraws screen rows `[lo, hi)`, top to bottom.
pub open spec fn redraw_rows(d: Seq<Seq<char>>, v: Viewport, lo: int, hi: int) -> Seq<RenderOp>
    decreases hi - lo,
{
    if hi <= lo {
        Seq::empty()
    } else {
        redraw_rows(d, v, lo, hi - 1) + redraw_row(d, v, hi - 1)
    }
}

/// How many screen rows hold a line of the document.
pub open spec fn shown_rows(d: Seq<Seq<char>>, v: Viewport) -> int {
    clamp(d.len() - v.row_scroll, 0, v.num_rows as int)
}

/// Puts the terminal cursor on the cursor's screen position.
pub open spec fn place_cursor(v: Viewport, c: Cursor) -> Seq<RenderOp> {
    seq![
        RenderOp::MoveTo {
            row: clamp(c.row - v.row_scroll, 0, c.row as int) as usize,
            col: clamp(c.col - v.col_scroll, 0, c.col as int) as usize,
        },
    ]
}

/// The window changed in a way no single-line shift covers: new dimensions, a
/// vertical jump of more than one line, or both axes scrolled at once.
pub open spec fn needs_full_repaint(old: Viewport, new: Viewport) -> bool {
    ||| old.num_rows != new.num_rows
    ||| old.num_cols != new.num_cols
    ||| old.row_scroll > new.row_scroll + 1
    ||| new.row_scroll > old.row_scroll + 1
    ||| (old.row_scroll != new.row_scroll && old.col_scroll != new.col_scroll)
}

/// Shifts screen rows `[top, bottom]` by one: up when `up`, else down.
pub open spec fn region_shift(top: int, bottom: int, full_bottom: int, up: bool) -> Seq<RenderOp> {
    seq![
        RenderOp::SetScrollRegion { top: top as usize, bottom: bottom as usize },
        if up { RenderOp::ScrollUp(1) } else { RenderOp::ScrollDown(1) },
        RenderOp::SetScrollRegion { top: 0, bottom: full_bottom as usize },
    ]
}

/// The full repaint of a window: the screen cleared, each row that holds a
/// line drawn, and the cursor placed; only a cursor placement on a screen with
/// no room.
pub open spec fn full_repaint_spec(d: Seq<Seq<char>>, v: Viewport, c: Cursor) -> Seq<RenderOp> {
    if v.num_rows == 0 || v.num_cols == 0 {
        seq![RenderOp::MoveTo { row: 0, col: 0 }]
    } else {
        seq![RenderOp::ClearScreen] + redraw_rows(d, v, 0, shown_rows(d, v)) + place_cursor(v, c)
    }
}

/// The commands that bring the screen from showing `d` through `old` (as it
/// was before the edit `e`) to showing `d` through `new`.
pub open spec fn plan_spec(d: Seq<Seq<char>>, old: Viewport, new: Viewport, e: EditResult) -> Seq<RenderOp> {
    let n = new.num_rows as int;
    let first = e.first_row - new.row_scroll;
    let end = e.end_row - new.row_scroll;
    let edited = e.change != ChangeKind::NoChange;
    let place = place_cursor(new, e.cursor);
    if new.num_rows == 0 || new.num_cols == 0 || needs_full_repaint(old, new) {
        full_repaint_spec(d, new, e.cursor)
    } else if new.row_scroll == old.row_scroll + 1 {
        let lo = if edited { clamp(first, 0, n - 1) } else { n - 1 };
        seq![RenderOp::ScrollUp(1)] + redraw_rows(d, new, lo, n) + place
    } else if new.row_scroll + 1 == old.row_scroll {
        if e.change == ChangeKind::LinesJoined {
            redraw_rows(d, new, 0, 1) + place
        } else {
            let hi = if edited { clamp(end, 1, n) } else { 1 };
            seq![RenderOp::ScrollDown(1)] + redraw_rows(d, new, 0, hi) + place
        }
    } else if old.col_scroll != new.col_scroll {
        redraw_rows(d, new, 0, n) + place
    } else if e.change == ChangeKind::LineSplit && 0 <= first && first + 2 <= n {
        region_shift(first + 1, n - 1, n - 1, false) + redraw_rows(d, new, first, first + 2) + place
    } else if e.change == ChangeKind::LinesJoined && 0 <= first && first + 1 < n {
        region_shift(first + 1, n - 1, n - 1, true) + redraw_rows(d, new, first, first + 1)
            + redraw_rows(d, new, n - 1, n) + place
    } else {
        redraw_rows(d, new, clamp(first, 0, n), clamp(end, 0, n)) + place
    }
}

/// Appends one command.
fn push_op(out: &mut Vec<RenderCommand>, c: RenderCommand)
    ensures
        ops_of(final(out)@) == ops_of(old(out)@).push(c@),
{
    out.push(c);
    assert(ops_of(out@) =~= ops_of(old(out)@).push(c@));
}

/// The characters of `line` in columns `[from, from + width)`, clipped to the line.
pub fn visible_text(line: &Vec<char>, from: usize, width: usize) -> (r: Vec<char>)
    ensures
        r@ == visible_part(line@, from as int, width as int),
{
    let mut r: Vec<char> = Vec::new();
    if from >= line.len() {
        assert(r@ =~= visible_part(line@, from as int, width as int));
        return r;
    }
    let stop: usize = if width >= line.len() - from { line.len() } else { from + width };
    let mut k: usize = from;
    while k < stop
        invariant
            from <= k <= stop <= line@.len(),
            r@ == line@.subrange(from as int, k as int),
        decreases stop - k,
    {
        r.push(line[k]);
        k = k + 1;
        assert(r@ =~= line@.subrange(from as int, k as int));
    }
    r
}

/// The text of screen row `i`.
fn row_text(doc: &Document, v: Viewport, i: usize) -> (r: Vec<char>)
    ensures
        r@ == screen_row(doc@, v, i as int),
{
    if i >= doc.num_lines() || v.row_scroll >= doc.num_lines() - i {
        return Vec::new();
    }
    match doc.get_line(v.row_scroll + i) {
        Ok(line) => visible_text(line, v.col_scroll, v.num_cols),
        Err(_) => Vec::new(),
    }
}

/// Appends the commands that redraw screen rows `[lo, hi)`.
fn push_redraw_rows(out: &mut Vec<RenderCommand>, doc: &Document, v: Viewport, lo: usize, hi: usize)
    ensures
        ops_of(final(out)@) == ops_of(old(out)@) + redraw_rows(doc@, v, lo as int, hi as int),
{
    let ghost start = ops_of(out@);
    assert(redraw_rows(doc@, v, lo as int, lo as int) =~= Seq::<RenderOp>::empty());
    assert(start + Seq::<RenderOp>::empty() =~= start);
    if hi <= lo {
        assert(redraw_rows(doc@, v, lo as int, hi as int) =~= Seq::<RenderOp>::empty());
        return;
    }
    let mut i: usize = lo;
    while i < hi
        invariant
            lo <= i <= hi,
            ops_of(out@) == start + redraw_rows(doc@, v, lo as int, i as int),
        decreases hi - i,
    {
        let ghost before = ops_of(out@);
        push_op(out, RenderCommand::MoveTo { row: i, col: 0 });
        push_op(out, RenderCommand::ClearLine);
        let text = row_text(doc, v, i);
        push_op(out, RenderCommand::Write(text));
        assert(ops_of(out@) =~= before + redraw_row(doc@, v, i as int));
        i = i + 1;
        assert(redraw_rows(doc@, v, lo as int, i as int)
            == redraw_rows(doc@, v, lo as int, i - 1) + redraw_row(doc@, v, i - 1));
        assert(ops_of(out@) =~= start + redraw_rows(doc@, v, lo as int, i as int));
    }
}

fn clamp_usize(x: usize, lo: usize, hi: usize) -> (r: usize)
    requires
        lo <= hi,
    ensures
        r == clamp(x as int, lo as int, hi as int),
{
    if x < lo {
        lo
    } else if x > hi {
        hi
    } else {
        x
    }
}

/// A screen row of a document row, as an integer that may lie above the screen.
fn screen_offset(row: usize, scroll: usize) -> (r: i128)
    ensures
        r == row - scroll,
{
    row as i128 - scroll as i128
}

fn clamp_wide(x: i128, lo: usize, hi: usize) -> (r: usize)
    requires
        lo <= hi,
    ensures
        r == clamp(x as int, lo as int, hi as int),
{
    if x < lo as i128 {
        lo
    } else if x > hi as i128 {
        hi
    } else {
        x as usize
    }
}

/// Computes the terminal commands that bring the screen up to date after an
/// edit: nothing but a cursor placement when the screen has no room; a full
/// repaint when the window was resized or jumped; a one-line scroll and a
/// redraw of the exposed line when it moved by one line; a scroll-region
/// insert or delete when a line was split or joined in place; a redraw of
/// every row when it scrolled sideways; else a redraw of the edited row alone.
/// The cursor ends on its screen position.
pub fn plan(doc: &Document, old: Viewport, new: Viewport, e: EditResult) -> (r: Vec<RenderCommand>)
    ensures
        ops_of(r@) == plan_spec(doc@, old, new, e),
{
    let full = old.num_rows != new.num_rows || old.num_cols != new.num_cols
        || (old.row_scroll > new.row_scroll && old.row_scroll - new.row_scroll > 1)
        || (new.row_scroll > old.row_scroll && new.row_scroll - old.row_scroll > 1)
        || (old.row_scroll != new.row_scroll && old.col_scroll != new.col_scroll);
    if new.num_rows == 0 || new.num_cols == 0 || full {
        return full_repaint(doc, new, e.cursor);
    }
    let mut out: Vec<RenderCommand> = Vec::new();
    assert(ops_of(out@) =~= Seq::<RenderOp>::empty());
    let n = new.num_rows;
    let first = screen_offset(e.first_row, new.row_scroll);
    let end = screen_offset(e.end_row, new.row_scroll);
    let edited = e.change != ChangeKind::NoChange;
    if new.row_scroll > old.row_scroll {
        push_op(&mut out, RenderCommand::ScrollUp(1));
        let lo = if edited { clamp_wide(first, 0, n - 1) } else { n - 1 };
        push_redraw_rows(&mut out, doc, new, lo, n);
    } else if new.row_scroll < old.row_scroll {
        if e.change != ChangeKind::LinesJoined {
            push_op(&mut out, RenderCommand::ScrollDown(1));
            let hi = if edited { clamp_wide(end, 1, n) } else { 1 };
            push_redraw_rows(&mut out, doc, new, 0, hi);
        } else {
            push_redraw_rows(&mut out, doc, new, 0, 1);
        }
    } else if old.col_scroll != new.col_scroll {
        push_redraw_rows(&mut out, doc, new, 0, n);
    } else if e.change == ChangeKind::LineSplit && 0 <= first && first + 2 <= n as i128 {
        let top = first as usize;
        push_op(&mut out, RenderCommand::SetScrollRegion { top: top + 1, bottom: n - 1 });
        push_op(&mut out, RenderCommand::ScrollDown(1));
        push_op(&mut out, RenderCommand::SetScrollRegion { top: 0, bottom: n - 1 });
        push_redraw_rows(&mut out, doc, new, top, top + 2);
    } else if e.change == ChangeKind::LinesJoined && 0 <= first && first + 1 < n as i128 {
        let top = first as usize;
        push_op(&mut out, RenderCommand::SetScrollRegion { top: top + 1, bottom: n - 1 });
        push_op(&mut out, RenderCommand::ScrollUp(1));
        push_op(&mut out, RenderCommand::SetScrollRegion { top: 0, bottom: n - 1 });
        push_redraw_rows(&mut out, doc, new, top, top + 1);
        push_redraw_rows(&mut out, doc, new, n - 1, n);
    } else {
        push_redraw_rows(&mut out, doc, new, clamp_wide(first, 0, n), clamp_wide(end, 0, n));
    }
    push_place_cursor(&mut out, new, e.cursor);
    assert(ops_of(out@) =~= plan_spec(doc@, old, new, e));
    out
}

fn push_place_cursor(out: &mut Vec<RenderCommand>, v: Viewport, c: Cursor)
    ensures
        ops_of(final(out)@) == ops_of(old(out)@) + place_cursor(v, c),
{
    let row = if c.row >= v.row_scroll { c.row - v.row_scroll } else { 0 };
    let col = if c.col >= v.col_scroll { c.col - v.col_scroll } else { 0 };
    push_op(out, RenderCommand::MoveTo { row, col });
    assert(ops_of(out@) =~= ops_of(old(out)@) + place_cursor(v, c));
}

/// Repaints the whole window: clears the screen, draws each row that holds a
/// line, clipped to the window's columns, and places the cursor. On a screen
/// with no room, only places the cursor at the top left.
pub fn full_repaint(doc: &Document, v: Viewport, c: Cursor) -> (r: Vec<RenderCommand>)
    ensures
        ops_of(r@) == full_repaint_spec(doc@, v, c),
{
    let mut out: Vec<RenderCommand> = Vec::new();
    assert(ops_of(out@) =~= Seq::<RenderOp>::empty());
    if v.num_rows == 0 || v.num_cols == 0 {
        push_op(&mut out, RenderCommand::MoveTo { row: 0, col: 0 });
        assert(ops_of(out@) =~= full_repaint_spec(doc@, v, c));
        return out;
    }
    push_op(&mut out, RenderCommand::ClearScreen);
    let shown = if doc.num_lines() <= v.row_scroll {
        0
    } else {
        clamp_usize(doc.num_lines() - v.row_scroll, 0, v.num_rows)
    };
    push_redraw_rows(&mut out, doc, v, 0, shown);
    push_place_cursor(&mut out, v, c);
    assert(ops_of(out@) =~= full_repaint_spec(doc@, v, c));
    out
}

/// The status line: `text` cut or padded with spaces to exactly `width` characters.
pub open spec fn status_spec(text: Seq<char>, width: int) -> Seq<char> {
    if text.len() >= width {
        text.subrange(0, width)
    } else {
        text + Seq::new((width - text.len()) as nat, |i: int| ' ')
    }
}

/// The text of the status line, `text` cut or padded with spaces to `width`.
pub fn status_text(text: &Vec<char>, width: usize) -> (r: Vec<char>)
    ensures
        r@ == status_spec(text@, width as int),
{
    let mut r: Vec<char> = Vec::new();
    let mut k: usize = 0;
    while k < width
        invariant
            k <= width,
            r@.len() == k,
            forall|j: int| 0 <= j < k ==> r@[j] == if j < text@.len() { text@[j] } else { ' ' },
        decreases width - k,
    {
        if k < text.len() {
            r.push(text[k]);
        } else {
            r.push(' ');
        }
        k = k + 1;
    }
    assert(r@ =~= status_spec(text@, width as int));
    r
}

} // verus!
