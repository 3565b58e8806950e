use vstd::prelude::*;
use crate::render::{
    RenderOp, full_repaint_spec, place_cursor, redraw_row, redraw_rows, region_shift, screen_row,
    shown_rows,
};
use crate::buffer::{join_spec, split_spec};
use crate::dispatch::EditorAction;
use crate::edit::{ChangeKind, EditResult, unchanged_spec};
use crate::editor::{action_outcome, viewport_after};
use crate::render::{needs_full_repaint, plan_spec};
use crate::tracker::{Cursor, Viewport, cursor_in, scroll_ok};

verus! {

/// What a terminal shows: its rows of text, where it writes next, and the
/// inclusive bounds of its scroll region.
pub struct Screen {
    pub rows: Seq<Seq<char>>,
    pub row: int,
    pub col: int,
    pub top: int,
    pub bottom: int,
}

/// `line` with `t` written over it from column `col`, padded with spaces
/// where `col` lies past its end.
pub open spec fn overwrite(line: Seq<char>, col: int, t: Seq<char>) -> Seq<char> {
    let padded = if col <= line.len() {
        line
    } else {
        line + Seq::new((col - line.len()) as nat, |i: int| ' ')
    };
    let rest = if col + t.len() < padded.len() {
        padded.subrange(col + t.len(), padded.len() as int)
    } else {
        Seq::empty()
    };
    padded.subrange(0, col) + t + rest
}

/// The effect of one command on a terminal.
pub open spec fn apply_op(s: Screen, op: RenderOp) -> Screen {
    match op {
        RenderOp::MoveTo { row, col } => Screen { row: row as int, col: col as int, ..s },
        RenderOp::ClearLine => if 0 <= s.row < s.rows.len() {
            Screen { rows: s.rows.update(s.row, Seq::empty()), ..s }
        } else {
            s
        },
        RenderOp::ClearScreen => Screen {
            rows: Seq::new(s.rows.len(), |i: int| Seq::<char>::empty()),
            ..s
        },
        RenderOp::SetScrollRegion { top, bottom } => Screen { top: top as int, bottom: bottom as int, ..s },
        RenderOp::ScrollUp(k) => Screen {
            rows: Seq::new(
                s.rows.len(),
                |i: int|
                    if s.top <= i <= s.bottom && i + k <= s.bottom {
                        s.rows[i + k]
                    } else if s.top <= i <= s.bottom {
                        Seq::empty()
                    } else {
                        s.rows[i]
                    },
            ),
            ..s
        },
        RenderOp::ScrollDown(k) => Screen {
            rows: Seq::new(
                s.rows.len(),
                |i: int|
                    if s.top <= i <= s.bottom && i - k >= s.top {
                        s.rows[i - k]
                    } else if s.top <= i <= s.bottom {
                        Seq::empty()
                    } else {
                        s.rows[i]
                    },
            ),
            ..s
        },
        RenderOp::Write(t) => if 0 <= s.row < s.rows.len() && 0 <= s.col {
            Screen {
                rows: s.rows.update(s.row, overwrite(s.rows[s.row], s.col, t)),
                col: s.col + t.len(),
                ..s
            }
        } else {
            s
        },
    }
}

/// The effect of a sequence of commands, first to last.
pub open spec fn run_ops(s: Screen, ops: Seq<RenderOp>) -> Screen
    decreases ops.len(),
{
    if ops.len() == 0 {
        s
    } else {
        run_ops(apply_op(s, ops[0]), ops.drop_first())
    }
}

/// What the window shows of the document, row by row.
pub open spec fn screen_of(d: Seq<Seq<char>>, v: Viewport) -> Seq<Seq<char>> {
    Seq::new(v.num_rows as nat, |i: int| screen_row(d, v, i))
}

proof fn lemma_run_concat(s: Screen, a: Seq<RenderOp>, b: Seq<RenderOp>)
    ensures
        run_ops(s, a + b) == run_ops(run_ops(s, a), b),
    decreases a.len(),
{
    if a.len() == 0 {
        assert(a + b =~= b);
    } else {
        assert((a + b)[0] == a[0]);
        assert((a + b).drop_first() =~= a.drop_first() + b);
        lemma_run_concat(apply_op(s, a[0]), a.drop_first(), b);
    }
}

proof fn lemma_run_single(s: Screen, op: RenderOp)
    ensures
        run_ops(s, seq![op]) == apply_op(s, op),
{
    let ops = seq![op];
    assert(ops.drop_first() =~= Seq::<RenderOp>::empty());
    assert(run_ops(apply_op(s, op), ops.drop_first()) == apply_op(s, op));
}

proof fn lemma_run_redraw_row(s: Screen, d: Seq<Seq<char>>, v: Viewport, i: int)
    requires
        0 <= i < s.rows.len(),
        i <= usize::MAX,
    ensures
        run_ops(s, redraw_row(d, v, i)).rows == s.rows.update(i, screen_row(d, v, i)),
        run_ops(s, redraw_row(d, v, i)).top == s.top,
        run_ops(s, redraw_row(d, v, i)).bottom == s.bottom,
{
    let t = screen_row(d, v, i);
    let a = RenderOp::MoveTo { row: i as usize, col: 0 };
    let b = RenderOp::ClearLine;
    let c = RenderOp::Write(t);
    assert(redraw_row(d, v, i) =~= seq![a] + seq![b] + seq![c]);
    lemma_run_concat(s, seq![a] + seq![b], seq![c]);
    lemma_run_concat(s, seq![a], seq![b]);
    lemma_run_single(s, a);
    let s1 = apply_op(s, a);
    lemma_run_single(s1, b);
    let s2 = apply_op(s1, b);
    lemma_run_single(s2, c);
    let s3 = apply_op(s2, c);
    assert(overwrite(Seq::<char>::empty(), 0, t) =~= t);
    assert(s3.rows =~= s.rows.update(i, t));
}

/// Redrawing rows `[lo, hi)` puts the window's text on exactly those rows.
proof fn lemma_run_redraw_rows(s: Screen, d: Seq<Seq<char>>, v: Viewport, lo: int, hi: int)
    requires
        0 <= lo,
        hi <= s.rows.len(),
        s.rows.len() <= usize::MAX,
    ensures
        run_ops(s, redraw_rows(d, v, lo, hi)).rows == Seq::new(
            s.rows.len(),
            |k: int| if lo <= k < hi { screen_row(d, v, k) } else { s.rows[k] },
        ),
        run_ops(s, redraw_rows(d, v, lo, hi)).top == s.top,
        run_ops(s, redraw_rows(d, v, lo, hi)).bottom == s.bottom,
    decreases hi - lo,
{
    if hi <= lo {
        assert(s.rows =~= Seq::new(
            s.rows.len(),
            |k: int| if lo <= k < hi { screen_row(d, v, k) } else { s.rows[k] },
        ));
    } else {
        lemma_run_redraw_rows(s, d, v, lo, hi - 1);
        let s1 = run_ops(s, redraw_rows(d, v, lo, hi - 1));
        lemma_run_concat(s, redraw_rows(d, v, lo, hi - 1), redraw_row(d, v, hi - 1));
        lemma_run_redraw_row(s1, d, v, hi - 1);
        assert(run_ops(s, redraw_rows(d, v, lo, hi)).rows =~= Seq::new(
            s.rows.len(),
            |k: int| if lo <= k < hi { screen_row(d, v, k) } else { s.rows[k] },
        ));
    }
}

proof fn lemma_run_place(s: Screen, v: Viewport, c: Cursor)
    ensures
        run_ops(s, place_cursor(v, c)).rows == s.rows,
{
    lemma_run_single(s, place_cursor(v, c)[0]);
    assert(place_cursor(v, c) =~= seq![place_cursor(v, c)[0]]);
}

/// A full repaint leaves on the screen exactly what the window shows of the
/// document, whatever the screen showed before.
pub proof fn lemma_full_repaint_shows_window(s: Screen, d: Seq<Seq<char>>, v: Viewport, c: Cursor)
    requires
        v.num_rows > 0,
        v.num_cols > 0,
        s.rows.len() == v.num_rows,
    ensures
        run_ops(s, full_repaint_spec(d, v, c)).rows == screen_of(d, v),
{
    let clear = seq![RenderOp::ClearScreen];
    let body = redraw_rows(d, v, 0, shown_rows(d, v));
    let place = place_cursor(v, c);
    lemma_run_concat(s, clear + body, place);
    lemma_run_concat(s, clear, body);
    let s1 = run_ops(s, clear);
    lemma_run_single(s, RenderOp::ClearScreen);
    lemma_run_redraw_rows(s1, d, v, 0, shown_rows(d, v));
    let s2 = run_ops(s1, body);
    lemma_run_place(s2, v, c);
    assert(s2.rows =~= screen_of(d, v));
}

/// A screen whose scroll region is all of its `n` rows.
pub open spec fn whole_region(s: Screen, n: int) -> bool {
    s.rows.len() == n && s.top == 0 && s.bottom == n - 1
}

/// Redraws of `[lo, hi)` then a cursor placement leave the window's text,
/// given that every other row already shows it.
proof fn lemma_redraw_completes(s: Screen, d: Seq<Seq<char>>, v: Viewport, c: Cursor, lo: int, hi: int)
    requires
        0 <= lo,
        hi <= s.rows.len(),
        s.rows.len() == v.num_rows,
        forall|i: int| 0 <= i < s.rows.len() && !(lo <= i < hi) ==> s.rows[i] == screen_row(d, v, i),
    ensures
        run_ops(s, redraw_rows(d, v, lo, hi) + place_cursor(v, c)).rows == screen_of(d, v),
{
    lemma_run_concat(s, redraw_rows(d, v, lo, hi), place_cursor(v, c));
    lemma_run_redraw_rows(s, d, v, lo, hi);
    lemma_run_place(run_ops(s, redraw_rows(d, v, lo, hi)), v, c);
    assert(run_ops(s, redraw_rows(d, v, lo, hi)).rows =~= screen_of(d, v));
}

/// The window scrolled down one line: the screen shifts up, and rows from
/// `lo` on are redrawn.
proof fn lemma_scroll_up_then_redraw(s: Screen, d: Seq<Seq<char>>, v: Viewport, c: Cursor, lo: int)
    requires
        whole_region(s, v.num_rows as int),
        0 <= lo < v.num_rows,
        forall|i: int| 0 <= i < lo ==> screen_row(d, v, i) == s.rows[i + 1],
    ensures
        run_ops(s, seq![RenderOp::ScrollUp(1)] + redraw_rows(d, v, lo, v.num_rows as int) + place_cursor(v, c)).rows
            == screen_of(d, v),
{
    let n = v.num_rows as int;
    let rest = redraw_rows(d, v, lo, n) + place_cursor(v, c);
    assert(seq![RenderOp::ScrollUp(1)] + redraw_rows(d, v, lo, n) + place_cursor(v, c)
        =~= seq![RenderOp::ScrollUp(1)] + rest);
    lemma_run_concat(s, seq![RenderOp::ScrollUp(1)], rest);
    lemma_run_single(s, RenderOp::ScrollUp(1));
    lemma_redraw_completes(apply_op(s, RenderOp::ScrollUp(1)), d, v, c, lo, n);
}

/// The window scrolled up one line: the screen shifts down, and rows before
/// `hi` are redrawn.
proof fn lemma_scroll_down_then_redraw(s: Screen, d: Seq<Seq<char>>, v: Viewport, c: Cursor, hi: int)
    requires
        whole_region(s, v.num_rows as int),
        1 <= hi <= v.num_rows,
        forall|i: int| hi <= i < v.num_rows ==> screen_row(d, v, i) == s.rows[i - 1],
    ensures
        run_ops(s, seq![RenderOp::ScrollDown(1)] + redraw_rows(d, v, 0, hi) + place_cursor(v, c)).rows
            == screen_of(d, v),
{
    let rest = redraw_rows(d, v, 0, hi) + place_cursor(v, c);
    assert(seq![RenderOp::ScrollDown(1)] + redraw_rows(d, v, 0, hi) + place_cursor(v, c)
        =~= seq![RenderOp::ScrollDown(1)] + rest);
    lemma_run_concat(s, seq![RenderOp::ScrollDown(1)], rest);
    lemma_run_single(s, RenderOp::ScrollDown(1));
    lemma_redraw_completes(apply_op(s, RenderOp::ScrollDown(1)), d, v, c, 0, hi);
}

/// Shifting rows `[top, n)` by one inside a scroll region, then restoring
/// the whole screen as the region.
proof fn lemma_run_region_shift(s: Screen, top: int, n: int, up: bool)
    requires
        whole_region(s, n),
        1 <= top < n <= usize::MAX,
    ensures
        whole_region(run_ops(s, region_shift(top, n - 1, n - 1, up)), n),
        forall|i: int| 0 <= i < top ==> run_ops(s, region_shift(top, n - 1, n - 1, up)).rows[i] == s.rows[i],
        up ==> forall|i: int|
            top <= i < n - 1 ==> #[trigger] run_ops(s, region_shift(top, n - 1, n - 1, up)).rows[i] == s.rows[i + 1],
        !up ==> forall|i: int|
            top < i < n ==> #[trigger] run_ops(s, region_shift(top, n - 1, n - 1, up)).rows[i] == s.rows[i - 1],
{
    let a = RenderOp::SetScrollRegion { top: top as usize, bottom: (n - 1) as usize };
    let b = if up { RenderOp::ScrollUp(1) } else { RenderOp::ScrollDown(1) };
    let c = RenderOp::SetScrollRegion { top: 0, bottom: (n - 1) as usize };
    assert(region_shift(top, n - 1, n - 1, up) =~= seq![a] + seq![b] + seq![c]);
    lemma_run_concat(s, seq![a] + seq![b], seq![c]);
    lemma_run_concat(s, seq![a], seq![b]);
    lemma_run_single(s, a);
    lemma_run_single(apply_op(s, a), b);
    lemma_run_single(apply_op(apply_op(s, a), b), c);
}

/// A line inserted at screen row `j + 1`: the rows below move down inside a
/// scroll region, and rows `j` and `j + 1` are redrawn.
proof fn lemma_insert_row(s: Screen, d: Seq<Seq<char>>, v: Viewport, c: Cursor, j: int)
    requires
        whole_region(s, v.num_rows as int),
        0 <= j,
        j + 2 <= v.num_rows,
        forall|i: int| 0 <= i < j ==> screen_row(d, v, i) == s.rows[i],
        forall|i: int| j + 2 <= i < v.num_rows ==> screen_row(d, v, i) == s.rows[i - 1],
    ensures
        run_ops(s, region_shift(j + 1, v.num_rows - 1, v.num_rows - 1, false) + redraw_rows(d, v, j, j + 2)
            + place_cursor(v, c)).rows == screen_of(d, v),
{
    let n = v.num_rows as int;
    let shift = region_shift(j + 1, n - 1, n - 1, false);
    let rest = redraw_rows(d, v, j, j + 2) + place_cursor(v, c);
    assert(shift + redraw_rows(d, v, j, j + 2) + place_cursor(v, c) =~= shift + rest);
    lemma_run_concat(s, shift, rest);
    lemma_run_region_shift(s, j + 1, n, false);
    lemma_redraw_completes(run_ops(s, shift), d, v, c, j, j + 2);
}

/// A line deleted at screen row `j + 1`: the rows below move up inside a
/// scroll region, and row `j` and the bottom row are redrawn.
proof fn lemma_delete_row(s: Screen, d: Seq<Seq<char>>, v: Viewport, c: Cursor, j: int)
    requires
        whole_region(s, v.num_rows as int),
        0 <= j,
        j + 1 < v.num_rows,
        forall|i: int| 0 <= i < j ==> screen_row(d, v, i) == s.rows[i],
        forall|i: int| j + 1 <= i < v.num_rows - 1 ==> screen_row(d, v, i) == s.rows[i + 1],
    ensures
        run_ops(s, region_shift(j + 1, v.num_rows - 1, v.num_rows - 1, true) + redraw_rows(d, v, j, j + 1)
            + redraw_rows(d, v, v.num_rows - 1, v.num_rows as int) + place_cursor(v, c)).rows
            == screen_of(d, v),
{
    let n = v.num_rows as int;
    let shift = region_shift(j + 1, n - 1, n - 1, true);
    let mid = redraw_rows(d, v, j, j + 1);
    let rest = redraw_rows(d, v, n - 1, n) + place_cursor(v, c);
    assert(shift + mid + redraw_rows(d, v, n - 1, n) + place_cursor(v, c) =~= (shift + mid) + rest);
    lemma_run_concat(s, shift + mid, rest);
    lemma_run_concat(s, shift, mid);
    lemma_run_region_shift(s, j + 1, n, true);
    let s1 = run_ops(s, shift);
    lemma_run_redraw_rows(s1, d, v, j, j + 1);
    lemma_redraw_completes(run_ops(s1, mid), d, v, c, n - 1, n);
}

proof fn lemma_split_index(d: Seq<Seq<char>>, r: int, c: int)
    requires
        0 <= r < d.len(),
        0 <= c <= d[r].len(),
    ensures
        split_spec(d, r, c).len() == d.len() + 1,
        forall|k: int| 0 <= k < r ==> #[trigger] split_spec(d, r, c)[k] == d[k],
        forall|k: int| r + 2 <= k < d.len() + 1 ==> #[trigger] split_spec(d, r, c)[k] == d[k - 1],
{
    let u = d.update(r, d[r].subrange(0, c));
    u.insert_ensures(r + 1, d[r].subrange(c, d[r].len() as int));
}

proof fn lemma_join_index(d: Seq<Seq<char>>, r: int)
    requires
        0 < r < d.len(),
    ensures
        join_spec(d, r).len() == d.len() - 1,
        forall|k: int| 0 <= k < r - 1 ==> #[trigger] join_spec(d, r)[k] == d[k],
        forall|k: int| r <= k < d.len() - 1 ==> #[trigger] join_spec(d, r)[k] == d[k + 1],
{
    let u = d.update(r - 1, d[r - 1] + d[r]);
    u.remove_ensures(r);
}

/// Planning with the document unchanged: whatever the window did, the screen
/// ends up showing the new window.
proof fn lemma_plan_same_document(s: Screen, d: Seq<Seq<char>>, v0: Viewport, v1: Viewport, c: Cursor)
    requires
        whole_region(s, v0.num_rows as int),
        s.rows == screen_of(d, v0),
        v1.num_rows == v0.num_rows,
        v1.num_cols == v0.num_cols,
        v0.num_rows > 0,
        v0.num_cols > 0,
    ensures
        run_ops(s, plan_spec(d, v0, v1, unchanged_spec(c))).rows == screen_of(d, v1),
{
    let n = v1.num_rows as int;
    let e = unchanged_spec(c);
    if needs_full_repaint(v0, v1) {
        lemma_full_repaint_shows_window(s, d, v1, c);
    } else if v1.row_scroll == v0.row_scroll + 1 {
        lemma_scroll_up_then_redraw(s, d, v1, c, n - 1);
    } else if v1.row_scroll + 1 == v0.row_scroll {
        lemma_scroll_down_then_redraw(s, d, v1, c, 1);
    } else if v0.col_scroll != v1.col_scroll {
        lemma_redraw_completes(s, d, v1, c, 0, n);
    } else {
        assert(v1 == v0);
        let lo = crate::tracker::clamp(e.first_row - v1.row_scroll, 0, n);
        lemma_redraw_completes(s, d, v1, c, lo, lo);
    }
}

/// Planning after a change confined to line `r`, which the window shows.
proof fn lemma_plan_line_edit(
    s: Screen,
    d0: Seq<Seq<char>>,
    d1: Seq<Seq<char>>,
    v0: Viewport,
    v1: Viewport,
    e: EditResult,
)
    requires
        whole_region(s, v0.num_rows as int),
        s.rows == screen_of(d0, v0),
        v1.num_rows == v0.num_rows,
        v1.num_cols == v0.num_cols,
        v1.row_scroll == v0.row_scroll,
        v0.num_rows > 0,
        v0.num_cols > 0,
        e.change == ChangeKind::CharInserted || e.change == ChangeKind::CharDeleted,
        v0.row_scroll <= e.first_row < v0.row_scroll + v0.num_rows,
        e.end_row == e.first_row + 1,
        d1.len() == d0.len(),
        forall|k: int| 0 <= k < d0.len() && k != e.first_row ==> d1[k] == d0[k],
    ensures
        run_ops(s, plan_spec(d1, v0, v1, e)).rows == screen_of(d1, v1),
{
    let n = v1.num_rows as int;
    if needs_full_repaint(v0, v1) {
        lemma_full_repaint_shows_window(s, d1, v1, e.cursor);
    } else if v0.col_scroll != v1.col_scroll {
        lemma_redraw_completes(s, d1, v1, e.cursor, 0, n);
    } else {
        let j = e.first_row - v1.row_scroll;
        assert forall|i: int| 0 <= i < n && !(j <= i < j + 1) implies s.rows[i] == screen_row(d1, v1, i) by {
            assert(v1.row_scroll + i != e.first_row);
        }
        lemma_redraw_completes(s, d1, v1, e.cursor, j, j + 1);
    }
}

/// After any action from a valid state on a screen with room, the planned
/// commands turn a screen that showed the old window into one that shows the
/// new window: every row ends up holding the visible part of its line.
pub proof fn lemma_plan_updates_screen(s: Screen, d0: Seq<Seq<char>>, c0: Cursor, v0: Viewport, a: EditorAction)
    requires
        1 <= d0.len() < usize::MAX,
        cursor_in(d0, c0),
        d0[c0.row as int].len() < usize::MAX,
        scroll_ok(v0, c0),
        v0.num_rows > 0,
        v0.num_cols > 0,
        whole_region(s, v0.num_rows as int),
        s.rows == screen_of(d0, v0),
    ensures
        ({
            let (d1, e) = action_outcome(d0, c0, a);
            let v1 = viewport_after(v0, a, e);
            run_ops(s, plan_spec(d1, v0, v1, e)).rows == screen_of(d1, v1)
        }),
{
    let (d1, e) = action_outcome(d0, c0, a);
    let v1 = viewport_after(v0, a, e);
    let n = v0.num_rows as int;
    let r = c0.row as int;
    let rs = v0.row_scroll as int;
    if e.change == ChangeKind::NoChange {
        assert(d1 == d0);
        lemma_plan_same_document(s, d0, v0, v1, e.cursor);
    } else if e.change == ChangeKind::CharInserted || e.change == ChangeKind::CharDeleted {
        lemma_plan_line_edit(s, d0, d1, v0, v1, e);
    } else if e.change == ChangeKind::LineSplit {
        lemma_split_index(d0, r, c0.col as int);
        if needs_full_repaint(v0, v1) {
            lemma_full_repaint_shows_window(s, d1, v1, e.cursor);
        } else if v1.row_scroll == v0.row_scroll + 1 {
            assert(r == rs + n - 1);
            let lo = crate::tracker::clamp(r - v1.row_scroll, 0, n - 1);
            assert forall|i: int| 0 <= i < lo implies screen_row(d1, v1, i) == s.rows[i + 1] by {
                assert(v1.row_scroll + i < r);
            }
            lemma_scroll_up_then_redraw(s, d1, v1, e.cursor, lo);
        } else if v0.col_scroll != v1.col_scroll {
            lemma_redraw_completes(s, d1, v1, e.cursor, 0, n);
        } else {
            let j = r - rs;
            assert forall|i: int| j + 2 <= i < n implies screen_row(d1, v1, i) == s.rows[i - 1] by {
                assert(rs + i >= r + 2);
            }
            lemma_insert_row(s, d1, v1, e.cursor, j);
        }
    } else {
        assert(e.change == ChangeKind::LinesJoined);
        lemma_join_index(d0, r);
        if needs_full_repaint(v0, v1) {
            lemma_full_repaint_shows_window(s, d1, v1, e.cursor);
        } else if v1.row_scroll + 1 == v0.row_scroll {
            assert(r == rs);
            assert forall|i: int| 1 <= i < n implies s.rows[i] == screen_row(d1, v1, i) by {
                assert(v1.row_scroll + i >= r);
            }
            lemma_redraw_completes(s, d1, v1, e.cursor, 0, 1);
        } else if v0.col_scroll != v1.col_scroll {
            lemma_redraw_completes(s, d1, v1, e.cursor, 0, n);
        } else {
            let j = r - 1 - rs;
            assert forall|i: int| j + 1 <= i < n - 1 implies screen_row(d1, v1, i) == s.rows[i + 1] by {
                assert(rs + i >= r);
            }
            lemma_delete_row(s, d1, v1, e.cursor, j);
        }
    }
}

} // verus!
