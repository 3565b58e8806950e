use vstd::prelude::*;
use crate::buffer::Document;
use crate::dispatch::{EditorAction, EditorMode, next_mode, next_mode_spec};
use crate::edit::{
    ChangeKind, EditResult, backspace, backspace_outcome, insert_char, insert_outcome, split_line,
    split_outcome, unchanged_spec,
};
use crate::render::{
    CursorShape, RenderCommand, full_repaint, full_repaint_spec, ops_of, plan, plan_spec,
};
use crate::tracker::{
    Cursor, Viewport, cursor_in, cursor_visible, ensure_visible_spec, lemma_ensure_visible_shows,
    move_cursor, move_spec, resize_spec, scroll_ok, scroll_to_spec,
};

verus! {

/// What the editor asks of its surroundings after an action.
#[derive(Debug, Clone, Copy, PartialEq, Eq, Structural)]
pub enum Request {
    Nothing,
    Save,
    Quit,
}

/// What the status line should show after an action.
#[derive(Debug, Clone, Copy, PartialEq, Eq, Structural)]
pub enum StatusLine {
    Keep,
    FileName,
    PendingCommand,
}

/// Everything one action produced besides the new state.
pub struct Outcome {
    pub plan: Vec<RenderCommand>,
    pub request: Request,
    pub status: StatusLine,
    pub shape: Option<CursorShape>,
}

/// The whole editing state: the document, the cursor, the window onto the
/// document, the mode, and the text of a command being typed.
pub struct EditorState {
    pub doc: Document,
    pub cursor: Cursor,
    pub viewport: Viewport,
    pub mode: EditorMode,
    pub command: Vec<char>,
}

/// The document and the edit result that an action gives from cursor `c`.
pub open spec fn action_outcome(d: Seq<Seq<char>>, c: Cursor, a: EditorAction) -> (Seq<Seq<char>>, EditResult) {
    match a {
        EditorAction::MoveLeft => (d, unchanged_spec(move_spec(d, c, 0, -1))),
        EditorAction::MoveRight | EditorAction::Append => (d, unchanged_spec(move_spec(d, c, 0, 1))),
        EditorAction::MoveUp => (d, unchanged_spec(move_spec(d, c, -1, 0))),
        EditorAction::MoveDown => (d, unchanged_spec(move_spec(d, c, 1, 0))),
        EditorAction::MoveToStartOfLine => (d, unchanged_spec(Cursor { row: c.row, col: 0 })),
        EditorAction::MoveToEndOfLine => (
            d,
            unchanged_spec(Cursor { row: c.row, col: d[c.row as int].len() as usize }),
        ),
        EditorAction::Backspace => backspace_outcome(d, c),
        EditorAction::SplitLine => split_outcome(d, c),
        EditorAction::InsertChar(ch) => insert_outcome(d, c, ch),
        _ => (d, unchanged_spec(c)),
    }
}

/// An action whose cursor may land more than one column past the window:
/// the window then scrolls straight to it rather than by one step.
pub open spec fn jumps(a: EditorAction, e: EditResult) -> bool {
    a == EditorAction::MoveToEndOfLine || e.change == ChangeKind::LinesJoined
}

/// The window after an action: scrolled straight to the cursor after a
/// jump, else by one step.
pub open spec fn viewport_after(v: Viewport, a: EditorAction, e: EditResult) -> Viewport {
    if jumps(a, e) {
        scroll_to_spec(v, e.cursor)
    } else {
        ensure_visible_spec(v, e.cursor)
    }
}

/// The pending command text after an action: it grows by typed characters and
/// is cleared on entering command mode, on running it, and on leaving it.
pub open spec fn command_after(cmd: Seq<char>, a: EditorAction) -> Seq<char> {
    match a {
        EditorAction::CommandChar(ch) => cmd.push(ch),
        EditorAction::CommandMode | EditorAction::CommandEnter | EditorAction::NormalMode => Seq::empty(),
        _ => cmd,
    }
}

/// Saving on `Save` and on the command `w`, quitting on `Quit` and on the command `q`.
pub open spec fn request_spec(cmd: Seq<char>, a: EditorAction) -> Request {
    match a {
        EditorAction::Save => Request::Save,
        EditorAction::Quit => Request::Quit,
        EditorAction::CommandEnter => if cmd == seq!['w'] {
            Request::Save
        } else if cmd == seq!['q'] {
            Request::Quit
        } else {
            Request::Nothing
        },
        _ => Request::Nothing,
    }
}

/// The status line shows the pending command in command mode and the file
/// name on leaving it.
pub open spec fn status_after(a: EditorAction) -> StatusLine {
    match a {
        EditorAction::CommandMode | EditorAction::CommandChar(_) => StatusLine::PendingCommand,
        EditorAction::NormalMode | EditorAction::CommandEnter => StatusLine::FileName,
        _ => StatusLine::Keep,
    }
}

/// A bar in insert mode, a block on going back to normal mode.
pub open spec fn shape_after(a: EditorAction) -> Option<CursorShape> {
    match a {
        EditorAction::InsertMode | EditorAction::Append => Some(CursorShape::Bar),
        EditorAction::NormalMode => Some(CursorShape::Block),
        _ => None,
    }
}

/// At the document's edges these actions change nothing, neither the lines,
/// nor the cursor, nor the window: a backspace at the very start, a move right
/// at the end of the last line, a move down on the last line.
pub proof fn lemma_edge_actions_change_nothing(d: Seq<Seq<char>>, c: Cursor, v: Viewport)
    requires
        d.len() >= 1,
        cursor_in(d, c),
        scroll_ok(v, c),
    ensures
        c.row == 0 && c.col == 0 ==> action_outcome(d, c, EditorAction::Backspace) == (d, unchanged_spec(c))
            && viewport_after(v, EditorAction::Backspace, unchanged_spec(c)) == v,
        c.row == d.len() - 1 && c.col == d[c.row as int].len() ==> action_outcome(d, c, EditorAction::MoveRight)
            == (d, unchanged_spec(c)) && viewport_after(v, EditorAction::MoveRight, unchanged_spec(c)) == v,
        c.row == d.len() - 1 ==> action_outcome(d, c, EditorAction::MoveDown) == (d, unchanged_spec(c))
            && viewport_after(v, EditorAction::MoveDown, unchanged_spec(c)) == v,
{
}

impl EditorState {
    /// The document is not empty, the cursor lies in it, and the window
    /// shows the cursor wherever the screen has room.
    pub open spec fn wf(&self) -> bool {
        &&& self.doc.wf()
        &&& cursor_in(self.doc@, self.cursor)
        &&& scroll_ok(self.viewport, self.cursor)
    }

    /// An editor on the given lines, in normal mode, with the cursor and the
    /// window at the top left.
    pub fn new(lines: Vec<Vec<char>>, num_rows: usize, num_cols: usize) -> (r: EditorState)
        ensures
            r.wf(),
            lines@.len() > 0 ==> r.doc@ == lines@.map_values(|l: Vec<char>| l@),
            lines@.len() == 0 ==> r.doc@ == seq![Seq::<char>::empty()],
            r.cursor == (Cursor { row: 0, col: 0 }),
            r.viewport == (Viewport { row_scroll: 0, col_scroll: 0, num_rows, num_cols }),
            r.mode == EditorMode::Normal,
            r.command@ == Seq::<char>::empty(),
    {
        EditorState {
            doc: Document::from_lines(lines),
            cursor: Cursor { row: 0, col: 0 },
            viewport: Viewport::new(num_rows, num_cols),
            mode: EditorMode::Normal,
            command: Vec::new(),
        }
    }

    /// Repaints the whole window.
    pub fn print_screen(&self) -> (r: Vec<RenderCommand>)
        ensures
            ops_of(r@) == full_repaint_spec(self.doc@, self.viewport, self.cursor),
    {
        full_repaint(&self.doc, self.viewport, self.cursor)
    }

    /// Takes new screen dimensions, scrolls straight to the cursor, and repaints.
    pub fn resize(&mut self, num_rows: usize, num_cols: usize) -> (r: Vec<RenderCommand>)
        requires
            old(self).wf(),
        ensures
            final(self).wf(),
            final(self).viewport == resize_spec(old(self).viewport, old(self).cursor, num_rows, num_cols),
            final(self).doc@ == old(self).doc@,
            final(self).cursor == old(self).cursor,
            final(self).mode == old(self).mode,
            final(self).command@ == old(self).command@,
            num_rows > 0 && num_cols > 0 ==> cursor_visible(final(self).viewport, final(self).cursor),
            ops_of(r@) == full_repaint_spec(final(self).doc@, final(self).viewport, final(self).cursor),
    {
        self.viewport.resize(self.cursor, num_rows, num_cols);
        self.print_screen()
    }

    /// Applies the edit or movement of an action to the document and cursor.
    fn apply_edit(&mut self, a: EditorAction) -> (r: EditResult)
        requires
            old(self).wf(),
        ensures
            (final(self).doc@, r) == action_outcome(old(self).doc@, old(self).cursor, a),
            final(self).doc.wf(),
            cursor_in(final(self).doc@, r.cursor),
            final(self).cursor == old(self).cursor,
            final(self).viewport == old(self).viewport,
            final(self).mode == old(self).mode,
            final(self).command@ == old(self).command@,
    {
        let c = self.cursor;
        match a {
            EditorAction::MoveLeft => self.moved(move_cursor(&self.doc, c, 0, -1)),
            EditorAction::MoveRight | EditorAction::Append => self.moved(move_cursor(&self.doc, c, 0, 1)),
            EditorAction::MoveUp => self.moved(move_cursor(&self.doc, c, -1, 0)),
            EditorAction::MoveDown => self.moved(move_cursor(&self.doc, c, 1, 0)),
            EditorAction::MoveToStartOfLine => self.moved(Cursor { row: c.row, col: 0 }),
            EditorAction::MoveToEndOfLine => {
                let len = self.doc.line_len(c.row);
                self.moved(Cursor { row: c.row, col: len })
            },
            EditorAction::Backspace => backspace(&mut self.doc, c),
            EditorAction::SplitLine => split_line(&mut self.doc, c),
            EditorAction::InsertChar(ch) => insert_char(&mut self.doc, c, ch),
            _ => self.moved(c),
        }
    }

    fn moved(&self, c: Cursor) -> (r: EditResult)
        ensures
            r == unchanged_spec(c),
    {
        EditResult { cursor: c, change: ChangeKind::NoChange, first_row: c.row, end_row: c.row }
    }

    /// The request that the pending command makes when run.
    fn command_request(&self) -> (r: Request)
        ensures
            r == request_spec(self.command@, EditorAction::CommandEnter),
    {
        if self.command.len() == 1 && self.command[0] == 'w' {
            assert(self.command@ =~= seq!['w']);
            Request::Save
        } else if self.command.len() == 1 && self.command[0] == 'q' {
            assert(self.command@ =~= seq!['q']);
            Request::Quit
        } else {
            assert(self.command@ != seq!['w']);
            assert(self.command@ != seq!['q']);
            Request::Nothing
        }
    }

    /// Performs one action: edits the document and moves the cursor, keeps
    /// the cursor in view, switches mode, and returns the terminal commands
    /// that bring the screen up to date together with what the surroundings
    /// must do (save, quit, refresh the status line, change the cursor shape).
    pub fn step(&mut self, a: EditorAction) -> (r: Outcome)
        requires
            old(self).wf(),
        ensures
            final(self).wf(),
            ({
                let (d, e) = action_outcome(old(self).doc@, old(self).cursor, a);
                let v = viewport_after(old(self).viewport, a, e);
                &&& final(self).doc@ == d
                &&& final(self).cursor == e.cursor
                &&& final(self).viewport == v
                &&& ops_of(r.plan@) == plan_spec(d, old(self).viewport, v, e)
            }),
            final(self).viewport.num_rows > 0 && final(self).viewport.num_cols > 0
                ==> cursor_visible(final(self).viewport, final(self).cursor),
            final(self).mode == next_mode_spec(old(self).mode, a),
            final(self).command@ == command_after(old(self).command@, a),
            r.request == request_spec(old(self).command@, a),
            r.status == status_after(a),
            r.shape == shape_after(a),
    {
        let old_view = self.viewport;
        let ghost c0 = self.cursor;
        let e = self.apply_edit(a);
        self.cursor = e.cursor;
        let jump = match a {
            EditorAction::MoveToEndOfLine => true,
            _ => e.change == ChangeKind::LinesJoined,
        };
        if jump {
            self.viewport.scroll_to(e.cursor);
        } else {
            proof {
                lemma_ensure_visible_shows(old_view, e.cursor);
            }
            self.viewport.ensure_visible(e.cursor);
        }
        let rendered = plan(&self.doc, old_view, self.viewport, e);
        let request = match a {
            EditorAction::Save => Request::Save,
            EditorAction::Quit => Request::Quit,
            EditorAction::CommandEnter => self.command_request(),
            _ => Request::Nothing,
        };
        match a {
            EditorAction::CommandChar(ch) => self.command.push(ch),
            EditorAction::CommandMode | EditorAction::CommandEnter | EditorAction::NormalMode => {
                self.command.clear();
            },
            _ => {},
        }
        proof {
            if a is CommandMode || a is CommandEnter || a is NormalMode {
                assert(self.command@ =~= Seq::<char>::empty());
            }
        }
        self.mode = next_mode(self.mode, a);
        let status = match a {
            EditorAction::CommandMode | EditorAction::CommandChar(_) => StatusLine::PendingCommand,
            EditorAction::NormalMode | EditorAction::CommandEnter => StatusLine::FileName,
            _ => StatusLine::Keep,
        };
        let shape = match a {
            EditorAction::InsertMode | EditorAction::Append => Some(CursorShape::Bar),
            EditorAction::NormalMode => Some(CursorShape::Block),
            _ => None,
        };
        Outcome { plan: rendered, request, status, shape }
    }

    /// The status line text while a command is typed: a colon, then the command.
    pub fn command_status(&self) -> (r: Vec<char>)
        ensures
            r@ == seq![':'] + self.command@,
    {
        let mut r: Vec<char> = Vec::new();
        r.push(':');
        let mut k: usize = 0;
        while k < self.command.len()
            invariant
                k <= self.command@.len(),
                r@ == seq![':'] + self.command@.subrange(0, k as int),
            decreases self.command@.len() - k,
        {
            r.push(self.command[k]);
            k = k + 1;
            assert(r@ =~= seq![':'] + self.command@.subrange(0, k as int));
        }
        assert(self.command@.subrange(0, k as int) =~= self.command@);
        r
    }
}

} // verus!
