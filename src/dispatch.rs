use vstd::prelude::*;

verus! {

/// The editor's mode.
#[derive(Debug, Clone, Copy, PartialEq, Eq, Structural)]
pub enum EditorMode {
    Normal,
    Insert,
    Command,
}

/// A key press, decoded to what the editor tells apart.
#[derive(Debug, Clone, Copy, PartialEq, Eq, Structural)]
pub enum Key {
    Char(char),
    Up,
    Down,
    Left,
    Right,
    Esc,
    Enter,
    Backspace,
    Other,
}

/// What one input asks the editor to do.
#[derive(Debug, Clone, Copy, PartialEq, Eq, Structural)]
pub enum EditorAction {
    MoveLeft,
    MoveDown,
    MoveRight,
    MoveUp,
    MoveToStartOfLine,
    MoveToEndOfLine,
    Save,
    InsertMode,
    Append,
    CommandMode,
    CommandChar(char),
    CommandEnter,
    Quit,
    NormalMode,
    Backspace,
    SplitLine,
    InsertChar(char),
    NoOp,
}

/// One entry of a key-binding table: in `mode`, `key` performs `action`.
#[derive(Debug, Clone, Copy, PartialEq, Eq, Structural)]
pub struct Binding {
    pub mode: EditorMode,
    pub key: Key,
    pub action: EditorAction,
}

/// The built-in bindings.
pub open spec fn default_action_spec(mode: EditorMode, key: Key) -> EditorAction {
    match mode {
        EditorMode::Normal => match key {
            Key::Up | Key::Char('k') => EditorAction::MoveUp,
            Key::Down | Key::Char('j') => EditorAction::MoveDown,
            Key::Right | Key::Char('l') => EditorAction::MoveRight,
            Key::Left | Key::Char('h') => EditorAction::MoveLeft,
            Key::Char('i') => EditorAction::InsertMode,
            Key::Char(':') => EditorAction::CommandMode,
            Key::Char('q') => EditorAction::Quit,
            Key::Char('s') => EditorAction::Save,
            Key::Char('0') => EditorAction::MoveToStartOfLine,
            Key::Char('$') => EditorAction::MoveToEndOfLine,
            Key::Char('a') => EditorAction::Append,
            _ => EditorAction::NoOp,
        },
        EditorMode::Insert => match key {
            Key::Esc => EditorAction::NormalMode,
            Key::Backspace => EditorAction::Backspace,
            Key::Enter => EditorAction::SplitLine,
            Key::Char(c) => EditorAction::InsertChar(c),
            _ => EditorAction::NoOp,
        },
        EditorMode::Command => match key {
            Key::Esc => EditorAction::NormalMode,
            Key::Enter => EditorAction::CommandEnter,
            Key::Char(c) => EditorAction::CommandChar(c),
            _ => EditorAction::NoOp,
        },
    }
}

/// The mode an action leaves the editor in.
pub open spec fn next_mode_spec(mode: EditorMode, action: EditorAction) -> EditorMode {
    match action {
        EditorAction::InsertMode | EditorAction::Append => EditorMode::Insert,
        EditorAction::CommandMode => EditorMode::Command,
        EditorAction::NormalMode | EditorAction::CommandEnter => EditorMode::Normal,
        _ => mode,
    }
}

/// The action of the first entry of `table` for `mode` and `key`, or the
/// built-in one where no entry matches.
pub open spec fn resolve_spec(table: Seq<Binding>, mode: EditorMode, key: Key) -> EditorAction
    decreases table.len(),
{
    if table.len() == 0 {
        default_action_spec(mode, key)
    } else if table[0].mode == mode && table[0].key == key {
        table[0].action
    } else {
        resolve_spec(table.drop_first(), mode, key)
    }
}

/// The action the built-in bindings give `key` in `mode`; a key with no
/// binding gives `NoOp`.
pub fn process_input(mode: EditorMode, key: Key) -> (r: EditorAction)
    ensures
        r == default_action_spec(mode, key),
{
    match mode {
        EditorMode::Normal => match key {
            Key::Up | Key::Char('k') => EditorAction::MoveUp,
            Key::Down | Key::Char('j') => EditorAction::MoveDown,
            Key::Right | Key::Char('l') => EditorAction::MoveRight,
            Key::Left | Key::Char('h') => EditorAction::MoveLeft,
            Key::Char('i') => EditorAction::InsertMode,
            Key::Char(':') => EditorAction::CommandMode,
            Key::Char('q') => EditorAction::Quit,
            Key::Char('s') => EditorAction::Save,
            Key::Char('0') => EditorAction::MoveToStartOfLine,
            Key::Char('$') => EditorAction::MoveToEndOfLine,
            Key::Char('a') => EditorAction::Append,
            _ => EditorAction::NoOp,
        },
        EditorMode::Insert => match key {
            Key::Esc => EditorAction::NormalMode,
            Key::Backspace => EditorAction::Backspace,
            Key::Enter => EditorAction::SplitLine,
            Key::Char(c) => EditorAction::InsertChar(c),
            _ => EditorAction::NoOp,
        },
        EditorMode::Command => match key {
            Key::Esc => EditorAction::NormalMode,
            Key::Enter => EditorAction::CommandEnter,
            Key::Char(c) => EditorAction::CommandChar(c),
            _ => EditorAction::NoOp,
        },
    }
}

/// The mode an action leaves the editor in.
pub fn next_mode(mode: EditorMode, action: EditorAction) -> (r: EditorMode)
    ensures
        r == next_mode_spec(mode, action),
{
    match action {
        EditorAction::InsertMode | EditorAction::Append => EditorMode::Insert,
        EditorAction::CommandMode => EditorMode::Command,
        EditorAction::NormalMode | EditorAction::CommandEnter => EditorMode::Normal,
        _ => mode,
    }
}

/// A key-binding table, consulted before the built-in bindings.
pub struct KeyBindings {
    pub entries: Vec<Binding>,
}

impl KeyBindings {
    /// A table with no entries: every key has its built-in binding.
    pub fn new() -> (r: KeyBindings)
        ensures
            r.entries@ == Seq::<Binding>::empty(),
    {
        KeyBindings { entries: Vec::new() }
    }

    /// Adds an entry after the existing ones.
    pub fn bind(&mut self, mode: EditorMode, key: Key, action: EditorAction)
        ensures
            final(self).entries@ == old(self).entries@.push(Binding { mode, key, action }),
    {
        self.entries.push(Binding { mode, key, action });
    }

    /// The action of the first entry for `mode` and `key`, else the built-in one.
    pub fn resolve(&self, mode: EditorMode, key: Key) -> (r: EditorAction)
        ensures
            r == resolve_spec(self.entries@, mode, key),
    {
        let mut i: usize = 0;
        assert(self.entries@.subrange(0, self.entries@.len() as int) =~= self.entries@);
        while i < self.entries.len()
            invariant
                i <= self.entries@.len(),
                resolve_spec(self.entries@, mode, key) == resolve_spec(
                    self.entries@.subrange(i as int, self.entries@.len() as int),
                    mode,
                    key,
                ),
            decreases self.entries@.len() - i,
        {
            let b = self.entries[i];
            let ghost rest = self.entries@.subrange(i as int, self.entries@.len() as int);
            assert(rest[0] == b);
            if b.mode == mode && b.key == key {
                return b.action;
            }
            assert(rest.drop_first() =~= self.entries@.subrange(i + 1, self.entries@.len() as int));
            i = i + 1;
        }
        assert(self.entries@.subrange(i as int, self.entries@.len() as int) =~= Seq::<Binding>::empty());
        process_input(mode, key)
    }

    /// Maps an input in a mode to the action it performs and the mode that follows.
    pub fn dispatch(&self, mode: EditorMode, key: Key) -> (r: (EditorAction, EditorMode))
        ensures
            r.0 == resolve_spec(self.entries@, mode, key),
            r.1 == next_mode_spec(mode, r.0),
    {
        let action = self.resolve(mode, key);
        (action, next_mode(mode, action))
    }
}

} // verus!
