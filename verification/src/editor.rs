//! Cursor-position state machine and key-event transition table.
//!
//! The editor state is a quit flag and a cursor position. Directional
//! keys move the cursor inside the viewport with saturating arithmetic;
//! the designated quit key sets the quit flag; every other key leaves
//! the state unchanged.

use vstd::prelude::*;

verus! {

/// A cursor position inside the viewport: `x` is the column, `y` the row,
/// both zero-based.
#[derive(Clone, Copy, Debug, PartialEq, Eq, Structural)]
pub struct Position {
    pub x: usize,
    pub y: usize,
}

/// The viewport dimensions most recently observed from the terminal,
/// measured in character cells.
#[derive(Clone, Copy, Debug, PartialEq, Eq, Structural)]
pub struct Size {
    pub width: usize,
    pub height: usize,
}

/// One decoded key event. Navigation keys move the cursor; `Ctrl('q')`
/// quits; everything else is ignored by the editor.
#[derive(Clone, Copy, Debug, PartialEq, Eq, Structural)]
pub enum Key {
    Up,
    Down,
    Left,
    Right,
    PageUp,
    PageDown,
    Home,
    End,
    Char(char),
    Ctrl(char),
    Other,
}

/// The editor state: whether the loop should stop, and where the cursor is.
#[derive(Clone, Copy, Debug, PartialEq, Eq, Structural)]
pub struct Editor {
    pub should_quit: bool,
    pub cursor_position: Position,
}

/// The largest valid zero-based index in a dimension of `d` cells:
/// `d - 1`, saturating at zero when the dimension itself is zero.
pub open spec fn last_index(d: usize) -> usize {
    if d == 0 {
        0usize
    } else {
        (d - 1) as usize
    }
}

/// True for the eight keys of the cursor-movement transition table.
pub open spec fn is_navigation(key: Key) -> bool {
    match key {
        Key::Up | Key::Down | Key::Left | Key::Right => true,
        Key::PageUp | Key::PageDown | Key::Home | Key::End => true,
        _ => false,
    }
}

/// The designated quit key combination.
pub open spec fn is_quit_key(key: Key) -> bool {
    key == Key::Ctrl('q')
}

/// Where the cursor lands when `key` is applied at `p` inside a viewport
/// of `size`: relative moves saturate at zero and clamp at the last
/// index; absolute moves jump to an edge; other keys leave `p` unchanged.
pub open spec fn moved_position(p: Position, key: Key, size: Size) -> Position {
    let max_y = last_index(size.height);
    let max_x = last_index(size.width);
    match key {
        Key::Up => Position { x: p.x, y: if p.y == 0 { 0usize } else { (p.y - 1) as usize } },
        Key::Down => Position { x: p.x, y: if p.y < max_y { (p.y + 1) as usize } else { max_y } },
        Key::Left => Position { x: if p.x == 0 { 0usize } else { (p.x - 1) as usize }, y: p.y },
        Key::Right => Position { x: if p.x < max_x { (p.x + 1) as usize } else { max_x }, y: p.y },
        Key::PageUp => Position { x: p.x, y: 0usize },
        Key::PageDown => Position { x: p.x, y: max_y },
        Key::Home => Position { x: 0usize, y: p.y },
        Key::End => Position { x: max_x, y: p.y },
        _ => p,
    }
}

/// The whole transition table: the quit key sets the quit flag, a
/// navigation key moves the cursor, and any other key is a no-op.
pub open spec fn stepped(e: Editor, key: Key, size: Size) -> Editor {
    if is_quit_key(key) {
        Editor { should_quit: true, cursor_position: e.cursor_position }
    } else if is_navigation(key) {
        Editor { should_quit: e.should_quit, cursor_position: moved_position(e.cursor_position, key, size) }
    } else {
        e
    }
}

impl Editor {
    /// The initial state: still running, cursor at the top-left corner.
    pub fn default() -> (e: Editor)
        ensures
            !e.should_quit,
            e.cursor_position == (Position { x: 0, y: 0 }),
    {
        Editor { should_quit: false, cursor_position: Position { x: 0, y: 0 } }
    }

    /// Applies one directional key to the cursor, bounded by `size`.
    pub fn move_cursor(&mut self, key: Key, size: Size)
        ensures
            final(self).cursor_position == moved_position(old(self).cursor_position, key, size),
            final(self).should_quit == old(self).should_quit,
    {
        let mut x: usize = self.cursor_position.x;
        let mut y: usize = self.cursor_position.y;
        let max_y: usize = if size.height == 0 { 0 } else { size.height - 1 };
        let max_x: usize = if size.width == 0 { 0 } else { size.width - 1 };
        match key {
            Key::Up => {
                if y > 0 {
                    y = y - 1;
                }
            },
            Key::Down => {
                if y < max_y {
                    y = y + 1;
                } else {
                    y = max_y;
                }
            },
            Key::Left => {
                if x > 0 {
                    x = x - 1;
                }
            },
            Key::Right => {
                if x < max_x {
                    x = x + 1;
                } else {
                    x = max_x;
                }
            },
            Key::PageUp => {
                y = 0;
            },
            Key::PageDown => {
                y = max_y;
            },
            Key::Home => {
                x = 0;
            },
            Key::End => {
                x = max_x;
            },
            _ => {},
        }
        self.cursor_position = Position { x, y };
    }

    /// Applies one key event to the whole state: quit, move, or no-op.
    pub fn process_keypress(&mut self, key: Key, size: Size)
        ensures
            *final(self) == stepped(*old(self), key, size),
    {
        match key {
            Key::Ctrl(c) => {
                if c == 'q' {
                    self.should_quit = true;
                }
            },
            Key::Up | Key::Down | Key::Left | Key::Right
            | Key::PageUp | Key::PageDown | Key::Home | Key::End => {
                self.move_cursor(key, size);
            },
            _ => {},
        }
    }
}

/// Relative moves saturate at the viewport edges: `Up` at the top row
/// and `Left` in the first column change nothing, and so do `Down` on
/// the last row and `Right` in the last column.
pub proof fn lemma_moves_saturate_at_bounds(p: Position, size: Size)
    requires
        p.x < size.width,
        p.y < size.height,
    ensures
        p.y == 0 ==> moved_position(p, Key::Up, size) == p,
        p.y == last_index(size.height) ==> moved_position(p, Key::Down, size) == p,
        p.x == 0 ==> moved_position(p, Key::Left, size) == p,
        p.x == last_index(size.width) ==> moved_position(p, Key::Right, size) == p,
{
}

/// The absolute moves always land on their edge, whatever the starting
/// position, and applying the same one twice lands where one application
/// does.
pub proof fn lemma_absolute_moves(p: Position, size: Size)
    ensures
        moved_position(p, Key::PageUp, size).y == 0,
        moved_position(p, Key::PageDown, size).y == last_index(size.height),
        moved_position(p, Key::Home, size).x == 0,
        moved_position(p, Key::End, size).x == last_index(size.width),
        moved_position(moved_position(p, Key::PageUp, size), Key::PageUp, size)
            == moved_position(p, Key::PageUp, size),
        moved_position(moved_position(p, Key::PageDown, size), Key::PageDown, size)
            == moved_position(p, Key::PageDown, size),
        moved_position(moved_position(p, Key::Home, size), Key::Home, size)
            == moved_position(p, Key::Home, size),
        moved_position(moved_position(p, Key::End, size), Key::End, size)
            == moved_position(p, Key::End, size),
{
}

/// A key that is neither a navigation key nor the quit key leaves the
/// whole editor state unchanged.
pub proof fn lemma_other_key_is_no_op(e: Editor, key: Key, size: Size)
    requires
        !is_navigation(key),
        !is_quit_key(key),
    ensures
        stepped(e, key, size) == e,
{
}

/// The quit key raises the quit flag and touches nothing else; once
/// raised, no key lowers it again, and no key other than the quit key
/// raises it.
pub proof fn lemma_quit_transition(e: Editor, key: Key, size: Size)
    ensures
        stepped(e, Key::Ctrl('q'), size).should_quit,
        stepped(e, Key::Ctrl('q'), size).cursor_position == e.cursor_position,
        e.should_quit ==> stepped(e, key, size).should_quit,
        !e.should_quit && stepped(e, key, size).should_quit ==> is_quit_key(key),
{
}

/// The viewport invariant is preserved: a cursor inside the viewport
/// stays inside it under every navigation key, whatever the key.
pub proof fn lemma_cursor_stays_in_viewport(p: Position, key: Key, size: Size)
    requires
        p.x <= last_index(size.width),
        p.y <= last_index(size.height),
    ensures
        moved_position(p, key, size).x <= last_index(size.width),
        moved_position(p, key, size).y <= last_index(size.height),
{
}

} // verus!
