//! Key codes, as the terminal hands them over: a character's code for a
//! character key, a code past the characters for an arrow or an editing key.

use vstd::prelude::*;

verus! {

/// The first printable character, the blank.
pub const FIRST_PRINTABLE: i32 = 32;

/// The last printable character, the tilde.
pub const LAST_PRINTABLE: i32 = 126;

/// The code of the left-arrow key.
pub const KEY_LEFT: i32 = 0x104;

/// The code of the right-arrow key.
pub const KEY_RIGHT: i32 = 0x105;

/// The code of the backspace key.
pub const KEY_BACKSPACE: i32 = 0x107;

/// The code of the delete-character key.
pub const KEY_DC: i32 = 0x14a;

/// Reads `ncurses::constants::KEY_LEFT`. Not proved, taken from the source
/// of ncurses: the constant is 0x104, the code that its `getch` gives for
/// the left-arrow key.
#[verifier::external_body]
fn ncurses_key_left() -> (key: i32)
    ensures
        key == KEY_LEFT,
{
    ncurses::constants::KEY_LEFT
}

/// Reads `ncurses::constants::KEY_RIGHT`. Not proved, taken from the
/// source of ncurses: the constant is 0x105, the code that its `getch`
/// gives for the right-arrow key.
#[verifier::external_body]
fn ncurses_key_right() -> (key: i32)
    ensures
        key == KEY_RIGHT,
{
    ncurses::constants::KEY_RIGHT
}

/// Reads `ncurses::constants::KEY_BACKSPACE`. Not proved, taken from the
/// source of ncurses: the constant is 0x107, the code that its `getch`
/// gives for the backspace key.
#[verifier::external_body]
fn ncurses_key_backspace() -> (key: i32)
    ensures
        key == KEY_BACKSPACE,
{
    ncurses::constants::KEY_BACKSPACE
}

/// Reads `ncurses::constants::KEY_DC`. Not proved, taken from the source
/// of ncurses: the constant is 0x14a, the code that its `getch` gives for
/// the delete-character key.
#[verifier::external_body]
fn ncurses_key_dc() -> (key: i32)
    ensures
        key == KEY_DC,
{
    ncurses::constants::KEY_DC
}

/// What a key means to the text editor.
#[derive(Clone, Copy, Debug, PartialEq, Eq, Structural)]
pub enum EditKey {
    /// A printable character, to be put in at the cursor.
    Insert(char),
    /// Left arrow: the cursor moves back.
    Left,
    /// Right arrow: the cursor moves on.
    Right,
    /// Backspace: the character before the cursor goes.
    Backspace,
    /// Delete: the character at the cursor goes.
    Delete,
}

impl EditKey {
    /// The editor's reading of a key code, `None` for a key that the editor
    /// leaves to its caller.
    pub open spec fn of(key: i32) -> Option<EditKey> {
        if FIRST_PRINTABLE <= key <= LAST_PRINTABLE {
            Some(EditKey::Insert(key as char))
        } else if key == KEY_LEFT {
            Some(EditKey::Left)
        } else if key == KEY_RIGHT {
            Some(EditKey::Right)
        } else if key == KEY_BACKSPACE {
            Some(EditKey::Backspace)
        } else if key == KEY_DC {
            Some(EditKey::Delete)
        } else {
            None
        }
    }

    /// Reads a key code as the editor does.
    pub fn from_key(key: i32) -> (edit: Option<EditKey>)
        ensures
            edit == EditKey::of(key),
    {
        if FIRST_PRINTABLE <= key && key <= LAST_PRINTABLE {
            Some(EditKey::Insert(key as u8 as char))
        } else if key == ncurses_key_left() {
            Some(EditKey::Left)
        } else if key == ncurses_key_right() {
            Some(EditKey::Right)
        } else if key == ncurses_key_backspace() {
            Some(EditKey::Backspace)
        } else if key == ncurses_key_dc() {
            Some(EditKey::Delete)
        } else {
            None
        }
    }
}

/// The key that ends the program, `q`.
pub const QUIT_KEY: i32 = 113;

/// The key that moves the cursor up, `w`.
pub const UP_KEY: i32 = 119;

/// The key that moves the cursor down, `s`.
pub const DOWN_KEY: i32 = 115;

/// The key that drags the item at the cursor up, `W`.
pub const DRAG_UP_KEY: i32 = 87;

/// The key that drags the item at the cursor down, `S`.
pub const DRAG_DOWN_KEY: i32 = 83;

/// The key that moves the item at the cursor to the other list, and that
/// ends an edit: Enter, the line feed.
pub const CONFIRM_KEY: i32 = 10;

/// The key that makes the other list the active one: Tab.
pub const TOGGLE_KEY: i32 = 9;

/// The key that puts in a new todo item, `i`.
pub const INSERT_KEY: i32 = 105;

/// The key that starts the edit of the item at the cursor, `e`.
pub const EDIT_KEY: i32 = 101;

/// The key that deletes the done item at the cursor, `d`.
pub const DELETE_KEY: i32 = 100;

/// What a key asks for while no item is under edit.
#[derive(Clone, Copy, Debug, PartialEq, Eq, Structural)]
pub enum Action {
    Up,
    Down,
    DragUp,
    DragDown,
    Confirm,
    Insert,
    Edit,
    Delete,
    ToggleFocus,
    Quit,
}

impl Action {
    /// The action bound to a key code, `None` for a key that is bound to
    /// nothing. The letters are bound as they are written: upper and lower
    /// case differ.
    pub open spec fn of(key: i32) -> Option<Action> {
        if key == UP_KEY {
            Some(Action::Up)
        } else if key == DOWN_KEY {
            Some(Action::Down)
        } else if key == DRAG_UP_KEY {
            Some(Action::DragUp)
        } else if key == DRAG_DOWN_KEY {
            Some(Action::DragDown)
        } else if key == CONFIRM_KEY {
            Some(Action::Confirm)
        } else if key == INSERT_KEY {
            Some(Action::Insert)
        } else if key == EDIT_KEY {
            Some(Action::Edit)
        } else if key == DELETE_KEY {
            Some(Action::Delete)
        } else if key == TOGGLE_KEY {
            Some(Action::ToggleFocus)
        } else if key == QUIT_KEY {
            Some(Action::Quit)
        } else {
            None
        }
    }

    /// Reads a key code as an action.
    pub fn from_key(key: i32) -> (action: Option<Action>)
        ensures
            action == Action::of(key),
    {
        if key == UP_KEY {
            Some(Action::Up)
        } else if key == DOWN_KEY {
            Some(Action::Down)
        } else if key == DRAG_UP_KEY {
            Some(Action::DragUp)
        } else if key == DRAG_DOWN_KEY {
            Some(Action::DragDown)
        } else if key == CONFIRM_KEY {
            Some(Action::Confirm)
        } else if key == INSERT_KEY {
            Some(Action::Insert)
        } else if key == EDIT_KEY {
            Some(Action::Edit)
        } else if key == DELETE_KEY {
            Some(Action::Delete)
        } else if key == TOGGLE_KEY {
            Some(Action::ToggleFocus)
        } else if key == QUIT_KEY {
            Some(Action::Quit)
        } else {
            None
        }
    }
}

} // verus!
