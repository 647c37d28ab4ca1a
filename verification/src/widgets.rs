//! The widgets: labels and the single-line text editor. Each one is placed
//! at the next free position of the innermost open container, puts what it
//! shows on the display list, and takes up its size in the container.

use vstd::prelude::*;
use vstd::string::{StrSliceExecFns, StringExecFns};
use crate::keys::EditKey;
use crate::layout::Container;
use crate::text::{cell_at, cell_text, insert_char, remove_char, with_char, without_char};
use crate::ui::{DrawText, DrawnText, HIGHLIGHT_PAIR, REGULAR_PAIR, UI};
use crate::vec2::{GridVector, Vec2};

verus! {

/// The size that a widget of one line and `width` cells takes up.
pub open spec fn line_extent(width: int) -> GridVector {
    GridVector { row: width, col: 1 }
}

/// A text under edit: the text, the cursor in it, and the key that is still
/// to be handled.
pub struct Editing {
    pub text: Seq<char>,
    pub cursor: int,
    pub key: Option<i32>,
}

/// The cursor, brought back to the end of the text where it lay past it.
pub open spec fn clamp_cursor(cursor: int, len: int) -> int {
    if cursor > len {
        len
    } else {
        cursor
    }
}

/// Text and cursor after one editing key, the cursor not yet clamped.
pub open spec fn apply_edit(text: Seq<char>, cursor: int, edit: EditKey) -> (Seq<char>, int) {
    match edit {
        EditKey::Insert(c) => (with_char(text, cursor, c), cursor + 1),
        EditKey::Left => (
            text,
            if cursor > 0 {
                cursor - 1
            } else {
                cursor
            },
        ),
        EditKey::Right => (
            text,
            if cursor < text.len() {
                cursor + 1
            } else {
                cursor
            },
        ),
        EditKey::Backspace => if cursor > 0 {
            (without_char(text, cursor - 1), cursor - 1)
        } else {
            (text, cursor)
        },
        EditKey::Delete => (without_char(text, cursor), cursor),
    }
}

/// What the editor makes of a text, a cursor and a pending key. A key that
/// the editor knows is applied and taken; any other key is left pending and
/// changes nothing. The cursor ends within the text or right behind it.
pub open spec fn edited(text: Seq<char>, cursor: int, key: Option<i32>) -> Editing {
    match key {
        Some(k) => match EditKey::of(k) {
            Some(edit) => {
                let (t, c) = apply_edit(text, cursor, edit);
                Editing { text: t, cursor: clamp_cursor(c, t.len() as int), key: None }
            },
            None => Editing { text, cursor: clamp_cursor(cursor, text.len() as int), key },
        },
        None => Editing { text, cursor: clamp_cursor(cursor, text.len() as int), key },
    }
}

impl UI {
    /// The stack after a widget of size `extent` was placed in the innermost
    /// container.
    pub open spec fn placed(stack: Seq<Container>, extent: GridVector) -> Seq<Container> {
        stack.update(stack.len() - 1, stack.last().add_extent(extent))
    }

    /// Whether a widget of size `extent` can be placed: a container is open,
    /// and neither the widget's position nor the container's new size leaves
    /// the range of `i32`.
    pub open spec fn can_place(&self, extent: GridVector) -> bool {
        &&& self.depth() >= 1
        &&& self.stack().last().next_slot().fits()
        &&& self.stack().last().folded_size(extent).fits()
    }

    /// The position at which the next widget or child of the innermost
    /// container goes.
    pub fn available_pos(&self) -> (pos: Vec2)
        requires
            self.depth() >= 1,
            self.stack().last().next_slot().fits(),
        ensures
            pos@ == self.stack().last().next_slot(),
    {
        let n = self.containers.len();
        self.containers[n - 1].available_pos()
    }

    /// Lets the innermost container take up `size` more, for a widget or a
    /// child that was placed in it.
    pub fn add_widget(&mut self, size: Vec2)
        requires
            old(self).depth() >= 1,
            old(self).stack().last().folded_size(size@).fits(),
        ensures
            final(self).stack() == UI::placed(old(self).stack(), size@),
            final(self).draws == old(self).draws,
    {
        let n = self.containers.len();
        self.containers[n - 1].add_widget(size);
    }

    /// Takes the next free position for a widget of size `size`.
    fn place(&mut self, size: Vec2) -> (pos: Vec2)
        requires
            old(self).can_place(size@),
        ensures
            pos@ == old(self).stack().last().next_slot(),
            final(self).stack() == UI::placed(old(self).stack(), size@),
            final(self).draws == old(self).draws,
    {
        let pos = self.available_pos();
        self.add_widget(size);
        pos
    }

    /// Puts one entry on the display list.
    fn draw(&mut self, pos: Vec2, pair: i16, text: String)
        ensures
            final(self).drawn() == old(self).drawn().push(
                DrawnText { pos: pos@, pair, text: text@ },
            ),
            final(self).containers == old(self).containers,
    {
        self.draws.push(DrawText { pos, pair, text });
    }

    /// A label of one line that takes up `width` cells, whatever the length
    /// of `text`.
    pub fn label_fixed_width(&mut self, text: &str, pair: i16, width: i32)
        requires
            old(self).can_place(line_extent(width as int)),
        ensures
            final(self).drawn() == old(self).drawn().push(
                DrawnText { pos: old(self).stack().last().next_slot(), pair, text: text@ },
            ),
            final(self).stack() == UI::placed(old(self).stack(), line_extent(width as int)),
    {
        let pos = self.place(Vec2::new(width, 1));
        self.draw(pos, pair, String::from_str(text));
    }

    /// A label of one line that takes up as many cells as `text` has
    /// characters.
    pub fn label(&mut self, text: &str, pair: i16)
        requires
            text@.len() <= i32::MAX,
            old(self).can_place(line_extent(text@.len() as int)),
        ensures
            final(self).drawn() == old(self).drawn().push(
                DrawnText { pos: old(self).stack().last().next_slot(), pair, text: text@ },
            ),
            final(self).stack() == UI::placed(old(self).stack(), line_extent(text@.len() as int)),
    {
        let width = text.unicode_len();
        self.label_fixed_width(text, pair, width as i32)
    }

    /// The single-line text editor. A pending key that the editor knows is
    /// applied to `buffer` and `cursor` and taken out of `key_current`; any
    /// other key stays there for the caller. Then the text is shown in the
    /// regular pair, and over it the cell at the cursor in the highlighted
    /// pair. The editor takes up `width` cells.
    pub fn edit_item(
        &mut self,
        buffer: &mut String,
        cursor: &mut usize,
        key_current: &mut Option<i32>,
        width: i32,
    )
        requires
            old(self).can_place(line_extent(width as int)),
            old(self).stack().last().next_slot().row + edited(
                old(buffer)@,
                *old(cursor) as int,
                *old(key_current),
            ).cursor <= i32::MAX,
        ensures
            final(buffer)@ == edited(old(buffer)@, *old(cursor) as int, *old(key_current)).text,
            *final(cursor) == edited(old(buffer)@, *old(cursor) as int, *old(key_current)).cursor,
            *final(key_current) == edited(
                old(buffer)@,
                *old(cursor) as int,
                *old(key_current),
            ).key,
            *final(cursor) <= final(buffer)@.len(),
            final(self).drawn() == old(self).drawn().push(
                DrawnText {
                    pos: old(self).stack().last().next_slot(),
                    pair: REGULAR_PAIR,
                    text: final(buffer)@,
                },
            ).push(
                DrawnText {
                    pos: old(self).stack().last().next_slot().plus(
                        GridVector { row: *final(cursor) as int, col: 0 },
                    ),
                    pair: HIGHLIGHT_PAIR,
                    text: cell_at(final(buffer)@, *final(cursor) as int),
                },
            ),
            final(self).stack() == UI::placed(old(self).stack(), line_extent(width as int)),
    {
        let pos = self.place(Vec2::new(width, 1));

        if let Some(key) = *key_current {
            if let Some(edit) = EditKey::from_key(key) {
                match edit {
                    EditKey::Insert(c) => {
                        insert_char(buffer, *cursor, c);
                        let n = buffer.as_str().unicode_len();
                        if *cursor < n {
                            *cursor += 1;
                        } else {
                            *cursor = n;
                        }
                    },
                    EditKey::Left => {
                        if *cursor > 0 {
                            *cursor -= 1;
                        }
                    },
                    EditKey::Right => {
                        if *cursor < buffer.as_str().unicode_len() {
                            *cursor += 1;
                        }
                    },
                    EditKey::Backspace => {
                        if *cursor > 0 {
                            *cursor -= 1;
                            remove_char(buffer, *cursor);
                        }
                    },
                    EditKey::Delete => {
                        remove_char(buffer, *cursor);
                    },
                }
                *key_current = None;
            }
        }
        let n = buffer.as_str().unicode_len();
        if *cursor > n {
            *cursor = n;
        }
        self.draw(pos, REGULAR_PAIR, buffer.clone());

        let shift: i64 = *cursor as i64;
        let at = Vec2::new((pos.row as i64 + shift) as i32, pos.col);
        self.draw(at, HIGHLIGHT_PAIR, cell_text(buffer.as_str(), *cursor));
    }
}

} // verus!
