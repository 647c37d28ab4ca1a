//! The list widget: one list of items as a column of the screen, a title
//! above the items, the item at the cursor highlighted or under edit.

use vstd::prelude::*;
use vstd::string::StringExecFns;
use crate::layout::{max_int, ContType, Container};
use crate::list::on_item;
use crate::text::cell_at;
use crate::ui::{DrawnText, HIGHLIGHT_PAIR, REGULAR_PAIR, UI};
use crate::vec2::GridVector;
use crate::widgets::edited;

verus! {

/// What a column shows.
pub struct Column {
    /// The line above the items.
    pub title: Seq<char>,
    /// What stands before the text of each item.
    pub mark: Seq<char>,
    pub items: Seq<Seq<char>>,
    /// The list's cursor.
    pub cursor: int,
    /// Whether the list is the active one.
    pub focused: bool,
    /// Whether an item is under edit, which is then the one at the cursor
    /// of the active list.
    pub editing: bool,
    /// The cursor within the text under edit.
    pub editing_cursor: int,
}

impl Column {
    /// Whether the row of item `i` is the editor.
    pub open spec fn edits(self, i: int) -> bool {
        self.focused && self.editing && i == self.cursor
    }

    /// The pair of the row of item `i`: highlighted at the cursor of the
    /// active list.
    pub open spec fn pair_of(self, i: int) -> i16 {
        if self.focused && i == self.cursor {
            HIGHLIGHT_PAIR
        } else {
            REGULAR_PAIR
        }
    }

    /// What the row of item `i` shows, at `at`. An item under edit shows its
    /// bare text and over it the cell at the editing cursor; any other item
    /// shows its mark and its text.
    pub open spec fn row_drawn(self, i: int, at: GridVector) -> Seq<DrawnText> {
        if self.edits(i) {
            seq![
                DrawnText { pos: at, pair: REGULAR_PAIR, text: self.items[i] },
                DrawnText {
                    pos: at.plus(GridVector { row: self.editing_cursor, col: 0 }),
                    pair: HIGHLIGHT_PAIR,
                    text: cell_at(self.items[i], self.editing_cursor),
                },
            ]
        } else {
            seq![DrawnText { pos: at, pair: self.pair_of(i), text: self.mark + self.items[i] }]
        }
    }

    /// What the rows of the first `n` items show, in a column that starts
    /// at `origin`: item `i` stands `1 + i` lines below the origin.
    pub open spec fn rows_drawn(self, n: int, origin: GridVector) -> Seq<DrawnText>
        decreases n,
    {
        if n <= 0 {
            Seq::<DrawnText>::empty()
        } else {
            self.rows_drawn(n - 1, origin) + self.row_drawn(
                n - 1,
                origin.plus(GridVector { row: 0, col: n }),
            )
        }
    }

    /// What the title line shows: highlighted over the active list.
    pub open spec fn title_drawn(self, origin: GridVector) -> DrawnText {
        DrawnText {
            pos: origin,
            pair: if self.focused {
                HIGHLIGHT_PAIR
            } else {
                REGULAR_PAIR
            },
            text: self.title,
        }
    }

    /// What the whole column shows, in drawing order.
    pub open spec fn drawn(self, origin: GridVector) -> Seq<DrawnText> {
        seq![self.title_drawn(origin)] + self.rows_drawn(self.items.len() as int, origin)
    }

    /// The size of the column with `n` items and lines of `width` cells.
    pub open spec fn extent(n: int, width: int) -> GridVector {
        GridVector { row: max_int(0, width), col: 1 + n }
    }
}

impl UI {
    /// Whether a column of `n` items and lines of `width` cells can be
    /// placed: a container is open, and no position in the column and no
    /// size on the way leaves the range of `i32`.
    pub open spec fn can_list(&self, n: int, width: int) -> bool {
        &&& self.depth() >= 1
        &&& self.stack().last().next_slot().fits()
        &&& self.stack().last().next_slot().col + 1 + n <= i32::MAX
        &&& Column::extent(n, width).fits()
        &&& self.stack().last().folded_size(Column::extent(n, width)).fits()
    }

    /// Draws one list as a column in a vertical child of the innermost
    /// container: the title, then one line for each item.
    ///
    /// Where the list is the active one and an item is under edit, the line
    /// of the item at the cursor is the text editor: it applies the pending
    /// key to the item and to `editing_cursor` and takes the key, or leaves
    /// it pending. Nothing else changes the items or the key.
    pub fn item_list(
        &mut self,
        title: &str,
        mark: &str,
        items: &mut Vec<String>,
        cursor: i32,
        focused: bool,
        editing: bool,
        editing_cursor: &mut usize,
        key_current: &mut Option<i32>,
        width: i32,
    )
        requires
            old(self).can_list(old(items)@.len() as int, width as int),
            focused && editing ==> on_item(cursor as int, old(items)@.len() as int),
            focused && editing ==> old(self).stack().last().next_slot().row + edited(
                old(items).deep_view()[cursor as int],
                *old(editing_cursor) as int,
                *old(key_current),
            ).cursor <= i32::MAX,
        ensures
            focused && editing ==> {
                let e = edited(
                    old(items).deep_view()[cursor as int],
                    *old(editing_cursor) as int,
                    *old(key_current),
                );
                &&& final(items).deep_view() == old(items).deep_view().update(cursor as int, e.text)
                &&& *final(editing_cursor) == e.cursor
                &&& *final(key_current) == e.key
            },
            !(focused && editing) ==> {
                &&& final(items).deep_view() == old(items).deep_view()
                &&& *final(editing_cursor) == *old(editing_cursor)
                &&& *final(key_current) == *old(key_current)
            },
            final(self).drawn() == old(self).drawn() + (Column {
                title: title@,
                mark: mark@,
                items: final(items).deep_view(),
                cursor: cursor as int,
                focused,
                editing,
                editing_cursor: *final(editing_cursor) as int,
            }).drawn(old(self).stack().last().next_slot()),
            final(self).stack() == UI::placed(
                old(self).stack(),
                Column::extent(old(items)@.len() as int, width as int),
            ),
    {
        let ghost origin = self.stack().last().next_slot();
        let ghost before = items.deep_view();
        let ghost e = edited(
            before[cursor as int],
            *old(editing_cursor) as int,
            *old(key_current),
        );
        let ghost after = if focused && editing {
            before.update(cursor as int, e.text)
        } else {
            before
        };
        let ghost column = Column {
            title: title@,
            mark: mark@,
            items: after,
            cursor: cursor as int,
            focused,
            editing,
            editing_cursor: if focused && editing {
                e.cursor
            } else {
                *old(editing_cursor) as int
            },
        };
        let n = items.len();

        self.begin_container(ContType::Vert);
        self.label_fixed_width(
            title,
            if focused {
                HIGHLIGHT_PAIR
            } else {
                REGULAR_PAIR
            },
            width,
        );
        let ghost opened = UI::opened(old(self).stack(), ContType::Vert);

        let mut i: usize = 0;
        while i < n
            invariant
                i <= n,
                n == items@.len(),
                n == before.len(),
                old(self).can_list(n as int, width as int),
                opened == UI::opened(old(self).stack(), ContType::Vert),
                origin == old(self).stack().last().next_slot(),
                focused && editing ==> on_item(cursor as int, n as int),
                focused && editing ==> origin.row + e.cursor <= i32::MAX,
                e == edited(before[cursor as int], *old(editing_cursor) as int, *old(key_current)),
                after == if focused && editing {
                    before.update(cursor as int, e.text)
                } else {
                    before
                },
                column == (Column {
                    title: title@,
                    mark: mark@,
                    items: after,
                    cursor: cursor as int,
                    focused,
                    editing,
                    editing_cursor: if focused && editing {
                        e.cursor
                    } else {
                        *old(editing_cursor) as int
                    },
                }),
                column.edits(cursor as int) && i > cursor ==> {
                    &&& items.deep_view() == after
                    &&& *editing_cursor == e.cursor
                    &&& *key_current == e.key
                },
                !(column.edits(cursor as int) && i > cursor) ==> {
                    &&& items.deep_view() == before
                    &&& *editing_cursor == *old(editing_cursor)
                    &&& *key_current == *old(key_current)
                },
                self.drawn() == old(self).drawn() + seq![column.title_drawn(origin)]
                    + column.rows_drawn(i as int, origin),
                self.stack() == opened.update(
                    opened.len() - 1,
                    Container {
                        orientation: ContType::Vert,
                        origin,
                        accumulated_size: Column::extent(i as int, width as int),
                    },
                ),
            decreases n - i,
        {
            if focused && editing && cursor >= 0 && i == cursor as usize {
                self.edit_item(&mut items[i], editing_cursor, key_current, width);
            } else {
                let mut text = String::from_str(mark);
                text.append(items[i].as_str());
                let pair = if focused && cursor >= 0 && i == cursor as usize {
                    HIGHLIGHT_PAIR
                } else {
                    REGULAR_PAIR
                };
                self.label_fixed_width(text.as_str(), pair, width);
            }
            i += 1;
        }
        self.end_container();
    }
}

} // verus!
