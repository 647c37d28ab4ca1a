//! The application: two lists, the focus, what is under edit, and the pass
//! that draws one frame and takes one key.

use vstd::prelude::*;
use vstd::string::StrSliceExecFns;
use crate::column::Column;
use crate::focus::Focus;
use crate::keys::{Action, CONFIRM_KEY};
use crate::layout::{max_int, ContType, Container};
use crate::list::{
    cursor_down, cursor_up, deleted, dragged_down, dragged_up, inserted, list_delete, list_down,
    list_drag_down, list_drag_up, list_insert, list_transfer, list_up, on_item, transferred,
};
use crate::ui::{DrawnText, REGULAR_PAIR, UI};
use crate::vec2::{GridVector, Vec2};
use crate::widgets::edited;

verus! {

/// What an [`App`] stands for in contracts.
pub struct AppState {
    pub todos: Seq<Seq<char>>,
    pub dones: Seq<Seq<char>>,
    pub todo_curr: int,
    pub done_curr: int,
    pub focus: Focus,
    pub editing: bool,
    pub editing_cursor: int,
    pub quit: bool,
    pub notification: Seq<char>,
}

/// Half a width, rounded towards zero.
pub open spec fn half_of(width: int) -> int {
    if width >= 0 {
        width / 2
    } else {
        -((-width) / 2)
    }
}

/// The title of a list's column.
pub open spec fn title_of(focus: Focus) -> Seq<char> {
    match focus {
        Focus::Todo => seq!['T', 'O', 'D', 'O'],
        Focus::Done => seq!['D', 'O', 'N', 'E'],
    }
}

/// What stands before each item of a list: an empty box before a todo
/// item, a crossed one before a done item.
pub open spec fn mark_of(focus: Focus) -> Seq<char> {
    match focus {
        Focus::Todo => seq!['-', ' ', '[', ' ', ']', ' '],
        Focus::Done => seq!['-', ' ', '[', 'x', ']', ' '],
    }
}

impl AppState {
    /// The items of a list.
    pub open spec fn list(self, focus: Focus) -> Seq<Seq<char>> {
        match focus {
            Focus::Todo => self.todos,
            Focus::Done => self.dones,
        }
    }

    /// The cursor of a list.
    pub open spec fn cursor(self, focus: Focus) -> int {
        match focus {
            Focus::Todo => self.todo_curr,
            Focus::Done => self.done_curr,
        }
    }

    /// Whether the cursor of the active list is on an item.
    pub open spec fn on_item(self) -> bool {
        on_item(self.cursor(self.focus), self.list(self.focus).len() as int)
    }

    /// An edit is always that of the item at the cursor of the active list.
    pub open spec fn wf(self) -> bool {
        self.editing ==> self.on_item()
    }

    /// No cursor is further from its list than a removal can leave it: one
    /// place before the first item, or one place behind the last.
    pub open spec fn near(self) -> bool {
        &&& -1 <= self.todo_curr <= self.todos.len()
        &&& -1 <= self.done_curr <= self.dones.len()
    }

    /// The state once a key was heard: any key clears the notification.
    pub open spec fn heard(self, key: Option<i32>) -> AppState {
        if key is Some {
            AppState { notification: Seq::<char>::empty(), ..self }
        } else {
            self
        }
    }

    /// The state after the text editor had the key, and the key that it
    /// left. Outside an edit nothing changes.
    pub open spec fn typed(self, key: Option<i32>) -> (AppState, Option<i32>) {
        if self.editing {
            let at = self.cursor(self.focus);
            let e = edited(self.list(self.focus)[at], self.editing_cursor, key);
            match self.focus {
                Focus::Todo => (
                    AppState {
                        todos: self.todos.update(at, e.text),
                        editing_cursor: e.cursor,
                        ..self
                    },
                    e.key,
                ),
                Focus::Done => (
                    AppState {
                        dones: self.dones.update(at, e.text),
                        editing_cursor: e.cursor,
                        ..self
                    },
                    e.key,
                ),
            }
        } else {
            (self, key)
        }
    }

    /// The state after an action on the todo list.
    pub open spec fn todo_action(self, action: Action) -> AppState {
        match action {
            Action::Up => AppState { todo_curr: cursor_up(self.todo_curr), ..self },
            Action::Down => AppState {
                todo_curr: cursor_down(self.todo_curr, self.todos.len() as int),
                ..self
            },
            Action::DragUp => AppState {
                todos: dragged_up(self.todos, self.todo_curr).0,
                todo_curr: dragged_up(self.todos, self.todo_curr).1,
                ..self
            },
            Action::DragDown => AppState {
                todos: dragged_down(self.todos, self.todo_curr).0,
                todo_curr: dragged_down(self.todos, self.todo_curr).1,
                ..self
            },
            Action::Confirm => AppState {
                dones: transferred(self.dones, self.todos, self.todo_curr).0,
                todos: transferred(self.dones, self.todos, self.todo_curr).1,
                todo_curr: transferred(self.dones, self.todos, self.todo_curr).2,
                ..self
            },
            Action::Insert => AppState {
                todos: inserted(self.todos, self.todo_curr).0,
                todo_curr: inserted(self.todos, self.todo_curr).1,
                editing: true,
                editing_cursor: 0,
                ..self
            },
            Action::Edit => if self.on_item() {
                AppState {
                    editing: true,
                    editing_cursor: self.todos[self.todo_curr].len() as int,
                    ..self
                }
            } else {
                self
            },
            Action::Delete => self,
            Action::ToggleFocus => AppState { focus: Focus::Done, ..self },
            Action::Quit => AppState { quit: true, ..self },
        }
    }

    /// The state after an action on the done list.
    pub open spec fn done_action(self, action: Action) -> AppState {
        match action {
            Action::Up => AppState { done_curr: cursor_up(self.done_curr), ..self },
            Action::Down => AppState {
                done_curr: cursor_down(self.done_curr, self.dones.len() as int),
                ..self
            },
            Action::DragUp => AppState {
                dones: dragged_up(self.dones, self.done_curr).0,
                done_curr: dragged_up(self.dones, self.done_curr).1,
                ..self
            },
            Action::DragDown => AppState {
                dones: dragged_down(self.dones, self.done_curr).0,
                done_curr: dragged_down(self.dones, self.done_curr).1,
                ..self
            },
            Action::Confirm => AppState {
                todos: transferred(self.todos, self.dones, self.done_curr).0,
                dones: transferred(self.todos, self.dones, self.done_curr).1,
                done_curr: transferred(self.todos, self.dones, self.done_curr).2,
                ..self
            },
            Action::Insert => self,
            Action::Edit => if self.on_item() {
                AppState {
                    editing: true,
                    editing_cursor: self.dones[self.done_curr].len() as int,
                    ..self
                }
            } else {
                self
            },
            Action::Delete => AppState { dones: deleted(self.dones, self.done_curr), ..self },
            Action::ToggleFocus => AppState { focus: Focus::Todo, ..self },
            Action::Quit => AppState { quit: true, ..self },
        }
    }

    /// The state after an action on the active list, while no item is
    /// under edit.
    pub open spec fn browsed(self, action: Action) -> AppState {
        match self.focus {
            Focus::Todo => self.todo_action(action),
            Focus::Done => self.done_action(action),
        }
    }

    /// The state after the key that the text editor left, if any. Under
    /// edit, Enter ends the edit and no other key does anything. Outside an
    /// edit, a key that is bound to an action has that action taken, and
    /// no other key does anything.
    pub open spec fn reacted(self, key: Option<i32>) -> AppState {
        if self.editing {
            if key == Some(CONFIRM_KEY) {
                AppState { editing: false, ..self }
            } else {
                self
            }
        } else {
            match key {
                Some(k) => match Action::of(k) {
                    Some(action) => self.browsed(action),
                    None => self,
                },
                None => self,
            }
        }
    }

    /// The state after one frame in which `key` was pending.
    pub open spec fn step(self, key: Option<i32>) -> AppState {
        let (typed, left) = self.heard(key).typed(key);
        typed.reacted(left)
    }

    /// What the column of a list shows.
    pub open spec fn column(self, focus: Focus) -> Column {
        Column {
            title: title_of(focus),
            mark: mark_of(focus),
            items: self.list(focus),
            cursor: self.cursor(focus),
            focused: self.focus == focus,
            editing: self.editing,
            editing_cursor: self.editing_cursor,
        }
    }

    /// The state that the column of the list `focus` is drawn from, in a
    /// pass over that column with `key` pending: where the list is the
    /// active one, the text editor has had the key.
    pub open spec fn drawn_in_pass(self, focus: Focus, key: Option<i32>) -> AppState {
        if self.focus == focus {
            self.typed(key).0
        } else {
            self
        }
    }

    /// State and pending key after the pass over the column of the list
    /// `focus`. Where the list is the active one, the text editor has the
    /// key, what it leaves is acted on, and no key is pending any more.
    /// Over the other list nothing happens.
    pub open spec fn passed(self, focus: Focus, key: Option<i32>) -> (AppState, Option<i32>) {
        if self.focus == focus {
            (self.typed(key).0.reacted(self.typed(key).1), None)
        } else {
            (self, key)
        }
    }

    /// The state that the column of the todo list is drawn from.
    pub open spec fn shown_todo(self, key: Option<i32>) -> AppState {
        self.heard(key).drawn_in_pass(Focus::Todo, key)
    }

    /// The state that the column of the done list is drawn from. The todo
    /// column is drawn before the key is acted on and the done column after
    /// it, so that while the todo list is active the done column shows the
    /// frame's outcome already.
    pub open spec fn shown_done(self, key: Option<i32>) -> AppState {
        if self.focus == Focus::Todo {
            self.step(key)
        } else {
            self.heard(key).typed(key).0
        }
    }

    /// Where the column of the done list starts: to the right of the todo
    /// column, which is half the screen wide.
    pub open spec fn done_origin(width: int) -> GridVector {
        GridVector { row: max_int(0, half_of(width)), col: 2 }
    }

    /// Where the column of the todo list starts: below the two lines at the
    /// top of the screen.
    pub open spec fn todo_origin() -> GridVector {
        GridVector { row: 0, col: 2 }
    }

    /// What the two lines at the top show: the notification, and an empty
    /// line.
    pub open spec fn top_drawn(self) -> Seq<DrawnText> {
        seq![
            DrawnText {
                pos: GridVector { row: 0, col: 0 },
                pair: REGULAR_PAIR,
                text: self.notification,
            },
            DrawnText { pos: GridVector { row: 0, col: 1 }, pair: REGULAR_PAIR, text: seq![' '] },
        ]
    }

    /// What one frame puts on the display list, on a screen `width` cells
    /// wide: the notification line, an empty line, and below them the todo
    /// column and the done column side by side.
    pub open spec fn frame_drawn(self, key: Option<i32>, width: int) -> Seq<DrawnText> {
        self.heard(key).top_drawn() + self.shown_todo(key).column(Focus::Todo).drawn(
            AppState::todo_origin(),
        ) + self.shown_done(key).column(Focus::Done).drawn(AppState::done_origin(width))
    }

    /// A bound that does not depend on the key, under which a frame fits
    /// (see [`lemma_roomy_fits`]): each list leaves room for one more item,
    /// and the text under edit for one more character.
    pub open spec fn roomy(self, width: int) -> bool {
        &&& self.todos.len() + 4 <= i32::MAX
        &&& self.dones.len() + 4 <= i32::MAX
        &&& self.editing && self.on_item() ==> max_int(0, half_of(width)) + self.list(
            self.focus,
        )[self.cursor(self.focus)].len() + 1 <= i32::MAX
    }

    /// Whether a frame can be drawn and the key acted on within the range
    /// of `i32`: each column has room for its lines below the two lines at
    /// the top, the cell at the editing cursor is on the grid, and the
    /// cursors of the lists stay cursors.
    pub open spec fn fits(self, key: Option<i32>, width: int) -> bool {
        &&& self.todos.len() + 3 <= i32::MAX
        &&& self.shown_done(key).dones.len() + 3 <= i32::MAX
        &&& self.editing ==> (match self.focus {
            Focus::Todo => 0,
            Focus::Done => max_int(0, half_of(width)),
        }) + self.heard(key).typed(key).0.editing_cursor <= i32::MAX
        &&& i32::MIN <= self.step(key).todo_curr <= i32::MAX
        &&& i32::MIN <= self.step(key).done_curr <= i32::MAX
    }
}

/// Whatever key is pending, a frame can be drawn where both lists leave
/// room for one more item and for the lines at the top, and the text under
/// edit leaves room for one more character.
pub proof fn lemma_roomy_fits(s: AppState, key: Option<i32>, width: int)
    requires
        s.wf(),
        s.roomy(width),
        i32::MIN <= s.todo_curr <= i32::MAX,
        i32::MIN <= s.done_curr <= i32::MAX,
    ensures
        s.fits(key, width),
{
    lemma_typed_wf(s.heard(key), key);
}

/// Whatever the key, a frame leaves each cursor on its list or one place
/// off either end of it, where it was so before. A state that is new has
/// its cursors there.
pub proof fn lemma_step_keeps_cursors_near(s: AppState, key: Option<i32>)
    requires
        s.wf(),
        s.near(),
    ensures
        s.step(key).near(),
        s.step(key).wf(),
{
    lemma_typed_wf(s.heard(key), key);
    lemma_reacted_wf(s.heard(key).typed(key).0, s.heard(key).typed(key).1);
}

/// Acting on a key keeps an edit on an item.
pub proof fn lemma_reacted_wf(s: AppState, key: Option<i32>)
    requires
        s.wf(),
    ensures
        s.reacted(key).wf(),
{
}

/// The text editor changes no list's length and moves no list's cursor.
pub proof fn lemma_typed_wf(s: AppState, key: Option<i32>)
    requires
        s.wf(),
    ensures
        s.typed(key).0.wf(),
        s.typed(key).0.todos.len() == s.todos.len(),
        s.typed(key).0.dones.len() == s.dones.len(),
        s.typed(key).0.todo_curr == s.todo_curr,
        s.typed(key).0.done_curr == s.done_curr,
        s.typed(key).0.focus == s.focus,
        s.typed(key).0.editing == s.editing,
{
}

/// A frame is a pass over the todo column and then one over the done
/// column: the two passes together take the step of the frame, and each
/// column is drawn from the state that the frame shows it in.
pub proof fn lemma_passes_take_step(s: AppState, key: Option<i32>)
    requires
        s.wf(),
    ensures
        ({
            let (s1, k1) = s.heard(key).passed(Focus::Todo, key);
            let (s2, k2) = s1.passed(Focus::Done, k1);
            &&& s1.wf()
            &&& s2.wf()
            &&& s2 == s.step(key)
            &&& s.focus == Focus::Todo ==> s1 == s.step(key)
            &&& s.focus == Focus::Done ==> s1 == s.heard(key) && k1 == key
            &&& s.focus == Focus::Todo && s1.focus == Focus::Done ==> !s1.editing
            &&& s.heard(key).drawn_in_pass(Focus::Todo, key) == s.shown_todo(key)
            &&& s1.drawn_in_pass(Focus::Done, k1) == s.shown_done(key)
        }),
{
    let heard = s.heard(key);
    let (s1, k1) = heard.passed(Focus::Todo, key);
    lemma_typed_wf(heard, key);
    lemma_reacted_wf(heard.typed(key).0, heard.typed(key).1);
    if s.focus == Focus::Todo {
        assert(s1 == s.step(key));
        if s1.focus == Focus::Done {
            assert(!s1.editing);
            assert(s1.typed(None).0 == s1);
            assert(s1.reacted(None) == s1);
        }
    } else {
        assert(s1 == heard);
    }
}

/// The application state.
#[derive(Debug)]
pub struct App {
    pub todos: Vec<String>,
    pub dones: Vec<String>,
    /// The cursor of the todo list.
    pub todo_curr: i32,
    /// The cursor of the done list.
    pub done_curr: i32,
    pub focus: Focus,
    /// Whether the item at the cursor of the active list is under edit.
    pub editing: bool,
    /// The cursor within the text under edit.
    pub editing_cursor: usize,
    /// Set once the quit key was pressed.
    pub quit: bool,
    /// The line shown at the top of the screen until the next key.
    pub notification: String,
}

impl View for App {
    type V = AppState;

    open spec fn view(&self) -> AppState {
        AppState {
            todos: self.todos.deep_view(),
            dones: self.dones.deep_view(),
            todo_curr: self.todo_curr as int,
            done_curr: self.done_curr as int,
            focus: self.focus,
            editing: self.editing,
            editing_cursor: self.editing_cursor as int,
            quit: self.quit,
            notification: self.notification@,
        }
    }
}

impl App {
    /// The application with the two lists as given: the todo list active,
    /// both cursors on the first line, nothing under edit.
    pub fn new(todos: Vec<String>, dones: Vec<String>) -> (app: App)
        ensures
            app@ == (AppState {
                todos: todos.deep_view(),
                dones: dones.deep_view(),
                todo_curr: 0,
                done_curr: 0,
                focus: Focus::Todo,
                editing: false,
                editing_cursor: 0,
                quit: false,
                notification: Seq::<char>::empty(),
            }),
            app@.wf(),
            app@.near(),
    {
        App {
            todos,
            dones,
            todo_curr: 0,
            done_curr: 0,
            focus: Focus::Todo,
            editing: false,
            editing_cursor: 0,
            quit: false,
            notification: String::new(),
        }
    }

    /// Acts on the key that the text editor left.
    pub fn react(&mut self, key: Option<i32>)
        requires
            old(self)@.wf(),
            i32::MIN <= old(self)@.reacted(key).todo_curr <= i32::MAX,
            i32::MIN <= old(self)@.reacted(key).done_curr <= i32::MAX,
        ensures
            final(self)@ == old(self)@.reacted(key),
            final(self)@.wf(),
    {
        if self.editing {
            if let Some(k) = key {
                if k == CONFIRM_KEY {
                    self.editing = false;
                }
            }
            return ;
        }
        let action = match key {
            Some(k) => Action::from_key(k),
            None => None,
        };
        if let Some(action) = action {
            match self.focus {
                Focus::Todo => match action {
                    Action::Up => list_up(self.todos.as_slice(), &mut self.todo_curr),
                    Action::Down => list_down(self.todos.as_slice(), &mut self.todo_curr),
                    Action::DragUp => list_drag_up(&mut self.todos, &mut self.todo_curr),
                    Action::DragDown => list_drag_down(&mut self.todos, &mut self.todo_curr),
                    Action::Confirm => list_transfer(
                        &mut self.dones,
                        &mut self.todos,
                        &mut self.todo_curr,
                    ),
                    Action::Insert => {
                        list_insert(&mut self.todos, &mut self.todo_curr);
                        self.editing_cursor = 0;
                        self.editing = true;
                    },
                    Action::Edit => {
                        if self.todo_curr >= 0 && (self.todo_curr as usize) < self.todos.len() {
                            self.editing_cursor =
                            self.todos[self.todo_curr as usize].as_str().unicode_len();
                            self.editing = true;
                        }
                    },
                    Action::Delete => {},
                    Action::ToggleFocus => {
                        self.focus = self.focus.toggle();
                    },
                    Action::Quit => {
                        self.quit = true;
                    },
                },
                Focus::Done => match action {
                    Action::Up => list_up(self.dones.as_slice(), &mut self.done_curr),
                    Action::Down => list_down(self.dones.as_slice(), &mut self.done_curr),
                    Action::DragUp => list_drag_up(&mut self.dones, &mut self.done_curr),
                    Action::DragDown => list_drag_down(&mut self.dones, &mut self.done_curr),
                    Action::Confirm => list_transfer(
                        &mut self.todos,
                        &mut self.dones,
                        &mut self.done_curr,
                    ),
                    Action::Insert => {},
                    Action::Edit => {
                        if self.done_curr >= 0 && (self.done_curr as usize) < self.dones.len() {
                            self.editing_cursor =
                            self.dones[self.done_curr as usize].as_str().unicode_len();
                            self.editing = true;
                        }
                    },
                    Action::Delete => list_delete(&mut self.dones, self.done_curr),
                    Action::ToggleFocus => {
                        self.focus = self.focus.toggle();
                    },
                    Action::Quit => {
                        self.quit = true;
                    },
                },
            }
        }
    }

    /// The pass over the column of the list `focus`: draws the column
    /// through `ui`, lines of `width` cells, and, where the list is the
    /// active one, acts on the pending key. Returns the key that is still
    /// pending.
    pub fn pass(&mut self, ui: &mut UI, focus: Focus, key: Option<i32>, width: i32) -> (left:
        Option<i32>)
        requires
            old(self)@.wf(),
            old(ui).can_list(old(self)@.list(focus).len() as int, width as int),
            old(self).focus == focus && old(self).editing ==> old(ui).stack().last().next_slot().row
                + old(self)@.typed(key).0.editing_cursor <= i32::MAX,
            i32::MIN <= old(self)@.passed(focus, key).0.todo_curr <= i32::MAX,
            i32::MIN <= old(self)@.passed(focus, key).0.done_curr <= i32::MAX,
        ensures
            (final(self)@, left) == old(self)@.passed(focus, key),
            final(self)@.wf(),
            final(ui).drawn() == old(ui).drawn() + old(self)@.drawn_in_pass(focus, key).column(
                focus,
            ).drawn(old(ui).stack().last().next_slot()),
            final(ui).stack() == UI::placed(
                old(ui).stack(),
                Column::extent(old(self)@.list(focus).len() as int, width as int),
            ),
    {
        proof {
            reveal_strlit("TODO");
            reveal_strlit("DONE");
            reveal_strlit("- [ ] ");
            reveal_strlit("- [x] ");
            lemma_typed_wf(self@, key);
        }
        assert("TODO"@ =~= title_of(Focus::Todo));
        assert("DONE"@ =~= title_of(Focus::Done));
        assert("- [ ] "@ =~= mark_of(Focus::Todo));
        assert("- [x] "@ =~= mark_of(Focus::Done));
        let mut key_curr = key;
        let focused = self.focus == focus;
        match focus {
            Focus::Todo => {
                ui.item_list(
                    "TODO",
                    "- [ ] ",
                    &mut self.todos,
                    self.todo_curr,
                    focused,
                    self.editing,
                    &mut self.editing_cursor,
                    &mut key_curr,
                    width,
                );
            },
            Focus::Done => {
                ui.item_list(
                    "DONE",
                    "- [x] ",
                    &mut self.dones,
                    self.done_curr,
                    focused,
                    self.editing,
                    &mut self.editing_cursor,
                    &mut key_curr,
                    width,
                );
            },
        }
        assert(self@ == old(self)@.drawn_in_pass(focus, key));
        if focused {
            self.react(key_curr);
            key_curr = None;
        }
        key_curr
    }

    /// Opens the frame: the root container, the two lines at the top, and
    /// the row that holds the two columns.
    fn open_frame(&self, ui: &mut UI, width: i32)
        requires
            old(ui).depth() == 0,
        ensures
            final(ui).drawn() == old(ui).drawn() + self@.top_drawn(),
            final(ui).stack() == seq![
                Container {
                    orientation: ContType::Vert,
                    origin: GridVector::zero(),
                    accumulated_size: GridVector { row: max_int(0, width as int), col: 2 },
                },
                Container::empty(ContType::Horz, AppState::todo_origin()),
            ],
    {
        proof {
            reveal_strlit(" ");
        }
        assert(" "@ =~= seq![' ']);
        ui.begin(Vec2::new(0, 0), ContType::Vert);
        assert(ui.stack().last() == Container::empty(ContType::Vert, GridVector::zero()));
        ui.label_fixed_width(self.notification.as_str(), REGULAR_PAIR, width);
        assert(ui.stack() =~= seq![
            Container {
                orientation: ContType::Vert,
                origin: GridVector::zero(),
                accumulated_size: GridVector { row: max_int(0, width as int), col: 1 },
            },
        ]);
        ui.label_fixed_width(" ", REGULAR_PAIR, width);
        assert(ui.stack() =~= seq![
            Container {
                orientation: ContType::Vert,
                origin: GridVector::zero(),
                accumulated_size: GridVector { row: max_int(0, width as int), col: 2 },
            },
        ]);
        ui.begin_container(ContType::Horz);
        assert(ui.stack() =~= seq![
            Container {
                orientation: ContType::Vert,
                origin: GridVector::zero(),
                accumulated_size: GridVector { row: max_int(0, width as int), col: 2 },
            },
            Container::empty(ContType::Horz, AppState::todo_origin()),
        ]);
        assert(ui.drawn() =~= old(ui).drawn() + self@.top_drawn());
    }

    /// One frame: draws the screen `width` cells wide through `ui`, which
    /// has no container open, and acts on the pending key.
    ///
    /// The text editor has the key first, where an item is under edit; what
    /// it leaves is acted on once the column of the active list is drawn.
    #[verifier::rlimit(100)]
    pub fn frame(&mut self, ui: &mut UI, key: Option<i32>, width: i32)
        requires
            old(ui).depth() == 0,
            old(self)@.wf(),
            old(self)@.fits(key, width as int),
        ensures
            final(self)@ == old(self)@.step(key),
            final(self)@.wf(),
            final(ui).depth() == 0,
            final(ui).drawn() == old(ui).drawn() + old(self)@.frame_drawn(key, width as int),
    {
        let ghost start = self@;
        proof {
            lemma_passes_take_step(start, key);
            lemma_typed_wf(start.heard(key), key);
        }
        if key.is_some() {
            self.notification = String::new();
        }
        assert(self@ == start.heard(key));
        let half = width / 2;
        assert(half == half_of(width as int));
        let ghost column_wide = max_int(0, half as int);
        let ghost root = Container {
            orientation: ContType::Vert,
            origin: GridVector::zero(),
            accumulated_size: GridVector { row: max_int(0, width as int), col: 2 },
        };

        self.open_frame(ui, width);
        assert(ui.stack().len() == 2);
        assert(ui.stack().last() == Container::empty(ContType::Horz, AppState::todo_origin()));
        assert(ui.can_list(start.todos.len() as int, half as int));
        let left = self.pass(ui, Focus::Todo, key, half);
        assert(ui.stack() =~= seq![
            root,
            Container {
                orientation: ContType::Horz,
                origin: AppState::todo_origin(),
                accumulated_size: GridVector {
                    row: column_wide,
                    col: 1 + start.todos.len() as int,
                },
            },
        ]);
        let ghost shown = start.shown_done(key);
        assert(self@.dones.len() == shown.dones.len());
        let _ = self.pass(ui, Focus::Done, left, half);
        assert(ui.stack() =~= seq![
            root,
            Container {
                orientation: ContType::Horz,
                origin: AppState::todo_origin(),
                accumulated_size: GridVector {
                    row: column_wide + column_wide,
                    col: max_int(1 + start.todos.len() as int, 1 + shown.dones.len() as int),
                },
            },
        ]);
        ui.end_container();
        ui.end();
    }

    /// Whether nothing is under edit, or the cursor of the active list is
    /// on the item under edit.
    pub fn is_wf(&self) -> (ok: bool)
        ensures
            ok == self@.wf(),
    {
        if !self.editing {
            return true;
        }
        match self.focus {
            Focus::Todo => self.todo_curr >= 0 && (self.todo_curr as usize) < self.todos.len(),
            Focus::Done => self.done_curr >= 0 && (self.done_curr as usize) < self.dones.len(),
        }
    }

    /// Whether the lists and the text under edit leave the room that a
    /// frame on a screen `width` cells wide may need.
    pub fn is_roomy(&self, width: i32) -> (ok: bool)
        requires
            self@.wf(),
        ensures
            ok == self@.roomy(width as int),
    {
        let limit: usize = 0x7fff_fffb;
        if self.todos.len() > limit || self.dones.len() > limit {
            return false;
        }
        if !self.editing {
            return true;
        }
        let half = width / 2;
        let origin: usize = if half > 0 {
            half as usize
        } else {
            0
        };
        let len = match self.focus {
            Focus::Todo => self.todos[self.todo_curr as usize].as_str().unicode_len(),
            Focus::Done => self.dones[self.done_curr as usize].as_str().unicode_len(),
        };
        len <= 0x7fff_fffe - origin
    }

    /// One frame, where there is room for it: see [`App::frame`]. Where
    /// `ui` has a container open, the cursor of the active list is not on
    /// the item under edit, or the lists or the text under edit leave too
    /// little room, nothing is drawn and nothing changes.
    pub fn try_frame(&mut self, ui: &mut UI, key: Option<i32>, width: i32) -> (done: bool)
        ensures
            done == (old(ui).depth() == 0 && old(self)@.wf() && old(self)@.roomy(width as int)),
            done ==> {
                &&& final(self)@ == old(self)@.step(key)
                &&& final(self)@.wf()
                &&& final(ui).depth() == 0
                &&& final(ui).drawn() == old(ui).drawn() + old(self)@.frame_drawn(
                    key,
                    width as int,
                )
            },
            !done ==> *final(self) == *old(self) && *final(ui) == *old(ui),
    {
        if ui.containers.len() == 0 && self.is_wf() && self.is_roomy(width) {
            proof {
                lemma_roomy_fits(self@, key, width as int);
            }
            self.frame(ui, key, width);
            true
        } else {
            false
        }
    }
}

} // verus!
