//! The core of a two-list to-do manager for the terminal: an immediate-mode
//! layout engine, the widgets drawn through it, the key-driven state machine
//! over a todo list and a done list, and the line format the lists are kept in.
//!
//! Nothing here touches a terminal or a file. Widgets record what is to be
//! drawn in a display list, and the codec works on lines of text.

pub mod vec2;
pub mod layout;
pub mod ui;
pub mod text;
pub mod keys;
pub mod widgets;
pub mod list;
pub mod column;
pub mod focus;
pub mod codec;
pub mod app;

pub use vec2::{GridVector, Vec2};
pub use layout::{Cont, ContType, Container};
pub use ui::{DrawText, DrawnText, ScopeOp, HIGHLIGHT_PAIR, REGULAR_PAIR, UI};
pub use keys::{Action, EditKey};
pub use list::{
    list_delete, list_down, list_drag_down, list_drag_up, list_insert, list_transfer, list_up,
};
pub use focus::Focus;
pub use codec::{deserialize, parse_item, serialize, IllFormedLine};
pub use column::Column;
pub use app::{App, AppState};
