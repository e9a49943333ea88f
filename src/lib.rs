//! A terminal todo list: the item model, the keyboard-driven state machine
//! that edits it, and the framing of the persisted document.

pub mod item;
pub mod machine;
pub mod store;
mod text;

pub use item::{ItemModel, TodoItem};
pub use machine::{AppModel, AppState, Effect, Focus, Key, Mode};
pub use store::{bootstrap_action, bootstrap_of_trimmed, document, empty_document, encode_document, record, Bootstrap};
