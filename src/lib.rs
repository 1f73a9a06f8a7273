//! Keyboard-driven task list: focus navigation, a selection cursor over
//! fetched tasks, a multi-field edit form and the event dispatcher that ties
//! them together. Persistence, drawing and terminal input live outside the
//! library; the dispatcher tells its caller which data request to perform.

pub mod nav;
pub mod stamp;
pub mod text;
pub mod schema;
pub mod edit_todo;
pub mod state;
pub mod event;
pub mod utils;
pub mod handle;
