//! The state core of a terminal music client: the item model, the play queue,
//! the library cache, and the routing of commands through a stack of views.

pub mod album;
pub mod artist;
pub mod command;
pub mod library;
pub mod playable;
pub mod playlist;
pub mod queue;
pub mod text;
pub mod token;
pub mod track;
pub mod traits;
pub mod ui;
pub mod wire;
