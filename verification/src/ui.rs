//! The views and the stack that routes commands through them.

pub mod listview;
pub mod modal;
pub mod playlists;
pub mod recommendations;
pub mod stack;
