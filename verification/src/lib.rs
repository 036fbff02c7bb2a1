//! In-memory state of a room-based chat server: a bounded message history and
//! the set of typing users for every room, together with the rules by which
//! incoming events change that state and decide what is sent back out.

pub mod dispatch;
pub mod history;
pub mod message;
pub mod state;
pub mod typing;
