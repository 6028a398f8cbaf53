//! The decisions of the command-line client's commands, apart from the
//! prompts, files and network round trips that surround them.

pub mod action;
pub mod connect;
pub mod consume_notes;
pub mod peek_hand;
