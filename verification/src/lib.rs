//! Game logic of a two-or-more player poker table whose turns, bets and
//! blinds are kept in on-chain accounts, together with the decisions that the
//! command-line client takes between its network and storage round trips.

pub mod actions;
pub mod gamestate;
pub mod cli;
pub mod executor;
