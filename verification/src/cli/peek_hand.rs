//! Looking at one's own hand.

use vstd::prelude::*;

verus! {

/// The command that unmasks and shows the player's hand.
#[derive(Debug, Clone, Copy)]
pub struct PeekHandCmd {
    /// The player's account id; 0 means "the one saved in the player file".
    pub player_id: u64,
}

impl PeekHandCmd {
    /// The account id given on the command line, or `None` when it was left
    /// at 0 and the saved one is to be used.
    pub fn given_player_id(&self) -> (id: Option<u64>)
        ensures
            id == (if self.player_id == 0 { None } else { Some(self.player_id) }),
    {
        if self.player_id == 0 {
            None
        } else {
            Some(self.player_id)
        }
    }
}

} // verus!
