//! The moves a player can make, and the errors the game server answers with.

use vstd::prelude::*;

verus! {

/// A move at the table.
#[derive(Debug, Clone, Copy, PartialEq, Eq, Structural)]
pub enum ActionType {
    Raise,
    SmallBlind,
    BigBlind,
    Call,
    Check,
    Fold,
}

/// Why the game server refused to take an action.
#[derive(Debug, Clone, Copy, PartialEq, Eq, Structural)]
pub enum GameActionError {
    GameActionFailed,
    BadActionRequest,
}

/// The game server's answer to an action request.
#[derive(Debug, Clone, Copy, PartialEq, Eq, Structural)]
pub struct GameActionResponse {
    pub is_taken: bool,
}

/// The HTTP status code that answers each kind of refusal.
pub open spec fn spec_status_code(e: GameActionError) -> u16 {
    match e {
        GameActionError::GameActionFailed => 424,
        GameActionError::BadActionRequest => 400,
    }
}

impl GameActionError {
    /// HTTP status of the response: 424 (Failed Dependency) when the action
    /// could not be carried out, 400 (Bad Request) when it was malformed.
    pub fn status_code(&self) -> (code: u16)
        ensures
            code == spec_status_code(*self),
    {
        match self {
            GameActionError::GameActionFailed => 424,
            GameActionError::BadActionRequest => 400,
        }
    }
}

/// The name under which a move is offered to the player.
pub open spec fn spec_label(a: ActionType) -> Seq<char> {
    match a {
        ActionType::Raise => "Raise"@,
        ActionType::SmallBlind => "Small Blind"@,
        ActionType::BigBlind => "Big Blind"@,
        ActionType::Call => "Call"@,
        ActionType::Check => "Check"@,
        ActionType::Fold => "Fold"@,
    }
}

impl ActionType {
    /// The name under which the move is offered: "Raise", "Small Blind",
    /// "Big Blind", "Call", "Check" or "Fold".
    pub fn label(&self) -> (s: &'static str)
        ensures
            s@ == spec_label(*self),
    {
        match self {
            ActionType::Raise => "Raise",
            ActionType::SmallBlind => "Small Blind",
            ActionType::BigBlind => "Big Blind",
            ActionType::Call => "Call",
            ActionType::Check => "Check",
            ActionType::Fold => "Fold",
        }
    }
}

/// Each refusal is answered with a client-error status (4xx), and the two
/// kinds of refusal with different ones.
pub proof fn law_status_codes(a: GameActionError, b: GameActionError)
    ensures
        400 <= spec_status_code(a) < 500,
        a != b ==> spec_status_code(a) != spec_status_code(b),
{
}

/// No two moves are offered under the same name, so the name a player picks
/// tells the move.
pub proof fn law_labels_distinct(a: ActionType, b: ActionType)
    ensures
        a != b ==> spec_label(a) != spec_label(b),
{
    reveal_strlit("Raise");
    reveal_strlit("Small Blind");
    reveal_strlit("Big Blind");
    reveal_strlit("Call");
    reveal_strlit("Check");
    reveal_strlit("Fold");
    if a != b {
        let (x, y) = (spec_label(a), spec_label(b));
        if x.len() == y.len() && x.len() > 1 {
            assert(x[1] != y[1] || x[0] != y[0] || x[2] != y[2]);
        }
    }
}

} // verus!
