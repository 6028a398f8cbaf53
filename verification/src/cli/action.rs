//! Taking a turn: which moves the player is offered.

use vstd::prelude::*;
use crate::actions::ActionType;

verus! {

/// The command that lets the player pick and send a move.
#[derive(Debug, Clone, Copy)]
pub struct ActionCmd {}

/// The game statistics the server reports, as far as choosing a move reads
/// them: the seated players' ids and their last bets (in the same order), the
/// pot, the highest bet on the table and the small blind.
#[derive(Debug, Clone)]
pub struct StatResponse {
    pub player_ids: Vec<u64>,
    pub player_bets: Vec<u64>,
    pub pot_value: u64,
    pub highest_bet: u64,
    pub small_blind_amount: u64,
}

/// The first position at or after `start` at which `id` stands in `ids`, or
/// `ids.len()` when there is none.
pub open spec fn position_from(ids: Seq<u64>, id: u64, start: int) -> int
    decreases ids.len() - start,
{
    if start < 0 || start >= ids.len() {
        ids.len() as int
    } else if ids[start] == id {
        start
    } else {
        position_from(ids, id, start + 1)
    }
}

/// The first position of `id` in `ids`, or `ids.len()` when it is absent.
pub open spec fn first_position(ids: Seq<u64>, id: u64) -> int {
    position_from(ids, id, 0)
}

/// The moves offered, in the order they are listed: with an empty pot the
/// small blind or a fold; when the highest bet is the small blind, the big
/// blind or a fold; behind the highest bet a raise, a call or a fold; level
/// with it a check, a raise or a fold; ahead of it, nothing.
pub open spec fn spec_available_actions(pot: u64, highest_bet: u64, small_blind: u64, last_bet: u64) -> Seq<
    ActionType,
> {
    if pot == 0 {
        seq![ActionType::SmallBlind, ActionType::Fold]
    } else if highest_bet == small_blind {
        seq![ActionType::BigBlind, ActionType::Fold]
    } else if last_bet < highest_bet {
        seq![ActionType::Raise, ActionType::Call, ActionType::Fold]
    } else if last_bet == highest_bet {
        seq![ActionType::Check, ActionType::Raise, ActionType::Fold]
    } else {
        seq![]
    }
}

/// Where `id` first stands in `ids`.
fn position_of(ids: &Vec<u64>, id: u64) -> (k: usize)
    requires
        first_position(ids@, id) < ids@.len(),
    ensures
        k as int == first_position(ids@, id),
{
    let mut k: usize = 0;
    while k < ids.len()
        invariant
            k <= ids.len(),
            position_from(ids@, id, k as int) == first_position(ids@, id),
            first_position(ids@, id) < ids@.len(),
        decreases ids.len() - k,
    {
        if ids[k] == id {
            return k;
        }
        k = k + 1;
    }
    k
}

/// The moves to offer `player_id`, judged by the player's last bet (the bet at
/// the player's first position among the reported ids) against the reported
/// pot, highest bet and small blind.
pub fn get_available_actions(stats: &StatResponse, player_id: u64) -> (actions: Vec<ActionType>)
    requires
        first_position(stats.player_ids@, player_id) < stats.player_ids@.len(),
        first_position(stats.player_ids@, player_id) < stats.player_bets@.len(),
    ensures
        actions@ == spec_available_actions(
            stats.pot_value,
            stats.highest_bet,
            stats.small_blind_amount,
            stats.player_bets@[first_position(stats.player_ids@, player_id)],
        ),
{
    let player_index: usize = position_of(&stats.player_ids, player_id);
    let player_last_bet: u64 = stats.player_bets[player_index];
    let mut available_actions: Vec<ActionType> = Vec::new();
    if stats.pot_value == 0 {
        available_actions.push(ActionType::SmallBlind);
        available_actions.push(ActionType::Fold);
    } else if stats.highest_bet == stats.small_blind_amount {
        available_actions.push(ActionType::BigBlind);
        available_actions.push(ActionType::Fold);
    } else if player_last_bet < stats.highest_bet {
        available_actions.push(ActionType::Raise);
        available_actions.push(ActionType::Call);
        available_actions.push(ActionType::Fold);
    } else if player_last_bet == stats.highest_bet {
        available_actions.push(ActionType::Check);
        available_actions.push(ActionType::Raise);
        available_actions.push(ActionType::Fold);
    }
    available_actions
}

proof fn lemma_position_from(ids: Seq<u64>, id: u64, start: int)
    requires
        0 <= start,
        position_from(ids, id, start) < ids.len(),
    ensures
        start <= position_from(ids, id, start),
        ids[position_from(ids, id, start)] == id,
        forall|m: int| start <= m < position_from(ids, id, start) ==> ids[m] != id,
    decreases ids.len() - start,
{
    if start < ids.len() && ids[start] != id {
        lemma_position_from(ids, id, start + 1);
    }
}

/// The bet a player is judged by is read at the player's own seat: the first
/// position at which the player's id stands, no id before it being theirs.
pub proof fn law_player_is_found_first(ids: Seq<u64>, id: u64)
    ensures
        ids.contains(id) <==> first_position(ids, id) < ids.len(),
        first_position(ids, id) < ids.len() ==> {
            &&& ids[first_position(ids, id)] == id
            &&& forall|m: int| 0 <= m < first_position(ids, id) ==> ids[m] != id
        },
{
    if first_position(ids, id) < ids.len() {
        lemma_position_from(ids, id, 0);
    } else if ids.contains(id) {
        let j = choose|j: int| 0 <= j < ids.len() && ids[j] == id;
        lemma_position_absent(ids, id, 0, j);
    }
}

proof fn lemma_position_absent(ids: Seq<u64>, id: u64, start: int, j: int)
    requires
        0 <= start <= j < ids.len(),
        ids[j] == id,
    ensures
        position_from(ids, id, start) < ids.len(),
    decreases ids.len() - start,
{
    if ids[start] != id {
        lemma_position_absent(ids, id, start + 1, j);
    }
}

/// The moves offered: with an empty pot exactly the small blind and a fold;
/// otherwise, when the highest bet is the small blind, exactly the big blind
/// and a fold; otherwise a player behind the highest bet gets a raise, a call
/// and a fold, a player level with it a check, a raise and a fold, and a
/// player ahead of it nothing. So a blind is offered only on an empty pot or
/// a table whose highest bet is the small blind, a call only to a player
/// behind, a check only to a player level.
pub proof fn law_offered_moves(pot: u64, highest_bet: u64, small_blind: u64, last_bet: u64)
    ensures
        pot == 0 ==> spec_available_actions(pot, highest_bet, small_blind, last_bet) == seq![
            ActionType::SmallBlind,
            ActionType::Fold,
        ],
        pot != 0 && highest_bet == small_blind ==> spec_available_actions(pot, highest_bet, small_blind, last_bet)
            == seq![ActionType::BigBlind, ActionType::Fold],
        pot != 0 && highest_bet != small_blind && last_bet < highest_bet ==> spec_available_actions(
            pot,
            highest_bet,
            small_blind,
            last_bet,
        ) == seq![ActionType::Raise, ActionType::Call, ActionType::Fold],
        pot != 0 && highest_bet != small_blind && last_bet == highest_bet ==> spec_available_actions(
            pot,
            highest_bet,
            small_blind,
            last_bet,
        ) == seq![ActionType::Check, ActionType::Raise, ActionType::Fold],
        pot != 0 && highest_bet != small_blind && last_bet > highest_bet ==> spec_available_actions(
            pot,
            highest_bet,
            small_blind,
            last_bet,
        ).len() == 0,
        spec_available_actions(pot, highest_bet, small_blind, last_bet).contains(ActionType::BigBlind) ==> pot
            != 0 && highest_bet == small_blind,
        spec_available_actions(pot, highest_bet, small_blind, last_bet).contains(ActionType::SmallBlind) ==> pot
            == 0,
        spec_available_actions(pot, highest_bet, small_blind, last_bet).contains(ActionType::Call) ==> last_bet
            < highest_bet,
        spec_available_actions(pot, highest_bet, small_blind, last_bet).contains(ActionType::Check) ==> last_bet
            == highest_bet,
{
    let r = spec_available_actions(pot, highest_bet, small_blind, last_bet);
    if r.contains(ActionType::BigBlind) {
        let j = choose|j: int| 0 <= j < r.len() && r[j] == ActionType::BigBlind;
    }
    if r.contains(ActionType::SmallBlind) {
        let j = choose|j: int| 0 <= j < r.len() && r[j] == ActionType::SmallBlind;
    }
    if r.contains(ActionType::Call) {
        let j = choose|j: int| 0 <= j < r.len() && r[j] == ActionType::Call;
    }
    if r.contains(ActionType::Check) {
        let j = choose|j: int| 0 <= j < r.len() && r[j] == ActionType::Check;
    }
}

} // verus!
