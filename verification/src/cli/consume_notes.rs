//! Watching a player's account: after each round of note consumption, what
//! the client does next.

use vstd::prelude::*;

verus! {

/// A storage word of an account, as its four field elements.
pub type Word = [u64; 4];

/// The command that keeps consuming the notes sent to the player's account
/// and answers the requests they carry.
#[derive(Debug, Clone, Copy)]
pub struct ConsumeNotesCmd {
    pub player_id: u64,
    pub game_id: u64,
}

/// What the player's account holds that the note handling reads: the player
/// data word (its first element is the action code), the first element of the
/// requester word, the three temporary card words and the first element of the
/// phase word.
#[derive(Debug, Clone, Copy)]
pub struct AccountSnapshot {
    pub player_data: Word,
    pub requester_id: u64,
    pub temp_cards: [Word; 3],
    pub phase: u64,
}

/// What the client does about the action code it finds after a round.
#[derive(Debug, Clone, Copy)]
pub enum NoteAction {
    /// Nothing to do until the next round.
    Idle,
    /// Run the encryption step `action_type` towards the account `target`.
    Encrypt { action_type: u64, target: u64 },
    /// Unmask these cards together with the other players.
    PeerUnmask { cards: [Word; 3] },
    /// Unmask the player's own hand.
    SelfUnmaskHand,
    /// Unmask the temporary cards and publish these cards to the game account,
    /// into the community card slot this many places after the flop's first.
    RevealCommunity { cards: [Word; 3], flop_offset: u64 },
}

/// What the client does after a round of consumption.
#[derive(Debug, Clone, Copy)]
pub enum NotesStep {
    /// Unmask these community cards with the other players, then stop watching.
    Finish { cards: [Word; 3] },
    /// First send the unmasked cards to this requester, if any; then act; then
    /// wait and watch again.
    Continue { send_unmasked_to: Option<u64>, action: NoteAction },
}

/// Codes that ask the player to unmask cards together with the others.
pub open spec fn is_peer_unmask_code(t: u64) -> bool {
    (5 <= t < 13) || (17 <= t < 25) || (29 <= t < 37) || (41 <= t < 49)
}

/// Codes that ask the player to unmask their own hand.
pub open spec fn is_hand_unmask_code(t: u64) -> bool {
    13 <= t < 17
}

/// Codes that ask the player to reveal community cards.
pub open spec fn is_community_code(t: u64) -> bool {
    (25 <= t < 29) || (37 <= t < 41) || (49 <= t < 53)
}

/// The community slot offset for a phase: the flop's first slot, the turn
/// three after it, the river four after it; any other phase the flop's.
pub open spec fn spec_flop_offset(phase: u64) -> u64 {
    if phase == 2 {
        3
    } else if phase == 3 {
        4
    } else {
        0
    }
}

/// The action for the action code found after consumption: none when the code
/// did not change; for codes 1 to 3 an encryption step towards the account
/// named in that element of the player data; for code 4 one towards the game
/// account; then the unmask and reveal requests by their code ranges; none for
/// any other code.
pub open spec fn spec_note_action(before: AccountSnapshot, after: AccountSnapshot, game_id: u64) -> NoteAction {
    let t = after.player_data[0];
    if t == before.player_data[0] {
        NoteAction::Idle
    } else if 1 <= t < 4 {
        NoteAction::Encrypt { action_type: t, target: after.player_data[t as int] }
    } else if t == 4 {
        NoteAction::Encrypt { action_type: t, target: game_id }
    } else if is_peer_unmask_code(t) {
        NoteAction::PeerUnmask { cards: after.temp_cards }
    } else if is_hand_unmask_code(t) {
        NoteAction::SelfUnmaskHand
    } else if is_community_code(t) {
        NoteAction::RevealCommunity { cards: after.temp_cards, flop_offset: spec_flop_offset(after.phase) }
    } else {
        NoteAction::Idle
    }
}

/// The step after a round: when the requester changed and so did the first
/// temporary card word, finish by unmasking the new cards; when only the
/// requester changed, send the unmasked cards to the new requester and go on;
/// either way otherwise act on the action code.
pub open spec fn spec_next_notes_step(before: AccountSnapshot, after: AccountSnapshot, game_id: u64) -> NotesStep {
    if before.requester_id != after.requester_id {
        if before.temp_cards[0]@ != after.temp_cards[0]@ {
            NotesStep::Finish { cards: after.temp_cards }
        } else {
            NotesStep::Continue {
                send_unmasked_to: Some(after.requester_id),
                action: spec_note_action(before, after, game_id),
            }
        }
    } else {
        NotesStep::Continue { send_unmasked_to: None, action: spec_note_action(before, after, game_id) }
    }
}

fn same_word(a: &Word, b: &Word) -> (same: bool)
    ensures
        same == (a@ == b@),
{
    let same: bool = a[0] == b[0] && a[1] == b[1] && a[2] == b[2] && a[3] == b[3];
    proof {
        if same {
            assert(a@ =~= b@);
        } else {
            assert(a@ != b@);
        }
    }
    same
}

impl ConsumeNotesCmd {
    /// Decides what to do after a round of note consumption, from the
    /// account as it was before the round and as it is after it.
    pub fn next_step(before: &AccountSnapshot, after: &AccountSnapshot, game_id: u64) -> (step: NotesStep)
        ensures
            step == spec_next_notes_step(*before, *after, game_id),
    {
        let action_type: u64 = after.player_data[0];
        let action = if action_type == before.player_data[0] {
            NoteAction::Idle
        } else if 1 <= action_type && action_type < 4 {
            NoteAction::Encrypt { action_type, target: after.player_data[action_type as usize] }
        } else if action_type == 4 {
            NoteAction::Encrypt { action_type, target: game_id }
        } else if (5 <= action_type && action_type < 13) || (17 <= action_type && action_type < 25) || (29
            <= action_type && action_type < 37) || (41 <= action_type && action_type < 49) {
            NoteAction::PeerUnmask { cards: after.temp_cards }
        } else if 13 <= action_type && action_type < 17 {
            NoteAction::SelfUnmaskHand
        } else if (25 <= action_type && action_type < 29) || (37 <= action_type && action_type < 41) || (49
            <= action_type && action_type < 53) {
            let flop_offset: u64 = if after.phase == 2 {
                3
            } else if after.phase == 3 {
                4
            } else {
                0
            };
            NoteAction::RevealCommunity { cards: after.temp_cards, flop_offset }
        } else {
            NoteAction::Idle
        };
        if before.requester_id != after.requester_id {
            if !same_word(&before.temp_cards[0], &after.temp_cards[0]) {
                NotesStep::Finish { cards: after.temp_cards }
            } else {
                NotesStep::Continue { send_unmasked_to: Some(after.requester_id), action }
            }
        } else {
            NotesStep::Continue { send_unmasked_to: None, action }
        }
    }
}

/// After a round in which the requester stayed the same, the client sends
/// nothing to a requester and acts on the action code alone: an unchanged code
/// means waiting; codes 1, 2 and 3 each run that encryption step towards the
/// account in that element of the player data; code 4 runs it towards the
/// game account; codes 5 to 12, 17 to 24, 29 to 36 and 41 to 48 unmask the
/// temporary cards with the others; 13 to 16 unmask the player's own hand;
/// 25 to 28, 37 to 40 and 49 to 52 reveal the temporary cards into the flop
/// slots (phase 2 three slots on, phase 3 four, any other phase the first);
/// 0 and codes from 53 on mean waiting.
pub proof fn law_action_codes(before: AccountSnapshot, after: AccountSnapshot, game_id: u64)
    requires
        before.requester_id == after.requester_id,
    ensures
        ({
            let t = after.player_data[0];
            let step = spec_next_notes_step(before, after, game_id);
            &&& t == before.player_data[0] ==> step == NotesStep::Continue {
                send_unmasked_to: None,
                action: NoteAction::Idle,
            }
            &&& t != before.player_data[0] && (t == 1 || t == 2 || t == 3) ==> step == NotesStep::Continue {
                send_unmasked_to: None,
                action: NoteAction::Encrypt { action_type: t, target: after.player_data[t as int] },
            }
            &&& t != before.player_data[0] && t == 4 ==> step == NotesStep::Continue {
                send_unmasked_to: None,
                action: NoteAction::Encrypt { action_type: 4, target: game_id },
            }
            &&& t != before.player_data[0] && ((5 <= t <= 12) || (17 <= t <= 24) || (29 <= t <= 36) || (41 <= t
                <= 48)) ==> step == NotesStep::Continue {
                send_unmasked_to: None,
                action: NoteAction::PeerUnmask { cards: after.temp_cards },
            }
            &&& t != before.player_data[0] && 13 <= t <= 16 ==> step == NotesStep::Continue {
                send_unmasked_to: None,
                action: NoteAction::SelfUnmaskHand,
            }
            &&& t != before.player_data[0] && ((25 <= t <= 28) || (37 <= t <= 40) || (49 <= t <= 52)) ==> step
                == NotesStep::Continue {
                send_unmasked_to: None,
                action: NoteAction::RevealCommunity {
                    cards: after.temp_cards,
                    flop_offset: if after.phase == 2 {
                        3
                    } else if after.phase == 3 {
                        4
                    } else {
                        0
                    },
                },
            }
            &&& t != before.player_data[0] && (t == 0 || t >= 53) ==> step == NotesStep::Continue {
                send_unmasked_to: None,
                action: NoteAction::Idle,
            }
        }),
{
}

/// When the requester changed in a round: if the first temporary card word
/// changed too, the client finishes by unmasking the new temporary cards;
/// otherwise it sends its unmasked cards to the new requester and then acts on
/// the action code exactly as it would had the requester stayed the same.
pub proof fn law_new_requester(before: AccountSnapshot, after: AccountSnapshot, game_id: u64)
    requires
        before.requester_id != after.requester_id,
    ensures
        before.temp_cards[0]@ != after.temp_cards[0]@ ==> spec_next_notes_step(before, after, game_id)
            == (NotesStep::Finish { cards: after.temp_cards }),
        before.temp_cards[0]@ == after.temp_cards[0]@ ==> spec_next_notes_step(before, after, game_id)
            == (NotesStep::Continue {
            send_unmasked_to: Some(after.requester_id),
            action: spec_next_notes_step(
                before,
                (AccountSnapshot { requester_id: before.requester_id, ..after }),
                game_id,
            )->action,
        }),
{
}

} // verus!
