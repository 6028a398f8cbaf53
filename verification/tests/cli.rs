use aze::actions::ActionType;
use aze::cli::action::{get_available_actions, StatResponse};
use aze::cli::connect::{last_path_segment, ConnectCmd};
use aze::cli::consume_notes::{AccountSnapshot, ConsumeNotesCmd, NoteAction, NotesStep};
use aze::cli::peek_hand::PeekHandCmd;

fn stats(pot_value: u64, highest_bet: u64, small_blind_amount: u64) -> StatResponse {
    StatResponse {
        player_ids: vec![7, 8, 7],
        player_bets: vec![10, 20, 99],
        pot_value,
        highest_bet,
        small_blind_amount,
    }
}

#[test]
fn empty_pot_offers_the_small_blind() {
    assert_eq!(get_available_actions(&stats(0, 20, 5), 7), vec![ActionType::SmallBlind, ActionType::Fold]);
}

#[test]
fn small_blind_posted_offers_the_big_blind() {
    assert_eq!(get_available_actions(&stats(5, 5, 5), 8), vec![ActionType::BigBlind, ActionType::Fold]);
}

#[test]
fn behind_the_bet_offers_raise_call_fold() {
    // Player 7's bet is read at its first position (10), not at the later one (99).
    assert_eq!(
        get_available_actions(&stats(30, 20, 5), 7),
        vec![ActionType::Raise, ActionType::Call, ActionType::Fold]
    );
}

#[test]
fn level_with_the_bet_offers_check_raise_fold() {
    assert_eq!(
        get_available_actions(&stats(30, 20, 5), 8),
        vec![ActionType::Check, ActionType::Raise, ActionType::Fold]
    );
}

#[test]
fn ahead_of_the_bet_offers_nothing() {
    assert_eq!(get_available_actions(&stats(30, 15, 5), 8), vec![]);
}

#[test]
fn last_segment_of_paths() {
    assert_eq!(last_path_segment("/game/0x9a"), Some("0x9a".to_string()));
    assert_eq!(last_path_segment("/"), Some("".to_string()));
    assert_eq!(last_path_segment("/a/b/"), Some("".to_string()));
    assert_eq!(last_path_segment("/single"), Some("single".to_string()));
    assert_eq!(last_path_segment("text/plain,x"), None);
    assert_eq!(last_path_segment(""), None);
}

#[test]
fn game_id_from_the_server_url() {
    let cmd = ConnectCmd { url: "ws://127.0.0.1:8080/game/0x8ae0f2b4c1d3e5f7".to_string() };
    assert_eq!(cmd.game_id_segment(), Some("0x8ae0f2b4c1d3e5f7".to_string()));
    let cmd = ConnectCmd { url: "ws://example.com".to_string() };
    assert_eq!(cmd.game_id_segment(), Some("".to_string()));
    let cmd = ConnectCmd { url: "data:text/plain,stuff".to_string() };
    assert_eq!(cmd.game_id_segment(), None);
    let cmd = ConnectCmd { url: "not a url".to_string() };
    assert_eq!(cmd.game_id_segment(), None);
}

#[test]
fn peek_hand_player_id() {
    assert_eq!(PeekHandCmd { player_id: 0 }.given_player_id(), None);
    assert_eq!(PeekHandCmd { player_id: 42 }.given_player_id(), Some(42));
}

fn snapshot(action: u64, requester_id: u64, first_card: u64, phase: u64) -> AccountSnapshot {
    AccountSnapshot {
        player_data: [action, 101, 102, 103],
        requester_id,
        temp_cards: [[first_card, 0, 0, 0], [2, 0, 0, 0], [3, 0, 0, 0]],
        phase,
    }
}

fn action_of(step: NotesStep) -> (Option<u64>, NoteAction) {
    match step {
        NotesStep::Continue { send_unmasked_to, action } => (send_unmasked_to, action),
        NotesStep::Finish { .. } => panic!("unexpected finish"),
    }
}

#[test]
fn unchanged_action_code_waits() {
    let step = ConsumeNotesCmd::next_step(&snapshot(2, 5, 1, 0), &snapshot(2, 5, 1, 0), 900);
    let (send, action) = action_of(step);
    assert_eq!(send, None);
    assert!(matches!(action, NoteAction::Idle));
}

#[test]
fn encryption_codes_pick_their_target() {
    let (_, action) = action_of(ConsumeNotesCmd::next_step(&snapshot(0, 5, 1, 0), &snapshot(2, 5, 1, 0), 900));
    assert!(matches!(action, NoteAction::Encrypt { action_type: 2, target: 102 }));
    let (_, action) = action_of(ConsumeNotesCmd::next_step(&snapshot(0, 5, 1, 0), &snapshot(4, 5, 1, 0), 900));
    assert!(matches!(action, NoteAction::Encrypt { action_type: 4, target: 900 }));
}

#[test]
fn unmask_codes() {
    let (_, action) = action_of(ConsumeNotesCmd::next_step(&snapshot(0, 5, 1, 0), &snapshot(41, 5, 1, 0), 900));
    match action {
        NoteAction::PeerUnmask { cards } => assert_eq!(cards[1], [2, 0, 0, 0]),
        _ => panic!("expected a peer unmask"),
    }
    let (_, action) = action_of(ConsumeNotesCmd::next_step(&snapshot(0, 5, 1, 0), &snapshot(16, 5, 1, 0), 900));
    assert!(matches!(action, NoteAction::SelfUnmaskHand));
    let (_, action) = action_of(ConsumeNotesCmd::next_step(&snapshot(0, 5, 1, 0), &snapshot(13, 5, 1, 0), 900));
    assert!(matches!(action, NoteAction::SelfUnmaskHand));
    let (_, action) = action_of(ConsumeNotesCmd::next_step(&snapshot(0, 5, 1, 0), &snapshot(53, 5, 1, 0), 900));
    assert!(matches!(action, NoteAction::Idle));
}

#[test]
fn community_reveal_picks_the_slot_by_phase() {
    for (phase, offset) in [(0u64, 0u64), (1, 0), (2, 3), (3, 4), (9, 0)] {
        let (_, action) =
            action_of(ConsumeNotesCmd::next_step(&snapshot(0, 5, 1, phase), &snapshot(37, 5, 1, phase), 900));
        match action {
            NoteAction::RevealCommunity { cards, flop_offset } => {
                assert_eq!(flop_offset, offset);
                assert_eq!(cards[2], [3, 0, 0, 0]);
            }
            _ => panic!("expected a community reveal"),
        }
    }
}

#[test]
fn new_requester_gets_the_unmasked_cards() {
    let (send, action) = action_of(ConsumeNotesCmd::next_step(&snapshot(0, 5, 1, 0), &snapshot(0, 6, 1, 0), 900));
    assert_eq!(send, Some(6));
    assert!(matches!(action, NoteAction::Idle));
}

#[test]
fn new_requester_with_new_cards_finishes() {
    let step = ConsumeNotesCmd::next_step(&snapshot(0, 5, 1, 0), &snapshot(3, 6, 7, 0), 900);
    match step {
        NotesStep::Finish { cards } => assert_eq!(cards[0], [7, 0, 0, 0]),
        _ => panic!("expected finish"),
    }
}
