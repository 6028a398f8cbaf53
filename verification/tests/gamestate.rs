use aze::actions::ActionType;
use aze::gamestate::{Check_Action, MoveRefusal, Player, PokerGame};

fn act(action_type: ActionType) -> Check_Action {
    Check_Action { action_type, amount: None }
}

fn raise(amount: u64) -> Check_Action {
    Check_Action { action_type: ActionType::Raise, amount: Some(amount) }
}

fn three_players() -> PokerGame {
    PokerGame::new(vec![11, 22, 33], vec![100, 100, 100], 5, 10)
}

fn total_chips(g: &PokerGame) -> u64 {
    let mut sum = g.pot();
    for i in 0..g.player_count() {
        sum += g.player(i).unwrap().balance;
    }
    sum
}

#[test]
fn new_seats_players_in_order() {
    let g = three_players();
    assert_eq!(g.player_count(), 3);
    assert_eq!(g.player(1), Some(Player { id: 22, balance: 100, current_bet: 0, has_folded: false }));
    assert_eq!(g.player(3), None);
    assert_eq!(g.pot(), 0);
    assert_eq!(g.current_bet(), 0);
    assert_eq!(g.current_player_index(), 0);
    assert_eq!(g.small_blind(), 5);
    assert_eq!(g.big_blind(), 10);
}

#[test]
fn new_takes_the_shorter_list() {
    let g = PokerGame::new(vec![1, 2, 3], vec![50, 60], 1, 2);
    assert_eq!(g.player_count(), 2);
    assert_eq!(g.player(1).unwrap().balance, 60);
    let g = PokerGame::new(vec![1], vec![50, 60], 1, 2);
    assert_eq!(g.player_count(), 1);
}

#[test]
fn blinds_then_call_and_raise() {
    let mut g = three_players();
    assert!(g.check_move(act(ActionType::SmallBlind), 11, 11));
    assert_eq!(g.pot(), 5);
    assert_eq!(g.current_bet(), 5);
    assert_eq!(g.player(0).unwrap().balance, 95);
    assert_eq!(g.player(0).unwrap().current_bet, 5);
    assert_eq!(g.current_player_index(), 1);

    assert!(g.check_move(act(ActionType::BigBlind), 22, 22));
    assert_eq!(g.pot(), 15);
    assert_eq!(g.current_bet(), 10);
    assert_eq!(g.player(1).unwrap().balance, 90);
    assert_eq!(g.current_player_index(), 2);

    assert!(g.check_move(act(ActionType::Call), 33, 33));
    assert_eq!(g.pot(), 25);
    assert_eq!(g.player(2).unwrap().balance, 90);
    assert_eq!(g.player(2).unwrap().current_bet, 10);
    assert_eq!(g.current_player_index(), 0);

    // Raise by 20 on a table bet of 10: new bet 30, the raiser (bet 5) pays 25,
    // the pot takes 20.
    assert!(g.check_move(raise(20), 11, 11));
    assert_eq!(g.current_bet(), 30);
    assert_eq!(g.player(0).unwrap().current_bet, 30);
    assert_eq!(g.player(0).unwrap().balance, 70);
    assert_eq!(g.pot(), 45);
    assert_eq!(g.current_player_index(), 1);
}

#[test]
fn refused_moves_leave_the_table_unchanged() {
    let mut g = three_players();
    // Not the player whose turn the account names.
    assert!(!g.check_move(act(ActionType::SmallBlind), 22, 11));
    // Only the first seat posts the small blind; the second posts the big one.
    assert!(!g.check_move(act(ActionType::BigBlind), 11, 11));
    // A raise needs an amount.
    assert!(!g.check_move(act(ActionType::Raise), 11, 11));
    assert_eq!(g.pot(), 0);
    assert_eq!(g.current_player_index(), 0);
    assert_eq!(g.player(0).unwrap().balance, 100);

    assert!(g.check_move(act(ActionType::SmallBlind), 11, 11));
    // The second seat may not post the small blind.
    assert!(!g.check_move(act(ActionType::SmallBlind), 22, 22));
    assert!(g.check_move(act(ActionType::BigBlind), 22, 22));
    // Behind the bet: no check.
    assert!(!g.check_move(act(ActionType::Check), 33, 33));
    assert_eq!(g.current_player_index(), 2);
    assert_eq!(g.pot(), 15);
}

#[test]
fn not_enough_balance_is_refused() {
    let mut g = PokerGame::new(vec![1, 2], vec![3, 100], 5, 10);
    assert!(!g.check_move(act(ActionType::SmallBlind), 1, 1));
    assert_eq!(g.pot(), 0);
    let mut g = PokerGame::new(vec![1, 2], vec![50, 8], 5, 10);
    assert!(g.check_move(act(ActionType::SmallBlind), 1, 1));
    assert!(!g.check_move(act(ActionType::BigBlind), 2, 2));
    assert!(!g.check_move(raise(4), 2, 2));
    assert!(g.check_move(act(ActionType::Call), 2, 2));
    assert_eq!(g.player(1).unwrap().balance, 3);
    assert_eq!(g.pot(), 10);
}

#[test]
fn folded_players_are_skipped() {
    let mut g = three_players();
    assert!(g.check_move(act(ActionType::SmallBlind), 11, 11));
    assert!(g.check_move(act(ActionType::Fold), 22, 22));
    assert!(g.player(1).unwrap().has_folded);
    assert_eq!(g.current_player_index(), 2);
    assert!(g.check_move(act(ActionType::Check), 33, 33) == false);
    assert!(g.check_move(act(ActionType::Call), 33, 33));
    // Seat 0 is next; after it, seat 1 (folded) is skipped.
    assert_eq!(g.current_player_index(), 0);
    assert!(g.check_move(act(ActionType::Check), 11, 11));
    assert_eq!(g.current_player_index(), 2);
}

#[test]
fn a_folded_seat_cannot_act() {
    let mut g = PokerGame::new(vec![1, 2], vec![50, 50], 5, 10);
    assert!(g.check_move(act(ActionType::Fold), 1, 1));
    assert_eq!(g.current_player_index(), 1);
    assert!(g.check_move(act(ActionType::Check), 2, 2));
    // The turn goes round to seat 1 again, seat 0 having folded.
    assert_eq!(g.current_player_index(), 1);
}

#[test]
fn check_move_defined_rejects_an_endless_turn_and_overflow() {
    let g = PokerGame::new(vec![1, 2], vec![50, 50], 5, 10);
    assert!(g.check_move_defined(act(ActionType::Fold), 1, 1));
    let mut g2 = PokerGame::new(vec![1, 2], vec![50, 50], 5, 10);
    assert!(g2.check_move(act(ActionType::Fold), 1, 1));
    // The only seat still in the hand may not fold: the turn would go round for ever.
    assert!(!g2.check_move_defined(act(ActionType::Fold), 2, 2));
    // A refused fold is still defined.
    assert!(g2.check_move_defined(act(ActionType::Fold), 1, 2));
    // A raise whose new bet overflows u64.
    let mut g3 = PokerGame::new(vec![1, 2], vec![50, 50], 5, 10);
    assert!(g3.check_move(act(ActionType::SmallBlind), 1, 1));
    assert!(!g3.check_move_defined(raise(u64::MAX), 2, 2));
    assert!(g3.check_move_defined(raise(u64::MAX - 5), 2, 2));
    let g4 = PokerGame::new(vec![1, 2], vec![u64::MAX, 50], 5, 10);
    assert!(g4.check_move_defined(raise(u64::MAX), 1, 1));
    // An empty table has no seat to act.
    let empty = PokerGame::new(vec![], vec![], 5, 10);
    assert!(!empty.check_move_defined(act(ActionType::Check), 1, 1));
}

#[test]
fn call_above_the_table_bet_is_undefined() {
    let mut g = PokerGame::new(vec![1, 2], vec![50, 50], 5, 10);
    assert!(g.check_move(raise(20), 1, 1));
    assert!(g.check_move(act(ActionType::Call), 2, 2));
    // Seat 0 posts the small blind now: the table's bet drops to 5 while its own is 5,
    // seat 1's bet is 20 and a call by it would underflow.
    assert!(g.check_move(act(ActionType::SmallBlind), 1, 1));
    assert_eq!(g.current_bet(), 5);
    assert!(!g.check_move_defined(act(ActionType::Call), 2, 2));
}

#[test]
fn chips_are_conserved_except_by_a_raise() {
    let mut g = three_players();
    let start = total_chips(&g);
    assert!(g.check_move(act(ActionType::SmallBlind), 11, 11));
    assert!(g.check_move(act(ActionType::BigBlind), 22, 22));
    assert!(g.check_move(act(ActionType::Call), 33, 33));
    assert!(g.check_move(act(ActionType::Fold), 11, 11));
    assert_eq!(total_chips(&g), start);
    // Seat 1's bet (10) matches the table's: the raise keeps the chips.
    assert!(g.check_move(raise(5), 22, 22));
    assert_eq!(total_chips(&g), start);
    // Seat 2's bet (10) is 5 behind the table's (15): the raise loses 5 chips.
    assert!(g.check_move(raise(5), 33, 33));
    assert_eq!(total_chips(&g), start - 5);
}

#[test]
fn refusal_reasons_follow_the_rules_in_order() {
    let mut g = three_players();
    assert_eq!(g.refusal(act(ActionType::SmallBlind), 11, 11), None);
    assert_eq!(g.refusal(act(ActionType::Fold), 22, 11), Some(MoveRefusal::NotYourTurn));
    assert_eq!(g.refusal(act(ActionType::BigBlind), 11, 11), Some(MoveRefusal::NotBigBlindSeat));
    assert_eq!(g.refusal(act(ActionType::Raise), 11, 11), Some(MoveRefusal::NoRaiseAmount));
    assert_eq!(g.refusal(raise(101), 11, 11), Some(MoveRefusal::CannotAffordRaise));
    assert!(g.check_move(act(ActionType::SmallBlind), 11, 11));
    assert_eq!(g.refusal(act(ActionType::SmallBlind), 22, 22), Some(MoveRefusal::NotSmallBlindSeat));
    assert!(g.check_move(act(ActionType::Fold), 22, 22));
    assert_eq!(g.refusal(act(ActionType::Check), 33, 33), Some(MoveRefusal::MustCallOrRaise));
    let poor = PokerGame::new(vec![1, 2], vec![4, 9], 5, 10);
    assert_eq!(poor.refusal(act(ActionType::SmallBlind), 1, 1), Some(MoveRefusal::CannotAffordSmallBlind));
    let mut poor = PokerGame::new(vec![1, 2], vec![50, 9], 5, 10);
    assert!(poor.check_move(act(ActionType::SmallBlind), 1, 1));
    assert_eq!(poor.refusal(act(ActionType::BigBlind), 2, 2), Some(MoveRefusal::CannotAffordBigBlind));
    let mut poor = PokerGame::new(vec![1, 2], vec![50, 2], 5, 10);
    assert!(poor.check_move(act(ActionType::SmallBlind), 1, 1));
    assert_eq!(poor.refusal(act(ActionType::Call), 2, 2), Some(MoveRefusal::CannotAffordCall));
}

#[test]
fn the_seat_to_act_has_never_folded() {
    let mut g = PokerGame::new(vec![1, 2, 3, 4], vec![50, 50, 50, 50], 5, 10);
    let moves = [(1, ActionType::Fold), (2, ActionType::Fold), (3, ActionType::Check), (4, ActionType::Check)];
    for (id, a) in moves {
        assert!(g.check_move(act(a), id, id));
        let seat = g.player(g.current_player_index()).unwrap();
        assert!(!seat.has_folded);
    }
    assert_eq!(g.current_player_index(), 2);
    assert_eq!(g.refusal(act(ActionType::Check), 3, 3), None);
}

#[test]
fn refusal_messages() {
    assert_eq!(MoveRefusal::NotYourTurn.message(), "Not your turn");
    assert_eq!(MoveRefusal::AlreadyFolded.message(), "Player has already folded");
    assert_eq!(MoveRefusal::MustCallOrRaise.message(), "Cannot check, must call or raise");
    assert_eq!(MoveRefusal::CannotAffordCall.message(), "Not enough balance to call");
    assert_eq!(MoveRefusal::CannotAffordRaise.message(), "Not enough balance to raise");
    assert_eq!(MoveRefusal::NoRaiseAmount.message(), "Raise amount not specified");
    assert_eq!(MoveRefusal::NotSmallBlindSeat.message(), "Only P1 can post the small blind");
    assert_eq!(MoveRefusal::CannotAffordSmallBlind.message(), "Not enough balance to post the small blind");
    assert_eq!(MoveRefusal::NotBigBlindSeat.message(), "Only P2 can post the big blind");
    assert_eq!(MoveRefusal::CannotAffordBigBlind.message(), "Not enough balance to post the big blind");
}
