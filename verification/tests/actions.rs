use aze::actions::{ActionType, GameActionError, GameActionResponse};

#[test]
fn status_codes() {
    assert_eq!(GameActionError::GameActionFailed.status_code(), 424);
    assert_eq!(GameActionError::BadActionRequest.status_code(), 400);
}

#[test]
fn labels() {
    assert_eq!(ActionType::Raise.label(), "Raise");
    assert_eq!(ActionType::SmallBlind.label(), "Small Blind");
    assert_eq!(ActionType::BigBlind.label(), "Big Blind");
    assert_eq!(ActionType::Call.label(), "Call");
    assert_eq!(ActionType::Check.label(), "Check");
    assert_eq!(ActionType::Fold.label(), "Fold");
}

#[test]
fn response_holds_its_flag() {
    let r = GameActionResponse { is_taken: true };
    assert!(r.is_taken);
}
