use poker_escrow::errors::PokerError;
use poker_escrow::state::{GameStatus, GameType, PokerEscrow, REFUND_TIMEOUT_SECONDS};
use poker_escrow::{create_game, emergency_refund, join_game};

fn pending_game_with_players() -> PokerEscrow {
    let mut e =
        create_game(7, 99, 100, 2, 4, GameType::SingleHand, String::from("h"), 1_000).unwrap();
    join_game(&mut e, 11, 100, 1_001).unwrap();
    join_game(&mut e, 22, 100, 1_002).unwrap();
    join_game(&mut e, 33, 100, 1_003).unwrap();
    e
}

#[test]
fn refund_rejects_non_participants() {
    let mut e = pending_game_with_players();
    e.status = GameStatus::Abandoned;
    assert_eq!(emergency_refund(&mut e, 44, 2_000).unwrap_err(), PokerError::PlayerNotInGame);
}

#[test]
fn refund_rejects_pending_game_before_the_deadline() {
    let mut e = pending_game_with_players();
    // Exactly at the deadline is still too early: strictly more than 24 hours
    // must have elapsed.
    let r = emergency_refund(&mut e, 11, 1_000 + REFUND_TIMEOUT_SECONDS);
    assert_eq!(r.unwrap_err(), PokerError::RefundTimeoutNotReached);
    assert_eq!(e.current_players, 3);
    assert_eq!(e.total_pot, 300);
}

#[test]
fn refund_succeeds_on_pending_game_after_the_deadline() {
    let mut e = pending_game_with_players();
    let refunded = emergency_refund(&mut e, 22, 1_001 + REFUND_TIMEOUT_SECONDS).unwrap();
    assert_eq!(refunded, 100);
    assert_eq!(e.current_players, 2);
    assert_eq!(e.total_pot, 200);
    assert_eq!(e.players.len(), 2);
    // Only that participant left, and the join order of the rest is kept.
    assert_eq!(e.players[0].player, 11);
    assert_eq!(e.players[1].player, 33);
    assert_eq!(e.status, GameStatus::Pending);
}

#[test]
fn refund_succeeds_on_abandoned_game_at_any_time() {
    let mut e = pending_game_with_players();
    e.status = GameStatus::Abandoned;
    let refunded = emergency_refund(&mut e, 11, 1_004).unwrap();
    assert_eq!(refunded, 100);
    assert_eq!(e.current_players, 2);
    assert_eq!(e.total_pot, 200);
}

#[test]
fn each_participant_refunds_independently() {
    let mut e = pending_game_with_players();
    e.status = GameStatus::Abandoned;
    assert_eq!(emergency_refund(&mut e, 11, 2_000).unwrap(), 100);
    assert_eq!(emergency_refund(&mut e, 11, 2_000).unwrap_err(), PokerError::PlayerNotInGame);
    assert_eq!(emergency_refund(&mut e, 33, 2_000).unwrap(), 100);
    assert_eq!(emergency_refund(&mut e, 22, 2_000).unwrap(), 100);
    assert_eq!(e.current_players, 0);
    assert_eq!(e.total_pot, 0);
    assert!(e.players.is_empty());
}

#[test]
fn refund_near_the_timestamp_limit_does_not_panic() {
    let mut e =
        create_game(7, 99, 100, 2, 4, GameType::SingleHand, String::from("h"), i64::MAX - 10)
            .unwrap();
    join_game(&mut e, 11, 100, i64::MAX - 10).unwrap();
    let r = emergency_refund(&mut e, 11, i64::MAX);
    assert_eq!(r.unwrap_err(), PokerError::RefundTimeoutNotReached);
}

#[test]
fn membership_and_capacity_queries() {
    let mut e = pending_game_with_players();
    assert!(e.has_player(11));
    assert!(e.has_player(33));
    assert!(!e.has_player(44));
    assert!(!e.is_full());
    assert!(e.can_start());
    join_game(&mut e, 44, 100, 1_004).unwrap();
    assert!(e.is_full());
}

#[test]
fn can_start_needs_pending_status_and_enough_players() {
    let mut e =
        create_game(7, 99, 100, 3, 4, GameType::SingleHand, String::from("h"), 1_000).unwrap();
    assert!(!e.can_start());
    join_game(&mut e, 11, 100, 0).unwrap();
    join_game(&mut e, 22, 100, 0).unwrap();
    assert!(!e.can_start());
    join_game(&mut e, 33, 100, 0).unwrap();
    assert!(e.can_start());
    e.status = GameStatus::Abandoned;
    assert!(!e.can_start());
}

#[test]
fn add_player_rejects_a_wrong_deposit() {
    let mut e =
        create_game(7, 99, 100, 2, 4, GameType::SingleHand, String::from("h"), 1_000).unwrap();
    assert_eq!(e.add_player(11, 99, 0).unwrap_err(), PokerError::IncorrectBuyIn);
    assert_eq!(e.add_player(11, 101, 0).unwrap_err(), PokerError::IncorrectBuyIn);
    assert_eq!(e.current_players, 0);
    e.add_player(11, 100, 0).unwrap();
    assert_eq!(e.total_pot, 100);
}

#[test]
fn dealer_helpers_rotate_and_predict() {
    let mut e = pending_game_with_players();
    assert_eq!(e.get_next_dealer(), 1);
    e.rotate_dealer().unwrap();
    assert_eq!(e.dealer_position, 1);
    assert_eq!(e.get_next_dealer(), 2);
    e.rotate_dealer().unwrap();
    e.rotate_dealer().unwrap();
    assert_eq!(e.dealer_position, 0);
    let mut empty =
        create_game(8, 99, 100, 2, 4, GameType::SingleHand, String::from("h"), 0).unwrap();
    assert_eq!(empty.get_next_dealer(), 0);
    empty.rotate_dealer().unwrap();
    assert_eq!(empty.dealer_position, 0);
}

#[test]
fn hand_bookkeeping_helpers() {
    let mut e = pending_game_with_players();
    e.start_new_hand(String::from("next")).unwrap();
    assert_eq!(e.hand_number, 1);
    assert_eq!(e.hand_identifier, "next");
    e.complete_hand(9_000).unwrap();
    assert_eq!(e.total_hands_played, 1);
    assert_eq!(e.completed_at, Some(9_000));
}
