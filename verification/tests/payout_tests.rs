use poker_escrow::errors::PokerError;
use poker_escrow::state::{GameStatus, GameType, PokerEscrow};
use poker_escrow::{close_game, create_game, distribute_pot, emergency_refund, join_game, start_game};

fn active_game(buy_in: u64, mode: GameType, players: &[u64]) -> PokerEscrow {
    let mut e =
        create_game(7, 99, buy_in, 2, 10, mode, String::from("hand-1"), 1_000).unwrap();
    for p in players {
        join_game(&mut e, *p, buy_in, 1_500).unwrap();
    }
    start_game(&mut e, 99, None, 2_000).unwrap();
    e
}

#[test]
fn single_hand_scenario_completes_and_empties_the_pot() {
    // create(buy_in=100, min=2, max=4, mode=SingleHand), join(A), join(B),
    // start, distribute(winner=A, amount=200, rank=8, "Full House").
    let mut e =
        create_game(1, 99, 100, 2, 4, GameType::SingleHand, String::from("h1"), 0).unwrap();
    join_game(&mut e, 11, 100, 1).unwrap();
    join_game(&mut e, 22, 100, 2).unwrap();
    start_game(&mut e, 99, None, 3).unwrap();
    distribute_pot(&mut e, 99, 11, 200, 8, String::from("Full House"), 4).unwrap();
    assert_eq!(e.total_pot, 0);
    assert_eq!(e.status, GameStatus::Completed);
    assert_eq!(e.completed_at, Some(4));
    assert_eq!(e.total_hands_played, 1);
    assert_eq!(e.hand_results.len(), 1);
    assert_eq!(e.hand_results[0].winner, 11);
    assert_eq!(e.hand_results[0].hand_rank, 8);
    assert_eq!(e.hand_results[0].hand_description, "Full House");
    assert_eq!(e.hand_results[0].winning_amount, 200);
}

#[test]
fn completed_single_hand_rejects_every_further_operation() {
    let mut e = active_game(100, GameType::SingleHand, &[11, 22]);
    distribute_pot(&mut e, 99, 11, 200, 8, String::from("Full House"), 4).unwrap();
    assert_eq!(join_game(&mut e, 33, 100, 5).unwrap_err(), PokerError::GameNotPending);
    assert_eq!(start_game(&mut e, 99, None, 5).unwrap_err(), PokerError::GameNotPending);
    let r = distribute_pot(&mut e, 99, 11, 0, 1, String::from("Pair"), 5);
    assert_eq!(r.unwrap_err(), PokerError::GameNotActive);
    assert_eq!(
        emergency_refund(&mut e, 11, i64::MAX).unwrap_err(),
        PokerError::RefundTimeoutNotReached
    );
    assert_eq!(close_game(&e, 99).unwrap_err(), PokerError::InvalidGameType);
}

#[test]
fn tournament_scenario_rotates_dealer_then_completes() {
    // create(mode=Tournament, min=2, max=2), join(A,100), join(B,100), start,
    // distribute(A,100): Active, pot 100, dealer 1; distribute(B,100):
    // Completed, pot 0.
    let mut e =
        create_game(2, 99, 100, 2, 2, GameType::Tournament, String::from("t1"), 0).unwrap();
    join_game(&mut e, 11, 100, 1).unwrap();
    join_game(&mut e, 22, 100, 2).unwrap();
    start_game(&mut e, 99, None, 3).unwrap();
    distribute_pot(&mut e, 99, 11, 100, 5, String::from("Flush"), 4).unwrap();
    assert_eq!(e.status, GameStatus::Active);
    assert_eq!(e.total_pot, 100);
    assert_eq!(e.dealer_position, 1);
    distribute_pot(&mut e, 99, 22, 100, 1, String::from("Pair"), 5).unwrap();
    assert_eq!(e.status, GameStatus::Completed);
    assert_eq!(e.total_pot, 0);
    assert_eq!(e.dealer_position, 0);
    assert_eq!(e.total_hands_played, 2);
    close_game(&e, 99).unwrap();
}

#[test]
fn partial_payout_keeps_game_active_with_newest_history_entry() {
    let mut e = active_game(100, GameType::CashGame, &[11, 22, 33]);
    distribute_pot(&mut e, 99, 22, 120, 6, String::from("Straight"), 4).unwrap();
    assert_eq!(e.status, GameStatus::Active);
    assert_eq!(e.total_pot, 180);
    assert_eq!(e.dealer_position, 1);
    assert_eq!(e.current_players, 3);
    let last = e.hand_results.last().unwrap();
    assert_eq!(last.winner, 22);
    assert_eq!(last.hand_rank, 6);
    assert_eq!(last.hand_description, "Straight");
    assert_eq!(last.winning_amount, 120);
}

#[test]
fn dealer_rotation_wraps_around_the_table() {
    let mut e = active_game(100, GameType::CashGame, &[11, 22, 33]);
    for k in 0..4u8 {
        distribute_pot(&mut e, 99, 11, 0, 1, String::from("Pair"), 10 + k as i64).unwrap();
        assert_eq!(e.dealer_position, (k + 1) % 3);
    }
}

#[test]
fn oversized_payout_is_rejected_and_changes_nothing() {
    let mut e = active_game(100, GameType::Tournament, &[11, 22]);
    let pot_before = e.total_pot;
    let players_before = e.players.clone();
    let history_before = e.hand_results.len();
    let r = distribute_pot(&mut e, 99, 11, 201, 5, String::from("Flush"), 4);
    assert_eq!(r.unwrap_err(), PokerError::PayoutMismatch);
    assert_eq!(e.total_pot, pot_before);
    assert_eq!(e.players.len(), players_before.len());
    for (x, y) in e.players.iter().zip(players_before.iter()) {
        assert_eq!(x, y);
    }
    assert_eq!(e.hand_results.len(), history_before);
    assert_eq!(e.status, GameStatus::Active);
}

#[test]
fn payout_rejects_wrong_caller_outsider_winner_and_bad_results() {
    let mut e = active_game(100, GameType::Tournament, &[11, 22]);
    let r = distribute_pot(&mut e, 98, 11, 100, 5, String::from("Flush"), 4);
    assert_eq!(r.unwrap_err(), PokerError::UnauthorizedGameServer);
    let r = distribute_pot(&mut e, 99, 44, 100, 5, String::from("Flush"), 4);
    assert_eq!(r.unwrap_err(), PokerError::PlayerNotInGame);
    let r = distribute_pot(&mut e, 99, 11, 100, 10, String::from("Flush"), 4);
    assert_eq!(r.unwrap_err(), PokerError::InvalidHandResult);
    let r = distribute_pot(&mut e, 99, 11, 100, 5, String::new(), 4);
    assert_eq!(r.unwrap_err(), PokerError::InvalidHandResult);
    let r = distribute_pot(&mut e, 99, 11, 100, 5, "d".repeat(33), 4);
    assert_eq!(r.unwrap_err(), PokerError::InvalidHandResult);
    assert_eq!(e.total_pot, 200);
    assert_eq!(e.hand_results.len(), 0);
    // A 32-character description sits exactly on the bound and is accepted.
    distribute_pot(&mut e, 99, 11, 100, 5, "d".repeat(32), 4).unwrap();
    assert_eq!(e.hand_results.len(), 1);
}

#[test]
fn payout_rejects_hand_counter_overflow() {
    let mut e = active_game(100, GameType::Tournament, &[11, 22]);
    e.total_hands_played = u32::MAX;
    let r = distribute_pot(&mut e, 99, 11, 100, 5, String::from("Flush"), 4);
    assert_eq!(r.unwrap_err(), PokerError::MathOverflow);
    assert_eq!(e.total_pot, 200);
}

#[test]
fn hand_history_keeps_only_the_ten_newest_entries() {
    let mut e = active_game(100, GameType::CashGame, &[11, 22]);
    for k in 0..11u8 {
        let label = format!("hand {}", k);
        distribute_pot(&mut e, 99, 11, 0, k % 10, label, k as i64).unwrap();
        assert!(e.hand_results.len() <= 10);
    }
    // The eleventh insertion evicted the first: entries 1..=10 remain.
    assert_eq!(e.hand_results.len(), 10);
    assert_eq!(e.hand_results[0].hand_description, "hand 1");
    assert_eq!(e.hand_results[9].hand_description, "hand 10");
}

#[test]
fn add_hand_result_evicts_oldest_when_full() {
    let mut e = active_game(100, GameType::CashGame, &[11, 22]);
    for k in 0..10u8 {
        e.add_hand_result(11, k % 10, format!("r{}", k), 0).unwrap();
    }
    assert_eq!(e.hand_results.len(), 10);
    assert_eq!(e.hand_results[0].hand_description, "r0");
    e.add_hand_result(22, 3, String::from("r10"), 5).unwrap();
    assert_eq!(e.hand_results.len(), 10);
    assert_eq!(e.hand_results[0].hand_description, "r1");
    assert_eq!(e.hand_results[9].hand_description, "r10");
    assert_eq!(e.hand_results[9].winner, 22);
}

#[test]
fn add_hand_result_rejects_bad_entries() {
    let mut e = active_game(100, GameType::CashGame, &[11, 22]);
    assert_eq!(
        e.add_hand_result(11, 10, String::from("x"), 0).unwrap_err(),
        PokerError::InvalidHandResult
    );
    assert_eq!(
        e.add_hand_result(11, 3, String::new(), 0).unwrap_err(),
        PokerError::InvalidHandResult
    );
    assert_eq!(
        e.add_hand_result(11, 3, "x".repeat(33), 0).unwrap_err(),
        PokerError::InvalidHandResult
    );
    assert_eq!(e.hand_results.len(), 0);
}

#[test]
fn close_rejects_unfinished_or_nonempty_records() {
    let mut e = active_game(100, GameType::Tournament, &[11, 22]);
    assert_eq!(close_game(&e, 98).unwrap_err(), PokerError::UnauthorizedGameServer);
    assert_eq!(close_game(&e, 99).unwrap_err(), PokerError::GameNotCompleted);
    e.status = GameStatus::Completed;
    assert_eq!(close_game(&e, 99).unwrap_err(), PokerError::PotNotEmpty);
    e.total_pot = 0;
    close_game(&e, 99).unwrap();
}
