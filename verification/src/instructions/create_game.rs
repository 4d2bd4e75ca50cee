use vstd::prelude::*;

use crate::errors::PokerError;
use crate::state::{GameStatus, GameType, PokerEscrow, MAX_TABLE_PLAYERS};

verus! {

/// The inputs from which a record may be created: player bounds in order and
/// within the table cap, a positive buy-in, and a label of 1 to 64 characters.
pub open spec fn create_allowed(
    buy_in: u64,
    min_players: u8,
    max_players: u8,
    hand_identifier: Seq<char>,
) -> bool {
    &&& 2 <= min_players
    &&& max_players <= MAX_TABLE_PLAYERS
    &&& min_players <= max_players
    &&& buy_in > 0
    &&& 1 <= hand_identifier.len() <= 64
}

/// Create a new escrow record.
///
/// On success the record starts in `Pending` with an empty table, an empty
/// pot and an empty audit ring; on any invalid input nothing is allocated
/// and a validation error is returned.
pub fn handler(
    game_id: u64,
    game_server: u64,
    buy_in: u64,
    min_players: u8,
    max_players: u8,
    game_type: GameType,
    hand_identifier: String,
    now: i64,
) -> (r: Result<PokerEscrow, PokerError>)
    ensures
        r is Ok <==> create_allowed(buy_in, min_players, max_players, hand_identifier@),
        r matches Err(e) ==> e == PokerError::InvalidPlayerCount || e == PokerError::IncorrectBuyIn
            || e == PokerError::InvalidHandIdentifier,
        r == Err::<PokerEscrow, PokerError>(PokerError::InvalidPlayerCount) <==> !(2 <= min_players
            && max_players <= MAX_TABLE_PLAYERS && min_players <= max_players),
        r == Err::<PokerEscrow, PokerError>(PokerError::IncorrectBuyIn) <==> {
            &&& 2 <= min_players && max_players <= MAX_TABLE_PLAYERS && min_players <= max_players
            &&& buy_in == 0
        },
        r == Err::<PokerEscrow, PokerError>(PokerError::InvalidHandIdentifier) <==> {
            &&& 2 <= min_players && max_players <= MAX_TABLE_PLAYERS && min_players <= max_players
            &&& buy_in > 0
            &&& !(1 <= hand_identifier@.len() <= 64)
        },
        r matches Ok(e) ==> {
            &&& e.wf()
            &&& e.game_id == game_id
            &&& e.game_server == game_server
            &&& e.buy_in == buy_in
            &&& e.total_pot == 0
            &&& e.min_players == min_players
            &&& e.max_players == max_players
            &&& e.current_players == 0
            &&& e.status == GameStatus::Pending
            &&& e.game_type == game_type
            &&& e.hand_identifier@ == hand_identifier@
            &&& e.players@.len() == 0
            &&& e.hand_results@.len() == 0
            &&& e.created_at == now
            &&& e.started_at is None
            &&& e.completed_at is None
            &&& e.dealer_position == 0
            &&& e.hand_number == 0
            &&& e.total_hands_played == 0
        },
{
    if min_players < 2 || max_players > MAX_TABLE_PLAYERS || min_players > max_players {
        return Err(PokerError::InvalidPlayerCount);
    }
    if buy_in == 0 {
        return Err(PokerError::IncorrectBuyIn);
    }
    let label_len: usize = hand_identifier.as_str().unicode_len();
    if label_len == 0 || label_len > 64 {
        return Err(PokerError::InvalidHandIdentifier);
    }

    Ok(
        PokerEscrow {
            game_id,
            game_server,
            buy_in,
            total_pot: 0,
            min_players,
            max_players,
            current_players: 0,
            status: GameStatus::Pending,
            game_type,
            hand_identifier,
            players: Vec::new(),
            hand_results: Vec::new(),
            created_at: now,
            started_at: None,
            completed_at: None,
            dealer_position: 0,
            hand_number: 0,
            total_hands_played: 0,
        },
    )
}

} // verus!
