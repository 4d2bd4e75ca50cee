use vstd::prelude::*;

use crate::errors::PokerError;
use crate::state::{GameStatus, PlayerDeposit, PokerEscrow};

verus! {

/// A join is accepted exactly when the game is still pending, the table has
/// a free seat, the identity is not seated yet, the player can cover the
/// buy-in, and the pot can absorb it.
pub open spec fn join_allowed(escrow: PokerEscrow, player: u64, player_balance: u64) -> bool {
    &&& escrow.status == GameStatus::Pending
    &&& escrow.players@.len() < escrow.max_players as int
    &&& !escrow.spec_has_player(player)
    &&& player_balance >= escrow.buy_in
    &&& escrow.total_pot + escrow.buy_in <= u64::MAX
}

/// Seat a player and take one buy-in into custody.
///
/// On success the caller owes the record a transfer of `buy_in` from the
/// player; the bookkeeping here and that transfer form one atomic unit.
/// After every successful join the pot equals `buy_in * current_players`.
/// On any rejection the record is unchanged.
pub fn handler(escrow: &mut PokerEscrow, player: u64, player_balance: u64, now: i64) -> (r:
    Result<(), PokerError>)
    requires
        old(escrow).wf(),
    ensures
        final(escrow).wf(),
        r is Ok <==> join_allowed(*old(escrow), player, player_balance),
        r == Err::<(), PokerError>(PokerError::GameNotPending) <==> old(escrow).status
            != GameStatus::Pending,
        r == Err::<(), PokerError>(PokerError::GameFull) <==> {
            &&& old(escrow).status == GameStatus::Pending
            &&& old(escrow).players@.len() >= old(escrow).max_players as int
        },
        r == Err::<(), PokerError>(PokerError::PlayerAlreadyJoined) <==> {
            &&& old(escrow).status == GameStatus::Pending
            &&& old(escrow).players@.len() < old(escrow).max_players as int
            &&& old(escrow).spec_has_player(player)
        },
        r == Err::<(), PokerError>(PokerError::InsufficientBalance) <==> {
            &&& old(escrow).status == GameStatus::Pending
            &&& old(escrow).players@.len() < old(escrow).max_players as int
            &&& !old(escrow).spec_has_player(player)
            &&& player_balance < old(escrow).buy_in
        },
        r == Err::<(), PokerError>(PokerError::MathOverflow) <==> {
            &&& old(escrow).status == GameStatus::Pending
            &&& old(escrow).players@.len() < old(escrow).max_players as int
            &&& !old(escrow).spec_has_player(player)
            &&& player_balance >= old(escrow).buy_in
            &&& old(escrow).total_pot + old(escrow).buy_in > u64::MAX
        },
        r is Err ==> *final(escrow) == *old(escrow),
        r is Ok ==> {
            &&& final(escrow).players@ == old(escrow).players@.push(
                (PlayerDeposit { player, amount: old(escrow).buy_in, timestamp: now }),
            )
            &&& final(escrow).current_players == old(escrow).current_players + 1
            &&& final(escrow).total_pot == old(escrow).total_pot + old(escrow).buy_in
            &&& final(escrow).total_pot as int == (final(escrow).buy_in as int) * (final(escrow).current_players as int)
            &&& final(escrow).same_config(*old(escrow))
            &&& final(escrow).status == GameStatus::Pending
            &&& final(escrow).hand_identifier@ == old(escrow).hand_identifier@
            &&& final(escrow).hand_results@ == old(escrow).hand_results@
            &&& final(escrow).started_at == old(escrow).started_at
            &&& final(escrow).completed_at == old(escrow).completed_at
            &&& final(escrow).dealer_position == old(escrow).dealer_position
            &&& final(escrow).hand_number == old(escrow).hand_number
            &&& final(escrow).total_hands_played == old(escrow).total_hands_played
        },
{
    if escrow.status != GameStatus::Pending {
        return Err(PokerError::GameNotPending);
    }
    if escrow.is_full() {
        return Err(PokerError::GameFull);
    }
    if escrow.has_player(player) {
        return Err(PokerError::PlayerAlreadyJoined);
    }
    if player_balance < escrow.buy_in {
        return Err(PokerError::InsufficientBalance);
    }
    let amount: u64 = escrow.buy_in;
    escrow.add_player(player, amount, now)
}

} // verus!
