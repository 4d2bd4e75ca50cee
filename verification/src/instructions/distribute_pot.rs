use vstd::prelude::*;

use crate::errors::PokerError;
use crate::state::{push_hand_result, GameStatus, GameType, HandResult, PokerEscrow};

verus! {

/// A payout is accepted exactly when the arbiter calls it on an active game,
/// the winner is seated, the amount is covered by the pot, the hand result
/// is well formed, and the hand counter can still advance.
pub open spec fn distribute_allowed(
    escrow: PokerEscrow,
    caller: u64,
    winner: u64,
    amount: u64,
    hand_rank: u8,
    hand_description: Seq<char>,
) -> bool {
    &&& caller == escrow.game_server
    &&& escrow.status == GameStatus::Active
    &&& escrow.spec_has_player(winner)
    &&& amount <= escrow.total_pot
    &&& hand_rank <= 9
    &&& 1 <= hand_description.len() <= 32
    &&& escrow.total_hands_played < u32::MAX
}

/// Pay `amount` from the pot to `winner` and record the settled hand.
///
/// On success the caller owes the winner a transfer of `amount` out of the
/// record's custody; the bookkeeping here and that transfer form one atomic
/// unit. The settled hand is appended to the audit ring (evicting the oldest
/// entry once the ring is full) and the hand counters advance. What follows
/// depends on the game mode:
///
/// - `SingleHand`: the record completes unconditionally; the remaining
///   custody goes back to the arbiter when the record is reclaimed, so the
///   pot reads zero.
/// - `Tournament` / `CashGame`: the dealer button advances one seat; the
///   record completes only once the pot is empty, and otherwise stays active
///   for the next hand.
///
/// On any rejection the record is unchanged.
pub fn handler(
    escrow: &mut PokerEscrow,
    caller: u64,
    winner: u64,
    amount: u64,
    hand_rank: u8,
    hand_description: String,
    now: i64,
) -> (r: Result<(), PokerError>)
    requires
        old(escrow).wf(),
    ensures
        final(escrow).wf(),
        r is Ok <==> distribute_allowed(
            *old(escrow),
            caller,
            winner,
            amount,
            hand_rank,
            hand_description@,
        ),
        r == Err::<(), PokerError>(PokerError::UnauthorizedGameServer) <==> caller != old(
            escrow,
        ).game_server,
        r == Err::<(), PokerError>(PokerError::GameNotActive) <==> {
            &&& caller == old(escrow).game_server
            &&& old(escrow).status != GameStatus::Active
        },
        r == Err::<(), PokerError>(PokerError::PlayerNotInGame) <==> {
            &&& caller == old(escrow).game_server
            &&& old(escrow).status == GameStatus::Active
            &&& !old(escrow).spec_has_player(winner)
        },
        r == Err::<(), PokerError>(PokerError::PayoutMismatch) <==> {
            &&& caller == old(escrow).game_server
            &&& old(escrow).status == GameStatus::Active
            &&& old(escrow).spec_has_player(winner)
            &&& amount > old(escrow).total_pot
        },
        r == Err::<(), PokerError>(PokerError::InvalidHandResult) <==> {
            &&& caller == old(escrow).game_server
            &&& old(escrow).status == GameStatus::Active
            &&& old(escrow).spec_has_player(winner)
            &&& amount <= old(escrow).total_pot
            &&& !(hand_rank <= 9 && 1 <= hand_description@.len() <= 32)
        },
        r == Err::<(), PokerError>(PokerError::MathOverflow) <==> {
            &&& caller == old(escrow).game_server
            &&& old(escrow).status == GameStatus::Active
            &&& old(escrow).spec_has_player(winner)
            &&& amount <= old(escrow).total_pot
            &&& hand_rank <= 9 && 1 <= hand_description@.len() <= 32
            &&& old(escrow).total_hands_played == u32::MAX
        },
        r is Err ==> *final(escrow) == *old(escrow),
        r is Ok ==> {
            &&& final(escrow).hand_results@ == push_hand_result(
                old(escrow).hand_results@,
                (HandResult { winner, hand_rank, hand_description, winning_amount: amount }),
            )
            &&& final(escrow).hand_results@.len() >= 1
            &&& final(escrow).hand_results@.last() == (HandResult {
                winner,
                hand_rank,
                hand_description,
                winning_amount: amount,
            })
            &&& final(escrow).total_hands_played == old(escrow).total_hands_played + 1
            &&& final(escrow).completed_at == Some(now)
            &&& final(escrow).same_config(*old(escrow))
            &&& final(escrow).players@ == old(escrow).players@
            &&& final(escrow).current_players == old(escrow).current_players
            &&& final(escrow).hand_identifier@ == old(escrow).hand_identifier@
            &&& final(escrow).started_at == old(escrow).started_at
            &&& final(escrow).hand_number == old(escrow).hand_number
            &&& (old(escrow).game_type == GameType::SingleHand ==> {
                &&& final(escrow).status == GameStatus::Completed
                &&& final(escrow).total_pot == 0
                &&& final(escrow).dealer_position == old(escrow).dealer_position
            })
            &&& (old(escrow).game_type != GameType::SingleHand ==> {
                &&& final(escrow).total_pot == old(escrow).total_pot - amount
                &&& final(escrow).dealer_position as int == ((old(escrow).dealer_position as int)
                    + 1) % (old(escrow).current_players as int)
                &&& final(escrow).status == (if old(escrow).total_pot - amount == 0 {
                    GameStatus::Completed
                } else {
                    GameStatus::Active
                })
            })
        },
{
    if caller != escrow.game_server {
        return Err(PokerError::UnauthorizedGameServer);
    }
    if escrow.status != GameStatus::Active {
        return Err(PokerError::GameNotActive);
    }
    if !escrow.has_player(winner) {
        return Err(PokerError::PlayerNotInGame);
    }
    if amount > escrow.total_pot {
        return Err(PokerError::PayoutMismatch);
    }
    if hand_rank > 9 {
        return Err(PokerError::InvalidHandResult);
    }
    let desc_len: usize = hand_description.as_str().unicode_len();
    if desc_len == 0 || desc_len > 32 {
        return Err(PokerError::InvalidHandResult);
    }
    if escrow.total_hands_played == u32::MAX {
        return Err(PokerError::MathOverflow);
    }

    escrow.total_pot = escrow.total_pot - amount;
    match escrow.add_hand_result(winner, hand_rank, hand_description, amount) {
        Ok(()) => (),
        Err(e) => {
            return Err(e);
        },
    }

    match escrow.game_type {
        GameType::SingleHand => {
            match escrow.complete_hand(now) {
                Ok(()) => (),
                Err(e) => {
                    return Err(e);
                },
            }
            // The record is done: it will be reclaimed, and the custody it
            // still holds is swept back to the arbiter with it.
            escrow.status = GameStatus::Completed;
            escrow.total_pot = 0;
        },
        GameType::Tournament | GameType::CashGame => {
            match escrow.complete_hand(now) {
                Ok(()) => (),
                Err(e) => {
                    return Err(e);
                },
            }
            match escrow.rotate_dealer() {
                Ok(()) => (),
                Err(e) => {
                    return Err(e);
                },
            }
            if escrow.total_pot == 0 {
                escrow.status = GameStatus::Completed;
            }
        },
    }
    Ok(())
}

} // verus!
