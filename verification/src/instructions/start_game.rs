use vstd::prelude::*;

use crate::errors::PokerError;
use crate::state::{GameStatus, PokerEscrow};

verus! {

/// A start is accepted exactly when the arbiter calls it on a pending game
/// that has gathered enough players, with a valid label if one is supplied.
pub open spec fn start_allowed(
    escrow: PokerEscrow,
    caller: u64,
    hand_identifier: Option<String>,
) -> bool {
    &&& caller == escrow.game_server
    &&& escrow.status == GameStatus::Pending
    &&& escrow.current_players >= escrow.min_players
    &&& match hand_identifier {
        None => true,
        Some(s) => 1 <= s@.len() <= 64,
    }
}

/// Start the first hand: move the game to `Active`, stamp `started_at`,
/// count the hand, and adopt the supplied label if any.
///
/// On any rejection the record is unchanged.
pub fn handler(
    escrow: &mut PokerEscrow,
    caller: u64,
    hand_identifier: Option<String>,
    now: i64,
) -> (r: Result<(), PokerError>)
    requires
        old(escrow).wf(),
    ensures
        final(escrow).wf(),
        r is Ok <==> start_allowed(*old(escrow), caller, hand_identifier),
        r == Err::<(), PokerError>(PokerError::UnauthorizedGameServer) <==> caller != old(
            escrow,
        ).game_server,
        r == Err::<(), PokerError>(PokerError::GameNotPending) <==> {
            &&& caller == old(escrow).game_server
            &&& old(escrow).status != GameStatus::Pending
        },
        r == Err::<(), PokerError>(PokerError::NotEnoughPlayers) <==> {
            &&& caller == old(escrow).game_server
            &&& old(escrow).status == GameStatus::Pending
            &&& old(escrow).current_players < old(escrow).min_players
        },
        r == Err::<(), PokerError>(PokerError::InvalidHandIdentifier) <==> {
            &&& caller == old(escrow).game_server
            &&& old(escrow).status == GameStatus::Pending
            &&& old(escrow).current_players >= old(escrow).min_players
            &&& hand_identifier matches Some(s) && !(1 <= s@.len() <= 64)
        },
        r is Err ==> *final(escrow) == *old(escrow),
        r is Ok ==> {
            &&& final(escrow).status == GameStatus::Active
            &&& final(escrow).started_at == Some(now)
            &&& final(escrow).hand_number == old(escrow).hand_number + 1
            &&& final(escrow).hand_number == 1
            &&& final(escrow).hand_identifier@ == match hand_identifier {
                None => old(escrow).hand_identifier@,
                Some(s) => s@,
            }
            &&& final(escrow).same_config(*old(escrow))
            &&& final(escrow).total_pot == old(escrow).total_pot
            &&& final(escrow).current_players == old(escrow).current_players
            &&& final(escrow).players@ == old(escrow).players@
            &&& final(escrow).hand_results@ == old(escrow).hand_results@
            &&& final(escrow).completed_at == old(escrow).completed_at
            &&& final(escrow).dealer_position == old(escrow).dealer_position
            &&& final(escrow).total_hands_played == old(escrow).total_hands_played
        },
{
    if caller != escrow.game_server {
        return Err(PokerError::UnauthorizedGameServer);
    }
    if escrow.status != GameStatus::Pending {
        return Err(PokerError::GameNotPending);
    }
    if !escrow.can_start() {
        return Err(PokerError::NotEnoughPlayers);
    }
    if let Some(hand_id) = hand_identifier {
        let label_len: usize = hand_id.as_str().unicode_len();
        if label_len == 0 || label_len > 64 {
            return Err(PokerError::InvalidHandIdentifier);
        }
        escrow.hand_identifier = hand_id;
    }

    escrow.status = GameStatus::Active;
    escrow.started_at = Some(now);

    let label: String = escrow.hand_identifier.clone();
    match escrow.start_new_hand(label) {
        Ok(()) => Ok(()),
        Err(e) => Err(e),
    }
}

} // verus!
