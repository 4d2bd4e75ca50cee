use vstd::prelude::*;

use crate::errors::PokerError;
use crate::state::{GameStatus, GameType, PokerEscrow};

verus! {

/// A close is accepted exactly when the arbiter calls it on a completed
/// record with an empty pot, in a multi-hand mode. `SingleHand` records
/// close themselves during their one payout and reject this operation.
pub open spec fn close_allowed(escrow: PokerEscrow, caller: u64) -> bool {
    &&& caller == escrow.game_server
    &&& escrow.status == GameStatus::Completed
    &&& escrow.total_pot == 0
    &&& escrow.game_type != GameType::SingleHand
}

/// Approve reclaiming the record's storage.
///
/// The record itself is not changed here: on success the caller releases
/// the storage slot (and any residual custody overhead) back to the arbiter.
pub fn handler(escrow: &PokerEscrow, caller: u64) -> (r: Result<(), PokerError>)
    ensures
        r is Ok <==> close_allowed(*escrow, caller),
        r == Err::<(), PokerError>(PokerError::UnauthorizedGameServer) <==> caller
            != escrow.game_server,
        r == Err::<(), PokerError>(PokerError::GameNotCompleted) <==> {
            &&& caller == escrow.game_server
            &&& escrow.status != GameStatus::Completed
        },
        r == Err::<(), PokerError>(PokerError::PotNotEmpty) <==> {
            &&& caller == escrow.game_server
            &&& escrow.status == GameStatus::Completed
            &&& escrow.total_pot != 0
        },
        r == Err::<(), PokerError>(PokerError::InvalidGameType) <==> {
            &&& caller == escrow.game_server
            &&& escrow.status == GameStatus::Completed
            &&& escrow.total_pot == 0
            &&& escrow.game_type == GameType::SingleHand
        },
{
    if caller != escrow.game_server {
        return Err(PokerError::UnauthorizedGameServer);
    }
    if escrow.status != GameStatus::Completed {
        return Err(PokerError::GameNotCompleted);
    }
    if escrow.total_pot != 0 {
        return Err(PokerError::PotNotEmpty);
    }
    match escrow.game_type {
        GameType::Tournament | GameType::CashGame => Ok(()),
        GameType::SingleHand => Err(PokerError::InvalidGameType),
    }
}

} // verus!
