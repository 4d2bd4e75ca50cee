use vstd::prelude::*;

use crate::errors::PokerError;
use crate::state::{GameStatus, PokerEscrow, REFUND_TIMEOUT_SECONDS};

verus! {

/// A refund is accepted exactly when the identity is seated and either the
/// game was abandoned, or it is still pending and the 24-hour join deadline
/// has elapsed.
pub open spec fn refund_allowed(escrow: PokerEscrow, player: u64, now: i64) -> bool {
    &&& escrow.spec_has_player(player)
    &&& (escrow.status == GameStatus::Abandoned || (escrow.status == GameStatus::Pending && now
        - escrow.created_at > REFUND_TIMEOUT_SECONDS))
}

/// Return one participant's deposit from custody and free their seat.
///
/// On success the caller owes the player a transfer of the returned amount
/// out of the record's custody; the bookkeeping here and that transfer form
/// one atomic unit. Exactly the refunded participant's original deposit is
/// returned, and only that participant is removed; each participant refunds
/// independently. On any rejection the record is unchanged.
pub fn handler(escrow: &mut PokerEscrow, player: u64, now: i64) -> (r: Result<u64, PokerError>)
    requires
        old(escrow).wf(),
    ensures
        final(escrow).wf(),
        r is Ok <==> refund_allowed(*old(escrow), player, now),
        r == Err::<u64, PokerError>(PokerError::PlayerNotInGame) <==> !old(escrow).spec_has_player(
            player,
        ),
        r == Err::<u64, PokerError>(PokerError::RefundTimeoutNotReached) <==> {
            &&& old(escrow).spec_has_player(player)
            &&& !refund_allowed(*old(escrow), player, now)
        },
        r is Err ==> *final(escrow) == *old(escrow),
        r matches Ok(refunded) ==> {
            let i = old(escrow).spec_player_index(player);
            &&& 0 <= i < old(escrow).players@.len()
            &&& old(escrow).players@[i].player == player
            &&& refunded == old(escrow).players@[i].amount
            &&& refunded == old(escrow).buy_in
            &&& final(escrow).players@ == old(escrow).players@.remove(i)
            &&& final(escrow).current_players == old(escrow).current_players - 1
            &&& final(escrow).total_pot == old(escrow).total_pot - refunded
            &&& !final(escrow).spec_has_player(player)
            &&& final(escrow).same_config(*old(escrow))
            &&& final(escrow).status == old(escrow).status
            &&& final(escrow).hand_identifier@ == old(escrow).hand_identifier@
            &&& final(escrow).hand_results@ == old(escrow).hand_results@
            &&& final(escrow).started_at == old(escrow).started_at
            &&& final(escrow).completed_at == old(escrow).completed_at
            &&& final(escrow).dealer_position == old(escrow).dealer_position
            &&& final(escrow).hand_number == old(escrow).hand_number
            &&& final(escrow).total_hands_played == old(escrow).total_hands_played
        },
{
    if !escrow.has_player(player) {
        return Err(PokerError::PlayerNotInGame);
    }

    let eligible: bool = match escrow.status {
        GameStatus::Pending => escrow.created_at <= i64::MAX - REFUND_TIMEOUT_SECONDS && now
            > escrow.created_at + REFUND_TIMEOUT_SECONDS,
        GameStatus::Abandoned => true,
        _ => false,
    };
    if !eligible {
        return Err(PokerError::RefundTimeoutNotReached);
    }

    let idx: usize = escrow.find_player_index(player);
    let refund_amount: u64 = escrow.players[idx].amount;

    proof {
        let b = escrow.buy_in as int;
        let c = escrow.current_players as int;
        assert(b * c >= b * 1) by (nonlinear_arith)
            requires
                b >= 0,
                c >= 1,
        ;
    }

    escrow.players.remove(idx);
    escrow.current_players = escrow.current_players - 1;
    escrow.total_pot = escrow.total_pot - refund_amount;

    proof {
        let oldp = old(escrow).players@;
        let newp = escrow.players@;
        assert forall|i: int, j: int| 0 <= i < j < newp.len() implies newp[i].player
            != newp[j].player by {
            let oi = if i < idx as int {
                i
            } else {
                i + 1
            };
            let oj = if j < idx as int {
                j
            } else {
                j + 1
            };
            assert(oldp[oi].player != oldp[oj].player);
        }
        assert forall|i: int| 0 <= i < newp.len() implies (#[trigger] newp[i]).amount == escrow.buy_in by {
            let oi = if i < idx as int {
                i
            } else {
                i + 1
            };
            assert(oldp[oi].amount == escrow.buy_in);
        }
        assert forall|i: int| 0 <= i < newp.len() implies (#[trigger] newp[i]).player != player by {
            let oi = if i < idx as int {
                i
            } else {
                i + 1
            };
            assert(oldp[oi].player != oldp[idx as int].player || oi == idx as int);
        }
        if escrow.before_play() {
            let b = escrow.buy_in as int;
            let c = old(escrow).current_players as int;
            assert(b * c - b == b * (c - 1)) by (nonlinear_arith);
        }
    }

    Ok(refund_amount)
}

} // verus!
