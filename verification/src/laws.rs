use vstd::prelude::*;

use crate::instructions::close_game::close_allowed;
use crate::instructions::distribute_pot::distribute_allowed;
use crate::instructions::emergency_refund::refund_allowed;
use crate::instructions::join_game::join_allowed;
use crate::instructions::start_game::start_allowed;
use crate::state::{push_hand_result, GameStatus, GameType, HandResult, PokerEscrow,
    HAND_HISTORY_LIMIT};

verus! {

/// The audit ring is first-in, first-out and bounded: an insertion never
/// grows it past the cap, the inserted entry always becomes the most recent,
/// and an insertion into a full ring evicts exactly the oldest entry,
/// shifting the remaining ones down by one.
pub proof fn lemma_hand_history_fifo(h: Seq<HandResult>, e: HandResult)
    requires
        h.len() <= HAND_HISTORY_LIMIT as int,
    ensures
        push_hand_result(h, e).len() <= HAND_HISTORY_LIMIT as int,
        push_hand_result(h, e).last() == e,
        h.len() < HAND_HISTORY_LIMIT as int ==> push_hand_result(h, e) == h.push(e),
        h.len() == HAND_HISTORY_LIMIT as int ==> {
            &&& push_hand_result(h, e).len() == HAND_HISTORY_LIMIT as int
            &&& forall|i: int|
                0 <= i < HAND_HISTORY_LIMIT as int - 1 ==> push_hand_result(h, e)[i] == h[i + 1]
        },
{
}

/// While a game is collecting players, the pot always reconciles against
/// the seats: after any sequence of joins (and refunds), the value in
/// custody is exactly the buy-in times the number of seated players.
pub proof fn lemma_pending_pot_reconciles(escrow: PokerEscrow)
    requires
        escrow.wf(),
        escrow.status == GameStatus::Pending,
    ensures
        escrow.total_pot as int == (escrow.buy_in as int) * (escrow.current_players as int),
{
}

/// A completed single-hand record is finished for good: no join, start,
/// payout, refund or close is accepted on it, whatever the arguments. Its
/// storage is reclaimed along with its one payout, so any later operation
/// on it can only be answered by "record not found".
pub proof fn lemma_completed_single_hand_rejects_everything(
    escrow: PokerEscrow,
    caller: u64,
    player: u64,
    player_balance: u64,
    winner: u64,
    amount: u64,
    hand_rank: u8,
    hand_description: Seq<char>,
    hand_identifier: Option<String>,
    now: i64,
)
    requires
        escrow.wf(),
        escrow.status == GameStatus::Completed,
        escrow.game_type == GameType::SingleHand,
    ensures
        !join_allowed(escrow, player, player_balance),
        !start_allowed(escrow, caller, hand_identifier),
        !distribute_allowed(escrow, caller, winner, amount, hand_rank, hand_description),
        !refund_allowed(escrow, player, now),
        !close_allowed(escrow, caller),
{
}

} // verus!
