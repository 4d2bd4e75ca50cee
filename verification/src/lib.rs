//! A verified value-custody state machine for multi-party card games.
//!
//! A [`state::PokerEscrow`] record escrows participants' buy-ins, enforces
//! the lifecycle of a game (pending, active, completed, abandoned), and
//! authorizes payouts only under strict invariants: every payout reconciles
//! against the pot, winners must be participants, and transitions follow a
//! fixed order. Each operation either fully succeeds or fails with a typed
//! [`errors::PokerError`] and leaves the record unchanged.
//!
//! The record itself is pure bookkeeping over plain values. The surrounding
//! environment authenticates callers, serializes the operations on one
//! record, supplies the current time, and moves the actual value: wherever
//! an operation succeeds here, the caller performs the matching transfer,
//! and the two together form one atomic unit.

use vstd::prelude::*;

pub mod errors;
pub mod instructions;
pub mod laws;
pub mod state;

pub use instructions::close_game::handler as close_game;
pub use instructions::create_game::handler as create_game;
pub use instructions::distribute_pot::handler as distribute_pot;
pub use instructions::emergency_refund::handler as emergency_refund;
pub use instructions::join_game::handler as join_game;
pub use instructions::start_game::handler as start_game;

use crate::state::{GameStatus, GameType, PokerEscrow};

verus! {

/// A read-only snapshot of a record's public fields, for external display.
#[derive(Clone, Debug)]
pub struct GameInfo {
    pub game_id: u64,
    pub game_type: GameType,
    pub status: GameStatus,
    pub current_players: u8,
    pub max_players: u8,
    pub total_pot: u64,
    pub buy_in: u64,
    pub hand_identifier: String,
    pub hand_number: u32,
    pub dealer_position: u8,
    pub total_hands_played: u32,
}

/// Project a record onto its displayable fields. No side effects, no
/// preconditions: every field of the snapshot equals the record's.
pub fn get_game_info(escrow: &PokerEscrow) -> (info: GameInfo)
    ensures
        info.game_id == escrow.game_id,
        info.game_type == escrow.game_type,
        info.status == escrow.status,
        info.current_players == escrow.current_players,
        info.max_players == escrow.max_players,
        info.total_pot == escrow.total_pot,
        info.buy_in == escrow.buy_in,
        info.hand_identifier@ == escrow.hand_identifier@,
        info.hand_number == escrow.hand_number,
        info.dealer_position == escrow.dealer_position,
        info.total_hands_played == escrow.total_hands_played,
{
    GameInfo {
        game_id: escrow.game_id,
        game_type: escrow.game_type,
        status: escrow.status,
        current_players: escrow.current_players,
        max_players: escrow.max_players,
        total_pot: escrow.total_pot,
        buy_in: escrow.buy_in,
        hand_identifier: escrow.hand_identifier.clone(),
        hand_number: escrow.hand_number,
        dealer_position: escrow.dealer_position,
        total_hands_played: escrow.total_hands_played,
    }
}

} // verus!
