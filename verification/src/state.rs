use vstd::prelude::*;

use crate::errors::PokerError;

verus! {

/// Hard cap on seats at one table; the backing record reserves this much space.
pub const MAX_TABLE_PLAYERS: u8 = 10;

/// Hard cap on retained hand results; older entries are evicted first.
pub const HAND_HISTORY_LIMIT: usize = 10;

/// How long a pending game must sit before its participants may claim an
/// emergency refund: 24 hours, in seconds.
pub const REFUND_TIMEOUT_SECONDS: i64 = 24 * 60 * 60;

/// Lifecycle states of an escrow record.
#[derive(Clone, Copy, Debug, PartialEq, Eq, Structural)]
pub enum GameStatus {
    /// Waiting for players; joins are accepted.
    Pending,
    /// A hand is in progress or has been played; payouts are permitted.
    Active,
    /// Terminal for value movement; the pot has been fully paid out.
    Completed,
    /// Marked abandoned; emergency refunds are available.
    Abandoned,
}

/// Game modes; fixed at creation, they govern what happens after a payout.
#[derive(Clone, Copy, Debug, PartialEq, Eq, Structural)]
pub enum GameType {
    /// One hand per record: the first payout completes and closes the record.
    SingleHand,
    /// Multiple hands; the record stays active until the pot is empty.
    Tournament,
    /// Continuous play; the record stays active until the pot is empty.
    CashGame,
}

/// One participant's escrowed deposit.
#[derive(Clone, Copy, Debug, PartialEq, Eq, Structural)]
pub struct PlayerDeposit {
    /// Identity of the depositor.
    pub player: u64,
    /// Amount held in custody for this seat; always equals the table's buy-in.
    pub amount: u64,
    /// When the deposit was made.
    pub timestamp: i64,
}

/// One settled hand, kept in the bounded audit ring.
#[derive(Clone, Debug)]
pub struct HandResult {
    /// Identity the payout went to.
    pub winner: u64,
    /// Poker rank of the winning hand, 0 (high card) through 9 (royal flush).
    pub hand_rank: u8,
    /// Short description of the winning hand, 1 to 32 characters.
    pub hand_description: String,
    /// Amount paid out for this hand.
    pub winning_amount: u64,
}

/// The escrow record: the sole persistent entity, one instance per game.
///
/// It holds the table configuration fixed at creation, the participants'
/// deposits, the running pot, and a bounded audit trail of settled hands.
/// All mutation goes through the lifecycle operations, each of which
/// preserves [`PokerEscrow::wf`].
#[derive(Clone, Debug)]
pub struct PokerEscrow {
    /// Unique game identifier; immutable after creation.
    pub game_id: u64,
    /// Identity authorized to start hands, trigger payouts and close the
    /// record; immutable after creation.
    pub game_server: u64,
    /// Required buy-in per player; immutable after creation, always positive.
    pub buy_in: u64,
    /// Value currently held in custody for this table.
    pub total_pot: u64,
    /// Fewest players needed to start; at least 2.
    pub min_players: u8,
    /// Most players allowed to join; at most [`MAX_TABLE_PLAYERS`].
    pub max_players: u8,
    /// Number of seated participants; always equals `players.len()`.
    pub current_players: u8,
    /// Current lifecycle state.
    pub status: GameStatus,
    /// Game mode; immutable after creation.
    pub game_type: GameType,
    /// Label of the hand in progress, 1 to 64 characters.
    pub hand_identifier: String,
    /// Participants' deposits, in join order; identities are unique.
    pub players: Vec<PlayerDeposit>,
    /// The most recent settled hands, oldest first, at most
    /// [`HAND_HISTORY_LIMIT`] entries.
    pub hand_results: Vec<HandResult>,
    /// When the record was created.
    pub created_at: i64,
    /// When the first hand was started, if any.
    pub started_at: Option<i64>,
    /// When the most recent hand was settled, if any.
    pub completed_at: Option<i64>,
    /// Index of the dealer button among `players`.
    pub dealer_position: u8,
    /// Hands started so far.
    pub hand_number: u32,
    /// Hands settled so far.
    pub total_hands_played: u32,
}

impl PokerEscrow {
    /// No two seats are held by the same identity.
    pub open spec fn players_unique(self) -> bool {
        forall|i: int, j: int|
            0 <= i < j < self.players@.len() ==> self.players@[i].player != self.players@[j].player
    }

    /// The identity holds a seat at this table.
    pub open spec fn spec_has_player(self, player: u64) -> bool {
        exists|i: int| 0 <= i < self.players@.len() && self.players@[i].player == player
    }

    /// The index of the identity's seat; meaningful only when
    /// [`PokerEscrow::spec_has_player`] holds, and then unique because
    /// identities are.
    pub open spec fn spec_player_index(self, player: u64) -> int {
        choose|i: int| 0 <= i < self.players@.len() && self.players@[i].player == player
    }

    /// The record is still collecting or returning deposits: no hand has been
    /// played and the pot reconciles against the seated buy-ins.
    pub open spec fn before_play(self) -> bool {
        self.status == GameStatus::Pending || self.status == GameStatus::Abandoned
    }

    /// Well-formedness of the record: established at creation and preserved
    /// by every lifecycle operation.
    pub open spec fn wf(self) -> bool {
        &&& 2 <= self.min_players
        &&& self.min_players <= self.max_players
        &&& self.max_players <= MAX_TABLE_PLAYERS
        &&& self.buy_in > 0
        &&& self.current_players as int == self.players@.len()
        &&& self.players@.len() <= self.max_players as int
        &&& self.players_unique()
        &&& forall|i: int|
            0 <= i < self.players@.len() ==> (#[trigger] self.players@[i]).amount == self.buy_in
        &&& self.hand_results@.len() <= HAND_HISTORY_LIMIT as int
        &&& forall|i: int|
            0 <= i < self.hand_results@.len() ==> {
                &&& (#[trigger] self.hand_results@[i]).hand_rank <= 9
                &&& 1 <= self.hand_results@[i].hand_description@.len() <= 32
            }
        &&& 1 <= self.hand_identifier@.len() <= 64
        &&& self.current_players > 0 ==> (self.dealer_position as int) < self.current_players as int
        &&& self.current_players == 0 ==> self.dealer_position == 0
        &&& self.before_play() ==> {
            &&& self.total_pot as int == self.buy_in as int * self.current_players as int
            &&& self.hand_number == 0
            &&& self.total_hands_played == 0
            &&& self.hand_results@.len() == 0
            &&& self.dealer_position == 0
            &&& self.started_at is None
            &&& self.completed_at is None
        }
    }

    /// The fields fixed at creation are the same in both records.
    pub open spec fn same_config(self, other: PokerEscrow) -> bool {
        &&& self.game_id == other.game_id
        &&& self.game_server == other.game_server
        &&& self.buy_in == other.buy_in
        &&& self.min_players == other.min_players
        &&& self.max_players == other.max_players
        &&& self.game_type == other.game_type
        &&& self.created_at == other.created_at
    }

    /// Check whether the identity already holds a seat.
    pub fn has_player(&self, player: u64) -> (r: bool)
        ensures
            r == self.spec_has_player(player),
    {
        let n: usize = self.players.len();
        let mut i: usize = 0;
        while i < n
            invariant
                n == self.players@.len(),
                i <= n,
                forall|j: int| 0 <= j < i ==> self.players@[j].player != player,
            decreases n - i,
        {
            if self.players[i].player == player {
                assert(self.spec_has_player(player)) by {
                    assert(0 <= i < self.players@.len() && self.players@[i as int].player == player);
                }
                return true;
            }
            i = i + 1;
        }
        false
    }

    /// Check whether the game may start: still pending, with enough players.
    pub fn can_start(&self) -> (r: bool)
        ensures
            r == (self.status == GameStatus::Pending
                && self.current_players >= self.min_players),
    {
        self.status == GameStatus::Pending && self.current_players >= self.min_players
    }

    /// Check whether the table holds its maximum number of players.
    pub fn is_full(&self) -> (r: bool)
        ensures
            r == (self.current_players >= self.max_players),
    {
        self.current_players >= self.max_players
    }

    /// Seat a new participant and take the deposit into custody.
    ///
    /// Succeeds exactly when the table is not full, the identity is not
    /// seated yet, the deposit equals the buy-in, and the pot can absorb it.
    /// On any rejection the record is unchanged.
    pub fn add_player(&mut self, player: u64, amount: u64, now: i64) -> (r: Result<
        (),
        PokerError,
    >)
        requires
            old(self).wf(),
        ensures
            final(self).wf(),
            r is Ok <==> {
                &&& old(self).players@.len() < old(self).max_players as int
                &&& !old(self).spec_has_player(player)
                &&& amount == old(self).buy_in
                &&& old(self).total_pot + amount <= u64::MAX
            },
            r == Err::<(), PokerError>(PokerError::GameFull) <==> old(self).players@.len()
                >= old(self).max_players as int,
            r == Err::<(), PokerError>(PokerError::PlayerAlreadyJoined) <==> {
                &&& old(self).players@.len() < old(self).max_players as int
                &&& old(self).spec_has_player(player)
            },
            r == Err::<(), PokerError>(PokerError::IncorrectBuyIn) <==> {
                &&& old(self).players@.len() < old(self).max_players as int
                &&& !old(self).spec_has_player(player)
                &&& amount != old(self).buy_in
            },
            r == Err::<(), PokerError>(PokerError::MathOverflow) <==> {
                &&& old(self).players@.len() < old(self).max_players as int
                &&& !old(self).spec_has_player(player)
                &&& amount == old(self).buy_in
                &&& old(self).total_pot + amount > u64::MAX
            },
            r is Err ==> *final(self) == *old(self),
            r is Ok ==> {
                &&& final(self).players@ == old(self).players@.push(
                    (PlayerDeposit { player, amount, timestamp: now }),
                )
                &&& final(self).current_players == old(self).current_players + 1
                &&& final(self).total_pot == old(self).total_pot + amount
                &&& final(self).same_config(*old(self))
                &&& final(self).status == old(self).status
                &&& final(self).hand_identifier@ == old(self).hand_identifier@
                &&& final(self).hand_results@ == old(self).hand_results@
                &&& final(self).started_at == old(self).started_at
                &&& final(self).completed_at == old(self).completed_at
                &&& final(self).dealer_position == old(self).dealer_position
                &&& final(self).hand_number == old(self).hand_number
                &&& final(self).total_hands_played == old(self).total_hands_played
            },
    {
        if self.is_full() {
            return Err(PokerError::GameFull);
        }
        if self.has_player(player) {
            return Err(PokerError::PlayerAlreadyJoined);
        }
        if amount != self.buy_in {
            return Err(PokerError::IncorrectBuyIn);
        }
        if amount > u64::MAX - self.total_pot {
            return Err(PokerError::MathOverflow);
        }

        self.players.push(PlayerDeposit { player, amount, timestamp: now });
        self.current_players = self.current_players + 1;
        self.total_pot = self.total_pot + amount;

        proof {
            let oldp = old(self).players@;
            assert forall|i: int, j: int|
                0 <= i < j < self.players@.len() implies self.players@[i].player
                != self.players@[j].player by {
                if j < oldp.len() {
                    assert(old(self).players_unique());
                } else {
                    assert(self.players@[j].player == player);
                    assert(!(0 <= i < oldp.len() && oldp[i].player == player));
                }
            }
            if self.before_play() {
                let b = old(self).buy_in as int;
                let c = old(self).current_players as int;
                assert(b * (c + 1) == b * c + b) by (nonlinear_arith);
            }
        }
        Ok(())
    }

    /// Append a settled hand to the audit ring, evicting the oldest entry
    /// once the ring holds [`HAND_HISTORY_LIMIT`] results.
    ///
    /// Succeeds exactly when the rank is at most 9 and the description has
    /// 1 to 32 characters; on rejection the record is unchanged.
    pub fn add_hand_result(
        &mut self,
        winner: u64,
        hand_rank: u8,
        hand_description: String,
        amount: u64,
    ) -> (r: Result<(), PokerError>)
        requires
            old(self).hand_results@.len() <= HAND_HISTORY_LIMIT as int,
        ensures
            r is Ok <==> (hand_rank <= 9 && 1 <= hand_description@.len() <= 32),
            r is Err ==> r == Err::<(), PokerError>(PokerError::InvalidHandResult)
                && *final(self) == *old(self),
            r is Ok ==> {
                &&& final(self).hand_results@ == push_hand_result(
                    old(self).hand_results@,
                    (HandResult { winner, hand_rank, hand_description, winning_amount: amount }),
                )
                &&& final(self).hand_results@.len() <= HAND_HISTORY_LIMIT as int
                &&& final(self).same_config(*old(self))
                &&& final(self).total_pot == old(self).total_pot
                &&& final(self).current_players == old(self).current_players
                &&& final(self).status == old(self).status
                &&& final(self).hand_identifier@ == old(self).hand_identifier@
                &&& final(self).players@ == old(self).players@
                &&& final(self).started_at == old(self).started_at
                &&& final(self).completed_at == old(self).completed_at
                &&& final(self).dealer_position == old(self).dealer_position
                &&& final(self).hand_number == old(self).hand_number
                &&& final(self).total_hands_played == old(self).total_hands_played
            },
    {
        if hand_rank > 9 {
            return Err(PokerError::InvalidHandResult);
        }
        let desc_len: usize = hand_description.as_str().unicode_len();
        if desc_len == 0 || desc_len > 32 {
            return Err(PokerError::InvalidHandResult);
        }

        if self.hand_results.len() >= HAND_HISTORY_LIMIT {
            self.hand_results.remove(0);
        }
        self.hand_results.push(
            HandResult { winner, hand_rank, hand_description, winning_amount: amount },
        );
        Ok(())
    }

    /// Begin the next hand under the supplied label.
    pub fn start_new_hand(&mut self, hand_id: String) -> (r: Result<(), PokerError>)
        requires
            old(self).hand_number < u32::MAX,
        ensures
            r is Ok,
            final(self).hand_number == old(self).hand_number + 1,
            final(self).hand_identifier@ == hand_id@,
            final(self).same_config(*old(self)),
            final(self).total_pot == old(self).total_pot,
            final(self).current_players == old(self).current_players,
            final(self).status == old(self).status,
            final(self).players@ == old(self).players@,
            final(self).hand_results@ == old(self).hand_results@,
            final(self).started_at == old(self).started_at,
            final(self).completed_at == old(self).completed_at,
            final(self).dealer_position == old(self).dealer_position,
            final(self).total_hands_played == old(self).total_hands_played,
    {
        self.hand_number = self.hand_number + 1;
        self.hand_identifier = hand_id;
        Ok(())
    }

    /// Record that the current hand has been settled.
    pub fn complete_hand(&mut self, now: i64) -> (r: Result<(), PokerError>)
        requires
            old(self).total_hands_played < u32::MAX,
        ensures
            r is Ok,
            final(self).total_hands_played == old(self).total_hands_played + 1,
            final(self).completed_at == Some(now),
            final(self).same_config(*old(self)),
            final(self).total_pot == old(self).total_pot,
            final(self).current_players == old(self).current_players,
            final(self).status == old(self).status,
            final(self).hand_identifier@ == old(self).hand_identifier@,
            final(self).players@ == old(self).players@,
            final(self).hand_results@ == old(self).hand_results@,
            final(self).started_at == old(self).started_at,
            final(self).dealer_position == old(self).dealer_position,
            final(self).hand_number == old(self).hand_number,
    {
        self.total_hands_played = self.total_hands_played + 1;
        self.completed_at = Some(now);
        Ok(())
    }

    /// Advance the dealer button by one seat, wrapping around the table;
    /// a no-op at an empty table.
    pub fn rotate_dealer(&mut self) -> (r: Result<(), PokerError>)
        requires
            old(self).current_players > 0 ==> (old(self).dealer_position as int) < old(
                self,
            ).current_players as int,
        ensures
            r is Ok,
            final(self).dealer_position == if old(self).current_players > 0 {
                (((old(self).dealer_position as int) + 1) % (old(self).current_players as int)) as u8
            } else {
                old(self).dealer_position
            },
            final(self).same_config(*old(self)),
            final(self).total_pot == old(self).total_pot,
            final(self).current_players == old(self).current_players,
            final(self).status == old(self).status,
            final(self).hand_identifier@ == old(self).hand_identifier@,
            final(self).players@ == old(self).players@,
            final(self).hand_results@ == old(self).hand_results@,
            final(self).started_at == old(self).started_at,
            final(self).completed_at == old(self).completed_at,
            final(self).hand_number == old(self).hand_number,
            final(self).total_hands_played == old(self).total_hands_played,
    {
        if self.current_players > 0 {
            self.dealer_position = (self.dealer_position + 1) % self.current_players;
        }
        Ok(())
    }

    /// The index of the seat held by `player`, which must be seated.
    pub(crate) fn find_player_index(&self, player: u64) -> (idx: usize)
        requires
            self.spec_has_player(player),
            self.players_unique(),
        ensures
            idx < self.players@.len(),
            self.players@[idx as int].player == player,
            idx as int == self.spec_player_index(player),
    {
        let n: usize = self.players.len();
        let mut i: usize = 0;
        while self.players[i].player != player
            invariant
                self.spec_has_player(player),
                n == self.players@.len(),
                i < n,
                forall|j: int| 0 <= j < i ==> self.players@[j].player != player,
            decreases n - i,
        {
            proof {
                let w = choose|k: int|
                    0 <= k < self.players@.len() && self.players@[k].player == player;
                assert(self.players@[w].player == player);
                assert(w > i);
            }
            i = i + 1;
        }
        proof {
            let c = self.spec_player_index(player);
            assert(0 <= c < self.players@.len() && self.players@[c].player == player);
            if c < i as int {
                assert(self.players@[c].player != player);
            }
            if c > i as int {
                assert(self.players@[i as int].player != self.players@[c].player);
            }
        }
        i
    }

    /// The seat the dealer button would move to next.
    pub fn get_next_dealer(&self) -> (r: u8)
        requires
            self.current_players > 0 ==> (self.dealer_position as int)
                < self.current_players as int,
        ensures
            r == if self.current_players > 0 {
                (((self.dealer_position as int) + 1) % (self.current_players as int)) as u8
            } else {
                0u8
            },
    {
        if self.current_players > 0 {
            (self.dealer_position + 1) % self.current_players
        } else {
            0
        }
    }
}

/// The audit ring after appending one settled hand: a plain append while the
/// ring is short of [`HAND_HISTORY_LIMIT`], and an eviction of the oldest
/// entry once it is full.
pub open spec fn push_hand_result(h: Seq<HandResult>, e: HandResult) -> Seq<HandResult> {
    if h.len() < HAND_HISTORY_LIMIT as int {
        h.push(e)
    } else {
        h.subrange(1, h.len() as int).push(e)
    }
}

} // verus!
