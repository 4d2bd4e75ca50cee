use vstd::prelude::*;

verus! {

/// Typed rejection reasons for every escrow operation.
///
/// Every operation validates its preconditions before touching the record;
/// on the first violated precondition it returns one of these variants and
/// leaves the record unchanged.
#[derive(Clone, Copy, Debug, PartialEq, Eq, Structural)]
pub enum PokerError {
    /// The table already holds `max_players` participants.
    GameFull,
    /// The joining identity already has a seat at this table.
    PlayerAlreadyJoined,
    /// The deposited amount does not equal the fixed buy-in.
    IncorrectBuyIn,
    /// The operation needs `status == Pending`.
    GameNotPending,
    /// The operation needs `status == Active`.
    GameNotActive,
    /// Fewer than `min_players` participants have joined.
    NotEnoughPlayers,
    /// The game has already left the `Pending` state.
    GameAlreadyStarted,
    /// The game has already reached the `Completed` state.
    GameAlreadyCompleted,
    /// The caller is not the arbiter recorded at creation.
    UnauthorizedGameServer,
    /// The submitted winner list is malformed.
    InvalidWinnerList,
    /// The requested payout exceeds the pot currently in custody.
    PayoutMismatch,
    /// The identity holds no seat at this table.
    PlayerNotInGame,
    /// The operation needs `status == Abandoned`.
    GameNotAbandoned,
    /// The pending-join deadline has not elapsed yet.
    RefundTimeoutNotReached,
    /// The player bounds violate `2 <= min <= max <= 10`.
    InvalidPlayerCount,
    /// An additive or subtractive update would overflow its counter.
    MathOverflow,
    /// The caller cannot cover the buy-in.
    InsufficientBalance,
    /// The operation is not defined for this game mode.
    InvalidGameType,
    /// The hand label is empty or longer than 64 characters.
    InvalidHandIdentifier,
    /// The current hand was already settled.
    HandAlreadyCompleted,
    /// The hand result is malformed (rank above 9, or a bad description).
    InvalidHandResult,
    /// No further hands may be played on this record.
    MaximumHandsReached,
    /// No hand is in progress.
    HandNotStarted,
    /// The dealer index does not point at a participant.
    InvalidDealerPosition,
    /// The claimed winner could not be verified.
    WinnerVerificationFailed,
    /// The hand-history ring cannot accept the entry.
    HandResultsLimitExceeded,
    /// The operation needs `status == Completed`.
    GameNotCompleted,
    /// The pot must be empty before the record can be closed.
    PotNotEmpty,
}

} // verus!
