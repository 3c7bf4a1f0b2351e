//! Why an operation was rejected.

use vstd::prelude::*;

verus! {

/// The broad classes of rejection.
#[derive(Clone, Copy, Debug, PartialEq, Eq, Structural)]
pub enum ErrorKind {
    /// The caller is not who the operation requires.
    Authorization,
    /// The operation does not fit the round's place in its lifecycle.
    Sequencing,
    /// An amount or rate is not acceptable.
    Validation,
    /// A reward was asked for before a winner exists.
    WinnerUnset,
    /// The round cannot hold another deposit.
    Capacity,
    /// The records or the host contradict what the engine relies on.
    Fault,
}

/// The reason an operation was rejected. A rejected operation changes nothing.
#[derive(Clone, Copy, Debug, PartialEq, Eq, Structural)]
pub enum JackpotError {
    /// The signer is not the administrator.
    InvalidAuthority,
    /// The account to be paid is not the recorded winner.
    NotWinner,
    /// The round index is not the one the operation must target.
    InvalidRoundCounter,
    /// The round has already run its course, or the index is out of sequence.
    RoundAlreadyCompleted,
    /// A winner has already been selected for the round.
    WinnerAlreadySet,
    /// The winner's reward has already been paid.
    RewardAlreadyClaimed,
    /// The fee cannot be swept before the winner's reward is paid.
    RewardNotClaimed,
    /// The amount is zero, the pool is empty, or the arithmetic would not fit.
    InvalidAmount,
    /// The fee rate is above one hundred percent.
    InvalidFee,
    /// No winner has been selected yet.
    WinnerNotSet,
    /// The round already holds as many deposits as it may.
    RoundFull,
    /// The recorded total disagrees with the recorded deposits.
    InconsistentLedger,
    /// The host could not supply the ledger clock.
    ClockUnavailable,
}

impl JackpotError {
    /// The class each rejection belongs to.
    pub open spec fn kind_of(self) -> ErrorKind {
        match self {
            JackpotError::InvalidAuthority | JackpotError::NotWinner => ErrorKind::Authorization,
            JackpotError::InvalidRoundCounter
            | JackpotError::RoundAlreadyCompleted
            | JackpotError::WinnerAlreadySet
            | JackpotError::RewardAlreadyClaimed
            | JackpotError::RewardNotClaimed => ErrorKind::Sequencing,
            JackpotError::InvalidAmount | JackpotError::InvalidFee => ErrorKind::Validation,
            JackpotError::WinnerNotSet => ErrorKind::WinnerUnset,
            JackpotError::RoundFull => ErrorKind::Capacity,
            JackpotError::InconsistentLedger | JackpotError::ClockUnavailable => ErrorKind::Fault,
        }
    }

    /// The class this rejection belongs to.
    pub fn kind(&self) -> (kind: ErrorKind)
        ensures
            kind == self.kind_of(),
    {
        match self {
            JackpotError::InvalidAuthority | JackpotError::NotWinner => ErrorKind::Authorization,
            JackpotError::InvalidRoundCounter
            | JackpotError::RoundAlreadyCompleted
            | JackpotError::WinnerAlreadySet
            | JackpotError::RewardAlreadyClaimed
            | JackpotError::RewardNotClaimed => ErrorKind::Sequencing,
            JackpotError::InvalidAmount | JackpotError::InvalidFee => ErrorKind::Validation,
            JackpotError::WinnerNotSet => ErrorKind::WinnerUnset,
            JackpotError::RoundFull => ErrorKind::Capacity,
            JackpotError::InconsistentLedger | JackpotError::ClockUnavailable => ErrorKind::Fault,
        }
    }
}

} // verus!
