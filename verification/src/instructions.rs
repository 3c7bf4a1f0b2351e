//! The lifecycle operations. Each one checks its preconditions against the
//! configuration and the round, and only then changes anything: a rejected
//! operation leaves every record as it was.

use vstd::prelude::*;
use crate::errors::JackpotError;
use crate::pubkey::Pubkey;

pub mod claim_reward;
pub mod create_game;
pub mod initialize;
pub mod join_game;
pub mod set_winner;
pub mod transfer_fees;

verus! {

/// A payment to be taken into the vault.
#[derive(Clone, Copy, Debug, PartialEq, Eq)]
pub struct Payment {
    /// The account that pays.
    pub payer: Pubkey,
    /// The amount, in the smallest unit of native value.
    pub lamports: u64,
}

/// A payment to be made out of the vault.
#[derive(Clone, Copy, Debug, PartialEq, Eq)]
pub struct Payout {
    /// The account to be paid.
    pub recipient: Pubkey,
    /// The amount, in the smallest unit of native value.
    pub lamports: u64,
}

/// Whether an operation did what `outcome` prescribes: on success the records
/// are the prescribed ones; on rejection the prescribed reason is returned and
/// the records are as before.
pub open spec fn carried_out<V>(
    outcome: Result<V, JackpotError>,
    before: V,
    after: V,
    result: Result<(), JackpotError>,
) -> bool {
    match outcome {
        Ok(next) => result is Ok && after == next,
        Err(reason) => result == Err::<(), JackpotError>(reason) && after == before,
    }
}

/// Whether an operation that orders a transfer did what `outcome` prescribes: on
/// success the records are the prescribed ones and the prescribed transfer is
/// returned; on rejection the prescribed reason is returned and the records are
/// as before.
pub open spec fn carried_out_with<V, T>(
    outcome: Result<(V, T), JackpotError>,
    before: V,
    after: V,
    result: Result<T, JackpotError>,
) -> bool {
    match outcome {
        Ok((next, transfer)) => result == Ok::<T, JackpotError>(transfer) && after == next,
        Err(reason) => result == Err::<T, JackpotError>(reason) && after == before,
    }
}

} // verus!
