//! The global configuration: one record for the lifetime of the engine.

use vstd::prelude::*;
use crate::constants::BASIS_POINTS;
use crate::pubkey::Pubkey;

verus! {

/// The singleton configuration record.
#[derive(Clone, Copy, Debug, PartialEq, Eq)]
pub struct Config {
    /// The identity that may drive the lifecycle.
    pub admin: Pubkey,
    /// The index of the active, or most recently created, round.
    pub round_counter: u64,
    /// Whether the round named by `round_counter` has had its fee swept.
    pub is_completed: bool,
    /// The platform's share of the pool, in basis points.
    pub platform_fee: u64,
    /// The treasury that receives swept fees.
    pub team_wallet: Pubkey,
    /// The most deposits one round may hold.
    pub max_deposits: u64,
}

/// What the administrator chooses when the engine is set up.
#[derive(Clone, Copy, Debug, PartialEq, Eq)]
pub struct ConfigInput {
    /// The platform's share of the pool, in basis points.
    pub platform_fee: u64,
    /// The treasury that receives swept fees.
    pub team_wallet: Pubkey,
    /// The most deposits one round may hold.
    pub max_deposits: u64,
}

impl Config {
    /// The fee rate is at most the whole pool.
    pub open spec fn fee_in_range(self) -> bool {
        self.platform_fee <= BASIS_POINTS
    }

    /// What holds of every configuration that the operations have made: the fee
    /// rate is in range, and no running round is numbered zero.
    pub open spec fn well_formed(self) -> bool {
        &&& self.fee_in_range()
        &&& self.round_counter == 0 ==> self.is_completed
    }

    /// The configuration before any round exists: round zero counts as completed,
    /// so that the first round to be created is round one.
    pub open spec fn initial(admin: Pubkey, input: ConfigInput) -> Config {
        Config {
            admin,
            round_counter: 0,
            is_completed: true,
            platform_fee: input.platform_fee,
            team_wallet: input.team_wallet,
            max_deposits: input.max_deposits,
        }
    }
}

} // verus!
