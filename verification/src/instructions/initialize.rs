//! Setting the engine up.

use vstd::prelude::*;
use crate::constants::BASIS_POINTS;
use crate::errors::JackpotError;
use crate::pubkey::Pubkey;
use crate::state::config::{Config, ConfigInput};

verus! {

/// Makes the configuration record for `admin`. No round exists yet, and round
/// zero counts as completed, so the first round to be created is round one. A
/// fee rate above the whole pool is refused.
pub fn handler(admin: Pubkey, input: ConfigInput) -> (result: Result<Config, JackpotError>)
    ensures
        input.platform_fee > BASIS_POINTS ==> result == Err::<Config, JackpotError>(
            JackpotError::InvalidFee,
        ),
        input.platform_fee <= BASIS_POINTS ==> result == Ok::<Config, JackpotError>(
            Config::initial(admin, input),
        ),
        result matches Ok(config) ==> config.well_formed(),
{
    if input.platform_fee > BASIS_POINTS {
        return Err(JackpotError::InvalidFee);
    }
    Ok(
        Config {
            admin,
            round_counter: 0,
            is_completed: true,
            platform_fee: input.platform_fee,
            team_wallet: input.team_wallet,
            max_deposits: input.max_deposits,
        },
    )
}

} // verus!
