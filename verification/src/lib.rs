//! A pooled-wager jackpot engine: participants deposit into a shared round, one
//! depositor wins with probability proportional to their stake, the winner is
//! paid the pool minus a platform fee, and the fee is swept to a treasury.
//!
//! The operations below are the engine's whole interface. Each works on the
//! records it is handed and returns what the caller has to move in or out of the
//! vault; moving it is the caller's part.

use vstd::prelude::*;
use crate::errors::JackpotError;
use crate::instructions::claim_reward::ClaimReward;
use crate::instructions::create_game::CreateGame;
use crate::instructions::join_game::JoinGame;
use crate::instructions::set_winner::SetWinner;
use crate::instructions::transfer_fees::TransferFees;
use crate::instructions::{carried_out, carried_out_with, Payment, Payout};
use crate::pubkey::Pubkey;
use crate::state::config::{Config, ConfigInput};
use crate::utils::is_draw;

pub mod constants;
pub mod errors;
pub mod instructions;
pub mod lifecycle;
pub mod pubkey;
pub mod state;
pub mod utils;

verus! {

/// Sets the engine up for `admin`: see [`instructions::initialize::handler`].
pub fn initialize(admin: Pubkey, input: ConfigInput) -> (result: Result<Config, JackpotError>)
    ensures
        input.platform_fee > constants::BASIS_POINTS ==> result == Err::<Config, JackpotError>(
            JackpotError::InvalidFee,
        ),
        input.platform_fee <= constants::BASIS_POINTS ==> result == Ok::<Config, JackpotError>(
            Config::initial(admin, input),
        ),
        result matches Ok(config) ==> config.well_formed(),
{
    instructions::initialize::handler(admin, input)
}

/// Opens round `round_index`: see [`instructions::create_game::outcome`].
pub fn create_game(ctx: &mut CreateGame, round_index: u64) -> (result: Result<(), JackpotError>)
    ensures
        carried_out(
            instructions::create_game::outcome(old(ctx)@, round_index),
            old(ctx)@,
            final(ctx)@,
            result,
        ),
        result is Ok ==> final(ctx)@.round_acc.well_formed(),
        old(ctx).config.well_formed() ==> final(ctx).config.well_formed(),
{
    instructions::create_game::handler(ctx, round_index)
}

/// Deposits `amount` into round `round_index`: see
/// [`instructions::join_game::outcome`].
pub fn join_game(ctx: &mut JoinGame, round_index: u64, amount: u64) -> (result: Result<
    Payment,
    JackpotError,
>)
    ensures
        carried_out_with(
            instructions::join_game::outcome(old(ctx)@, round_index, amount),
            old(ctx)@,
            final(ctx)@,
            result,
        ),
        amount == 0 ==> result == Err::<Payment, JackpotError>(JackpotError::InvalidAmount),
        old(ctx)@.round_acc.accounting_holds() ==> final(ctx)@.round_acc.accounting_holds(),
        old(ctx)@.round_acc.well_formed() ==> final(ctx)@.round_acc.well_formed(),
{
    instructions::join_game::handler(ctx, round_index, amount)
}

/// Selects the winner of round `round_index` from a number drawn from the ledger
/// clock: see [`instructions::set_winner::handler`].
pub fn set_winner(ctx: &mut SetWinner, round_index: u64) -> (result: Result<(), JackpotError>)
    ensures
        match instructions::set_winner::rejection(old(ctx)@, round_index) {
            Some(reason) => {
                &&& result == Err::<(), JackpotError>(reason)
                &&& final(ctx)@ == old(ctx)@
            },
            None => {
                ||| {
                    &&& result == Err::<(), JackpotError>(JackpotError::ClockUnavailable)
                    &&& final(ctx)@ == old(ctx)@
                }
                ||| exists|rand: u64|
                    {
                        &&& is_draw(rand, old(ctx).round_acc.total_amount)
                        &&& #[trigger] carried_out(
                            instructions::set_winner::outcome(old(ctx)@, round_index, rand),
                            old(ctx)@,
                            final(ctx)@,
                            result,
                        )
                    }
            },
        },
        old(ctx)@.round_acc.well_formed() ==> final(ctx)@.round_acc.well_formed(),
{
    instructions::set_winner::handler(ctx, round_index)
}

/// Claims the reward of round `round_index`: see
/// [`instructions::claim_reward::outcome`].
pub fn claim_reward(ctx: &mut ClaimReward, round_index: u64) -> (result: Result<
    Payout,
    JackpotError,
>)
    ensures
        carried_out_with(
            instructions::claim_reward::outcome(old(ctx)@, round_index),
            old(ctx)@,
            final(ctx)@,
            result,
        ),
        old(ctx)@.round_acc.well_formed() ==> final(ctx)@.round_acc.well_formed(),
{
    instructions::claim_reward::handler(ctx, round_index)
}

/// Sweeps the fee of round `round_index`: see
/// [`instructions::transfer_fees::outcome`].
pub fn transfer_fees(ctx: &mut TransferFees, round_index: u64) -> (result: Result<
    Payout,
    JackpotError,
>)
    ensures
        carried_out_with(
            instructions::transfer_fees::outcome(old(ctx)@, round_index),
            old(ctx)@,
            final(ctx)@,
            result,
        ),
        old(ctx)@.round_acc.well_formed() ==> final(ctx)@.round_acc.well_formed(),
        old(ctx).config.well_formed() ==> final(ctx).config.well_formed(),
{
    instructions::transfer_fees::handler(ctx, round_index)
}

} // verus!
