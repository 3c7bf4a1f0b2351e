//! Sweeping the fee to the treasury, which completes the round.

use vstd::prelude::*;
use crate::errors::JackpotError;
use crate::instructions::{carried_out_with, Payout};
use crate::pubkey::Pubkey;
use crate::state::config::Config;
use crate::state::game_round::{GameRound, GameRoundView};

verus! {

/// The records that sweeping the fee touches.
#[derive(Debug, PartialEq, Eq)]
pub struct TransferFees {
    pub config: Config,
    /// What the vault holds.
    pub vault: u64,
    /// The record of the round to be completed.
    pub round_acc: GameRound,
    /// The signer of the request.
    pub admin: Pubkey,
}

/// [`TransferFees`] as a mathematical value.
pub struct TransferFeesView {
    pub config: Config,
    pub vault: u64,
    pub round_acc: GameRoundView,
    pub admin: Pubkey,
}

impl Clone for TransferFees {
    fn clone(&self) -> (copy: Self)
        ensures
            copy@ == self@,
    {
        TransferFees {
            config: self.config,
            vault: self.vault,
            round_acc: self.round_acc.clone(),
            admin: self.admin,
        }
    }
}

impl View for TransferFees {
    type V = TransferFeesView;

    open spec fn view(&self) -> TransferFeesView {
        TransferFeesView {
            config: self.config,
            vault: self.vault,
            round_acc: self.round_acc@,
            admin: self.admin,
        }
    }
}

/// What sweeping the fee of round `round_index` comes to. Only the administrator
/// may sweep; the round must be the current one and not yet completed; and the
/// winner's reward must have been paid, so that the sweep cannot take it. The
/// treasury is then owed all that the vault holds, and the round is completed.
pub open spec fn outcome(accounts: TransferFeesView, round_index: u64) -> Result<
    (TransferFeesView, Payout),
    JackpotError,
> {
    if accounts.admin != accounts.config.admin {
        Err(JackpotError::InvalidAuthority)
    } else if round_index != accounts.config.round_counter {
        Err(JackpotError::InvalidRoundCounter)
    } else if accounts.config.is_completed {
        Err(JackpotError::RoundAlreadyCompleted)
    } else if !accounts.round_acc.reward_claimed {
        Err(JackpotError::RewardNotClaimed)
    } else {
        Ok(
            (
                TransferFeesView {
                    config: Config { is_completed: true, ..accounts.config },
                    vault: 0,
                    ..accounts
                },
                Payout { recipient: accounts.config.team_wallet, lamports: accounts.vault },
            ),
        )
    }
}

/// Sweeps the fee of round `round_index`. On success the caller owes the
/// treasury the returned payment out of the vault.
pub fn handler(ctx: &mut TransferFees, round_index: u64) -> (result: Result<Payout, JackpotError>)
    ensures
        carried_out_with(outcome(old(ctx)@, round_index), old(ctx)@, final(ctx)@, result),
        old(ctx)@.round_acc.well_formed() ==> final(ctx)@.round_acc.well_formed(),
        old(ctx).config.well_formed() ==> final(ctx).config.well_formed(),
{
    if ctx.admin != ctx.config.admin {
        return Err(JackpotError::InvalidAuthority);
    }
    if round_index != ctx.config.round_counter {
        return Err(JackpotError::InvalidRoundCounter);
    }
    if ctx.config.is_completed {
        return Err(JackpotError::RoundAlreadyCompleted);
    }
    if !ctx.round_acc.reward_claimed {
        return Err(JackpotError::RewardNotClaimed);
    }
    let payout = Payout { recipient: ctx.config.team_wallet, lamports: ctx.vault };
    ctx.vault = 0;
    ctx.config.is_completed = true;
    Ok(payout)
}

/// The fee is swept only after the winner's reward is paid, and only once: a
/// sweep succeeds only on a round whose reward is paid, it hands the treasury
/// all that the vault holds, and it completes the round, after which every
/// further sweep is refused.
pub proof fn lemma_sweep_follows_claim(accounts: TransferFeesView, round_index: u64)
    ensures
        outcome(accounts, round_index) matches Ok((swept, payout)) ==> {
            &&& accounts.round_acc.reward_claimed
            &&& payout.recipient == accounts.config.team_wallet
            &&& payout.lamports == accounts.vault
            &&& swept.config.is_completed
            &&& swept.vault == 0
            &&& outcome(swept, round_index) == Err::<(TransferFeesView, Payout), JackpotError>(
                JackpotError::RoundAlreadyCompleted,
            )
        },
{
}

} // verus!
