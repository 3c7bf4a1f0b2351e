//! Paying the winner.

use vstd::prelude::*;
use crate::constants::BASIS_POINTS;
use crate::errors::JackpotError;
use crate::instructions::{carried_out_with, Payout};
use crate::pubkey::Pubkey;
use crate::state::config::Config;
use crate::state::game_round::{GameRound, GameRoundView};

verus! {

/// The records that paying the winner touches.
#[derive(Debug, PartialEq, Eq)]
pub struct ClaimReward {
    pub config: Config,
    /// The record of the round whose reward is claimed.
    pub round_acc: GameRound,
    /// The signer of the request.
    pub admin: Pubkey,
    /// The account put forward to be paid.
    pub winner: Pubkey,
}

/// [`ClaimReward`] as a mathematical value.
pub struct ClaimRewardView {
    pub config: Config,
    pub round_acc: GameRoundView,
    pub admin: Pubkey,
    pub winner: Pubkey,
}

impl Clone for ClaimReward {
    fn clone(&self) -> (copy: Self)
        ensures
            copy@ == self@,
    {
        ClaimReward {
            config: self.config,
            round_acc: self.round_acc.clone(),
            admin: self.admin,
            winner: self.winner,
        }
    }
}

impl View for ClaimReward {
    type V = ClaimRewardView;

    open spec fn view(&self) -> ClaimRewardView {
        ClaimRewardView {
            config: self.config,
            round_acc: self.round_acc@,
            admin: self.admin,
            winner: self.winner,
        }
    }
}

/// The platform's share of a pool of `total` at a rate of `rate` basis points,
/// rounded down.
pub open spec fn platform_fee_of(total: nat, rate: nat) -> nat {
    total * rate / (BASIS_POINTS as nat)
}

/// What the winner is paid from a pool of `total` at a rate of `rate` basis
/// points: the pool less the platform's share.
pub open spec fn reward_of(total: nat, rate: nat) -> int {
    total - platform_fee_of(total, rate)
}

/// What claiming the reward of round `round_index` comes to. Only the
/// administrator may claim; the round must be the current one and have a winner;
/// the account put forward must be that winner; the reward must not have been
/// paid before; the pool must not be empty; and the fee must not exceed the pool.
/// The winner is then owed the pool less the fee, and the round is marked paid.
pub open spec fn outcome(accounts: ClaimRewardView, round_index: u64) -> Result<
    (ClaimRewardView, Payout),
    JackpotError,
> {
    let total = accounts.round_acc.total_amount;
    let rate = accounts.config.platform_fee as nat;
    if accounts.admin != accounts.config.admin {
        Err(JackpotError::InvalidAuthority)
    } else if round_index != accounts.config.round_counter {
        Err(JackpotError::InvalidRoundCounter)
    } else if accounts.round_acc.winner is None {
        Err(JackpotError::WinnerNotSet)
    } else if accounts.round_acc.winner != Some(accounts.winner) {
        Err(JackpotError::NotWinner)
    } else if accounts.round_acc.reward_claimed {
        Err(JackpotError::RewardAlreadyClaimed)
    } else if total == 0 {
        Err(JackpotError::InvalidAmount)
    } else if platform_fee_of(total, rate) > total {
        Err(JackpotError::InvalidAmount)
    } else {
        Ok(
            (
                ClaimRewardView {
                    round_acc: GameRoundView { reward_claimed: true, ..accounts.round_acc },
                    ..accounts
                },
                Payout { recipient: accounts.winner, lamports: reward_of(total, rate) as u64 },
            ),
        )
    }
}

/// Claims the reward of round `round_index`. On success the caller owes the
/// winner the returned payment out of the vault.
pub fn handler(ctx: &mut ClaimReward, round_index: u64) -> (result: Result<Payout, JackpotError>)
    ensures
        carried_out_with(outcome(old(ctx)@, round_index), old(ctx)@, final(ctx)@, result),
        old(ctx)@.round_acc.well_formed() ==> final(ctx)@.round_acc.well_formed(),
{
    if ctx.admin != ctx.config.admin {
        return Err(JackpotError::InvalidAuthority);
    }
    if round_index != ctx.config.round_counter {
        return Err(JackpotError::InvalidRoundCounter);
    }
    let winner_key = match ctx.round_acc.winner {
        Some(key) => key,
        None => {
            return Err(JackpotError::WinnerNotSet);
        },
    };
    if ctx.winner != winner_key {
        return Err(JackpotError::NotWinner);
    }
    if ctx.round_acc.reward_claimed {
        return Err(JackpotError::RewardAlreadyClaimed);
    }
    let total: u64 = ctx.round_acc.total_amount;
    if total == 0 {
        return Err(JackpotError::InvalidAmount);
    }
    let rate: u64 = ctx.config.platform_fee;
    assert(total * rate <= 0xffff_ffff_ffff_ffff * 0xffff_ffff_ffff_ffff) by (nonlinear_arith)
        requires
            total <= 0xffff_ffff_ffff_ffff,
            rate <= 0xffff_ffff_ffff_ffff,
    ;
    let fee: u128 = (total as u128) * (rate as u128) / (BASIS_POINTS as u128);
    if fee > total as u128 {
        return Err(JackpotError::InvalidAmount);
    }
    let reward: u64 = total - (fee as u64);
    ctx.round_acc.reward_claimed = true;
    Ok(Payout { recipient: winner_key, lamports: reward })
}

/// A fee rate of at most the whole pool never takes more than the pool: the
/// winner's reward and the platform's share add up to the pool exactly.
pub proof fn lemma_fee_and_reward_make_the_pool(total: nat, rate: nat)
    requires
        rate <= BASIS_POINTS,
    ensures
        platform_fee_of(total, rate) <= total,
        reward_of(total, rate) + platform_fee_of(total, rate) == total,
        rate == 0 ==> reward_of(total, rate) == total,
{
    assert(total * rate <= total * 10_000) by (nonlinear_arith)
        requires
            rate <= 10_000,
    ;
    assert(total * 0 == 0) by (nonlinear_arith);
}

/// A reward is paid at most once: after a claim has succeeded, every further
/// claim for the same round is refused as out of sequence.
pub proof fn lemma_reward_is_paid_once(accounts: ClaimRewardView, round_index: u64)
    ensures
        outcome(accounts, round_index) matches Ok((paid, _)) ==> {
            &&& paid.round_acc.reward_claimed
            &&& outcome(paid, round_index) == Err::<(ClaimRewardView, Payout), JackpotError>(
                JackpotError::RewardAlreadyClaimed,
            )
        },
{
}

} // verus!
