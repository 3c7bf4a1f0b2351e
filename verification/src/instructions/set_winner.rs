//! Selecting the winner of the open round.

use vstd::prelude::*;
use crate::errors::JackpotError;
use crate::instructions::carried_out;
use crate::pubkey::Pubkey;
use crate::state::config::Config;
use crate::state::game_round::{GameRound, GameRoundView};
use crate::utils::{is_draw, random_mod};

verus! {

/// The records that selecting a winner touches.
#[derive(Debug, PartialEq, Eq)]
pub struct SetWinner {
    pub config: Config,
    /// The record of the round to be decided.
    pub round_acc: GameRound,
    /// The signer of the request.
    pub admin: Pubkey,
}

/// [`SetWinner`] as a mathematical value.
pub struct SetWinnerView {
    pub config: Config,
    pub round_acc: GameRoundView,
    pub admin: Pubkey,
}

impl Clone for SetWinner {
    fn clone(&self) -> (copy: Self)
        ensures
            copy@ == self@,
    {
        SetWinner {
            config: self.config,
            round_acc: self.round_acc.clone(),
            admin: self.admin,
        }
    }
}

impl View for SetWinner {
    type V = SetWinnerView;

    open spec fn view(&self) -> SetWinnerView {
        SetWinnerView { config: self.config, round_acc: self.round_acc@, admin: self.admin }
    }
}

/// Why a winner may not be selected for round `round_index`, if it may not. Only
/// the administrator may select; the round must be the current one, not
/// completed, without a winner, and with something in the pool.
pub open spec fn rejection(accounts: SetWinnerView, round_index: u64) -> Option<JackpotError> {
    if accounts.admin != accounts.config.admin {
        Some(JackpotError::InvalidAuthority)
    } else if round_index != accounts.config.round_counter {
        Some(JackpotError::InvalidRoundCounter)
    } else if accounts.config.is_completed {
        Some(JackpotError::RoundAlreadyCompleted)
    } else if accounts.round_acc.winner is Some {
        Some(JackpotError::WinnerAlreadySet)
    } else if accounts.round_acc.total_amount == 0 {
        Some(JackpotError::InvalidAmount)
    } else {
        None
    }
}

/// What selecting a winner for round `round_index` from the random value `rand`
/// comes to: where the selection is admissible, the round's own selection.
pub open spec fn outcome(accounts: SetWinnerView, round_index: u64, rand: u64) -> Result<
    SetWinnerView,
    JackpotError,
> {
    match rejection(accounts, round_index) {
        Some(reason) => Err(reason),
        None => match accounts.round_acc.selection(rand) {
            Ok(selected) => Ok(SetWinnerView { round_acc: selected, ..accounts }),
            Err(reason) => Err(reason),
        },
    }
}

/// Checks that a winner may be selected for round `round_index`.
fn check(ctx: &SetWinner, round_index: u64) -> (result: Result<(), JackpotError>)
    ensures
        match rejection(ctx@, round_index) {
            Some(reason) => result == Err::<(), JackpotError>(reason),
            None => result is Ok,
        },
{
    if ctx.admin != ctx.config.admin {
        return Err(JackpotError::InvalidAuthority);
    }
    if round_index != ctx.config.round_counter {
        return Err(JackpotError::InvalidRoundCounter);
    }
    if ctx.config.is_completed {
        return Err(JackpotError::RoundAlreadyCompleted);
    }
    if ctx.round_acc.winner.is_some() {
        return Err(JackpotError::WinnerAlreadySet);
    }
    if ctx.round_acc.total_amount == 0 {
        return Err(JackpotError::InvalidAmount);
    }
    Ok(())
}

/// Selects the winner of round `round_index` from the random value `rand`.
pub fn handler_with_draw(ctx: &mut SetWinner, round_index: u64, rand: u64) -> (result: Result<
    (),
    JackpotError,
>)
    ensures
        carried_out(outcome(old(ctx)@, round_index, rand), old(ctx)@, final(ctx)@, result),
        old(ctx)@.round_acc.well_formed() ==> final(ctx)@.round_acc.well_formed(),
{
    match check(ctx, round_index) {
        Ok(()) => ctx.round_acc.select_winner(rand),
        Err(reason) => Err(reason),
    }
}

/// Selects the winner of round `round_index` from a number drawn from the ledger
/// clock. A selection that is not admissible is refused before the clock is
/// read. Otherwise either the host supplies no clock and nothing changes, or the
/// winner is selected from what some reading of the clock draws for the pool.
pub fn handler(ctx: &mut SetWinner, round_index: u64) -> (result: Result<(), JackpotError>)
    ensures
        match rejection(old(ctx)@, round_index) {
            Some(reason) => {
                &&& result == Err::<(), JackpotError>(reason)
                &&& final(ctx)@ == old(ctx)@
            },
            None => {
                ||| {
                    &&& result == Err::<(), JackpotError>(JackpotError::ClockUnavailable)
                    &&& final(ctx)@ == old(ctx)@
                }
                ||| exists|rand: u64|
                    {
                        &&& is_draw(rand, old(ctx).round_acc.total_amount)
                        &&& #[trigger] carried_out(
                            outcome(old(ctx)@, round_index, rand),
                            old(ctx)@,
                            final(ctx)@,
                            result,
                        )
                    }
            },
        },
        old(ctx)@.round_acc.well_formed() ==> final(ctx)@.round_acc.well_formed(),
{
    match check(ctx, round_index) {
        Ok(()) => {},
        Err(reason) => {
            return Err(reason);
        },
    }
    let total: u64 = ctx.round_acc.total_amount;
    match random_mod(total) {
        Ok(rand) => {
            let result = ctx.round_acc.select_winner(rand);
            assert(carried_out(outcome(old(ctx)@, round_index, rand), old(ctx)@, ctx@, result));
            result
        },
        Err(reason) => Err(reason),
    }
}

/// Selecting a winner a second time is refused as out of sequence, whatever the
/// random values: after a selection has succeeded, every further selection for
/// the same round is rejected because the winner is already set.
pub proof fn lemma_winner_is_set_once(
    accounts: SetWinnerView,
    round_index: u64,
    first: u64,
    second: u64,
)
    ensures
        outcome(accounts, round_index, first) matches Ok(selected) ==> outcome(
            selected,
            round_index,
            second,
        ) == Err::<SetWinnerView, JackpotError>(JackpotError::WinnerAlreadySet),
{
}

} // verus!
