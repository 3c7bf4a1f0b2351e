//! Depositing into the open round.

use vstd::prelude::*;
use crate::errors::{ErrorKind, JackpotError};
use crate::instructions::{carried_out_with, Payment};
use crate::pubkey::Pubkey;
use crate::state::config::Config;
use crate::state::game_round::{lemma_deposit_keeps_accounting, GameRound, GameRoundView};

verus! {

/// The records that a deposit touches.
#[derive(Debug, PartialEq, Eq)]
pub struct JoinGame {
    pub config: Config,
    /// The record of the round joined.
    pub round_acc: GameRound,
    /// The depositor.
    pub user: Pubkey,
}

/// [`JoinGame`] as a mathematical value.
pub struct JoinGameView {
    pub config: Config,
    pub round_acc: GameRoundView,
    pub user: Pubkey,
}

impl Clone for JoinGame {
    fn clone(&self) -> (copy: Self)
        ensures
            copy@ == self@,
    {
        JoinGame {
            config: self.config,
            round_acc: self.round_acc.clone(),
            user: self.user,
        }
    }
}

impl View for JoinGame {
    type V = JoinGameView;

    open spec fn view(&self) -> JoinGameView {
        JoinGameView { config: self.config, round_acc: self.round_acc@, user: self.user }
    }
}

/// What depositing `amount` into round `round_index` comes to. The amount must
/// not be zero; the round must be the current one, not completed and without a
/// winner; it must have room for another deposit; and the new total must fit.
/// The deposit is then recorded after those already made, and the depositor owes
/// the vault the amount.
pub open spec fn outcome(accounts: JoinGameView, round_index: u64, amount: u64) -> Result<
    (JoinGameView, Payment),
    JackpotError,
> {
    if amount == 0 {
        Err(JackpotError::InvalidAmount)
    } else if round_index != accounts.config.round_counter {
        Err(JackpotError::InvalidRoundCounter)
    } else if accounts.config.is_completed {
        Err(JackpotError::RoundAlreadyCompleted)
    } else if accounts.round_acc.winner is Some {
        Err(JackpotError::WinnerAlreadySet)
    } else if accounts.round_acc.deposits.len() >= accounts.config.max_deposits {
        Err(JackpotError::RoundFull)
    } else if accounts.round_acc.total_amount + amount > u64::MAX {
        Err(JackpotError::InvalidAmount)
    } else {
        Ok(
            (
                JoinGameView {
                    round_acc: accounts.round_acc.with_deposit(accounts.user, amount),
                    ..accounts
                },
                Payment { payer: accounts.user, lamports: amount },
            ),
        )
    }
}

/// Deposits `amount` into round `round_index` for `ctx.user`. On success the
/// caller owes the vault the returned payment from the depositor.
pub fn handler(ctx: &mut JoinGame, round_index: u64, amount: u64) -> (result: Result<
    Payment,
    JackpotError,
>)
    ensures
        carried_out_with(outcome(old(ctx)@, round_index, amount), old(ctx)@, final(ctx)@, result),
        amount == 0 ==> result == Err::<Payment, JackpotError>(JackpotError::InvalidAmount),
        old(ctx)@.round_acc.accounting_holds() ==> final(ctx)@.round_acc.accounting_holds(),
        old(ctx)@.round_acc.well_formed() ==> final(ctx)@.round_acc.well_formed(),
{
    if amount == 0 {
        return Err(JackpotError::InvalidAmount);
    }
    if round_index != ctx.config.round_counter {
        return Err(JackpotError::InvalidRoundCounter);
    }
    if ctx.config.is_completed {
        return Err(JackpotError::RoundAlreadyCompleted);
    }
    if ctx.round_acc.winner.is_some() {
        return Err(JackpotError::WinnerAlreadySet);
    }
    if ctx.round_acc.deposits.len() as u64 >= ctx.config.max_deposits {
        return Err(JackpotError::RoundFull);
    }
    if ctx.round_acc.total_amount > u64::MAX - amount {
        return Err(JackpotError::InvalidAmount);
    }
    ctx.round_acc.add_deposit(ctx.user, amount);
    Ok(Payment { payer: ctx.user, lamports: amount })
}

/// A deposit of nothing is refused as invalid, whatever the records hold.
pub proof fn lemma_zero_deposit_is_refused(accounts: JoinGameView, round_index: u64)
    ensures
        outcome(accounts, round_index, 0) == Err::<(JoinGameView, Payment), JackpotError>(
            JackpotError::InvalidAmount,
        ),
        JackpotError::InvalidAmount.kind_of() == ErrorKind::Validation,
{
}

/// One request to deposit.
pub struct JoinRequest {
    pub user: Pubkey,
    pub round_index: u64,
    pub amount: u64,
}

/// The records after a sequence of requests to deposit, each carried out or
/// rejected in turn.
pub open spec fn after_requests(accounts: JoinGameView, requests: Seq<JoinRequest>) -> JoinGameView
    decreases requests.len(),
{
    if requests.len() == 0 {
        accounts
    } else {
        let earlier = after_requests(accounts, requests.drop_last());
        let request = requests.last();
        let asked = JoinGameView { user: request.user, ..earlier };
        match outcome(asked, request.round_index, request.amount) {
            Ok((next, _)) => next,
            Err(_) => asked,
        }
    }
}

/// The accounting invariant: whatever deposits are requested of a round whose
/// total is the sum of its deposits, in whatever order and whether accepted or
/// rejected, the total is still the exact sum of the deposits on record.
pub proof fn lemma_total_is_sum_of_deposits(accounts: JoinGameView, requests: Seq<JoinRequest>)
    requires
        accounts.round_acc.accounting_holds(),
    ensures
        after_requests(accounts, requests).round_acc.accounting_holds(),
    decreases requests.len(),
{
    if requests.len() > 0 {
        lemma_total_is_sum_of_deposits(accounts, requests.drop_last());
        let earlier = after_requests(accounts, requests.drop_last());
        let request = requests.last();
        lemma_deposit_keeps_accounting(earlier.round_acc, request.user, request.amount);
    }
}

} // verus!
