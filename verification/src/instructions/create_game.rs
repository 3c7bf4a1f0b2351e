//! Opening the next round.

use vstd::prelude::*;
use crate::errors::{ErrorKind, JackpotError};
use crate::instructions::carried_out;
use crate::pubkey::Pubkey;
use crate::state::config::Config;
use crate::state::game_round::{GameRound, GameRoundView};

verus! {

/// The records that opening a round touches.
#[derive(Debug, PartialEq, Eq)]
pub struct CreateGame {
    pub config: Config,
    /// The record for the round to be opened.
    pub round_acc: GameRound,
    /// The signer of the request.
    pub admin: Pubkey,
}

/// [`CreateGame`] as a mathematical value.
pub struct CreateGameView {
    pub config: Config,
    pub round_acc: GameRoundView,
    pub admin: Pubkey,
}

impl Clone for CreateGame {
    fn clone(&self) -> (copy: Self)
        ensures
            copy@ == self@,
    {
        CreateGame {
            config: self.config,
            round_acc: self.round_acc.clone(),
            admin: self.admin,
        }
    }
}

impl View for CreateGame {
    type V = CreateGameView;

    open spec fn view(&self) -> CreateGameView {
        CreateGameView { config: self.config, round_acc: self.round_acc@, admin: self.admin }
    }
}

/// What opening round `round_index` comes to. Only the administrator may open a
/// round; the index must be the one after the current round; and the current
/// round must be completed. The new round starts empty.
pub open spec fn outcome(accounts: CreateGameView, round_index: u64) -> Result<
    CreateGameView,
    JackpotError,
> {
    if accounts.admin != accounts.config.admin {
        Err(JackpotError::InvalidAuthority)
    } else if round_index != accounts.config.round_counter + 1 {
        Err(JackpotError::RoundAlreadyCompleted)
    } else if !accounts.config.is_completed {
        Err(JackpotError::InvalidRoundCounter)
    } else {
        Ok(
            CreateGameView {
                config: Config {
                    round_counter: round_index,
                    is_completed: false,
                    ..accounts.config
                },
                round_acc: GameRoundView::fresh(),
                admin: accounts.admin,
            },
        )
    }
}

/// Opens round `round_index`.
pub fn handler(ctx: &mut CreateGame, round_index: u64) -> (result: Result<(), JackpotError>)
    ensures
        carried_out(outcome(old(ctx)@, round_index), old(ctx)@, final(ctx)@, result),
        result is Ok ==> final(ctx)@.round_acc.well_formed(),
        old(ctx).config.well_formed() ==> final(ctx).config.well_formed(),
{
    if ctx.admin != ctx.config.admin {
        return Err(JackpotError::InvalidAuthority);
    }
    if round_index <= ctx.config.round_counter {
        return Err(JackpotError::RoundAlreadyCompleted);
    }
    if round_index > ctx.config.round_counter + 1 {
        return Err(JackpotError::RoundAlreadyCompleted);
    }
    if !ctx.config.is_completed {
        return Err(JackpotError::InvalidRoundCounter);
    }
    ctx.config.round_counter = round_index;
    ctx.config.is_completed = false;
    ctx.round_acc = GameRound::new();
    Ok(())
}

/// A round is opened exactly when the administrator asks for the index after
/// the current one and the current round is completed; the round opened has no
/// deposits, an empty pool and no winner. Asking for any other index, or while
/// the current round is not completed, is a sequencing error.
pub proof fn lemma_rounds_open_in_sequence(accounts: CreateGameView, round_index: u64)
    ensures
        outcome(accounts, round_index) is Ok <==> accounts.admin == accounts.config.admin
            && round_index == accounts.config.round_counter + 1 && accounts.config.is_completed,
        outcome(accounts, round_index) matches Ok(next) ==> next.round_acc.deposits.len() == 0
            && next.round_acc.total_amount == 0 && next.round_acc.winner is None
            && next.round_acc.well_formed() && next.config.round_counter == round_index
            && !next.config.is_completed,
        accounts.admin == accounts.config.admin && (round_index != accounts.config.round_counter
            + 1 || !accounts.config.is_completed) ==> (outcome(accounts, round_index) matches Err(
            reason,
        ) && reason.kind_of() == ErrorKind::Sequencing),
{
}

} // verus!
