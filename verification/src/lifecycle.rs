//! The phases a round goes through, and how the operations move it from one to
//! the next.

use vstd::prelude::*;
use crate::instructions::claim_reward::ClaimRewardView;
use crate::instructions::create_game::CreateGameView;
use crate::instructions::join_game::JoinGameView;
use crate::instructions::set_winner::SetWinnerView;
use crate::instructions::transfer_fees::TransferFeesView;
use crate::instructions::{claim_reward, create_game, join_game, set_winner, transfer_fees};
use crate::state::config::Config;
use crate::state::game_round::{GameRound, GameRoundView};

verus! {

/// Where the current round stands.
#[derive(Clone, Copy, Debug, PartialEq, Eq, Structural)]
pub enum Phase {
    /// No round has been created yet.
    AwaitingCreation,
    /// The round takes deposits.
    Open,
    /// The round has its winner; the fee is not swept yet.
    WinnerSelected,
    /// The fee is swept: the round is over and the next may be created.
    Completed,
}

/// The phase that the configuration and the record of the current round show.
pub open spec fn phase_of(config: Config, round: GameRoundView) -> Phase {
    if config.is_completed {
        if config.round_counter == 0 {
            Phase::AwaitingCreation
        } else {
            Phase::Completed
        }
    } else if round.winner is None {
        Phase::Open
    } else {
        Phase::WinnerSelected
    }
}

/// The phase that the configuration and the record of the current round show.
pub fn phase(config: &Config, round: &GameRound) -> (phase: Phase)
    ensures
        phase == phase_of(*config, round@),
{
    if config.is_completed {
        if config.round_counter == 0 {
            Phase::AwaitingCreation
        } else {
            Phase::Completed
        }
    } else if round.winner.is_none() {
        Phase::Open
    } else {
        Phase::WinnerSelected
    }
}

/// A round is created only when none is running, and it starts open.
pub proof fn lemma_creation_opens_a_round(accounts: CreateGameView, round_index: u64)
    ensures
        create_game::outcome(accounts, round_index) matches Ok(next) ==> {
            &&& phase_of(accounts.config, accounts.round_acc) != Phase::Open
            &&& phase_of(accounts.config, accounts.round_acc) != Phase::WinnerSelected
            &&& phase_of(next.config, next.round_acc) == Phase::Open
        },
{
}

/// Deposits are taken only by an open round, and leave it open.
pub proof fn lemma_deposits_need_an_open_round(
    accounts: JoinGameView,
    round_index: u64,
    amount: u64,
)
    ensures
        join_game::outcome(accounts, round_index, amount) matches Ok((next, _)) ==> {
            &&& phase_of(accounts.config, accounts.round_acc) == Phase::Open
            &&& phase_of(next.config, next.round_acc) == Phase::Open
        },
{
}

/// A winner is selected only for an open round, which then has its winner.
pub proof fn lemma_selection_closes_the_round(accounts: SetWinnerView, round_index: u64, rand: u64)
    ensures
        set_winner::outcome(accounts, round_index, rand) matches Ok(next) ==> {
            &&& phase_of(accounts.config, accounts.round_acc) == Phase::Open
            &&& phase_of(next.config, next.round_acc) == Phase::WinnerSelected
        },
{
}

/// A reward is paid only for a round that has its winner and is not completed,
/// and paying it does not complete the round.
pub proof fn lemma_reward_needs_a_winner(accounts: ClaimRewardView, round_index: u64)
    ensures
        claim_reward::outcome(accounts, round_index) matches Ok((next, _)) ==> {
            &&& accounts.round_acc.winner is Some
            &&& phase_of(next.config, next.round_acc) == phase_of(
                accounts.config,
                accounts.round_acc,
            )
        },
{
}

/// The fee is swept only from a round that has its winner, and the sweep
/// completes the round.
pub proof fn lemma_sweep_completes_the_round(accounts: TransferFeesView, round_index: u64)
    requires
        accounts.config.well_formed(),
        accounts.round_acc.well_formed(),
    ensures
        transfer_fees::outcome(accounts, round_index) matches Ok((next, _)) ==> {
            &&& phase_of(accounts.config, accounts.round_acc) == Phase::WinnerSelected
            &&& phase_of(next.config, next.round_acc) == Phase::Completed
        },
{
}

} // verus!
