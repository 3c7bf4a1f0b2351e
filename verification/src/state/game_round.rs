//! The round ledger: the deposits of one round, their running total, and the
//! winner once one is selected.

use vstd::prelude::*;
use vstd::set_lib::{lemma_int_range, set_int_range};
use crate::errors::JackpotError;
use crate::pubkey::Pubkey;

verus! {

/// One deposit: who made it and how much it was.
#[derive(Clone, Copy, Debug, PartialEq, Eq)]
pub struct DepositInfo {
    pub user: Pubkey,
    pub amount: u64,
}

/// The record of one round.
#[derive(Debug, PartialEq, Eq)]
pub struct GameRound {
    /// The deposits, in the order they were made.
    pub deposits: Vec<DepositInfo>,
    /// The sum of the deposited amounts.
    pub total_amount: u64,
    /// The winner, once selected.
    pub winner: Option<Pubkey>,
    /// The position of the winning deposit in `deposits`.
    pub winner_index: u64,
    /// The amount of the winning deposit.
    pub winner_deposit_amount: u64,
    /// When the round started. Kept for time-boxed rounds: it is cleared when a
    /// round is created, and no operation reads it.
    pub started_at: i64,
    /// When the round ends. Kept for time-boxed rounds, as `started_at` is.
    pub ends_at: i64,
    /// Whether the round has expired. No operation sets it.
    pub is_expired: bool,
    /// The random value from which the winner was picked.
    pub rand: u64,
    /// Whether the winner's reward has been paid out.
    pub reward_claimed: bool,
}

/// A round as a mathematical value.
pub struct GameRoundView {
    pub deposits: Seq<DepositInfo>,
    pub total_amount: nat,
    pub winner: Option<Pubkey>,
    pub winner_index: nat,
    pub winner_deposit_amount: nat,
    pub started_at: int,
    pub ends_at: int,
    pub is_expired: bool,
    pub rand: nat,
    pub reward_claimed: bool,
}

impl View for GameRound {
    type V = GameRoundView;

    open spec fn view(&self) -> GameRoundView {
        GameRoundView {
            deposits: self.deposits@,
            total_amount: self.total_amount as nat,
            winner: self.winner,
            winner_index: self.winner_index as nat,
            winner_deposit_amount: self.winner_deposit_amount as nat,
            started_at: self.started_at as int,
            ends_at: self.ends_at as int,
            is_expired: self.is_expired,
            rand: self.rand as nat,
            reward_claimed: self.reward_claimed,
        }
    }
}

impl Clone for GameRound {
    fn clone(&self) -> (copy: Self)
        ensures
            copy@ == self@,
    {
        let mut deposits: Vec<DepositInfo> = Vec::new();
        let mut index: usize = 0;
        while index < self.deposits.len()
            invariant
                index <= self.deposits.len(),
                deposits@ == self.deposits@.take(index as int),
            decreases self.deposits.len() - index,
        {
            deposits.push(self.deposits[index]);
            index = index + 1;
            assert(deposits@ =~= self.deposits@.take(index as int));
        }
        assert(deposits@ =~= self.deposits@);
        GameRound {
            deposits,
            total_amount: self.total_amount,
            winner: self.winner,
            winner_index: self.winner_index,
            winner_deposit_amount: self.winner_deposit_amount,
            started_at: self.started_at,
            ends_at: self.ends_at,
            is_expired: self.is_expired,
            rand: self.rand,
            reward_claimed: self.reward_claimed,
        }
    }
}

/// The sum of the amounts of a sequence of deposits.
pub open spec fn sum_amounts(deposits: Seq<DepositInfo>) -> nat
    decreases deposits.len(),
{
    if deposits.len() == 0 {
        0
    } else {
        sum_amounts(deposits.drop_last()) + deposits.last().amount as nat
    }
}

/// The stake deposited before entry `index`: where that entry's interval of
/// winning picks begins.
pub open spec fn stake_before(deposits: Seq<DepositInfo>, index: int) -> nat {
    sum_amounts(deposits.take(index))
}

/// Whether `pick` falls in the interval of entry `index`: at or above the stake
/// deposited before it, and less than that stake plus its own amount.
pub open spec fn owns_pick(deposits: Seq<DepositInfo>, index: int, pick: nat) -> bool {
    &&& 0 <= index < deposits.len()
    &&& stake_before(deposits, index) <= pick
    &&& pick < stake_before(deposits, index) + deposits[index].amount
}

/// The entry whose interval holds `pick`, where there is one.
pub open spec fn winning_index(deposits: Seq<DepositInfo>, pick: nat) -> int {
    choose|index: int| owns_pick(deposits, index, pick)
}

impl GameRoundView {
    /// A round as created: no deposits, nothing in the pool, no winner.
    pub open spec fn fresh() -> GameRoundView {
        GameRoundView {
            deposits: Seq::empty(),
            total_amount: 0,
            winner: None,
            winner_index: 0,
            winner_deposit_amount: 0,
            started_at: 0,
            ends_at: 0,
            is_expired: false,
            rand: 0,
            reward_claimed: false,
        }
    }

    /// The accounting invariant: the recorded total is the sum of the deposits.
    pub open spec fn accounting_holds(self) -> bool {
        self.total_amount == sum_amounts(self.deposits)
    }

    /// Where a winner is recorded, it is the entry at the recorded position, with
    /// the recorded amount.
    pub open spec fn winner_on_record(self) -> bool {
        self.winner matches Some(key) ==> {
            &&& self.winner_index < self.deposits.len()
            &&& self.deposits[self.winner_index as int].user == key
            &&& self.deposits[self.winner_index as int].amount == self.winner_deposit_amount
        }
    }

    /// What holds of every round that the operations have made: the total is the
    /// sum of the deposits, the winner is one of the depositors, and no reward is
    /// paid without a winner.
    pub open spec fn well_formed(self) -> bool {
        &&& self.accounting_holds()
        &&& self.winner_on_record()
        &&& self.reward_claimed ==> self.winner is Some
    }

    /// The round with one more deposit at the end.
    pub open spec fn with_deposit(self, user: Pubkey, amount: u64) -> GameRoundView {
        GameRoundView {
            deposits: self.deposits.push(DepositInfo { user, amount }),
            total_amount: self.total_amount + amount as nat,
            ..self
        }
    }

    /// The round with entry `index` recorded as the winner picked from `rand`.
    pub open spec fn with_winner(self, index: int, rand: u64) -> GameRoundView {
        GameRoundView {
            winner: Some(self.deposits[index].user),
            winner_index: index as nat,
            winner_deposit_amount: self.deposits[index].amount as nat,
            rand: rand as nat,
            ..self
        }
    }

    /// The pick that `rand` reduces to: its remainder by the pool total.
    pub open spec fn pick_of(self, rand: u64) -> nat {
        rand as nat % self.total_amount
    }

    /// What selecting a winner from `rand` comes to: the round with its winner
    /// recorded, or the reason there is none.
    pub open spec fn selection(self, rand: u64) -> Result<GameRoundView, JackpotError> {
        if self.winner is Some {
            Err(JackpotError::WinnerAlreadySet)
        } else if self.total_amount == 0 {
            Err(JackpotError::InvalidAmount)
        } else if self.pick_of(rand) >= sum_amounts(self.deposits) {
            Err(JackpotError::InconsistentLedger)
        } else {
            Ok(self.with_winner(winning_index(self.deposits, self.pick_of(rand)), rand))
        }
    }
}

impl GameRound {
    /// A round as created: no deposits, nothing in the pool, no winner.
    pub fn new() -> (round: GameRound)
        ensures
            round@ == GameRoundView::fresh(),
            round@.well_formed(),
    {
        GameRound {
            deposits: Vec::new(),
            total_amount: 0,
            winner: None,
            winner_index: 0,
            winner_deposit_amount: 0,
            started_at: 0,
            ends_at: 0,
            is_expired: false,
            rand: 0,
            reward_claimed: false,
        }
    }

    /// Records a deposit of `amount` by `user` after those already made, and adds
    /// it to the total. The new total must fit the total's type.
    pub fn add_deposit(&mut self, user: Pubkey, amount: u64)
        requires
            old(self).total_amount + amount <= u64::MAX,
        ensures
            final(self)@ == old(self)@.with_deposit(user, amount),
            old(self)@.accounting_holds() ==> final(self)@.accounting_holds(),
            old(self)@.well_formed() ==> final(self)@.well_formed(),
    {
        proof {
            if self@.accounting_holds() {
                lemma_deposit_keeps_accounting(self@, user, amount);
            }
        }
        self.deposits.push(DepositInfo { user, amount });
        self.total_amount = self.total_amount + amount;
    }

    /// Picks the winner from `rand`: the pick is `rand` modulo the total, and the
    /// winner is the entry whose interval of cumulative stake holds the pick. The
    /// winner, its position, its amount and `rand` are recorded together. Nothing
    /// is recorded where a winner is already set, where the pool is empty, or where
    /// the pick lies beyond the deposits on record.
    pub fn select_winner(&mut self, rand: u64) -> (result: Result<(), JackpotError>)
        ensures
            match old(self)@.selection(rand) {
                Ok(selected) => {
                    &&& result is Ok
                    &&& final(self)@ == selected
                },
                Err(reason) => {
                    &&& result == Err::<(), JackpotError>(reason)
                    &&& final(self)@ == old(self)@
                },
            },
            result is Ok ==> owns_pick(
                old(self)@.deposits,
                final(self)@.winner_index as int,
                old(self)@.pick_of(rand),
            ),
            old(self)@.well_formed() ==> final(self)@.well_formed(),
    {
        if self.winner.is_some() {
            return Err(JackpotError::WinnerAlreadySet);
        }
        if self.total_amount == 0 {
            return Err(JackpotError::InvalidAmount);
        }
        let pick: u64 = rand % self.total_amount;
        match owner_of_pick(&self.deposits, pick) {
            Some(index) => {
                proof {
                    lemma_pick_has_owner(self.deposits@, pick as nat);
                    lemma_pick_has_one_owner(
                        self.deposits@,
                        pick as nat,
                        index as int,
                        winning_index(self.deposits@, pick as nat),
                    );
                }
                let entry = self.deposits[index];
                self.winner = Some(entry.user);
                self.winner_deposit_amount = entry.amount;
                self.winner_index = index as u64;
                self.rand = rand;
                Ok(())
            },
            None => Err(JackpotError::InconsistentLedger),
        }
    }
}

/// Walks the deposits in order, taking each amount off the pick until the pick is
/// less than the amount of the entry reached.
fn owner_of_pick(deposits: &Vec<DepositInfo>, pick: u64) -> (owner: Option<usize>)
    ensures
        match owner {
            Some(index) => owns_pick(deposits@, index as int, pick as nat),
            None => pick >= sum_amounts(deposits@),
        },
{
    let mut left: u64 = pick;
    let mut index: usize = 0;
    proof {
        lemma_stake_before_ends(deposits@);
    }
    while index < deposits.len()
        invariant
            index <= deposits.len(),
            left + stake_before(deposits@, index as int) == pick,
        decreases deposits.len() - index,
    {
        let entry = deposits[index];
        proof {
            lemma_stake_before_step(deposits@, index as int);
        }
        if left < entry.amount {
            return Some(index);
        }
        left = left - entry.amount;
        index = index + 1;
    }
    None
}

/// Recording a deposit keeps the total equal to the sum of the deposits.
pub proof fn lemma_deposit_keeps_accounting(round: GameRoundView, user: Pubkey, amount: u64)
    requires
        round.accounting_holds(),
    ensures
        round.with_deposit(user, amount).accounting_holds(),
{
    let added = round.deposits.push(DepositInfo { user, amount });
    assert(added.drop_last() =~= round.deposits);
}

/// Selection never picks an entry whose interval does not hold the pick: the
/// recorded winner is the one entry whose interval of cumulative stake holds the
/// pick, and its depositor and amount are recorded with it.
pub proof fn lemma_selected_entry_owns_pick(round: GameRoundView, rand: u64)
    ensures
        round.selection(rand) matches Ok(selected) ==> {
            let index = selected.winner_index as int;
            &&& owns_pick(round.deposits, index, round.pick_of(rand))
            &&& selected.winner == Some(round.deposits[index].user)
            &&& selected.winner_deposit_amount == round.deposits[index].amount
            &&& forall|other: int| #[trigger]
                owns_pick(round.deposits, other, round.pick_of(rand)) ==> other == index
        },
{
    if round.selection(rand) is Ok {
        let pick = round.pick_of(rand);
        let index = winning_index(round.deposits, pick);
        lemma_pick_has_owner(round.deposits, pick);
        assert forall|other: int| #[trigger] owns_pick(round.deposits, other, pick) implies other
            == index by {
            lemma_pick_has_one_owner(round.deposits, pick, other, index);
        }
    }
}

/// A winner is selected at most once: after a selection has succeeded, every
/// further selection is refused because the winner is already set.
pub proof fn lemma_selection_is_not_repeated(round: GameRoundView, first: u64, second: u64)
    ensures
        round.selection(first) matches Ok(selected) ==> selected.winner is Some
            && selected.selection(second) == Err::<GameRoundView, JackpotError>(
            JackpotError::WinnerAlreadySet,
        ),
{
}

/// A round whose total is the sum of its deposits, with something in the pool
/// and no winner yet, always yields a winner.
pub proof fn lemma_selection_succeeds(round: GameRoundView, rand: u64)
    requires
        round.accounting_holds(),
        round.total_amount > 0,
        round.winner is None,
    ensures
        round.selection(rand) is Ok,
{
}

/// The picks that select entry `index`.
pub open spec fn picks_of(deposits: Seq<DepositInfo>, index: int) -> Set<int> {
    Set::new(|pick: int| 0 <= pick && owns_pick(deposits, index, pick as nat))
}

/// An entry's share of the picks is its share of the pool: exactly as many picks
/// select an entry as its amount, and each of them is below the sum of the
/// deposits.
pub proof fn lemma_entry_is_picked_by_its_amount(deposits: Seq<DepositInfo>, index: int)
    requires
        0 <= index < deposits.len(),
    ensures
        picks_of(deposits, index).finite(),
        picks_of(deposits, index).len() == deposits[index].amount,
        forall|pick: int| #[trigger]
            picks_of(deposits, index).contains(pick) ==> 0 <= pick < sum_amounts(deposits),
{
    let low = stake_before(deposits, index) as int;
    let high = low + deposits[index].amount;
    assert(picks_of(deposits, index) =~= set_int_range(low, high));
    lemma_int_range(low, high);
    lemma_stake_before_step(deposits, index);
    lemma_stake_before_grows(deposits, index + 1, deposits.len() as int);
    lemma_stake_before_ends(deposits);
}

/// A prefix of the deposits holds no more than all of them.
pub proof fn lemma_stake_before_grows(deposits: Seq<DepositInfo>, i: int, j: int)
    requires
        0 <= i <= j <= deposits.len(),
    ensures
        stake_before(deposits, i) <= stake_before(deposits, j),
    decreases j - i,
{
    if i < j {
        lemma_stake_before_grows(deposits, i, j - 1);
        lemma_stake_before_step(deposits, j - 1);
    }
}

/// The stake before the next entry is the stake before this one plus its amount.
pub proof fn lemma_stake_before_step(deposits: Seq<DepositInfo>, i: int)
    requires
        0 <= i < deposits.len(),
    ensures
        stake_before(deposits, i + 1) == stake_before(deposits, i) + deposits[i].amount,
{
    assert(deposits.take(i + 1).drop_last() =~= deposits.take(i));
    assert(deposits.take(i + 1).last() == deposits[i]);
}

/// No stake comes before the first entry, and all of it before the end.
pub proof fn lemma_stake_before_ends(deposits: Seq<DepositInfo>)
    ensures
        stake_before(deposits, 0) == 0,
        stake_before(deposits, deposits.len() as int) == sum_amounts(deposits),
{
    assert(deposits.take(0).len() == 0);
    assert(deposits.take(deposits.len() as int) =~= deposits);
}

/// No pick lies in the intervals of two entries: the winner is determined by the
/// deposits and the pick alone.
pub proof fn lemma_pick_has_one_owner(deposits: Seq<DepositInfo>, pick: nat, i: int, j: int)
    requires
        owns_pick(deposits, i, pick),
        owns_pick(deposits, j, pick),
    ensures
        i == j,
{
    if i < j {
        lemma_stake_before_step(deposits, i);
        lemma_stake_before_grows(deposits, i + 1, j);
    } else if j < i {
        lemma_stake_before_step(deposits, j);
        lemma_stake_before_grows(deposits, j + 1, i);
    }
}

/// Every pick below the sum of the deposits lies in the interval of some entry,
/// and no pick at or above it lies in any.
pub proof fn lemma_pick_has_owner(deposits: Seq<DepositInfo>, pick: nat)
    ensures
        pick < sum_amounts(deposits) <==> exists|index: int| owns_pick(deposits, index, pick),
        pick < sum_amounts(deposits) ==> owns_pick(
            deposits,
            winning_index(deposits, pick),
            pick,
        ),
    decreases deposits.len(),
{
    if exists|index: int| owns_pick(deposits, index, pick) {
        let index = choose|index: int| owns_pick(deposits, index, pick);
        lemma_stake_before_step(deposits, index);
        lemma_stake_before_grows(deposits, index + 1, deposits.len() as int);
        lemma_stake_before_ends(deposits);
    }
    if pick < sum_amounts(deposits) {
        let last = deposits.len() - 1;
        lemma_stake_before_step(deposits, last);
        lemma_stake_before_ends(deposits);
        if pick >= stake_before(deposits, last) {
            assert(owns_pick(deposits, last, pick));
        } else {
            let front = deposits.drop_last();
            assert(front =~= deposits.take(last));
            lemma_pick_has_owner(front, pick);
            let index = choose|index: int| owns_pick(front, index, pick);
            assert(front.take(index) =~= deposits.take(index));
            assert(owns_pick(deposits, index, pick));
        }
    }
}

} // verus!
