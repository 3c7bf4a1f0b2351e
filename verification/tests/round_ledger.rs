use solbet_jackpot_smart_contract::errors::JackpotError;
use solbet_jackpot_smart_contract::pubkey::Pubkey;
use solbet_jackpot_smart_contract::state::game_round::{DepositInfo, GameRound};

fn key(tag: u8) -> Pubkey {
    Pubkey::new_from_array([tag; 32])
}

fn round_of(amounts: &[u64]) -> GameRound {
    let mut round = GameRound::new();
    for (i, amount) in amounts.iter().enumerate() {
        round.add_deposit(key(i as u8 + 1), *amount);
    }
    round
}

#[test]
fn new_round_is_empty() {
    let round = GameRound::new();
    assert!(round.deposits.is_empty());
    assert_eq!(round.total_amount, 0);
    assert_eq!(round.winner, None);
    assert_eq!(round.winner_index, 0);
    assert_eq!(round.winner_deposit_amount, 0);
    assert_eq!(round.started_at, 0);
    assert_eq!(round.ends_at, 0);
    assert!(!round.is_expired);
    assert_eq!(round.rand, 0);
    assert!(!round.reward_claimed);
}

#[test]
fn add_deposit_appends_in_order_and_adds_to_total() {
    let mut round = GameRound::new();
    round.add_deposit(key(1), 30);
    assert_eq!(round.deposits, vec![DepositInfo { user: key(1), amount: 30 }]);
    assert_eq!(round.total_amount, 30);
    round.add_deposit(key(2), 70);
    assert_eq!(
        round.deposits,
        vec![
            DepositInfo { user: key(1), amount: 30 },
            DepositInfo { user: key(2), amount: 70 },
        ]
    );
    assert_eq!(round.total_amount, 100);
    assert_eq!(round.winner, None);
}

#[test]
fn add_deposit_total_is_sum_of_amounts() {
    let amounts = [5u64, 1, 1_000_000, 42, 7];
    let round = round_of(&amounts);
    let sum: u64 = round.deposits.iter().map(|d| d.amount).sum();
    assert_eq!(round.total_amount, sum);
    assert_eq!(round.total_amount, 1_000_055);
    assert_eq!(round.deposits.len(), 5);
}

#[test]
fn add_deposit_may_fill_the_total_exactly() {
    let mut round = GameRound::new();
    round.add_deposit(key(1), u64::MAX - 1);
    round.add_deposit(key(2), 1);
    assert_eq!(round.total_amount, u64::MAX);
}

#[test]
fn select_winner_pick_45_of_30_and_70_is_second_entry() {
    let mut round = round_of(&[30, 70]);
    assert_eq!(round.select_winner(45), Ok(()));
    assert_eq!(round.winner, Some(key(2)));
    assert_eq!(round.winner_index, 1);
    assert_eq!(round.winner_deposit_amount, 70);
    assert_eq!(round.rand, 45);
    assert_eq!(round.total_amount, 100);
    assert_eq!(round.deposits.len(), 2);
}

#[test]
fn select_winner_reduces_the_random_value_by_the_total() {
    let mut round = round_of(&[30, 70]);
    // 1_000_029 mod 100 = 29, which lies in the first entry's interval [0, 30).
    assert_eq!(round.select_winner(1_000_029), Ok(()));
    assert_eq!(round.winner, Some(key(1)));
    assert_eq!(round.winner_index, 0);
    assert_eq!(round.winner_deposit_amount, 30);
    assert_eq!(round.rand, 1_000_029);
}

#[test]
fn select_winner_interval_boundaries() {
    let cases: [(u64, u64); 6] = [(0, 0), (9, 0), (10, 1), (29, 1), (30, 2), (99, 2)];
    for (pick, index) in cases {
        let mut round = round_of(&[10, 20, 70]);
        assert_eq!(round.select_winner(pick), Ok(()));
        assert_eq!(round.winner_index, index, "pick {}", pick);
        assert_eq!(round.winner, Some(key(index as u8 + 1)));
    }
}

#[test]
fn select_winner_is_reproducible() {
    let mut first = round_of(&[3, 9, 27, 81]);
    let mut second = round_of(&[3, 9, 27, 81]);
    assert_eq!(first.select_winner(0xdead_beef), Ok(()));
    assert_eq!(second.select_winner(0xdead_beef), Ok(()));
    assert_eq!(first, second);
    // 0xdead_beef mod 120 = 119; the intervals are [0,3) [3,12) [12,39) [39,120).
    assert_eq!(first.winner_index, 3);
}

#[test]
fn select_winner_shares_are_proportional_to_amounts() {
    let mut wins = [0u64; 3];
    for pick in 0..100u64 {
        let mut round = round_of(&[10, 20, 70]);
        assert_eq!(round.select_winner(pick), Ok(()));
        wins[round.winner_index as usize] += 1;
    }
    assert_eq!(wins, [10, 20, 70]);
}

#[test]
fn select_winner_frequencies_over_many_draws() {
    // A fixed multiplicative generator stands in for the random source.
    let mut state: u64 = 0x9e37_79b9_7f4a_7c15;
    let mut wins = [0u64; 3];
    let draws = 30_000u64;
    for _ in 0..draws {
        state = state
            .wrapping_mul(6364136223846793005)
            .wrapping_add(1442695040888963407);
        let mut round = round_of(&[10, 20, 70]);
        assert_eq!(round.select_winner(state >> 11), Ok(()));
        wins[round.winner_index as usize] += 1;
    }
    let share = |n: u64| n as f64 / draws as f64;
    assert!((share(wins[0]) - 0.10).abs() < 0.01);
    assert!((share(wins[1]) - 0.20).abs() < 0.01);
    assert!((share(wins[2]) - 0.70).abs() < 0.01);
}

#[test]
fn select_winner_skips_empty_deposits() {
    let mut round = round_of(&[0, 5, 0, 5]);
    assert_eq!(round.select_winner(5), Ok(()));
    assert_eq!(round.winner_index, 3);
    let mut round = round_of(&[0, 5, 0, 5]);
    assert_eq!(round.select_winner(0), Ok(()));
    assert_eq!(round.winner_index, 1);
}

#[test]
fn select_winner_twice_fails_and_keeps_the_winner() {
    let mut round = round_of(&[30, 70]);
    assert_eq!(round.select_winner(45), Ok(()));
    let decided = round.clone();
    assert_eq!(round.select_winner(7), Err(JackpotError::WinnerAlreadySet));
    assert_eq!(round, decided);
    assert_eq!(round.winner, Some(key(2)));
    assert_eq!(round.rand, 45);
}

#[test]
fn select_winner_on_empty_pool_fails_and_changes_nothing() {
    let mut round = GameRound::new();
    assert_eq!(round.select_winner(12), Err(JackpotError::InvalidAmount));
    assert_eq!(round, GameRound::new());
}

#[test]
fn select_winner_on_inconsistent_ledger_fails_and_changes_nothing() {
    let mut round = round_of(&[30, 70]);
    round.total_amount = 150;
    let before = round.clone();
    // The pick 120 lies beyond the 100 on record.
    assert_eq!(round.select_winner(120), Err(JackpotError::InconsistentLedger));
    assert_eq!(round, before);
    // A pick within the deposits on record still finds its owner.
    assert_eq!(round.select_winner(45), Ok(()));
    assert_eq!(round.winner_index, 1);
}
