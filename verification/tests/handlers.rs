use solbet_jackpot_smart_contract::errors::JackpotError;
use solbet_jackpot_smart_contract::instructions::claim_reward::ClaimReward;
use solbet_jackpot_smart_contract::instructions::create_game::CreateGame;
use solbet_jackpot_smart_contract::instructions::join_game::JoinGame;
use solbet_jackpot_smart_contract::instructions::set_winner::SetWinner;
use solbet_jackpot_smart_contract::instructions::transfer_fees::TransferFees;
use solbet_jackpot_smart_contract::instructions::{
    claim_reward, create_game, initialize, join_game, set_winner, transfer_fees, Payment, Payout,
};
use solbet_jackpot_smart_contract::pubkey::Pubkey;
use solbet_jackpot_smart_contract::state::config::ConfigInput;
use solbet_jackpot_smart_contract::state::game_round::GameRound;

fn key(tag: u8) -> Pubkey {
    Pubkey::new_from_array([tag; 32])
}

#[test]
fn handlers_run_a_round_of_three_depositors() {
    let admin = key(0xad);
    let treasury = key(0x77);
    let input = ConfigInput { platform_fee: 300, team_wallet: treasury, max_deposits: 3 };
    let config = initialize::handler(admin, input).unwrap();

    let mut create = CreateGame { config, round_acc: GameRound::new(), admin };
    assert_eq!(create_game::handler(&mut create, 1), Ok(()));

    let mut join = JoinGame { config: create.config, round_acc: create.round_acc, user: key(1) };
    let stakes: [(u8, u64); 3] = [(1, 10), (2, 20), (3, 70)];
    for (tag, amount) in stakes {
        join.user = key(tag);
        assert_eq!(
            join_game::handler(&mut join, 1, amount),
            Ok(Payment { payer: key(tag), lamports: amount })
        );
    }
    join.user = key(4);
    assert_eq!(join_game::handler(&mut join, 1, 5), Err(JackpotError::RoundFull));
    assert_eq!(join.round_acc.total_amount, 100);

    let mut select = SetWinner { config: join.config, round_acc: join.round_acc, admin };
    // Outside the ledger runtime the clock cannot be read, and nothing changes.
    let before = select.clone();
    assert_eq!(set_winner::handler(&mut select, 1), Err(JackpotError::ClockUnavailable));
    assert_eq!(select, before);
    // 229 mod 100 = 29: the last pick of the second depositor's interval [10, 30).
    assert_eq!(set_winner::handler_with_draw(&mut select, 1, 229), Ok(()));
    assert_eq!(select.round_acc.winner, Some(key(2)));
    assert_eq!(select.round_acc.winner_index, 1);
    assert_eq!(select.round_acc.winner_deposit_amount, 20);
    assert_eq!(select.round_acc.rand, 229);

    let mut claim = ClaimReward {
        config: select.config,
        round_acc: select.round_acc,
        admin,
        winner: key(2),
    };
    assert_eq!(
        claim_reward::handler(&mut claim, 1),
        Ok(Payout { recipient: key(2), lamports: 97 })
    );

    let mut sweep =
        TransferFees { config: claim.config, vault: 3, round_acc: claim.round_acc, admin };
    assert_eq!(
        transfer_fees::handler(&mut sweep, 1),
        Ok(Payout { recipient: treasury, lamports: 3 })
    );
    assert!(sweep.config.is_completed);
    assert_eq!(sweep.vault, 0);
}
