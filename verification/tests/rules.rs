//! The rules of the ledger on concrete values: the reward formula, every
//! refusal, the order of the checks and the properties that hold of every
//! sequence of calls.

use chrysalis::entry;
use chrysalis::reward::{MAX_RATE, RATE_DENOMINATOR, TIME_UNIT};
use chrysalis::{
    Address, ChrysalisContract, ChrysalisContractTrait, Config, Error, Host, Party, Stake, Token,
    Transfer,
};

const ALICE: Address = Address { id: 11 };
const BOB: Address = Address { id: 12 };
const STAKED_TOKEN: Address = Address { id: 21 };
const STETH: Address = Address { id: 22 };

fn host_at(timestamp: u64) -> Host {
    Host { authorized: true, timestamp }
}

fn stranger_at(timestamp: u64) -> Host {
    Host { authorized: false, timestamp }
}

fn configured() -> ChrysalisContract {
    let mut contract = ChrysalisContract::new();
    contract.initialize_contract(STAKED_TOKEN, STETH);
    contract
}

fn position(amount: i128, timestamp: u64) -> Stake {
    Stake::new(amount, timestamp).unwrap()
}

#[test]
fn constants_fix_the_units_of_the_rate() {
    assert_eq!(RATE_DENOMINATOR, 100);
    assert_eq!(MAX_RATE, 100);
    assert_eq!(TIME_UNIT, 1_000_000);
}

#[test]
fn default_position_is_empty() {
    let stake = Stake::default();
    assert_eq!(stake.amount(), 0);
    assert_eq!(stake.timestamp(), 0);
    assert_eq!(Stake::new(0, 0), Some(stake));
}

#[test]
fn position_with_negative_amount_does_not_exist() {
    assert_eq!(Stake::new(-1, 0), None);
    assert_eq!(Stake::new(i128::MIN, 7), None);
    let stake = Stake::new(i128::MAX, u64::MAX).unwrap();
    assert_eq!(stake.amount(), i128::MAX);
    assert_eq!(stake.timestamp(), u64::MAX);
}

#[test]
fn reward_of_five_percent_over_one_time_unit() {
    assert_eq!(position(1000, 0).reward(5, 1_000_000), Ok(50));
}

#[test]
fn reward_is_rounded_down() {
    assert_eq!(position(999, 0).reward(1, 100_000), Ok(0));
    assert_eq!(position(1000, 0).reward(1, 100_000), Ok(1));
    assert_eq!(position(1, 0).reward(1, 99_999_999), Ok(0));
    assert_eq!(position(1, 0).reward(1, 100_000_000), Ok(1));
    assert_eq!(position(123_456_789, 0).reward(7, 987_654_321), Ok(8_535_284_177));
}

#[test]
fn reward_counts_from_the_last_update() {
    assert_eq!(position(1000, 500_000).reward(5, 1_500_000), Ok(50));
    assert_eq!(position(1000, 500_000).reward(5, 2_500_000), Ok(100));
}

#[test]
fn reward_is_zero_without_time_amount_or_rate() {
    assert_eq!(position(1000, 42).reward(5, 42), Ok(0));
    assert_eq!(position(0, 0).reward(100, u64::MAX), Ok(0));
    assert_eq!(position(1000, 0).reward(0, u64::MAX), Ok(0));
}

#[test]
fn reward_is_exact_where_the_plain_product_would_overflow() {
    let big: i128 = 1_000_000_000_000_000_000_000_000_000_000_000_000;
    assert_eq!(position(big, 0).reward(100, 1_000_000), Ok(big));
    assert_eq!(position(i128::MAX, 0).reward(100, 1_000_000), Ok(i128::MAX));
    assert_eq!(position(i128::MAX, 0).reward(1, 100_000_000), Ok(i128::MAX));
    assert_eq!(
        position(300_000_000_000_000_000_000, 0).reward(37, u64::MAX),
        Ok(2_047_588_592_181_760_229_265_000_000_000_000)
    );
}

#[test]
fn reward_beyond_the_range_is_an_overflow() {
    assert_eq!(position(i128::MAX, 0).reward(100, 1_000_001), Err(Error::Overflow));
    assert_eq!(position(i128::MAX, 0).reward(1, 100_000_001), Err(Error::Overflow));
    assert_eq!(position(i128::MAX, 0).reward(100, u64::MAX), Err(Error::Overflow));
}

#[test]
fn clock_before_the_last_update_is_an_overflow() {
    assert_eq!(position(1000, 10).reward(5, 9), Err(Error::Overflow));
    assert_eq!(entry::preview_claim(Some(position(1000, 10)), 5, 9), Err(Error::Overflow));
    let refused = entry::claim(&host_at(9), true, Some(position(1000, 10)), 5);
    assert_eq!(refused, Err(Error::Overflow));
}

#[test]
fn rate_outside_zero_to_hundred_is_invalid() {
    let stake = position(1000, 0);
    assert_eq!(stake.reward(-1, 1_000_000), Err(Error::InvalidRate));
    assert_eq!(stake.reward(101, 1_000_000), Err(Error::InvalidRate));
    assert_eq!(stake.reward(i128::MAX, 1_000_000), Err(Error::InvalidRate));
    assert_eq!(stake.reward(0, 1_000_000), Ok(0));
    assert_eq!(stake.reward(100, 1_000_000), Ok(1000));
    assert_eq!(entry::preview_claim(Some(stake), 101, 1_000_000), Err(Error::InvalidRate));
    let refused = entry::claim(&host_at(1_000_000), true, Some(stake), 101);
    assert_eq!(refused, Err(Error::InvalidRate));
}

#[test]
fn invalid_rate_is_reported_before_the_clock() {
    assert_eq!(position(1000, 10).reward(101, 9), Err(Error::InvalidRate));
}

#[test]
fn credit_adds_and_restarts_the_clock() {
    let stake = position(100, 5).credit(50, 9).unwrap();
    assert_eq!(stake.amount(), 150);
    assert_eq!(stake.timestamp(), 9);
    assert_eq!(position(100, 5).credit(0, 9), Err(Error::InvalidAmount));
    assert_eq!(position(100, 5).credit(-3, 9), Err(Error::InvalidAmount));
    assert_eq!(position(i128::MAX, 5).credit(1, 9), Err(Error::Overflow));
    assert_eq!(position(i128::MAX - 1, 5).credit(1, 9), Stake::new(i128::MAX, 9).ok_or(Error::Overflow));
}

#[test]
fn debit_takes_away_and_keeps_the_clock() {
    let stake = position(100, 5).debit(40).unwrap();
    assert_eq!(stake.amount(), 60);
    assert_eq!(stake.timestamp(), 5);
    assert_eq!(position(100, 5).debit(100), Ok(position(0, 5)));
    assert_eq!(position(100, 5).debit(101), Err(Error::InsufficientStake));
    assert_eq!(position(100, 5).debit(0), Err(Error::InvalidAmount));
    assert_eq!(position(100, 5).debit(-1), Err(Error::InvalidAmount));
}

#[test]
fn settle_credits_the_reward() {
    let (stake, reward) = position(1000, 0).settle(5, 1_000_000).unwrap();
    assert_eq!(reward, 50);
    assert_eq!(stake, position(1050, 1_000_000));
    let (stake, reward) = position(1000, 7).settle(5, 7).unwrap();
    assert_eq!(reward, 0);
    assert_eq!(stake, position(1000, 7));
    // the reward fits, the position with the reward does not
    assert_eq!(position(i128::MAX, 0).settle(1, 100_000_000), Err(Error::Overflow));
    assert_eq!(position(i128::MAX, 0).reward(1, 100_000_000), Ok(i128::MAX));
}

#[test]
fn stake_asks_for_both_transfers_in_order() {
    let receipt = entry::stake(&host_at(3), true, None, 500, Some(1000)).unwrap();
    assert_eq!(receipt.position, position(500, 3));
    assert_eq!(receipt.reward, 0);
    assert_eq!(
        receipt.transfers,
        vec![
            Transfer { token: Token::Staked, from: Party::User, to: Party::Contract, amount: 500 },
            Transfer { token: Token::Reward, from: Party::Contract, to: Party::User, amount: 500 },
        ]
    );
}

#[test]
fn unstake_asks_for_both_transfers_in_order() {
    let receipt = entry::unstake(&host_at(9), true, Some(position(500, 3)), 200).unwrap();
    assert_eq!(receipt.position, position(300, 3));
    assert_eq!(receipt.reward, 0);
    assert_eq!(
        receipt.transfers,
        vec![
            Transfer { token: Token::Reward, from: Party::User, to: Party::Contract, amount: 200 },
            Transfer { token: Token::Staked, from: Party::Contract, to: Party::User, amount: 200 },
        ]
    );
}

#[test]
fn claim_asks_for_one_transfer_of_the_reward() {
    let receipt = entry::claim(&host_at(1_000_000), true, Some(position(1000, 0)), 5).unwrap();
    assert_eq!(receipt.position, position(1050, 1_000_000));
    assert_eq!(receipt.reward, 50);
    assert_eq!(
        receipt.transfers,
        vec![Transfer { token: Token::Reward, from: Party::Contract, to: Party::User, amount: 50 }]
    );
}

#[test]
fn claim_of_nothing_moves_nothing_and_still_advances_the_clock() {
    let receipt = entry::claim(&host_at(10), true, Some(position(1000, 0)), 5).unwrap();
    assert_eq!(receipt.reward, 0);
    assert!(receipt.transfers.is_empty());
    assert_eq!(receipt.position, position(1000, 10));
}

#[test]
fn stake_refusals() {
    let stored = Some(position(100, 0));
    let stake = |host: Host, initialized: bool, amount: i128, balance: Option<i128>| {
        entry::stake(&host, initialized, stored, amount, balance)
    };
    assert_eq!(stake(stranger_at(0), true, 10, Some(10)), Err(Error::Unauthorized));
    assert_eq!(stake(host_at(0), false, 10, Some(10)), Err(Error::NotInitialized));
    assert_eq!(stake(host_at(0), true, 0, Some(10)), Err(Error::InvalidAmount));
    assert_eq!(stake(host_at(0), true, -10, Some(10)), Err(Error::InvalidAmount));
    assert_eq!(stake(host_at(0), true, 10, None), Err(Error::ExternalCallFailed));
    assert_eq!(stake(host_at(0), true, 10, Some(9)), Err(Error::InsufficientBalance));
    assert_eq!(stake(host_at(0), true, 10, Some(-1)), Err(Error::InsufficientBalance));
    let full = Some(position(i128::MAX, 0));
    assert_eq!(
        entry::stake(&host_at(0), true, full, 1, Some(1)),
        Err(Error::Overflow)
    );
    assert!(stake(host_at(0), true, 10, Some(10)).is_ok());
}

#[test]
fn unstake_refusals() {
    let stored = Some(position(100, 0));
    assert_eq!(entry::unstake(&stranger_at(0), true, stored, 10), Err(Error::Unauthorized));
    assert_eq!(entry::unstake(&host_at(0), false, stored, 10), Err(Error::NotInitialized));
    assert_eq!(entry::unstake(&host_at(0), true, stored, 0), Err(Error::InvalidAmount));
    assert_eq!(entry::unstake(&host_at(0), true, stored, -5), Err(Error::InvalidAmount));
    assert_eq!(entry::unstake(&host_at(0), true, stored, 101), Err(Error::InsufficientStake));
    assert_eq!(entry::unstake(&host_at(0), true, None, 1), Err(Error::InsufficientStake));
    assert!(entry::unstake(&host_at(0), true, stored, 100).is_ok());
}

#[test]
fn claim_refusals() {
    let stored = Some(position(100, 0));
    assert_eq!(entry::claim(&stranger_at(5), true, stored, 5), Err(Error::Unauthorized));
    assert_eq!(entry::claim(&host_at(5), false, stored, 5), Err(Error::NotInitialized));
    assert_eq!(entry::claim(&host_at(5), true, stored, -1), Err(Error::InvalidRate));
    let full = Some(position(i128::MAX, 0));
    assert_eq!(entry::claim(&host_at(u64::MAX), true, full, 100), Err(Error::Overflow));
}

#[test]
fn checks_come_in_a_fixed_order() {
    // authorization before everything else
    assert_eq!(entry::stake(&stranger_at(0), false, None, 0, None), Err(Error::Unauthorized));
    assert_eq!(entry::unstake(&stranger_at(0), false, None, 0), Err(Error::Unauthorized));
    assert_eq!(entry::claim(&stranger_at(0), false, None, 101), Err(Error::Unauthorized));
    // then the configuration
    assert_eq!(entry::stake(&host_at(0), false, None, 0, None), Err(Error::NotInitialized));
    assert_eq!(entry::unstake(&host_at(0), false, None, 0), Err(Error::NotInitialized));
    assert_eq!(entry::claim(&host_at(0), false, None, 101), Err(Error::NotInitialized));
    // then the amount, then the token contract's answer
    assert_eq!(entry::stake(&host_at(0), true, None, 0, None), Err(Error::InvalidAmount));
    assert_eq!(entry::stake(&host_at(0), true, None, 1, None), Err(Error::ExternalCallFailed));
}

#[test]
fn preview_needs_neither_authorization_nor_configuration() {
    let contract = ChrysalisContract::new();
    assert_eq!(contract.vclaim(ALICE, 5, 1_000_000), Ok(0));
    assert_eq!(contract.get_stake_amount(ALICE), 0);
    assert_eq!(entry::get_stake(None), 0);
    assert_eq!(entry::get_stake(Some(position(77, 1))), 77);
}

#[test]
fn initialize_stores_the_addresses_and_a_second_call_replaces_them() {
    let mut contract = ChrysalisContract::new();
    assert_eq!(contract.config(), None);
    contract.initialize_contract(STAKED_TOKEN, STETH);
    assert_eq!(
        contract.config(),
        Some(Config { staked_token_address: STAKED_TOKEN, steth_address: STETH })
    );
    contract.stake_eth(&host_at(0), ALICE, 10, Some(10)).unwrap();
    contract.initialize_contract(STETH, STAKED_TOKEN);
    assert_eq!(
        contract.config(),
        Some(Config { staked_token_address: STETH, steth_address: STAKED_TOKEN })
    );
    assert_eq!(contract.get_stake_amount(ALICE), 10);
}

#[test]
fn entry_points_refuse_before_initialization() {
    let mut contract = ChrysalisContract::new();
    assert_eq!(contract.stake_eth(&host_at(0), ALICE, 10, Some(10)), Err(Error::NotInitialized));
    assert_eq!(contract.unstake_eth(&host_at(0), ALICE, 10), Err(Error::NotInitialized));
    assert_eq!(contract.claim(&host_at(0), ALICE, 5), Err(Error::NotInitialized));
    assert_eq!(contract.position(ALICE), None);
}

#[test]
fn unauthorized_calls_change_nothing() {
    let mut contract = configured();
    contract.stake_eth(&host_at(0), ALICE, 100, Some(100)).unwrap();
    assert_eq!(
        contract.stake_eth(&stranger_at(5), ALICE, 10, Some(100)),
        Err(Error::Unauthorized)
    );
    assert_eq!(contract.unstake_eth(&stranger_at(5), ALICE, 10), Err(Error::Unauthorized));
    assert_eq!(contract.claim(&stranger_at(5_000_000), ALICE, 5), Err(Error::Unauthorized));
    assert_eq!(contract.position(ALICE), Some(position(100, 0)));
}

#[test]
fn conservation_over_a_sequence_of_stakes_and_unstakes() {
    let mut contract = configured();
    let mut expected: i128 = 0;
    let calls: [(bool, i128); 8] = [
        (true, 300),
        (true, 200),
        (false, 100),
        (false, 1000),
        (true, 0),
        (false, 400),
        (false, 1),
        (true, 7),
    ];
    for (step, (is_stake, amount)) in calls.iter().enumerate() {
        let host = host_at(step as u64);
        let before = contract.get_stake_amount(ALICE);
        let carried_out = if *is_stake {
            contract.stake_eth(&host, ALICE, *amount, Some(1_000)).is_ok()
        } else {
            contract.unstake_eth(&host, ALICE, *amount).is_ok()
        };
        if carried_out {
            expected += if *is_stake { *amount } else { -*amount };
        } else {
            assert_eq!(contract.get_stake_amount(ALICE), before);
        }
        assert_eq!(contract.get_stake_amount(ALICE), expected);
        assert!(contract.get_stake_amount(ALICE) >= 0);
    }
    assert_eq!(expected, 300 + 200 - 100 - 400 + 7);
    assert_eq!(contract.get_stake_amount(ALICE), 7);
}

#[test]
fn one_user_does_not_touch_another() {
    let mut contract = configured();
    contract.stake_eth(&host_at(1), ALICE, 100, Some(100)).unwrap();
    contract.stake_eth(&host_at(2), BOB, 40, Some(40)).unwrap();
    contract.unstake_eth(&host_at(3), ALICE, 30).unwrap();
    contract.claim(&host_at(4), BOB, 5).unwrap();
    assert_eq!(contract.position(ALICE), Some(position(70, 1)));
    assert_eq!(contract.position(BOB), Some(position(40, 4)));
}

#[test]
fn preview_does_not_shrink_as_time_passes() {
    let mut contract = configured();
    contract.stake_eth(&host_at(100), ALICE, 12_345, Some(12_345)).unwrap();
    let mut last = 0;
    for now in [100, 101, 50_000, 999_999, 1_000_100, 77_000_000, u64::MAX] {
        let reward = contract.vclaim(ALICE, 7, now).unwrap();
        assert!(reward >= last);
        last = reward;
    }
    assert_eq!(contract.vclaim(ALICE, 7, 1_000_100), Ok(864));
}

#[test]
fn second_claim_at_the_same_time_pays_nothing() {
    let mut contract = configured();
    contract.stake_eth(&host_at(0), ALICE, 1000, Some(1000)).unwrap();
    let first = contract.claim(&host_at(1_000_000), ALICE, 5).unwrap();
    assert_eq!(first.reward, 50);
    let second = contract.claim(&host_at(1_000_000), ALICE, 5).unwrap();
    assert_eq!(second.reward, 0);
    assert!(second.transfers.is_empty());
    assert_eq!(second.position, first.position);
    assert_eq!(contract.get_stake_amount(ALICE), 1050);
}

#[test]
fn preview_reads_only_and_repeats_itself() {
    let mut contract = configured();
    contract.stake_eth(&host_at(0), ALICE, 1000, Some(1000)).unwrap();
    let before = contract.get_stake_amount(ALICE);
    let first = contract.vclaim(ALICE, 5, 3_000_000);
    let second = contract.vclaim(ALICE, 5, 3_000_000);
    assert_eq!(first, Ok(150));
    assert_eq!(first, second);
    assert_eq!(contract.get_stake_amount(ALICE), before);
    assert_eq!(contract.position(ALICE), Some(position(1000, 0)));
}

#[test]
fn preview_shows_what_claim_pays() {
    let mut contract = configured();
    contract.stake_eth(&host_at(250), ALICE, 98_765, Some(98_765)).unwrap();
    let preview = contract.vclaim(ALICE, 13, 8_000_000).unwrap();
    let receipt = contract.claim(&host_at(8_000_000), ALICE, 13).unwrap();
    assert_eq!(preview, receipt.reward);
    assert_eq!(preview, 102_712);
}

#[test]
fn stake_then_unstake_everything() {
    let mut contract = configured();
    contract.stake_eth(&host_at(0), ALICE, 500, Some(500)).unwrap();
    contract.unstake_eth(&host_at(1), ALICE, 500).unwrap();
    assert_eq!(contract.get_stake_amount(ALICE), 0);
    for amount in [1, 2, 500, i128::MAX] {
        assert_eq!(
            contract.unstake_eth(&host_at(2), ALICE, amount),
            Err(Error::InsufficientStake)
        );
    }
    assert_eq!(contract.position(ALICE), Some(position(0, 0)));
}

#[test]
fn stake_of_zero_is_refused_and_writes_nothing() {
    let mut contract = configured();
    assert_eq!(contract.stake_eth(&host_at(0), ALICE, 0, Some(1000)), Err(Error::InvalidAmount));
    assert_eq!(contract.position(ALICE), None);
    assert_eq!(contract.get_stake_amount(ALICE), 0);
    contract.stake_eth(&host_at(1), ALICE, 5, Some(1000)).unwrap();
    assert_eq!(contract.stake_eth(&host_at(2), ALICE, 0, Some(1000)), Err(Error::InvalidAmount));
    assert_eq!(contract.position(ALICE), Some(position(5, 1)));
}

#[test]
fn claim_without_a_stake_pays_nothing() {
    let mut contract = configured();
    let receipt = contract.claim(&host_at(9_000_000), ALICE, 5).unwrap();
    assert_eq!(receipt.reward, 0);
    assert!(receipt.transfers.is_empty());
    assert_eq!(contract.get_stake_amount(ALICE), 0);
}

#[test]
fn stake_restarts_the_accrual_clock_and_unstake_does_not() {
    let mut contract = configured();
    contract.stake_eth(&host_at(10), ALICE, 100, Some(1000)).unwrap();
    contract.stake_eth(&host_at(20), ALICE, 100, Some(900)).unwrap();
    assert_eq!(contract.position(ALICE), Some(position(200, 20)));
    contract.unstake_eth(&host_at(30), ALICE, 50).unwrap();
    assert_eq!(contract.position(ALICE), Some(position(150, 20)));
}

#[test]
fn stake_needs_the_balance_it_locks() {
    let mut contract = configured();
    assert_eq!(
        contract.stake_eth(&host_at(0), ALICE, 1001, Some(1000)),
        Err(Error::InsufficientBalance)
    );
    assert_eq!(
        contract.stake_eth(&host_at(0), ALICE, 1000, None),
        Err(Error::ExternalCallFailed)
    );
    assert!(contract.stake_eth(&host_at(0), ALICE, 1000, Some(1000)).is_ok());
    assert_eq!(contract.get_stake_amount(ALICE), 1000);
}
