use casper_staking::error::{Error, Revert};
use casper_staking::keys::{AccountHash, ContractHash, Key};
use casper_staking::staking::StakingRewards;
use casper_staking::u256::U256;
use casper_types::AsymmetricType;

fn account(seed: u8) -> AccountHash {
    let public_key = casper_types::PublicKey::ed25519_from_bytes([seed; 32]).unwrap();
    AccountHash(public_key.to_account_hash().value())
}

fn ali() -> AccountHash {
    account(3)
}

fn bob() -> AccountHash {
    account(6)
}

fn joe() -> AccountHash {
    account(9)
}

const DISTRIBUTION: [u8; 32] = [11u8; 32];
const REWARDS_TOKEN: [u8; 32] = [12u8; 32];
const STAKING_TOKEN: [u8; 32] = [13u8; 32];
const SELF_HASH: [u8; 32] = [14u8; 32];

fn amount(x: u64) -> U256 {
    U256::from_u64(x)
}

fn value(x: U256) -> u64 {
    assert_eq!((x.w1, x.w2, x.w3), (0, 0, 0));
    x.w0
}

fn same_account(a: AccountHash, b: AccountHash) -> bool {
    a.0 == b.0
}

fn deploy_staking_rewards() -> StakingRewards {
    StakingRewards::new(
        ali(),
        Key::Hash(DISTRIBUTION),
        Key::Hash(REWARDS_TOKEN),
        Key::Hash(STAKING_TOKEN),
        ali(),
        ContractHash(SELF_HASH),
    )
    .unwrap()
}

#[test]
fn test_staking_rewards_deploy() {
    let stk_rwd = deploy_staking_rewards();
    assert!(same_account(stk_rwd.owner(), ali()));
    assert_eq!(stk_rwd.nominated_owner().0, [0u8; 32]);
    assert_eq!(stk_rwd.rewards_distribution().0, DISTRIBUTION);
    assert_eq!(stk_rwd.rewards_token().0, REWARDS_TOKEN);
    assert_eq!(stk_rwd.staking_token().0, STAKING_TOKEN);
    assert_eq!(value(stk_rwd.period_finish()), 0);
    assert_eq!(value(stk_rwd.reward_rate()), 0);
    assert_eq!(value(stk_rwd.rewards_duration()), 604800);
    assert_eq!(value(stk_rwd.last_update_time()), 0);
    assert_eq!(value(stk_rwd.reward_per_token_stored()), 0);
    assert_eq!(value(stk_rwd.total_supply()), 0);
    assert_eq!(value(stk_rwd.last_pause_time()), 0);
    assert_eq!(stk_rwd.paused(), false);
}

#[test]
fn deploy_refuses_a_token_that_is_not_a_contract() {
    let r = StakingRewards::new(
        ali(),
        Key::Hash(DISTRIBUTION),
        Key::Account(bob()),
        Key::Hash(STAKING_TOKEN),
        ali(),
        ContractHash(SELF_HASH),
    );
    assert!(matches!(r, Err(Revert::NotAContractKey)));
}

#[test]
fn test_set_rewards_distribution() {
    let mut stk_rwd = deploy_staking_rewards();
    stk_rwd.set_rewards_distribution(ali(), Key::Hash([0u8; 32])).unwrap();
    assert_eq!(stk_rwd.rewards_distribution().0, [0u8; 32]);
}

#[test]
#[should_panic]
fn test_only_owner() {
    let mut stk_rwd = deploy_staking_rewards();
    stk_rwd.set_rewards_distribution(joe(), Key::Hash([0u8; 32])).unwrap();
    assert_eq!(stk_rwd.rewards_distribution().0, [0u8; 32]);
}

#[test]
fn only_owner_error_code() {
    let mut stk_rwd = deploy_staking_rewards();
    let r = stk_rwd.set_rewards_distribution(joe(), Key::Hash([0u8; 32]));
    assert_eq!(r, Err(Revert::User(Error::OnlyOwner)));
    assert_eq!(Error::OnlyOwner.code(), 9);
    assert_eq!(Error::CannotStakeZero.code(), 0);
    assert_eq!(Error::ReentrantCall.code(), 10);
    assert_eq!(stk_rwd.rewards_distribution().0, DISTRIBUTION);
}

#[test]
fn test_set_paused() {
    let mut stk_rwd = deploy_staking_rewards();
    assert_eq!(stk_rwd.paused(), false);
    stk_rwd.set_paused(ali(), 0, true).unwrap();
    assert_eq!(stk_rwd.paused(), true);
}

#[test]
fn pausing_records_the_moment_once() {
    let mut stk_rwd = deploy_staking_rewards();
    stk_rwd.set_paused(ali(), 50, true).unwrap();
    assert_eq!(value(stk_rwd.last_pause_time()), 50);
    stk_rwd.set_paused(ali(), 70, true).unwrap();
    assert_eq!(value(stk_rwd.last_pause_time()), 50);
    stk_rwd.set_paused(ali(), 90, false).unwrap();
    assert_eq!(value(stk_rwd.last_pause_time()), 50);
    assert_eq!(stk_rwd.paused(), false);
    assert_eq!(stk_rwd.set_paused(bob(), 95, true), Err(Revert::User(Error::OnlyOwner)));
}

#[test]
fn test_set_nominated_owner() {
    let mut stk_rwd = deploy_staking_rewards();
    stk_rwd.nominate_new_owner(ali(), ali()).unwrap();
    assert!(same_account(stk_rwd.nominated_owner(), ali()));
}

#[test]
fn test_accept_ownership() {
    let mut stk_rwd = deploy_staking_rewards();
    stk_rwd.nominate_new_owner(ali(), ali()).unwrap();
    assert!(same_account(stk_rwd.nominated_owner(), ali()));
    stk_rwd.accept_ownership(ali()).unwrap();
    assert!(same_account(stk_rwd.owner(), ali()));
    assert_eq!(stk_rwd.nominated_owner().0, [0u8; 32]);
}

#[test]
fn ownership_moves_to_the_nominee() {
    let mut stk_rwd = deploy_staking_rewards();
    assert_eq!(stk_rwd.accept_ownership(bob()), Err(Revert::User(Error::OnlyNominatedOwner)));
    stk_rwd.nominate_new_owner(ali(), bob()).unwrap();
    assert_eq!(stk_rwd.accept_ownership(joe()), Err(Revert::User(Error::OnlyNominatedOwner)));
    stk_rwd.accept_ownership(bob()).unwrap();
    assert!(same_account(stk_rwd.owner(), bob()));
    assert_eq!(stk_rwd.nominate_new_owner(ali(), joe()), Err(Revert::User(Error::OnlyOwner)));
}

#[test]
#[should_panic]
fn test_stake_zero() {
    let mut stk_rwd = deploy_staking_rewards();
    stk_rwd.stake(ali(), 0, amount(0)).unwrap();
}

#[test]
#[should_panic]
fn test_exit_withdraw_0() {
    let mut stk_rwd = deploy_staking_rewards();
    stk_rwd.exit(ali(), 0).unwrap();
}

#[test]
fn test_update_period_finish() {
    let mut stk_rwd = deploy_staking_rewards();
    let timestamp = std::time::SystemTime::now()
        .duration_since(std::time::UNIX_EPOCH)
        .unwrap()
        .as_secs();
    stk_rwd.update_period_finish(ali(), 0, amount(timestamp)).unwrap();
    assert_eq!(value(stk_rwd.reward_per_token_stored()), 0);
    assert_eq!(value(stk_rwd.last_update_time()), 0);
    assert_eq!(value(stk_rwd.period_finish()), timestamp);
}

#[test]
#[should_panic]
fn test_set_rewards_duration() {
    let mut stk_rwd = deploy_staking_rewards();
    stk_rwd.set_rewards_duration(ali(), 0, amount(1000)).unwrap();
    assert_eq!(value(stk_rwd.rewards_duration()), 1000);
}

#[test]
fn rewards_duration_changes_after_the_period() {
    let mut stk_rwd = deploy_staking_rewards();
    assert_eq!(
        stk_rwd.set_rewards_duration(ali(), 0, amount(1000)),
        Err(Revert::User(Error::InCompletePreviousRewardsPeriod))
    );
    stk_rwd.set_rewards_duration(ali(), 1, amount(1000)).unwrap();
    assert_eq!(value(stk_rwd.rewards_duration()), 1000);
}

#[test]
#[should_panic]
fn test_recover_staking_token() {
    let stk_rwd = deploy_staking_rewards();
    stk_rwd.recover_erc20(ali(), Key::Hash(STAKING_TOKEN), amount(3)).unwrap();
}

#[test]
fn recover_other_token_goes_to_the_owner() {
    let stk_rwd = deploy_staking_rewards();
    let call = stk_rwd.recover_erc20(ali(), Key::Hash(DISTRIBUTION), amount(3)).unwrap();
    assert_eq!(call.token.0, DISTRIBUTION);
    assert!(matches!(call.recipient, Key::Account(a) if same_account(a, ali())));
    assert_eq!(value(call.amount), 3);
    assert_eq!(
        stk_rwd.recover_erc20(ali(), Key::Hash(STAKING_TOKEN), amount(3)).unwrap_err(),
        Revert::User(Error::CannotWithdrawTheStakingToken)
    );
    assert_eq!(
        stk_rwd.recover_erc20(bob(), Key::Hash(DISTRIBUTION), amount(3)).unwrap_err(),
        Revert::User(Error::OnlyOwner)
    );
}

#[test]
fn stake_records_and_asks_for_the_tokens() {
    let mut stk_rwd = deploy_staking_rewards();
    let call = stk_rwd.stake(ali(), 0, amount(3)).unwrap();
    assert_eq!(call.token.0, STAKING_TOKEN);
    assert!(matches!(call.owner, Key::Account(a) if same_account(a, ali())));
    assert!(matches!(call.recipient, Key::Hash(h) if h == SELF_HASH));
    assert_eq!(value(call.amount), 3);
    assert_eq!(value(stk_rwd.reward_per_token_stored()), 0);
    assert_eq!(value(stk_rwd.last_update_time()), 0);
    assert_eq!(value(stk_rwd.total_supply()), 3);
    assert_eq!(value(stk_rwd.reward_of(&ali())), 0);
    assert_eq!(value(stk_rwd.user_reward_per_token_paid(&ali())), 0);
    assert_eq!(value(stk_rwd.balance_of(&ali())), 3);
    // The guard stays entered until the token call is done.
    assert_eq!(stk_rwd.stake(ali(), 0, amount(3)).unwrap_err(), Revert::User(Error::ReentrantCall));
    stk_rwd.free_entrancy();
    stk_rwd.stake(ali(), 0, amount(3)).unwrap();
    stk_rwd.free_entrancy();
    assert_eq!(value(stk_rwd.balance_of(&ali())), 6);
}

#[test]
fn paused_contract_refuses_stakes_but_not_withdrawals() {
    let mut stk_rwd = deploy_staking_rewards();
    stk_rwd.stake(bob(), 0, amount(10)).unwrap();
    stk_rwd.free_entrancy();
    stk_rwd.set_paused(ali(), 1, true).unwrap();
    assert_eq!(stk_rwd.stake(bob(), 2, amount(1)).unwrap_err(), Revert::User(Error::ContractIsPaused));
    let call = stk_rwd.withdraw(bob(), 2, amount(4)).unwrap();
    assert_eq!(call.token.0, STAKING_TOKEN);
    assert_eq!(value(call.amount), 4);
    stk_rwd.free_entrancy();
    assert_eq!(value(stk_rwd.balance_of(&bob())), 6);
    assert_eq!(value(stk_rwd.total_supply()), 6);
    assert_eq!(stk_rwd.withdraw(bob(), 3, amount(7)).unwrap_err(), Revert::ArithmeticOverflow);
    assert_eq!(stk_rwd.withdraw(bob(), 3, amount(0)).unwrap_err(), Revert::User(Error::CannotWithdrawZero));
}

#[test]
fn stake_needs_the_contract_hash() {
    let mut stk_rwd = StakingRewards::new(
        ali(),
        Key::Hash(DISTRIBUTION),
        Key::Hash(REWARDS_TOKEN),
        Key::Hash(STAKING_TOKEN),
        ali(),
        ContractHash([0u8; 32]),
    )
    .unwrap();
    assert_eq!(stk_rwd.stake(ali(), 0, amount(3)).unwrap_err(), Revert::ZeroContractHash);
    assert_eq!(value(stk_rwd.total_supply()), 0);
}

fn funded_scenario() -> StakingRewards {
    // Ali stakes 100 tokens, then the distribution contract announces
    // 6_048_000 reward tokens for one week, which it holds.
    let mut stk_rwd = deploy_staking_rewards();
    stk_rwd.stake(ali(), 0, amount(100)).unwrap();
    stk_rwd.free_entrancy();
    let query = stk_rwd.notify_reward_amount(Key::Hash(DISTRIBUTION), 0, amount(6_048_000)).unwrap();
    assert_eq!(query.token.0, REWARDS_TOKEN);
    assert!(matches!(query.account, Key::Hash(h) if h == SELF_HASH));
    assert_eq!(value(stk_rwd.reward_rate()), 10);
    stk_rwd.finish_notify_reward_amount(0, amount(6_048_000)).unwrap();
    assert_eq!(value(stk_rwd.period_finish()), 604800);
    assert_eq!(value(stk_rwd.last_update_time()), 0);
    stk_rwd
}

#[test]
fn rewards_accrue_at_the_rate() {
    let stk_rwd = funded_scenario();
    // After 100 seconds: 10 per second shared by 100 staked tokens, scaled by 10^18.
    assert_eq!(value(stk_rwd.reward_per_token(100).unwrap()), 10_000_000_000_000_000_000);
    assert_eq!(value(stk_rwd.earned(&ali(), 100).unwrap()), 1000);
    assert_eq!(value(stk_rwd.earned(&bob(), 100).unwrap()), 0);
    // Past the end of the period nothing more accrues.
    assert_eq!(value(stk_rwd.last_time_reward_applicable(700000)), 604800);
    assert_eq!(value(stk_rwd.earned(&ali(), 700000).unwrap()), 6_048_000);
    assert_eq!(value(stk_rwd.get_reward_for_duration().unwrap()), 6_048_000);
}

#[test]
fn get_reward_pays_what_was_earned() {
    let mut stk_rwd = funded_scenario();
    let call = stk_rwd.get_reward(ali(), 100).unwrap().unwrap();
    assert_eq!(call.token.0, REWARDS_TOKEN);
    assert!(matches!(call.recipient, Key::Account(a) if same_account(a, ali())));
    assert_eq!(value(call.amount), 1000);
    assert_eq!(value(stk_rwd.reward_of(&ali())), 0);
    assert_eq!(value(stk_rwd.user_reward_per_token_paid(&ali())), 10_000_000_000_000_000_000);
    assert_eq!(value(stk_rwd.last_update_time()), 100);
    stk_rwd.free_entrancy();
    // Nothing more to collect at the same moment.
    assert!(stk_rwd.get_reward(ali(), 100).unwrap().is_none());
    stk_rwd.free_entrancy();
}

#[test]
fn exit_withdraws_everything_then_collects() {
    let mut stk_rwd = funded_scenario();
    let back = stk_rwd.exit(ali(), 200).unwrap();
    assert_eq!(back.token.0, STAKING_TOKEN);
    assert_eq!(value(back.amount), 100);
    assert_eq!(value(stk_rwd.balance_of(&ali())), 0);
    assert_eq!(value(stk_rwd.total_supply()), 0);
    stk_rwd.free_entrancy();
    let reward = stk_rwd.get_reward(ali(), 200).unwrap().unwrap();
    assert_eq!(value(reward.amount), 2000);
    stk_rwd.free_entrancy();
}

#[test]
fn notify_is_for_the_distribution_contract_only() {
    let mut stk_rwd = deploy_staking_rewards();
    assert_eq!(
        stk_rwd.notify_reward_amount(Key::Account(ali()), 0, amount(10)).unwrap_err(),
        Revert::User(Error::OnlyRewardsDistributionContract)
    );
    assert_eq!(
        stk_rwd.notify_reward_amount(Key::Hash(REWARDS_TOKEN), 0, amount(10)).unwrap_err(),
        Revert::User(Error::OnlyRewardsDistributionContract)
    );
}

#[test]
fn notify_adds_the_leftover_of_the_running_period() {
    let mut stk_rwd = funded_scenario();
    // Half-way through, another 6_048_000: the 302_400 seconds left at rate 10
    // are added, and the sum is spread over a new week.
    stk_rwd.notify_reward_amount(Key::Hash(DISTRIBUTION), 302400, amount(6_048_000)).unwrap();
    assert_eq!(value(stk_rwd.reward_rate()), 15);
    assert_eq!(value(stk_rwd.last_update_time()), 302400);
    assert_eq!(
        stk_rwd.finish_notify_reward_amount(302400, amount(9_000_000)).unwrap_err(),
        Revert::User(Error::ProvidedRewardTooHigh)
    );
    stk_rwd.finish_notify_reward_amount(302400, amount(9_072_000)).unwrap();
    assert_eq!(value(stk_rwd.period_finish()), 302400 + 604800);
}

#[test]
fn zero_duration_is_a_division_by_zero() {
    let mut stk_rwd = deploy_staking_rewards();
    stk_rwd.set_rewards_duration(ali(), 1, amount(0)).unwrap();
    assert_eq!(
        stk_rwd.notify_reward_amount(Key::Hash(DISTRIBUTION), 5, amount(10)).unwrap_err(),
        Revert::DivisionByZero
    );
}

#[test]
fn moving_the_finish_before_the_last_update_makes_accrual_fail() {
    let mut stk_rwd = funded_scenario();
    stk_rwd.get_reward(ali(), 100).unwrap();
    stk_rwd.free_entrancy();
    stk_rwd.update_period_finish(ali(), 100, amount(50)).unwrap();
    assert_eq!(value(stk_rwd.last_update_time()), 100);
    // The reward per token now needs 50 - 100, which is refused.
    assert_eq!(stk_rwd.reward_per_token(200).unwrap_err(), Revert::ArithmeticOverflow);
    assert_eq!(stk_rwd.stake(ali(), 200, amount(1)).unwrap_err(), Revert::ArithmeticOverflow);
}

#[test]
fn stake_then_withdraw_restores_the_stake() {
    let mut stk_rwd = deploy_staking_rewards();
    stk_rwd.stake(bob(), 10, amount(40)).unwrap();
    stk_rwd.free_entrancy();
    stk_rwd.stake(joe(), 11, amount(2)).unwrap();
    stk_rwd.free_entrancy();
    assert_eq!(value(stk_rwd.total_supply()), 42);
    stk_rwd.withdraw(bob(), 12, amount(40)).unwrap();
    stk_rwd.free_entrancy();
    assert_eq!(value(stk_rwd.balance_of(&bob())), 0);
    assert_eq!(value(stk_rwd.balance_of(&joe())), 2);
    assert_eq!(value(stk_rwd.total_supply()), 2);
}
