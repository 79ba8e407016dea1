use casper_staking::erc20::Erc20;
use casper_staking::error::Revert;
use casper_staking::keys::{AccountHash, Key};
use casper_staking::u256::U256;
use casper_types::AsymmetricType;

const NAME: &str = "ERC20";
const SYMBOL: &str = "ERC";
const DECIMALS: u8 = 8;
const TOTAL_SUPPLY: u64 = 1000;

fn account(seed: u8) -> AccountHash {
    let public_key = casper_types::PublicKey::ed25519_from_bytes([seed; 32]).unwrap();
    AccountHash(public_key.to_account_hash().value())
}

fn ali() -> AccountHash {
    account(3)
}

fn bob() -> AccountHash {
    account(6)
}

fn joe() -> AccountHash {
    account(9)
}

fn to_key(a: AccountHash) -> Key {
    Key::Account(a)
}

fn amount(x: u64) -> U256 {
    U256::from_u64(x)
}

fn value(x: U256) -> u64 {
    assert_eq!((x.w1, x.w2, x.w3), (0, 0, 0));
    x.w0
}

fn deployed(name: &str, symbol: &str) -> Erc20 {
    Erc20::new(name.to_string(), symbol.to_string(), DECIMALS, amount(TOTAL_SUPPLY), ali())
}

fn check_deployed(t: &Erc20, name: &str, symbol: &str) {
    assert_eq!(t.name(), name);
    assert_eq!(t.symbol(), symbol);
    assert_eq!(t.decimals(), DECIMALS);
    assert_eq!(value(t.balance_of(&to_key(ali())).unwrap()), TOTAL_SUPPLY);
    assert_eq!(value(t.allowance(&to_key(ali()), &to_key(ali()))), 0);
    assert_eq!(value(t.allowance(&to_key(ali()), &to_key(bob()))), 0);
    assert_eq!(value(t.allowance(&to_key(bob()), &to_key(ali()))), 0);
    assert_eq!(value(t.allowance(&to_key(bob()), &to_key(bob()))), 0);
}

#[test]
fn test_erc20_deploy() {
    let t = deployed("ERC20", "ERC");
    check_deployed(&t, NAME, SYMBOL);
}

#[test]
fn test_staking_token_deploy() {
    let t = deployed("StakingToken", "STKN");
    check_deployed(&t, "StakingToken", "STKN");
}

#[test]
fn test_rewards_token_deploy() {
    let t = deployed("RewardsToken", "RWDT");
    check_deployed(&t, "RewardsToken", "RWDT");
}

#[test]
fn test_erc20_transfer() {
    let amt = 10;
    let mut t = deployed("ERC20", "ERC");
    t.transfer(to_key(ali()), to_key(bob()), amount(amt)).unwrap();
    assert_eq!(value(t.balance_of(&to_key(ali())).unwrap()), TOTAL_SUPPLY - amt);
    assert_eq!(value(t.balance_of(&to_key(bob())).unwrap()), amt);
}

#[test]
#[should_panic]
fn test_erc20_transfer_too_much() {
    let mut t = deployed("ERC20", "ERC");
    t.transfer(to_key(bob()), to_key(ali()), amount(1)).unwrap();
}

#[test]
fn test_erc20_approve() {
    let amt = 10;
    let mut t = deployed("ERC20", "ERC");
    t.approve(ali(), to_key(bob()), amount(amt));
    assert_eq!(value(t.balance_of(&to_key(ali())).unwrap()), TOTAL_SUPPLY);
    assert_eq!(value(t.allowance(&to_key(ali()), &to_key(bob()))), amt);
    assert_eq!(value(t.allowance(&to_key(bob()), &to_key(ali()))), 0);
}

#[test]
fn test_erc20_transfer_from() {
    let allowance = 10;
    let amt = 3;
    let mut t = deployed("ERC20", "ERC");
    t.approve(ali(), to_key(bob()), amount(allowance));
    assert_eq!(value(t.allowance(&to_key(ali()), &to_key(bob()))), allowance);
    t.transfer_from(bob(), to_key(ali()), to_key(joe()), amount(amt)).unwrap();
    assert_eq!(value(t.balance_of(&to_key(ali())).unwrap()), TOTAL_SUPPLY - amt);
    assert_eq!(value(t.balance_of(&to_key(joe())).unwrap()), amt);
    assert_eq!(value(t.allowance(&to_key(ali()), &to_key(bob()))), allowance - amt);
}

#[test]
#[should_panic]
fn test_erc20_transfer_from_too_much() {
    let mut t = deployed("ERC20", "ERC");
    t.transfer_from(bob(), to_key(ali()), to_key(joe()), amount(TOTAL_SUPPLY + 1)).unwrap();
}

#[test]
fn transfer_from_to_contract() {
    let amt = 3;
    let contract = Key::Hash([7u8; 32]);
    let mut t = deployed("StakingToken", "STK");
    t.approve(ali(), to_key(ali()), amount(amt));
    t.transfer_from(ali(), to_key(ali()), contract, amount(amt)).unwrap();
    assert_eq!(value(t.balance_of(&contract).unwrap()), amt);
    assert_eq!(value(t.balance_of(&to_key(ali())).unwrap()), 997);
}

#[test]
fn transfer_to_contract() {
    let amt = 3;
    let contract = Key::Hash([7u8; 32]);
    let mut t = deployed("StakingToken", "STK");
    t.transfer(to_key(ali()), contract, amount(amt)).unwrap();
    assert_eq!(value(t.balance_of(&contract).unwrap()), amt);
    assert_eq!(value(t.balance_of(&to_key(ali())).unwrap()), 997);
}

#[test]
fn transfer_to_oneself_keeps_the_balance() {
    let mut t = deployed("ERC20", "ERC");
    t.transfer(to_key(ali()), to_key(ali()), amount(400)).unwrap();
    assert_eq!(value(t.balance_of(&to_key(ali())).unwrap()), TOTAL_SUPPLY);
    // Even to oneself, more than the balance is refused.
    assert_eq!(t.transfer(to_key(ali()), to_key(ali()), amount(1001)), Err(Revert::ArithmeticOverflow));
}

#[test]
fn account_and_contract_with_the_same_bytes_share_a_balance() {
    let mut t = deployed("ERC20", "ERC");
    let bytes = [5u8; 32];
    t.transfer(to_key(ali()), Key::Hash(bytes), amount(25)).unwrap();
    assert_eq!(value(t.balance_of(&Key::Account(AccountHash(bytes))).unwrap()), 25);
}

#[test]
fn transfers_keep_the_sum_of_balances() {
    let mut t = deployed("ERC20", "ERC");
    t.transfer(to_key(ali()), to_key(bob()), amount(300)).unwrap();
    t.transfer(to_key(bob()), to_key(joe()), amount(120)).unwrap();
    t.approve(joe(), to_key(ali()), amount(50));
    t.transfer_from(ali(), to_key(joe()), to_key(bob()), amount(50)).unwrap();
    let total = value(t.balance_of(&to_key(ali())).unwrap())
        + value(t.balance_of(&to_key(bob())).unwrap())
        + value(t.balance_of(&to_key(joe())).unwrap());
    assert_eq!(total, TOTAL_SUPPLY);
    assert_eq!(value(t.balance_of(&to_key(ali())).unwrap()), 700);
    assert_eq!(value(t.balance_of(&to_key(bob())).unwrap()), 230);
    assert_eq!(value(t.balance_of(&to_key(joe())).unwrap()), 70);
}

#[test]
fn refused_transfer_from_changes_nothing() {
    let mut t = deployed("ERC20", "ERC");
    t.approve(ali(), to_key(bob()), amount(5));
    // The balance would allow it, the allowance does not.
    assert_eq!(
        t.transfer_from(bob(), to_key(ali()), to_key(joe()), amount(6)),
        Err(Revert::ArithmeticOverflow)
    );
    assert_eq!(value(t.balance_of(&to_key(ali())).unwrap()), TOTAL_SUPPLY);
    assert_eq!(value(t.balance_of(&to_key(joe())).unwrap()), 0);
    assert_eq!(value(t.allowance(&to_key(ali()), &to_key(bob()))), 5);
}

#[test]
fn full_supply_of_the_largest_amount() {
    let max = U256 { w0: u64::MAX, w1: u64::MAX, w2: u64::MAX, w3: u64::MAX };
    let mut t = Erc20::new("Big".to_string(), "BIG".to_string(), 0, max, bob());
    t.transfer(to_key(bob()), to_key(ali()), amount(5)).unwrap();
    let rest = t.balance_of(&to_key(bob())).unwrap();
    assert_eq!(rest, U256 { w0: u64::MAX - 5, w1: u64::MAX, w2: u64::MAX, w3: u64::MAX });
    assert_eq!(t.transfer(to_key(bob()), to_key(ali()), max), Err(Revert::ArithmeticOverflow));
    t.transfer(to_key(bob()), to_key(ali()), rest).unwrap();
    assert_eq!(t.balance_of(&to_key(ali())).unwrap(), max);
    assert_eq!(value(t.balance_of(&to_key(bob())).unwrap()), 0);
}

#[test]
fn allowances_accept_every_kind_of_key() {
    let mut t = deployed("ERC20", "ERC");
    let uref = Key::URef([0x0au8; 32], 7);
    t.approve(ali(), uref, amount(12));
    assert_eq!(value(t.allowance(&to_key(ali()), &uref)), 12);
    assert_eq!(value(t.allowance(&uref, &to_key(ali()))), 0);
    let era = Key::EraInfo(42);
    t.approve(bob(), era, amount(3));
    assert_eq!(value(t.allowance(&to_key(bob()), &era)), 3);
}

#[test]
fn balances_are_only_for_accounts_and_contracts() {
    let mut t = deployed("ERC20", "ERC");
    let dict = Key::Dictionary([1u8; 32]);
    assert_eq!(t.balance_of(&dict), Err(Revert::UnexpectedKeyVariant));
    assert_eq!(t.transfer(to_key(ali()), dict, amount(1)), Err(Revert::UnexpectedKeyVariant));
    // The sender's balance is checked before the recipient's key.
    assert_eq!(t.transfer(to_key(bob()), dict, amount(1)), Err(Revert::ArithmeticOverflow));
    assert_eq!(t.transfer(dict, to_key(ali()), amount(0)), Err(Revert::UnexpectedKeyVariant));
    assert_eq!(value(t.balance_of(&to_key(ali())).unwrap()), TOTAL_SUPPLY);
}
