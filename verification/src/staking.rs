//! The staking-rewards contract: its state, and how rewards accrue over time.
use vstd::prelude::*;
use crate::error::Revert;
use crate::keys::{account_item_name, account_to_str, zero_bytes, AccountHash, ContractHash, Key};
use crate::ledger::{amount_at, Ledger};
use crate::u256::{amount_of, difference, min, product, quotient, sum, U256};

verus! {

/// 10^18, the fixed-point scale of the reward per staked token.
pub open spec fn scale() -> nat {
    1_000_000_000_000_000_000
}

/// The reward period that a freshly deployed contract uses: one week in seconds.
pub open spec fn initial_rewards_duration() -> nat {
    604800
}

/// A call of `transfer` on a token contract, from this contract's own balance.
#[derive(Clone, Copy, Debug)]
pub struct TokenTransfer {
    pub token: ContractHash,
    pub recipient: Key,
    pub amount: U256,
}

/// A call of `transfer_from` on a token contract.
#[derive(Clone, Copy, Debug)]
pub struct TokenTransferFrom {
    pub token: ContractHash,
    pub owner: Key,
    pub recipient: Key,
    pub amount: U256,
}

/// A call of `balance_of` on a token contract.
#[derive(Clone, Copy, Debug)]
pub struct BalanceQuery {
    pub token: ContractHash,
    pub account: Key,
}

/// The accrual of an account brought up to a moment.
pub struct Settlement {
    /// The new reward per staked token.
    pub per_token: U256,
    /// The moment up to which rewards are now counted.
    pub updated_at: U256,
    /// What the account has earned by then, for an account other than the zero account.
    pub earned: Option<U256>,
}

/// The state of a staking-rewards contract.
pub struct StakingRewards {
    pub rewards_token: ContractHash,
    pub staking_token: ContractHash,
    pub period_finish: U256,
    pub reward_rate: U256,
    pub rewards_duration: U256,
    pub last_update_time: U256,
    pub reward_per_token_stored: U256,
    pub total_supply: U256,
    pub rewards_distribution: ContractHash,
    pub last_pause_time: U256,
    pub paused: bool,
    pub owner: AccountHash,
    pub nominated_owner: AccountHash,
    /// The reentrancy guard: 2 while a guarded call is under way.
    pub status: U256,
    pub contract_hash: ContractHash,
    /// Dictionary `rewards`: what each account has earned and not yet collected.
    pub rewards: Ledger,
    /// Dictionary `user_reward_per_token_paid`: the reward per token already counted for each account.
    pub user_reward_per_token_paid: Ledger,
    /// Dictionary `balances`: what each account has staked.
    pub balances: Ledger,
}

impl StakingRewards {
    pub open spec fn wf(&self) -> bool {
        &&& self.rewards.wf()
        &&& self.user_reward_per_token_paid.wf()
        &&& self.balances.wf()
    }

    /// The stakes add up to the recorded total supply.
    pub open spec fn stakes_match(&self) -> bool {
        self.balances.total() == self.total_supply.value()
    }

    /// A guarded call is under way.
    pub open spec fn entered(&self) -> bool {
        self.status.value() == 2
    }

    /// What an account has staked.
    pub open spec fn staked(&self, account: AccountHash) -> nat {
        amount_at(self.balances@, account_item_name(account))
    }

    /// What an account has earned and not yet collected, as last recorded.
    pub open spec fn recorded_reward(&self, account: AccountHash) -> nat {
        amount_at(self.rewards@, account_item_name(account))
    }

    /// The reward per token already counted for an account.
    pub open spec fn paid_per_token(&self, account: AccountHash) -> nat {
        amount_at(self.user_reward_per_token_paid@, account_item_name(account))
    }

    /// The last moment at which rewards accrue: now, or the end of the period if it is past.
    pub open spec fn time_applicable(&self, t: nat) -> nat {
        if t <= self.period_finish.value() {
            t
        } else {
            self.period_finish.value()
        }
    }

    /// The reward per staked token at moment `t`: the stored value plus what
    /// accrued since the last update, scaled by 10^18 and shared among the
    /// staked tokens. With nothing staked it is the stored value.
    pub open spec fn per_token_at(&self, t: nat) -> Result<nat, Revert> {
        let stored = self.reward_per_token_stored.value();
        if self.total_supply.value() == 0 {
            Ok(stored)
        } else {
            match difference(self.time_applicable(t), self.last_update_time.value()) {
                Err(e) => Err(e),
                Ok(elapsed) => match product(elapsed, self.reward_rate.value()) {
                    Err(e) => Err(e),
                    Ok(accrued) => match product(accrued, scale()) {
                        Err(e) => Err(e),
                        Ok(scaled) => match quotient(scaled, self.total_supply.value()) {
                            Err(e) => Err(e),
                            Ok(share) => sum(stored, share),
                        },
                    },
                },
            }
        }
    }

    /// What an account has earned given the reward per token: its stake times
    /// the reward per token not yet counted for it, unscaled, plus what was
    /// already recorded.
    pub open spec fn earned_with(&self, account: AccountHash, per_token: nat) -> Result<nat, Revert> {
        match difference(per_token, self.paid_per_token(account)) {
            Err(e) => Err(e),
            Ok(pending) => match product(self.staked(account), pending) {
                Err(e) => Err(e),
                Ok(scaled) => match quotient(scaled, scale()) {
                    Err(e) => Err(e),
                    Ok(fresh) => sum(fresh, self.recorded_reward(account)),
                },
            },
        }
    }

    /// What an account has earned at moment `t`.
    pub open spec fn earned_at(&self, account: AccountHash, t: nat) -> Result<nat, Revert> {
        match self.per_token_at(t) {
            Err(e) => Err(e),
            Ok(p) => self.earned_with(account, p),
        }
    }

    /// Bringing the accrual up to moment `t` for an account: the new reward per
    /// token, the moment it is counted to, and (for an account other than the
    /// zero account) what the account has earned.
    pub open spec fn settlement_at(&self, account: AccountHash, t: nat) -> Result<(nat, nat, nat), Revert> {
        match self.per_token_at(t) {
            Err(e) => Err(e),
            Ok(p) => if account.0@ == zero_bytes() {
                Ok((p, self.time_applicable(t), 0))
            } else {
                match self.earned_with(account, p) {
                    Err(e) => Err(e),
                    Ok(earned) => Ok((p, self.time_applicable(t), earned)),
                }
            },
        }
    }

    /// `new` is `old` with the accrual brought up to moment `t` for `account`
    /// (`_update_reward`), as far as the accrual fields go.
    pub open spec fn settled(old: &StakingRewards, new: &StakingRewards, account: AccountHash, t: nat) -> bool {
        match old.settlement_at(account, t) {
            Err(_) => false,
            Ok((p, at, earned)) => {
                &&& new.reward_per_token_stored.value() == p
                &&& new.last_update_time.value() == at
                &&& if account.0@ == zero_bytes() {
                    &&& new.rewards@ == old.rewards@
                    &&& new.user_reward_per_token_paid@ == old.user_reward_per_token_paid@
                } else {
                    &&& new.rewards@ == old.rewards@.insert(account_item_name(account), earned)
                    &&& new.user_reward_per_token_paid@ == old.user_reward_per_token_paid@.insert(
                        account_item_name(account),
                        p,
                    )
                }
            },
        }
    }

    /// The addresses, the owners and the pause state are the same.
    pub open spec fn same_setup(a: &StakingRewards, b: &StakingRewards) -> bool {
        &&& a.rewards_token == b.rewards_token
        &&& a.staking_token == b.staking_token
        &&& a.rewards_distribution == b.rewards_distribution
        &&& a.owner == b.owner
        &&& a.nominated_owner == b.nominated_owner
        &&& a.contract_hash == b.contract_hash
        &&& a.paused == b.paused
        &&& a.last_pause_time == b.last_pause_time
        &&& a.rewards_duration == b.rewards_duration
    }

    /// The reward period and rate are the same.
    pub open spec fn same_schedule(a: &StakingRewards, b: &StakingRewards) -> bool {
        &&& a.period_finish == b.period_finish
        &&& a.reward_rate == b.reward_rate
    }

    /// The accrual is the same.
    pub open spec fn same_accrual(a: &StakingRewards, b: &StakingRewards) -> bool {
        &&& a.reward_per_token_stored == b.reward_per_token_stored
        &&& a.last_update_time == b.last_update_time
        &&& a.rewards@ == b.rewards@
        &&& a.user_reward_per_token_paid@ == b.user_reward_per_token_paid@
    }

    /// The stakes are the same.
    pub open spec fn same_stakes(a: &StakingRewards, b: &StakingRewards) -> bool {
        &&& a.total_supply == b.total_supply
        &&& a.balances@ == b.balances@
        &&& a.balances.total() == b.balances.total()
    }

    /// The contract as deployed (`call`): the three contract keys must name
    /// contracts; the period is one week; nothing is staked; the deploying
    /// account has zero entries in the three dictionaries.
    pub fn new(
        owner: AccountHash,
        rewards_distribution: Key,
        rewards_token: Key,
        staking_token: Key,
        deployer: AccountHash,
        contract_hash: ContractHash,
    ) -> (r: Result<StakingRewards, Revert>)
        ensures
            match (rewards_distribution, rewards_token, staking_token) {
                (Key::Hash(d), Key::Hash(rt), Key::Hash(st)) => r matches Ok(s) && {
                    &&& s.wf()
                    &&& s.stakes_match()
                    &&& s.rewards_distribution.0 == d
                    &&& s.rewards_token.0 == rt
                    &&& s.staking_token.0 == st
                    &&& s.owner == owner
                    &&& s.nominated_owner.0@ == zero_bytes()
                    &&& s.period_finish.value() == 0
                    &&& s.reward_rate.value() == 0
                    &&& s.rewards_duration.value() == initial_rewards_duration()
                    &&& s.last_update_time.value() == 0
                    &&& s.reward_per_token_stored.value() == 0
                    &&& s.total_supply.value() == 0
                    &&& s.last_pause_time.value() == 0
                    &&& !s.paused
                    &&& s.status.value() == 1
                    &&& s.contract_hash == contract_hash
                    &&& s.rewards@ == Map::<Seq<char>, nat>::empty().insert(account_item_name(deployer), 0)
                    &&& s.user_reward_per_token_paid@ == Map::<Seq<char>, nat>::empty().insert(
                        account_item_name(deployer),
                        0,
                    )
                    &&& s.balances@ == Map::<Seq<char>, nat>::empty().insert(account_item_name(deployer), 0)
                },
                _ => r == Err::<StakingRewards, Revert>(Revert::NotAContractKey),
            },
    {
        let rewards_distribution = match rewards_distribution {
            Key::Hash(h) => ContractHash(h),
            _ => return Err(Revert::NotAContractKey),
        };
        let rewards_token = match rewards_token {
            Key::Hash(h) => ContractHash(h),
            _ => return Err(Revert::NotAContractKey),
        };
        let staking_token = match staking_token {
            Key::Hash(h) => ContractHash(h),
            _ => return Err(Revert::NotAContractKey),
        };
        let mut rewards = Ledger::new();
        rewards.set(account_to_str(&deployer), U256::zero());
        let mut user_reward_per_token_paid = Ledger::new();
        user_reward_per_token_paid.set(account_to_str(&deployer), U256::zero());
        let mut balances = Ledger::new();
        balances.set(account_to_str(&deployer), U256::zero());
        Ok(StakingRewards {
            rewards_token,
            staking_token,
            period_finish: U256::zero(),
            reward_rate: U256::zero(),
            rewards_duration: U256::from_u64(604800),
            last_update_time: U256::zero(),
            reward_per_token_stored: U256::zero(),
            total_supply: U256::zero(),
            rewards_distribution,
            last_pause_time: U256::zero(),
            paused: false,
            owner,
            nominated_owner: AccountHash::zero(),
            status: U256::from_u64(1),
            contract_hash,
            rewards,
            user_reward_per_token_paid,
            balances,
        })
    }

    /// The reward token.
    pub fn rewards_token(&self) -> (r: ContractHash)
        ensures
            r == self.rewards_token,
    {
        self.rewards_token
    }

    /// The staked token.
    pub fn staking_token(&self) -> (r: ContractHash)
        ensures
            r == self.staking_token,
    {
        self.staking_token
    }

    /// The end of the current reward period.
    pub fn period_finish(&self) -> (r: U256)
        ensures
            r == self.period_finish,
    {
        self.period_finish
    }

    /// The reward paid out per second of the period.
    pub fn reward_rate(&self) -> (r: U256)
        ensures
            r == self.reward_rate,
    {
        self.reward_rate
    }

    /// The length of a reward period.
    pub fn rewards_duration(&self) -> (r: U256)
        ensures
            r == self.rewards_duration,
    {
        self.rewards_duration
    }

    /// The moment up to which rewards were last counted.
    pub fn last_update_time(&self) -> (r: U256)
        ensures
            r == self.last_update_time,
    {
        self.last_update_time
    }

    /// The reward per token as last counted.
    pub fn reward_per_token_stored(&self) -> (r: U256)
        ensures
            r == self.reward_per_token_stored,
    {
        self.reward_per_token_stored
    }

    /// The reward per token already counted for an account.
    pub fn user_reward_per_token_paid(&self, owner: &AccountHash) -> (r: U256)
        requires
            self.wf(),
        ensures
            r.value() == self.paid_per_token(*owner),
    {
        self.user_reward_per_token_paid.get(&account_to_str(owner))
    }

    /// What an account has earned and not yet collected, as last recorded.
    pub fn reward_of(&self, owner: &AccountHash) -> (r: U256)
        requires
            self.wf(),
        ensures
            r.value() == self.recorded_reward(*owner),
    {
        self.rewards.get(&account_to_str(owner))
    }

    /// The total staked.
    pub fn total_supply(&self) -> (r: U256)
        ensures
            r == self.total_supply,
    {
        self.total_supply
    }

    /// What an account has staked.
    pub fn balance_of(&self, owner: &AccountHash) -> (r: U256)
        requires
            self.wf(),
        ensures
            r.value() == self.staked(*owner),
    {
        self.balances.get(&account_to_str(owner))
    }

    /// The contract that may announce new rewards.
    pub fn rewards_distribution(&self) -> (r: ContractHash)
        ensures
            r == self.rewards_distribution,
    {
        self.rewards_distribution
    }

    /// The moment of the last pause.
    pub fn last_pause_time(&self) -> (r: U256)
        ensures
            r == self.last_pause_time,
    {
        self.last_pause_time
    }

    /// Whether staking is paused.
    pub fn paused(&self) -> (r: bool)
        ensures
            r == self.paused,
    {
        self.paused
    }

    /// The owner.
    pub fn owner(&self) -> (r: AccountHash)
        ensures
            r == self.owner,
    {
        self.owner
    }

    /// The account nominated to take over ownership.
    pub fn nominated_owner(&self) -> (r: AccountHash)
        ensures
            r == self.nominated_owner,
    {
        self.nominated_owner
    }

    /// The reward of a whole period at the current rate.
    pub fn get_reward_for_duration(&self) -> (r: Result<U256, Revert>)
        ensures
            amount_of(r) == product(self.reward_rate.value(), self.rewards_duration.value()),
    {
        self.reward_rate.try_mul(self.rewards_duration)
    }

    /// The last moment at which rewards accrue: the block time, or the end of
    /// the period if that comes first.
    pub fn last_time_reward_applicable(&self, blocktime: u64) -> (r: U256)
        ensures
            r.value() == self.time_applicable(blocktime as nat),
            r.value() <= blocktime,
            r.value() <= self.period_finish.value(),
            r.value() == blocktime || r.value() == self.period_finish.value(),
    {
        min(U256::from_u64(blocktime), self.period_finish)
    }

    /// The reward per staked token at the given block time.
    pub fn reward_per_token(&self, blocktime: u64) -> (r: Result<U256, Revert>)
        ensures
            amount_of(r) == self.per_token_at(blocktime as nat),
            self.total_supply.value() == 0 ==> r == Ok::<U256, Revert>(self.reward_per_token_stored),
            self.total_supply.value() > 0 ==> (r matches Ok(p) ==> {
                &&& min_of(blocktime as nat, self.period_finish.value()) >= self.last_update_time.value()
                &&& p.value() == self.reward_per_token_stored.value() + ((min_of(
                    blocktime as nat,
                    self.period_finish.value(),
                ) - self.last_update_time.value()) * self.reward_rate.value()
                    * 1_000_000_000_000_000_000) / (self.total_supply.value() as int)
            }),
    {
        proof {
            lemma_reward_per_token_formula(self, blocktime as nat);
        }
        let stored = self.reward_per_token_stored;
        if self.total_supply.is_zero() {
            return Ok(stored);
        }
        let elapsed = self.last_time_reward_applicable(blocktime).try_sub(self.last_update_time)?;
        let accrued = elapsed.try_mul(self.reward_rate)?;
        let scaled = accrued.try_mul(scale_amount())?;
        let share = scaled.try_div(self.total_supply)?;
        stored.try_add(share)
    }

    /// What an account has earned given the reward per token.
    fn earned_given(&self, account: &AccountHash, per_token: U256) -> (r: Result<U256, Revert>)
        requires
            self.wf(),
        ensures
            amount_of(r) == self.earned_with(*account, per_token.value()),
    {
        let name = account_to_str(account);
        let staked = self.balances.get(&name);
        let pending = per_token.try_sub(self.user_reward_per_token_paid.get(&name))?;
        let scaled = staked.try_mul(pending)?;
        let fresh = scaled.try_div(scale_amount())?;
        fresh.try_add(self.rewards.get(&name))
    }

    /// What an account has earned at the given block time.
    pub fn earned(&self, account: &AccountHash, blocktime: u64) -> (r: Result<U256, Revert>)
        requires
            self.wf(),
        ensures
            amount_of(r) == self.earned_at(*account, blocktime as nat),
            r matches Ok(e) ==> (self.per_token_at(blocktime as nat) matches Ok(p) && {
                &&& p >= self.paid_per_token(*account)
                &&& e.value() == self.staked(*account) * (p - self.paid_per_token(*account))
                    / 1_000_000_000_000_000_000 + self.recorded_reward(*account)
            }),
    {
        proof {
            let t = blocktime as nat;
            if let Ok(p) = self.per_token_at(t) {
                lemma_earned_formula(self, *account, p);
            }
        }
        let per_token = self.reward_per_token(blocktime)?;
        self.earned_given(account, per_token)
    }

    /// Bring the accrual up to the given block time for an account, without
    /// writing anything.
    pub fn settlement(&self, account: &AccountHash, blocktime: u64) -> (r: Result<Settlement, Revert>)
        requires
            self.wf(),
        ensures
            match r {
                Ok(s) => self.settlement_at(*account, blocktime as nat) == Ok::<(nat, nat, nat), Revert>(
                    (
                        s.per_token.value(),
                        s.updated_at.value(),
                        match s.earned {
                            Some(e) => e.value(),
                            None => 0,
                        },
                    ),
                ) && (s.earned is None <==> account.0@ == zero_bytes()),
                Err(e) => self.settlement_at(*account, blocktime as nat) == Err::<(nat, nat, nat), Revert>(e),
            },
    {
        let per_token = self.reward_per_token(blocktime)?;
        let updated_at = self.last_time_reward_applicable(blocktime);
        if account.same(&AccountHash::zero()) {
            return Ok(Settlement { per_token, updated_at, earned: None });
        }
        let earned = self.earned_given(account, per_token)?;
        Ok(Settlement { per_token, updated_at, earned: Some(earned) })
    }

    /// Write a settlement (`_update_reward`).
    pub fn apply_settlement(&mut self, account: &AccountHash, s: Settlement)
        requires
            old(self).wf(),
            s.earned is None <==> account.0@ == zero_bytes(),
        ensures
            final(self).wf(),
            final(self).reward_per_token_stored == s.per_token,
            final(self).last_update_time == s.updated_at,
            match s.earned {
                None => {
                    &&& final(self).rewards@ == old(self).rewards@
                    &&& final(self).user_reward_per_token_paid@ == old(self).user_reward_per_token_paid@
                },
                Some(e) => {
                    &&& final(self).rewards@ == old(self).rewards@.insert(account_item_name(*account), e.value())
                    &&& final(self).user_reward_per_token_paid@ == old(self).user_reward_per_token_paid@.insert(
                        account_item_name(*account),
                        s.per_token.value(),
                    )
                },
            },
            StakingRewards::same_setup(old(self), final(self)),
            StakingRewards::same_schedule(old(self), final(self)),
            StakingRewards::same_stakes(old(self), final(self)),
            final(self).status == old(self).status,
    {
        self.reward_per_token_stored = s.per_token;
        self.last_update_time = s.updated_at;
        match s.earned {
            None => {},
            Some(e) => {
                self.rewards.set(account_to_str(account), e);
                self.user_reward_per_token_paid.set(account_to_str(account), s.per_token);
            },
        }
    }

    /// Leave a guarded call (`_free_entrancy`).
    pub fn free_entrancy(&mut self)
        ensures
            final(self).status.value() == 1,
            StakingRewards::same_setup(old(self), final(self)),
            StakingRewards::same_schedule(old(self), final(self)),
            StakingRewards::same_stakes(old(self), final(self)),
            StakingRewards::same_accrual(old(self), final(self)),
            final(self).wf() == old(self).wf(),
    {
        self.status = U256::from_u64(1);
    }
}

/// The smaller of two numbers.
pub open spec fn min_of(a: nat, b: nat) -> nat {
    if a <= b {
        a
    } else {
        b
    }
}

/// The reward per staked token, in plain arithmetic: with nothing staked it
/// is the stored value; otherwise the stored value plus the time elapsed since
/// the last update (up to the end of the period) times the rate, times 10^18,
/// divided by the total staked, the scaling done before the division. It is
/// refused only where the last update lies after that time or a step leaves
/// 256 bits.
pub proof fn lemma_reward_per_token_formula(s: &StakingRewards, t: nat)
    ensures
        s.total_supply.value() == 0 ==> s.per_token_at(t) == Ok::<nat, Revert>(
            s.reward_per_token_stored.value(),
        ),
        s.total_supply.value() > 0 ==> match s.per_token_at(t) {
            Ok(p) => {
                &&& min_of(t, s.period_finish.value()) >= s.last_update_time.value()
                &&& p == s.reward_per_token_stored.value() + ((min_of(t, s.period_finish.value())
                    - s.last_update_time.value()) * s.reward_rate.value() * 1_000_000_000_000_000_000)
                    / (s.total_supply.value() as int)
            },
            Err(e) => e == Revert::ArithmeticOverflow,
        },
        ({
            let applicable = if t <= s.period_finish.value() {
                t
            } else {
                s.period_finish.value()
            };
            let accrued = (applicable - s.last_update_time.value()) * s.reward_rate.value();
            s.total_supply.value() > 0 && applicable >= s.last_update_time.value() && accrued
                < crate::u256::u256_modulus() && accrued * 1_000_000_000_000_000_000
                < crate::u256::u256_modulus() && s.reward_per_token_stored.value() + (accrued
                * 1_000_000_000_000_000_000) / (s.total_supply.value() as int) < crate::u256::u256_modulus()
                ==> s.per_token_at(t) is Ok
        }),
{
}

/// What an account has earned given the reward per token, in plain
/// arithmetic: its stake times the reward per token not yet counted for it,
/// divided by 10^18 after the multiplication, plus what was recorded. It is
/// refused only where the reward per token is below what was counted or a
/// step leaves 256 bits.
pub proof fn lemma_earned_formula(s: &StakingRewards, account: AccountHash, p: nat)
    ensures
        s.earned_with(account, p) matches Ok(e) ==> {
            &&& p >= s.paid_per_token(account)
            &&& e == s.staked(account) * (p - s.paid_per_token(account)) / 1_000_000_000_000_000_000
                + s.recorded_reward(account)
        },
        p >= s.paid_per_token(account) && s.staked(account) * (p - s.paid_per_token(account))
            < crate::u256::u256_modulus() && s.staked(account) * (p - s.paid_per_token(account))
            / 1_000_000_000_000_000_000 + s.recorded_reward(account) < crate::u256::u256_modulus()
            ==> s.earned_with(account, p) is Ok,
{
}

/// 10^18 as an amount.
fn scale_amount() -> (r: U256)
    ensures
        r.value() == scale(),
{
    U256::from_u64(1_000_000_000_000_000_000)
}

} // verus!
