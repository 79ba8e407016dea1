//! The calls that change a staking-rewards contract.
//!
//! Each call checks everything before it writes anything, so that a refused
//! call leaves the state as it was. A call that moves tokens returns the
//! token-contract call to make; the guarded calls (`stake`, `withdraw`,
//! `exit`, `get_reward`) leave the reentrancy guard entered, and the guard is
//! left with `free_entrancy` once the token call is done.
use vstd::prelude::*;
use crate::error::{Error, Revert};
use crate::keys::{nobody, account_item_name, account_to_str, zero_bytes, AccountHash, ContractHash, Key};
use crate::staking::{BalanceQuery, StakingRewards, TokenTransfer, TokenTransferFrom};
use crate::u256::{difference, quotient, sum, u256_modulus, U256};

verus! {

impl StakingRewards {
    /// Whether a call by `caller` is a call by the owner.
    pub open spec fn is_owner(&self, caller: AccountHash) -> bool {
        caller.0@ == self.owner.0@
    }

    /// Whether `caller` is the contract that may announce rewards.
    pub open spec fn is_rewards_distribution(&self, caller: Key) -> bool {
        caller.names_contract(self.rewards_distribution.0@)
    }

    /// What settling the accrual at `t` gives `account` to collect: the
    /// freshly computed reward for an ordinary account, the recorded one for
    /// the zero account.
    pub open spec fn reward_due(&self, account: AccountHash, t: nat) -> nat {
        match self.settlement_at(account, t) {
            Ok((_, _, earned)) => if account.0@ == zero_bytes() {
                self.recorded_reward(account)
            } else {
                earned
            },
            Err(_) => 0,
        }
    }

    /// The outcome of `stake`: the first check that fails, in the order the
    /// contract makes them.
    pub open spec fn stake_outcome(&self, caller: AccountHash, t: nat, amount: nat) -> Result<(), Revert> {
        if self.entered() {
            Err(Revert::User(Error::ReentrantCall))
        } else if self.paused {
            Err(Revert::User(Error::ContractIsPaused))
        } else {
            match self.settlement_at(caller, t) {
                Err(e) => Err(e),
                Ok(_) => if amount == 0 {
                    Err(Revert::User(Error::CannotStakeZero))
                } else {
                    match sum(self.total_supply.value(), amount) {
                        Err(e) => Err(e),
                        Ok(_) => match sum(self.staked(caller), amount) {
                            Err(e) => Err(e),
                            Ok(_) => if self.contract_hash.0@ == zero_bytes() {
                                Err(Revert::ZeroContractHash)
                            } else {
                                Ok(())
                            },
                        },
                    }
                },
            }
        }
    }

    /// `new` is `old` after `caller` staked `amount` at `t`.
    pub open spec fn staked_into(
        old: &StakingRewards,
        new: &StakingRewards,
        caller: AccountHash,
        t: nat,
        amount: nat,
    ) -> bool {
        &&& StakingRewards::settled(old, new, caller, t)
        &&& new.total_supply.value() == old.total_supply.value() + amount
        &&& new.balances@ == old.balances@.insert(account_item_name(caller), old.staked(caller) + amount)
        &&& new.balances.total() == old.balances.total() + amount
        &&& new.entered()
        &&& StakingRewards::same_setup(old, new)
        &&& StakingRewards::same_schedule(old, new)
    }

    /// The outcome of `withdraw`.
    pub open spec fn withdraw_outcome(&self, caller: AccountHash, t: nat, amount: nat) -> Result<(), Revert> {
        if self.entered() {
            Err(Revert::User(Error::ReentrantCall))
        } else {
            match self.settlement_at(caller, t) {
                Err(e) => Err(e),
                Ok(_) => if amount == 0 {
                    Err(Revert::User(Error::CannotWithdrawZero))
                } else {
                    match difference(self.total_supply.value(), amount) {
                        Err(e) => Err(e),
                        Ok(_) => match difference(self.staked(caller), amount) {
                            Err(e) => Err(e),
                            Ok(_) => Ok(()),
                        },
                    }
                },
            }
        }
    }

    /// `new` is `old` after `caller` withdrew `amount` at `t`.
    pub open spec fn withdrawn_from(
        old: &StakingRewards,
        new: &StakingRewards,
        caller: AccountHash,
        t: nat,
        amount: nat,
    ) -> bool {
        &&& StakingRewards::settled(old, new, caller, t)
        &&& new.total_supply.value() + amount == old.total_supply.value()
        &&& new.balances@ == old.balances@.insert(
            account_item_name(caller),
            (old.staked(caller) - amount) as nat,
        )
        &&& new.balances.total() + amount == old.balances.total()
        &&& new.entered()
        &&& StakingRewards::same_setup(old, new)
        &&& StakingRewards::same_schedule(old, new)
    }

    /// The outcome of `get_reward`.
    pub open spec fn get_reward_outcome(&self, caller: AccountHash, t: nat) -> Result<(), Revert> {
        if self.entered() {
            Err(Revert::User(Error::ReentrantCall))
        } else {
            match self.settlement_at(caller, t) {
                Err(e) => Err(e),
                Ok(_) => Ok(()),
            }
        }
    }

    /// The rate that `notify_reward_amount` sets: the new reward, plus what is
    /// left of the running period at the old rate, spread over a whole period.
    pub open spec fn notified_rate(&self, t: nat, reward: nat) -> Result<nat, Revert> {
        if t >= self.period_finish.value() {
            quotient(reward, self.rewards_duration.value())
        } else {
            match difference(self.period_finish.value(), t) {
                Err(e) => Err(e),
                Ok(remaining) => match crate::u256::product(remaining, self.reward_rate.value()) {
                    Err(e) => Err(e),
                    Ok(leftover) => match sum(reward, leftover) {
                        Err(e) => Err(e),
                        Ok(total) => quotient(total, self.rewards_duration.value()),
                    },
                },
            }
        }
    }

    /// The outcome of `notify_reward_amount`.
    pub open spec fn notify_outcome(&self, caller: Key, t: nat, reward: nat) -> Result<(), Revert> {
        if !self.is_rewards_distribution(caller) {
            Err(Revert::User(Error::OnlyRewardsDistributionContract))
        } else {
            match self.settlement_at(nobody(), t) {
                Err(e) => Err(e),
                Ok(_) => match self.notified_rate(t, reward) {
                    Err(e) => Err(e),
                    Ok(_) => Ok(()),
                },
            }
        }
    }

    /// The outcome of `finish_notify_reward_amount`: the rate may not pay out
    /// more over a period than the contract holds.
    pub open spec fn funding_outcome(&self, t: nat, balance: nat) -> Result<(), Revert> {
        match quotient(balance, self.rewards_duration.value()) {
            Err(e) => Err(e),
            Ok(limit) => if self.reward_rate.value() > limit {
                Err(Revert::User(Error::ProvidedRewardTooHigh))
            } else {
                match sum(t, self.rewards_duration.value()) {
                    Err(e) => Err(e),
                    Ok(_) => Ok(()),
                }
            },
        }
    }

    /// The outcome of a call that only the owner may make.
    pub open spec fn owner_outcome(&self, caller: AccountHash) -> Result<(), Revert> {
        if self.is_owner(caller) {
            Ok(())
        } else {
            Err(Revert::User(Error::OnlyOwner))
        }
    }

    /// `new` is `old` with `nominee` nominated by the owner.
    pub open spec fn nominated(old: &StakingRewards, new: &StakingRewards, caller: AccountHash, nominee: AccountHash) -> bool {
        &&& old.is_owner(caller)
        &&& new.nominated_owner == nominee
        &&& new.owner == old.owner
    }

    /// `new` is `old` after the nominated account took over ownership.
    pub open spec fn ownership_taken(old: &StakingRewards, new: &StakingRewards, caller: AccountHash) -> bool {
        &&& caller.0@ == old.nominated_owner.0@
        &&& new.owner == old.nominated_owner
        &&& new.nominated_owner.0@ == zero_bytes()
    }

    fn require_owner(&self, caller: &AccountHash) -> (r: Result<(), Revert>)
        ensures
            r == self.owner_outcome(*caller),
    {
        if caller.same(&self.owner) {
            Ok(())
        } else {
            Err(Revert::User(Error::OnlyOwner))
        }
    }

    fn require_not_entered(&self) -> (r: Result<(), Revert>)
        ensures
            r is Ok <==> !self.entered(),
            r is Err ==> r == Err::<(), Revert>(Revert::User(Error::ReentrantCall)),
    {
        if self.status.same(&U256::from_u64(2)) {
            Err(Revert::User(Error::ReentrantCall))
        } else {
            Ok(())
        }
    }

    /// The caller stakes `amount` of the staking token. On success the
    /// returned call moves the tokens from the caller to this contract.
    pub fn stake(&mut self, caller: AccountHash, blocktime: u64, amount: U256) -> (r: Result<
        TokenTransferFrom,
        Revert,
    >)
        requires
            old(self).wf(),
        ensures
            final(self).wf(),
            old(self).stakes_match() ==> final(self).stakes_match(),
            old(self).entered() ==> r == Err::<TokenTransferFrom, Revert>(Revert::User(Error::ReentrantCall)),
            !old(self).entered() && !old(self).paused && old(self).settlement_at(caller, blocktime as nat) is Ok
                && amount.value() > 0 && old(self).total_supply.value() + amount.value() < u256_modulus()
                && old(self).staked(caller) + amount.value() < u256_modulus() && old(self).contract_hash.0@
                != zero_bytes() ==> r is Ok,
            match r {
                Err(e) => {
                    &&& old(self).stake_outcome(caller, blocktime as nat, amount.value()) == Err::<(), Revert>(e)
                    &&& *final(self) == *old(self)
                },
                Ok(call) => {
                    &&& old(self).stake_outcome(caller, blocktime as nat, amount.value()) is Ok
                    &&& StakingRewards::staked_into(old(self), final(self), caller, blocktime as nat, amount.value())
                    &&& call.token == old(self).staking_token
                    &&& call.owner == Key::Account(caller)
                    &&& call.recipient == Key::Hash(old(self).contract_hash.0)
                    &&& call.amount == amount
                },
            },
    {
        proof {
            lemma_stake_succeeds(old(self), caller, blocktime as nat, amount.value());
        }
        self.require_not_entered()?;
        if self.paused {
            return Err(Revert::User(Error::ContractIsPaused));
        }
        let settlement = self.settlement(&caller, blocktime)?;
        if amount.is_zero() {
            return Err(Revert::User(Error::CannotStakeZero));
        }
        let total = self.total_supply.try_add(amount)?;
        let name = account_to_str(&caller);
        let staked = self.balances.get(&name).try_add(amount)?;
        if self.contract_hash.same(&ContractHash::zero()) {
            return Err(Revert::ZeroContractHash);
        }
        self.status = U256::from_u64(2);
        self.apply_settlement(&caller, settlement);
        self.total_supply = total;
        self.balances.set(name, staked);
        Ok(TokenTransferFrom {
            token: self.staking_token,
            owner: Key::Account(caller),
            recipient: Key::Hash(self.contract_hash.0),
            amount,
        })
    }

    /// The caller takes back `amount` of its stake. On success the returned
    /// call sends the tokens back to the caller.
    pub fn withdraw(&mut self, caller: AccountHash, blocktime: u64, amount: U256) -> (r: Result<
        TokenTransfer,
        Revert,
    >)
        requires
            old(self).wf(),
        ensures
            final(self).wf(),
            old(self).stakes_match() ==> final(self).stakes_match(),
            old(self).entered() ==> r == Err::<TokenTransfer, Revert>(Revert::User(Error::ReentrantCall)),
            !old(self).entered() && old(self).settlement_at(caller, blocktime as nat) is Ok && amount.value() > 0
                && amount.value() <= old(self).total_supply.value() && amount.value() <= old(self).staked(caller)
                ==> r is Ok,
            match r {
                Err(e) => {
                    &&& old(self).withdraw_outcome(caller, blocktime as nat, amount.value()) == Err::<(), Revert>(e)
                    &&& *final(self) == *old(self)
                },
                Ok(call) => {
                    &&& old(self).withdraw_outcome(caller, blocktime as nat, amount.value()) is Ok
                    &&& StakingRewards::withdrawn_from(old(self), final(self), caller, blocktime as nat, amount.value())
                    &&& call.token == old(self).staking_token
                    &&& call.recipient == Key::Account(caller)
                    &&& call.amount == amount
                },
            },
    {
        proof {
            lemma_withdraw_succeeds(old(self), caller, blocktime as nat, amount.value());
        }
        self.require_not_entered()?;
        let settlement = self.settlement(&caller, blocktime)?;
        if amount.is_zero() {
            return Err(Revert::User(Error::CannotWithdrawZero));
        }
        let total = self.total_supply.try_sub(amount)?;
        let name = account_to_str(&caller);
        let staked = self.balances.get(&name).try_sub(amount)?;
        self.status = U256::from_u64(2);
        self.apply_settlement(&caller, settlement);
        self.total_supply = total;
        self.balances.set(name, staked);
        Ok(TokenTransfer { token: self.staking_token, recipient: Key::Account(caller), amount })
    }

    /// The caller takes back its whole stake: the first half of `exit`, which
    /// goes on with `get_reward` once the returned call is done and the guard
    /// is left.
    pub fn exit(&mut self, caller: AccountHash, blocktime: u64) -> (r: Result<TokenTransfer, Revert>)
        requires
            old(self).wf(),
        ensures
            final(self).wf(),
            old(self).stakes_match() ==> final(self).stakes_match(),
            old(self).staked(caller) == 0 && !old(self).entered() && old(self).settlement_at(
                caller,
                blocktime as nat,
            ) is Ok ==> r == Err::<TokenTransfer, Revert>(Revert::User(Error::CannotWithdrawZero)),
            match r {
                Err(e) => {
                    &&& old(self).withdraw_outcome(caller, blocktime as nat, old(self).staked(caller)) == Err::<
                        (),
                        Revert,
                    >(e)
                    &&& *final(self) == *old(self)
                },
                Ok(call) => {
                    &&& old(self).withdraw_outcome(caller, blocktime as nat, old(self).staked(caller)) is Ok
                    &&& StakingRewards::withdrawn_from(
                        old(self),
                        final(self),
                        caller,
                        blocktime as nat,
                        old(self).staked(caller),
                    )
                    &&& final(self).staked(caller) == 0
                    &&& call.token == old(self).staking_token
                    &&& call.recipient == Key::Account(caller)
                    &&& call.amount.value() == old(self).staked(caller)
                },
            },
    {
        let amount = self.balance_of(&caller);
        self.withdraw(caller, blocktime, amount)
    }

    /// The caller collects what it has earned. On success with something to
    /// collect, the returned call sends it the reward tokens.
    pub fn get_reward(&mut self, caller: AccountHash, blocktime: u64) -> (r: Result<
        Option<TokenTransfer>,
        Revert,
    >)
        requires
            old(self).wf(),
        ensures
            final(self).wf(),
            old(self).stakes_match() ==> final(self).stakes_match(),
            old(self).entered() ==> r == Err::<Option<TokenTransfer>, Revert>(Revert::User(Error::ReentrantCall)),
            !old(self).entered() && old(self).settlement_at(caller, blocktime as nat) is Ok ==> r is Ok,
            match r {
                Err(e) => {
                    &&& old(self).get_reward_outcome(caller, blocktime as nat) == Err::<(), Revert>(e)
                    &&& *final(self) == *old(self)
                },
                Ok(call) => {
                    &&& old(self).get_reward_outcome(caller, blocktime as nat) is Ok
                    &&& final(self).entered()
                    &&& StakingRewards::same_setup(old(self), final(self))
                    &&& StakingRewards::same_schedule(old(self), final(self))
                    &&& StakingRewards::same_stakes(old(self), final(self))
                    &&& old(self).settlement_at(caller, blocktime as nat) matches Ok((p, at, _)) && {
                        &&& final(self).reward_per_token_stored.value() == p
                        &&& final(self).last_update_time.value() == at
                        &&& caller.0@ != zero_bytes() ==> final(self).user_reward_per_token_paid@
                            == old(self).user_reward_per_token_paid@.insert(account_item_name(caller), p)
                        &&& caller.0@ == zero_bytes() ==> final(self).user_reward_per_token_paid@
                            == old(self).user_reward_per_token_paid@
                    }
                    &&& final(self).recorded_reward(caller) == 0
                    &&& (old(self).reward_due(caller, blocktime as nat) > 0 || caller.0@ != zero_bytes())
                        ==> final(self).rewards@ == old(self).rewards@.insert(account_item_name(caller), 0)
                    &&& (old(self).reward_due(caller, blocktime as nat) == 0 && caller.0@ == zero_bytes())
                        ==> final(self).rewards@ == old(self).rewards@
                    &&& match call {
                        Some(t) => {
                            &&& old(self).reward_due(caller, blocktime as nat) > 0
                            &&& t.token == old(self).rewards_token
                            &&& t.recipient == Key::Account(caller)
                            &&& t.amount.value() == old(self).reward_due(caller, blocktime as nat)
                        },
                        None => old(self).reward_due(caller, blocktime as nat) == 0,
                    }
                },
            },
    {
        proof {
            lemma_get_reward_ignores_pause(old(self), caller, blocktime as nat);
        }
        self.require_not_entered()?;
        let settlement = self.settlement(&caller, blocktime)?;
        self.status = U256::from_u64(2);
        self.apply_settlement(&caller, settlement);
        let name = account_to_str(&caller);
        let reward = self.rewards.get(&name);
        if reward.is_zero() {
            Ok(None)
        } else {
            self.rewards.set(name, U256::zero());
            Ok(Some(TokenTransfer { token: self.rewards_token, recipient: Key::Account(caller), amount: reward }))
        }
    }

    /// The reward-distribution contract announces `reward` for a new period
    /// (first half of `notify_reward_amount`): the accrual is brought up to
    /// date and the rate is set. The returned query asks the reward token for
    /// this contract's balance, which `finish_notify_reward_amount` checks.
    pub fn notify_reward_amount(&mut self, caller: Key, blocktime: u64, reward: U256) -> (r: Result<
        BalanceQuery,
        Revert,
    >)
        requires
            old(self).wf(),
        ensures
            final(self).wf(),
            old(self).stakes_match() ==> final(self).stakes_match(),
            match r {
                Err(e) => {
                    &&& old(self).notify_outcome(caller, blocktime as nat, reward.value()) == Err::<(), Revert>(e)
                    &&& *final(self) == *old(self)
                },
                Ok(q) => {
                    &&& blocktime >= old(self).period_finish.value() ==> final(self).reward_rate.value()
                        == reward.value() / old(self).rewards_duration.value()
                    &&& blocktime < old(self).period_finish.value() ==> final(self).reward_rate.value() == (
                    reward.value() + (old(self).period_finish.value() - blocktime) * old(self).reward_rate.value())
                        / (old(self).rewards_duration.value() as int)
                    &&& old(self).notify_outcome(caller, blocktime as nat, reward.value()) is Ok
                    &&& StakingRewards::settled(old(self), final(self), nobody(), blocktime as nat)
                    &&& Ok::<nat, Revert>(final(self).reward_rate.value()) == old(self).notified_rate(
                        blocktime as nat,
                        reward.value(),
                    )
                    &&& final(self).period_finish == old(self).period_finish
                    &&& final(self).status == old(self).status
                    &&& StakingRewards::same_setup(old(self), final(self))
                    &&& StakingRewards::same_stakes(old(self), final(self))
                    &&& q.token == old(self).rewards_token
                    &&& q.account == Key::Hash(old(self).contract_hash.0)
                },
            },
    {
        proof {
            lemma_notified_rate_formula(old(self), blocktime as nat, reward.value());
        }
        if !caller.is_contract(&self.rewards_distribution.0) {
            return Err(Revert::User(Error::OnlyRewardsDistributionContract));
        }
        let nobody = AccountHash::zero();
        let settlement = self.settlement(&nobody, blocktime)?;
        let now = U256::from_u64(blocktime);
        let rate = if self.period_finish.le(&now) {
            reward.try_div(self.rewards_duration)?
        } else {
            let remaining = self.period_finish.try_sub(now)?;
            let leftover = remaining.try_mul(self.reward_rate)?;
            reward.try_add(leftover)?.try_div(self.rewards_duration)?
        };
        self.apply_settlement(&nobody, settlement);
        self.reward_rate = rate;
        Ok(BalanceQuery { token: self.rewards_token, account: Key::Hash(self.contract_hash.0) })
    }

    /// Second half of `notify_reward_amount`, given this contract's balance of
    /// the reward token: the rate may not pay out more over a period than the
    /// balance; the new period starts now.
    pub fn finish_notify_reward_amount(&mut self, blocktime: u64, balance: U256) -> (r: Result<(), Revert>)
        requires
            old(self).wf(),
        ensures
            final(self).wf(),
            old(self).stakes_match() ==> final(self).stakes_match(),
            old(self).rewards_duration.value() > 0 && old(self).reward_rate.value() > balance.value()
                / old(self).rewards_duration.value() ==> r == Err::<(), Revert>(
                Revert::User(Error::ProvidedRewardTooHigh),
            ),
            old(self).rewards_duration.value() > 0 && old(self).reward_rate.value() <= balance.value()
                / old(self).rewards_duration.value() && blocktime + old(self).rewards_duration.value()
                < u256_modulus() ==> r is Ok,
            match r {
                Err(e) => {
                    &&& old(self).funding_outcome(blocktime as nat, balance.value()) == Err::<(), Revert>(e)
                    &&& *final(self) == *old(self)
                },
                Ok(()) => {
                    &&& old(self).funding_outcome(blocktime as nat, balance.value()) is Ok
                    &&& final(self).last_update_time.value() == blocktime
                    &&& final(self).period_finish.value() == blocktime + old(self).rewards_duration.value()
                    &&& final(self).reward_rate.value() * final(self).rewards_duration.value() <= balance.value()
                    &&& final(self).reward_rate == old(self).reward_rate
                    &&& final(self).reward_per_token_stored == old(self).reward_per_token_stored
                    &&& final(self).rewards@ == old(self).rewards@
                    &&& final(self).user_reward_per_token_paid@ == old(self).user_reward_per_token_paid@
                    &&& final(self).status == old(self).status
                    &&& StakingRewards::same_setup(old(self), final(self))
                    &&& StakingRewards::same_stakes(old(self), final(self))
                },
            },
    {
        let limit = balance.try_div(self.rewards_duration)?;
        if limit.lt(&self.reward_rate) {
            return Err(Revert::User(Error::ProvidedRewardTooHigh));
        }
        proof {
            let rate = self.reward_rate.value();
            let d = self.rewards_duration.value();
            let b = balance.value();
            assert(rate * d <= b) by (nonlinear_arith)
                requires
                    d > 0,
                    rate <= b / d,
            {
                assert(rate * d <= (b / d) * d);
                assert((b / d) * d <= b);
            }
        }
        let now = U256::from_u64(blocktime);
        let finish = now.try_add(self.rewards_duration)?;
        self.last_update_time = now;
        self.period_finish = finish;
        Ok(())
    }

    /// The owner ends (or moves) the current period: the accrual is brought up
    /// to date first.
    pub fn update_period_finish(&mut self, caller: AccountHash, blocktime: u64, timestamp: U256) -> (r: Result<
        (),
        Revert,
    >)
        requires
            old(self).wf(),
        ensures
            final(self).wf(),
            old(self).stakes_match() ==> final(self).stakes_match(),
            match r {
                Err(e) => {
                    &&& (match old(self).owner_outcome(caller) {
                        Err(o) => o == e,
                        Ok(()) => old(self).settlement_at(nobody(), blocktime as nat)
                            == Err::<(nat, nat, nat), Revert>(e),
                    })
                    &&& *final(self) == *old(self)
                },
                Ok(()) => {
                    &&& old(self).is_owner(caller)
                    &&& StakingRewards::settled(old(self), final(self), nobody(), blocktime as nat)
                    &&& final(self).period_finish == timestamp
                    &&& final(self).reward_rate == old(self).reward_rate
                    &&& final(self).status == old(self).status
                    &&& StakingRewards::same_setup(old(self), final(self))
                    &&& StakingRewards::same_stakes(old(self), final(self))
                },
            },
    {
        self.require_owner(&caller)?;
        let nobody = AccountHash::zero();
        let settlement = self.settlement(&nobody, blocktime)?;
        self.apply_settlement(&nobody, settlement);
        self.period_finish = timestamp;
        Ok(())
    }

    /// The owner asks for tokens of another contract that this contract holds
    /// to be sent to the owner; never the staked token.
    pub fn recover_erc20(&self, caller: AccountHash, token_contract_key: Key, token_amount: U256) -> (r: Result<
        TokenTransfer,
        Revert,
    >)
        ensures
            match r {
                Err(e) => if !self.is_owner(caller) {
                    e == Revert::User(Error::OnlyOwner)
                } else {
                    match token_contract_key {
                        Key::Hash(h) => h@ == self.staking_token.0@ && e == Revert::User(
                            Error::CannotWithdrawTheStakingToken,
                        ),
                        _ => e == Revert::NotAContractKey,
                    }
                },
                Ok(call) => {
                    &&& self.is_owner(caller)
                    &&& token_contract_key matches Key::Hash(h) && h@ != self.staking_token.0@
                        && call.token.0 == h
                    &&& call.recipient == Key::Account(self.owner)
                    &&& call.amount == token_amount
                },
            },
    {
        self.require_owner(&caller)?;
        let token = match token_contract_key {
            Key::Hash(h) => ContractHash(h),
            _ => return Err(Revert::NotAContractKey),
        };
        if token.same(&self.staking_token) {
            return Err(Revert::User(Error::CannotWithdrawTheStakingToken));
        }
        Ok(TokenTransfer { token, recipient: Key::Account(self.owner), amount: token_amount })
    }

    /// The owner sets the length of the next period, once the current one is over.
    pub fn set_rewards_duration(&mut self, caller: AccountHash, blocktime: u64, rewards_duration: U256) -> (r: Result<
        (),
        Revert,
    >)
        requires
            old(self).wf(),
        ensures
            final(self).wf(),
            old(self).stakes_match() ==> final(self).stakes_match(),
            match r {
                Err(e) => {
                    &&& if !old(self).is_owner(caller) {
                        e == Revert::User(Error::OnlyOwner)
                    } else {
                        blocktime <= old(self).period_finish.value() && e == Revert::User(
                            Error::InCompletePreviousRewardsPeriod,
                        )
                    }
                    &&& *final(self) == *old(self)
                },
                Ok(()) => {
                    &&& old(self).is_owner(caller)
                    &&& blocktime > old(self).period_finish.value()
                    &&& final(self).rewards_duration == rewards_duration
                    &&& *final(self) == (StakingRewards { rewards_duration, ..*old(self) })
                },
            },
    {
        self.require_owner(&caller)?;
        if U256::from_u64(blocktime).le(&self.period_finish) {
            return Err(Revert::User(Error::InCompletePreviousRewardsPeriod));
        }
        self.rewards_duration = rewards_duration;
        Ok(())
    }

    /// The owner names the contract that may announce rewards.
    pub fn set_rewards_distribution(&mut self, caller: AccountHash, rewards_distribution: Key) -> (r: Result<
        (),
        Revert,
    >)
        requires
            old(self).wf(),
        ensures
            final(self).wf(),
            old(self).stakes_match() ==> final(self).stakes_match(),
            match r {
                Err(e) => {
                    &&& if !old(self).is_owner(caller) {
                        e == Revert::User(Error::OnlyOwner)
                    } else {
                        !(rewards_distribution is Hash) && e == Revert::NotAContractKey
                    }
                    &&& *final(self) == *old(self)
                },
                Ok(()) => {
                    &&& old(self).is_owner(caller)
                    &&& rewards_distribution matches Key::Hash(h) && *final(self) == (StakingRewards {
                        rewards_distribution: ContractHash(h),
                        ..*old(self)
                    })
                },
            },
    {
        self.require_owner(&caller)?;
        match rewards_distribution {
            Key::Hash(h) => {
                self.rewards_distribution = ContractHash(h);
                Ok(())
            },
            _ => Err(Revert::NotAContractKey),
        }
    }

    /// The owner pauses or resumes staking; pausing records the moment. Setting
    /// the state it already has changes nothing.
    pub fn set_paused(&mut self, caller: AccountHash, blocktime: u64, paused: bool) -> (r: Result<(), Revert>)
        requires
            old(self).wf(),
        ensures
            final(self).wf(),
            old(self).stakes_match() ==> final(self).stakes_match(),
            match r {
                Err(e) => {
                    &&& !old(self).is_owner(caller)
                    &&& e == Revert::User(Error::OnlyOwner)
                    &&& *final(self) == *old(self)
                },
                Ok(()) => {
                    &&& old(self).is_owner(caller)
                    &&& final(self).paused == paused
                    &&& if paused && !old(self).paused {
                        &&& final(self).last_pause_time.value() == blocktime
                        &&& *final(self) == (StakingRewards {
                            paused,
                            last_pause_time: final(self).last_pause_time,
                            ..*old(self)
                        })
                    } else {
                        *final(self) == (StakingRewards { paused, ..*old(self) })
                    }
                },
            },
    {
        self.require_owner(&caller)?;
        if paused != self.paused {
            self.paused = paused;
            if paused {
                self.last_pause_time = U256::from_u64(blocktime);
            }
        }
        Ok(())
    }

    /// The owner nominates the account that may take over ownership.
    pub fn nominate_new_owner(&mut self, caller: AccountHash, owner: AccountHash) -> (r: Result<(), Revert>)
        requires
            old(self).wf(),
        ensures
            final(self).wf(),
            old(self).stakes_match() ==> final(self).stakes_match(),
            match r {
                Err(e) => {
                    &&& !old(self).is_owner(caller)
                    &&& e == Revert::User(Error::OnlyOwner)
                    &&& *final(self) == *old(self)
                },
                Ok(()) => {
                    &&& StakingRewards::nominated(old(self), final(self), caller, owner)
                    &&& *final(self) == (StakingRewards { nominated_owner: owner, ..*old(self) })
                },
            },
    {
        self.require_owner(&caller)?;
        self.nominated_owner = owner;
        Ok(())
    }

    /// The nominated account takes over ownership; the nomination is cleared.
    pub fn accept_ownership(&mut self, caller: AccountHash) -> (r: Result<(), Revert>)
        requires
            old(self).wf(),
        ensures
            final(self).wf(),
            old(self).stakes_match() ==> final(self).stakes_match(),
            match r {
                Err(e) => {
                    &&& caller.0@ != old(self).nominated_owner.0@
                    &&& e == Revert::User(Error::OnlyNominatedOwner)
                    &&& *final(self) == *old(self)
                },
                Ok(()) => {
                    &&& StakingRewards::ownership_taken(old(self), final(self), caller)
                    &&& *final(self) == (StakingRewards {
                        owner: old(self).nominated_owner,
                        nominated_owner: final(self).nominated_owner,
                        ..*old(self)
                    })
                },
            },
    {
        if !caller.same(&self.nominated_owner) {
            return Err(Revert::User(Error::OnlyNominatedOwner));
        }
        self.owner = self.nominated_owner;
        self.nominated_owner = AccountHash::zero();
        Ok(())
    }
}

/// Once the accrual has been brought up to moment `t`, the reward per token
/// at `t` is the stored one: settling twice at the same moment changes nothing.
pub proof fn lemma_settlement_is_current(old: &StakingRewards, new: &StakingRewards, account: AccountHash, t: nat)
    requires
        StakingRewards::settled(old, new, account, t),
        new.total_supply == old.total_supply,
        new.period_finish == old.period_finish,
        new.reward_rate == old.reward_rate,
    ensures
        new.per_token_at(t) == Ok::<nat, Revert>(new.reward_per_token_stored.value()),
        new.last_update_time.value() == new.time_applicable(t),
        new.last_update_time.value() == crate::staking::min_of(t, old.period_finish.value()),
{
    crate::u256::lemma_value_bound(new.reward_per_token_stored);
    assert(0nat * new.reward_rate.value() == 0) by (nonlinear_arith);
    assert(0nat * crate::staking::scale() == 0) by (nonlinear_arith);
}

/// The rate that announcing a reward sets: after the end of the running
/// period, the reward spread over a period, whatever the old rate; before it,
/// the reward plus what the old rate would still have paid until the end of
/// the period, spread over a period.
pub proof fn lemma_notified_rate_formula(s: &StakingRewards, t: nat, reward: nat)
    ensures
        t >= s.period_finish.value() ==> match s.notified_rate(t, reward) {
            Ok(rate) => rate == reward / s.rewards_duration.value(),
            Err(e) => s.rewards_duration.value() == 0 && e == Revert::DivisionByZero,
        },
        t < s.period_finish.value() ==> (s.notified_rate(t, reward) matches Ok(rate) ==> rate == (reward + (
        s.period_finish.value() - t) * s.reward_rate.value()) / (s.rewards_duration.value() as int)),
{
}

/// Collecting rewards does not depend on the pause: outside a guarded call,
/// wherever the accrual can be brought up to date, `get_reward` succeeds.
pub proof fn lemma_get_reward_ignores_pause(s: &StakingRewards, caller: AccountHash, t: nat)
    ensures
        !s.entered() && s.settlement_at(caller, t) is Ok ==> s.get_reward_outcome(caller, t) is Ok,
        s.get_reward_outcome(caller, t) is Err ==> s.entered() || s.settlement_at(caller, t) is Err,
{
}

/// Staking succeeds whenever the guard is free, staking is not paused, the
/// accrual can be brought up to date, the amount is positive, the sums fit in
/// 256 bits and the contract knows its own hash; the reward period and rate do
/// not matter.
pub proof fn lemma_stake_succeeds(s: &StakingRewards, caller: AccountHash, t: nat, amount: nat)
    ensures
        !s.entered() && !s.paused && s.settlement_at(caller, t) is Ok && amount > 0 && s.total_supply.value()
            + amount < u256_modulus() && s.staked(caller) + amount < u256_modulus() && s.contract_hash.0@
            != zero_bytes() ==> s.stake_outcome(caller, t, amount) is Ok,
{
}

/// Withdrawing succeeds whenever the guard is free, the accrual can be
/// brought up to date and the amount is positive and within both the stake
/// and the total; pausing does not matter.
pub proof fn lemma_withdraw_succeeds(s: &StakingRewards, caller: AccountHash, t: nat, amount: nat)
    ensures
        !s.entered() && s.settlement_at(caller, t) is Ok && amount > 0 && amount <= s.total_supply.value()
            && amount <= s.staked(caller) ==> s.withdraw_outcome(caller, t, amount) is Ok,
{
}

/// Accrual only adds: the reward per token is never below the stored one, and
/// what an account has earned is never below what was recorded for it.
pub proof fn lemma_accrual_only_adds(s: &StakingRewards, account: AccountHash, t: nat)
    ensures
        s.per_token_at(t) matches Ok(p) ==> p >= s.reward_per_token_stored.value(),
        s.earned_at(account, t) matches Ok(e) ==> e >= s.recorded_reward(account),
{
}

/// The owner nominates an account and that account accepts: it is then the
/// owner, and no one is nominated.
pub proof fn lemma_nominate_then_accept(
    s0: &StakingRewards,
    s1: &StakingRewards,
    s2: &StakingRewards,
    owner: AccountHash,
    nominee: AccountHash,
)
    requires
        StakingRewards::nominated(s0, s1, owner, nominee),
        StakingRewards::ownership_taken(s1, s2, nominee),
    ensures
        s2.owner == nominee,
        s2.nominated_owner.0@ == zero_bytes(),
        s0.is_owner(owner),
{
}

/// Staking an amount and then withdrawing the same amount leaves the
/// account's stake and the total staked as they were.
pub proof fn lemma_stake_then_withdraw(
    s0: &StakingRewards,
    s1: &StakingRewards,
    s2: &StakingRewards,
    caller: AccountHash,
    t1: nat,
    t2: nat,
    amount: nat,
)
    requires
        StakingRewards::staked_into(s0, s1, caller, t1, amount),
        StakingRewards::withdrawn_from(s1, s2, caller, t2, amount),
    ensures
        s2.staked(caller) == s0.staked(caller),
        s2.total_supply.value() == s0.total_supply.value(),
        forall|a: AccountHash| s2.staked(a) == s0.staked(a),
{
}

} // verus!
