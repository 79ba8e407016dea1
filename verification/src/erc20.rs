//! The ERC20 token: metadata, balances by key, and allowances.
use vstd::prelude::*;
use crate::error::Revert;
use crate::keys::{
    account_item_name, account_to_str, allowance_key, allowance_name, key_item_name, key_to_str,
    AccountHash, Key,
};
use crate::ledger::{amount_at, Ledger};
use crate::u256::{add_checked, checked_add, checked_sub, sub_checked, u256_modulus, U256};

verus! {

/// The balances after `amount` moves from the entry `from` to the entry `to`:
/// the sender's entry is lowered first and the recipient's entry is then read
/// and raised, so a transfer to oneself leaves the balance as it was. `None`
/// where the sender holds less than `amount` or the recipient's balance would
/// leave 256 bits.
pub open spec fn moved(balances: Map<Seq<char>, nat>, from: Seq<char>, to: Seq<char>, amount: nat)
    -> Option<Map<Seq<char>, nat>>
{
    match sub_checked(amount_at(balances, from), amount) {
        None => None,
        Some(lowered) => {
            let b1 = balances.insert(from, lowered);
            match add_checked(amount_at(b1, to), amount) {
                None => None,
                Some(raised) => Some(b1.insert(to, raised)),
            }
        },
    }
}

/// The outcome of moving `amount` from `sender` to `recipient` (`_transfer`):
/// the sender's key is turned into its item name and its balance lowered,
/// then the same for the recipient, each step refused in that order.
pub open spec fn transfer_outcome(balances: Map<Seq<char>, nat>, sender: Key, recipient: Key, amount: nat)
    -> Result<Map<Seq<char>, nat>, Revert>
{
    if !sender.names_holder() {
        Err(Revert::UnexpectedKeyVariant)
    } else if amount_at(balances, key_item_name(sender)) < amount {
        Err(Revert::ArithmeticOverflow)
    } else if !recipient.names_holder() {
        Err(Revert::UnexpectedKeyVariant)
    } else {
        match moved(balances, key_item_name(sender), key_item_name(recipient), amount) {
            None => Err(Revert::ArithmeticOverflow),
            Some(after) => Ok(after),
        }
    }
}

/// The state of one token contract.
pub struct Erc20 {
    pub name: String,
    pub symbol: String,
    pub decimals: u8,
    pub total_supply: U256,
    /// Dictionary `balances`, by the item name of each key.
    pub balances: Ledger,
    /// Named keys `allowances_<owner>_<spender>`.
    pub allowances: Ledger,
}

impl Erc20 {
    pub open spec fn wf(&self) -> bool {
        self.balances.wf() && self.allowances.wf()
    }

    /// The balances add up to the supply fixed at deployment.
    pub open spec fn supply_matches(&self) -> bool {
        self.balances.total() == self.total_supply.value()
    }

    /// The balance of a key.
    pub open spec fn balance(&self, k: Key) -> nat {
        amount_at(self.balances@, key_item_name(k))
    }

    /// What `spender` may still move out of `owner`'s balance.
    pub open spec fn allowed(&self, owner: Key, spender: Key) -> nat {
        amount_at(self.allowances@, allowance_name(owner, spender))
    }

    /// `new` is `old` after the account `caller` allowed `spender` to move `amount`.
    pub open spec fn approved(old: &Erc20, new: &Erc20, caller: AccountHash, spender: Key, amount: nat) -> bool {
        new.allowances@ == old.allowances@.insert(allowance_name(Key::Account(caller), spender), amount)
    }

    /// The token as deployed (`call`): the deploying account holds the whole supply.
    pub fn new(name: String, symbol: String, decimals: u8, total_supply: U256, deployer: AccountHash)
        -> (r: Erc20)
        ensures
            r.wf(),
            r.name@ == name@,
            r.symbol@ == symbol@,
            r.decimals == decimals,
            r.total_supply == total_supply,
            r.balances@ == Map::<Seq<char>, nat>::empty().insert(
                account_item_name(deployer),
                total_supply.value(),
            ),
            r.allowances@ == Map::<Seq<char>, nat>::empty(),
            r.supply_matches(),
    {
        let mut balances = Ledger::new();
        balances.set(account_to_str(&deployer), total_supply);
        Erc20 { name, symbol, decimals, total_supply, balances, allowances: Ledger::new() }
    }

    /// The token's name.
    pub fn name(&self) -> (r: String)
        ensures
            r@ == self.name@,
    {
        self.name.clone()
    }

    /// The token's symbol.
    pub fn symbol(&self) -> (r: String)
        ensures
            r@ == self.symbol@,
    {
        self.symbol.clone()
    }

    /// The token's number of decimals.
    pub fn decimals(&self) -> (r: u8)
        ensures
            r == self.decimals,
    {
        self.decimals
    }

    /// The supply fixed at deployment.
    pub fn total_supply(&self) -> (r: U256)
        ensures
            r == self.total_supply,
    {
        self.total_supply
    }

    /// The balance of an account or contract; zero for one never credited.
    /// Other kinds of key are refused.
    pub fn balance_of(&self, account: &Key) -> (r: Result<U256, Revert>)
        requires
            self.wf(),
        ensures
            match r {
                Ok(v) => account.names_holder() && v.value() == self.balance(*account),
                Err(e) => !account.names_holder() && e == Revert::UnexpectedKeyVariant,
            },
    {
        let name = key_to_str(account)?;
        Ok(self.balances.get(&name))
    }

    /// What `spender` may still move out of `owner`'s balance; zero when never approved.
    pub fn allowance(&self, owner: &Key, spender: &Key) -> (r: U256)
        requires
            self.wf(),
        ensures
            r.value() == self.allowed(*owner, *spender),
    {
        self.allowances.get(&allowance_key(owner, spender))
    }

    /// The calling account lets `spender` move up to `amount` of its tokens,
    /// replacing any earlier allowance.
    pub fn approve(&mut self, caller: AccountHash, spender: Key, amount: U256)
        requires
            old(self).wf(),
        ensures
            final(self).wf(),
            Erc20::approved(old(self), final(self), caller, spender, amount.value()),
            final(self).balances@ == old(self).balances@,
            final(self).balances.total() == old(self).balances.total(),
            final(self).name == old(self).name,
            final(self).symbol == old(self).symbol,
            final(self).decimals == old(self).decimals,
            final(self).total_supply == old(self).total_supply,
            old(self).supply_matches() ==> final(self).supply_matches(),
    {
        self.allowances.set(allowance_key(&Key::Account(caller), &spender), amount);
    }

    /// The names and new amounts of a transfer, computed before anything is written.
    fn plan_transfer(&self, sender: &Key, recipient: &Key, amount: U256) -> (r: Result<
        (String, U256, String, U256),
        Revert,
    >)
        requires
            self.wf(),
        ensures
            match r {
                Ok((from, lowered, to, raised)) => {
                    &&& from@ == key_item_name(*sender)
                    &&& to@ == key_item_name(*recipient)
                    &&& lowered.value() + amount.value() == amount_at(self.balances@, from@)
                    &&& raised.value() == amount_at(
                        self.balances@.insert(from@, lowered.value()),
                        to@,
                    ) + amount.value()
                    &&& transfer_outcome(self.balances@, *sender, *recipient, amount.value()) == Ok::<
                        Map<Seq<char>, nat>,
                        Revert,
                    >(self.balances@.insert(from@, lowered.value()).insert(to@, raised.value()))
                },
                Err(e) => transfer_outcome(self.balances@, *sender, *recipient, amount.value()) == Err::<
                    Map<Seq<char>, nat>,
                    Revert,
                >(e),
            },
    {
        let from = key_to_str(sender)?;
        let held = self.balances.get(&from);
        let lowered = match checked_sub(held, amount) {
            Some(v) => v,
            None => return Err(Revert::ArithmeticOverflow),
        };
        let to = key_to_str(recipient)?;
        let ghost b1 = self.balances@.insert(from@, lowered.value());
        let current = if from == to {
            lowered
        } else {
            self.balances.get(&to)
        };
        assert(current.value() == amount_at(b1, to@));
        let raised = match checked_add(current, amount) {
            Some(v) => v,
            None => return Err(Revert::ArithmeticOverflow),
        };
        Ok((from, lowered, to, raised))
    }

    /// The caller moves `amount` of its own tokens to `recipient`. Refused,
    /// with nothing changed, where either key names neither an account nor a
    /// contract, the caller holds less than `amount`, or the recipient's
    /// balance would leave 256 bits.
    pub fn transfer(&mut self, caller: Key, recipient: Key, amount: U256) -> (r: Result<(), Revert>)
        requires
            old(self).wf(),
        ensures
            final(self).wf(),
            final(self).allowances@ == old(self).allowances@,
            final(self).name == old(self).name,
            final(self).symbol == old(self).symbol,
            final(self).decimals == old(self).decimals,
            final(self).total_supply == old(self).total_supply,
            final(self).balances.total() == old(self).balances.total(),
            old(self).supply_matches() ==> final(self).supply_matches(),
            caller.names_holder() && recipient.names_holder() && old(self).balance(caller) >= amount.value() && (
            key_item_name(caller) == key_item_name(recipient) || old(self).balance(recipient) + amount.value()
                < u256_modulus()) ==> r is Ok,
            match r {
                Ok(()) => transfer_outcome(old(self).balances@, caller, recipient, amount.value()) == Ok::<
                    Map<Seq<char>, nat>,
                    Revert,
                >(final(self).balances@),
                Err(e) => {
                    &&& transfer_outcome(old(self).balances@, caller, recipient, amount.value()) == Err::<
                        Map<Seq<char>, nat>,
                        Revert,
                    >(e)
                    &&& final(self).balances@ == old(self).balances@
                },
            },
    {
        proof {
            old(self).balances.lemma_amounts_fit();
            lemma_transfer_succeeds(old(self).balances@, caller, recipient, amount.value());
        }
        match self.plan_transfer(&caller, &recipient, amount) {
            Ok((from, lowered, to, raised)) => {
                self.balances.set(from, lowered);
                self.balances.set(to, raised);
                Ok(())
            },
            Err(e) => Err(e),
        }
    }

    /// The calling account moves `amount` of `owner`'s tokens to `recipient`,
    /// spending that much of the allowance that `owner` gave it. Refused, with
    /// nothing changed, where the transfer itself is refused or the allowance
    /// is below `amount`.
    pub fn transfer_from(&mut self, caller: AccountHash, owner: Key, recipient: Key, amount: U256)
        -> (r: Result<(), Revert>)
        requires
            old(self).wf(),
        ensures
            final(self).wf(),
            final(self).name == old(self).name,
            final(self).symbol == old(self).symbol,
            final(self).decimals == old(self).decimals,
            final(self).total_supply == old(self).total_supply,
            final(self).balances.total() == old(self).balances.total(),
            old(self).supply_matches() ==> final(self).supply_matches(),
            owner.names_holder() && recipient.names_holder() && old(self).balance(owner) >= amount.value() && (
            key_item_name(owner) == key_item_name(recipient) || old(self).balance(recipient) + amount.value()
                < u256_modulus()) && old(self).allowed(owner, Key::Account(caller)) >= amount.value() ==> r is Ok,
            match r {
                Ok(()) => {
                    &&& transfer_outcome(old(self).balances@, owner, recipient, amount.value()) == Ok::<
                        Map<Seq<char>, nat>,
                        Revert,
                    >(final(self).balances@)
                    &&& old(self).allowed(owner, Key::Account(caller)) >= amount.value()
                    &&& final(self).allowances@ == old(self).allowances@.insert(
                        allowance_name(owner, Key::Account(caller)),
                        (old(self).allowed(owner, Key::Account(caller)) - amount.value()) as nat,
                    )
                },
                Err(e) => {
                    &&& match transfer_outcome(old(self).balances@, owner, recipient, amount.value()) {
                        Err(t) => e == t,
                        Ok(_) => e == Revert::ArithmeticOverflow && old(self).allowed(
                            owner,
                            Key::Account(caller),
                        ) < amount.value(),
                    }
                    &&& final(self).balances@ == old(self).balances@
                    &&& final(self).allowances@ == old(self).allowances@
                },
            },
    {
        proof {
            old(self).balances.lemma_amounts_fit();
            lemma_transfer_succeeds(old(self).balances@, owner, recipient, amount.value());
        }
        let spender = Key::Account(caller);
        let key = allowance_key(&owner, &spender);
        let planned = self.plan_transfer(&owner, &recipient, amount);
        let allowed = self.allowances.get(&key);
        match planned {
            Err(e) => Err(e),
            Ok((from, lowered, to, raised)) => {
                match checked_sub(allowed, amount) {
                    None => Err(Revert::ArithmeticOverflow),
                    Some(rest) => {
                        self.balances.set(from, lowered);
                        self.balances.set(to, raised);
                        self.allowances.set(key, rest);
                        Ok(())
                    },
                }
            },
        }
    }
}

/// A transfer between two balance holders succeeds whenever the sender holds
/// the amount and, unless it is a transfer to oneself, the recipient's balance
/// stays below 2^256.
pub proof fn lemma_transfer_succeeds(balances: Map<Seq<char>, nat>, sender: Key, recipient: Key, amount: nat)
    ensures
        sender.names_holder() && recipient.names_holder() && amount_at(balances, key_item_name(sender))
            >= amount && amount_at(balances, key_item_name(sender)) < u256_modulus() && (key_item_name(sender) == key_item_name(recipient) || amount_at(
            balances,
            key_item_name(recipient),
        ) + amount < u256_modulus()) ==> transfer_outcome(balances, sender, recipient, amount) is Ok,
{
}

/// A transfer takes `amount` from the sender's entry, adds it to the
/// recipient's entry and leaves every other entry as it was; a transfer to
/// oneself changes no balance.
pub proof fn lemma_transfer_moves_exactly(
    balances: Map<Seq<char>, nat>,
    from: Seq<char>,
    to: Seq<char>,
    amount: nat,
)
    requires
        moved(balances, from, to, amount) is Some,
    ensures
        ({
            let after = moved(balances, from, to, amount).unwrap();
            &&& from != to ==> amount_at(after, from) + amount == amount_at(balances, from)
            &&& from != to ==> amount_at(after, to) == amount_at(balances, to) + amount
            &&& from != to ==> amount_at(after, from) + amount_at(after, to) == amount_at(
                balances,
                from,
            ) + amount_at(balances, to)
            &&& from == to ==> amount_at(after, from) == amount_at(balances, from)
            &&& forall|n: Seq<char>| n != from && n != to ==> amount_at(after, n) == amount_at(balances, n)
        }),
{
}

/// What an approval sets is what `allowance` then reads, and no other
/// allowance changes.
pub proof fn lemma_allowance_reads_approval(
    old: &Erc20,
    new: &Erc20,
    caller: AccountHash,
    spender: Key,
    amount: nat,
)
    requires
        Erc20::approved(old, new, caller, spender, amount),
    ensures
        new.allowed(Key::Account(caller), spender) == amount,
        forall|o: Key, s: Key|
            allowance_name(o, s) != allowance_name(Key::Account(caller), spender) ==> new.allowed(o, s)
                == old.allowed(o, s),
{
}

/// A transfer on someone's behalf lowers the spender's allowance by exactly
/// the amount moved.
pub proof fn lemma_transfer_from_spends_allowance(
    old: &Erc20,
    new: &Erc20,
    caller: AccountHash,
    owner: Key,
    amount: nat,
)
    requires
        old.allowed(owner, Key::Account(caller)) >= amount,
        new.allowances@ == old.allowances@.insert(
            allowance_name(owner, Key::Account(caller)),
            (old.allowed(owner, Key::Account(caller)) - amount) as nat,
        ),
    ensures
        new.allowed(owner, Key::Account(caller)) + amount == old.allowed(owner, Key::Account(caller)),
{
}

} // verus!
