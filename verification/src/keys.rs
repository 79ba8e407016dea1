//! Account and contract identities, keys, and the storage names derived from them.
use vstd::prelude::*;
use casper_types::account::AccountHash as HostAccountHash;
use crate::error::Revert;
use casper_types::{AccessRights, DeployHash, Key as HostKey, TransferAddr, URef};

verus! {

/// The hash of an account: 32 bytes.
#[derive(Clone, Copy, Debug)]
pub struct AccountHash(pub [u8; 32]);

/// The hash of a stored contract: 32 bytes.
#[derive(Clone, Copy, Debug)]
pub struct ContractHash(pub [u8; 32]);

/// A key under which data is kept on the network.
#[derive(Clone, Copy, Debug)]
pub enum Key {
    /// An account.
    Account(AccountHash),
    /// A stored contract.
    Hash([u8; 32]),
    /// An unforgeable reference: its address and its access-right bits.
    URef([u8; 32], u8),
    /// A transfer.
    Transfer([u8; 32]),
    /// A deploy's information, by the deploy hash.
    DeployInfo([u8; 32]),
    /// An era's information, by the era number.
    EraInfo(u64),
    /// A purse balance, by the purse address.
    Balance([u8; 32]),
    /// An account's bid, by the account hash.
    Bid([u8; 32]),
    /// An account's unbonding, by the account hash.
    Withdraw([u8; 32]),
    /// A dictionary item.
    Dictionary([u8; 32]),
    /// The registry of system contracts.
    SystemContractRegistry,
}

/// One frame of the call stack, innermost last.
#[derive(Clone, Copy, Debug)]
pub enum CallFrame {
    Session { account_hash: AccountHash },
    StoredSession {
        account_hash: AccountHash,
        contract_package_hash: [u8; 32],
        contract_hash: ContractHash,
    },
    StoredContract { contract_package_hash: [u8; 32], contract_hash: ContractHash },
}

/// The hash made of 32 zero bytes, which stands for "nobody".
pub open spec fn zero_bytes() -> Seq<u8> {
    Seq::new(32, |i: int| 0u8)
}

/// The account made of 32 zero bytes, which stands for "no account".
pub open spec fn nobody() -> AccountHash {
    AccountHash(vstd::array::spec_array_fill_for_copy_type::<u8, 32>(0u8))
}

impl AccountHash {
    /// The account hash made of 32 zero bytes.
    pub fn zero() -> (r: AccountHash)
        ensures
            r.0@ == zero_bytes(),
            r == nobody(),
    {
        let r = AccountHash([0u8; 32]);
        assert(r.0@ =~= zero_bytes());
        r
    }

    /// Byte-wise equality.
    pub fn same(&self, other: &AccountHash) -> (r: bool)
        ensures
            r == (self.0@ == other.0@),
    {
        bytes_equal(&self.0, &other.0)
    }
}

impl ContractHash {
    /// The contract hash made of 32 zero bytes.
    pub fn zero() -> (r: ContractHash)
        ensures
            r.0@ == zero_bytes(),
    {
        let r = ContractHash([0u8; 32]);
        assert(r.0@ =~= zero_bytes());
        r
    }

    /// Byte-wise equality.
    pub fn same(&self, other: &ContractHash) -> (r: bool)
        ensures
            r == (self.0@ == other.0@),
    {
        bytes_equal(&self.0, &other.0)
    }
}

impl Key {
    /// Whether the key names an account or a contract, the two kinds that hold balances.
    pub open spec fn names_holder(self) -> bool {
        self is Account || self is Hash
    }

    /// The 32 bytes of an account or contract key.
    pub open spec fn bytes(self) -> Seq<u8> {
        match self {
            Key::Account(a) => a.0@,
            Key::Hash(h) => h@,
            _ => Seq::empty(),
        }
    }

    /// The key names the contract with these bytes.
    pub open spec fn names_contract(self, h: Seq<u8>) -> bool {
        self matches Key::Hash(x) && x@ == h
    }

    /// Whether the key names the contract with these bytes.
    pub fn is_contract(&self, h: &[u8; 32]) -> (r: bool)
        ensures
            r == self.names_contract(h@),
    {
        match self {
            Key::Hash(x) => bytes_equal(x, h),
            _ => false,
        }
    }
}

/// Byte-wise equality of two 32-byte hashes.
pub fn bytes_equal(a: &[u8; 32], b: &[u8; 32]) -> (r: bool)
    ensures
        r == (a@ == b@),
{
    let mut i: usize = 0;
    while i < 32
        invariant
            0 <= i <= 32,
            a@.len() == 32,
            b@.len() == 32,
            forall|j: int| 0 <= j < i ==> a@[j] == b@[j],
        decreases 32 - i,
    {
        if a[i] != b[i] {
            return false;
        }
        i = i + 1;
    }
    assert(a@ =~= b@);
    true
}

/// The lower-case hexadecimal digit of a number below 16.
pub open spec fn hex_digit(n: int) -> char {
    seq!['0', '1', '2', '3', '4', '5', '6', '7', '8', '9', 'a', 'b', 'c', 'd', 'e', 'f'][n]
}

/// Lower-case hexadecimal text of a byte string, two digits per byte, high nibble first.
pub open spec fn lower_hex(b: Seq<u8>) -> Seq<char>
    decreases b.len(),
{
    if b.len() == 0 {
        Seq::empty()
    } else {
        seq![hex_digit(b[0] as int / 16), hex_digit(b[0] as int % 16)] + lower_hex(b.drop_first())
    }
}

/// The decimal digit of a number below 10.
pub open spec fn decimal_digit(n: int) -> char {
    seq!['0', '1', '2', '3', '4', '5', '6', '7', '8', '9'][n]
}

/// The decimal text of a number, without leading zeros.
pub open spec fn decimal(n: nat) -> Seq<char>
    decreases n,
{
    if n < 10 {
        seq![decimal_digit(n as int)]
    } else {
        decimal(n / 10) + seq![decimal_digit((n % 10) as int)]
    }
}

/// The text of a set of access rights, given by its three low bits.
pub open spec fn rights_text(bits: int) -> Seq<char> {
    if bits == 0 {
        seq!['N', 'O', 'N', 'E']
    } else if bits == 1 {
        seq!['R', 'E', 'A', 'D']
    } else if bits == 2 {
        seq!['W', 'R', 'I', 'T', 'E']
    } else if bits == 3 {
        seq!['R', 'E', 'A', 'D', '_', 'W', 'R', 'I', 'T', 'E']
    } else if bits == 4 {
        seq!['A', 'D', 'D']
    } else if bits == 5 {
        seq!['R', 'E', 'A', 'D', '_', 'A', 'D', 'D']
    } else if bits == 6 {
        seq!['A', 'D', 'D', '_', 'W', 'R', 'I', 'T', 'E']
    } else {
        seq!['R', 'E', 'A', 'D', '_', 'A', 'D', 'D', '_', 'W', 'R', 'I', 'T', 'E']
    }
}

/// `Key::` followed by the name of a kind and an opening bracket.
pub open spec fn key_prefix(kind: Seq<char>) -> Seq<char> {
    seq!['K', 'e', 'y', ':', ':'] + kind + seq!['(']
}

/// The text by which a key is displayed: `Key::<kind>(<content>)`, the
/// content being the hexadecimal text of the bytes, the era as `era <n>`, or
/// for a reference its address and access rights separated by `, `.
pub open spec fn key_text(k: Key) -> Seq<char> {
    match k {
        Key::Account(a) => key_prefix(seq!['A', 'c', 'c', 'o', 'u', 'n', 't']) + lower_hex(a.0@) + seq![')'],
        Key::Hash(h) => key_prefix(seq!['H', 'a', 's', 'h']) + lower_hex(h@) + seq![')'],
        Key::URef(addr, bits) => key_prefix(seq!['U', 'R', 'e', 'f']) + lower_hex(addr@) + seq![',', ' ']
            + rights_text(bits as int % 8) + seq![')'],
        Key::Transfer(t) => key_prefix(seq!['T', 'r', 'a', 'n', 's', 'f', 'e', 'r']) + lower_hex(t@) + seq![')'],
        Key::DeployInfo(d) => key_prefix(seq!['D', 'e', 'p', 'l', 'o', 'y', 'I', 'n', 'f', 'o']) + lower_hex(d@)
            + seq![')'],
        Key::EraInfo(e) => key_prefix(seq!['E', 'r', 'a', 'I', 'n', 'f', 'o']) + seq!['e', 'r', 'a', ' ']
            + decimal(e as nat) + seq![')'],
        Key::Balance(b) => key_prefix(seq!['B', 'a', 'l', 'a', 'n', 'c', 'e']) + lower_hex(b@) + seq![')'],
        Key::Bid(a) => key_prefix(seq!['B', 'i', 'd']) + lower_hex(a@) + seq![')'],
        Key::Withdraw(a) => key_prefix(seq!['W', 'i', 't', 'h', 'd', 'r', 'a', 'w']) + lower_hex(a@) + seq![')'],
        Key::Dictionary(d) => key_prefix(seq!['D', 'i', 'c', 't', 'i', 'o', 'n', 'a', 'r', 'y']) + lower_hex(d@)
            + seq![')'],
        Key::SystemContractRegistry => key_prefix(
            seq!['S', 'y', 's', 't', 'e', 'm', 'C', 'o', 'n', 't', 'r', 'a', 'c', 't', 'R', 'e', 'g', 'i', 's', 't', 'r', 'y'],
        ) + lower_hex(zero_bytes()) + seq![')'],
    }
}

/// The dictionary item name under which a key's balance is kept: the hexadecimal
/// text of its bytes, so that an account and a contract with the same 32 bytes
/// share one entry.
pub open spec fn key_item_name(k: Key) -> Seq<char> {
    lower_hex(k.bytes())
}

/// The dictionary item name under which an account's entries are kept.
pub open spec fn account_item_name(a: AccountHash) -> Seq<char> {
    lower_hex(a.0@)
}

/// The prefix of every allowance name.
pub open spec fn allowance_prefix() -> Seq<char> {
    seq!['a', 'l', 'l', 'o', 'w', 'a', 'n', 'c', 'e', 's', '_']
}

/// The name under which the allowance of `spender` over `owner`'s tokens is kept.
pub open spec fn allowance_name(owner: Key, spender: Key) -> Seq<char> {
    allowance_prefix() + key_text(owner) + seq!['_'] + key_text(spender)
}

/// `hex::encode`: the lower-case hexadecimal text of the bytes.
#[verifier::external_body]
fn hex_encode(bytes: [u8; 32]) -> (s: String)
    ensures
        s@ == lower_hex(bytes@),
{
    hex::encode(bytes)
}

/// `ToString` through `Display` of `casper_types::account::AccountHash`, which
/// writes the lower-case hexadecimal text of the 32 bytes.
#[verifier::external_body]
fn account_hash_text(a: AccountHash) -> (s: String)
    ensures
        s@ == lower_hex(a.0@),
{
    HostAccountHash::new(a.0).to_string()
}

/// `ToString` through `Display` of `casper_types::Key`, which writes
/// `Key::<kind>(<content>)` as `key_text` states; a reference's access rights
/// are those of its three low bits (`AccessRights::from_bits_truncate`).
#[verifier::external_body]
fn key_display(k: Key) -> (s: String)
    ensures
        s@ == key_text(k),
{
    match k {
        Key::Account(a) => HostKey::Account(HostAccountHash::new(a.0)),
        Key::Hash(h) => HostKey::Hash(h),
        Key::URef(a, r) => HostKey::URef(URef::new(a, AccessRights::from_bits_truncate(r))),
        Key::Transfer(t) => HostKey::Transfer(TransferAddr::new(t)),
        Key::DeployInfo(d) => HostKey::DeployInfo(DeployHash::new(d)),
        Key::EraInfo(e) => HostKey::EraInfo(e.into()),
        Key::Balance(b) => HostKey::Balance(b),
        Key::Bid(a) => HostKey::Bid(HostAccountHash::new(a)),
        Key::Withdraw(a) => HostKey::Withdraw(HostAccountHash::new(a)),
        Key::Dictionary(d) => HostKey::Dictionary(d),
        Key::SystemContractRegistry => HostKey::SystemContractRegistry
    }.to_string()
}

/// The dictionary item name of a key (`key_to_str`): the account hash's text
/// for an account key, the hexadecimal encoding of the bytes for a hash key;
/// any other kind of key is refused.
pub fn key_to_str(key: &Key) -> (r: Result<String, Revert>)
    ensures
        match r {
            Ok(s) => key.names_holder() && s@ == key_item_name(*key),
            Err(e) => !key.names_holder() && e == Revert::UnexpectedKeyVariant,
        },
{
    match key {
        Key::Account(account) => Ok(account_hash_text(*account)),
        Key::Hash(package) => Ok(hex_encode(*package)),
        _ => Err(Revert::UnexpectedKeyVariant),
    }
}

/// The dictionary item name of an account (`account.to_string()`).
pub fn account_to_str(account: &AccountHash) -> (s: String)
    ensures
        s@ == account_item_name(*account),
{
    account_hash_text(*account)
}

/// The named key under which an allowance is kept: `allowances_<owner>_<spender>`.
pub fn allowance_key(owner: &Key, spender: &Key) -> (s: String)
    ensures
        s@ == allowance_name(*owner, *spender),
{
    let o = key_display(*owner);
    let p = key_display(*spender);
    let mut s = String::new();
    s.append("allowances_");
    s.append(o.as_str());
    s.append("_");
    s.append(p.as_str());
    proof {
        reveal_strlit("allowances_");
        reveal_strlit("_");
        assert("allowances_"@ =~= allowance_prefix());
        assert("_"@ =~= seq!['_']);
    }
    s
}

/// The caller as the contract sees it: the frame just below the innermost one
/// (which is the running contract itself). An account session gives its account,
/// a stored contract gives its contract hash. A stack of fewer than two frames
/// has no caller.
pub open spec fn caller_of(stack: Seq<CallFrame>) -> Option<Key> {
    if stack.len() < 2 {
        None
    } else {
        Some(
            match stack[stack.len() - 2] {
                CallFrame::Session { account_hash } => Key::Account(account_hash),
                CallFrame::StoredSession { account_hash, .. } => Key::Account(account_hash),
                CallFrame::StoredContract { contract_hash, .. } => Key::Hash(contract_hash.0),
            },
        )
    }
}

/// The caller from the call stack (`get_caller`): drop the innermost frame and
/// take the next one; `None` (the contract reverts) when there is none.
pub fn caller_from_call_stack(stack: Vec<CallFrame>) -> (r: Option<Key>)
    ensures
        r == caller_of(stack@),
{
    let mut callstack = stack;
    let ghost s0 = callstack@;
    let _ = callstack.pop();
    if callstack.len() == 0 {
        return None;
    }
    let frame = callstack[callstack.len() - 1];
    assert(s0.len() >= 2 && frame == s0[s0.len() - 2]);
    match frame {
        CallFrame::Session { account_hash } => Some(Key::Account(account_hash)),
        CallFrame::StoredSession { account_hash, .. } => Some(Key::Account(account_hash)),
        CallFrame::StoredContract { contract_hash, .. } => Some(Key::Hash(contract_hash.0)),
    }
}

} // verus!
