//! 256-bit unsigned amounts, held as four little-endian 64-bit words.
//!
//! Comparisons and small conversions are written here against their one-line
//! specifications; the arithmetic itself is delegated to `casper_types::U256`
//! through the checked operations below.
use vstd::prelude::*;
use crate::error::Revert;

verus! {

/// 2^64, the weight of the second word.
pub open spec fn word_base() -> nat {
    0x1_0000_0000_0000_0000nat
}

/// 2^128, the weight of the third word.
pub open spec fn word_base2() -> nat {
    0x1_0000_0000_0000_0000_0000_0000_0000_0000nat
}

/// 2^192, the weight of the fourth word.
pub open spec fn word_base3() -> nat {
    0x1_0000_0000_0000_0000_0000_0000_0000_0000_0000_0000_0000_0000nat
}

/// 2^256: every `U256` value lies strictly below it.
pub open spec fn u256_modulus() -> nat {
    0x1_0000_0000_0000_0000_0000_0000_0000_0000_0000_0000_0000_0000_0000_0000_0000_0000nat
}

/// Addition as the contracts perform it: `None` where the sum leaves 256 bits.
pub open spec fn add_checked(a: nat, b: nat) -> Option<nat> {
    if a + b < u256_modulus() { Some(a + b) } else { None }
}

/// Subtraction as the contracts perform it: `None` where it would go below zero.
pub open spec fn sub_checked(a: nat, b: nat) -> Option<nat> {
    if a >= b { Some((a - b) as nat) } else { None }
}

/// Multiplication as the contracts perform it: `None` where the product leaves 256 bits.
pub open spec fn mul_checked(a: nat, b: nat) -> Option<nat> {
    if a * b < u256_modulus() { Some(a * b) } else { None }
}

/// Division as the contracts perform it: `None` on a zero divisor.
pub open spec fn div_checked(a: nat, b: nat) -> Option<nat> {
    if b > 0 { Some(a / b) } else { None }
}

/// A sum as a contract call computes it: refused where it leaves 256 bits.
pub open spec fn sum(a: nat, b: nat) -> Result<nat, Revert> {
    if a + b < u256_modulus() { Ok(a + b) } else { Err(Revert::ArithmeticOverflow) }
}

/// A difference as a contract call computes it: refused below zero.
pub open spec fn difference(a: nat, b: nat) -> Result<nat, Revert> {
    if a >= b { Ok((a - b) as nat) } else { Err(Revert::ArithmeticOverflow) }
}

/// A product as a contract call computes it: refused where it leaves 256 bits.
pub open spec fn product(a: nat, b: nat) -> Result<nat, Revert> {
    if a * b < u256_modulus() { Ok(a * b) } else { Err(Revert::ArithmeticOverflow) }
}

/// A quotient as a contract call computes it, rounded down: refused on a zero divisor.
pub open spec fn quotient(a: nat, b: nat) -> Result<nat, Revert> {
    if b > 0 { Ok(a / b) } else { Err(Revert::DivisionByZero) }
}

/// The number that an outcome stands for, or the refusal.
pub open spec fn amount_of(r: Result<U256, Revert>) -> Result<nat, Revert> {
    match r {
        Ok(c) => Ok(c.value()),
        Err(e) => Err(e),
    }
}

/// An unsigned 256-bit integer: `w0` is the least significant word.
#[derive(Clone, Copy, PartialEq, Eq, Structural, Debug)]
pub struct U256 {
    pub w0: u64,
    pub w1: u64,
    pub w2: u64,
    pub w3: u64,
}

impl U256 {
    /// The number that the four words stand for.
    pub open spec fn value(&self) -> nat {
        self.w0 as nat + self.w1 as nat * word_base() + self.w2 as nat * word_base2()
            + self.w3 as nat * word_base3()
    }

    /// Zero.
    pub fn zero() -> (r: U256)
        ensures
            r.value() == 0,
    {
        U256 { w0: 0, w1: 0, w2: 0, w3: 0 }
    }

    /// The value of a `u64`, as `U256::from(u64)` builds it.
    pub fn from_u64(x: u64) -> (r: U256)
        ensures
            r.value() == x,
    {
        U256 { w0: x, w1: 0, w2: 0, w3: 0 }
    }

    /// Whether the value is zero.
    pub fn is_zero(&self) -> (r: bool)
        ensures
            r == (self.value() == 0),
    {
        self.w0 == 0 && self.w1 == 0 && self.w2 == 0 && self.w3 == 0
    }

    /// Numeric equality.
    pub fn same(&self, other: &U256) -> (r: bool)
        ensures
            r == (self.value() == other.value()),
    {
        proof {
            lemma_value_determines_words(*self, *other);
        }
        self.w0 == other.w0 && self.w1 == other.w1 && self.w2 == other.w2 && self.w3 == other.w3
    }

    /// Strict numeric order.
    pub fn lt(&self, other: &U256) -> (r: bool)
        ensures
            r == (self.value() < other.value()),
    {
        proof {
            lemma_value_order(*self, *other);
        }
        if self.w3 != other.w3 {
            self.w3 < other.w3
        } else if self.w2 != other.w2 {
            self.w2 < other.w2
        } else if self.w1 != other.w1 {
            self.w1 < other.w1
        } else {
            self.w0 < other.w0
        }
    }

    /// Addition that refuses to overflow.
    pub fn try_add(self, other: U256) -> (r: Result<U256, Revert>)
        ensures
            amount_of(r) == sum(self.value(), other.value()),
    {
        match checked_add(self, other) {
            Some(c) => Ok(c),
            None => Err(Revert::ArithmeticOverflow),
        }
    }

    /// Subtraction that refuses to go below zero.
    pub fn try_sub(self, other: U256) -> (r: Result<U256, Revert>)
        ensures
            amount_of(r) == difference(self.value(), other.value()),
    {
        match checked_sub(self, other) {
            Some(c) => Ok(c),
            None => Err(Revert::ArithmeticOverflow),
        }
    }

    /// Multiplication that refuses to overflow.
    pub fn try_mul(self, other: U256) -> (r: Result<U256, Revert>)
        ensures
            amount_of(r) == product(self.value(), other.value()),
    {
        match checked_mul(self, other) {
            Some(c) => Ok(c),
            None => Err(Revert::ArithmeticOverflow),
        }
    }

    /// Division, rounded down, that refuses a zero divisor.
    pub fn try_div(self, other: U256) -> (r: Result<U256, Revert>)
        ensures
            amount_of(r) == quotient(self.value(), other.value()),
    {
        match checked_div(self, other) {
            Some(c) => Ok(c),
            None => Err(Revert::DivisionByZero),
        }
    }

    /// Non-strict numeric order.
    pub fn le(&self, other: &U256) -> (r: bool)
        ensures
            r == (self.value() <= other.value()),
    {
        !other.lt(self)
    }
}

/// The smaller of two amounts.
pub fn min(a: U256, b: U256) -> (r: U256)
    ensures
        r.value() == if a.value() <= b.value() { a.value() } else { b.value() },
        r == a || r == b,
{
    if a.lt(&b) { a } else { b }
}

/// Every value is below 2^256.
pub proof fn lemma_value_bound(a: U256)
    ensures
        a.value() < u256_modulus(),
{
    lemma_low_parts(a);
    assert(a.value() < u256_modulus()) by (nonlinear_arith)
        requires
            a.w0 as nat + a.w1 as nat * word_base() + a.w2 as nat * word_base2() < word_base3(),
            a.w3 < word_base(),
            u256_modulus() == word_base3() * word_base(),
            a.value() == a.w0 as nat + a.w1 as nat * word_base() + a.w2 as nat * word_base2()
                + a.w3 as nat * word_base3();
}

/// The low words of a value stay below the weight of the next word.
proof fn lemma_low_parts(a: U256)
    ensures
        a.w0 as nat + a.w1 as nat * word_base() < word_base2(),
        a.w0 as nat + a.w1 as nat * word_base() + a.w2 as nat * word_base2() < word_base3(),
{
    assert(a.w0 as nat + a.w1 as nat * word_base() < word_base2()) by (nonlinear_arith)
        requires a.w0 < word_base(), a.w1 < word_base(), word_base2() == word_base() * word_base();
    assert(a.w0 as nat + a.w1 as nat * word_base() + a.w2 as nat * word_base2() < word_base3()) by (nonlinear_arith)
        requires
            a.w0 as nat + a.w1 as nat * word_base() < word_base2(),
            a.w2 < word_base(),
            word_base3() == word_base2() * word_base();
}

/// The order of values is the lexicographic order of the words, highest first.
proof fn lemma_value_order(a: U256, b: U256)
    ensures
        a.w3 != b.w3 ==> (a.value() < b.value() <==> a.w3 < b.w3),
        a.w3 == b.w3 && a.w2 != b.w2 ==> (a.value() < b.value() <==> a.w2 < b.w2),
        a.w3 == b.w3 && a.w2 == b.w2 && a.w1 != b.w1 ==> (a.value() < b.value() <==> a.w1 < b.w1),
        a.w3 == b.w3 && a.w2 == b.w2 && a.w1 == b.w1 ==> (a.value() < b.value() <==> a.w0 < b.w0),
{
    lemma_low_parts(a);
    lemma_low_parts(b);
    let la = a.w0 as nat + a.w1 as nat * word_base() + a.w2 as nat * word_base2();
    let lb = b.w0 as nat + b.w1 as nat * word_base() + b.w2 as nat * word_base2();
    if a.w3 < b.w3 {
        assert(a.w3 as nat * word_base3() + word_base3() <= b.w3 as nat * word_base3()) by (nonlinear_arith)
            requires a.w3 < b.w3;
    } else if b.w3 < a.w3 {
        assert(b.w3 as nat * word_base3() + word_base3() <= a.w3 as nat * word_base3()) by (nonlinear_arith)
            requires b.w3 < a.w3;
    } else if a.w2 < b.w2 {
        assert(a.w2 as nat * word_base2() + word_base2() <= b.w2 as nat * word_base2()) by (nonlinear_arith)
            requires a.w2 < b.w2;
    } else if b.w2 < a.w2 {
        assert(b.w2 as nat * word_base2() + word_base2() <= a.w2 as nat * word_base2()) by (nonlinear_arith)
            requires b.w2 < a.w2;
    } else if a.w1 < b.w1 {
        assert(a.w1 as nat * word_base() + word_base() <= b.w1 as nat * word_base()) by (nonlinear_arith)
            requires a.w1 < b.w1;
    } else if b.w1 < a.w1 {
        assert(b.w1 as nat * word_base() + word_base() <= a.w1 as nat * word_base()) by (nonlinear_arith)
            requires b.w1 < a.w1;
    }
}

/// Two amounts with the same value have the same words.
pub proof fn lemma_value_determines_words(a: U256, b: U256)
    ensures
        a.value() == b.value() <==> a == b,
{
    lemma_value_order(a, b);
    lemma_value_order(b, a);
}

/// `casper_types::U256::checked_add`: the sum where it fits in 256 bits, `None`
/// where the addition overflows.
#[verifier::external_body]
pub(crate) fn checked_add(a: U256, b: U256) -> (r: Option<U256>)
    ensures
        r matches Some(c) ==> Some(c.value()) == add_checked(a.value(), b.value()),
        r is None ==> add_checked(a.value(), b.value()) is None,
{
    let x = casper_types::U256([a.w0, a.w1, a.w2, a.w3]);
    let y = casper_types::U256([b.w0, b.w1, b.w2, b.w3]);
    match x.checked_add(y) {
        Some(c) => Some(U256 { w0: c.0[0], w1: c.0[1], w2: c.0[2], w3: c.0[3] }),
        None => None,
    }
}

/// `casper_types::U256::checked_sub`: the difference where `a >= b`, `None`
/// where the subtraction underflows.
#[verifier::external_body]
pub(crate) fn checked_sub(a: U256, b: U256) -> (r: Option<U256>)
    ensures
        r matches Some(c) ==> Some(c.value()) == sub_checked(a.value(), b.value()),
        r is None ==> sub_checked(a.value(), b.value()) is None,
{
    let x = casper_types::U256([a.w0, a.w1, a.w2, a.w3]);
    let y = casper_types::U256([b.w0, b.w1, b.w2, b.w3]);
    match x.checked_sub(y) {
        Some(c) => Some(U256 { w0: c.0[0], w1: c.0[1], w2: c.0[2], w3: c.0[3] }),
        None => None,
    }
}

/// `casper_types::U256::checked_mul`: the product where it fits in 256 bits,
/// `None` where the multiplication overflows.
#[verifier::external_body]
pub(crate) fn checked_mul(a: U256, b: U256) -> (r: Option<U256>)
    ensures
        r matches Some(c) ==> Some(c.value()) == mul_checked(a.value(), b.value()),
        r is None ==> mul_checked(a.value(), b.value()) is None,
{
    let x = casper_types::U256([a.w0, a.w1, a.w2, a.w3]);
    let y = casper_types::U256([b.w0, b.w1, b.w2, b.w3]);
    match x.checked_mul(y) {
        Some(c) => Some(U256 { w0: c.0[0], w1: c.0[1], w2: c.0[2], w3: c.0[3] }),
        None => None,
    }
}

/// `casper_types::U256::checked_div`: the quotient rounded down, `None` on a
/// zero divisor.
#[verifier::external_body]
pub(crate) fn checked_div(a: U256, b: U256) -> (r: Option<U256>)
    ensures
        r matches Some(c) ==> Some(c.value()) == div_checked(a.value(), b.value()),
        r is None ==> div_checked(a.value(), b.value()) is None,
{
    let x = casper_types::U256([a.w0, a.w1, a.w2, a.w3]);
    let y = casper_types::U256([b.w0, b.w1, b.w2, b.w3]);
    match x.checked_div(y) {
        Some(c) => Some(U256 { w0: c.0[0], w1: c.0[1], w2: c.0[2], w3: c.0[3] }),
        None => None,
    }
}

} // verus!
