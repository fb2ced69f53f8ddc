use vstd::prelude::*;

verus! {

/// 2^256: every `U256` is below it.
pub open spec fn u256_modulus() -> nat {
    0x1_0000_0000_0000_0000_0000_0000_0000_0000_0000_0000_0000_0000_0000_0000_0000_0000_0000_0000_0000_0000nat
}

/// The largest value a `U256` holds.
pub open spec fn u256_max() -> nat {
    (u256_modulus() - 1) as nat
}

/// An unsigned 256-bit integer held as four 64-bit words, least significant first.
#[derive(Clone, Copy, Debug, PartialEq, Eq, Structural)]
pub struct U256 {
    pub w0: u64,
    pub w1: u64,
    pub w2: u64,
    pub w3: u64,
}

impl View for U256 {
    type V = nat;

    open spec fn view(&self) -> nat {
        (self.w0 as nat) + (self.w1 as nat) * 0x1_0000_0000_0000_0000nat + (self.w2 as nat)
            * 0x1_0000_0000_0000_0000_0000_0000_0000_0000nat + (self.w3 as nat)
            * 0x1_0000_0000_0000_0000_0000_0000_0000_0000_0000_0000_0000_0000nat
    }
}

impl U256 {
    /// Zero.
    pub fn zero() -> (r: U256)
        ensures
            r@ == 0,
    {
        U256 { w0: 0, w1: 0, w2: 0, w3: 0 }
    }

    /// The value of a `u64`.
    pub fn from_u64(x: u64) -> (r: U256)
        ensures
            r@ == x,
    {
        U256 { w0: x, w1: 0, w2: 0, w3: 0 }
    }

    /// The value of a `u128`.
    pub fn from_u128(x: u128) -> (r: U256)
        ensures
            r@ == x,
    {
        let lo: u64 = (x % 0x1_0000_0000_0000_0000u128) as u64;
        let hi: u64 = (x / 0x1_0000_0000_0000_0000u128) as u64;
        U256 { w0: lo, w1: hi, w2: 0, w3: 0 }
    }

    /// Whether the value is zero.
    pub fn is_zero(&self) -> (r: bool)
        ensures
            r == (self@ == 0),
    {
        self.w0 == 0 && self.w1 == 0 && self.w2 == 0 && self.w3 == 0
    }

    /// Whether the value fits in a `u64`.
    pub fn fits_u64(&self) -> (r: bool)
        ensures
            r == (self@ <= u64::MAX),
    {
        self.w1 == 0 && self.w2 == 0 && self.w3 == 0
    }

    /// The value as a `u64`; it must fit.
    pub fn as_u64(&self) -> (r: u64)
        requires
            self@ <= u64::MAX,
        ensures
            r == self@,
    {
        self.w0
    }

    /// Whether the value fits in a `u128`.
    pub fn fits_u128(&self) -> (r: bool)
        ensures
            r == (self@ <= u128::MAX),
    {
        self.w2 == 0 && self.w3 == 0
    }

    /// The value as a `u128`; it must fit.
    pub fn as_u128(&self) -> (r: u128)
        requires
            self@ <= u128::MAX,
        ensures
            r == self@,
    {
        let lo: u128 = self.w0 as u128;
        let hi: u128 = self.w1 as u128;
        assert(hi * 0x1_0000_0000_0000_0000u128 + lo <= u128::MAX) by (nonlinear_arith)
            requires
                hi <= u64::MAX,
                lo <= u64::MAX,
        ;
        hi * 0x1_0000_0000_0000_0000u128 + lo
    }

    /// Value equality.
    pub fn eq(&self, other: &U256) -> (r: bool)
        ensures
            r == (self@ == other@),
    {
        self.w0 == other.w0 && self.w1 == other.w1 && self.w2 == other.w2 && self.w3 == other.w3
    }

    /// Strictly less than.
    pub fn lt(&self, other: &U256) -> (r: bool)
        ensures
            r == (self@ < other@),
    {
        if self.w3 != other.w3 {
            self.w3 < other.w3
        } else if self.w2 != other.w2 {
            self.w2 < other.w2
        } else if self.w1 != other.w1 {
            self.w1 < other.w1
        } else {
            self.w0 < other.w0
        }
    }

    /// Less than or equal.
    pub fn le(&self, other: &U256) -> (r: bool)
        ensures
            r == (self@ <= other@),
    {
        !other.lt(self)
    }

    /// Strictly greater than.
    pub fn gt(&self, other: &U256) -> (r: bool)
        ensures
            r == (self@ > other@),
    {
        other.lt(self)
    }

    /// Greater than or equal.
    pub fn ge(&self, other: &U256) -> (r: bool)
        ensures
            r == (self@ >= other@),
    {
        !self.lt(other)
    }
}

/// `casper_types::U256::checked_add`: the sum, or `None` past 2^256 - 1.
#[verifier::external_body]
pub(crate) fn u256_checked_add(a: U256, b: U256) -> (r: Option<U256>)
    ensures
        r is Some <==> a@ + b@ <= u256_max(),
        r matches Some(v) ==> v@ == a@ + b@,
{
    let x = casper_types::U256([a.w0, a.w1, a.w2, a.w3]);
    let y = casper_types::U256([b.w0, b.w1, b.w2, b.w3]);
    match x.checked_add(y) {
        Some(v) => Some(U256 { w0: v.0[0], w1: v.0[1], w2: v.0[2], w3: v.0[3] }),
        None => None,
    }
}

/// `casper_types::U256::checked_sub`: the difference, or `None` below zero.
#[verifier::external_body]
pub(crate) fn u256_checked_sub(a: U256, b: U256) -> (r: Option<U256>)
    ensures
        r is Some <==> b@ <= a@,
        r matches Some(v) ==> v@ == a@ - b@,
{
    let x = casper_types::U256([a.w0, a.w1, a.w2, a.w3]);
    let y = casper_types::U256([b.w0, b.w1, b.w2, b.w3]);
    match x.checked_sub(y) {
        Some(v) => Some(U256 { w0: v.0[0], w1: v.0[1], w2: v.0[2], w3: v.0[3] }),
        None => None,
    }
}

/// `casper_types::U256::checked_pow`: the power, or `None` past 2^256 - 1.
#[verifier::external_body]
pub(crate) fn u256_checked_pow(base: U256, exp: U256) -> (r: Option<U256>)
    ensures
        r is Some <==> vstd::arithmetic::power::pow(base@ as int, exp@) <= u256_max(),
        r matches Some(v) ==> v@ == vstd::arithmetic::power::pow(base@ as int, exp@),
{
    let x = casper_types::U256([base.w0, base.w1, base.w2, base.w3]);
    let e = casper_types::U256([exp.w0, exp.w1, exp.w2, exp.w3]);
    match x.checked_pow(e) {
        Some(v) => Some(U256 { w0: v.0[0], w1: v.0[1], w2: v.0[2], w3: v.0[3] }),
        None => None,
    }
}

/// `casper_types::U256::checked_mul`: the product, or `None` past 2^256 - 1.
#[verifier::external_body]
pub(crate) fn u256_checked_mul(a: U256, b: U256) -> (r: Option<U256>)
    ensures
        r is Some <==> a@ * b@ <= u256_max(),
        r matches Some(v) ==> v@ == a@ * b@,
{
    let x = casper_types::U256([a.w0, a.w1, a.w2, a.w3]);
    let y = casper_types::U256([b.w0, b.w1, b.w2, b.w3]);
    match x.checked_mul(y) {
        Some(v) => Some(U256 { w0: v.0[0], w1: v.0[1], w2: v.0[2], w3: v.0[3] }),
        None => None,
    }
}

/// `casper_types::U256::checked_div`: the floor quotient, or `None` for a zero divisor.
#[verifier::external_body]
pub(crate) fn u256_checked_div(a: U256, b: U256) -> (r: Option<U256>)
    ensures
        r is Some <==> b@ != 0,
        r matches Some(v) ==> v@ == a@ / b@,
{
    let x = casper_types::U256([a.w0, a.w1, a.w2, a.w3]);
    let y = casper_types::U256([b.w0, b.w1, b.w2, b.w3]);
    match x.checked_div(y) {
        Some(v) => Some(U256 { w0: v.0[0], w1: v.0[1], w2: v.0[2], w3: v.0[3] }),
        None => None,
    }
}

} // verus!
