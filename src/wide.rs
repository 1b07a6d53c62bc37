//! Fixed-width unsigned integers of 256 and 512 bits.
//!
//! The values are held as little-endian arrays of 64-bit limbs, the layout
//! that `ruint` uses, and all arithmetic is delegated to `ruint` through the
//! small trusted wrappers below. Their contracts are stated over
//! [`limbs_value`], the mathematical value of a limb sequence.
use vstd::prelude::*;
use revm_primitives::alloy_primitives::U512 as RU512;
use revm_primitives::U256 as RU256;

verus! {

/// Value of a little-endian sequence of 64-bit limbs.
pub open spec fn limbs_value(s: Seq<u64>) -> nat
    decreases s.len(),
{
    if s.len() == 0 {
        0
    } else {
        s[0] as nat + 0x1_0000_0000_0000_0000 * limbs_value(s.subrange(1, s.len() as int))
    }
}

/// `2^(64 n)`.
pub open spec fn limb_base_pow(n: nat) -> nat
    decreases n,
{
    if n == 0 {
        1
    } else {
        0x1_0000_0000_0000_0000 * limb_base_pow((n - 1) as nat)
    }
}

/// Largest value of a 256-bit word, plus one.
pub open spec fn modulus256() -> nat {
    limb_base_pow(4)
}

/// Largest value of a 512-bit word, plus one.
pub open spec fn modulus512() -> nat {
    limb_base_pow(8)
}

/// A 256-bit unsigned integer (an EVM word, e.g. a balance in wei).
#[derive(Clone, Copy, Debug)]
pub struct U256 {
    pub limbs: [u64; 4],
}

/// A 512-bit unsigned integer, wide enough for scaled balances.
#[derive(Clone, Copy, Debug)]
pub struct U512 {
    pub limbs: [u64; 8],
}

impl U256 {
    pub open spec fn value(&self) -> nat {
        limbs_value(self.limbs@)
    }

    /// The word holding `x`.
    pub fn from_u128(x: u128) -> (r: U256)
        ensures
            r.value() == x,
    {
        u256_from_u128(x)
    }

    pub fn zero() -> (r: U256)
        ensures
            r.value() == 0,
    {
        u256_from_u128(0)
    }
}

impl U512 {
    pub open spec fn value(&self) -> nat {
        limbs_value(self.limbs@)
    }

    /// The 512-bit integer holding `x`.
    pub fn from_u128(x: u128) -> (r: U512)
        ensures
            r.value() == x,
    {
        u512_from_u128(x)
    }

    /// The 512-bit integer holding the value of a 256-bit word.
    pub fn from_u256(x: &U256) -> (r: U512)
        ensures
            r.value() == x.value(),
    {
        u512_from_u256(x)
    }

    pub fn zero() -> (r: U512)
        ensures
            r.value() == 0,
    {
        u512_from_u128(0)
    }
}

/// Every limb sequence of length `n` has a value below `2^(64 n)`.
pub proof fn lemma_limbs_value_bound(s: Seq<u64>)
    ensures
        limbs_value(s) < limb_base_pow(s.len()),
    decreases s.len(),
{
    if s.len() > 0 {
        let rest = s.subrange(1, s.len() as int);
        lemma_limbs_value_bound(rest);
        assert(rest.len() == s.len() - 1);
        let p = limb_base_pow(rest.len());
        assert(limbs_value(s) == s[0] as nat + 0x1_0000_0000_0000_0000 * limbs_value(rest));
        assert(limb_base_pow(s.len()) == 0x1_0000_0000_0000_0000 * p);
        assert(limbs_value(rest) + 1 <= p);
        assert(0x1_0000_0000_0000_0000 * (limbs_value(rest) + 1) <= 0x1_0000_0000_0000_0000 * p)
            by (nonlinear_arith)
            requires
                limbs_value(rest) + 1 <= p,
        ;
    }
}

/// A 256-bit word is below `2^256`.
pub proof fn lemma_u256_bound(x: U256)
    ensures
        x.value() < modulus256(),
{
    lemma_limbs_value_bound(x.limbs@);
}

/// A 512-bit integer is below `2^512`.
pub proof fn lemma_u512_bound(x: U512)
    ensures
        x.value() < modulus512(),
{
    lemma_limbs_value_bound(x.limbs@);
}

/// `2^512 = 2^256 * 2^256`.
pub proof fn lemma_modulus512()
    ensures
        modulus512() == modulus256() * modulus256(),
        modulus256() == 0x1_0000_0000_0000_0000_0000_0000_0000_0000_0000_0000_0000_0000_0000_0000_0000_0000,
{
    reveal_with_fuel(limb_base_pow, 9);
}

/// Relies on ruint's `Uint::from` for `u128`: the value is kept.
#[verifier::external_body]
fn u256_from_u128(x: u128) -> (r: U256)
    ensures
        r.value() == x,
{
    U256 { limbs: RU256::from(x).into_limbs() }
}

/// Relies on ruint's `Uint::from` for `u128`: the value is kept.
#[verifier::external_body]
fn u512_from_u128(x: u128) -> (r: U512)
    ensures
        r.value() == x,
{
    U512 { limbs: RU512::from(x).into_limbs() }
}

/// Relies on ruint's `Uint::from` for a narrower `Uint`: the value is kept.
#[verifier::external_body]
fn u512_from_u256(x: &U256) -> (r: U512)
    ensures
        r.value() == x.value(),
{
    U512 { limbs: RU512::from(RU256::from_limbs(x.limbs)).into_limbs() }
}

/// Relies on ruint's `PartialOrd` (`<`) on `Uint<256, 4>`.
#[verifier::external_body]
pub(crate) fn u256_lt(a: &U256, b: &U256) -> (r: bool)
    ensures
        r == (a.value() < b.value()),
{
    RU256::from_limbs(a.limbs) < RU256::from_limbs(b.limbs)
}

/// Relies on ruint's `PartialOrd` (`<`) on `Uint<512, 8>`.
#[verifier::external_body]
pub(crate) fn u512_lt(a: &U512, b: &U512) -> (r: bool)
    ensures
        r == (a.value() < b.value()),
{
    RU512::from_limbs(a.limbs) < RU512::from_limbs(b.limbs)
}

/// Relies on ruint's `Sub` on `Uint<256, 4>`, which wraps modulo `2^256`.
#[verifier::external_body]
pub(crate) fn u256_sub(a: &U256, b: &U256) -> (r: U256)
    ensures
        b.value() <= a.value() ==> r.value() == a.value() - b.value(),
{
    U256 { limbs: (RU256::from_limbs(a.limbs) - RU256::from_limbs(b.limbs)).into_limbs() }
}

/// Relies on ruint's `Sub` on `Uint<512, 8>`, which wraps modulo `2^512`.
#[verifier::external_body]
pub(crate) fn u512_sub(a: &U512, b: &U512) -> (r: U512)
    ensures
        b.value() <= a.value() ==> r.value() == a.value() - b.value(),
{
    U512 { limbs: (RU512::from_limbs(a.limbs) - RU512::from_limbs(b.limbs)).into_limbs() }
}

/// Relies on ruint's `Add` on `Uint<512, 8>`, which wraps modulo `2^512`.
#[verifier::external_body]
pub(crate) fn u512_add(a: &U512, b: &U512) -> (r: U512)
    ensures
        r.value() == (a.value() + b.value()) % modulus512(),
{
    U512 { limbs: (RU512::from_limbs(a.limbs) + RU512::from_limbs(b.limbs)).into_limbs() }
}

/// Relies on ruint's `Mul` on `Uint<512, 8>`, which wraps modulo `2^512`.
#[verifier::external_body]
pub(crate) fn u512_mul(a: &U512, b: &U512) -> (r: U512)
    ensures
        r.value() == (a.value() * b.value()) % modulus512(),
{
    U512 { limbs: (RU512::from_limbs(a.limbs) * RU512::from_limbs(b.limbs)).into_limbs() }
}

/// Relies on ruint's `Div` on `Uint<256, 4>`: the quotient rounded down.
#[verifier::external_body]
pub(crate) fn u256_div(a: &U256, b: &U256) -> (r: U256)
    requires
        b.value() > 0,
    ensures
        r.value() == a.value() / b.value(),
{
    U256 { limbs: (RU256::from_limbs(a.limbs) / RU256::from_limbs(b.limbs)).into_limbs() }
}

/// Relies on ruint's `Div` on `Uint<512, 8>`: the quotient rounded down.
#[verifier::external_body]
pub(crate) fn u512_div(a: &U512, b: &U512) -> (r: U512)
    requires
        b.value() > 0,
    ensures
        r.value() == a.value() / b.value(),
{
    U512 { limbs: (RU512::from_limbs(a.limbs) / RU512::from_limbs(b.limbs)).into_limbs() }
}

/// Relies on ruint's `Uint::to::<u64>`, which returns the value when it fits.
#[verifier::external_body]
pub(crate) fn u512_to_u64(a: &U512) -> (r: u64)
    requires
        a.value() <= u64::MAX,
    ensures
        r == a.value(),
{
    RU512::from_limbs(a.limbs).to::<u64>()
}

} // verus!
