//! Fixed-point numbers with twelve decimals on 256 bits, computed by `spl_math`.
use vstd::prelude::*;

verus! {

/// One, as the raw value of a precise number.
pub const ONE: u128 = 1_000_000_000_000;

/// Half of one: added before each rounding division.
pub const HALF: u128 = 500_000_000_000;

/// 2^64.
pub open spec fn pow64() -> int {
    18446744073709551616int
}

/// 2^256: raw values stay below it.
pub open spec fn pow256() -> int {
    115792089237316195423570985008687907853269984665640564039457584007913129639936int
}

/// A number with twelve decimals, held as its value times `ONE` in four 64-bit limbs,
/// least significant first.
#[derive(Clone, Copy, Debug)]
pub struct PreciseNumber {
    pub limbs: [u64; 4],
}

impl PreciseNumber {
    /// The raw value: the number times `ONE`.
    pub open spec fn raw(self) -> int {
        self.limbs[0] + pow64() * (self.limbs[1] + pow64() * (self.limbs[2] + pow64() * self.limbs[3]))
    }
}

/// The raw value of a division as `spl_math` computes it: the dividend times `ONE`, plus
/// one half, divided by the divisor, when the dividend times `ONE` fits; otherwise the
/// dividend plus one half is divided first and the quotient times `ONE` is taken.
pub open spec fn precise_div_raw(a: int, b: int) -> Option<int> {
    if b == 0 {
        None
    } else if a * ONE < pow256() {
        if a * ONE + HALF < pow256() {
            Some((a * ONE + HALF) / b)
        } else {
            None
        }
    } else if a + HALF < pow256() && ((a + HALF) / b) * ONE < pow256() {
        Some(((a + HALF) / b) * ONE)
    } else {
        None
    }
}

/// The raw value of a product as `spl_math` computes it: the raw product plus one half,
/// divided by `ONE`, when the raw product fits; otherwise the larger factor is divided by
/// `ONE` first.
pub open spec fn precise_mul_raw(a: int, b: int) -> Option<int> {
    if a * b < pow256() {
        if a * b + HALF < pow256() {
            Some((a * b + HALF) / (ONE as int))
        } else {
            None
        }
    } else {
        let v = if a >= b {
            (a / (ONE as int)) * b
        } else {
            (b / (ONE as int)) * a
        };
        if v < pow256() {
            Some(v)
        } else {
            None
        }
    }
}

/// Calls `spl_math::precise_number::PreciseNumber::new`: the value times `ONE`, which always
/// fits.
#[verifier::external_body]
fn spl_precise_new(value: u128) -> (r: Option<PreciseNumber>)
    ensures
        r is Some,
        r->0.raw() == value * ONE,
{
    spl_math::precise_number::PreciseNumber::new(value).map(|p| PreciseNumber { limbs: p.value.0 })
}

/// Calls `spl_math::precise_number::PreciseNumber::checked_div`.
#[verifier::external_body]
fn spl_precise_checked_div(a: &PreciseNumber, b: &PreciseNumber) -> (r: Option<PreciseNumber>)
    ensures
        match precise_div_raw(a.raw(), b.raw()) {
            Some(v) => r matches Some(p) && p.raw() == v,
            None => r is None,
        },
{
    let x = spl_math::precise_number::PreciseNumber { value: spl_math::uint::U256(a.limbs) };
    let y = spl_math::precise_number::PreciseNumber { value: spl_math::uint::U256(b.limbs) };
    x.checked_div(&y).map(|p| PreciseNumber { limbs: p.value.0 })
}

/// Calls `spl_math::precise_number::PreciseNumber::checked_mul`.
#[verifier::external_body]
fn spl_precise_checked_mul(a: &PreciseNumber, b: &PreciseNumber) -> (r: Option<PreciseNumber>)
    ensures
        match precise_mul_raw(a.raw(), b.raw()) {
            Some(v) => r matches Some(p) && p.raw() == v,
            None => r is None,
        },
{
    let x = spl_math::precise_number::PreciseNumber { value: spl_math::uint::U256(a.limbs) };
    let y = spl_math::precise_number::PreciseNumber { value: spl_math::uint::U256(b.limbs) };
    x.checked_mul(&y).map(|p| PreciseNumber { limbs: p.value.0 })
}

/// Calls `spl_math::precise_number::PreciseNumber::to_imprecise`: the raw value plus one
/// half, divided by `ONE`. The result is cast with `as_u128`, which panics when it does not
/// fit; the requirement rules that out.
#[verifier::external_body]
fn spl_precise_to_imprecise(a: &PreciseNumber) -> (r: Option<u128>)
    requires
        a.raw() + HALF < pow256() ==> (a.raw() + HALF) / (ONE as int) <= u128::MAX,
    ensures
        a.raw() + HALF < pow256() ==> r == Some(((a.raw() + HALF) / (ONE as int)) as u128),
        a.raw() + HALF >= pow256() ==> r is None,
{
    let x = spl_math::precise_number::PreciseNumber { value: spl_math::uint::U256(a.limbs) };
    x.to_imprecise()
}

impl PreciseNumber {
    /// The precise number of an integer.
    pub fn new(value: u128) -> (r: Option<PreciseNumber>)
        ensures
            r matches Some(p) && p.raw() == value * ONE,
    {
        spl_precise_new(value)
    }

    /// Division, rounded at half.
    pub fn checked_div(&self, rhs: &PreciseNumber) -> (r: Option<PreciseNumber>)
        ensures
            match precise_div_raw(self.raw(), rhs.raw()) {
                Some(v) => r matches Some(p) && p.raw() == v,
                None => r is None,
            },
    {
        spl_precise_checked_div(self, rhs)
    }

    /// Multiplication, rounded at half.
    pub fn checked_mul(&self, rhs: &PreciseNumber) -> (r: Option<PreciseNumber>)
        ensures
            match precise_mul_raw(self.raw(), rhs.raw()) {
                Some(v) => r matches Some(p) && p.raw() == v,
                None => r is None,
            },
    {
        spl_precise_checked_mul(self, rhs)
    }

    /// The number rounded at half to an integer.
    pub fn to_imprecise(&self) -> (r: Option<u128>)
        requires
            self.raw() + HALF < pow256() ==> (self.raw() + HALF) / (ONE as int) <= u128::MAX,
        ensures
            self.raw() + HALF < pow256() ==> r == Some(((self.raw() + HALF) / (ONE as int)) as u128),
            self.raw() + HALF >= pow256() ==> r is None,
    {
        spl_precise_to_imprecise(self)
    }
}

} // verus!
