//! Fixed-point rates scaled by one WAD (10^18), computed by `solana_maths`.
use crate::errors::MathError;
use solana_maths::{TryAdd, TryDiv, TryMul, TrySub};
use vstd::prelude::*;

verus! {

/// One, as a scaled value.
pub const WAD: u128 = 1_000_000_000_000_000_000;

/// One percent, as a scaled value.
pub const PERCENT_SCALER: u128 = 10_000_000_000_000_000;

/// One basis point, as a scaled value.
pub const BIPS_SCALER: u128 = 100_000_000_000_000;

#[verifier::external_type_specification]
#[verifier::external_body]
pub struct ExProgramError(solana_program::program_error::ProgramError);

/// A non-negative fraction, held as its value times one WAD.
#[derive(Clone, Copy, Debug, PartialEq, Eq, Structural)]
pub struct Rate {
    /// The value of the rate times `WAD`.
    pub scaled: u128,
}

/// A token amount with eighteen decimals, held as its value times one WAD.
#[derive(Clone, Copy, Debug, PartialEq, Eq, Structural)]
pub struct Decimal {
    /// The value of the decimal times `WAD`.
    pub scaled: u128,
}

/// Calls `solana_maths::Rate::one`, whose scaled value is one WAD.
#[verifier::external_body]
fn sm_rate_one() -> (r: Rate)
    ensures
        r.scaled == WAD,
{
    Rate { scaled: solana_maths::Rate::one().to_scaled_val() }
}

/// Calls `solana_maths::Rate::zero`, whose scaled value is zero.
#[verifier::external_body]
fn sm_rate_zero() -> (r: Rate)
    ensures
        r.scaled == 0,
{
    Rate { scaled: solana_maths::Rate::zero().to_scaled_val() }
}

/// Calls `solana_maths::Rate::from_percent`: the percent times `PERCENT_SCALER`.
#[verifier::external_body]
fn sm_rate_from_percent(percent: u8) -> (r: Rate)
    ensures
        r.scaled == percent * PERCENT_SCALER,
{
    Rate { scaled: solana_maths::Rate::from_percent(percent).to_scaled_val() }
}

/// Calls `solana_maths::Rate::from_bips`: the basis points times `BIPS_SCALER`.
/// The product is computed in `u64`, which the requirement keeps from overflowing.
#[verifier::external_body]
fn sm_rate_from_bips(bips: u64) -> (r: Rate)
    requires
        bips * BIPS_SCALER <= u64::MAX,
    ensures
        r.scaled == bips * BIPS_SCALER,
{
    Rate { scaled: solana_maths::Rate::from_bips(bips).to_scaled_val() }
}

/// Calls `<solana_maths::Rate as TryAdd>::try_add`: the checked sum of the scaled values.
#[verifier::external_body]
fn sm_rate_try_add(a: Rate, b: Rate) -> (r: Result<Rate, solana_program::program_error::ProgramError>)
    ensures
        r is Ok <==> a.scaled + b.scaled <= u128::MAX,
        r matches Ok(v) ==> v.scaled == a.scaled + b.scaled,
{
    solana_maths::Rate(solana_maths::U128::from(a.scaled))
        .try_add(solana_maths::Rate(solana_maths::U128::from(b.scaled)))
        .map(|v| Rate { scaled: v.to_scaled_val() })
}

/// Calls `<solana_maths::Rate as TrySub>::try_sub`: the checked difference of the scaled values.
#[verifier::external_body]
fn sm_rate_try_sub(a: Rate, b: Rate) -> (r: Result<Rate, solana_program::program_error::ProgramError>)
    ensures
        r is Ok <==> a.scaled >= b.scaled,
        r matches Ok(v) ==> v.scaled == a.scaled - b.scaled,
{
    solana_maths::Rate(solana_maths::U128::from(a.scaled))
        .try_sub(solana_maths::Rate(solana_maths::U128::from(b.scaled)))
        .map(|v| Rate { scaled: v.to_scaled_val() })
}

/// Calls `<solana_maths::Rate as TryMul<Rate>>::try_mul`: the product of the scaled values,
/// which must fit in 128 bits, divided by one WAD.
#[verifier::external_body]
fn sm_rate_try_mul(a: Rate, b: Rate) -> (r: Result<Rate, solana_program::program_error::ProgramError>)
    ensures
        r is Ok <==> a.scaled * b.scaled <= u128::MAX,
        r matches Ok(v) ==> v.scaled == (a.scaled * b.scaled) / (WAD as int),
{
    solana_maths::Rate(solana_maths::U128::from(a.scaled))
        .try_mul(solana_maths::Rate(solana_maths::U128::from(b.scaled)))
        .map(|v| Rate { scaled: v.to_scaled_val() })
}

/// Calls `<solana_maths::Rate as TryMul<u64>>::try_mul`: the checked product of the scaled
/// value and the integer.
#[verifier::external_body]
fn sm_rate_try_mul_u64(a: Rate, n: u64) -> (r: Result<Rate, solana_program::program_error::ProgramError>)
    ensures
        r is Ok <==> a.scaled * n <= u128::MAX,
        r matches Ok(v) ==> v.scaled == a.scaled * n,
{
    solana_maths::Rate(solana_maths::U128::from(a.scaled))
        .try_mul(n)
        .map(|v| Rate { scaled: v.to_scaled_val() })
}

/// Calls `<solana_maths::Rate as TryDiv<Rate>>::try_div`: the scaled dividend times one WAD,
/// which must fit in 128 bits, divided by the scaled divisor, which must not be zero.
#[verifier::external_body]
fn sm_rate_try_div(a: Rate, b: Rate) -> (r: Result<Rate, solana_program::program_error::ProgramError>)
    ensures
        r is Ok <==> (a.scaled * WAD <= u128::MAX && b.scaled != 0),
        r matches Ok(v) ==> v.scaled == (a.scaled * WAD) / (b.scaled as int),
{
    solana_maths::Rate(solana_maths::U128::from(a.scaled))
        .try_div(solana_maths::Rate(solana_maths::U128::from(b.scaled)))
        .map(|v| Rate { scaled: v.to_scaled_val() })
}

/// Calls `<solana_maths::Decimal as From<Rate>>::from`, which keeps the scaled value.
#[verifier::external_body]
fn sm_decimal_from_rate(a: Rate) -> (r: Decimal)
    ensures
        r.scaled == a.scaled,
{
    let d = solana_maths::Decimal::from(solana_maths::Rate(solana_maths::U128::from(a.scaled)));
    Decimal { scaled: d.to_scaled_val().unwrap() }
}

/// Calls `solana_maths::Decimal::try_floor_u64`: the scaled value divided by one WAD,
/// which must fit in 64 bits.
#[verifier::external_body]
fn sm_decimal_try_floor_u64(d: Decimal) -> (r: Result<u64, solana_program::program_error::ProgramError>)
    ensures
        r is Ok <==> d.scaled / WAD <= u64::MAX,
        r matches Ok(v) ==> v == d.scaled / WAD,
{
    solana_maths::Decimal::from_scaled_val(d.scaled).try_floor_u64()
}

impl Rate {
    /// The scaled value of the rate as an integer.
    pub open spec fn val(self) -> int {
        self.scaled as int
    }

    /// One (100%).
    pub fn one() -> (r: Rate)
        ensures
            r.scaled == WAD,
    {
        sm_rate_one()
    }

    /// Zero.
    pub fn zero() -> (r: Rate)
        ensures
            r.scaled == 0,
    {
        sm_rate_zero()
    }

    /// The rate of `percent` percent.
    pub fn from_percent(percent: u8) -> (r: Rate)
        ensures
            r.scaled == percent * PERCENT_SCALER,
    {
        sm_rate_from_percent(percent)
    }

    /// The rate of `bips` basis points.
    pub fn from_bips(bips: u64) -> (r: Rate)
        requires
            bips * BIPS_SCALER <= u64::MAX,
        ensures
            r.scaled == bips * BIPS_SCALER,
    {
        sm_rate_from_bips(bips)
    }

    /// The rate whose scaled value is `scaled`.
    pub fn from_scaled_val(scaled: u64) -> (r: Rate)
        ensures
            r.scaled == scaled,
    {
        Rate { scaled: scaled as u128 }
    }

    /// The scaled value of the rate.
    pub fn to_scaled_val(&self) -> (r: u128)
        ensures
            r == self.scaled,
    {
        self.scaled
    }

    /// Sum of two rates; fails on overflow.
    pub fn try_add(self, rhs: Rate) -> (r: Result<Rate, MathError>)
        ensures
            r is Ok <==> self.scaled + rhs.scaled <= u128::MAX,
            r matches Ok(v) ==> v.scaled == self.scaled + rhs.scaled,
            r matches Err(e) ==> e == MathError::AddOverflow,
    {
        match sm_rate_try_add(self, rhs) {
            Ok(v) => Ok(v),
            Err(_) => Err(MathError::AddOverflow),
        }
    }

    /// Difference of two rates; fails when `rhs` is larger.
    pub fn try_sub(self, rhs: Rate) -> (r: Result<Rate, MathError>)
        ensures
            r is Ok <==> self.scaled >= rhs.scaled,
            r matches Ok(v) ==> v.scaled == self.scaled - rhs.scaled,
            r matches Err(e) ==> e == MathError::SubUnderflow,
    {
        match sm_rate_try_sub(self, rhs) {
            Ok(v) => Ok(v),
            Err(_) => Err(MathError::SubUnderflow),
        }
    }

    /// Product of two rates, rounded down; fails when the scaled product overflows.
    pub fn try_mul(self, rhs: Rate) -> (r: Result<Rate, MathError>)
        ensures
            r is Ok <==> self.scaled * rhs.scaled <= u128::MAX,
            r matches Ok(v) ==> v.scaled == (self.scaled * rhs.scaled) / (WAD as int),
            r matches Err(e) ==> e == MathError::MulOverflow,
    {
        match sm_rate_try_mul(self, rhs) {
            Ok(v) => Ok(v),
            Err(_) => Err(MathError::MulOverflow),
        }
    }

    /// Product of a rate and an integer; fails on overflow.
    pub fn try_mul_u64(self, rhs: u64) -> (r: Result<Rate, MathError>)
        ensures
            r is Ok <==> self.scaled * rhs <= u128::MAX,
            r matches Ok(v) ==> v.scaled == self.scaled * rhs,
            r matches Err(e) ==> e == MathError::MulOverflow,
    {
        match sm_rate_try_mul_u64(self, rhs) {
            Ok(v) => Ok(v),
            Err(_) => Err(MathError::MulOverflow),
        }
    }

    /// Quotient of two rates, rounded down; fails when the scaled dividend times one WAD
    /// overflows or when the divisor is zero.
    pub fn try_div(self, rhs: Rate) -> (r: Result<Rate, MathError>)
        ensures
            r is Ok <==> (self.scaled * WAD <= u128::MAX && rhs.scaled != 0),
            r matches Ok(v) ==> v.scaled == (self.scaled * WAD) / (rhs.scaled as int),
            r matches Err(e) ==> (e == MathError::MulOverflow <==> self.scaled * WAD > u128::MAX),
            r matches Err(e) ==> (e == MathError::MulOverflow || e == MathError::DividedByZero),
    {
        match sm_rate_try_div(self, rhs) {
            Ok(v) => Ok(v),
            Err(_) => {
                if self.scaled > u128::MAX / WAD {
                    Err(MathError::MulOverflow)
                } else {
                    Err(MathError::DividedByZero)
                }
            },
        }
    }

    /// The smaller of two rates.
    pub fn min(self, other: Rate) -> (r: Rate)
        ensures
            r.scaled == if self.scaled <= other.scaled { self.scaled } else { other.scaled },
    {
        if self.scaled <= other.scaled {
            self
        } else {
            other
        }
    }
}

impl Decimal {
    /// The decimal that holds the value of a rate.
    pub fn from_rate(r: Rate) -> (d: Decimal)
        ensures
            d.scaled == r.scaled,
    {
        sm_decimal_from_rate(r)
    }

    /// The decimal rounded down to an integer; fails when that does not fit in 64 bits.
    pub fn try_floor_u64(&self) -> (r: Result<u64, MathError>)
        ensures
            r is Ok <==> self.scaled / WAD <= u64::MAX,
            r matches Ok(v) ==> v == self.scaled / WAD,
            r matches Err(e) ==> e == MathError::UnableToRoundU64,
    {
        match sm_decimal_try_floor_u64(*self) {
            Ok(v) => Ok(v),
            Err(_) => Err(MathError::UnableToRoundU64),
        }
    }
}

} // verus!
