//! Lending markets seen as assets with an expected return.
use crate::asset_container::reserves::ReturnCalculator;
use crate::errors::{ErrorCode, MathError, VaultError};
use crate::markets::{PortReserve, Reserves, SolendReserve};
use crate::provider::Provider;
use crate::rate::{Rate, WAD};
use vstd::prelude::*;

verus! {

/// Read access to a lending market's reserve.
pub trait ReserveAccessor: Sized {
    /// The share of the reserve's liquidity that is borrowed.
    spec fn spec_utilization_rate(&self) -> Result<Rate, VaultError>;

    /// The rate at which the reserve's borrowers pay interest.
    spec fn spec_borrow_rate(&self) -> Result<Rate, VaultError>;

    /// The reserve after `new_allocation` is deposited and `old_allocation` withdrawn.
    spec fn spec_reserve_with_deposit(&self, new_allocation: u64, old_allocation: u64) -> Result<Self, VaultError>;

    /// Computes the share of the reserve's liquidity that is borrowed.
    fn utilization_rate(&self) -> (r: Result<Rate, VaultError>)
        ensures
            r == self.spec_utilization_rate(),
    ;

    /// Computes the rate at which the reserve's borrowers pay interest.
    fn borrow_rate(&self) -> (r: Result<Rate, VaultError>)
        ensures
            r == self.spec_borrow_rate(),
    ;

    /// Computes the reserve after `new_allocation` is deposited and `old_allocation`
    /// withdrawn.
    fn reserve_with_deposit(&self, new_allocation: u64, old_allocation: u64) -> (r: Result<Self, VaultError>)
        ensures
            r == self.spec_reserve_with_deposit(new_allocation, old_allocation),
    ;
}

/// A lending market's reserve, valued by the interest its lenders earn.
pub struct LendingMarketAsset<R>(pub R);

/// The return lenders earn from a reserve: its utilization times its borrow rate.
pub open spec fn lending_return<R: ReserveAccessor>(reserve: R) -> Result<Rate, VaultError> {
    match reserve.spec_utilization_rate() {
        Err(e) => Err(e),
        Ok(u) => match reserve.spec_borrow_rate() {
            Err(e) => Err(e),
            Ok(b) => if u.scaled * b.scaled > u128::MAX {
                Err(VaultError::Math(MathError::MulOverflow))
            } else {
                Ok(Rate { scaled: ((u.scaled * b.scaled) / (WAD as int)) as u128 })
            },
        },
    }
}

impl<R: ReserveAccessor> ReturnCalculator for LendingMarketAsset<R> {
    open spec fn spec_calculate_return(&self, new_allocation: u64, old_allocation: u64) -> Result<Rate, VaultError> {
        match self.0.spec_reserve_with_deposit(new_allocation, old_allocation) {
            Err(e) => Err(e),
            Ok(reserve) => lending_return(reserve),
        }
    }

    fn calculate_return(&self, new_allocation: u64, old_allocation: u64) -> (r: Result<Rate, VaultError>) {
        let reserve = self.0.reserve_with_deposit(new_allocation, old_allocation)?;
        let utilization = reserve.utilization_rate()?;
        let borrow = reserve.borrow_rate()?;
        match utilization.try_mul(borrow) {
            Ok(v) => Ok(v),
            Err(e) => Err(VaultError::Math(e)),
        }
    }
}

/// The return expected after a reallocation is that of the reserve as the move leaves it:
/// the moved reserve's utilization times the moved reserve's own borrow rate, rounded down.
/// It fails with the move's error, else with the error of either rate, else where the product
/// overflows.
pub proof fn lemma_return_after_reallocation<R: ReserveAccessor>(
    asset: LendingMarketAsset<R>,
    new_allocation: u64,
    old_allocation: u64,
)
    ensures
        asset.spec_calculate_return(new_allocation, old_allocation) == match asset.0.spec_reserve_with_deposit(
            new_allocation,
            old_allocation,
        ) {
            Err(e) => Err(e),
            Ok(moved) => match (moved.spec_utilization_rate(), moved.spec_borrow_rate()) {
                (Err(e), _) => Err(e),
                (Ok(_), Err(e)) => Err(e),
                (Ok(u), Ok(b)) => if u.scaled * b.scaled > u128::MAX {
                    Err(VaultError::Math(MathError::MulOverflow))
                } else {
                    Ok(Rate { scaled: ((u.scaled * b.scaled) / (WAD as int)) as u128 })
                },
            },
        },
{
}

/// For a Solend or Port reserve, the return expected after a reallocation is the current
/// return of the reserve that the reallocation leaves: moving the allocation, then asking for
/// the return with nothing more moved, gives the same answer.
pub proof fn lemma_return_after_reallocation_is_current_return(
    reserve: Reserves,
    new_allocation: u64,
    old_allocation: u64,
)
    ensures
        match reserve.spec_reserve_with_deposit(new_allocation, old_allocation) {
            Ok(moved) => LendingMarketAsset(reserve).spec_calculate_return(new_allocation, old_allocation)
                == LendingMarketAsset(moved).spec_calculate_return(0, 0),
            Err(e) => LendingMarketAsset(reserve).spec_calculate_return(new_allocation, old_allocation) == Err::<
                Rate,
                VaultError,
            >(e),
        },
{
    if let Ok(moved) = reserve.spec_reserve_with_deposit(new_allocation, old_allocation) {
        match moved {
            Reserves::Solend(m) => {
                assert(m.spec_reserve_with_deposit(0, 0) == Ok::<SolendReserve, VaultError>(m));
            },
            Reserves::Port(m) => {
                assert(m.spec_reserve_with_deposit(0, 0) == Ok::<PortReserve, VaultError>(m));
            },
        }
    }
}

/// The three lending markets' assets.
pub struct Assets<A> {
    pub solend: A,
    pub port: A,
    pub jet: A,
}

impl<A> Assets<A> {
    /// The asset of a provider.
    pub open spec fn at(self, p: Provider) -> A {
        match p {
            Provider::Solend => self.solend,
            Provider::Port => self.port,
            Provider::Jet => self.jet,
        }
    }

    /// The asset of a provider.
    pub fn get(&self, p: Provider) -> (r: &A)
        ensures
            *r == self.at(p),
    {
        match p {
            Provider::Solend => &self.solend,
            Provider::Port => &self.port,
            Provider::Jet => &self.jet,
        }
    }

    /// The number of assets.
    pub fn len(&self) -> (r: usize)
        ensures
            r == 3,
    {
        3
    }
}

/// The available liquidity of a Port reserve after `new_allocation` is deposited and
/// `old_allocation` withdrawn; fails when either step leaves the range of `u64`.
pub fn port_available_after_deposit(available_amount: u64, new_allocation: u64, old_allocation: u64) -> (r: Result<u64, VaultError>)
    ensures
        available_amount + new_allocation <= u64::MAX && available_amount + new_allocation >= old_allocation
            ==> r == Ok::<u64, VaultError>((available_amount + new_allocation - old_allocation) as u64),
        !(available_amount + new_allocation <= u64::MAX && available_amount + new_allocation >= old_allocation)
            ==> r == Err::<u64, VaultError>(VaultError::Code(ErrorCode::OverflowError)),
{
    let added = match available_amount.checked_add(new_allocation) {
        Some(v) => v,
        None => {
            return Err(VaultError::Code(ErrorCode::OverflowError));
        },
    };
    match added.checked_sub(old_allocation) {
        Some(v) => Ok(v),
        None => Err(VaultError::Code(ErrorCode::OverflowError)),
    }
}

/// The LP tokens of the vault in Port: those it holds plus those it has staked; fails when
/// the sum overflows.
pub fn port_lp_tokens(lp_tokens: u64, staked_tokens: u64) -> (r: Result<u64, VaultError>)
    ensures
        lp_tokens + staked_tokens <= u64::MAX ==> r == Ok::<u64, VaultError>((lp_tokens + staked_tokens) as u64),
        lp_tokens + staked_tokens > u64::MAX ==> r == Err::<u64, VaultError>(VaultError::Code(ErrorCode::OverflowError)),
{
    match lp_tokens.checked_add(staked_tokens) {
        Some(v) => Ok(v),
        None => Err(VaultError::Code(ErrorCode::OverflowError)),
    }
}

} // verus!
