//! Bookkeeping of the vault's position in one lending market: what its allocation holds
//! after a deposit, after a redemption, and after the market is refreshed.
use crate::assets::port_lp_tokens;
use crate::errors::{ErrorCode, VaultError};
use crate::last_update::LastUpdate;
use crate::markets::{CollateralExchange, PortReserve};
use crate::state::Allocation;
use vstd::prelude::*;

verus! {

/// Records that `amount` reserve tokens were deposited into the market at `slot`; fails,
/// leaving the allocation as it was, when the new value overflows.
pub fn record_deposited(allocation: &mut Allocation, amount: u64, slot: u64) -> (r: Result<(), VaultError>)
    ensures
        old(allocation).value + amount <= u64::MAX ==> r is Ok && *final(allocation) == (Allocation {
            value: (old(allocation).value + amount) as u64,
            last_update: LastUpdate { slot, stale: false },
        }),
        old(allocation).value + amount > u64::MAX ==> r == Err::<(), VaultError>(VaultError::Code(ErrorCode::MathError))
            && *final(allocation) == *old(allocation),
{
    allocation.record_deposit(amount, slot)
}

/// Records that `lp_amount` LP tokens were redeemed at `slot`: the allocation loses the
/// reserve tokens they are worth. Fails, leaving the allocation as it was, when the market
/// cannot convert them or they are worth more than the allocation holds.
pub fn record_redeemed<M: CollateralExchange>(market: &M, allocation: &mut Allocation, lp_amount: u64, slot: u64) -> (r: Result<(), VaultError>)
    ensures
        match market.lp_to_reserve(lp_amount) {
            None => r == Err::<(), VaultError>(VaultError::Reserve) && *final(allocation) == *old(allocation),
            Some(delta) => if delta <= old(allocation).value {
                r is Ok && *final(allocation) == (Allocation {
                    value: (old(allocation).value - delta) as u64,
                    last_update: LastUpdate { slot, stale: false },
                })
            } else {
                r == Err::<(), VaultError>(VaultError::Code(ErrorCode::MathError)) && *final(allocation) == *old(allocation)
            },
        },
{
    let delta = market.convert_amount_lp_to_reserve(lp_amount)?;
    allocation.record_redeem(delta, slot)
}

/// Sets the allocation, at `slot`, to what the vault's `lp_tokens` LP tokens are worth in
/// the market; fails, leaving it as it was, when the market cannot convert them.
pub fn refresh_allocation<M: CollateralExchange>(market: &M, allocation: &mut Allocation, lp_tokens: u64, slot: u64) -> (r: Result<(), VaultError>)
    ensures
        match market.lp_to_reserve(lp_tokens) {
            None => r == Err::<(), VaultError>(VaultError::Reserve) && *final(allocation) == *old(allocation),
            Some(value) => r is Ok && *final(allocation) == (Allocation {
                value,
                last_update: LastUpdate { slot, stale: false },
            }),
        },
{
    let value = market.convert_amount_lp_to_reserve(lp_tokens)?;
    allocation.update(value, slot);
    Ok(())
}

/// Refreshes the Port allocation: the vault's LP tokens there are those it holds plus those
/// it has staked. Fails, leaving the allocation as it was, when their sum overflows or the
/// market cannot convert it.
pub fn refresh_port_allocation(port: &PortReserve, allocation: &mut Allocation, lp_tokens: u64, staked_tokens: u64, slot: u64) -> (r: Result<(), VaultError>)
    ensures
        lp_tokens + staked_tokens > u64::MAX ==> r == Err::<(), VaultError>(VaultError::Code(ErrorCode::OverflowError))
            && *final(allocation) == *old(allocation),
        lp_tokens + staked_tokens <= u64::MAX ==> match port.lp_to_reserve((lp_tokens + staked_tokens) as u64) {
            None => r == Err::<(), VaultError>(VaultError::Reserve) && *final(allocation) == *old(allocation),
            Some(value) => r is Ok && *final(allocation) == (Allocation {
                value,
                last_update: LastUpdate { slot, stale: false },
            }),
        },
{
    let total = port_lp_tokens(lp_tokens, staked_tokens)?;
    refresh_allocation(port, allocation, total, slot)
}

/// Records a redemption of `lp_amount` LP tokens from Port: redeeming none changes nothing;
/// otherwise as `record_redeemed`.
pub fn record_port_redeemed(port: &PortReserve, allocation: &mut Allocation, lp_amount: u64, slot: u64) -> (r: Result<(), VaultError>)
    ensures
        lp_amount == 0 ==> r is Ok && *final(allocation) == *old(allocation),
        lp_amount != 0 ==> match port.lp_to_reserve(lp_amount) {
            None => r == Err::<(), VaultError>(VaultError::Reserve) && *final(allocation) == *old(allocation),
            Some(delta) => if delta <= old(allocation).value {
                r is Ok && *final(allocation) == (Allocation {
                    value: (old(allocation).value - delta) as u64,
                    last_update: LastUpdate { slot, stale: false },
                })
            } else {
                r == Err::<(), VaultError>(VaultError::Code(ErrorCode::MathError)) && *final(allocation) == *old(allocation)
            },
        },
{
    if lp_amount == 0 {
        return Ok(());
    }
    record_redeemed(port, allocation, lp_amount, slot)
}

} // verus!
