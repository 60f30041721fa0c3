//! Initialize: validate the vault's parameters and set up its numbers.
use crate::backend_fields::BackendContainer;
use crate::errors::{ErrorCode, VaultError};
use crate::last_update::LastUpdate;
use crate::state::{Allocation, Allocations, RebalanceMode, StrategyType, Vault, VaultFees};
use vstd::prelude::*;

verus! {

/// Fees asked for when a vault is created or its fees are updated.
#[derive(Clone, Copy, Debug)]
pub struct FeeArgs {
    pub fee_carry_bps: u32,
    pub fee_mgmt_bps: u32,
    pub referral_fee_pct: u8,
}

/// Whether fees are acceptable: neither fee above 100% and the referral share at most 50%.
pub open spec fn fees_result(fees: FeeArgs) -> Result<(), VaultError> {
    if fees.fee_carry_bps > 10000 || fees.fee_mgmt_bps > 10000 {
        Err(VaultError::Code(ErrorCode::FeeBpsError))
    } else if fees.referral_fee_pct > 50 {
        Err(VaultError::Code(ErrorCode::ReferralFeeError))
    } else {
        Ok(())
    }
}

/// Whether an allocation cap may be asked for: none, or between 34% and 100%.
pub open spec fn allocation_cap_allowed(allocation_cap_pct: Option<u8>) -> bool {
    match allocation_cap_pct {
        Some(c) => 34 <= c <= 100,
        None => true,
    }
}

/// Fails unless both fees are at most 10000 basis points and the referral share is at most
/// 50%.
pub fn validate_fees(fees: &FeeArgs) -> (r: Result<(), VaultError>)
    ensures
        r == fees_result(*fees),
{
    if fees.fee_carry_bps > 10000 {
        return Err(VaultError::Code(ErrorCode::FeeBpsError));
    }
    if fees.fee_mgmt_bps > 10000 {
        return Err(VaultError::Code(ErrorCode::FeeBpsError));
    }
    if fees.referral_fee_pct > 50 {
        return Err(VaultError::Code(ErrorCode::ReferralFeeError));
    }
    Ok(())
}

/// Creates a new vault's numbers: no value, last updated (stale) at `slot`, empty
/// allocations, the given strategy, mode and fees, the deposit cap (none: unlimited) and the
/// allocation cap (none: 100%; otherwise it must lie between 34% and 100%).
pub fn handler(
    strategy_type: StrategyType,
    rebalance_mode: RebalanceMode,
    fees: FeeArgs,
    vault_deposit_cap: Option<u64>,
    allocation_cap_pct: Option<u8>,
    slot: u64,
) -> (r: Result<Vault, VaultError>)
    ensures
        fees_result(fees) is Err ==> r == Err::<Vault, VaultError>(fees_result(fees)->Err_0),
        fees_result(fees) is Ok && !allocation_cap_allowed(allocation_cap_pct) ==> r == Err::<Vault, VaultError>(
            VaultError::Code(ErrorCode::InvalidAllocationCap),
        ),
        fees_result(fees) is Ok && allocation_cap_allowed(allocation_cap_pct) ==> (r matches Ok(v) && {
            &&& v.last_update == LastUpdate::new_spec(slot)
            &&& v.total_value == 0
            &&& v.strategy_type == strategy_type
            &&& v.rebalance_mode == rebalance_mode
            &&& v.deposit_cap == match vault_deposit_cap {
                Some(d) => d,
                None => u64::MAX,
            }
            &&& v.allocation_cap_pct == match allocation_cap_pct {
                Some(c) => c,
                None => 100u8,
            }
            &&& v.fees == (VaultFees {
                fee_carry_bps: fees.fee_carry_bps,
                fee_mgmt_bps: fees.fee_mgmt_bps,
                referral_fee_pct: fees.referral_fee_pct,
            })
            &&& v.allocations.solend.value == 0 && v.allocations.port.value == 0 && v.allocations.jet.value == 0
            &&& v.allocations_chris.solend.value == 0 && v.allocations_chris.port.value == 0
                && v.allocations_chris.jet.value == 0
        }),
{
    validate_fees(&fees)?;
    let deposit_cap = match vault_deposit_cap {
        Some(value) => value,
        None => u64::MAX,
    };
    let allocation_cap = match allocation_cap_pct {
        Some(value) => {
            if !(34 <= value && value <= 100) {
                return Err(VaultError::Code(ErrorCode::InvalidAllocationCap));
            }
            value
        },
        None => 100,
    };
    Ok(Vault {
        last_update: LastUpdate::new(slot),
        total_value: 0,
        allocations: Allocations { solend: Allocation::zero(), port: Allocation::zero(), jet: Allocation::zero() },
        allocations_chris: BackendContainer { solend: Allocation::zero(), port: Allocation::zero(), jet: Allocation::zero() },
        strategy_type,
        rebalance_mode,
        fees: VaultFees {
            fee_carry_bps: fees.fee_carry_bps,
            fee_mgmt_bps: fees.fee_mgmt_bps,
            referral_fee_pct: fees.referral_fee_pct,
        },
        deposit_cap,
        allocation_cap_pct: allocation_cap,
    })
}

} // verus!
