//! Deposit: how many LP tokens a deposit of reserve tokens mints.
use crate::errors::{ErrorCode, VaultError};
use crate::math::{calc_deposit_to_vault, proportional_amount};
use crate::state::Vault;
use vstd::prelude::*;

verus! {

/// The LP tokens to mint for a deposit of `reserve_token_amount` when `lp_token_supply` LP
/// tokens exist; fails when the vault was not refreshed since its last change, or when the
/// amount cannot be computed (the vault holds no value, or the result does not fit).
pub fn handler(vault: &Vault, reserve_token_amount: u64, lp_token_supply: u64) -> (r: Result<u64, VaultError>)
    ensures
        vault.last_update.stale ==> r == Err::<u64, VaultError>(VaultError::Code(ErrorCode::VaultIsNotRefreshed)),
        !vault.last_update.stale ==> r == match proportional_amount(lp_token_supply, reserve_token_amount, vault.total_value) {
            Some(v) => Ok::<u64, VaultError>(v),
            None => Err::<u64, VaultError>(VaultError::Code(ErrorCode::MathError)),
        },
{
    if vault.last_update.stale {
        return Err(VaultError::Code(ErrorCode::VaultIsNotRefreshed));
    }
    match calc_deposit_to_vault(reserve_token_amount, lp_token_supply, vault.total_value) {
        Some(v) => Ok(v),
        None => Err(VaultError::Code(ErrorCode::MathError)),
    }
}

} // verus!
