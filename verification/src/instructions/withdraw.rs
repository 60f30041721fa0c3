//! Withdraw: how many reserve tokens LP tokens are worth, and the vault's value after.
use crate::errors::{ErrorCode, VaultError};
use crate::instructions::rebalance::refreshed_check;
use crate::math::{calc_withdraw_from_vault, proportional_amount};
use crate::state::Vault;
use vstd::prelude::*;

verus! {

/// The reserve tokens to hand out for `lp_token_amount` LP tokens when `lp_token_supply`
/// exist; the vault's value drops by that amount. Fails, leaving the vault as it was, when
/// the vault was not refreshed in this slot, when the amount cannot be computed, or when it
/// exceeds the vault's value.
pub fn handler(vault: &mut Vault, lp_token_amount: u64, lp_token_supply: u64, slot: u64) -> (r: Result<u64, VaultError>)
    ensures
        refreshed_check(old(vault).last_update, slot) is Err ==> r == Err::<u64, VaultError>(
            refreshed_check(old(vault).last_update, slot)->Err_0,
        ) && *final(vault) == *old(vault),
        refreshed_check(old(vault).last_update, slot) is Ok ==> match proportional_amount(
            old(vault).total_value,
            lp_token_amount,
            lp_token_supply,
        ) {
            None => r == Err::<u64, VaultError>(VaultError::Code(ErrorCode::MathError)) && *final(vault) == *old(vault),
            Some(t) => if t <= old(vault).total_value {
                r == Ok::<u64, VaultError>(t) && *final(vault) == (Vault {
                    total_value: (old(vault).total_value - t) as u64,
                    ..*old(vault)
                })
            } else {
                r == Err::<u64, VaultError>(VaultError::Code(ErrorCode::MathError)) && *final(vault) == *old(vault)
            },
        },
{
    match vault.last_update.is_stale(slot) {
        Ok(true) => {
            return Err(VaultError::Code(ErrorCode::VaultIsNotRefreshed));
        },
        Ok(false) => {},
        Err(e) => {
            return Err(e);
        },
    }
    let reserve_tokens_to_transfer = match calc_withdraw_from_vault(lp_token_amount, lp_token_supply, vault.total_value) {
        Some(v) => v,
        None => {
            return Err(VaultError::Code(ErrorCode::MathError));
        },
    };
    match vault.total_value.checked_sub(reserve_tokens_to_transfer) {
        Some(v) => {
            vault.total_value = v;
            Ok(reserve_tokens_to_transfer)
        },
        None => Err(VaultError::Code(ErrorCode::MathError)),
    }
}

} // verus!
