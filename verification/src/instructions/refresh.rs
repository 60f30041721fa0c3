//! Refresh: the vault's value is what it holds plus what it has lent out.
use crate::errors::{ErrorCode, VaultError};
use crate::last_update::LastUpdate;
use crate::markets::{CollateralExchange, PortReserve, SolendReserve};
use crate::state::Vault;
use vstd::prelude::*;

verus! {

/// Sets the vault's value to the reserve tokens it holds plus the value of its positions in
/// the three lending markets, as of `slot`.
pub fn handler(vault: &mut Vault, vault_reserve_token_amount: u64, solend_value: u64, port_value: u64, jet_value: u64, slot: u64)
    requires
        vault_reserve_token_amount + solend_value + port_value + jet_value <= u64::MAX,
    ensures
        *final(vault) == (Vault {
            total_value: (vault_reserve_token_amount + solend_value + port_value + jet_value) as u64,
            last_update: LastUpdate { slot, stale: false },
            ..*old(vault)
        }),
{
    let total = vault_reserve_token_amount + solend_value + port_value + jet_value;
    vault.update_value(total, slot);
}

/// Refreshes the vault from the markets' reserves: its Solend and Port LP tokens are valued
/// through those markets' exchange rates, its Jet position is worth `jet_value`. Fails,
/// leaving the vault as it was, when a market cannot value the LP tokens or when the total
/// does not fit in `u64`.
pub fn refresh_from_reserves(
    vault: &mut Vault,
    vault_reserve_token_amount: u64,
    solend: &SolendReserve,
    solend_lp_tokens: u64,
    port: &PortReserve,
    port_lp_tokens: u64,
    jet_value: u64,
    slot: u64,
) -> (r: Result<(), VaultError>)
    ensures
        match (solend.lp_to_reserve(solend_lp_tokens), port.lp_to_reserve(port_lp_tokens)) {
            (Some(s), Some(p)) => if vault_reserve_token_amount + s + p + jet_value <= u64::MAX {
                r is Ok && *final(vault) == (Vault {
                    total_value: (vault_reserve_token_amount + s + p + jet_value) as u64,
                    last_update: LastUpdate { slot, stale: false },
                    ..*old(vault)
                })
            } else {
                r == Err::<(), VaultError>(VaultError::Code(ErrorCode::OverflowError)) && *final(vault) == *old(vault)
            },
            _ => r == Err::<(), VaultError>(VaultError::Reserve) && *final(vault) == *old(vault),
        },
{
    let solend_value = solend.convert_amount_lp_to_reserve(solend_lp_tokens)?;
    let port_value = port.convert_amount_lp_to_reserve(port_lp_tokens)?;
    let total = match vault_reserve_token_amount.checked_add(solend_value) {
        Some(a) => match a.checked_add(port_value) {
            Some(b) => b.checked_add(jet_value),
            None => None,
        },
        None => None,
    };
    match total {
        Some(_) => {
            handler(vault, vault_reserve_token_amount, solend_value, port_value, jet_value, slot);
            Ok(())
        },
        None => Err(VaultError::Code(ErrorCode::OverflowError)),
    }
}

} // verus!
