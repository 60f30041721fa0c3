//! Reconcile Port: bring the vault's Port position to its allocation, or redeem a
//! withdrawal from it.
use crate::errors::VaultError;
use crate::instructions::reconcile::{direct_handler, direct_reconcile_action, ReconcileAction};
use crate::markets::PortReserve;
use crate::provider::Provider;
use crate::state::{Allocations, Vault};
use vstd::prelude::*;

verus! {

/// Reconciles Port through its reserve's exchange rate; with no withdrawal the Port
/// allocation is emptied. On failure the vault is left as it was.
pub fn handler(
    vault: &mut Vault,
    port: &PortReserve,
    lp_tokens_in_vault: u64,
    reserve_tokens_in_vault: u64,
    withdraw_option: Option<u64>,
) -> (r: Result<ReconcileAction, VaultError>)
    ensures
        r == direct_reconcile_action(*old(vault), Provider::Port, *port, lp_tokens_in_vault, reserve_tokens_in_vault, withdraw_option),
        r is Ok && withdraw_option is None ==> {
            &&& final(vault).allocations.port.value == 0
            &&& final(vault).allocations.port.last_update.stale
            &&& final(vault).allocations.port.last_update.slot == old(vault).allocations.port.last_update.slot
            &&& *final(vault) == (Vault {
                allocations: Allocations { port: final(vault).allocations.port, ..old(vault).allocations },
                ..*old(vault)
            })
        },
        !(r is Ok && withdraw_option is None) ==> *final(vault) == *old(vault),
{
    let ghost before = *vault;
    let r = direct_handler(vault, Provider::Port, port, lp_tokens_in_vault, reserve_tokens_in_vault, withdraw_option);
    proof {
        if r is Ok && withdraw_option is None {
            assert(vault.allocations.at(Provider::Solend) == before.allocations.at(Provider::Solend));
            assert(vault.allocations.at(Provider::Jet) == before.allocations.at(Provider::Jet));
        }
    }
    r
}

} // verus!
