//! Reconcile Solend: bring the vault's Solend position to its allocation, or redeem a
//! withdrawal from it.
use crate::errors::VaultError;
use crate::instructions::reconcile::{direct_handler, direct_reconcile_action, ReconcileAction};
use crate::markets::SolendReserve;
use crate::provider::Provider;
use crate::state::{Allocations, Vault};
use vstd::prelude::*;

verus! {

/// Reconciles Solend through its reserve's exchange rate; with no withdrawal the Solend
/// allocation is emptied. On failure the vault is left as it was.
pub fn handler(
    vault: &mut Vault,
    solend: &SolendReserve,
    lp_tokens_in_vault: u64,
    reserve_tokens_in_vault: u64,
    withdraw_option: Option<u64>,
) -> (r: Result<ReconcileAction, VaultError>)
    ensures
        r == direct_reconcile_action(*old(vault), Provider::Solend, *solend, lp_tokens_in_vault, reserve_tokens_in_vault, withdraw_option),
        r is Ok && withdraw_option is None ==> {
            &&& final(vault).allocations.solend.value == 0
            &&& final(vault).allocations.solend.last_update.stale
            &&& final(vault).allocations.solend.last_update.slot == old(vault).allocations.solend.last_update.slot
            &&& *final(vault) == (Vault {
                allocations: Allocations { solend: final(vault).allocations.solend, ..old(vault).allocations },
                ..*old(vault)
            })
        },
        !(r is Ok && withdraw_option is None) ==> *final(vault) == *old(vault),
{
    let ghost before = *vault;
    let r = direct_handler(vault, Provider::Solend, solend, lp_tokens_in_vault, reserve_tokens_in_vault, withdraw_option);
    proof {
        if r is Ok && withdraw_option is None {
            assert(vault.allocations.at(Provider::Port) == before.allocations.at(Provider::Port));
            assert(vault.allocations.at(Provider::Jet) == before.allocations.at(Provider::Jet));
        }
    }
    r
}

} // verus!
