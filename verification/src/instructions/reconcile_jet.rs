//! Reconcile Jet: bring the vault's Jet position to its allocation, or redeem a withdrawal
//! from it. Jet values the position and converts reserve tokens to deposit notes itself;
//! what is decided here is what to deposit or redeem.
use crate::provider::Provider;
use crate::state::{Allocations, Vault};
use vstd::prelude::*;

verus! {

/// What reconciling Jet does with it.
#[derive(Clone, Copy, Debug, PartialEq, Eq, Structural)]
pub enum JetStep {
    /// The allocation is already met: nothing to move.
    Nothing,
    /// Deposit this many reserve tokens into Jet.
    Deposit(u64),
    /// Redeem the deposit notes worth this many reserve tokens.
    Redeem(u64),
}

/// The step that reconciling Jet calls for, when its position is worth `current_jet_value`
/// reserve tokens. With no withdrawal, what the allocation still lacks is deposited (no more
/// than the vault holds), or what the position holds beyond it is redeemed. A withdrawal is
/// redeemed as it is.
pub open spec fn jet_step(vault: Vault, current_jet_value: u64, reserve_tokens_in_vault: u64, withdraw_option: Option<u64>) -> JetStep {
    match withdraw_option {
        None => {
            let target = vault.allocations.jet.value;
            if target >= current_jet_value {
                let missing = (target - current_jet_value) as u64;
                if missing == 0 {
                    JetStep::Nothing
                } else if missing <= reserve_tokens_in_vault {
                    JetStep::Deposit(missing)
                } else {
                    JetStep::Deposit(reserve_tokens_in_vault)
                }
            } else {
                JetStep::Redeem((current_jet_value - target) as u64)
            }
        },
        Some(withdraw_amount) => JetStep::Redeem(withdraw_amount),
    }
}

/// Reconciles Jet: returns the step to take, and, with no withdrawal, empties the Jet
/// allocation and marks it stale; with a withdrawal the vault is left as it was.
pub fn handler(vault: &mut Vault, current_jet_value: u64, reserve_tokens_in_vault: u64, withdraw_option: Option<u64>) -> (r: JetStep)
    ensures
        r == jet_step(*old(vault), current_jet_value, reserve_tokens_in_vault, withdraw_option),
        withdraw_option is None ==> {
            &&& final(vault).allocations.jet.value == 0
            &&& final(vault).allocations.jet.last_update.stale
            &&& final(vault).allocations.jet.last_update.slot == old(vault).allocations.jet.last_update.slot
            &&& *final(vault) == (Vault {
                allocations: Allocations { jet: final(vault).allocations.jet, ..old(vault).allocations },
                ..*old(vault)
            })
        },
        withdraw_option is Some ==> *final(vault) == *old(vault),
{
    match withdraw_option {
        None => {
            let target = vault.allocations.jet.value;
            let step = match target.checked_sub(current_jet_value) {
                Some(tokens_to_deposit) => {
                    if tokens_to_deposit == 0 {
                        JetStep::Nothing
                    } else if tokens_to_deposit <= reserve_tokens_in_vault {
                        JetStep::Deposit(tokens_to_deposit)
                    } else {
                        JetStep::Deposit(reserve_tokens_in_vault)
                    }
                },
                None => JetStep::Redeem(current_jet_value - target),
            };
            let ghost before = *vault;
            vault.allocations.reset(Provider::Jet);
            proof {
                assert(vault.allocations.at(Provider::Solend) == before.allocations.at(Provider::Solend));
                assert(vault.allocations.at(Provider::Port) == before.allocations.at(Provider::Port));
            }
            step
        },
        Some(withdraw_amount) => JetStep::Redeem(withdraw_amount),
    }
}

} // verus!
