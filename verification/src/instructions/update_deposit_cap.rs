//! Update the deposit cap.
use crate::state::Vault;
use vstd::prelude::*;

verus! {

/// Sets the vault's deposit cap; nothing else changes.
pub fn handler(vault: &mut Vault, deposit_cap_new_value: u64)
    ensures
        *final(vault) == (Vault { deposit_cap: deposit_cap_new_value, ..*old(vault) }),
{
    vault.deposit_cap = deposit_cap_new_value;
}

} // verus!
