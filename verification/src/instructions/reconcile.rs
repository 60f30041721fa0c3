//! Reconcile: move funds between the vault and one lending market so that the market holds
//! the allocation that rebalance stored.
use crate::errors::{ErrorCode, VaultError};
use crate::markets::CollateralExchange;
use crate::provider::Provider;
use crate::state::Vault;
use vstd::prelude::*;

verus! {

/// Allocations older than this many slots must be recomputed before they are reconciled.
pub const MAX_SLOTS_SINCE_ALLOC_UPDATE: u64 = 20;

/// What reconciling one lending market calls for.
#[derive(Clone, Copy, Debug, PartialEq, Eq, Structural)]
pub enum ReconcilePlan {
    /// Deposit this many reserve tokens into the market.
    Deposit(u64),
    /// The market holds more than its allocation: redeem the LP tokens beyond it.
    RedeemExcess,
}

/// The plan for a market whose position is worth `current_value` reserve tokens, while the
/// vault holds `reserve_tokens_in_vault`.
pub open spec fn reconcile_plan(vault: Vault, provider: Provider, current_value: u64, reserve_tokens_in_vault: u64, slot: u64) -> Result<ReconcilePlan, VaultError> {
    let allocation = vault.allocations.at(provider);
    if slot < allocation.last_update.slot {
        Err(VaultError::Code(ErrorCode::MathError))
    } else if slot - allocation.last_update.slot > MAX_SLOTS_SINCE_ALLOC_UPDATE {
        Err(VaultError::Code(ErrorCode::AllocationIsNotUpdated))
    } else if allocation.value >= current_value {
        let missing = allocation.value - current_value;
        Ok(ReconcilePlan::Deposit(if missing <= reserve_tokens_in_vault { missing as u64 } else { reserve_tokens_in_vault }))
    } else {
        Ok(ReconcilePlan::RedeemExcess)
    }
}

/// Decides how to reconcile a market after rebalance: deposit what its allocation still
/// lacks (no more than the vault holds), or redeem the excess. Fails when the allocation was
/// not updated within the last `MAX_SLOTS_SINCE_ALLOC_UPDATE` slots.
pub fn plan(vault: &Vault, provider: Provider, current_value: u64, reserve_tokens_in_vault: u64, slot: u64) -> (r: Result<ReconcilePlan, VaultError>)
    ensures
        r == reconcile_plan(*vault, provider, current_value, reserve_tokens_in_vault, slot),
{
    let allocation = vault.allocations.get(provider);
    if allocation.last_update.slots_elapsed(slot)? > MAX_SLOTS_SINCE_ALLOC_UPDATE {
        return Err(VaultError::Code(ErrorCode::AllocationIsNotUpdated));
    }
    match allocation.value.checked_sub(current_value) {
        Some(tokens_to_deposit) => {
            let checked = if tokens_to_deposit <= reserve_tokens_in_vault {
                tokens_to_deposit
            } else {
                reserve_tokens_in_vault
            };
            Ok(ReconcilePlan::Deposit(checked))
        },
        None => Ok(ReconcilePlan::RedeemExcess),
    }
}

/// The LP tokens to redeem so that the vault keeps `lp_tokens_for_allocation` of them;
/// fails when it holds fewer.
pub fn redeem_amount(lp_tokens_in_vault: u64, lp_tokens_for_allocation: u64) -> (r: Result<u64, VaultError>)
    ensures
        lp_tokens_for_allocation <= lp_tokens_in_vault ==> r == Ok::<u64, VaultError>(
            (lp_tokens_in_vault - lp_tokens_for_allocation) as u64,
        ),
        lp_tokens_for_allocation > lp_tokens_in_vault ==> r == Err::<u64, VaultError>(VaultError::Code(ErrorCode::MathError)),
{
    match lp_tokens_in_vault.checked_sub(lp_tokens_for_allocation) {
        Some(v) => Ok(v),
        None => Err(VaultError::Code(ErrorCode::MathError)),
    }
}

/// Once a market is reconciled, its allocation is emptied and marked stale, so that it is
/// reconciled at most once per rebalance.
pub fn complete(vault: &mut Vault, provider: Provider)
    ensures
        final(vault).allocations.at(provider).value == 0,
        final(vault).allocations.at(provider).last_update.stale,
        final(vault).allocations.at(provider).last_update.slot == old(vault).allocations.at(provider).last_update.slot,
        forall|q: Provider| q != provider ==> final(vault).allocations.at(q) == old(vault).allocations.at(q),
        *final(vault) == (Vault { allocations: final(vault).allocations, ..*old(vault) }),
{
    vault.allocations.reset(provider);
}

/// What reconciling a market does with it.
#[derive(Clone, Copy, Debug, PartialEq, Eq, Structural)]
pub enum ReconcileAction {
    /// Deposit this many reserve tokens into the market.
    Deposit(u64),
    /// Redeem this many LP tokens from the market.
    Redeem(u64),
}

/// The action that reconciling calls for. With no withdrawal (`withdraw_option` zero) the
/// market's position, valued through its exchange rate, is brought to its allocation: the
/// plan's deposit, or the LP tokens beyond those the allocation is worth. Otherwise the
/// withdrawal, converted from LP to reserve tokens, is redeemed.
pub open spec fn reconcile_action<M: CollateralExchange>(
    vault: Vault,
    provider: Provider,
    market: M,
    lp_tokens_in_vault: u64,
    reserve_tokens_in_vault: u64,
    slot: u64,
    withdraw_option: u64,
) -> Result<ReconcileAction, VaultError> {
    if withdraw_option == 0 {
        match market.lp_to_reserve(lp_tokens_in_vault) {
            None => Err(VaultError::Reserve),
            Some(current_value) => match reconcile_plan(vault, provider, current_value, reserve_tokens_in_vault, slot) {
                Err(e) => Err(e),
                Ok(ReconcilePlan::Deposit(n)) => Ok(ReconcileAction::Deposit(n)),
                Ok(ReconcilePlan::RedeemExcess) => match market.reserve_to_lp(vault.allocations.at(provider).value) {
                    None => Err(VaultError::Reserve),
                    Some(kept) => if kept <= lp_tokens_in_vault {
                        Ok(ReconcileAction::Redeem((lp_tokens_in_vault - kept) as u64))
                    } else {
                        Err(VaultError::Code(ErrorCode::MathError))
                    },
                },
            },
        }
    } else {
        match market.lp_to_reserve(withdraw_option) {
            None => Err(VaultError::Reserve),
            Some(tokens) => Ok(ReconcileAction::Redeem(tokens)),
        }
    }
}

/// Reconciles one market: returns the deposit or redemption to perform, and, with no
/// withdrawal, empties the provider's allocation. On failure the vault is left as it was.
pub fn handler<M: CollateralExchange>(
    vault: &mut Vault,
    provider: Provider,
    market: &M,
    lp_tokens_in_vault: u64,
    reserve_tokens_in_vault: u64,
    slot: u64,
    withdraw_option: u64,
) -> (r: Result<ReconcileAction, VaultError>)
    ensures
        r == reconcile_action(*old(vault), provider, *market, lp_tokens_in_vault, reserve_tokens_in_vault, slot, withdraw_option),
        r is Ok && withdraw_option == 0 ==> {
            &&& final(vault).allocations.at(provider).value == 0
            &&& final(vault).allocations.at(provider).last_update.stale
            &&& final(vault).allocations.at(provider).last_update.slot == old(vault).allocations.at(provider).last_update.slot
            &&& forall|q: Provider| q != provider ==> final(vault).allocations.at(q) == old(vault).allocations.at(q)
            &&& *final(vault) == (Vault { allocations: final(vault).allocations, ..*old(vault) })
        },
        !(r is Ok && withdraw_option == 0) ==> *final(vault) == *old(vault),
{
    if withdraw_option != 0 {
        let tokens_to_redeem = market.convert_amount_lp_to_reserve(withdraw_option)?;
        return Ok(ReconcileAction::Redeem(tokens_to_redeem));
    }
    let current_value = market.convert_amount_lp_to_reserve(lp_tokens_in_vault)?;
    let action = match plan(vault, provider, current_value, reserve_tokens_in_vault, slot)? {
        ReconcilePlan::Deposit(n) => ReconcileAction::Deposit(n),
        ReconcilePlan::RedeemExcess => {
            let allocation = vault.allocations.get(provider);
            let kept = market.convert_amount_reserve_to_lp(allocation.value)?;
            ReconcileAction::Redeem(redeem_amount(lp_tokens_in_vault, kept)?)
        },
    };
    complete(vault, provider);
    Ok(action)
}

/// The action that reconciling a market directly calls for, without regard to when its
/// allocation was set. With no withdrawal the market's position, valued through its
/// exchange rate, is brought to its allocation: what is missing, no more than the vault
/// holds, is deposited, or the LP tokens beyond those the allocation is worth are redeemed.
/// A withdrawal of reserve tokens redeems the LP tokens they are worth.
pub open spec fn direct_reconcile_action<M: CollateralExchange>(
    vault: Vault,
    provider: Provider,
    market: M,
    lp_tokens_in_vault: u64,
    reserve_tokens_in_vault: u64,
    withdraw_option: Option<u64>,
) -> Result<ReconcileAction, VaultError> {
    match withdraw_option {
        None => match market.lp_to_reserve(lp_tokens_in_vault) {
            None => Err(VaultError::Reserve),
            Some(current_value) => {
                let target = vault.allocations.at(provider).value;
                if target >= current_value {
                    let missing = (target - current_value) as u64;
                    Ok(ReconcileAction::Deposit(if missing <= reserve_tokens_in_vault { missing } else { reserve_tokens_in_vault }))
                } else {
                    match market.reserve_to_lp(target) {
                        None => Err(VaultError::Reserve),
                        Some(kept) => if kept <= lp_tokens_in_vault {
                            Ok(ReconcileAction::Redeem((lp_tokens_in_vault - kept) as u64))
                        } else {
                            Err(VaultError::Code(ErrorCode::MathError))
                        },
                    }
                }
            },
        },
        Some(withdraw_amount) => match market.reserve_to_lp(withdraw_amount) {
            None => Err(VaultError::Reserve),
            Some(tokens) => Ok(ReconcileAction::Redeem(tokens)),
        },
    }
}

/// Reconciles one market directly: returns the deposit or redemption to perform, and, with
/// no withdrawal, empties the provider's allocation. On failure the vault is left as it was.
pub fn direct_handler<M: CollateralExchange>(
    vault: &mut Vault,
    provider: Provider,
    market: &M,
    lp_tokens_in_vault: u64,
    reserve_tokens_in_vault: u64,
    withdraw_option: Option<u64>,
) -> (r: Result<ReconcileAction, VaultError>)
    ensures
        r == direct_reconcile_action(*old(vault), provider, *market, lp_tokens_in_vault, reserve_tokens_in_vault, withdraw_option),
        r is Ok && withdraw_option is None ==> {
            &&& final(vault).allocations.at(provider).value == 0
            &&& final(vault).allocations.at(provider).last_update.stale
            &&& final(vault).allocations.at(provider).last_update.slot == old(vault).allocations.at(provider).last_update.slot
            &&& forall|q: Provider| q != provider ==> final(vault).allocations.at(q) == old(vault).allocations.at(q)
            &&& *final(vault) == (Vault { allocations: final(vault).allocations, ..*old(vault) })
        },
        !(r is Ok && withdraw_option is None) ==> *final(vault) == *old(vault),
{
    let action = match withdraw_option {
        None => {
            let current_value = market.convert_amount_lp_to_reserve(lp_tokens_in_vault)?;
            let allocation = vault.allocations.get(provider);
            match allocation.value.checked_sub(current_value) {
                Some(tokens_to_deposit) => {
                    let checked = if tokens_to_deposit <= reserve_tokens_in_vault {
                        tokens_to_deposit
                    } else {
                        reserve_tokens_in_vault
                    };
                    ReconcileAction::Deposit(checked)
                },
                None => {
                    let kept = market.convert_amount_reserve_to_lp(allocation.value)?;
                    ReconcileAction::Redeem(redeem_amount(lp_tokens_in_vault, kept)?)
                },
            }
        },
        Some(withdraw_amount) => {
            let tokens_to_redeem = market.convert_amount_reserve_to_lp(withdraw_amount)?;
            return Ok(ReconcileAction::Redeem(tokens_to_redeem));
        },
    };
    complete(vault, provider);
    Ok(action)
}

} // verus!
