//! Rebalance: compute the allocations to the lending markets and store them.
use crate::asset_container::reserves::ReturnCalculator;
use crate::assets::Assets;
use crate::backend_fields::{allocations_of, apr_of_backends, max_yield_weights_of, weights_sum_result, BackendContainer};
use crate::errors::{ErrorCode, MathError, VaultError};
use crate::last_update::LastUpdate;
use crate::provider::Provider;
use crate::rate::{Rate, BIPS_SCALER, WAD};
use crate::state::{
    allocations_from_weights, Allocation, Allocations, RebalanceMode, StrategyType, StrategyWeights,
    StrategyWeightsArg, Vault,
};
use crate::strategies::{
    equal_allocation_weights, expected_return, max_yield_weights, returns_computable, verify, verify_result,
    EqualAllocationStrategy, MaxYieldStrategy,
};
use vstd::prelude::*;

verus! {

/// One provider's part of the APR: its weight times the return its asset expects with the
/// allocation deposited.
pub open spec fn apr_part<A: ReturnCalculator>(w: Rate, asset: A, allocation: Allocation) -> Result<int, VaultError> {
    match asset.spec_calculate_return(allocation.value, 0) {
        Err(e) => Err(e),
        Ok(ret) => if w.scaled * ret.scaled > u128::MAX {
            Err(VaultError::Math(MathError::MulOverflow))
        } else {
            Ok((w.scaled * ret.scaled) / (WAD as int))
        },
    }
}

/// The expected APR of weights and allocations: every part is computed first, in the
/// providers' order, then they are added up.
pub open spec fn apr_of<A: ReturnCalculator>(weights: StrategyWeights, allocations: Allocations, assets: Assets<A>) -> Result<Rate, VaultError> {
    match (
        apr_part(weights.solend, assets.solend, allocations.solend),
        apr_part(weights.port, assets.port, allocations.port),
        apr_part(weights.jet, assets.jet, allocations.jet),
    ) {
        (Err(e), _, _) => Err(e),
        (Ok(_), Err(e), _) => Err(e),
        (Ok(_), Ok(_), Err(e)) => Err(e),
        (Ok(a), Ok(b), Ok(c)) => if a + b > u128::MAX || a + b + c > u128::MAX {
            Err(VaultError::Math(MathError::AddOverflow))
        } else {
            Ok(Rate { scaled: (a + b + c) as u128 })
        },
    }
}

/// One provider's part of the APR.
pub(crate) fn part<A: ReturnCalculator>(w: Rate, asset: &A, allocation: Allocation) -> (r: Result<Rate, VaultError>)
    ensures
        match apr_part(w, *asset, allocation) {
            Ok(v) => r matches Ok(x) && x.scaled == v,
            Err(e) => r == Err::<Rate, VaultError>(e),
        },
{
    let ret = asset.calculate_return(allocation.value, 0)?;
    match w.try_mul(ret) {
        Ok(v) => Ok(v),
        Err(e) => Err(VaultError::Math(e)),
    }
}

/// The APR that weights and allocations are expected to earn.
pub fn get_apr<A: ReturnCalculator>(weights: &StrategyWeights, allocations: &Allocations, assets: &Assets<A>) -> (r: Result<Rate, VaultError>)
    ensures
        r == apr_of(*weights, *allocations, *assets),
{
    let a = part(weights.solend, &assets.solend, allocations.solend)?;
    let b = part(weights.port, &assets.port, allocations.port)?;
    let c = part(weights.jet, &assets.jet, allocations.jet)?;
    let ab = match Rate::zero().try_add(a) {
        Ok(v) => match v.try_add(b) {
            Ok(w) => w,
            Err(e) => {
                return Err(VaultError::Math(e));
            },
        },
        Err(e) => {
            return Err(VaultError::Math(e));
        },
    };
    match ab.try_add(c) {
        Ok(v) => Ok(v),
        Err(e) => Err(VaultError::Math(e)),
    }
}

/// Whether rebalance may run at `slot`: the vault must have been refreshed in that slot.
pub open spec fn refreshed_check(last_update: LastUpdate, slot: u64) -> Result<(), VaultError> {
    if last_update.stale {
        Err(VaultError::Code(ErrorCode::VaultIsNotRefreshed))
    } else if slot < last_update.slot {
        Err(VaultError::Code(ErrorCode::MathError))
    } else if slot - last_update.slot >= 1 {
        Err(VaultError::Code(ErrorCode::VaultIsNotRefreshed))
    } else {
        Ok(())
    }
}

/// The weights of the vault's strategy.
pub open spec fn strategy_weights<A: ReturnCalculator>(strategy_type: StrategyType, assets: Assets<A>) -> Result<StrategyWeights, VaultError> {
    match strategy_type {
        StrategyType::MaxYield => max_yield_weights(assets),
        StrategyType::EqualAllocation => Ok(equal_allocation_weights()),
    }
}

/// The allocations that rebalance stores, or the error it ends in. As a proof checker, the
/// proposed weights are taken when they add up to 100% and are expected to earn no less
/// than the strategy's own; as a calculator, the strategy's weights are taken.
pub open spec fn rebalance_result<A: ReturnCalculator>(
    vault: Vault,
    assets: Assets<A>,
    proposed_weights_arg: StrategyWeightsArg,
    slot: u64,
) -> Result<Allocations, VaultError> {
    match refreshed_check(vault.last_update, slot) {
        Err(e) => Err(e),
        Ok(_) => match strategy_weights(vault.strategy_type, assets) {
            Err(e) => Err(e),
            Ok(sw) => match allocations_from_weights(sw, vault.total_value, slot) {
                Err(e) => Err(e),
                Ok(sa) => match vault.rebalance_mode {
                    RebalanceMode::Calculator => Ok(sa),
                    RebalanceMode::ProofChecker => {
                        let pw = StrategyWeights {
                            solend: Rate { scaled: (proposed_weights_arg.solend * BIPS_SCALER) as u128 },
                            port: Rate { scaled: (proposed_weights_arg.port * BIPS_SCALER) as u128 },
                            jet: Rate { scaled: (proposed_weights_arg.jet * BIPS_SCALER) as u128 },
                        };
                        match allocations_from_weights(pw, vault.total_value, slot) {
                            Err(e) => Err(e),
                            Ok(pa) => match verify_result(pw) {
                                Err(e) => Err(e),
                                Ok(_) => match apr_of(pw, pa, assets) {
                                    Err(e) => Err(e),
                                    Ok(proposed_apr) => match apr_of(sw, sa, assets) {
                                        Err(e) => Err(e),
                                        Ok(proof_apr) => if proposed_apr.scaled < proof_apr.scaled {
                                            Err(VaultError::Code(ErrorCode::RebalanceProofCheckFailed))
                                        } else {
                                            Ok(pa)
                                        },
                                    },
                                },
                            },
                        }
                    },
                },
            },
        },
    }
}

/// Calculate and store optimal allocations to downstream lending markets. On success the
/// vault's allocations are replaced by the result, which is also returned; on failure the
/// vault is left as it was. The max-yield strategy ranks the assets by their returns, which
/// must all be computable.
pub fn handler<A: ReturnCalculator>(
    vault: &mut Vault,
    assets: &Assets<A>,
    proposed_weights_arg: StrategyWeightsArg,
    slot: u64,
) -> (r: Result<Allocations, VaultError>)
    requires
        old(vault).strategy_type == StrategyType::MaxYield ==> returns_computable(*assets),
    ensures
        r == rebalance_result(*old(vault), *assets, proposed_weights_arg, slot),
        r matches Ok(a) ==> *final(vault) == (Vault { allocations: a, ..*old(vault) }),
        r is Err ==> *final(vault) == *old(vault),
{
    match vault.last_update.is_stale(slot) {
        Ok(true) => {
            return Err(VaultError::Code(ErrorCode::VaultIsNotRefreshed));
        },
        Ok(false) => {},
        Err(e) => {
            return Err(e);
        },
    }
    let vault_value = vault.total_value;
    let strategy_weights = match vault.strategy_type {
        StrategyType::MaxYield => MaxYieldStrategy.calculate_weights(assets)?,
        StrategyType::EqualAllocation => EqualAllocationStrategy.calculate_weights(assets)?,
    };
    let strategy_allocations = Allocations::try_from_weights(strategy_weights, vault_value, slot)?;
    let final_allocations = match vault.rebalance_mode {
        RebalanceMode::ProofChecker => {
            let proposed_weights = StrategyWeights::from_arg(proposed_weights_arg);
            let proposed_allocations = Allocations::try_from_weights(proposed_weights, vault_value, slot)?;
            verify(&proposed_weights)?;
            let proposed_apr = get_apr(&proposed_weights, &proposed_allocations, assets)?;
            let proof_apr = get_apr(&strategy_weights, &strategy_allocations, assets)?;
            if proposed_apr.scaled < proof_apr.scaled {
                return Err(VaultError::Code(ErrorCode::RebalanceProofCheckFailed));
            }
            proposed_allocations
        },
        RebalanceMode::Calculator => strategy_allocations,
    };
    vault.allocations = final_allocations;
    Ok(final_allocations)
}

/// Amounts of `v` along three weights that add up to at most one add up to at most `v`.
proof fn lemma_amounts_within_value(w1: int, w2: int, w3: int, v: int)
    requires
        0 <= w1,
        0 <= w2,
        0 <= w3,
        w1 + w2 + w3 <= WAD,
        0 <= v,
    ensures
        (w1 * v) / (WAD as int) + (w2 * v) / (WAD as int) + (w3 * v) / (WAD as int) <= v,
{
    let d = WAD as int;
    let a1 = (w1 * v) / d;
    let a2 = (w2 * v) / d;
    let a3 = (w3 * v) / d;
    assert(w1 * v >= 0 && w2 * v >= 0 && w3 * v >= 0) by (nonlinear_arith)
        requires
            0 <= w1,
            0 <= w2,
            0 <= w3,
            0 <= v,
    ;
    assert(d * a1 <= w1 * v && d * a2 <= w2 * v && d * a3 <= w3 * v) by {
        vstd::arithmetic::div_mod::lemma_fundamental_div_mod(w1 * v, d);
        vstd::arithmetic::div_mod::lemma_fundamental_div_mod(w2 * v, d);
        vstd::arithmetic::div_mod::lemma_fundamental_div_mod(w3 * v, d);
        vstd::arithmetic::div_mod::lemma_mod_pos_bound(w1 * v, d);
        vstd::arithmetic::div_mod::lemma_mod_pos_bound(w2 * v, d);
        vstd::arithmetic::div_mod::lemma_mod_pos_bound(w3 * v, d);
    }
    assert(w1 * v + w2 * v + w3 * v <= d * v) by (nonlinear_arith)
        requires
            w1 + w2 + w3 <= d,
            0 <= v,
    ;
}

/// The allocations that weights give of a value hold each weight's share, rounded down.
proof fn lemma_allocations_from_weights_values(weights: StrategyWeights, vault_value: u64, slot: u64)
    requires
        allocations_from_weights(weights, vault_value, slot) is Ok,
    ensures
        ({
            let a = allocations_from_weights(weights, vault_value, slot)->Ok_0;
            &&& a.solend.value == (weights.solend.scaled * vault_value) / (WAD as int)
            &&& a.port.value == (weights.port.scaled * vault_value) / (WAD as int)
            &&& a.jet.value == (weights.jet.scaled * vault_value) / (WAD as int)
        }),
{
}

/// Rebalance never allocates more than the vault holds: whatever the strategy and mode,
/// the allocations it stores add up to at most the vault's value.
pub proof fn lemma_rebalance_within_vault_value<A: ReturnCalculator>(
    vault: Vault,
    assets: Assets<A>,
    proposed_weights_arg: StrategyWeightsArg,
    slot: u64,
)
    requires
        rebalance_result(vault, assets, proposed_weights_arg, slot) is Ok,
    ensures
        ({
            let a = rebalance_result(vault, assets, proposed_weights_arg, slot)->Ok_0;
            a.solend.value + a.port.value + a.jet.value <= vault.total_value
        }),
{
    let sw = strategy_weights(vault.strategy_type, assets)->Ok_0;
    let v = vault.total_value as int;
    match vault.rebalance_mode {
        RebalanceMode::Calculator => {
            lemma_allocations_from_weights_values(sw, vault.total_value, slot);
            assert(sw.solend.scaled + sw.port.scaled + sw.jet.scaled <= WAD);
            lemma_amounts_within_value(sw.solend.scaled as int, sw.port.scaled as int, sw.jet.scaled as int, v);
        },
        RebalanceMode::ProofChecker => {
            let pw = StrategyWeights {
                solend: Rate { scaled: (proposed_weights_arg.solend * BIPS_SCALER) as u128 },
                port: Rate { scaled: (proposed_weights_arg.port * BIPS_SCALER) as u128 },
                jet: Rate { scaled: (proposed_weights_arg.jet * BIPS_SCALER) as u128 },
            };
            lemma_allocations_from_weights_values(pw, vault.total_value, slot);
            assert(verify_result(pw) is Ok);
            lemma_amounts_within_value(pw.solend.scaled as int, pw.port.scaled as int, pw.jet.scaled as int, v);
        },
    }
}

/// Rebalancing over a container of backends, up to the APR comparison: the allocations to
/// take and whether the proposed APR is below the strategy's (never, for a calculator); or
/// the error it ends in. The strategy is max yield. As a proof checker, the proposed weights
/// (in basis points) must add up to 100%, and the allocations proposed are those of the
/// strategy's weights.
pub open spec fn backend_rebalance_stage<T: ReturnCalculator>(
    vault: Vault,
    assets: BackendContainer<T>,
    proposed_weights_arg: BackendContainer<u16>,
    slot: u64,
) -> Result<(BackendContainer<Allocation>, bool), VaultError> {
    match refreshed_check(vault.last_update, slot) {
        Err(e) => Err(e),
        Ok(_) => match max_yield_weights_of(assets) {
            Err(e) => Err(e),
            Ok(sw) => match allocations_of(sw, vault.total_value, slot) {
                Err(e) => Err(e),
                Ok(sa) => match vault.rebalance_mode {
                    RebalanceMode::Calculator => Ok((sa, false)),
                    RebalanceMode::ProofChecker => {
                        let pw = BackendContainer {
                            solend: Rate { scaled: (proposed_weights_arg.solend * BIPS_SCALER) as u128 },
                            port: Rate { scaled: (proposed_weights_arg.port * BIPS_SCALER) as u128 },
                            jet: Rate { scaled: (proposed_weights_arg.jet * BIPS_SCALER) as u128 },
                        };
                        match weights_sum_result(pw) {
                            Err(e) => Err(e),
                            Ok(_) => match apr_of_backends(assets, pw, sa) {
                                Err(e) => Err(e),
                                Ok(proposed_apr) => match apr_of_backends(assets, sw, sa) {
                                    Err(e) => Err(e),
                                    Ok(proof_apr) => Ok((sa, proposed_apr.scaled < proof_apr.scaled)),
                                },
                            },
                        }
                    },
                },
            },
        },
    }
}

/// What rebalancing over a container of backends stores, or the error it ends in: a proof
/// checker refuses the proposal when the proposed APR is below the strategy's.
pub open spec fn backend_rebalance_result<T: ReturnCalculator>(
    vault: Vault,
    assets: BackendContainer<T>,
    proposed_weights_arg: BackendContainer<u16>,
    slot: u64,
) -> Result<BackendContainer<Allocation>, VaultError> {
    match backend_rebalance_stage(vault, assets, proposed_weights_arg, slot) {
        Err(e) => Err(e),
        Ok((a, lower)) => match vault.rebalance_mode {
            RebalanceMode::Calculator => Ok(a),
            RebalanceMode::ProofChecker => if lower {
                Err(VaultError::Code(ErrorCode::RebalanceProofCheckFailed))
            } else {
                Ok(a)
            },
        },
    }
}

/// Rebalance over a container of backends, up to the APR comparison.
fn backend_rebalance_apr<T: ReturnCalculator>(
    vault: &Vault,
    assets: &BackendContainer<T>,
    proposed_weights_arg: BackendContainer<u16>,
    slot: u64,
) -> (r: Result<(BackendContainer<Allocation>, bool), VaultError>)
    requires
        vault.strategy_type == StrategyType::MaxYield,
        expected_return(assets.solend) is Ok,
        expected_return(assets.port) is Ok,
        expected_return(assets.jet) is Ok,
    ensures
        r == backend_rebalance_stage(*vault, *assets, proposed_weights_arg, slot),
{
    match vault.last_update.is_stale(slot) {
        Ok(true) => {
            return Err(VaultError::Code(ErrorCode::VaultIsNotRefreshed));
        },
        Ok(false) => {},
        Err(e) => {
            return Err(e);
        },
    }
    let vault_value = vault.total_value;
    let strategy_weights = assets.calculate_weights(vault.strategy_type)?;
    let strategy_allocations = BackendContainer::<Allocation>::try_from_weights(&strategy_weights, vault_value, slot)?;
    match vault.rebalance_mode {
        RebalanceMode::ProofChecker => {
            let proposed_weights = proposed_weights_arg.to_rates();
            let proposed_allocations = BackendContainer::<Allocation>::try_from_weights(&strategy_weights, vault_value, slot)?;
            proposed_weights.verify_weights()?;
            let proposed_apr = assets.get_apr(&proposed_weights, &proposed_allocations)?;
            let proof_apr = assets.get_apr(&strategy_weights, &strategy_allocations)?;
            Ok((proposed_allocations, proposed_apr.scaled < proof_apr.scaled))
        },
        RebalanceMode::Calculator => Ok((strategy_allocations, false)),
    }
}

/// Calculates and stores the allocations over a container of backends with the max-yield
/// strategy. As a proof checker, the proposal is refused when its APR is below the
/// strategy's. On success the allocations replace the vault's `allocations_chris` and are
/// returned; on failure the vault is left as it was.
pub fn handler_chris<T: ReturnCalculator>(
    vault: &mut Vault,
    assets: &BackendContainer<T>,
    proposed_weights_arg: BackendContainer<u16>,
    slot: u64,
) -> (r: Result<BackendContainer<Allocation>, VaultError>)
    requires
        old(vault).strategy_type == StrategyType::MaxYield,
        expected_return(assets.solend) is Ok,
        expected_return(assets.port) is Ok,
        expected_return(assets.jet) is Ok,
    ensures
        r == backend_rebalance_result(*old(vault), *assets, proposed_weights_arg, slot),
        r matches Ok(a) ==> *final(vault) == (Vault { allocations_chris: a, ..*old(vault) }),
        r is Err ==> *final(vault) == *old(vault),
{
    let (allocations, lower) = backend_rebalance_apr(vault, assets, proposed_weights_arg, slot)?;
    match vault.rebalance_mode {
        RebalanceMode::ProofChecker => if lower {
            return Err(VaultError::Code(ErrorCode::RebalanceProofCheckFailed));
        },
        RebalanceMode::Calculator => {},
    }
    vault.allocations_chris = allocations;
    Ok(allocations)
}

/// Calculates and stores the allocations over a container of backends with the max-yield
/// strategy, as `handler_chris` does: as a proof checker, the proposal is refused when its
/// APR is below the strategy's; on success the allocations replace `allocations_chris`.
pub fn handler_chris_concise<T: ReturnCalculator>(
    vault: &mut Vault,
    assets: &BackendContainer<T>,
    proposed_weights_arg: BackendContainer<u16>,
    slot: u64,
) -> (r: Result<BackendContainer<Allocation>, VaultError>)
    requires
        old(vault).strategy_type == StrategyType::MaxYield,
        expected_return(assets.solend) is Ok,
        expected_return(assets.port) is Ok,
        expected_return(assets.jet) is Ok,
    ensures
        r == backend_rebalance_result(*old(vault), *assets, proposed_weights_arg, slot),
        r matches Ok(a) ==> *final(vault) == (Vault { allocations_chris: a, ..*old(vault) }),
        r is Err ==> *final(vault) == *old(vault),
{
    let (allocations, lower) = backend_rebalance_apr(vault, assets, proposed_weights_arg, slot)?;
    match vault.rebalance_mode {
        RebalanceMode::ProofChecker => if lower {
            return Err(VaultError::Code(ErrorCode::RebalanceProofCheckFailed));
        },
        RebalanceMode::Calculator => {},
    }
    vault.allocations_chris = allocations;
    Ok(allocations)
}

/// Rebalancing over a container of backends never allocates more than the vault holds.
pub proof fn lemma_backend_rebalance_within_vault_value<T: ReturnCalculator>(
    vault: Vault,
    assets: BackendContainer<T>,
    proposed_weights_arg: BackendContainer<u16>,
    slot: u64,
)
    requires
        backend_rebalance_result(vault, assets, proposed_weights_arg, slot) is Ok,
    ensures
        ({
            let a = backend_rebalance_result(vault, assets, proposed_weights_arg, slot)->Ok_0;
            a.solend.value + a.port.value + a.jet.value <= vault.total_value
        }),
{
    let sw = max_yield_weights_of(assets)->Ok_0;
    assert(sw.solend.scaled + sw.port.scaled + sw.jet.scaled <= WAD);
    lemma_amounts_within_value(sw.solend.scaled as int, sw.port.scaled as int, sw.jet.scaled as int, vault.total_value as int);
}

} // verus!
