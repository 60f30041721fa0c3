//! Strategies that weigh the three lending markets.
use crate::asset_container::reserves::ReturnCalculator;
use crate::assets::Assets;
use crate::errors::{ErrorCode, MathError, VaultError};
use crate::provider::Provider;
use crate::rate::{Rate, WAD};
use crate::state::StrategyWeights;
use vstd::prelude::*;

verus! {

/// Gives every lending market the same weight.
#[derive(Clone, Copy, Debug)]
pub struct EqualAllocationStrategy;

/// Gives all the weight to the lending market with the highest expected return.
#[derive(Clone, Copy, Debug)]
pub struct MaxYieldStrategy;

/// The return an asset expects with nothing deposited.
pub open spec fn expected_return<A: ReturnCalculator>(a: A) -> Result<Rate, VaultError> {
    a.spec_calculate_return(0, 0)
}

/// Every asset's expected return can be computed.
pub open spec fn returns_computable<A: ReturnCalculator>(assets: Assets<A>) -> bool {
    &&& expected_return(assets.solend) is Ok
    &&& expected_return(assets.port) is Ok
    &&& expected_return(assets.jet) is Ok
}

/// Position of the highest of three returns, the last one among equals.
pub open spec fn last_max_position(a: int, b: int, c: int) -> int {
    if c >= a && c >= b {
        2
    } else if b >= a {
        1
    } else {
        0
    }
}

/// All the weight to the provider at position `m`.
pub open spec fn all_in(m: int) -> (int, int, int) {
    if m == 0 {
        (WAD as int, 0, 0)
    } else if m == 1 {
        (0, WAD as int, 0)
    } else {
        (0, 0, WAD as int)
    }
}

/// The weights of the max-yield strategy, or the error of the first asset whose return
/// fails.
pub open spec fn max_yield_weights<A: ReturnCalculator>(assets: Assets<A>) -> Result<StrategyWeights, VaultError> {
    match (expected_return(assets.solend), expected_return(assets.port), expected_return(assets.jet)) {
        (Err(e), _, _) => Err(e),
        (Ok(_), Err(e), _) => Err(e),
        (Ok(_), Ok(_), Err(e)) => Err(e),
        (Ok(a), Ok(b), Ok(c)) => {
            let (x, y, z) = all_in(last_max_position(a.scaled as int, b.scaled as int, c.scaled as int));
            Ok(
                StrategyWeights {
                    solend: Rate { scaled: x as u128 },
                    port: Rate { scaled: y as u128 },
                    jet: Rate { scaled: z as u128 },
                },
            )
        },
    }
}

/// The weights of the equal-allocation strategy: a third each, rounded down.
pub open spec fn equal_allocation_weights() -> StrategyWeights {
    StrategyWeights {
        solend: Rate { scaled: (WAD / 3) as u128 },
        port: Rate { scaled: (WAD / 3) as u128 },
        jet: Rate { scaled: (WAD / 3) as u128 },
    }
}

/// What checking proposed weights gives: they must add up to exactly 100%.
pub open spec fn verify_result(w: StrategyWeights) -> Result<(), VaultError> {
    if w.solend.scaled + w.port.scaled > u128::MAX || w.solend.scaled + w.port.scaled + w.jet.scaled > u128::MAX {
        Err(VaultError::Math(MathError::AddOverflow))
    } else if w.solend.scaled + w.port.scaled + w.jet.scaled == WAD {
        Ok(())
    } else {
        Err(VaultError::Code(ErrorCode::InvalidProposedWeights))
    }
}

impl EqualAllocationStrategy {
    /// Each of the assets gets the same share of 100%, rounded down.
    pub fn calculate_weights<A>(&self, assets: &Assets<A>) -> (r: Result<StrategyWeights, VaultError>)
        ensures
            r == Ok::<StrategyWeights, VaultError>(equal_allocation_weights()),
    {
        let num_assets = assets.len();
        let total = match Rate::from_percent(num_assets as u8).try_mul_u64(100) {
            Ok(v) => v,
            Err(e) => {
                return Err(VaultError::Math(e));
            },
        };
        let equal_allocation = match Rate::one().try_div(total) {
            Ok(v) => v,
            Err(e) => {
                return Err(VaultError::Math(e));
            },
        };
        proof {
            vstd::arithmetic::div_mod::lemma_div_denominator((WAD * WAD) as int, WAD as int, 3);
            vstd::arithmetic::div_mod::lemma_div_multiples_vanish(WAD as int, WAD as int);
            assert(total.scaled == 3 * WAD);
        }
        Ok(StrategyWeights { solend: equal_allocation, port: equal_allocation, jet: equal_allocation })
    }
}

impl MaxYieldStrategy {
    /// All the weight goes to the asset with the highest expected return (the last such
    /// asset when several tie); every asset's return must be computable.
    pub fn calculate_weights<A: ReturnCalculator>(&self, assets: &Assets<A>) -> (r: Result<StrategyWeights, VaultError>)
        requires
            returns_computable(*assets),
        ensures
            r == max_yield_weights(*assets),
    {
        let a = assets.solend.calculate_return(0, 0)?;
        let b = assets.port.calculate_return(0, 0)?;
        let c = assets.jet.calculate_return(0, 0)?;
        let max_yielding = if c.scaled >= a.scaled && c.scaled >= b.scaled {
            Provider::Jet
        } else if b.scaled >= a.scaled {
            Provider::Port
        } else {
            Provider::Solend
        };
        let one = Rate::one();
        let zero = Rate::zero();
        Ok(StrategyWeights {
            solend: if max_yielding == Provider::Solend { one } else { zero },
            port: if max_yielding == Provider::Port { one } else { zero },
            jet: if max_yielding == Provider::Jet { one } else { zero },
        })
    }
}

/// Fails if the proposed weights don't add up to 100%.
pub fn verify(proposed_weights: &StrategyWeights) -> (r: Result<(), VaultError>)
    ensures
        r == verify_result(*proposed_weights),
        proposed_weights.solend.scaled + proposed_weights.port.scaled > u128::MAX ==> r == Err::<(), VaultError>(
            VaultError::Math(MathError::AddOverflow),
        ),
        proposed_weights.solend.scaled + proposed_weights.port.scaled <= u128::MAX && proposed_weights.solend.scaled
            + proposed_weights.port.scaled + proposed_weights.jet.scaled > u128::MAX ==> r == Err::<(), VaultError>(
            VaultError::Math(MathError::AddOverflow),
        ),
        proposed_weights.solend.scaled + proposed_weights.port.scaled + proposed_weights.jet.scaled <= u128::MAX ==> (r
            is Ok <==> proposed_weights.solend.scaled + proposed_weights.port.scaled + proposed_weights.jet.scaled
            == WAD),
        proposed_weights.solend.scaled + proposed_weights.port.scaled + proposed_weights.jet.scaled <= u128::MAX && r
            is Err ==> r == Err::<(), VaultError>(VaultError::Code(ErrorCode::InvalidProposedWeights)),
{
    let s1 = match Rate::zero().try_add(proposed_weights.solend) {
        Ok(v) => v,
        Err(e) => {
            return Err(VaultError::Math(e));
        },
    };
    let s2 = match s1.try_add(proposed_weights.port) {
        Ok(v) => v,
        Err(e) => {
            return Err(VaultError::Math(e));
        },
    };
    let sum = match s2.try_add(proposed_weights.jet) {
        Ok(v) => v,
        Err(e) => {
            return Err(VaultError::Math(e));
        },
    };
    if sum.scaled != WAD {
        return Err(VaultError::Code(ErrorCode::InvalidProposedWeights));
    }
    Ok(())
}

} // verus!
