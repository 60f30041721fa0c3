//! Token amounts: containers of `u64`.
use super::AssetContainerGeneric;
use crate::errors::{MathError, VaultError};
use crate::provider::{Provider, PROVIDER_COUNT};
use crate::rate::{Decimal, Rate, WAD};
use vstd::prelude::*;

verus! {

/// The amount that a weight gives of `total`: the weight times the total, rounded down.
pub open spec fn weight_to_amount(w: Option<Rate>, total: u64) -> Result<Option<u64>, MathError> {
    match w {
        None => Ok(None),
        Some(r) => if r.scaled * total > u128::MAX {
            Err(MathError::MulOverflow)
        } else if (r.scaled * total) / (WAD as int) > u64::MAX {
            Err(MathError::UnableToRoundU64)
        } else {
            Ok(Some(((r.scaled * total) / (WAD as int)) as u64))
        },
    }
}

/// The amounts of the first `n` slots, or the error of the first slot that fails.
pub open spec fn amounts_upto(s: Seq<Option<Rate>>, total: u64, n: int) -> Result<Seq<Option<u64>>, MathError>
    decreases n,
{
    if n <= 0 {
        Ok(Seq::empty())
    } else {
        match amounts_upto(s, total, n - 1) {
            Err(e) => Err(e),
            Ok(v) => match weight_to_amount(s[n - 1], total) {
                Err(e) => Err(e),
                Ok(a) => Ok(v.push(a)),
            },
        }
    }
}

/// Once a slot fails, the amounts of any longer prefix fail with the same error.
pub proof fn lemma_amounts_err_persists(s: Seq<Option<Rate>>, total: u64, n: int, m: int)
    requires
        0 <= n <= m,
        amounts_upto(s, total, n) is Err,
    ensures
        amounts_upto(s, total, m) == amounts_upto(s, total, n),
    decreases m - n,
{
    if n < m {
        lemma_amounts_err_persists(s, total, n, m - 1);
    }
}

impl<const N: usize> AssetContainerGeneric<u64, N> {
    /// Calculates $ allocations for a corresponding set of % allocations
    /// and a given total amount
    pub fn try_from_weights(rates: &AssetContainerGeneric<Rate, N>, total_amount: u64) -> (r: Result<Self, VaultError>)
        requires
            N >= PROVIDER_COUNT,
        ensures
            match amounts_upto(rates@, total_amount, PROVIDER_COUNT as int) {
                Ok(v) => r matches Ok(c) && c@.len() == N && c@.take(PROVIDER_COUNT as int) == v
                    && forall|i: int| PROVIDER_COUNT <= i < N ==> c@[i] is None,
                Err(e) => r == Err::<Self, VaultError>(VaultError::Math(e)),
            },
    {
        let mut res: Self = AssetContainerGeneric::empty();
        let mut i: usize = 0;
        while i < PROVIDER_COUNT
            invariant
                i <= PROVIDER_COUNT,
                N >= PROVIDER_COUNT,
                res@.len() == N,
                amounts_upto(rates@, total_amount, i as int) matches Ok(v) && res@.take(i as int) == v,
                forall|j: int| i <= j < N ==> res@[j] is None,
            decreases PROVIDER_COUNT - i,
        {
            let p = Provider::from_index(i);
            let ghost prev = res@;
            match rates.index(p) {
                Some(w) => {
                    let product = match w.try_mul_u64(total_amount) {
                        Ok(v) => v,
                        Err(e) => {
                            proof {
                                lemma_amounts_err_persists(rates@, total_amount, i + 1, PROVIDER_COUNT as int);
                            }
                            return Err(VaultError::Math(e));
                        },
                    };
                    let amount = match Decimal::from_rate(product).try_floor_u64() {
                        Ok(v) => v,
                        Err(e) => {
                            proof {
                                lemma_amounts_err_persists(rates@, total_amount, i + 1, PROVIDER_COUNT as int);
                            }
                            return Err(VaultError::Math(e));
                        },
                    };
                    res.set(p, Some(amount));
                },
                None => {},
            }
            proof {
                assert(res@.take(i + 1) =~= prev.take(i as int).push(res@[i as int]));
            }
            i = i + 1;
        }
        Ok(res)
    }
}

} // verus!
