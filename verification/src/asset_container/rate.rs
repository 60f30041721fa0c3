//! Weights: containers of rates.
use super::{count_some, AssetContainerGeneric};
use crate::errors::{ErrorCode, MathError, VaultError};
use crate::provider::{Provider, PROVIDER_COUNT};
use crate::rate::{Rate, BIPS_SCALER, PERCENT_SCALER, WAD};
use vstd::prelude::*;

verus! {

/// The scaled value held in a slot, or zero for an empty slot.
pub open spec fn slot_val(o: Option<Rate>) -> int {
    match o {
        Some(r) => r.scaled as int,
        None => 0,
    }
}

/// Sum of the rates held in the first `n` slots.
pub open spec fn sum_some(s: Seq<Option<Rate>>, n: int) -> int
    decreases n,
{
    if n <= 0 {
        0
    } else {
        sum_some(s, n - 1) + slot_val(s[n - 1])
    }
}

/// Largest rate held in the first `n` slots, or -1 when they are all empty.
pub open spec fn max_some(s: Seq<Option<Rate>>, n: int) -> int
    decreases n,
{
    if n <= 0 {
        -1
    } else {
        let m = max_some(s, n - 1);
        match s[n - 1] {
            Some(r) => if r.scaled > m { r.scaled as int } else { m },
            None => m,
        }
    }
}

/// Whether weights are acceptable: at least one weight, adding up to exactly 100%, none
/// above the allocation cap.
pub open spec fn weights_valid(s: Seq<Option<Rate>>, allocation_cap_pct: u8) -> bool {
    &&& count_some(s, PROVIDER_COUNT as int) > 0
    &&& sum_some(s, PROVIDER_COUNT as int) == WAD
    &&& max_some(s, PROVIDER_COUNT as int) <= allocation_cap_pct * PERCENT_SCALER
}

/// Sums over more slots are no smaller.
pub proof fn lemma_sum_some_monotone(s: Seq<Option<Rate>>, n: int, m: int)
    requires
        0 <= n <= m,
    ensures
        sum_some(s, n) <= sum_some(s, m),
    decreases m - n,
{
    if n < m {
        lemma_sum_some_monotone(s, n, m - 1);
    }
}

/// The largest weight is held, and it bounds every weight.
pub proof fn lemma_max_some_bounds(s: Seq<Option<Rate>>, n: int)
    requires
        0 <= n <= s.len(),
    ensures
        forall|i: int| 0 <= i < n && s[i] is Some ==> slot_val(#[trigger] s[i]) <= max_some(s, n),
        count_some(s, n) > 0 <==> max_some(s, n) >= 0,
    decreases n,
{
    if n > 0 {
        lemma_max_some_bounds(s, n - 1);
    }
}

impl<const N: usize> AssetContainerGeneric<Rate, N> {
    /// Return error if weights do not add up to 100%
    /// OR if any are greater than the allocation cap
    pub fn verify_weights(&self, allocation_cap_pct: u8) -> (r: Result<(), VaultError>)
        requires
            N >= PROVIDER_COUNT,
        ensures
            count_some(self@, PROVIDER_COUNT as int) == 0 ==> r == Err::<(), VaultError>(
                VaultError::Code(ErrorCode::InvalidProposedWeights),
            ),
            count_some(self@, PROVIDER_COUNT as int) > 0 && sum_some(self@, PROVIDER_COUNT as int) > u128::MAX
                ==> r == Err::<(), VaultError>(VaultError::Math(MathError::AddOverflow)),
            sum_some(self@, PROVIDER_COUNT as int) <= u128::MAX ==> (r is Ok <==> weights_valid(self@, allocation_cap_pct)),
            sum_some(self@, PROVIDER_COUNT as int) <= u128::MAX && r is Err ==> r == Err::<(), VaultError>(
                VaultError::Code(ErrorCode::InvalidProposedWeights),
            ),
    {
        let cap = Rate::from_percent(allocation_cap_pct);
        let ghost s = self@;
        // largest weight
        let mut max: Option<Rate> = None;
        let mut i: usize = 0;
        while i < PROVIDER_COUNT
            invariant
                i <= PROVIDER_COUNT,
                N >= PROVIDER_COUNT,
                s == self@,
                max is None <==> count_some(s, i as int) == 0,
                max matches Some(m) ==> m.scaled == max_some(s, i as int),
                max is None ==> max_some(s, i as int) == -1,
            decreases PROVIDER_COUNT - i,
        {
            let p = Provider::from_index(i);
            match self.index(p) {
                Some(w) => {
                    match max {
                        Some(m) => {
                            if w.scaled > m.scaled {
                                max = Some(*w);
                            }
                        },
                        None => {
                            max = Some(*w);
                        },
                    }
                },
                None => {},
            }
            i = i + 1;
        }
        let max = match max {
            Some(m) => m,
            None => {
                return Err(VaultError::Code(ErrorCode::InvalidProposedWeights));
            },
        };
        // sum of the weights
        let mut sum = Rate::zero();
        let mut i: usize = 0;
        while i < PROVIDER_COUNT
            invariant
                i <= PROVIDER_COUNT,
                N >= PROVIDER_COUNT,
                s == self@,
                count_some(s, PROVIDER_COUNT as int) > 0,
                sum.scaled == sum_some(s, i as int),
            decreases PROVIDER_COUNT - i,
        {
            let p = Provider::from_index(i);
            match self.index(p) {
                Some(w) => {
                    match sum.try_add(*w) {
                        Ok(v) => {
                            sum = v;
                        },
                        Err(e) => {
                            proof {
                                lemma_sum_some_monotone(s, i + 1, PROVIDER_COUNT as int);
                            }
                            return Err(VaultError::Math(e));
                        },
                    }
                },
                None => {},
            }
            i = i + 1;
        }
        if sum.scaled == WAD && max.scaled <= cap.scaled {
            Ok(())
        } else {
            Err(VaultError::Code(ErrorCode::InvalidProposedWeights))
        }
    }
}

impl<const N: usize> AssetContainerGeneric<u16, N> {
    /// Weights from basis points: each filled slot becomes the rate of that many basis
    /// points, each empty slot a zero rate; the slots past the providers' stay empty.
    pub fn to_rates(&self) -> (r: AssetContainerGeneric<Rate, N>)
        requires
            N >= PROVIDER_COUNT,
        ensures
            r@.len() == N,
            forall|i: int|
                0 <= i < PROVIDER_COUNT ==> #[trigger] r@[i] == Some(
                    Rate {
                        scaled: match self@[i] {
                            Some(b) => (b * BIPS_SCALER) as u128,
                            None => 0u128,
                        },
                    },
                ),
            forall|i: int| PROVIDER_COUNT <= i < N ==> r@[i] is None,
    {
        let mut res: AssetContainerGeneric<Rate, N> = AssetContainerGeneric::empty();
        let mut i: usize = 0;
        while i < PROVIDER_COUNT
            invariant
                i <= PROVIDER_COUNT,
                N >= PROVIDER_COUNT,
                res@.len() == N,
                forall|j: int|
                    0 <= j < i ==> #[trigger] res@[j] == Some(
                        Rate {
                            scaled: match self@[j] {
                                Some(b) => (b * BIPS_SCALER) as u128,
                                None => 0u128,
                            },
                        },
                    ),
                forall|j: int| i <= j < N ==> res@[j] is None,
            decreases PROVIDER_COUNT - i,
        {
            let p = Provider::from_index(i);
            let v = match self.index(p) {
                Some(b) => Rate::from_bips(*b as u64),
                None => Rate::zero(),
            };
            res.set(p, Some(v));
            i = i + 1;
        }
        res
    }
}

} // verus!
