//! A container that holds a value for every supported lending market.
pub mod compare;

use crate::asset_container::rate::{slot_val, sum_some};
use crate::asset_container::reserves::{
    apr_upto, equal_weights, first_return_error, is_return_ranking, ranked_weights, ReturnCalculator,
};
use crate::asset_container::{count_some, opt_ref, AssetContainer, AssetContainerGeneric};
use crate::errors::{ErrorCode, MathError, VaultError};
use crate::last_update::LastUpdate;
use crate::provider::{Provider, PROVIDER_COUNT};
use crate::rate::{Rate, BIPS_SCALER, PERCENT_SCALER, WAD};
use crate::state::{allocation_from_weight, weight_amount, SlotTrackedValue, StrategyType};
use vstd::prelude::*;

verus! {

/// Provides an abstraction over supported backends: slots like those of an asset container,
/// where every provider is expected to hold a value.
#[derive(Debug)]
pub struct BackendContainerGeneric<T, const N: usize> {
    pub(crate) slots: AssetContainerGeneric<T, N>,
}

/// The container with one slot per provider.
pub type BackendContainer<T> = BackendContainerGeneric<T, PROVIDER_COUNT>;

/// Every provider's slot holds a value.
pub open spec fn all_held<T>(s: Seq<Option<T>>) -> bool {
    forall|i: int| 0 <= i < PROVIDER_COUNT ==> #[trigger] s[i] is Some
}

impl<T, const N: usize> View for BackendContainerGeneric<T, N> {
    type V = Seq<Option<T>>;

    closed spec fn view(&self) -> Seq<Option<T>> {
        self.slots@
    }
}

impl<T, const N: usize> BackendContainerGeneric<T, N> {
    /// A container with the given slots; `None` unless there are exactly `N` of them.
    pub fn new(slots: Vec<Option<T>>) -> (r: Option<Self>)
        ensures
            r is Some <==> slots@.len() == N,
            r matches Some(c) ==> c@ == slots@,
    {
        match AssetContainerGeneric::new(slots) {
            Some(c) => Some(BackendContainerGeneric { slots: c }),
            None => None,
        }
    }

    /// The number of slots.
    pub fn len(&self) -> (r: usize)
        ensures
            r == N,
            self@.len() == N,
    {
        self.slots.slot_count()
    }

    /// Whether no slot holds a value.
    pub fn is_empty(&self) -> (r: bool)
        ensures
            r <==> forall|i: int| 0 <= i < self@.len() ==> self@[i] is None,
    {
        self.slots.is_empty()
    }

    /// The value of a provider; it must be there.
    pub fn index(&self, provider: Provider) -> (r: &T)
        requires
            N >= PROVIDER_COUNT,
            self@[provider.pos()] is Some,
        ensures
            *r == self@[provider.pos()]->0,
    {
        self.slots.index(provider).as_ref().unwrap()
    }

    /// Replaces the value of a provider; it must be there.
    pub fn set(&mut self, provider: Provider, value: T)
        requires
            N >= PROVIDER_COUNT,
            old(self)@[provider.pos()] is Some,
        ensures
            final(self)@ == old(self)@.update(provider.pos(), Some(value)),
    {
        self.slots.set(provider, Some(value));
    }

    /// Applies `f` to each provider's value, yielding a new container.
    pub fn apply<U, F: Fn(Provider, &T) -> U>(&self, f: F) -> (r: BackendContainer<U>)
        requires
            N >= PROVIDER_COUNT,
            all_held(self@),
            forall|i: int| 0 <= i < PROVIDER_COUNT ==> #[trigger] f.requires((Provider::at(i), &self@[i]->0)),
        ensures
            all_held(r@),
            forall|i: int| 0 <= i < PROVIDER_COUNT ==> #[trigger] f.ensures((Provider::at(i), &self@[i]->0), r@[i]->0),
    {
        let n = self.len();
        let mut res: AssetContainer<U> = AssetContainerGeneric::empty();
        let mut i: usize = 0;
        while i < PROVIDER_COUNT
            invariant
                i <= PROVIDER_COUNT,
                N >= PROVIDER_COUNT,
                self@.len() == N,
                all_held(self@),
                res@.len() == PROVIDER_COUNT,
                forall|j: int| 0 <= j < PROVIDER_COUNT ==> #[trigger] f.requires((Provider::at(j), &self@[j]->0)),
                forall|j: int| 0 <= j < i ==> #[trigger] res@[j] is Some,
                forall|j: int| 0 <= j < i ==> #[trigger] f.ensures((Provider::at(j), &self@[j]->0), res@[j]->0),
                forall|j: int| i <= j < PROVIDER_COUNT ==> res@[j] is None,
            decreases PROVIDER_COUNT - i,
        {
            let p = Provider::from_index(i);
            assert(self@[i as int] is Some);
            let x = self.index(p);
            let v = f(p, x);
            let ghost before = res@;
            res.set(p, Some(v));
            proof {
                assert forall|j: int| 0 <= j < i + 1 implies #[trigger] f.ensures((Provider::at(j), &self@[j]->0), res@[j]->0) by {
                    if j < i {
                        assert(res@[j] == before[j]);
                    } else {
                        assert(res@[j] == Some(v));
                    }
                }
            }
            i = i + 1;
        }
        BackendContainerGeneric { slots: res }
    }

    /// Identical to `apply` but returns the first failure of `f`, in the providers' order;
    /// no later provider is visited.
    pub fn try_apply<U, E, F: Fn(Provider, &T) -> Result<U, E>>(&self, f: F) -> (r: Result<BackendContainer<U>, E>)
        requires
            N >= PROVIDER_COUNT,
            all_held(self@),
            forall|i: int| 0 <= i < PROVIDER_COUNT ==> #[trigger] f.requires((Provider::at(i), &self@[i]->0)),
        ensures
            r matches Ok(c) ==> all_held(c@) && forall|i: int|
                0 <= i < PROVIDER_COUNT ==> #[trigger] f.ensures((Provider::at(i), &self@[i]->0), Ok(c@[i]->0)),
            r matches Err(e) ==> exists|k: int| #[trigger] backend_fails_first(f, self@, k, e),
    {
        let n = self.len();
        let mut res: AssetContainer<U> = AssetContainerGeneric::empty();
        let mut i: usize = 0;
        while i < PROVIDER_COUNT
            invariant
                i <= PROVIDER_COUNT,
                N >= PROVIDER_COUNT,
                self@.len() == N,
                all_held(self@),
                res@.len() == PROVIDER_COUNT,
                forall|j: int| 0 <= j < PROVIDER_COUNT ==> #[trigger] f.requires((Provider::at(j), &self@[j]->0)),
                forall|j: int| 0 <= j < i ==> #[trigger] res@[j] is Some,
                forall|j: int| 0 <= j < i ==> #[trigger] f.ensures((Provider::at(j), &self@[j]->0), Ok(res@[j]->0)),
                forall|j: int| i <= j < PROVIDER_COUNT ==> res@[j] is None,
            decreases PROVIDER_COUNT - i,
        {
            let p = Provider::from_index(i);
            assert(self@[i as int] is Some);
            match f(p, self.index(p)) {
                Ok(v) => {
                    res.set(p, Some(v));
                },
                Err(e) => {
                    proof {
                        assert forall|j: int| 0 <= j < i implies #[trigger] backend_succeeds_at(f, self@, j) by {
                            assert(f.ensures((Provider::at(j), &self@[j]->0), Ok(res@[j]->0)));
                        }
                        assert(backend_fails_first(f, self@, i as int, e));
                    }
                    let out: Result<BackendContainer<U>, E> = Err(e);
                    assert(out matches Err(e2) && backend_fails_first(f, self@, i as int, e2));
                    return out;
                },
            }
            i = i + 1;
        }
        Ok(BackendContainerGeneric { slots: res })
    }

    /// Like `apply`, but consumes the container and hands `f` each value it takes out.
    pub fn apply_owned<U, F: Fn(Provider, T) -> U>(self, f: F) -> (r: BackendContainer<U>)
        requires
            N >= PROVIDER_COUNT,
            all_held(self@),
            forall|i: int| 0 <= i < PROVIDER_COUNT ==> #[trigger] f.requires((Provider::at(i), self@[i]->0)),
        ensures
            all_held(r@),
            forall|i: int| 0 <= i < PROVIDER_COUNT ==> #[trigger] f.ensures((Provider::at(i), self@[i]->0), r@[i]->0),
    {
        let n = self.len();
        let ghost orig = self@;
        let mut slots = self.slots;
        let mut res: AssetContainer<U> = AssetContainerGeneric::empty();
        let mut i: usize = 0;
        while i < PROVIDER_COUNT
            invariant
                i <= PROVIDER_COUNT,
                N >= PROVIDER_COUNT,
                orig.len() == N,
                slots@.len() == N,
                all_held(orig),
                forall|j: int| i <= j < PROVIDER_COUNT ==> #[trigger] slots@[j] == orig[j],
                res@.len() == PROVIDER_COUNT,
                forall|j: int| 0 <= j < PROVIDER_COUNT ==> #[trigger] f.requires((Provider::at(j), orig[j]->0)),
                forall|j: int| 0 <= j < i ==> #[trigger] res@[j] is Some,
                forall|j: int| 0 <= j < i ==> #[trigger] f.ensures((Provider::at(j), orig[j]->0), res@[j]->0),
                forall|j: int| i <= j < PROVIDER_COUNT ==> res@[j] is None,
            decreases PROVIDER_COUNT - i,
        {
            let p = Provider::from_index(i);
            assert(slots@[i as int] == orig[i as int]);
            assert(orig[i as int] is Some);
            let value = match slots.take(p) {
                Some(v) => v,
                None => {
                    proof {
                        assert(false);
                    }
                    return BackendContainerGeneric { slots: res };
                },
            };
            let v = f(p, value);
            let ghost before = res@;
            res.set(p, Some(v));
            proof {
                assert forall|j: int| 0 <= j < i + 1 implies #[trigger] f.ensures((Provider::at(j), orig[j]->0), res@[j]->0) by {
                    if j < i {
                        assert(res@[j] == before[j]);
                    } else {
                        assert(res@[j] == Some(v));
                    }
                }
            }
            i = i + 1;
        }
        BackendContainerGeneric { slots: res }
    }
}

/// `f` succeeds on the value at position `j` of `s`.
pub open spec fn backend_succeeds_at<T, U, E, F: Fn(Provider, &T) -> Result<U, E>>(f: F, s: Seq<Option<T>>, j: int) -> bool {
    exists|u: U| #[trigger] f.ensures((Provider::at(j), &s[j]->0), Ok(u))
}

/// `f` fails with `e` on the value at position `k` of `s` after succeeding on every earlier
/// one.
pub open spec fn backend_fails_first<T, U, E, F: Fn(Provider, &T) -> Result<U, E>>(f: F, s: Seq<Option<T>>, k: int, e: E) -> bool {
    &&& 0 <= k < PROVIDER_COUNT
    &&& f.ensures((Provider::at(k), &s[k]->0), Err(e))
    &&& forall|j: int| 0 <= j < k ==> #[trigger] backend_succeeds_at(f, s, j)
}

/// The value that the last entry for position `i` among the first `k` entries sets, if any.
pub open spec fn last_set<T>(entries: Seq<(Provider, T)>, i: int, k: int) -> Option<T>
    decreases k,
{
    if k <= 0 {
        None
    } else if entries[k - 1].0.pos() == i {
        Some(entries[k - 1].1)
    } else {
        last_set(entries, i, k - 1)
    }
}

impl<T: Default, const N: usize> Default for BackendContainerGeneric<T, N> {
    /// A container whose every slot holds `T::default()`.
    fn default() -> (r: Self)
        ensures
            r@.len() == N,
            forall|i: int| 0 <= i < N ==> #[trigger] r@[i] is Some,
    {
        let mut slots: Vec<Option<T>> = Vec::new();
        let mut i: usize = 0;
        while i < N
            invariant
                i <= N,
                slots@.len() == i,
                forall|j: int| 0 <= j < i ==> #[trigger] slots@[j] is Some,
            decreases N - i,
        {
            slots.push(Some(T::default()));
            i = i + 1;
        }
        BackendContainerGeneric { slots: AssetContainerGeneric::new(slots).unwrap() }
    }
}

impl<T: Default, const N: usize> BackendContainerGeneric<T, N> {
    /// Builds a container from `(provider, value)` entries: every slot starts with
    /// `T::default()` and each entry in turn overwrites its provider's slot.
    pub fn from_iter(entries: Vec<(Provider, T)>) -> (r: Self)
        requires
            N >= PROVIDER_COUNT,
        ensures
            r@.len() == N,
            forall|i: int| 0 <= i < N ==> #[trigger] r@[i] is Some,
            forall|i: int|
                0 <= i < N && #[trigger] last_set(entries@, i, entries@.len() as int) is Some ==> r@[i] == last_set(
                    entries@,
                    i,
                    entries@.len() as int,
                ),
    {
        let ghost all = entries@;
        let mut rest = entries;
        let n = rest.len();
        let mut res: Self = Self::default();
        let mut k: usize = 0;
        while rest.len() > 0
            invariant
                N >= PROVIDER_COUNT,
                all.len() == n,
                k <= all.len(),
                rest@ == all.skip(k as int),
                res@.len() == N,
                forall|i: int| 0 <= i < N ==> #[trigger] res@[i] is Some,
                forall|i: int| 0 <= i < N && #[trigger] last_set(all, i, k as int) is Some ==> res@[i] == last_set(all, i, k as int),
            decreases rest@.len(),
        {
            let (p, v) = rest.remove(0);
            let ghost old_res = res@;
            let ghost gv = v;
            proof {
                assert(all[k as int] == (p, v));
                p.lemma_at_pos();
            }
            res.slots.set(p, Some(v));
            proof {
                assert(all.skip(k as int).skip(1) =~= all.skip(k + 1));
                assert forall|i: int| 0 <= i < N implies #[trigger] res@[i] is Some by {
                    if p.pos() != i {
                        assert(res@[i] == old_res[i]);
                    }
                }
                assert forall|i: int| 0 <= i < N && #[trigger] last_set(all, i, k + 1) is Some implies res@[i] == last_set(all, i, k + 1) by {
                    assert(all[k as int].0 == p);
                    assert(all[k as int].1 == gv);
                    if p.pos() == i {
                        assert(res@[i] == Some(gv));
                    } else {
                        assert(res@[i] == old_res[i]);
                        assert(last_set(all, i, k + 1) == last_set(all, i, k as int));
                    }
                }
            }
            k = k + 1;
        }
        proof {
            assert(k == all.len());
        }
        res
    }
}

impl<const N: usize> BackendContainerGeneric<Rate, N> {
    /// Returns an error if the weights do not add up to 100% or if any is greater than the
    /// allocation cap; fails with an overflow when the weights' sum overflows.
    pub fn verify_weights(&self, allocation_cap_pct: u8) -> (r: Result<(), VaultError>)
        requires
            N >= PROVIDER_COUNT,
            all_held(self@),
        ensures
            sum_some(self@, PROVIDER_COUNT as int) > u128::MAX ==> r == Err::<(), VaultError>(
                VaultError::Math(MathError::AddOverflow),
            ),
            sum_some(self@, PROVIDER_COUNT as int) <= u128::MAX ==> r == if sum_some(self@, PROVIDER_COUNT as int) == WAD
                && forall|i: int| 0 <= i < PROVIDER_COUNT ==> #[trigger] slot_val(self@[i]) <= allocation_cap_pct * PERCENT_SCALER {
                Ok::<(), VaultError>(())
            } else {
                Err::<(), VaultError>(VaultError::Code(ErrorCode::InvalidProposedWeights))
            },
    {
        let n = self.len();
        let cap = Rate::from_percent(allocation_cap_pct);
        let mut within_cap = true;
        let mut sum = Rate::zero();
        let mut i: usize = 0;
        while i < PROVIDER_COUNT
            invariant
                i <= PROVIDER_COUNT,
                N >= PROVIDER_COUNT,
                self@.len() == N,
                all_held(self@),
                cap.scaled == allocation_cap_pct * PERCENT_SCALER,
                sum.scaled == sum_some(self@, i as int),
                within_cap <==> forall|j: int| 0 <= j < i ==> #[trigger] slot_val(self@[j]) <= cap.scaled,
            decreases PROVIDER_COUNT - i,
        {
            let p = Provider::from_index(i);
            assert(self@[i as int] is Some);
            let w = *self.index(p);
            if w.scaled > cap.scaled {
                within_cap = false;
            }
            proof {
                assert(slot_val(self@[i as int]) == w.scaled);
                if within_cap {
                    assert forall|j: int| 0 <= j < i + 1 implies #[trigger] slot_val(self@[j]) <= cap.scaled by {}
                }
            }
            match sum.try_add(w) {
                Ok(v) => {
                    sum = v;
                },
                Err(e) => {
                    proof {
                        crate::asset_container::rate::lemma_sum_some_monotone(self@, i + 1, PROVIDER_COUNT as int);
                    }
                    return Err(VaultError::Math(e));
                },
            }
            i = i + 1;
        }
        if sum.scaled == WAD && within_cap {
            Ok(())
        } else {
            Err(VaultError::Code(ErrorCode::InvalidProposedWeights))
        }
    }
}

impl BackendContainerGeneric<u16, PROVIDER_COUNT> {
    /// Weights from basis points.
    pub fn to_rates(&self) -> (r: BackendContainer<Rate>)
        requires
            all_held(self@),
        ensures
            all_held(r@),
            forall|i: int| 0 <= i < PROVIDER_COUNT ==> (#[trigger] r@[i])->0.scaled == self@[i]->0 * BIPS_SCALER,
    {
        let n = self.len();
        let mut res: AssetContainer<Rate> = AssetContainerGeneric::empty();
        let mut i: usize = 0;
        while i < PROVIDER_COUNT
            invariant
                i <= PROVIDER_COUNT,
                self@.len() == PROVIDER_COUNT,
                all_held(self@),
                res@.len() == PROVIDER_COUNT,
                forall|j: int| 0 <= j < i ==> res@[j] is Some && (#[trigger] res@[j])->0.scaled == self@[j]->0 * BIPS_SCALER,
                forall|j: int| i <= j < PROVIDER_COUNT ==> res@[j] is None,
            decreases PROVIDER_COUNT - i,
        {
            let p = Provider::from_index(i);
            assert(self@[i as int] is Some);
            let b = *self.index(p);
            res.set(p, Some(Rate::from_bips(b as u64)));
            i = i + 1;
        }
        BackendContainerGeneric { slots: res }
    }
}

impl BackendContainerGeneric<SlotTrackedValue, PROVIDER_COUNT> {
    /// The value each weight gives of `vault_value`, rounded down and set, stale, at `slot`;
    /// fails with the first weight, in the providers' order, whose amount fails.
    pub fn try_from_weights(rates: &BackendContainer<Rate>, vault_value: u64, slot: u64) -> (r: Result<Self, VaultError>)
        requires
            all_held(rates@),
        ensures
            r matches Ok(c) ==> all_held(c@) && forall|i: int|
                0 <= i < PROVIDER_COUNT ==> weight_amount(rates@[i]->0, vault_value) == Ok::<u64, MathError>(
                    (#[trigger] c@[i])->0.value,
                ) && c@[i]->0.last_update == LastUpdate::new_spec(slot),
            r matches Err(e) ==> exists|k: int|
                0 <= k < PROVIDER_COUNT && #[trigger] weight_amount(rates@[k]->0, vault_value) is Err && e
                    == VaultError::Math(weight_amount(rates@[k]->0, vault_value)->Err_0),
            (forall|i: int| 0 <= i < PROVIDER_COUNT ==> #[trigger] weight_amount(rates@[i]->0, vault_value) is Ok) ==> r is Ok,
    {
        let n = rates.len();
        let mut res: AssetContainer<SlotTrackedValue> = AssetContainerGeneric::empty();
        let mut i: usize = 0;
        while i < PROVIDER_COUNT
            invariant
                i <= PROVIDER_COUNT,
                rates@.len() == PROVIDER_COUNT,
                all_held(rates@),
                res@.len() == PROVIDER_COUNT,
                forall|j: int| 0 <= j < i ==> res@[j] is Some && weight_amount(rates@[j]->0, vault_value) == Ok::<u64, MathError>(
                    (#[trigger] res@[j])->0.value,
                ) && res@[j]->0.last_update == LastUpdate::new_spec(slot),
                forall|j: int| i <= j < PROVIDER_COUNT ==> res@[j] is None,
            decreases PROVIDER_COUNT - i,
        {
            let p = Provider::from_index(i);
            assert(rates@[i as int] is Some);
            let w = *rates.index(p);
            let a = allocation_from_weight(w, vault_value, slot)?;
            res.set(p, Some(a));
            i = i + 1;
        }
        Ok(BackendContainerGeneric { slots: res })
    }
}

impl<T: ReturnCalculator> BackendContainerGeneric<T, PROVIDER_COUNT> {
    /// The weights of the vault's strategy; every provider gets one. Max yield ranks the
    /// backends by their returns, which must all be computable.
    pub fn calculate_weights(&self, strategy_type: StrategyType, allocation_cap_pct: u8) -> (r: Result<BackendContainer<Rate>, VaultError>)
        requires
            all_held(self@),
            strategy_type == StrategyType::MaxYield ==> first_return_error(self@, PROVIDER_COUNT as int) is Ok,
        ensures
            strategy_type == StrategyType::EqualAllocation ==> (r matches Ok(w) && w@ == equal_weights(self@)),
            strategy_type == StrategyType::MaxYield ==> (r matches Ok(w) && exists|ranking: Seq<Provider>|
                is_return_ranking(self@, ranking) && #[trigger] ranked_weights(ranking, allocation_cap_pct * PERCENT_SCALER) == w@),
    {
        let n = self.len();
        proof {
            reveal_with_fuel(count_some, 4);
            assert(count_some(self@, PROVIDER_COUNT as int) == 3);
        }
        let w = self.slots.calculate_weights(strategy_type, allocation_cap_pct)?;
        Ok(BackendContainerGeneric { slots: w })
    }

    /// The APR that weights and allocations are expected to earn: the sum over the providers
    /// of the weight times the return expected with the allocation deposited.
    pub fn get_apr(&self, weights: &BackendContainer<Rate>, allocations: &BackendContainer<SlotTrackedValue>) -> (r: Result<Rate, VaultError>)
        requires
            all_held(self@),
            all_held(weights@),
            all_held(allocations@),
        ensures
            match apr_upto(
                self@,
                weights@,
                Seq::new(PROVIDER_COUNT as nat, |i: int| Some(allocations@[i]->0.value)),
                Seq::new(PROVIDER_COUNT as nat, |i: int| Some(0u64)),
                PROVIDER_COUNT as int,
            ) {
                Ok(v) => r matches Ok(x) && x.scaled == v,
                Err(e) => r == Err::<Rate, VaultError>(e),
            },
    {
        let n = allocations.len();
        let mut values: AssetContainer<u64> = AssetContainerGeneric::empty();
        let mut zeros: AssetContainer<u64> = AssetContainerGeneric::empty();
        let mut i: usize = 0;
        while i < PROVIDER_COUNT
            invariant
                i <= PROVIDER_COUNT,
                allocations@.len() == PROVIDER_COUNT,
                all_held(allocations@),
                values@.len() == PROVIDER_COUNT,
                zeros@.len() == PROVIDER_COUNT,
                forall|j: int| 0 <= j < i ==> #[trigger] values@[j] == Some(allocations@[j]->0.value),
                forall|j: int| 0 <= j < i ==> #[trigger] zeros@[j] == Some(0u64),
            decreases PROVIDER_COUNT - i,
        {
            let p = Provider::from_index(i);
            assert(allocations@[i as int] is Some);
            let v = allocations.index(p).value;
            values.set(p, Some(v));
            zeros.set(p, Some(0));
            i = i + 1;
        }
        proof {
            assert(values@ =~= Seq::new(PROVIDER_COUNT as nat, |i: int| Some(allocations@[i]->0.value)));
            assert(zeros@ =~= Seq::new(PROVIDER_COUNT as nat, |i: int| Some(0u64)));
        }
        self.slots.get_apr(&weights.slots, &values, &zeros)
    }
}

/// Walks over the providers of an owned container, taking each value out.
pub struct OwnedBackendContainerIterator<T, const N: usize> {
    inner: BackendContainerGeneric<T, N>,
    pos: usize,
}

impl<T, const N: usize> BackendContainerGeneric<T, N> {
    /// An iterator that takes the providers' values out of the container.
    pub fn into_iter(self) -> (it: OwnedBackendContainerIterator<T, N>)
        ensures
            it.slots() == self@,
            it.position() == 0,
    {
        OwnedBackendContainerIterator { inner: self, pos: 0 }
    }
}

impl<T, const N: usize> OwnedBackendContainerIterator<T, N> {
    /// The slots of the container, with the visited ones emptied.
    pub closed spec fn slots(&self) -> Seq<Option<T>> {
        self.inner@
    }

    /// The number of providers already visited.
    pub closed spec fn position(&self) -> int {
        self.pos as int
    }

    /// The next provider and the value taken out of its slot, which must hold one; `None`
    /// once every provider was visited.
    pub fn next(&mut self) -> (r: Option<(Provider, T)>)
        requires
            N >= PROVIDER_COUNT,
            old(self).position() < PROVIDER_COUNT ==> old(self).slots()[old(self).position()] is Some,
        ensures
            old(self).position() < PROVIDER_COUNT ==> {
                let k = old(self).position();
                &&& r == Some((Provider::at(k), old(self).slots()[k]->0))
                &&& final(self).slots() == old(self).slots().update(k, None)
                &&& final(self).position() == k + 1
            },
            old(self).position() >= PROVIDER_COUNT ==> {
                &&& r is None
                &&& final(self).slots() == old(self).slots()
                &&& final(self).position() == old(self).position()
            },
    {
        if self.pos < PROVIDER_COUNT {
            let p = Provider::from_index(self.pos);
            let taken = self.inner.slots.take(p);
            self.pos = self.pos + 1;
            match taken {
                Some(v) => Some((p, v)),
                None => {
                    proof {
                        assert(false);
                    }
                    None
                },
            }
        } else {
            None
        }
    }
}

} // verus!
