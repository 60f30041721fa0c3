//! Strategies over the lending markets' reserves.
use super::rate::{max_some, slot_val, sum_some, weights_valid};
use super::{count_some, AssetContainer, AssetContainerGeneric};
use crate::errors::{ErrorCode, MathError, VaultError};
use crate::provider::{Provider, PROVIDER_COUNT};
use crate::ranking::sort_by_return;
use crate::rate::{Rate, PERCENT_SCALER, WAD};
use crate::state::StrategyType;
use vstd::prelude::*;

verus! {

/// Something that can tell the return it expects after a change of its allocation.
pub trait ReturnCalculator {
    /// The return expected after the allocation changes from `old_allocation` to
    /// `new_allocation`.
    spec fn spec_calculate_return(&self, new_allocation: u64, old_allocation: u64) -> Result<Rate, VaultError>;

    /// Computes the return expected after the allocation changes from `old_allocation` to
    /// `new_allocation`.
    fn calculate_return(&self, new_allocation: u64, old_allocation: u64) -> (r: Result<Rate, VaultError>)
        ensures
            r == self.spec_calculate_return(new_allocation, old_allocation),
    ;
}

/// The weight that the max-yield strategy gives to the asset ranked `k`-th (from 0) when
/// each asset may take at most `cap` (scaled): what remains of 100% after the better ranked
/// assets took theirs, but no more than `cap`.
pub open spec fn greedy_weight(k: int, cap: int) -> int {
    let remaining = if WAD - k * cap > 0 {
        WAD - k * cap
    } else {
        0
    };
    if remaining < cap {
        remaining
    } else {
        cap
    }
}

/// Position in `ranking` of the last occurrence of the provider at position `i`, or -1.
pub open spec fn rank_of(ranking: Seq<Provider>, i: int) -> int
    decreases ranking.len(),
{
    if ranking.len() == 0 {
        -1
    } else if ranking.last().pos() == i {
        ranking.len() - 1
    } else {
        rank_of(ranking.drop_last(), i)
    }
}

/// The weights that the max-yield strategy gives along `ranking`: the provider ranked
/// `k`-th gets `greedy_weight(k)`; providers not ranked get no weight.
pub open spec fn ranked_weights(ranking: Seq<Provider>, cap: int) -> Seq<Option<Rate>> {
    Seq::new(
        PROVIDER_COUNT as nat,
        |i: int|
            if rank_of(ranking, i) >= 0 {
                Some(Rate { scaled: greedy_weight(rank_of(ranking, i), cap) as u128 })
            } else {
                None
            },
    )
}

/// The return that a held reserve expects when its allocation does not change.
pub open spec fn current_return<T: ReturnCalculator>(t: T) -> int {
    match t.spec_calculate_return(0, 0) {
        Ok(r) => r.scaled as int,
        Err(_) => 0,
    }
}

/// `ranking` lists each provider that holds a reserve exactly once, and nothing else; when
/// it lists more than one, every listed reserve has a return, and they come from the highest
/// return to the lowest.
pub open spec fn is_return_ranking<T: ReturnCalculator>(slots: Seq<Option<T>>, ranking: Seq<Provider>) -> bool {
    &&& ranking.no_duplicates()
    &&& forall|k: int| 0 <= k < ranking.len() ==> slots[#[trigger] ranking[k].pos()] is Some
    &&& forall|i: int| 0 <= i < PROVIDER_COUNT && slots[i] is Some ==> #[trigger] ranking.contains(Provider::at(i))
    &&& ranking.len() >= 2 ==> forall|k: int|
        0 <= k < ranking.len() ==> (#[trigger] slots[ranking[k].pos()])->0.spec_calculate_return(0, 0) is Ok
    &&& forall|a: int, b: int|
        0 <= a < b < ranking.len() ==> current_return((#[trigger] slots[ranking[a].pos()])->0) >= current_return(
            (#[trigger] slots[ranking[b].pos()])->0,
        )
}

/// The first reserve, in the providers' order, whose return fails; `Ok` when none fails.
pub open spec fn first_return_error<T: ReturnCalculator>(slots: Seq<Option<T>>, n: int) -> Result<(), VaultError>
    decreases n,
{
    if n <= 0 {
        Ok(())
    } else {
        match first_return_error(slots, n - 1) {
            Err(e) => Err(e),
            Ok(_) => match slots[n - 1] {
                Some(t) => match t.spec_calculate_return(0, 0) {
                    Err(e) => Err(e),
                    Ok(_) => Ok(()),
                },
                None => Ok(()),
            },
        }
    }
}

/// The returns of the held reserves can be ranked: fewer than two are held, or none of
/// their returns fails.
pub open spec fn max_yield_rankable<T: ReturnCalculator>(slots: Seq<Option<T>>) -> bool {
    count_some(slots, PROVIDER_COUNT as int) < 2 || first_return_error(slots, PROVIDER_COUNT as int) is Ok
}

/// The weights that the first `m` ranks get, summed.
pub open spec fn greedy_sum(m: int, cap: int) -> int
    decreases m,
{
    if m <= 0 {
        0
    } else {
        greedy_sum(m - 1, cap) + greedy_weight(m - 1, cap)
    }
}

/// The max-yield weights along a ranking.
pub fn weights_from_ranking(ranking: &Vec<Provider>, allocation_cap_pct: u8) -> (r: AssetContainer<Rate>)
    ensures
        r@ == ranked_weights(ranking@, allocation_cap_pct * PERCENT_SCALER),
{
    let cap = Rate::from_percent(allocation_cap_pct);
    let ghost capv: int = allocation_cap_pct * PERCENT_SCALER;
    let mut weights: AssetContainer<Rate> = AssetContainerGeneric::empty();
    let mut remaining = Rate::one();
    let mut k: usize = 0;
    while k < ranking.len()
        invariant
            k <= ranking@.len(),
            cap.scaled == capv,
            weights@.len() == PROVIDER_COUNT,
            remaining.scaled == (if WAD - k * capv > 0 { WAD - k * capv } else { 0 }),
            forall|i: int| 0 <= i < PROVIDER_COUNT ==> #[trigger] weights@[i] == ranked_weights(ranking@.take(k as int), capv)[i],
        decreases ranking@.len() - k,
    {
        let target = remaining.min(cap);
        let p = ranking[k];
        weights.set(p, Some(target));
        let ghost prev = remaining.scaled;
        remaining = match remaining.try_sub(target) {
            Ok(v) => v,
            Err(_) => remaining,
        };
        proof {
            assert((k + 1) * capv == k * capv + capv) by (nonlinear_arith);
            assert(target.scaled == greedy_weight(k as int, capv));
            let t1 = ranking@.take(k + 1);
            assert(t1.drop_last() =~= ranking@.take(k as int));
            assert(t1.last() == p);
            assert forall|i: int| 0 <= i < PROVIDER_COUNT implies #[trigger] weights@[i] == ranked_weights(t1, capv)[i] by {
                if p.pos() == i {
                    assert(rank_of(t1, i) == k);
                } else {
                    assert(rank_of(t1, i) == rank_of(ranking@.take(k as int), i));
                }
            }
        }
        k = k + 1;
    }
    proof {
        assert(ranking@.take(k as int) =~= ranking@);
        assert(weights@ =~= ranked_weights(ranking@, capv));
    }
    weights
}

/// A sorted copy of pairs with distinct positions keeps the positions distinct, and holds
/// exactly the pairs it was sorted from.
proof fn lemma_sorted_copy(items: Seq<(usize, u128)>, sorted: Seq<(usize, u128)>)
    requires
        forall|a: int, b: int| 0 <= a < b < items.len() ==> items[a].0 < items[b].0,
        sorted.to_multiset() == items.to_multiset(),
    ensures
        sorted.len() == items.len(),
        forall|a: int, b: int| 0 <= a < sorted.len() && 0 <= b < sorted.len() && a != b ==> sorted[a].0 != sorted[b].0,
        forall|k: int| 0 <= k < sorted.len() ==> items.contains(#[trigger] sorted[k]),
        forall|k: int| 0 <= k < items.len() ==> sorted.contains(#[trigger] items[k]),
{
    broadcast use vstd::seq_lib::group_to_multiset_ensures;
    assert(items.no_duplicates());
    vstd::seq_lib::to_multiset_len(items);
    vstd::seq_lib::to_multiset_len(sorted);
    items.lemma_multiset_has_no_duplicates();
    sorted.lemma_multiset_has_no_duplicates_conv();
    assert forall|k: int| 0 <= k < sorted.len() implies items.contains(#[trigger] sorted[k]) by {
        assert(sorted.contains(sorted[k]));
        assert(sorted.to_multiset().count(sorted[k]) > 0);
    }
    assert forall|k: int| 0 <= k < items.len() implies sorted.contains(#[trigger] items[k]) by {
        assert(items.contains(items[k]));
        assert(items.to_multiset().count(items[k]) > 0);
    }
    assert forall|a: int, b: int| 0 <= a < sorted.len() && 0 <= b < sorted.len() && a != b implies sorted[a].0 != sorted[b].0 by {
        if sorted[a].0 == sorted[b].0 {
            assert(items.contains(sorted[a]));
            assert(items.contains(sorted[b]));
            let x = choose|x: int| 0 <= x < items.len() && items[x] == sorted[a];
            let y = choose|y: int| 0 <= y < items.len() && items[y] == sorted[b];
            assert(x == y);
        }
    }
}

/// A reserve held in a slot has a return when no reserve before it fails.
proof fn lemma_first_return_error_ok<T: ReturnCalculator>(slots: Seq<Option<T>>, n: int, i: int)
    requires
        0 <= i < n,
        first_return_error(slots, n) is Ok,
        slots[i] is Some,
    ensures
        slots[i]->0.spec_calculate_return(0, 0) is Ok,
    decreases n,
{
    if i < n - 1 {
        lemma_first_return_error_ok(slots, n - 1, i);
    }
}

impl<T: ReturnCalculator> AssetContainerGeneric<T, PROVIDER_COUNT> {
    /// Gives each reserve, from the highest expected return to the lowest, as much of what
    /// remains of 100% as the allocation cap allows. Reserves can be ranked only when their
    /// returns can be computed, which two or more reserves need.
    pub fn calculate_weights_max_yield(&self, allocation_cap_pct: u8) -> (r: Result<AssetContainer<Rate>, VaultError>)
        requires
            max_yield_rankable(self@),
        ensures
            r matches Ok(w) && exists|ranking: Seq<Provider>|
                is_return_ranking(self@, ranking) && #[trigger] ranked_weights(ranking, allocation_cap_pct * PERCENT_SCALER) == w@,
    {
        let count = self.len();
        let n = self.slot_count();
        let mut ranking: Vec<Provider> = Vec::new();
        if count >= 2 {
            let mut items: Vec<(usize, u128)> = Vec::new();
            let mut i: usize = 0;
            while i < PROVIDER_COUNT
                invariant
                    i <= PROVIDER_COUNT,
                    self@.len() == PROVIDER_COUNT,
                    count >= 2,
                    count == count_some(self@, PROVIDER_COUNT as int),
                    max_yield_rankable(self@),
                    first_return_error(self@, i as int) is Ok,
                    forall|a: int, b: int| 0 <= a < b < items@.len() ==> items@[a].0 < items@[b].0,
                    forall|a: int| 0 <= a < items@.len() ==> #[trigger] items@[a].0 < i,
                    forall|a: int| 0 <= a < items@.len() ==> self@[#[trigger] items@[a].0 as int] is Some,
                    forall|a: int|
                        0 <= a < items@.len() ==> #[trigger] items@[a].1 == current_return(self@[items@[a].0 as int]->0),
                    forall|j: int| 0 <= j < i && self@[j] is Some ==> exists|a: int| 0 <= a < items@.len() && #[trigger] items@[a].0 == j,
                decreases PROVIDER_COUNT - i,
            {
                let p = Provider::from_index(i);
                let ghost prev = items@;
                match self.index(p) {
                    Some(t) => {
                        match t.calculate_return(0, 0) {
                            Ok(ret) => {
                                items.push((i, ret.scaled));
                                proof {
                                    assert(items@[prev.len() as int].0 == i);
                                    assert forall|j: int| 0 <= j < i + 1 && self@[j] is Some implies exists|a: int| 0 <= a < items@.len() && #[trigger] items@[a].0 == j by {
                                        if j < i {
                                            let a = choose|a: int| 0 <= a < prev.len() && #[trigger] prev[a].0 == j;
                                            assert(items@[a].0 == j);
                                        } else {
                                            assert(items@[prev.len() as int].0 == j);
                                        }
                                    }
                                }
                            },
                            Err(e) => {
                                proof {
                                    assert(first_return_error(self@, i + 1) == Err::<(), VaultError>(e));
                                    lemma_return_error_persists(self@, i + 1, PROVIDER_COUNT as int);
                                    assert(false);
                                }
                                return Err(e);
                            },
                        }
                    },
                    None => {},
                }
                i = i + 1;
            }
            let ghost items_g = items@;
            let sorted = sort_by_return(items);
            proof {
                lemma_sorted_copy(items_g, sorted@);
            }
            let mut k: usize = 0;
            while k < sorted.len()
                invariant
                    k <= sorted@.len(),
                    sorted@.len() == items_g.len(),
                    ranking@.len() == k,
                    forall|a: int| 0 <= a < items_g.len() ==> #[trigger] items_g[a].0 < PROVIDER_COUNT,
                    forall|a: int| 0 <= a < sorted@.len() ==> items_g.contains(#[trigger] sorted@[a]),
                    forall|a: int| 0 <= a < k ==> #[trigger] ranking@[a] == Provider::at(sorted@[a].0 as int),
                decreases sorted@.len() - k,
            {
                let pos = sorted[k].0;
                proof {
                    assert(items_g.contains(sorted@[k as int]));
                }
                ranking.push(Provider::from_index(pos));
                k = k + 1;
            }
            proof {
                let rk = ranking@;
                assert forall|a: int, b: int| 0 <= a < rk.len() && 0 <= b < rk.len() && a != b implies rk[a] != rk[b] by {
                    assert(items_g.contains(sorted@[a]));
                    assert(items_g.contains(sorted@[b]));
                    assert(sorted@[a].0 != sorted@[b].0);
                }
                assert forall|k: int| 0 <= k < rk.len() implies self@[#[trigger] rk[k].pos()] is Some by {
                    assert(items_g.contains(sorted@[k]));
                }
                assert forall|i: int| 0 <= i < PROVIDER_COUNT && self@[i] is Some implies #[trigger] rk.contains(Provider::at(i)) by {
                    let a = choose|a: int| 0 <= a < items_g.len() && #[trigger] items_g[a].0 == i;
                    assert(sorted@.contains(items_g[a]));
                    let b = choose|b: int| 0 <= b < sorted@.len() && sorted@[b] == items_g[a];
                    assert(rk[b] == Provider::at(i));
                }
                assert forall|k: int| 0 <= k < rk.len() implies (#[trigger] self@[rk[k].pos()])->0.spec_calculate_return(0, 0) is Ok by {
                    assert(items_g.contains(sorted@[k]));
                    lemma_first_return_error_ok(self@, PROVIDER_COUNT as int, rk[k].pos());
                }
                assert forall|a: int, b: int| 0 <= a < b < rk.len() implies current_return((#[trigger] self@[rk[a].pos()])->0) >= current_return(
                    (#[trigger] self@[rk[b].pos()])->0) by {
                    assert(items_g.contains(sorted@[a]));
                    assert(items_g.contains(sorted@[b]));
                }
                assert(is_return_ranking(self@, rk));
            }
            let w = weights_from_ranking(&ranking, allocation_cap_pct);
            Ok(w)
        } else {
            let mut i: usize = 0;
            while i < PROVIDER_COUNT
                invariant
                    i <= PROVIDER_COUNT,
                    self@.len() == PROVIDER_COUNT,
                    count == count_some(self@, PROVIDER_COUNT as int),
                    count < 2,
                    ranking@.len() == count_some(self@, i as int),
                    forall|k: int| 0 <= k < ranking@.len() ==> #[trigger] ranking@[k].pos() < i,
                    forall|k: int| 0 <= k < ranking@.len() ==> self@[#[trigger] ranking@[k].pos()] is Some,
                    forall|j: int| 0 <= j < i && self@[j] is Some ==> #[trigger] ranking@.contains(Provider::at(j)),
                decreases PROVIDER_COUNT - i,
            {
                let p = Provider::from_index(i);
                let ghost prev = ranking@;
                if self.index(p).is_some() {
                    ranking.push(p);
                    proof {
                        assert(ranking@[prev.len() as int] == p);
                        assert forall|j: int| 0 <= j < i + 1 && self@[j] is Some implies #[trigger] ranking@.contains(Provider::at(j)) by {
                            if j < i {
                                assert(prev.contains(Provider::at(j)));
                                let a = choose|a: int| 0 <= a < prev.len() && prev[a] == Provider::at(j);
                                assert(ranking@[a] == Provider::at(j));
                            }
                        }
                    }
                }
                proof {
                    lemma_count_some_le(self@, i as int + 1, PROVIDER_COUNT as int);
                }
                i = i + 1;
            }
            proof {
                let rk = ranking@;
                assert(rk.len() < 2);
                assert(rk.no_duplicates());
                assert(is_return_ranking(self@, rk));
            }
            let w = weights_from_ranking(&ranking, allocation_cap_pct);
            Ok(w)
        }
    }
}

/// Once a reserve's return fails, the first failure stays the same over longer prefixes.
proof fn lemma_return_error_persists<T: ReturnCalculator>(slots: Seq<Option<T>>, n: int, m: int)
    requires
        0 <= n <= m,
        first_return_error(slots, n) is Err,
    ensures
        first_return_error(slots, m) == first_return_error(slots, n),
    decreases m - n,
{
    if n < m {
        lemma_return_error_persists(slots, n, m - 1);
    }
}

/// Counting over more slots counts no fewer.
pub proof fn lemma_count_some_le<T>(s: Seq<Option<T>>, n: int, m: int)
    requires
        0 <= n <= m,
    ensures
        count_some(s, n) <= count_some(s, m),
    decreases m - n,
{
    if n < m {
        lemma_count_some_le(s, n, m - 1);
    }
}

/// Where `rank_of` points.
pub proof fn lemma_rank_of_bounds(ranking: Seq<Provider>, i: int)
    ensures
        rank_of(ranking, i) >= 0 ==> rank_of(ranking, i) < ranking.len() && ranking[rank_of(ranking, i)].pos() == i,
        rank_of(ranking, i) < 0 ==> rank_of(ranking, i) == -1 && forall|k: int| 0 <= k < ranking.len() ==> #[trigger] ranking[k].pos() != i,
    decreases ranking.len(),
{
    if ranking.len() > 0 {
        lemma_rank_of_bounds(ranking.drop_last(), i);
        if ranking.last().pos() != i {
            assert forall|k: int| 0 <= k < ranking.len() && rank_of(ranking, i) < 0 implies #[trigger] ranking[k].pos() != i by {
                if k < ranking.len() - 1 {
                    assert(ranking.drop_last()[k] == ranking[k]);
                }
            }
        }
    }
}

/// Replacing one slot changes the sum by the difference of the two values.
pub proof fn lemma_sum_some_update(s: Seq<Option<Rate>>, p: int, v: Option<Rate>, n: int)
    requires
        0 <= p < n <= s.len(),
    ensures
        sum_some(s.update(p, v), n) == sum_some(s, n) - slot_val(s[p]) + slot_val(v),
        count_some(s.update(p, v), n) == count_some(s, n) - (if s[p] is Some { 1int } else { 0 }) + (if v is Some { 1int } else { 0 }),
    decreases n,
{
    if n - 1 > p {
        lemma_sum_some_update(s, p, v, n - 1);
    } else {
        lemma_sum_some_unchanged(s, s.update(p, v), p);
    }
}

/// Sums and counts depend only on the slots they cover.
pub proof fn lemma_sum_some_unchanged(s: Seq<Option<Rate>>, t: Seq<Option<Rate>>, n: int)
    requires
        0 <= n <= s.len(),
        n <= t.len(),
        forall|i: int| 0 <= i < n ==> s[i] == t[i],
    ensures
        sum_some(s, n) == sum_some(t, n),
        count_some(s, n) == count_some(t, n),
    decreases n,
{
    if n > 0 {
        lemma_sum_some_unchanged(s, t, n - 1);
    }
}

/// The greedy weights never exceed the cap, never grow down the ranking, and add up to
/// 100% or to the cap times the number of ranked assets, whichever is smaller.
pub proof fn lemma_greedy_sum(m: int, cap: int)
    requires
        m >= 0,
        cap >= 0,
    ensures
        greedy_sum(m, cap) == (if m * cap < WAD { m * cap } else { WAD as int }),
        forall|k: int| 0 <= k ==> 0 <= #[trigger] greedy_weight(k, cap) <= cap,
        forall|j: int, k: int| 0 <= j <= k ==> #[trigger] greedy_weight(j, cap) >= #[trigger] greedy_weight(k, cap),
    decreases m,
{
    assert forall|j: int, k: int| 0 <= j <= k implies #[trigger] greedy_weight(j, cap) >= #[trigger] greedy_weight(k, cap) by {
        assert(j * cap <= k * cap) by (nonlinear_arith)
            requires
                0 <= j <= k,
                cap >= 0,
        ;
    }
    if m > 0 {
        lemma_greedy_sum(m - 1, cap);
        assert(m * cap == (m - 1) * cap + cap) by (nonlinear_arith);
    }
}

/// Along a ranking without repeats, the ranked assets, and only they, get a weight, and the
/// weights add up to the greedy sum over the ranking's length.
pub proof fn lemma_ranked_weights_totals(ranking: Seq<Provider>, cap: int)
    requires
        ranking.no_duplicates(),
        cap >= 0,
    ensures
        count_some(ranked_weights(ranking, cap), PROVIDER_COUNT as int) == ranking.len(),
        sum_some(ranked_weights(ranking, cap), PROVIDER_COUNT as int) == greedy_sum(ranking.len() as int, cap),
    decreases ranking.len(),
{
    let w = ranked_weights(ranking, cap);
    if ranking.len() == 0 {
        let e = Seq::new(PROVIDER_COUNT as nat, |i: int| None::<Rate>);
        reveal_with_fuel(count_some, 4);
        reveal_with_fuel(sum_some, 4);
        assert(count_some(e, 3) == 0);
        assert(sum_some(e, 3) == 0);
        assert(w =~= e);
    } else {
        let d = ranking.drop_last();
        let p = ranking.last();
        let k = ranking.len() - 1;
        assert(d.no_duplicates());
        lemma_ranked_weights_totals(d, cap);
        lemma_rank_of_bounds(d, p.pos());
        p.lemma_at_pos();
        assert(rank_of(d, p.pos()) == -1) by {
            if rank_of(d, p.pos()) >= 0 {
                let r = rank_of(d, p.pos());
                assert(d[r].pos() == p.pos());
                d[r].lemma_at_pos();
                assert(ranking[r] == ranking[k]);
            }
        }
        let wd = ranked_weights(d, cap);
        let v = Some(Rate { scaled: greedy_weight(k, cap) as u128 });
        assert(0 <= greedy_weight(k, cap) <= WAD);
        assert(slot_val(v) == greedy_weight(k, cap));
        assert(w =~= wd.update(p.pos(), v));
        lemma_sum_some_update(wd, p.pos(), v, PROVIDER_COUNT as int);
    }
}

/// Max-yield weights pass the weight check whenever the allocation cap lets the held
/// reserves take 100% between them: the weights of a return ranking of the reserves are
/// positive in number, add up to 100% and none exceeds the cap.
pub proof fn lemma_max_yield_weights_verify<T: ReturnCalculator>(
    slots: Seq<Option<T>>,
    ranking: Seq<Provider>,
    allocation_cap_pct: u8,
)
    requires
        slots.len() == PROVIDER_COUNT,
        is_return_ranking(slots, ranking),
        count_some(slots, PROVIDER_COUNT as int) >= 1,
        count_some(slots, PROVIDER_COUNT as int) * allocation_cap_pct >= 100,
    ensures
        weights_valid(ranked_weights(ranking, allocation_cap_pct * PERCENT_SCALER), allocation_cap_pct),
{
    let cap = allocation_cap_pct * PERCENT_SCALER;
    let w = ranked_weights(ranking, cap);
    lemma_ranked_weights_totals(ranking, cap);
    lemma_greedy_sum(ranking.len() as int, cap);
    // the weights are filled exactly where the reserves are held
    assert forall|i: int| 0 <= i < PROVIDER_COUNT implies (#[trigger] w[i] is Some <==> slots[i] is Some) by {
        lemma_rank_of_bounds(ranking, i);
        if slots[i] is Some {
            assert(ranking.contains(Provider::at(i)));
            let k = choose|k: int| 0 <= k < ranking.len() && ranking[k] == Provider::at(i);
            assert(ranking[k].pos() == i);
        }
        if rank_of(ranking, i) >= 0 {
            let r = rank_of(ranking, i);
            assert(slots[ranking[r].pos()] is Some);
        }
    }
    lemma_count_some_matches(w, slots, PROVIDER_COUNT as int);
    let m = ranking.len() as int;
    assert(m * cap >= WAD) by (nonlinear_arith)
        requires
            m * allocation_cap_pct >= 100,
            cap == allocation_cap_pct * 10_000_000_000_000_000,
            WAD == 1_000_000_000_000_000_000,
    ;
    lemma_max_some_at_most(w, PROVIDER_COUNT as int, cap);
}

/// Two sequences filled at the same slots count the same.
pub proof fn lemma_count_some_matches<A, B>(s: Seq<Option<A>>, t: Seq<Option<B>>, n: int)
    requires
        0 <= n <= s.len(),
        n <= t.len(),
        forall|i: int| 0 <= i < n ==> (#[trigger] s[i] is Some <==> t[i] is Some),
    ensures
        count_some(s, n) == count_some(t, n),
    decreases n,
{
    if n > 0 {
        lemma_count_some_matches(s, t, n - 1);
    }
}

/// The largest weight is at most `cap` when every weight is.
pub proof fn lemma_max_some_at_most(s: Seq<Option<Rate>>, n: int, cap: int)
    requires
        0 <= n <= s.len(),
        cap >= 0,
        forall|i: int| 0 <= i < n && s[i] is Some ==> slot_val(#[trigger] s[i]) <= cap,
    ensures
        max_some(s, n) <= cap,
    decreases n,
{
    if n > 0 {
        lemma_max_some_at_most(s, n - 1, cap);
    }
}

/// Along a return ranking, a reserve that expects a strictly higher return gets at least the
/// weight of the other.
pub proof fn lemma_max_yield_prefers_higher_return<T: ReturnCalculator>(
    slots: Seq<Option<T>>,
    ranking: Seq<Provider>,
    allocation_cap_pct: u8,
    a: int,
    b: int,
)
    requires
        slots.len() == PROVIDER_COUNT,
        is_return_ranking(slots, ranking),
        0 <= a < PROVIDER_COUNT,
        0 <= b < PROVIDER_COUNT,
        slots[a] is Some,
        slots[b] is Some,
        current_return(slots[a]->0) > current_return(slots[b]->0),
    ensures
        slot_val(ranked_weights(ranking, allocation_cap_pct * PERCENT_SCALER)[a]) >= slot_val(
            ranked_weights(ranking, allocation_cap_pct * PERCENT_SCALER)[b],
        ),
{
    let cap = allocation_cap_pct * PERCENT_SCALER;
    lemma_rank_of_bounds(ranking, a);
    lemma_rank_of_bounds(ranking, b);
    lemma_greedy_sum(0, cap);
    assert(ranking.contains(Provider::at(a)));
    assert(ranking.contains(Provider::at(b)));
    let ka = choose|k: int| 0 <= k < ranking.len() && ranking[k] == Provider::at(a);
    let kb = choose|k: int| 0 <= k < ranking.len() && ranking[k] == Provider::at(b);
    assert(ranking[ka].pos() == a);
    assert(ranking[kb].pos() == b);
    let ra = rank_of(ranking, a);
    let rb = rank_of(ranking, b);
    assert(ra >= 0 && rb >= 0);
    ranking[ra].lemma_at_pos();
    ranking[ka].lemma_at_pos();
    ranking[rb].lemma_at_pos();
    ranking[kb].lemma_at_pos();
    assert(ra == ka);
    assert(rb == kb);
    if ra > rb {
        assert(current_return(slots[ranking[rb].pos()]->0) >= current_return(slots[ranking[ra].pos()]->0));
    }
}

/// The weight that the equal-allocation strategy gives each of `n` held reserves.
pub open spec fn equal_weight(n: int) -> int {
    (WAD as int) / n
}

/// The equal-allocation weights: each held reserve gets the same share.
pub open spec fn equal_weights<T>(slots: Seq<Option<T>>) -> Seq<Option<Rate>> {
    Seq::new(
        PROVIDER_COUNT as nat,
        |i: int|
            if slots[i] is Some {
                Some(Rate { scaled: equal_weight(count_some(slots, PROVIDER_COUNT as int) as int) as u128 })
            } else {
                None
            },
    )
}

/// The contribution of one provider to the expected APR: its weight times the return its
/// reserve expects after moving from the actual to the new allocation, when all four are
/// known; nothing otherwise.
pub open spec fn apr_term<T: ReturnCalculator>(
    reserve: Option<T>,
    weight: Option<Rate>,
    new_allocation: Option<u64>,
    actual_allocation: Option<u64>,
) -> Result<Option<int>, VaultError> {
    match (reserve, new_allocation, actual_allocation, weight) {
        (Some(t), Some(a1), Some(a0), Some(w)) => match t.spec_calculate_return(a1, a0) {
            Err(e) => Err(e),
            Ok(ret) => if w.scaled * ret.scaled > u128::MAX {
                Err(VaultError::Math(MathError::MulOverflow))
            } else {
                Ok(Some((w.scaled * ret.scaled) / (WAD as int)))
            },
        },
        _ => Ok(None),
    }
}

/// The APR accumulated over the first `n` providers, or the first error met on the way.
pub open spec fn apr_upto<T: ReturnCalculator>(
    reserves: Seq<Option<T>>,
    weights: Seq<Option<Rate>>,
    new_allocations: Seq<Option<u64>>,
    actual_allocations: Seq<Option<u64>>,
    n: int,
) -> Result<int, VaultError>
    decreases n,
{
    if n <= 0 {
        Ok(0)
    } else {
        match apr_upto(reserves, weights, new_allocations, actual_allocations, n - 1) {
            Err(e) => Err(e),
            Ok(acc) => match apr_term(reserves[n - 1], weights[n - 1], new_allocations[n - 1], actual_allocations[n - 1]) {
                Err(e) => Err(e),
                Ok(None) => Ok(acc),
                Ok(Some(t)) => if acc + t > u128::MAX {
                    Err(VaultError::Math(MathError::AddOverflow))
                } else {
                    Ok(acc + t)
                },
            },
        }
    }
}

/// Once the APR fails, it fails the same way over longer prefixes.
proof fn lemma_apr_err_persists<T: ReturnCalculator>(
    reserves: Seq<Option<T>>,
    weights: Seq<Option<Rate>>,
    new_allocations: Seq<Option<u64>>,
    actual_allocations: Seq<Option<u64>>,
    n: int,
    m: int,
)
    requires
        0 <= n <= m,
        apr_upto(reserves, weights, new_allocations, actual_allocations, n) is Err,
    ensures
        apr_upto(reserves, weights, new_allocations, actual_allocations, m) == apr_upto(
            reserves,
            weights,
            new_allocations,
            actual_allocations,
            n,
        ),
    decreases m - n,
{
    if n < m {
        lemma_apr_err_persists(reserves, weights, new_allocations, actual_allocations, n, m - 1);
    }
}

impl<T: ReturnCalculator> AssetContainerGeneric<T, PROVIDER_COUNT> {
    /// Gives each held reserve the same share of 100%, rounded down.
    pub fn calculate_weights_equal(&self) -> (r: Result<AssetContainer<Rate>, VaultError>)
        ensures
            count_some(self@, PROVIDER_COUNT as int) == 0 ==> r == Err::<AssetContainer<Rate>, VaultError>(
                VaultError::Code(ErrorCode::StrategyError),
            ),
            count_some(self@, PROVIDER_COUNT as int) > 0 ==> (r matches Ok(w) && w@ == equal_weights(self@)),
    {
        let n = self.slot_count();
        let num_assets = self.len();
        proof {
            lemma_count_some_bound(self@, PROVIDER_COUNT as int);
        }
        let per_asset = Rate::from_percent(num_assets as u8);
        let total = match per_asset.try_mul_u64(100) {
            Ok(v) => v,
            Err(_) => {
                return Err(VaultError::Code(ErrorCode::StrategyError));
            },
        };
        let equal_allocation = match Rate::one().try_div(total) {
            Ok(v) => v,
            Err(_) => {
                return Err(VaultError::Code(ErrorCode::StrategyError));
            },
        };
        proof {
            let c = num_assets as int;
            assert(total.scaled == c * WAD);
            vstd::arithmetic::div_mod::lemma_div_denominator((WAD * WAD) as int, WAD as int, c);
            vstd::arithmetic::div_mod::lemma_div_multiples_vanish(WAD as int, WAD as int);
            assert(equal_allocation.scaled == equal_weight(c));
        }
        let mut weights: AssetContainer<Rate> = AssetContainerGeneric::empty();
        let mut i: usize = 0;
        while i < PROVIDER_COUNT
            invariant
                i <= PROVIDER_COUNT,
                self@.len() == PROVIDER_COUNT,
                num_assets == count_some(self@, PROVIDER_COUNT as int),
                equal_allocation.scaled == equal_weight(num_assets as int),
                weights@.len() == PROVIDER_COUNT,
                forall|j: int| 0 <= j < i ==> #[trigger] weights@[j] == equal_weights(self@)[j],
                forall|j: int| i <= j < PROVIDER_COUNT ==> weights@[j] is None,
            decreases PROVIDER_COUNT - i,
        {
            let p = Provider::from_index(i);
            if self.index(p).is_some() {
                weights.set(p, Some(equal_allocation));
            }
            i = i + 1;
        }
        proof {
            assert(weights@ =~= equal_weights(self@));
        }
        Ok(weights)
    }

    /// The weights of the vault's strategy.
    pub fn calculate_weights(&self, strategy_type: StrategyType, allocation_cap_pct: u8) -> (r: Result<AssetContainer<Rate>, VaultError>)
        requires
            strategy_type == StrategyType::MaxYield ==> max_yield_rankable(self@),
        ensures
            strategy_type == StrategyType::EqualAllocation ==> {
                &&& count_some(self@, PROVIDER_COUNT as int) == 0 ==> r == Err::<AssetContainer<Rate>, VaultError>(
                    VaultError::Code(ErrorCode::StrategyError),
                )
                &&& count_some(self@, PROVIDER_COUNT as int) > 0 ==> (r matches Ok(w) && w@ == equal_weights(self@))
            },
            strategy_type == StrategyType::MaxYield ==> (r matches Ok(w) && exists|ranking: Seq<Provider>|
                is_return_ranking(self@, ranking) && #[trigger] ranked_weights(ranking, allocation_cap_pct * PERCENT_SCALER) == w@),
    {
        match strategy_type {
            StrategyType::MaxYield => self.calculate_weights_max_yield(allocation_cap_pct),
            StrategyType::EqualAllocation => self.calculate_weights_equal(),
        }
    }

    /// The APR that the vault expects from the given weights when the allocations move from
    /// the actual ones to the new ones: the sum over the providers for which all four are
    /// known of the weight times the expected return.
    pub fn get_apr(
        &self,
        weights: &AssetContainer<Rate>,
        new_allocations: &AssetContainer<u64>,
        actual_allocations: &AssetContainer<u64>,
    ) -> (r: Result<Rate, VaultError>)
        ensures
            match apr_upto(self@, weights@, new_allocations@, actual_allocations@, PROVIDER_COUNT as int) {
                Ok(v) => r matches Ok(x) && x.scaled == v,
                Err(e) => r == Err::<Rate, VaultError>(e),
            },
    {
        let mut acc = Rate::zero();
        let mut i: usize = 0;
        while i < PROVIDER_COUNT
            invariant
                i <= PROVIDER_COUNT,
                apr_upto(self@, weights@, new_allocations@, actual_allocations@, i as int) matches Ok(v) && acc.scaled == v,
            decreases PROVIDER_COUNT - i,
        {
            let p = Provider::from_index(i);
            match (self.index(p), new_allocations.index(p), actual_allocations.index(p), weights.index(p)) {
                (Some(reserve), Some(a1), Some(a0), Some(w)) => {
                    let ret = match reserve.calculate_return(*a1, *a0) {
                        Ok(v) => v,
                        Err(e) => {
                            proof {
                                lemma_apr_err_persists(self@, weights@, new_allocations@, actual_allocations@, i + 1, PROVIDER_COUNT as int);
                            }
                            return Err(e);
                        },
                    };
                    let term = match w.try_mul(ret) {
                        Ok(v) => v,
                        Err(e) => {
                            proof {
                                lemma_apr_err_persists(self@, weights@, new_allocations@, actual_allocations@, i + 1, PROVIDER_COUNT as int);
                            }
                            return Err(VaultError::Math(e));
                        },
                    };
                    acc = match acc.try_add(term) {
                        Ok(v) => v,
                        Err(e) => {
                            proof {
                                lemma_apr_err_persists(self@, weights@, new_allocations@, actual_allocations@, i + 1, PROVIDER_COUNT as int);
                            }
                            return Err(VaultError::Math(e));
                        },
                    };
                },
                _ => {},
            }
            i = i + 1;
        }
        Ok(acc)
    }
}

/// At most `n` of the first `n` slots are filled.
pub proof fn lemma_count_some_bound<T>(s: Seq<Option<T>>, n: int)
    requires
        0 <= n,
    ensures
        count_some(s, n) <= n,
    decreases n,
{
    if n > 0 {
        lemma_count_some_bound(s, n - 1);
    }
}

} // verus!
