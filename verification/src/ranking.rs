//! Ranking lending markets by their expected return.
use crate::asset_container::reserves::ReturnCalculator;
use crate::errors::VaultError;
use std::cmp::Ordering;
use itertools::Itertools;
use vstd::prelude::*;

verus! {

/// Orders `(position, scaled return)` pairs by return, highest first.
pub fn higher_return_first(a: &(usize, u128), b: &(usize, u128)) -> (o: Ordering)
    ensures
        o == (if a.1 > b.1 {
            Ordering::Less
        } else if a.1 < b.1 {
            Ordering::Greater
        } else {
            Ordering::Equal
        }),
{
    if a.1 > b.1 {
        Ordering::Less
    } else if a.1 < b.1 {
        Ordering::Greater
    } else {
        Ordering::Equal
    }
}

/// Calls `itertools::Itertools::sorted_unstable_by` with `higher_return_first`: the same
/// pairs, each as often as before, ordered by return from highest to lowest; the order of
/// pairs with equal returns is left open.
#[verifier::external_body]
fn itertools_sorted_unstable_by(items: Vec<(usize, u128)>) -> (r: Vec<(usize, u128)>)
    ensures
        r@.to_multiset() == items@.to_multiset(),
        forall|i: int, j: int| 0 <= i < j < r@.len() ==> r@[i].1 >= r@[j].1,
{
    items.into_iter().sorted_unstable_by(higher_return_first).collect()
}

/// The pairs ordered by return, highest first; pairs with equal returns in any order.
pub fn sort_by_return(items: Vec<(usize, u128)>) -> (r: Vec<(usize, u128)>)
    ensures
        r@.to_multiset() == items@.to_multiset(),
        forall|i: int, j: int| 0 <= i < j < r@.len() ==> r@[i].1 >= r@[j].1,
{
    itertools_sorted_unstable_by(items)
}

/// The order of the returns that two assets expect when nothing is deposited or withdrawn,
/// or the error of the first return that fails.
pub open spec fn compare_result<L: ReturnCalculator, R: ReturnCalculator>(lhs: L, rhs: R) -> Result<Ordering, VaultError> {
    match (lhs.spec_calculate_return(0, 0), rhs.spec_calculate_return(0, 0)) {
        (Err(e), _) => Err(e),
        (Ok(_), Err(e)) => Err(e),
        (Ok(a), Ok(b)) => Ok(
            if a.scaled < b.scaled {
                Ordering::Less
            } else if a.scaled > b.scaled {
                Ordering::Greater
            } else {
                Ordering::Equal
            },
        ),
    }
}

/// Compares the returns that two assets expect when nothing is deposited or withdrawn.
pub fn compare<L: ReturnCalculator, R: ReturnCalculator>(lhs: &L, rhs: &R) -> (r: Result<Ordering, VaultError>)
    ensures
        r == compare_result(*lhs, *rhs),
{
    let a = match lhs.calculate_return(0, 0) {
        Ok(v) => v,
        Err(e) => {
            return Err(e);
        },
    };
    let b = match rhs.calculate_return(0, 0) {
        Ok(v) => v,
        Err(e) => {
            return Err(e);
        },
    };
    if a.scaled < b.scaled {
        Ok(Ordering::Less)
    } else if a.scaled > b.scaled {
        Ok(Ordering::Greater)
    } else {
        Ok(Ordering::Equal)
    }
}

} // verus!
