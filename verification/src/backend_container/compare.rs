//! Ordering backends by expected return.
use super::BackendContainerGeneric;
use crate::asset_container::reserves::ReturnCalculator;
use crate::errors::VaultError;
use std::cmp::Ordering;
use vstd::prelude::*;

verus! {

impl<T: ReturnCalculator, const N: usize> BackendContainerGeneric<T, N> {
    /// Compares the returns that two backends expect when nothing is deposited or withdrawn.
    pub fn compare(&self, lhs: &T, rhs: &T) -> (r: Result<Ordering, VaultError>)
        ensures
            r == crate::ranking::compare_result(*lhs, *rhs),
    {
        crate::ranking::compare(lhs, rhs)
    }
}

} // verus!
