//! A container with one named field per lending market.
use crate::asset_container::reserves::ReturnCalculator;
use crate::errors::{ErrorCode, MathError, VaultError};
use crate::instructions::rebalance::{apr_part, part};
use crate::provider::Provider;
use crate::rate::{Rate, BIPS_SCALER, WAD};
use crate::last_update::LastUpdate;
use crate::state::{allocation_from_weight, weight_amount, Allocation, StrategyType};
use crate::strategies::{all_in, expected_return, last_max_position};
use vstd::prelude::*;

verus! {

/// One value per lending market.
#[derive(Clone, Copy, Debug)]
pub struct BackendContainer<T> {
    pub solend: T,
    pub port: T,
    pub jet: T,
}

/// The value that the last entry for `p` among the first `k` entries holds.
pub open spec fn last_entry<T>(entries: Seq<(Provider, T)>, p: Provider, k: int) -> Option<T>
    decreases k,
{
    if k <= 0 {
        None
    } else if entries[k - 1].0 == p {
        Some(entries[k - 1].1)
    } else {
        last_entry(entries, p, k - 1)
    }
}

impl<T> BackendContainer<T> {
    /// The value of a provider.
    pub open spec fn at(self, p: Provider) -> T {
        match p {
            Provider::Solend => self.solend,
            Provider::Port => self.port,
            Provider::Jet => self.jet,
        }
    }

    /// The value of a provider.
    pub fn index(&self, p: Provider) -> (r: &T)
        ensures
            *r == self.at(p),
    {
        match p {
            Provider::Solend => &self.solend,
            Provider::Port => &self.port,
            Provider::Jet => &self.jet,
        }
    }

    /// Applies `f` to each provider's value, yielding a new container.
    pub fn apply<U, F: Fn(Provider, &T) -> U>(&self, f: F) -> (r: BackendContainer<U>)
        requires
            forall|p: Provider| #[trigger] f.requires((p, &self.at(p))),
        ensures
            forall|p: Provider| #[trigger] f.ensures((p, &self.at(p)), r.at(p)),
    {
        assert(f.requires((Provider::Solend, &self.at(Provider::Solend))));
        assert(f.requires((Provider::Port, &self.at(Provider::Port))));
        assert(f.requires((Provider::Jet, &self.at(Provider::Jet))));
        let solend = f(Provider::Solend, &self.solend);
        let port = f(Provider::Port, &self.port);
        let jet = f(Provider::Jet, &self.jet);
        let r = BackendContainer { solend, port, jet };
        proof {
            assert forall|p: Provider| #[trigger] f.ensures((p, &self.at(p)), r.at(p)) by {
                match p {
                    Provider::Solend => {},
                    Provider::Port => {},
                    Provider::Jet => {},
                }
            }
        }
        r
    }

    /// `f` succeeds on the value of `p`.
    pub open spec fn succeeds_on<U, E, F: Fn(Provider, &T) -> Result<U, E>>(self, f: F, p: Provider) -> bool {
        exists|u: U| #[trigger] f.ensures((p, &self.at(p)), Ok(u))
    }

    /// `f` fails with `e` on the value of `p` after succeeding on every earlier provider.
    pub open spec fn fails_first_at<U, E, F: Fn(Provider, &T) -> Result<U, E>>(self, f: F, p: Provider, e: E) -> bool {
        &&& f.ensures((p, &self.at(p)), Err(e))
        &&& forall|q: Provider| q.pos() < p.pos() ==> #[trigger] self.succeeds_on(f, q)
    }

    /// Identical to `apply` but `f` may fail: the first failure, in the providers' order, is
    /// returned and no later provider is visited.
    pub fn try_apply<U, E, F: Fn(Provider, &T) -> Result<U, E>>(&self, f: F) -> (r: Result<BackendContainer<U>, E>)
        requires
            forall|p: Provider| #[trigger] f.requires((p, &self.at(p))),
        ensures
            r matches Ok(c) ==> forall|p: Provider| #[trigger] f.ensures((p, &self.at(p)), Ok(c.at(p))),
            r matches Err(e) ==> exists|p: Provider| #[trigger] self.fails_first_at(f, p, e),
    {
        assert(f.requires((Provider::Solend, &self.at(Provider::Solend))));
        assert(f.requires((Provider::Port, &self.at(Provider::Port))));
        assert(f.requires((Provider::Jet, &self.at(Provider::Jet))));
        let solend = match f(Provider::Solend, &self.solend) {
            Ok(v) => v,
            Err(e) => {
                assert(self.fails_first_at(f, Provider::Solend, e));
                let out: Result<BackendContainer<U>, E> = Err(e);
                assert(out matches Err(e2) && self.fails_first_at(f, Provider::Solend, e2));
                return out;
            },
        };
        assert(self.succeeds_on(f, Provider::Solend));
        let port = match f(Provider::Port, &self.port) {
            Ok(v) => v,
            Err(e) => {
                assert(self.fails_first_at(f, Provider::Port, e));
                let out: Result<BackendContainer<U>, E> = Err(e);
                assert(out matches Err(e2) && self.fails_first_at(f, Provider::Port, e2));
                return out;
            },
        };
        assert(self.succeeds_on(f, Provider::Port));
        let jet = match f(Provider::Jet, &self.jet) {
            Ok(v) => v,
            Err(e) => {
                assert(self.fails_first_at(f, Provider::Jet, e));
                let out: Result<BackendContainer<U>, E> = Err(e);
                assert(out matches Err(e2) && self.fails_first_at(f, Provider::Jet, e2));
                return out;
            },
        };
        let r = BackendContainer { solend, port, jet };
        proof {
            assert forall|p: Provider| #[trigger] f.ensures((p, &self.at(p)), Ok(r.at(p))) by {
                match p {
                    Provider::Solend => {},
                    Provider::Port => {},
                    Provider::Jet => {},
                }
            }
        }
        Ok(r)
    }

    /// The number of values: one per lending market.
    pub fn len(&self) -> (r: usize)
        ensures
            r == 3,
    {
        3
    }

    /// Never empty: every lending market has a value.
    pub fn is_empty(&self) -> (r: bool)
        ensures
            !r,
    {
        false
    }

    /// Builds a container from `(provider, value)` entries, the last entry of a provider
    /// winning; every provider must have one.
    pub fn from_iter(entries: Vec<(Provider, T)>) -> (r: Self)
        requires
            forall|p: Provider| #[trigger] last_entry(entries@, p, entries@.len() as int) is Some,
        ensures
            forall|p: Provider| r.at(p) == (#[trigger] last_entry(entries@, p, entries@.len() as int))->0,
    {
        let ghost all = entries@;
        let n = entries.len();
        let mut rest = entries;
        let mut solend: Option<T> = None;
        let mut port: Option<T> = None;
        let mut jet: Option<T> = None;
        let mut k: usize = 0;
        while rest.len() > 0
            invariant
                all.len() == n,
                k <= n,
                rest@ == all.skip(k as int),
                solend == last_entry(all, Provider::Solend, k as int),
                port == last_entry(all, Provider::Port, k as int),
                jet == last_entry(all, Provider::Jet, k as int),
            decreases rest@.len(),
        {
            let (p, v) = rest.remove(0);
            proof {
                assert(all[k as int] == (p, v));
                assert(all.skip(k as int).skip(1) =~= all.skip(k + 1));
            }
            match p {
                Provider::Solend => solend = Some(v),
                Provider::Port => port = Some(v),
                Provider::Jet => jet = Some(v),
            }
            k = k + 1;
        }
        proof {
            assert(k == n);
            assert(last_entry(all, Provider::Solend, n as int) is Some);
            assert(last_entry(all, Provider::Port, n as int) is Some);
            assert(last_entry(all, Provider::Jet, n as int) is Some);
        }
        let r = BackendContainer { solend: solend.unwrap(), port: port.unwrap(), jet: jet.unwrap() };
        proof {
            assert forall|p: Provider| r.at(p) == (#[trigger] last_entry(all, p, n as int))->0 by {
                match p {
                    Provider::Solend => {},
                    Provider::Port => {},
                    Provider::Jet => {},
                }
            }
        }
        r
    }
}

impl BackendContainer<u16> {
    /// Weights from basis points.
    pub fn to_rates(&self) -> (r: BackendContainer<Rate>)
        ensures
            r.solend.scaled == self.solend * BIPS_SCALER,
            r.port.scaled == self.port * BIPS_SCALER,
            r.jet.scaled == self.jet * BIPS_SCALER,
    {
        BackendContainer {
            solend: Rate::from_bips(self.solend as u64),
            port: Rate::from_bips(self.port as u64),
            jet: Rate::from_bips(self.jet as u64),
        }
    }
}

/// The max-yield weights of a container: all the weight to the value with the highest
/// expected return, the last such when several tie; or the error of the first return that
/// fails.
pub open spec fn max_yield_weights_of<T: ReturnCalculator>(c: BackendContainer<T>) -> Result<BackendContainer<Rate>, VaultError> {
    match (expected_return(c.solend), expected_return(c.port), expected_return(c.jet)) {
        (Err(e), _, _) => Err(e),
        (Ok(_), Err(e), _) => Err(e),
        (Ok(_), Ok(_), Err(e)) => Err(e),
        (Ok(a), Ok(b), Ok(c)) => {
            let (x, y, z) = all_in(last_max_position(a.scaled as int, b.scaled as int, c.scaled as int));
            Ok(
                BackendContainer {
                    solend: Rate { scaled: x as u128 },
                    port: Rate { scaled: y as u128 },
                    jet: Rate { scaled: z as u128 },
                },
            )
        },
    }
}

/// The APR that weights and allocations earn over a container: every part is computed
/// first, in the providers' order, then they are added up.
pub open spec fn apr_of_backends<T: ReturnCalculator>(
    c: BackendContainer<T>,
    weights: BackendContainer<Rate>,
    allocations: BackendContainer<Allocation>,
) -> Result<Rate, VaultError> {
    match (
        apr_part(weights.solend, c.solend, allocations.solend),
        apr_part(weights.port, c.port, allocations.port),
        apr_part(weights.jet, c.jet, allocations.jet),
    ) {
        (Err(e), _, _) => Err(e),
        (Ok(_), Err(e), _) => Err(e),
        (Ok(_), Ok(_), Err(e)) => Err(e),
        (Ok(x), Ok(y), Ok(z)) => if x + y > u128::MAX || x + y + z > u128::MAX {
            Err(VaultError::Math(MathError::AddOverflow))
        } else {
            Ok(Rate { scaled: (x + y + z) as u128 })
        },
    }
}

impl<T: ReturnCalculator> BackendContainer<T> {
    /// The max-yield weights: all the weight to the reserve with the highest expected return
    /// (the last such when several tie); every return must be computable. Equal allocation
    /// is not supported.
    pub fn calculate_weights(&self, stype: StrategyType) -> (r: Result<BackendContainer<Rate>, VaultError>)
        requires
            stype == StrategyType::MaxYield,
            expected_return(self.solend) is Ok,
            expected_return(self.port) is Ok,
            expected_return(self.jet) is Ok,
        ensures
            r == max_yield_weights_of(*self),
    {
        let a = self.solend.calculate_return(0, 0)?;
        let b = self.port.calculate_return(0, 0)?;
        let c = self.jet.calculate_return(0, 0)?;
        let max_yielding = if c.scaled >= a.scaled && c.scaled >= b.scaled {
            Provider::Jet
        } else if b.scaled >= a.scaled {
            Provider::Port
        } else {
            Provider::Solend
        };
        let one = Rate::one();
        let zero = Rate::zero();
        Ok(BackendContainer {
            solend: if max_yielding == Provider::Solend { one } else { zero },
            port: if max_yielding == Provider::Port { one } else { zero },
            jet: if max_yielding == Provider::Jet { one } else { zero },
        })
    }

    /// The APR that weights and allocations are expected to earn: every provider's weight
    /// times its expected return with the allocation deposited, computed in the providers'
    /// order, then added up.
    pub fn get_apr(&self, weights: &BackendContainer<Rate>, allocations: &BackendContainer<Allocation>) -> (r: Result<Rate, VaultError>)
        ensures
            r == apr_of_backends(*self, *weights, *allocations),
    {
        let a = part(weights.solend, &self.solend, allocations.solend)?;
        let b = part(weights.port, &self.port, allocations.port)?;
        let c = part(weights.jet, &self.jet, allocations.jet)?;
        let ab = match a.try_add(b) {
            Ok(v) => v,
            Err(e) => {
                return Err(VaultError::Math(e));
            },
        };
        match ab.try_add(c) {
            Ok(v) => Ok(v),
            Err(e) => Err(VaultError::Math(e)),
        }
    }
}

/// The allocations that weights give of `vault_value`: each weight's share of it, rounded
/// down and set, stale, at `slot`; or the error of the first weight whose share fails.
pub open spec fn allocations_of(weights: BackendContainer<Rate>, vault_value: u64, slot: u64) -> Result<BackendContainer<Allocation>, VaultError> {
    match (
        weight_amount(weights.solend, vault_value),
        weight_amount(weights.port, vault_value),
        weight_amount(weights.jet, vault_value),
    ) {
        (Err(e), _, _) => Err(VaultError::Math(e)),
        (Ok(_), Err(e), _) => Err(VaultError::Math(e)),
        (Ok(_), Ok(_), Err(e)) => Err(VaultError::Math(e)),
        (Ok(s), Ok(p), Ok(j)) => Ok(
            BackendContainer {
                solend: Allocation { value: s, last_update: LastUpdate::new_spec(slot) },
                port: Allocation { value: p, last_update: LastUpdate::new_spec(slot) },
                jet: Allocation { value: j, last_update: LastUpdate::new_spec(slot) },
            },
        ),
    }
}

/// What checking weights gives: they must add up to exactly 100%.
pub open spec fn weights_sum_result(w: BackendContainer<Rate>) -> Result<(), VaultError> {
    if w.solend.scaled + w.port.scaled > u128::MAX || w.solend.scaled + w.port.scaled + w.jet.scaled > u128::MAX {
        Err(VaultError::Math(MathError::AddOverflow))
    } else if w.solend.scaled + w.port.scaled + w.jet.scaled == WAD {
        Ok(())
    } else {
        Err(VaultError::Code(ErrorCode::InvalidProposedWeights))
    }
}

impl BackendContainer<Allocation> {
    /// The allocations that weights give of `vault_value`, each set, stale, at `slot`.
    pub fn try_from_weights(weights: &BackendContainer<Rate>, vault_value: u64, slot: u64) -> (r: Result<Self, VaultError>)
        ensures
            r == allocations_of(*weights, vault_value, slot),
    {
        let solend = allocation_from_weight(weights.solend, vault_value, slot)?;
        let port = allocation_from_weight(weights.port, vault_value, slot)?;
        let jet = allocation_from_weight(weights.jet, vault_value, slot)?;
        Ok(BackendContainer { solend, port, jet })
    }
}

impl BackendContainer<Rate> {
    /// Fails unless the weights add up to 100%.
    pub fn verify_weights(&self) -> (r: Result<(), VaultError>)
        ensures
            r == weights_sum_result(*self),
    {
        let s1 = match Rate::zero().try_add(self.solend) {
            Ok(v) => v,
            Err(e) => {
                return Err(VaultError::Math(e));
            },
        };
        let s2 = match s1.try_add(self.port) {
            Ok(v) => v,
            Err(e) => {
                return Err(VaultError::Math(e));
            },
        };
        let sum = match s2.try_add(self.jet) {
            Ok(v) => v,
            Err(e) => {
                return Err(VaultError::Math(e));
            },
        };
        if sum.scaled != WAD {
            return Err(VaultError::Code(ErrorCode::InvalidProposedWeights));
        }
        Ok(())
    }
}

/// Walks over a container's values in the providers' order.
pub struct BackendContainerIterator<'inner, T> {
    inner: &'inner BackendContainer<T>,
    pos: usize,
}

impl<T> BackendContainer<T> {
    /// An iterator over the providers' values, by reference.
    pub fn iter(&self) -> (it: BackendContainerIterator<'_, T>)
        ensures
            it.container() == *self,
            it.position() == 0,
    {
        BackendContainerIterator { inner: self, pos: 0 }
    }
}

impl<'inner, T> BackendContainerIterator<'inner, T> {
    /// The container walked over.
    pub closed spec fn container(&self) -> BackendContainer<T> {
        *self.inner
    }

    /// The number of providers already visited.
    pub closed spec fn position(&self) -> int {
        self.pos as int
    }

    /// The next provider and its value, or `None` once every provider was visited.
    pub fn next(&mut self) -> (r: Option<(Provider, &'inner T)>)
        ensures
            final(self).container() == old(self).container(),
            old(self).position() < 3 ==> {
                let p = Provider::at(old(self).position());
                &&& r == Some((p, &old(self).container().at(p)))
                &&& final(self).position() == old(self).position() + 1
            },
            old(self).position() >= 3 ==> r is None && final(self).position() == old(self).position(),
    {
        if self.pos < 3 {
            let p = Provider::from_index(self.pos);
            let container: &'inner BackendContainer<T> = self.inner;
            let v = container.index(p);
            self.pos = self.pos + 1;
            Some((p, v))
        } else {
            None
        }
    }
}

} // verus!
