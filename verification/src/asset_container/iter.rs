//! Walks over a container provider by provider.
use super::{last_assigned, opt_ref, AssetContainerGeneric};
use crate::provider::{Provider, PROVIDER_COUNT};
use vstd::prelude::*;

verus! {

/// Walks over the providers' slots of a borrowed container, in the providers' order.
pub struct AssetContainerIterator<'inner, T, const N: usize> {
    inner: &'inner AssetContainerGeneric<T, N>,
    pos: usize,
}

/// Walks over the providers' slots of an owned container, taking each value out.
pub struct OwnedAssetContainerIterator<T, const N: usize> {
    inner: AssetContainerGeneric<T, N>,
    pos: usize,
}

impl<T, const N: usize> AssetContainerGeneric<T, N> {
    /// An iterator over the providers' slots, by reference.
    pub fn iter(&self) -> (it: AssetContainerIterator<'_, T, N>)
        ensures
            it.slots() == self@,
            it.position() == 0,
    {
        AssetContainerIterator { inner: self, pos: 0 }
    }

    /// An iterator that takes the providers' values out of the container.
    pub fn into_iter(self) -> (it: OwnedAssetContainerIterator<T, N>)
        ensures
            it.slots() == self@,
            it.position() == 0,
    {
        OwnedAssetContainerIterator { inner: self, pos: 0 }
    }
}

impl<'inner, T, const N: usize> AssetContainerIterator<'inner, T, N> {
    /// The slots of the container walked over.
    pub closed spec fn slots(&self) -> Seq<Option<T>> {
        self.inner@
    }

    /// The number of providers already visited.
    pub closed spec fn position(&self) -> int {
        self.pos as int
    }

    /// The next provider and its slot, or `None` once every provider was visited.
    pub fn next(&mut self) -> (r: Option<(Provider, Option<&'inner T>)>)
        requires
            N >= PROVIDER_COUNT,
        ensures
            final(self).slots() == old(self).slots(),
            old(self).position() < PROVIDER_COUNT ==> {
                &&& r == Some((Provider::at(old(self).position()), opt_ref(old(self).slots()[old(self).position()])))
                &&& final(self).position() == old(self).position() + 1
            },
            old(self).position() >= PROVIDER_COUNT ==> {
                &&& r is None
                &&& final(self).position() == old(self).position()
            },
    {
        if self.pos < PROVIDER_COUNT {
            let p = Provider::from_index(self.pos);
            let container: &'inner AssetContainerGeneric<T, N> = self.inner;
            let slot = container.index(p).as_ref();
            self.pos = self.pos + 1;
            Some((p, slot))
        } else {
            None
        }
    }
}

impl<T, const N: usize> OwnedAssetContainerIterator<T, N> {
    /// The slots of the container, with the visited ones emptied.
    pub closed spec fn slots(&self) -> Seq<Option<T>> {
        self.inner@
    }

    /// The number of providers already visited.
    pub closed spec fn position(&self) -> int {
        self.pos as int
    }

    /// The next provider and the value taken out of its slot, or `None` once every provider
    /// was visited.
    pub fn next(&mut self) -> (r: Option<(Provider, Option<T>)>)
        requires
            N >= PROVIDER_COUNT,
        ensures
            old(self).position() < PROVIDER_COUNT ==> {
                let k = old(self).position();
                &&& r == Some((Provider::at(k), old(self).slots()[k]))
                &&& final(self).slots() == old(self).slots().update(k, None)
                &&& final(self).position() == k + 1
            },
            old(self).position() >= PROVIDER_COUNT ==> {
                &&& r is None
                &&& final(self).slots() == old(self).slots()
                &&& final(self).position() == old(self).position()
            },
    {
        if self.pos < PROVIDER_COUNT {
            let p = Provider::from_index(self.pos);
            let taken = self.inner.take(p);
            self.pos = self.pos + 1;
            Some((p, taken))
        } else {
            None
        }
    }
}

/// What an owned iteration over slots yields: each provider with its slot, in the
/// providers' order.
pub open spec fn iteration_entries<T>(s: Seq<Option<T>>) -> Seq<(Provider, Option<T>)> {
    Seq::new(PROVIDER_COUNT as nat, |k: int| (Provider::at(k), s[k]))
}

/// Collecting what an owned iteration yields rebuilds the container: building from those
/// entries (as `from_iter` does, each entry overwriting its provider's slot in an empty
/// container) gives back every slot of a container whose slots past the providers' are empty.
pub proof fn lemma_iteration_rebuilds<T>(s: Seq<Option<T>>)
    requires
        s.len() >= PROVIDER_COUNT,
        forall|i: int| PROVIDER_COUNT <= i < s.len() ==> s[i] is None,
    ensures
        Seq::new(s.len(), |i: int| last_assigned(iteration_entries(s), i, PROVIDER_COUNT as int)) == s,
{
    let e = iteration_entries(s);
    assert forall|i: int| 0 <= i < s.len() implies last_assigned(e, i, PROVIDER_COUNT as int) == s[i] by {
        assert(e[0].0.pos() == 0 && e[1].0.pos() == 1 && e[2].0.pos() == 2);
        if i == 1 {
            assert(last_assigned(e, i, 3) == last_assigned(e, i, 2));
        } else if i == 0 {
            assert(last_assigned(e, i, 3) == last_assigned(e, i, 2));
            assert(last_assigned(e, i, 2) == last_assigned(e, i, 1));
        } else if i != 2 {
            assert(last_assigned(e, i, 3) == last_assigned(e, i, 2));
            assert(last_assigned(e, i, 2) == last_assigned(e, i, 1));
            assert(last_assigned(e, i, 1) == last_assigned(e, i, 0));
        }
    }
    assert(Seq::new(s.len(), |i: int| last_assigned(e, i, PROVIDER_COUNT as int)) =~= s);
}

} // verus!
