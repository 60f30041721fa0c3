//! A container that holds an optional value for each supported lending market.
pub mod iter;
pub mod rate;
pub mod reserves;
pub mod u64;

use crate::provider::{Provider, PROVIDER_COUNT};
use vstd::prelude::*;

verus! {

/// The value held at a slot, taken by reference.
pub open spec fn opt_ref<T>(o: Option<T>) -> Option<&'static T> {
    match o {
        Some(t) => Some(&t),
        None => None,
    }
}

/// Number of filled slots among the first `n` slots.
pub open spec fn count_some<T>(s: Seq<Option<T>>, n: int) -> nat
    decreases n,
{
    if n <= 0 {
        0
    } else {
        count_some(s, n - 1) + if s[n - 1] is Some { 1nat } else { 0nat }
    }
}

/// The value that the last entry for position `i` among the first `k` entries sets,
/// or `None` when no such entry exists.
pub open spec fn last_assigned<T>(entries: Seq<(Provider, Option<T>)>, i: int, k: int) -> Option<T>
    decreases k,
{
    if k <= 0 {
        None
    } else if entries[k - 1].0.pos() == i {
        entries[k - 1].1
    } else {
        last_assigned(entries, i, k - 1)
    }
}

/// `f` succeeds on the slot at position `j` of `s`.
pub open spec fn succeeds_at<T, U, E, F: Fn(Provider, Option<&T>) -> Result<Option<U>, E>>(
    f: F,
    s: Seq<Option<T>>,
    j: int,
) -> bool {
    exists|u: Option<U>| #[trigger] f.ensures((Provider::at(j), opt_ref(s[j])), Ok(u))
}

/// `f` fails with `e` on the slot at position `k` of `s` after succeeding on every earlier one.
pub open spec fn fails_first<T, U, E, F: Fn(Provider, Option<&T>) -> Result<Option<U>, E>>(
    f: F,
    s: Seq<Option<T>>,
    k: int,
    e: E,
) -> bool {
    &&& 0 <= k < PROVIDER_COUNT
    &&& f.ensures((Provider::at(k), opt_ref(s[k])), Err(e))
    &&& forall|j: int| 0 <= j < k ==> #[trigger] succeeds_at(f, s, j)
}

/// Provides an abstraction over supported assets: one optional value per slot, where the
/// first `PROVIDER_COUNT` slots belong to the providers in their order.
#[derive(Debug)]
pub struct AssetContainerGeneric<T, const N: usize> {
    pub(crate) inner: Vec<Option<T>>,
}

/// The container with one slot per provider.
pub type AssetContainer<T> = AssetContainerGeneric<T, PROVIDER_COUNT>;

impl<T, const N: usize> View for AssetContainerGeneric<T, N> {
    type V = Seq<Option<T>>;

    closed spec fn view(&self) -> Seq<Option<T>> {
        self.inner@
    }
}

impl<T, const N: usize> Default for AssetContainerGeneric<T, N> {
    /// A container whose slots are all empty.
    fn default() -> (r: Self)
        ensures
            r@.len() == N,
            forall|i: int| 0 <= i < N ==> r@[i] is None,
    {
        AssetContainerGeneric::empty()
    }
}

impl<T, const N: usize> AssetContainerGeneric<T, N> {
    #[verifier::type_invariant]
    spec fn holds_n_slots(&self) -> bool {
        self.inner@.len() == N
    }

    /// The number of slots is `N`.
    pub fn slot_count(&self) -> (r: usize)
        ensures
            r == N,
            self@.len() == N,
    {
        proof {
            use_type_invariant(self);
        }
        self.inner.len()
    }

    /// A container with the given slots; `None` unless there are exactly `N` of them.
    pub fn new(slots: Vec<Option<T>>) -> (r: Option<Self>)
        ensures
            r is Some <==> slots@.len() == N,
            r matches Some(c) ==> c@ == slots@,
    {
        if slots.len() == N {
            Some(AssetContainerGeneric { inner: slots })
        } else {
            None
        }
    }

    /// A container whose slots are all empty.
    pub fn empty() -> (r: Self)
        ensures
            r@.len() == N,
            forall|i: int| 0 <= i < N ==> r@[i] is None,
    {
        let mut inner: Vec<Option<T>> = Vec::new();
        let mut i: usize = 0;
        while i < N
            invariant
                i <= N,
                inner@.len() == i,
                forall|j: int| 0 <= j < i ==> inner@[j] is None,
            decreases N - i,
        {
            inner.push(None);
            i = i + 1;
        }
        AssetContainerGeneric { inner }
    }

    /// Returns the number of providers that hold a value.
    pub fn len(&self) -> (r: usize)
        requires
            N >= PROVIDER_COUNT,
        ensures
            r == count_some(self@, PROVIDER_COUNT as int),
    {
        proof {
            use_type_invariant(self);
        }
        let mut n: usize = 0;
        let mut i: usize = 0;
        while i < PROVIDER_COUNT
            invariant
                i <= PROVIDER_COUNT,
                N >= PROVIDER_COUNT,
                self.inner@.len() == N,
                n == count_some(self@, i as int),
                n <= i,
            decreases PROVIDER_COUNT - i,
        {
            if self.inner[i].is_some() {
                n = n + 1;
            }
            i = i + 1;
        }
        n
    }

    /// Returns if the container is uninitialized: no slot holds a value.
    pub fn is_empty(&self) -> (r: bool)
        ensures
            r <==> forall|i: int| 0 <= i < self@.len() ==> self@[i] is None,
    {
        let mut i: usize = 0;
        while i < self.inner.len()
            invariant
                i <= self.inner@.len(),
                forall|j: int| 0 <= j < i ==> self.inner@[j] is None,
            decreases self.inner@.len() - i,
        {
            if self.inner[i].is_some() {
                return false;
            }
            i = i + 1;
        }
        true
    }

    /// The slot of a provider.
    pub fn index(&self, provider: Provider) -> (r: &Option<T>)
        requires
            N >= PROVIDER_COUNT,
        ensures
            *r == self@[provider.pos()],
    {
        proof {
            use_type_invariant(self);
        }
        &self.inner[provider.index()]
    }

    /// Replaces the slot of a provider.
    pub fn set(&mut self, provider: Provider, value: Option<T>)
        requires
            N >= PROVIDER_COUNT,
        ensures
            final(self)@ == old(self)@.update(provider.pos(), value),
    {
        proof {
            use_type_invariant(&*self);
        }
        let i = provider.index();
        self.inner[i] = value;
    }

    /// Takes the value out of a provider's slot, leaving it empty.
    pub fn take(&mut self, provider: Provider) -> (r: Option<T>)
        requires
            N >= PROVIDER_COUNT,
        ensures
            r == old(self)@[provider.pos()],
            final(self)@ == old(self)@.update(provider.pos(), None),
    {
        proof {
            use_type_invariant(&*self);
        }
        let i = provider.index();
        let mut out: Option<T> = None;
        std::mem::swap(&mut out, &mut self.inner[i]);
        out
    }

    /// Applies `f` to each provider's slot, yielding a new container; the slots past the
    /// providers' stay empty.
    pub fn apply<U, F: Fn(Provider, Option<&T>) -> Option<U>>(&self, f: F) -> (r: AssetContainerGeneric<U, N>)
        requires
            N >= PROVIDER_COUNT,
            forall|i: int|
                0 <= i < PROVIDER_COUNT ==> #[trigger] f.requires((Provider::at(i), opt_ref(self@[i]))),
        ensures
            r@.len() == N,
            forall|i: int|
                0 <= i < PROVIDER_COUNT ==> #[trigger] f.ensures((Provider::at(i), opt_ref(self@[i])), r@[i]),
            forall|i: int| PROVIDER_COUNT <= i < N ==> r@[i] is None,
    {
        proof {
            use_type_invariant(self);
        }
        let mut res: AssetContainerGeneric<U, N> = AssetContainerGeneric::empty();
        let mut i: usize = 0;
        while i < PROVIDER_COUNT
            invariant
                i <= PROVIDER_COUNT,
                N >= PROVIDER_COUNT,
                self.inner@.len() == N,
                res@.len() == N,
                forall|j: int|
                    0 <= j < PROVIDER_COUNT ==> #[trigger] f.requires((Provider::at(j), opt_ref(self@[j]))),
                forall|j: int| 0 <= j < i ==> #[trigger] f.ensures((Provider::at(j), opt_ref(self@[j])), res@[j]),
                forall|j: int| i <= j < N ==> res@[j] is None,
            decreases PROVIDER_COUNT - i,
        {
            let p = Provider::from_index(i);
            let slot = self.inner[i].as_ref();
            assert(slot == opt_ref(self@[i as int]));
            assert(f.requires((Provider::at(i as int), opt_ref(self@[i as int]))));
            let v = f(p, slot);
            res.set(p, v);
            i = i + 1;
        }
        res
    }

    /// Identical to `apply` but `f` may fail: the first failure, in the providers' order,
    /// is returned and no later provider is visited.
    pub fn try_apply<U, E, F: Fn(Provider, Option<&T>) -> Result<Option<U>, E>>(&self, f: F) -> (r: Result<AssetContainerGeneric<U, N>, E>)
        requires
            N >= PROVIDER_COUNT,
            forall|i: int|
                0 <= i < PROVIDER_COUNT ==> #[trigger] f.requires((Provider::at(i), opt_ref(self@[i]))),
        ensures
            r matches Ok(c) ==> {
                &&& c@.len() == N
                &&& forall|i: int|
                    0 <= i < PROVIDER_COUNT ==> #[trigger] f.ensures((Provider::at(i), opt_ref(self@[i])), Ok(c@[i]))
                &&& forall|i: int| PROVIDER_COUNT <= i < N ==> c@[i] is None
            },
            r matches Err(e) ==> exists|k: int| #[trigger] fails_first(f, self@, k, e),
    {
        proof {
            use_type_invariant(self);
        }
        let mut res: AssetContainerGeneric<U, N> = AssetContainerGeneric::empty();
        let mut i: usize = 0;
        while i < PROVIDER_COUNT
            invariant
                i <= PROVIDER_COUNT,
                N >= PROVIDER_COUNT,
                self.inner@.len() == N,
                res@.len() == N,
                forall|j: int|
                    0 <= j < PROVIDER_COUNT ==> #[trigger] f.requires((Provider::at(j), opt_ref(self@[j]))),
                forall|j: int| 0 <= j < i ==> #[trigger] f.ensures((Provider::at(j), opt_ref(self@[j])), Ok(res@[j])),
                forall|j: int| i <= j < N ==> res@[j] is None,
            decreases PROVIDER_COUNT - i,
        {
            let p = Provider::from_index(i);
            let slot = self.inner[i].as_ref();
            assert(slot == opt_ref(self@[i as int]));
            assert(f.requires((Provider::at(i as int), opt_ref(self@[i as int]))));
            match f(p, slot) {
                Ok(v) => {
                    res.set(p, v);
                },
                Err(e) => {
                    proof {
                        assert forall|j: int| 0 <= j < i implies #[trigger] succeeds_at(f, self@, j) by {
                            assert(f.ensures((Provider::at(j), opt_ref(self@[j])), Ok(res@[j])));
                        }
                        assert(fails_first(f, self@, i as int, e));
                    }
                    let out: Result<AssetContainerGeneric<U, N>, E> = Err(e);
                    assert(out matches Err(e2) && fails_first(f, self@, i as int, e2));
                    return out;
                },
            }
            i = i + 1;
        }
        Ok(res)
    }

    /// Like `apply`, but consumes the container and hands `f` each value it takes out.
    pub fn apply_owned<U, F: Fn(Provider, Option<&T>) -> Option<U>>(self, f: F) -> (r: AssetContainerGeneric<U, N>)
        requires
            N >= PROVIDER_COUNT,
            forall|i: int|
                0 <= i < PROVIDER_COUNT ==> #[trigger] f.requires((Provider::at(i), opt_ref(self@[i]))),
        ensures
            r@.len() == N,
            forall|i: int|
                0 <= i < PROVIDER_COUNT ==> #[trigger] f.ensures((Provider::at(i), opt_ref(self@[i])), r@[i]),
            forall|i: int| PROVIDER_COUNT <= i < N ==> r@[i] is None,
    {
        self.apply(f)
    }

    /// Builds a container from `(provider, value)` entries: every slot starts empty and each
    /// entry in turn overwrites its provider's slot.
    pub fn from_iter(entries: Vec<(Provider, Option<T>)>) -> (r: Self)
        requires
            N >= PROVIDER_COUNT,
        ensures
            r@.len() == N,
            forall|i: int| 0 <= i < N ==> r@[i] == last_assigned(entries@, i, entries@.len() as int),
    {
        let ghost all = entries@;
        let mut rest = entries;
        let n = rest.len();
        let mut res: Self = AssetContainerGeneric::empty();
        let mut k: usize = 0;
        while rest.len() > 0
            invariant
                N >= PROVIDER_COUNT,
                all.len() == n,
                k <= all.len(),
                rest@ == all.skip(k as int),
                res@.len() == N,
                forall|i: int| 0 <= i < N ==> res@[i] == last_assigned(all, i, k as int),
            decreases rest@.len(),
        {
            let (p, v) = rest.remove(0);
            let ghost old_res = res@;
            let ghost gv = v;
            proof {
                assert(all[k as int] == (p, v));
                p.lemma_at_pos();
            }
            res.set(p, v);
            proof {
                assert(all.skip(k as int).skip(1) =~= all.skip(k + 1));
                assert forall|i: int| 0 <= i < N implies res@[i] == last_assigned(all, i, k + 1) by {
                    assert(all[k as int].0 == p);
                    assert(all[k as int].1 == gv);
                    assert(old_res[i] == last_assigned(all, i, k as int));
                    if p.pos() == i {
                        assert(res@[i] == gv);
                    } else {
                        assert(res@[i] == old_res[i]);
                    }
                }
            }
            k = k + 1;
        }
        proof {
            assert(k == all.len());
        }
        res
    }
}

} // verus!
