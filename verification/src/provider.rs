use vstd::prelude::*;

verus! {

/// Number of lending markets the vault can allocate to.
pub const PROVIDER_COUNT: usize = 3;

/// A lending market that the vault allocates to.
#[derive(Clone, Copy, Debug, PartialEq, Eq, Structural)]
pub enum Provider {
    Solend,
    Port,
    Jet,
}

impl Provider {
    /// Position of the provider in a container.
    pub open spec fn pos(self) -> int {
        match self {
            Provider::Solend => 0,
            Provider::Port => 1,
            Provider::Jet => 2,
        }
    }

    /// Positions and providers correspond one to one.
    pub proof fn lemma_at_pos(self)
        ensures
            Provider::at(self.pos()) == self,
            0 <= self.pos() < PROVIDER_COUNT,
    {
    }

    /// Provider that sits at position `i` of a container.
    pub open spec fn at(i: int) -> Provider {
        if i == 0 {
            Provider::Solend
        } else if i == 1 {
            Provider::Port
        } else {
            Provider::Jet
        }
    }

    /// The provider at position `i`.
    pub fn from_index(i: usize) -> (p: Provider)
        requires
            i < PROVIDER_COUNT,
        ensures
            p == Provider::at(i as int),
            p.pos() == i,
    {
        if i == 0 {
            Provider::Solend
        } else if i == 1 {
            Provider::Port
        } else {
            Provider::Jet
        }
    }

    /// Every provider, in the order in which containers hold them.
    pub fn iter() -> (v: Vec<Provider>)
        ensures
            v@ == seq![Provider::Solend, Provider::Port, Provider::Jet],
    {
        vec![Provider::Solend, Provider::Port, Provider::Jet]
    }

    /// Position of the provider in a container.
    pub fn index(&self) -> (r: usize)
        ensures
            r == self.pos(),
            r < PROVIDER_COUNT,
    {
        match self {
            Provider::Solend => 0,
            Provider::Port => 1,
            Provider::Jet => 2,
        }
    }
}

} // verus!
