//! What rebalance reports.
use crate::backend_fields::BackendContainer;
use crate::state::{Allocation, Allocations};
use vstd::prelude::*;

verus! {

/// The allocations that rebalancing over a container of backends stored.
#[derive(Clone, Copy, Debug)]
pub struct RebalanceEventChris {
    pub allocations: BackendContainer<Allocation>,
}

/// The allocations that rebalance stored.
#[derive(Clone, Copy, Debug, PartialEq, Eq, Structural)]
pub struct RebalanceEvent {
    pub solend: u64,
    pub port: u64,
    pub jet: u64,
}

impl RebalanceEvent {
    /// The event that reports the given allocations.
    pub fn from_allocations(allocations: &Allocations) -> (r: RebalanceEvent)
        ensures
            r.solend == allocations.solend.value,
            r.port == allocations.port.value,
            r.jet == allocations.jet.value,
    {
        RebalanceEvent {
            solend: allocations.solend.value,
            port: allocations.port.value,
            jet: allocations.jet.value,
        }
    }
}

} // verus!
