//! When a tracked value was last updated.
use crate::errors::{ErrorCode, VaultError};
use std::cmp::Ordering;
use vstd::prelude::*;

verus! {

/// Number of slots to consider stale after
pub const STALE_AFTER_SLOTS_ELAPSED: u64 = 1;

/// The slot of the last update, and whether the value was marked stale since.
#[derive(Clone, Copy, Debug)]
pub struct LastUpdate {
    pub slot: u64,
    pub stale: bool,
}

impl LastUpdate {
    /// A last update at `slot`, marked stale.
    pub open spec fn new_spec(slot: u64) -> LastUpdate {
        LastUpdate { slot, stale: true }
    }

    /// Create new last update
    pub fn new(slot: u64) -> (r: LastUpdate)
        ensures
            r == LastUpdate::new_spec(slot),
    {
        LastUpdate { slot, stale: true }
    }

    /// Return slots elapsed since given slot
    pub fn slots_elapsed(&self, slot: u64) -> (r: Result<u64, VaultError>)
        ensures
            slot >= self.slot ==> r == Ok::<u64, VaultError>((slot - self.slot) as u64),
            slot < self.slot ==> r == Err::<u64, VaultError>(VaultError::Code(ErrorCode::MathError)),
    {
        match slot.checked_sub(self.slot) {
            Some(v) => Ok(v),
            None => Err(VaultError::Code(ErrorCode::MathError)),
        }
    }

    /// Set last update slot
    pub fn update_slot(&mut self, slot: u64)
        ensures
            final(self).slot == slot,
            !final(self).stale,
    {
        self.slot = slot;
        self.stale = false;
    }

    /// Set stale to true
    pub fn mark_stale(&mut self)
        ensures
            final(self).slot == old(self).slot,
            final(self).stale,
    {
        self.stale = true;
    }

    /// Check if marked stale or last update slot is too long ago
    pub fn is_stale(&self, slot: u64) -> (r: Result<bool, VaultError>)
        ensures
            self.stale ==> r == Ok::<bool, VaultError>(true),
            !self.stale && slot >= self.slot ==> r == Ok::<bool, VaultError>(slot - self.slot >= STALE_AFTER_SLOTS_ELAPSED),
            !self.stale && slot < self.slot ==> r == Err::<bool, VaultError>(VaultError::Code(ErrorCode::MathError)),
    {
        if self.stale {
            return Ok(true);
        }
        match self.slots_elapsed(slot) {
            Ok(elapsed) => Ok(elapsed >= STALE_AFTER_SLOTS_ELAPSED),
            Err(e) => Err(e),
        }
    }
}

impl Default for LastUpdate {
    fn default() -> (r: LastUpdate)
        ensures
            r.slot == 0,
            !r.stale,
    {
        LastUpdate { slot: 0, stale: false }
    }
}

/// Two last updates are equal when they are at the same slot.
impl PartialEq for LastUpdate {
    fn eq(&self, other: &Self) -> (r: bool) {
        self.slot == other.slot
    }
}

impl vstd::std_specs::cmp::PartialEqSpecImpl for LastUpdate {
    open spec fn obeys_eq_spec() -> bool {
        true
    }

    open spec fn eq_spec(&self, other: &LastUpdate) -> bool {
        self.slot == other.slot
    }
}

/// Last updates are ordered by their slots.
impl PartialOrd for LastUpdate {
    fn partial_cmp(&self, other: &Self) -> (r: Option<Ordering>) {
        if self.slot < other.slot {
            Some(Ordering::Less)
        } else if self.slot > other.slot {
            Some(Ordering::Greater)
        } else {
            Some(Ordering::Equal)
        }
    }
}

impl vstd::std_specs::cmp::PartialOrdSpecImpl for LastUpdate {
    open spec fn obeys_partial_cmp_spec() -> bool {
        true
    }

    open spec fn partial_cmp_spec(&self, other: &LastUpdate) -> Option<Ordering> {
        if self.slot < other.slot {
            Some(Ordering::Less)
        } else if self.slot > other.slot {
            Some(Ordering::Greater)
        } else {
            Some(Ordering::Equal)
        }
    }
}

} // verus!
