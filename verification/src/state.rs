//! Vault state: strategies, allocations and fees.
use crate::backend_fields::BackendContainer;
use crate::errors::{ErrorCode, MathError, VaultError};
use crate::last_update::LastUpdate;
use crate::provider::Provider;
use crate::rate::{Decimal, Rate, BIPS_SCALER, WAD};
use vstd::prelude::*;

verus! {

/// Number of slots per year: 160 ticks per second at 64 ticks per slot (2 slots per
/// second, in integer division), 86400 seconds per day, 365 days.
pub const SLOTS_PER_YEAR: u64 = 63_072_000;

/// One, in basis points.
pub const ONE_AS_BPS: u64 = 10000;

/// Strategy type that is executed during rebalance.
#[derive(Clone, Copy, Debug, PartialEq, Eq, Structural)]
pub enum StrategyType {
    MaxYield,
    EqualAllocation,
}

/// How rebalance treats the weights proposed to it.
#[derive(Clone, Copy, Debug, PartialEq, Eq, Structural)]
pub enum RebalanceMode {
    /// Proposed weights are checked against the strategy's own.
    ProofChecker,
    /// The strategy's weights are used as they are.
    Calculator,
}

/// An amount of reserve tokens meant for, or held in, one lending market, with the slot at
/// which it was set.
#[derive(Clone, Copy, Debug)]
pub struct Allocation {
    pub value: u64,
    pub last_update: LastUpdate,
}

/// A value tracked together with the slot at which it was set.
pub type SlotTrackedValue = Allocation;

impl Allocation {
    /// An allocation of zero, last updated at slot zero and not stale.
    pub fn zero() -> (r: Allocation)
        ensures
            r.value == 0,
            r.last_update.slot == 0,
            !r.last_update.stale,
    {
        Allocation { value: 0, last_update: LastUpdate { slot: 0, stale: false } }
    }

    /// Sets the value at the given slot.
    pub fn update(&mut self, value: u64, slot: u64)
        ensures
            final(self).value == value,
            final(self).last_update.slot == slot,
            !final(self).last_update.stale,
    {
        self.value = value;
        self.last_update.update_slot(slot);
    }

    /// Empties the allocation and marks it stale.
    pub fn reset(&mut self)
        ensures
            final(self).value == 0,
            final(self).last_update.slot == old(self).last_update.slot,
            final(self).last_update.stale,
    {
        self.value = 0;
        self.last_update.mark_stale();
    }

    /// Records a deposit of `amount` at `slot`; fails, leaving the allocation as it was, when
    /// the new value overflows.
    pub fn record_deposit(&mut self, amount: u64, slot: u64) -> (r: Result<(), VaultError>)
        ensures
            old(self).value + amount <= u64::MAX ==> {
                &&& r is Ok
                &&& final(self).value == old(self).value + amount
                &&& final(self).last_update.slot == slot
                &&& !final(self).last_update.stale
            },
            old(self).value + amount > u64::MAX ==> {
                &&& r == Err::<(), VaultError>(VaultError::Code(ErrorCode::MathError))
                &&& final(self).value == old(self).value
                &&& final(self).last_update == old(self).last_update
            },
    {
        match self.value.checked_add(amount) {
            Some(v) => {
                self.update(v, slot);
                Ok(())
            },
            None => Err(VaultError::Code(ErrorCode::MathError)),
        }
    }

    /// Records a redemption worth `amount` reserve tokens at `slot`; fails, leaving the
    /// allocation as it was, when that is more than the allocation holds.
    pub fn record_redeem(&mut self, amount: u64, slot: u64) -> (r: Result<(), VaultError>)
        ensures
            amount <= old(self).value ==> {
                &&& r is Ok
                &&& final(self).value == old(self).value - amount
                &&& final(self).last_update.slot == slot
                &&& !final(self).last_update.stale
            },
            amount > old(self).value ==> {
                &&& r == Err::<(), VaultError>(VaultError::Code(ErrorCode::MathError))
                &&& final(self).value == old(self).value
                &&& final(self).last_update == old(self).last_update
            },
    {
        match self.value.checked_sub(amount) {
            Some(v) => {
                self.update(v, slot);
                Ok(())
            },
            None => Err(VaultError::Code(ErrorCode::MathError)),
        }
    }
}

/// One allocation per lending market.
#[derive(Clone, Copy, Debug)]
pub struct Allocations {
    pub solend: Allocation,
    pub port: Allocation,
    pub jet: Allocation,
}

impl Allocations {
    /// The allocation of a provider.
    pub open spec fn at(self, p: Provider) -> Allocation {
        match p {
            Provider::Solend => self.solend,
            Provider::Port => self.port,
            Provider::Jet => self.jet,
        }
    }

    /// The allocation of a provider.
    pub fn get(&self, p: Provider) -> (r: Allocation)
        ensures
            r == self.at(p),
    {
        match p {
            Provider::Solend => self.solend,
            Provider::Port => self.port,
            Provider::Jet => self.jet,
        }
    }

    /// Replaces the allocation of a provider.
    pub fn set(&mut self, p: Provider, a: Allocation)
        ensures
            final(self).at(p) == a,
            forall|q: Provider| q != p ==> final(self).at(q) == old(self).at(q),
    {
        match p {
            Provider::Solend => self.solend = a,
            Provider::Port => self.port = a,
            Provider::Jet => self.jet = a,
        }
    }

    /// Empties a provider's allocation and marks it stale.
    pub fn reset(&mut self, p: Provider)
        ensures
            final(self).at(p).value == 0,
            final(self).at(p).last_update.stale,
            final(self).at(p).last_update.slot == old(self).at(p).last_update.slot,
            forall|q: Provider| q != p ==> final(self).at(q) == old(self).at(q),
    {
        let mut a = self.get(p);
        a.reset();
        self.set(p, a);
    }

    /// Allocations of `vault_value` along the weights, each the weight times the value
    /// rounded down and marked as set, stale, at `slot`.
    pub fn try_from_weights(weights: StrategyWeights, vault_value: u64, slot: u64) -> (r: Result<Allocations, VaultError>)
        ensures
            r == allocations_from_weights(weights, vault_value, slot),
    {
        let solend = allocation_from_weight(weights.solend, vault_value, slot)?;
        let port = allocation_from_weight(weights.port, vault_value, slot)?;
        let jet = allocation_from_weight(weights.jet, vault_value, slot)?;
        Ok(Allocations { solend, port, jet })
    }
}

/// The allocations that weights give of `vault_value`, each set, stale, at `slot`; or the
/// error of the first weight whose amount fails.
pub open spec fn allocations_from_weights(weights: StrategyWeights, vault_value: u64, slot: u64) -> Result<Allocations, VaultError> {
    match (
        weight_amount(weights.solend, vault_value),
        weight_amount(weights.port, vault_value),
        weight_amount(weights.jet, vault_value),
    ) {
        (Err(e), _, _) => Err(VaultError::Math(e)),
        (Ok(_), Err(e), _) => Err(VaultError::Math(e)),
        (Ok(_), Ok(_), Err(e)) => Err(VaultError::Math(e)),
        (Ok(s), Ok(p), Ok(j)) => Ok(
            Allocations {
                solend: Allocation { value: s, last_update: LastUpdate::new_spec(slot) },
                port: Allocation { value: p, last_update: LastUpdate::new_spec(slot) },
                jet: Allocation { value: j, last_update: LastUpdate::new_spec(slot) },
            },
        ),
    }
}

/// The amount a weight gives of a value: the product rounded down.
pub open spec fn weight_amount(w: Rate, value: u64) -> Result<u64, MathError> {
    if w.scaled * value > u128::MAX {
        Err(MathError::MulOverflow)
    } else if (w.scaled * value) / (WAD as int) > u64::MAX {
        Err(MathError::UnableToRoundU64)
    } else {
        Ok(((w.scaled * value) / (WAD as int)) as u64)
    }
}

/// The allocation a weight gives of a value, set at `slot`.
pub fn allocation_from_weight(w: Rate, value: u64, slot: u64) -> (r: Result<Allocation, VaultError>)
    ensures
        match weight_amount(w, value) {
            Ok(v) => r matches Ok(a) && a.value == v && a.last_update == LastUpdate::new_spec(slot),
            Err(e) => r == Err::<Allocation, VaultError>(VaultError::Math(e)),
        },
{
    let product = match w.try_mul_u64(value) {
        Ok(v) => v,
        Err(e) => {
            return Err(VaultError::Math(e));
        },
    };
    match Decimal::from_rate(product).try_floor_u64() {
        Ok(v) => Ok(Allocation { value: v, last_update: LastUpdate::new(slot) }),
        Err(e) => Err(VaultError::Math(e)),
    }
}

/// Weights of the three lending markets.
#[derive(Clone, Copy, Debug)]
pub struct StrategyWeights {
    pub solend: Rate,
    pub port: Rate,
    pub jet: Rate,
}

/// Weights proposed to rebalance, in basis points.
#[derive(Clone, Copy, Debug)]
pub struct StrategyWeightsArg {
    pub solend: u16,
    pub port: u16,
    pub jet: u16,
}

impl StrategyWeights {
    /// The weight of a provider.
    pub open spec fn at(self, p: Provider) -> Rate {
        match p {
            Provider::Solend => self.solend,
            Provider::Port => self.port,
            Provider::Jet => self.jet,
        }
    }

    /// The weight of a provider.
    pub fn get(&self, p: Provider) -> (r: Rate)
        ensures
            r == self.at(p),
    {
        match p {
            Provider::Solend => self.solend,
            Provider::Port => self.port,
            Provider::Jet => self.jet,
        }
    }

    /// The weights of the given basis points.
    pub fn from_arg(value: StrategyWeightsArg) -> (r: StrategyWeights)
        ensures
            r.solend.scaled == value.solend * BIPS_SCALER,
            r.port.scaled == value.port * BIPS_SCALER,
            r.jet.scaled == value.jet * BIPS_SCALER,
    {
        StrategyWeights {
            solend: Rate::from_bips(value.solend as u64),
            port: Rate::from_bips(value.port as u64),
            jet: Rate::from_bips(value.jet as u64),
        }
    }
}

/// The fees that a vault charges.
#[derive(Clone, Copy, Debug)]
pub struct VaultFees {
    /// Basis points of the accrued interest that gets sent to the fee receiver
    pub fee_carry_bps: u32,
    /// Basis points of the AUM that gets sent to the fee receiver
    pub fee_mgmt_bps: u32,
    /// Percent of the fees that goes to the referral fee receiver
    pub referral_fee_pct: u8,
}

/// The numbers a vault keeps.
#[derive(Clone, Copy, Debug)]
pub struct Vault {
    /// Last slot when vault was refreshed
    pub last_update: LastUpdate,
    /// Total value of vault denominated in the reserve token
    pub total_value: u64,
    /// Prospective allocations set by rebalance, executed by reconciles
    pub allocations: Allocations,
    /// Prospective allocations set by rebalancing over a container of backends
    pub allocations_chris: BackendContainer<Allocation>,
    /// Strategy type that is executed during rebalance
    pub strategy_type: StrategyType,
    /// How rebalance treats proposed weights
    pub rebalance_mode: RebalanceMode,
    /// The fees that the vault charges
    pub fees: VaultFees,
    /// Largest total value deposits may bring the vault to
    pub deposit_cap: u64,
    /// Largest share, in percent, that one lending market may be given
    pub allocation_cap_pct: u8,
}

/// The fees owed when the vault's value moves to `new_vault_value` after `slots_elapsed`
/// slots: the carry (the gain times the carry fee) plus the management part (the new value
/// times the management fee, spread over a year's slots and divided by the slots elapsed).
pub open spec fn fee_amount(
    old_value: u64,
    new_vault_value: u64,
    fee_carry_bps: u32,
    fee_mgmt_bps: u32,
    slots_elapsed: u64,
) -> Result<u64, VaultError> {
    let gain: int = if new_vault_value > old_value { new_vault_value - old_value } else { 0 };
    if slots_elapsed == 0 {
        Ok(0)
    } else if gain * fee_carry_bps > u64::MAX || new_vault_value * fee_mgmt_bps > u64::MAX {
        Err(VaultError::Code(ErrorCode::OverflowError))
    } else {
        let carry = gain * fee_carry_bps / (ONE_AS_BPS as int);
        let mgmt = new_vault_value * fee_mgmt_bps / (ONE_AS_BPS as int) / (SLOTS_PER_YEAR as int) / (slots_elapsed as int);
        if carry + mgmt > u64::MAX {
            Err(VaultError::Code(ErrorCode::OverflowError))
        } else {
            Ok((carry + mgmt) as u64)
        }
    }
}

impl Vault {
    /// The fees the vault owes when its value moves to `new_vault_value` at `slot`: the carry
    /// fee on the gain plus the management fee on the new value, spread over the slots of a
    /// year.
    pub fn calculate_fees(&self, new_vault_value: u64, slot: u64) -> (r: Result<u64, VaultError>)
        ensures
            slot < self.last_update.slot ==> r == Err::<u64, VaultError>(VaultError::Code(ErrorCode::MathError)),
            slot >= self.last_update.slot ==> r == fee_amount(
                self.total_value,
                new_vault_value,
                self.fees.fee_carry_bps,
                self.fees.fee_mgmt_bps,
                (slot - self.last_update.slot) as u64,
            ),
    {
        let vault_value_diff = new_vault_value.saturating_sub(self.total_value);
        let slots_elapsed = self.last_update.slots_elapsed(slot)?;
        if slots_elapsed == 0 {
            return Ok(0);
        }
        let carry_bps = self.fees.fee_carry_bps as u64;
        let mgmt_bps = self.fees.fee_mgmt_bps as u64;
        let carry = match vault_value_diff.checked_mul(carry_bps) {
            Some(v) => v / ONE_AS_BPS,
            None => {
                return Err(VaultError::Code(ErrorCode::OverflowError));
            },
        };
        let mgmt = match new_vault_value.checked_mul(mgmt_bps) {
            Some(v) => v / ONE_AS_BPS / SLOTS_PER_YEAR / slots_elapsed,
            None => {
                return Err(VaultError::Code(ErrorCode::OverflowError));
            },
        };
        match carry.checked_add(mgmt) {
            Some(fees) => Ok(fees),
            None => Err(VaultError::Code(ErrorCode::OverflowError)),
        }
    }

    /// Sets the vault's value as of `slot`.
    pub fn update_value(&mut self, new_value: u64, slot: u64)
        ensures
            *final(self) == (Vault {
                total_value: new_value,
                last_update: LastUpdate { slot, stale: false },
                ..*old(self)
            }),
    {
        self.total_value = new_value;
        self.last_update.update_slot(slot);
    }
}

} // verus!
