use castle_vault::asset_container::reserves::ReturnCalculator;
use castle_vault::assets::Assets;
use castle_vault::errors::{ErrorCode, VaultError};
use castle_vault::events::RebalanceEvent;
use castle_vault::instructions::init::{validate_fees, FeeArgs};
use castle_vault::instructions::reconcile::{plan, redeem_amount, ReconcileAction, ReconcilePlan};
use castle_vault::instructions::{
    deposit, init, rebalance, reconcile, reconcile_jet, reconcile_port, reconcile_solend, refresh, update_deposit_cap,
    withdraw,
};
use castle_vault::last_update::LastUpdate;
use castle_vault::markets::{PortReserve, SolendReserve};
use castle_vault::provider::Provider;
use castle_vault::rate::Rate;
use castle_vault::state::{
    Allocation, Allocations, RebalanceMode, StrategyType, StrategyWeightsArg, Vault, VaultFees,
};

struct FixedReturn(Rate);

impl ReturnCalculator for FixedReturn {
    fn spec_calculate_return(&self, new_allocation: u64, old_allocation: u64) -> Result<Rate, VaultError> {
        self.calculate_return(new_allocation, old_allocation)
    }

    fn calculate_return(&self, _new_allocation: u64, _old_allocation: u64) -> Result<Rate, VaultError> {
        Ok(self.0)
    }
}

fn assets(a: u8, b: u8, c: u8) -> Assets<FixedReturn> {
    Assets {
        solend: FixedReturn(Rate::from_percent(a)),
        port: FixedReturn(Rate::from_percent(b)),
        jet: FixedReturn(Rate::from_percent(c)),
    }
}

fn allocation(value: u64, slot: u64) -> Allocation {
    Allocation { value, last_update: LastUpdate { slot, stale: false } }
}

fn vault(total_value: u64, slot: u64, mode: RebalanceMode, strategy: StrategyType) -> Vault {
    Vault {
        last_update: LastUpdate { slot, stale: false },
        total_value,
        allocations: Allocations { solend: allocation(0, slot), port: allocation(0, slot), jet: allocation(0, slot) },
        allocations_chris: castle_vault::backend_fields::BackendContainer {
            solend: allocation(0, slot),
            port: allocation(0, slot),
            jet: allocation(0, slot),
        },
        strategy_type: strategy,
        rebalance_mode: mode,
        fees: VaultFees { fee_carry_bps: 1000, fee_mgmt_bps: 100, referral_fee_pct: 10 },
        deposit_cap: u64::MAX,
        allocation_cap_pct: 100,
    }
}

fn solend_one_to_one() -> SolendReserve {
    SolendReserve {
        available_amount: 1000,
        borrowed_amount_wads: 0,
        collateral_mint_total_supply: 0,
        optimal_utilization_rate: 80,
        min_borrow_rate: 0,
        optimal_borrow_rate: 10,
        max_borrow_rate: 30,
    }
}

fn port_two_per_lp() -> PortReserve {
    PortReserve {
        available_amount: 1000,
        borrowed_amount_wads: 0,
        collateral_mint_total_supply: 500,
        optimal_utilization_rate: 80,
        min_borrow_rate: 0,
        optimal_borrow_rate: 10,
        max_borrow_rate: 30,
    }
}

#[test]
fn fees_are_validated() {
    let ok = FeeArgs { fee_carry_bps: 10000, fee_mgmt_bps: 0, referral_fee_pct: 50 };
    assert!(validate_fees(&ok).is_ok());
    let carry = FeeArgs { fee_carry_bps: 10001, fee_mgmt_bps: 0, referral_fee_pct: 0 };
    assert_eq!(validate_fees(&carry), Err(VaultError::Code(ErrorCode::FeeBpsError)));
    let mgmt = FeeArgs { fee_carry_bps: 0, fee_mgmt_bps: 10001, referral_fee_pct: 0 };
    assert_eq!(validate_fees(&mgmt), Err(VaultError::Code(ErrorCode::FeeBpsError)));
    let referral = FeeArgs { fee_carry_bps: 0, fee_mgmt_bps: 0, referral_fee_pct: 51 };
    assert_eq!(validate_fees(&referral), Err(VaultError::Code(ErrorCode::ReferralFeeError)));
}

#[test]
fn initialize_sets_up_an_empty_vault() {
    let fees = FeeArgs { fee_carry_bps: 100, fee_mgmt_bps: 50, referral_fee_pct: 20 };
    let v = init::handler(StrategyType::MaxYield, RebalanceMode::Calculator, fees, None, None, 42).unwrap();
    assert_eq!(v.total_value, 0);
    assert_eq!(v.last_update.slot, 42);
    assert!(v.last_update.stale);
    assert_eq!(v.deposit_cap, u64::MAX);
    assert_eq!(v.allocation_cap_pct, 100);
    assert_eq!(v.fees.fee_carry_bps, 100);
    let capped = init::handler(StrategyType::MaxYield, RebalanceMode::Calculator, fees, Some(7), Some(34), 0).unwrap();
    assert_eq!(capped.deposit_cap, 7);
    assert_eq!(capped.allocation_cap_pct, 34);
}

#[test]
fn initialize_refuses_bad_parameters() {
    let fees = FeeArgs { fee_carry_bps: 100, fee_mgmt_bps: 50, referral_fee_pct: 20 };
    let low = init::handler(StrategyType::MaxYield, RebalanceMode::Calculator, fees, None, Some(33), 0);
    assert_eq!(low.err(), Some(VaultError::Code(ErrorCode::InvalidAllocationCap)));
    let high = init::handler(StrategyType::MaxYield, RebalanceMode::Calculator, fees, None, Some(101), 0);
    assert_eq!(high.err(), Some(VaultError::Code(ErrorCode::InvalidAllocationCap)));
    let bad = FeeArgs { fee_carry_bps: 100, fee_mgmt_bps: 50, referral_fee_pct: 60 };
    let r = init::handler(StrategyType::MaxYield, RebalanceMode::Calculator, bad, None, Some(101), 0);
    assert_eq!(r.err(), Some(VaultError::Code(ErrorCode::ReferralFeeError)));
}

#[test]
fn deposit_mints_proportional_lp_tokens() {
    let v = vault(1000, 5, RebalanceMode::Calculator, StrategyType::MaxYield);
    assert_eq!(deposit::handler(&v, 100, 500), Ok(50));
    assert_eq!(deposit::handler(&v, 1000, 500), Ok(500));
    let mut stale = v;
    stale.last_update.stale = true;
    assert_eq!(deposit::handler(&stale, 100, 500), Err(VaultError::Code(ErrorCode::VaultIsNotRefreshed)));
    let empty = vault(0, 5, RebalanceMode::Calculator, StrategyType::MaxYield);
    assert_eq!(deposit::handler(&empty, 100, 500), Err(VaultError::Code(ErrorCode::MathError)));
}

#[test]
fn withdraw_hands_out_a_share_of_the_value() {
    let mut v = vault(1000, 5, RebalanceMode::Calculator, StrategyType::MaxYield);
    assert_eq!(withdraw::handler(&mut v, 50, 500, 5), Ok(100));
    assert_eq!(v.total_value, 900);
    // the whole supply takes the whole value
    let mut w = vault(777, 5, RebalanceMode::Calculator, StrategyType::MaxYield);
    assert_eq!(withdraw::handler(&mut w, 300, 300, 5), Ok(777));
    assert_eq!(w.total_value, 0);
}

#[test]
fn withdraw_needs_a_fresh_vault() {
    let mut v = vault(1000, 5, RebalanceMode::Calculator, StrategyType::MaxYield);
    assert_eq!(withdraw::handler(&mut v, 50, 500, 6), Err(VaultError::Code(ErrorCode::VaultIsNotRefreshed)));
    assert_eq!(withdraw::handler(&mut v, 50, 500, 4), Err(VaultError::Code(ErrorCode::MathError)));
    assert_eq!(withdraw::handler(&mut v, 50, 0, 5), Err(VaultError::Code(ErrorCode::MathError)));
    assert_eq!(v.total_value, 1000);
}

#[test]
fn refresh_sums_the_positions() {
    let mut v = vault(0, 5, RebalanceMode::Calculator, StrategyType::MaxYield);
    v.last_update.stale = true;
    refresh::handler(&mut v, 10, 20, 30, 40, 9);
    assert_eq!(v.total_value, 100);
    assert_eq!(v.last_update.slot, 9);
    assert!(!v.last_update.stale);
}

#[test]
fn refresh_values_lp_tokens_through_the_markets() {
    let mut v = vault(0, 5, RebalanceMode::Calculator, StrategyType::MaxYield);
    let r = refresh::refresh_from_reserves(&mut v, 10, &solend_one_to_one(), 20, &port_two_per_lp(), 15, 5, 9);
    assert_eq!(r, Ok(()));
    assert_eq!(v.total_value, 10 + 20 + 30 + 5);
    assert_eq!(v.last_update.slot, 9);
    let mut w = vault(3, 5, RebalanceMode::Calculator, StrategyType::MaxYield);
    let r = refresh::refresh_from_reserves(&mut w, u64::MAX, &solend_one_to_one(), 1, &port_two_per_lp(), 0, 0, 9);
    assert_eq!(r, Err(VaultError::Code(ErrorCode::OverflowError)));
    assert_eq!(w.total_value, 3);
}

#[test]
fn deposit_cap_is_replaced() {
    let mut v = vault(0, 5, RebalanceMode::Calculator, StrategyType::MaxYield);
    update_deposit_cap::handler(&mut v, 12345);
    assert_eq!(v.deposit_cap, 12345);
}

#[test]
fn fees_carry_and_management() {
    let v = vault(1000, 5, RebalanceMode::Calculator, StrategyType::MaxYield);
    // 10% of the gain of 500, plus 10% of 1500 over a year of slots, divided by 10 slots
    assert_eq!(v.calculate_fees(1500, 15), Ok(50));
    assert_eq!(v.calculate_fees(1500, 5), Ok(0));
    assert_eq!(v.calculate_fees(1500, 4), Err(VaultError::Code(ErrorCode::MathError)));
    assert_eq!(v.calculate_fees(u64::MAX, 6), Err(VaultError::Code(ErrorCode::OverflowError)));
}

#[test]
fn fees_use_each_rate_for_its_part() {
    let mut v = vault(63_072_000, 0, RebalanceMode::Calculator, StrategyType::MaxYield);
    v.fees = VaultFees { fee_carry_bps: 10000, fee_mgmt_bps: 0, referral_fee_pct: 0 };
    // no gain and no management fee: nothing is owed
    assert_eq!(v.calculate_fees(63_072_000, 1), Ok(0));
    let mut w = vault(630_720_000_000, 0, RebalanceMode::Calculator, StrategyType::MaxYield);
    w.fees = VaultFees { fee_carry_bps: 0, fee_mgmt_bps: 10000, referral_fee_pct: 0 };
    // the whole value over a year's slots, for one slot
    assert_eq!(w.calculate_fees(630_720_000_000, 1), Ok(10000));
}

#[test]
fn rebalance_max_yield_calculator() {
    let mut v = vault(1000, 5, RebalanceMode::Calculator, StrategyType::MaxYield);
    let arg = StrategyWeightsArg { solend: 0, port: 0, jet: 0 };
    let a = rebalance::handler(&mut v, &assets(5, 9, 2), arg, 5).unwrap();
    assert_eq!((a.solend.value, a.port.value, a.jet.value), (0, 1000, 0));
    assert_eq!(v.allocations.port.value, 1000);
    assert_eq!(RebalanceEvent::from_allocations(&a), RebalanceEvent { solend: 0, port: 1000, jet: 0 });
}

#[test]
fn rebalance_equal_calculator() {
    let mut v = vault(900, 5, RebalanceMode::Calculator, StrategyType::EqualAllocation);
    let arg = StrategyWeightsArg { solend: 0, port: 0, jet: 0 };
    let a = rebalance::handler(&mut v, &assets(5, 9, 2), arg, 5).unwrap();
    assert_eq!((a.solend.value, a.port.value, a.jet.value), (299, 299, 299));
}

#[test]
fn rebalance_accepts_a_proposal_at_least_as_good() {
    let mut v = vault(1000, 5, RebalanceMode::ProofChecker, StrategyType::MaxYield);
    let arg = StrategyWeightsArg { solend: 0, port: 10000, jet: 0 };
    let a = rebalance::handler(&mut v, &assets(5, 9, 2), arg, 5).unwrap();
    assert_eq!(a.port.value, 1000);
}

#[test]
fn rebalance_refuses_a_worse_proposal_and_keeps_the_vault() {
    let mut v = vault(1000, 5, RebalanceMode::ProofChecker, StrategyType::MaxYield);
    v.allocations.jet.value = 17;
    let arg = StrategyWeightsArg { solend: 5000, port: 5000, jet: 0 };
    let r = rebalance::handler(&mut v, &assets(5, 9, 2), arg, 5);
    assert_eq!(r.err(), Some(VaultError::Code(ErrorCode::RebalanceProofCheckFailed)));
    assert_eq!(v.allocations.jet.value, 17);
}

#[test]
fn rebalance_refuses_weights_that_do_not_add_up() {
    let mut v = vault(1000, 5, RebalanceMode::ProofChecker, StrategyType::MaxYield);
    let arg = StrategyWeightsArg { solend: 0, port: 9000, jet: 0 };
    let r = rebalance::handler(&mut v, &assets(5, 9, 2), arg, 5);
    assert_eq!(r.err(), Some(VaultError::Code(ErrorCode::InvalidProposedWeights)));
}

#[test]
fn rebalance_needs_a_fresh_vault() {
    let mut v = vault(1000, 5, RebalanceMode::Calculator, StrategyType::MaxYield);
    let arg = StrategyWeightsArg { solend: 0, port: 0, jet: 0 };
    let r = rebalance::handler(&mut v, &assets(5, 9, 2), arg, 6);
    assert_eq!(r.err(), Some(VaultError::Code(ErrorCode::VaultIsNotRefreshed)));
}

#[test]
fn apr_of_weights_and_allocations() {
    let v = vault(1000, 5, RebalanceMode::Calculator, StrategyType::MaxYield);
    let w = castle_vault::state::StrategyWeights {
        solend: Rate::from_percent(50),
        port: Rate::from_percent(50),
        jet: Rate::zero(),
    };
    let apr = rebalance::get_apr(&w, &v.allocations, &assets(10, 20, 90)).unwrap();
    assert_eq!(apr.scaled, 150_000_000_000_000_000);
}

#[test]
fn reconcile_plan_deposits_what_is_missing() {
    let mut v = vault(1000, 5, RebalanceMode::Calculator, StrategyType::MaxYield);
    v.allocations.solend = allocation(100, 10);
    assert_eq!(plan(&v, Provider::Solend, 40, 1000, 12), Ok(ReconcilePlan::Deposit(60)));
    assert_eq!(plan(&v, Provider::Solend, 40, 25, 12), Ok(ReconcilePlan::Deposit(25)));
    assert_eq!(plan(&v, Provider::Solend, 140, 25, 12), Ok(ReconcilePlan::RedeemExcess));
    assert_eq!(plan(&v, Provider::Solend, 40, 25, 31), Err(VaultError::Code(ErrorCode::AllocationIsNotUpdated)));
    assert_eq!(plan(&v, Provider::Solend, 40, 25, 9), Err(VaultError::Code(ErrorCode::MathError)));
    assert_eq!(redeem_amount(10, 4), Ok(6));
    assert_eq!(redeem_amount(4, 10), Err(VaultError::Code(ErrorCode::MathError)));
}

#[test]
fn reconcile_deposits_and_empties_the_allocation() {
    let mut v = vault(1000, 5, RebalanceMode::Calculator, StrategyType::MaxYield);
    v.allocations.solend = allocation(100, 10);
    let r = reconcile::handler(&mut v, Provider::Solend, &solend_one_to_one(), 40, 50, 12, 0);
    assert_eq!(r, Ok(ReconcileAction::Deposit(50)));
    assert_eq!(v.allocations.solend.value, 0);
    assert!(v.allocations.solend.last_update.stale);
}

#[test]
fn reconcile_redeems_the_excess() {
    let mut v = vault(1000, 5, RebalanceMode::Calculator, StrategyType::MaxYield);
    v.allocations.port = allocation(30, 10);
    // 40 LP tokens are worth 80; the allocation of 30 is worth 15 of them
    let r = reconcile::handler(&mut v, Provider::Port, &port_two_per_lp(), 40, 0, 12, 0);
    assert_eq!(r, Ok(ReconcileAction::Redeem(25)));
    assert_eq!(v.allocations.port.value, 0);
}

#[test]
fn reconcile_for_a_withdrawal_keeps_the_allocation() {
    let mut v = vault(1000, 5, RebalanceMode::Calculator, StrategyType::MaxYield);
    v.allocations.port = allocation(30, 10);
    let r = reconcile::handler(&mut v, Provider::Port, &port_two_per_lp(), 40, 0, 12, 5);
    assert_eq!(r, Ok(ReconcileAction::Redeem(10)));
    assert_eq!(v.allocations.port.value, 30);
}

#[test]
fn reconcile_refuses_an_old_allocation() {
    let mut v = vault(1000, 5, RebalanceMode::Calculator, StrategyType::MaxYield);
    v.allocations.solend = allocation(100, 10);
    let r = reconcile::handler(&mut v, Provider::Solend, &solend_one_to_one(), 40, 50, 31, 0);
    assert_eq!(r, Err(VaultError::Code(ErrorCode::AllocationIsNotUpdated)));
    assert_eq!(v.allocations.solend.value, 100);
}

fn backends(a: u8, b: u8, c: u8) -> castle_vault::backend_fields::BackendContainer<FixedReturn> {
    castle_vault::backend_fields::BackendContainer {
        solend: FixedReturn(Rate::from_percent(a)),
        port: FixedReturn(Rate::from_percent(b)),
        jet: FixedReturn(Rate::from_percent(c)),
    }
}

fn bips(solend: u16, port: u16, jet: u16) -> castle_vault::backend_fields::BackendContainer<u16> {
    castle_vault::backend_fields::BackendContainer { solend, port, jet }
}

#[test]
fn backend_rebalance_as_calculator() {
    let mut v = vault(1000, 5, RebalanceMode::Calculator, StrategyType::MaxYield);
    let a = rebalance::handler_chris(&mut v, &backends(5, 9, 2), bips(0, 0, 0), 5).unwrap();
    assert_eq!((a.solend.value, a.port.value, a.jet.value), (0, 1000, 0));
    assert_eq!(v.allocations_chris.port.value, 1000);
    assert_eq!(v.allocations.port.value, 0);
    let b = rebalance::handler_chris_concise(&mut v, &backends(5, 9, 2), bips(0, 0, 0), 5).unwrap();
    assert_eq!(b.port.value, 1000);
    let e = castle_vault::events::RebalanceEventChris { allocations: b };
    assert_eq!(e.allocations.port.value, 1000);
}

#[test]
fn backend_rebalance_proof_checks() {
    let mut v = vault(1000, 5, RebalanceMode::ProofChecker, StrategyType::MaxYield);
    // as good as the strategy
    let same = bips(0, 10000, 0);
    assert_eq!(rebalance::handler_chris(&mut v, &backends(5, 9, 2), same, 5).unwrap().port.value, 1000);
    assert_eq!(rebalance::handler_chris_concise(&mut v, &backends(5, 9, 2), same, 5).unwrap().port.value, 1000);
    // worse than the strategy
    let worse = bips(5000, 5000, 0);
    assert_eq!(
        rebalance::handler_chris(&mut v, &backends(5, 9, 2), worse, 5).err(),
        Some(VaultError::Code(ErrorCode::RebalanceProofCheckFailed))
    );
    assert_eq!(
        rebalance::handler_chris_concise(&mut v, &backends(5, 9, 2), worse, 5).err(),
        Some(VaultError::Code(ErrorCode::RebalanceProofCheckFailed))
    );
    // a refused proposal leaves the stored allocations as they were
    assert_eq!(v.allocations_chris.port.value, 1000);
    // not adding up
    let short = bips(0, 9000, 0);
    assert_eq!(
        rebalance::handler_chris(&mut v, &backends(5, 9, 2), short, 5).err(),
        Some(VaultError::Code(ErrorCode::InvalidProposedWeights))
    );
    assert_eq!(
        rebalance::handler_chris(&mut v, &backends(5, 9, 2), same, 7).err(),
        Some(VaultError::Code(ErrorCode::VaultIsNotRefreshed))
    );
}

#[test]
fn reconcile_solend_directly() {
    let mut v = vault(1000, 5, RebalanceMode::Calculator, StrategyType::MaxYield);
    v.allocations.solend = allocation(100, 10);
    // no check on when the allocation was set
    let r = reconcile_solend::handler(&mut v, &solend_one_to_one(), 40, 1000, None);
    assert_eq!(r, Ok(ReconcileAction::Deposit(60)));
    assert_eq!(v.allocations.solend.value, 0);
    v.allocations.solend = allocation(10, 10);
    let r = reconcile_solend::handler(&mut v, &solend_one_to_one(), 40, 1000, None);
    assert_eq!(r, Ok(ReconcileAction::Redeem(30)));
    v.allocations.solend = allocation(10, 10);
    let r = reconcile_solend::handler(&mut v, &solend_one_to_one(), 40, 1000, Some(7));
    assert_eq!(r, Ok(ReconcileAction::Redeem(7)));
    assert_eq!(v.allocations.solend.value, 10);
}

#[test]
fn reconcile_port_directly() {
    let mut v = vault(1000, 5, RebalanceMode::Calculator, StrategyType::MaxYield);
    v.allocations.port = allocation(30, 10);
    // 40 LP tokens are worth 80; the allocation of 30 is worth 15 of them
    let r = reconcile_port::handler(&mut v, &port_two_per_lp(), 40, 0, None);
    assert_eq!(r, Ok(ReconcileAction::Redeem(25)));
    assert_eq!(v.allocations.port.value, 0);
    assert!(v.allocations.port.last_update.stale);
    // a withdrawal of 10 reserve tokens redeems the 5 LP tokens they are worth
    let r = reconcile_port::handler(&mut v, &port_two_per_lp(), 40, 0, Some(10));
    assert_eq!(r, Ok(ReconcileAction::Redeem(5)));
    v.allocations.port = allocation(100, 10);
    let r = reconcile_port::handler(&mut v, &port_two_per_lp(), 40, 3, None);
    assert_eq!(r, Ok(ReconcileAction::Deposit(3)));
}

#[test]
fn reconcile_jet_steps() {
    let mut v = vault(1000, 5, RebalanceMode::Calculator, StrategyType::MaxYield);
    v.allocations.jet = allocation(100, 10);
    assert_eq!(reconcile_jet::handler(&mut v, 40, 1000, None), reconcile_jet::JetStep::Deposit(60));
    assert_eq!(v.allocations.jet.value, 0);
    assert!(v.allocations.jet.last_update.stale);
    v.allocations.jet = allocation(100, 10);
    assert_eq!(reconcile_jet::handler(&mut v, 40, 25, None), reconcile_jet::JetStep::Deposit(25));
    v.allocations.jet = allocation(100, 10);
    assert_eq!(reconcile_jet::handler(&mut v, 100, 25, None), reconcile_jet::JetStep::Nothing);
    v.allocations.jet = allocation(100, 10);
    assert_eq!(reconcile_jet::handler(&mut v, 130, 25, None), reconcile_jet::JetStep::Redeem(30));
    v.allocations.jet = allocation(100, 10);
    assert_eq!(reconcile_jet::handler(&mut v, 130, 25, Some(7)), reconcile_jet::JetStep::Redeem(7));
    assert_eq!(v.allocations.jet.value, 100);
}
