use castle_vault::adapters::{record_deposited, record_redeemed, refresh_allocation, refresh_port_allocation};
use castle_vault::asset_container::reserves::ReturnCalculator;
use castle_vault::assets::{LendingMarketAsset, ReserveAccessor};
use castle_vault::errors::{ErrorCode, VaultError};
use castle_vault::last_update::LastUpdate;
use castle_vault::markets::{CollateralExchange, PortReserve, Reserves, SolendReserve};
use castle_vault::rate::WAD;
use castle_vault::state::Allocation;

fn solend(available: u64, borrowed: u64, lp_supply: u64) -> SolendReserve {
    SolendReserve {
        available_amount: available,
        borrowed_amount_wads: borrowed as u128 * WAD,
        collateral_mint_total_supply: lp_supply,
        optimal_utilization_rate: 80,
        min_borrow_rate: 0,
        optimal_borrow_rate: 10,
        max_borrow_rate: 30,
    }
}

fn port(available: u64, borrowed: u64, lp_supply: u64) -> PortReserve {
    PortReserve {
        available_amount: available,
        borrowed_amount_wads: borrowed as u128 * WAD,
        collateral_mint_total_supply: lp_supply,
        optimal_utilization_rate: 80,
        min_borrow_rate: 0,
        optimal_borrow_rate: 10,
        max_borrow_rate: 30,
    }
}

fn allocation(value: u64, slot: u64) -> Allocation {
    Allocation { value, last_update: LastUpdate { slot, stale: false } }
}

#[test]
fn utilization_is_borrowed_over_total() {
    assert_eq!(solend(100, 100, 0).utilization_rate().unwrap().scaled, WAD / 2);
    assert_eq!(port(300, 100, 0).utilization_rate().unwrap().scaled, WAD / 4);
    assert_eq!(solend(0, 0, 0).utilization_rate().unwrap().scaled, 0);
    assert_eq!(port(0, 5, 0).utilization_rate().unwrap().scaled, WAD);
}

#[test]
fn borrow_rate_below_optimal_utilization() {
    // half used, optimum at 80%: 50/80 of the way from 0% to 10%
    assert_eq!(solend(100, 100, 0).borrow_rate().unwrap().scaled, 62_500_000_000_000_000);
    assert_eq!(port(100, 100, 0).borrow_rate().unwrap().scaled, 62_500_000_000_000_000);
}

#[test]
fn borrow_rate_at_full_utilization_is_the_maximum() {
    assert_eq!(solend(0, 100, 0).borrow_rate().unwrap().scaled, 300_000_000_000_000_000);
    assert_eq!(port(0, 100, 0).borrow_rate().unwrap().scaled, 300_000_000_000_000_000);
}

#[test]
fn borrow_rate_fails_on_an_inverted_configuration() {
    let mut r = solend(100, 100, 0);
    r.min_borrow_rate = 20;
    assert_eq!(r.borrow_rate(), Err(VaultError::Reserve));
    let mut p = port(100, 100, 0);
    p.min_borrow_rate = 20;
    assert_eq!(p.borrow_rate(), Err(VaultError::Reserve));
}

#[test]
fn solend_reserve_with_deposit() {
    let r = solend(100, 0, 0).reserve_with_deposit(50, 30).unwrap();
    assert_eq!(r.available_amount, 120);
    assert_eq!(solend(100, 0, 0).reserve_with_deposit(0, 101), Err(VaultError::Reserve));
    assert_eq!(solend(u64::MAX, 0, 0).reserve_with_deposit(1, 1), Err(VaultError::Reserve));
}

#[test]
fn port_reserve_with_deposit() {
    let r = port(100, 0, 0).reserve_with_deposit(50, 30).unwrap();
    assert_eq!(r.available_amount, 120);
    assert_eq!(
        port(u64::MAX, 0, 0).reserve_with_deposit(1, 1),
        Err(VaultError::Code(ErrorCode::OverflowError))
    );
    assert_eq!(
        port(10, 0, 0).reserve_with_deposit(0, 11),
        Err(VaultError::Code(ErrorCode::OverflowError))
    );
}

#[test]
fn expected_return_of_a_reserve() {
    // utilization 50% times borrow rate 6.25%
    let asset = LendingMarketAsset(solend(100, 100, 0));
    assert_eq!(asset.calculate_return(0, 0).unwrap().scaled, 31_250_000_000_000_000);
    let asset = LendingMarketAsset(Reserves::Port(port(100, 100, 0)));
    assert_eq!(asset.calculate_return(0, 0).unwrap().scaled, 31_250_000_000_000_000);
    // depositing 100 more brings utilization to a third
    let asset = LendingMarketAsset(Reserves::Solend(solend(100, 100, 0)));
    let deeper = asset.calculate_return(100, 0).unwrap().scaled;
    assert!(deeper < 31_250_000_000_000_000);
}

#[test]
fn reserves_dispatch_to_their_market() {
    let s = Reserves::Solend(solend(100, 100, 0));
    let p = Reserves::Port(port(300, 100, 0));
    assert_eq!(s.utilization_rate().unwrap().scaled, WAD / 2);
    assert_eq!(p.utilization_rate().unwrap().scaled, WAD / 4);
    assert_eq!(
        p.reserve_with_deposit(1, 0).unwrap(),
        Reserves::Port(port(301, 100, 0))
    );
}

#[test]
fn exchange_rate_starts_at_one() {
    let r = solend(100, 0, 0);
    assert_eq!(r.convert_amount_lp_to_reserve(50), Ok(50));
    assert_eq!(r.convert_amount_reserve_to_lp(50), Ok(50));
}

#[test]
fn exchange_rate_follows_supply() {
    // 50 LP tokens for 100 reserve tokens: one LP token is worth two
    let r = solend(100, 0, 50);
    assert_eq!(r.convert_amount_lp_to_reserve(50), Ok(100));
    assert_eq!(r.convert_amount_reserve_to_lp(100), Ok(50));
    let p = port(100, 0, 50);
    assert_eq!(p.convert_amount_lp_to_reserve(10), Ok(20));
    assert_eq!(p.convert_amount_reserve_to_lp(7), Ok(3));
}

#[test]
fn deposit_bookkeeping() {
    let mut a = allocation(100, 3);
    assert!(record_deposited(&mut a, 50, 9).is_ok());
    assert_eq!(a.value, 150);
    assert_eq!(a.last_update.slot, 9);
    let mut full = allocation(u64::MAX, 3);
    assert_eq!(record_deposited(&mut full, 1, 9), Err(VaultError::Code(ErrorCode::MathError)));
    assert_eq!(full.value, u64::MAX);
    assert_eq!(full.last_update.slot, 3);
}

#[test]
fn redeem_bookkeeping() {
    let market = solend(100, 0, 50);
    let mut a = allocation(100, 3);
    assert!(record_redeemed(&market, &mut a, 10, 7).is_ok());
    assert_eq!(a.value, 80);
    assert_eq!(a.last_update.slot, 7);
    assert!(!a.last_update.stale);
    let mut small = allocation(5, 3);
    assert_eq!(record_redeemed(&market, &mut small, 10, 7), Err(VaultError::Code(ErrorCode::MathError)));
    assert_eq!(small.value, 5);
}

#[test]
fn refresh_bookkeeping() {
    let market = solend(100, 0, 50);
    let mut a = allocation(1, 3);
    assert!(refresh_allocation(&market, &mut a, 25, 8).is_ok());
    assert_eq!(a.value, 50);
    assert_eq!(a.last_update.slot, 8);
    let p = port(100, 0, 50);
    let mut b = allocation(1, 3);
    assert!(refresh_port_allocation(&p, &mut b, 20, 5, 8).is_ok());
    assert_eq!(b.value, 50);
    let mut c = allocation(1, 3);
    assert_eq!(
        refresh_port_allocation(&p, &mut c, u64::MAX, 1, 8),
        Err(VaultError::Code(ErrorCode::OverflowError))
    );
    assert_eq!(c.value, 1);
}

#[test]
fn port_redeem_of_nothing_changes_nothing() {
    let p = port(100, 0, 50);
    let mut a = allocation(30, 3);
    assert!(castle_vault::adapters::record_port_redeemed(&p, &mut a, 0, 9).is_ok());
    assert_eq!(a.value, 30);
    assert_eq!(a.last_update.slot, 3);
    assert!(castle_vault::adapters::record_port_redeemed(&p, &mut a, 5, 9).is_ok());
    assert_eq!(a.value, 20);
    assert_eq!(a.last_update.slot, 9);
}
