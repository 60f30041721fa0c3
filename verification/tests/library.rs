use castle_vault::asset_container::reserves::ReturnCalculator;
use castle_vault::assets::{port_available_after_deposit, port_lp_tokens, Assets};
use castle_vault::backend_container::{BackendContainer, BackendContainerGeneric};
use castle_vault::backend_fields;
use castle_vault::errors::{ErrorCode, MathError, VaultError};
use castle_vault::last_update::LastUpdate;
use castle_vault::math::{calc_deposit_to_vault, calc_withdraw_from_vault, get_vault_value};
use castle_vault::precise::PreciseNumber;
use castle_vault::provider::Provider;
use castle_vault::ranking::sort_by_return;
use castle_vault::rate::{Decimal, Rate, WAD};
use castle_vault::state::{Allocation, StrategyType, StrategyWeights};
use castle_vault::strategies::{verify, EqualAllocationStrategy, MaxYieldStrategy};
use std::cmp::Ordering;

struct FixedReturn(Rate);

impl ReturnCalculator for FixedReturn {
    fn spec_calculate_return(&self, new_allocation: u64, old_allocation: u64) -> Result<Rate, VaultError> {
        self.calculate_return(new_allocation, old_allocation)
    }

    fn calculate_return(&self, _new_allocation: u64, _old_allocation: u64) -> Result<Rate, VaultError> {
        Ok(self.0)
    }
}

#[test]
fn rate_arithmetic() {
    assert_eq!(Rate::one().scaled, WAD);
    assert_eq!(Rate::zero().scaled, 0);
    assert_eq!(Rate::from_percent(7).scaled, 70_000_000_000_000_000);
    assert_eq!(Rate::from_bips(25).scaled, 2_500_000_000_000_000);
    let half = Rate::from_percent(50);
    assert_eq!(Rate::one().try_div(half).unwrap().scaled, 2 * WAD);
    assert_eq!(half.try_mul(half).unwrap().scaled, WAD / 4);
    assert_eq!(Rate::one().try_sub(half).unwrap().scaled, WAD / 2);
    assert_eq!(half.try_add(half).unwrap().scaled, WAD);
    assert_eq!(half.try_mul_u64(3).unwrap().scaled, 3 * WAD / 2);
    assert_eq!(half.min(Rate::one()).scaled, WAD / 2);
}

#[test]
fn rate_arithmetic_errors() {
    let big = Rate { scaled: u128::MAX };
    assert_eq!(big.try_add(Rate::one()).err(), Some(MathError::AddOverflow));
    assert_eq!(Rate::zero().try_sub(Rate::one()).err(), Some(MathError::SubUnderflow));
    assert_eq!(big.try_mul(big).err(), Some(MathError::MulOverflow));
    assert_eq!(Rate::one().try_div(Rate::zero()).err(), Some(MathError::DividedByZero));
}

#[test]
fn decimal_floor() {
    let d = Decimal::from_rate(Rate { scaled: 5 * WAD + WAD / 2 });
    assert_eq!(d.try_floor_u64(), Ok(5));
    let huge = Decimal { scaled: u128::MAX };
    assert_eq!(huge.try_floor_u64(), Err(MathError::UnableToRoundU64));
}

#[test]
fn precise_numbers_round_at_half() {
    let seven = PreciseNumber::new(7).unwrap();
    let two = PreciseNumber::new(2).unwrap();
    let q = seven.checked_div(&two).unwrap();
    assert_eq!(q.to_imprecise(), Some(4));
    let p = q.checked_mul(&two).unwrap();
    assert_eq!(p.to_imprecise(), Some(7));
    let zero = PreciseNumber::new(0).unwrap();
    assert!(seven.checked_div(&zero).is_none());
}

#[test]
fn share_arithmetic() {
    assert_eq!(get_vault_value(12), 12);
    assert_eq!(calc_deposit_to_vault(100, 500, 1000), Some(50));
    assert_eq!(calc_withdraw_from_vault(50, 500, 1000), Some(100));
    assert_eq!(calc_withdraw_from_vault(500, 500, 1234), Some(1234));
    assert_eq!(calc_deposit_to_vault(0, 500, 1234), Some(0));
    assert_eq!(calc_deposit_to_vault(1, 1, 0), None);
    assert_eq!(calc_withdraw_from_vault(u64::MAX, 1, u64::MAX), None);
    // a third of 10 reserve tokens, the ratio rounded at twelve decimals
    assert_eq!(calc_withdraw_from_vault(1, 3, 10), Some(3));
    assert_eq!(calc_withdraw_from_vault(2, 3, 10), Some(7));
}

#[test]
fn sorting_by_return() {
    let sorted = sort_by_return(vec![(0, 5), (1, 9), (2, 7)]);
    assert_eq!(sorted, vec![(1, 9), (2, 7), (0, 5)]);
    assert_eq!(sort_by_return(vec![]), vec![]);
}

#[test]
fn providers_in_order() {
    assert_eq!(Provider::iter(), vec![Provider::Solend, Provider::Port, Provider::Jet]);
    assert_eq!(Provider::from_index(2), Provider::Jet);
    assert_eq!(Provider::Port.index(), 1);
}

#[test]
fn last_update_staleness() {
    let mut u = LastUpdate::new(10);
    assert!(u.stale);
    assert_eq!(u.is_stale(10), Ok(true));
    u.update_slot(12);
    assert_eq!(u.is_stale(12), Ok(false));
    assert_eq!(u.is_stale(13), Ok(true));
    assert_eq!(u.is_stale(11), Err(VaultError::Code(ErrorCode::MathError)));
    assert_eq!(u.slots_elapsed(20), Ok(8));
    u.mark_stale();
    assert_eq!(u.is_stale(12), Ok(true));
    assert_eq!(u.slot, 12);
    let d = LastUpdate::default();
    assert_eq!(d.slot, 0);
    assert!(LastUpdate::new(3) < LastUpdate::new(4));
    assert_eq!(LastUpdate::new(3).partial_cmp(&LastUpdate::new(3)), Some(Ordering::Equal));
}

#[test]
fn allocation_bookkeeping() {
    let mut a = Allocation::zero();
    a.update(40, 3);
    assert_eq!(a.value, 40);
    a.reset();
    assert_eq!(a.value, 0);
    assert!(a.last_update.stale);
    assert_eq!(a.last_update.slot, 3);
}

#[test]
fn port_position_arithmetic() {
    assert_eq!(port_available_after_deposit(10, 5, 3), Ok(12));
    assert_eq!(port_available_after_deposit(10, 5, 16), Err(VaultError::Code(ErrorCode::OverflowError)));
    assert_eq!(port_lp_tokens(3, 4), Ok(7));
    assert_eq!(port_lp_tokens(u64::MAX, 1), Err(VaultError::Code(ErrorCode::OverflowError)));
}

fn fixed_assets(a: u8, b: u8, c: u8) -> Assets<FixedReturn> {
    Assets {
        solend: FixedReturn(Rate::from_percent(a)),
        port: FixedReturn(Rate::from_percent(b)),
        jet: FixedReturn(Rate::from_percent(c)),
    }
}

#[test]
fn strategies() {
    let eq = EqualAllocationStrategy.calculate_weights(&fixed_assets(1, 2, 3)).unwrap();
    assert_eq!(eq.solend.scaled, 333_333_333_333_333_333);
    let my = MaxYieldStrategy.calculate_weights(&fixed_assets(4, 4, 1)).unwrap();
    // the last of equals wins
    assert_eq!((my.solend.scaled, my.port.scaled, my.jet.scaled), (0, WAD, 0));
}

#[test]
fn proposed_weights_must_add_up() {
    let ok = StrategyWeights { solend: Rate::from_percent(20), port: Rate::from_percent(30), jet: Rate::from_percent(50) };
    assert_eq!(verify(&ok), Ok(()));
    let short = StrategyWeights { solend: Rate::from_percent(20), port: Rate::from_percent(30), jet: Rate::from_percent(49) };
    assert_eq!(verify(&short), Err(VaultError::Code(ErrorCode::InvalidProposedWeights)));
    let big = StrategyWeights { solend: Rate { scaled: u128::MAX }, port: Rate::one(), jet: Rate::zero() };
    assert_eq!(verify(&big), Err(VaultError::Math(MathError::AddOverflow)));
}

fn generic_rates(a: u8, b: u8, c: u8) -> BackendContainer<Rate> {
    BackendContainerGeneric::<Rate, 3>::new(vec![
        Some(Rate::from_percent(a)),
        Some(Rate::from_percent(b)),
        Some(Rate::from_percent(c)),
    ])
    .unwrap()
}

#[test]
fn backend_verify_weights() {
    assert_eq!(generic_rates(0, 0, 100).verify_weights(100), Ok(()));
    assert_eq!(generic_rates(1, 59, 40).verify_weights(59), Ok(()));
    assert_eq!(
        generic_rates(2, 59, 40).verify_weights(100),
        Err(VaultError::Code(ErrorCode::InvalidProposedWeights))
    );
    assert_eq!(
        generic_rates(1, 59, 40).verify_weights(58),
        Err(VaultError::Code(ErrorCode::InvalidProposedWeights))
    );
    assert_eq!(
        generic_rates(10, 10, 10).verify_weights(100),
        Err(VaultError::Code(ErrorCode::InvalidProposedWeights))
    );
    // the cap holds for every provider, not only the last
    assert_eq!(
        generic_rates(60, 40, 0).verify_weights(50),
        Err(VaultError::Code(ErrorCode::InvalidProposedWeights))
    );
    let big = BackendContainerGeneric::<Rate, 3>::new(vec![Some(Rate { scaled: u128::MAX }), Some(Rate::one()), Some(Rate::zero())]).unwrap();
    assert_eq!(big.verify_weights(100), Err(VaultError::Math(MathError::AddOverflow)));
}

#[test]
fn backend_weights_and_allocations() {
    let bips = BackendContainerGeneric::<u16, 3>::new(vec![Some(2500), Some(2500), Some(5000)]).unwrap();
    let rates = bips.to_rates();
    assert_eq!(rates.index(Provider::Jet).scaled, WAD / 2);
    let allocations = BackendContainerGeneric::<Allocation, 3>::try_from_weights(&rates, 1000, 8).unwrap();
    assert_eq!(allocations.index(Provider::Solend).value, 250);
    assert_eq!(allocations.index(Provider::Jet).value, 500);
    assert_eq!(allocations.index(Provider::Jet).last_update.slot, 8);
    assert_eq!(allocations.len(), 3);
}

#[test]
fn backend_strategies_and_apr() {
    let backends = BackendContainerGeneric::<FixedReturn, 3>::new(vec![
        Some(FixedReturn(Rate::from_percent(10))),
        Some(FixedReturn(Rate::from_percent(20))),
        Some(FixedReturn(Rate::from_percent(30))),
    ])
    .unwrap();
    let w = backends.calculate_weights(StrategyType::MaxYield, 50).unwrap();
    assert_eq!(w.index(Provider::Jet).scaled, WAD / 2);
    assert_eq!(w.index(Provider::Port).scaled, WAD / 2);
    assert_eq!(w.index(Provider::Solend).scaled, 0);
    let e = backends.calculate_weights(StrategyType::EqualAllocation, 50).unwrap();
    assert_eq!(e.index(Provider::Port).scaled, 333_333_333_333_333_333);
    let allocations = BackendContainerGeneric::<Allocation, 3>::try_from_weights(&w, 100, 1).unwrap();
    let apr = backends.get_apr(&w, &allocations).unwrap();
    assert_eq!(apr.scaled, 250_000_000_000_000_000);
    assert_eq!(
        backends.compare(backends.index(Provider::Solend), backends.index(Provider::Jet)),
        Ok(Ordering::Less)
    );
}

#[test]
fn named_backend_container() {
    let c = backend_fields::BackendContainer {
        solend: FixedReturn(Rate::from_percent(3)),
        port: FixedReturn(Rate::from_percent(3)),
        jet: FixedReturn(Rate::from_percent(1)),
    };
    assert_eq!(c.len(), 3);
    assert!(!c.is_empty());
    let w = c.calculate_weights(StrategyType::MaxYield).unwrap();
    assert_eq!((w.solend.scaled, w.port.scaled, w.jet.scaled), (0, WAD, 0));
    let zero = Allocation::zero();
    let allocations = backend_fields::BackendContainer { solend: zero, port: zero, jet: zero };
    assert_eq!(c.get_apr(&w, &allocations).unwrap().scaled, 30_000_000_000_000_000);
    let doubled = c.apply(|_, r| r.0.scaled * 2);
    assert_eq!(doubled.solend, 60_000_000_000_000_000);
    let failed: Result<backend_fields::BackendContainer<u8>, Provider> =
        c.try_apply(|p, r| if r.0.scaled < 20_000_000_000_000_000 { Err(p) } else { Ok(1u8) });
    assert_eq!(failed.err(), Some(Provider::Jet));
    let bips = backend_fields::BackendContainer { solend: 100u16, port: 200, jet: 300 };
    assert_eq!(bips.to_rates().jet.scaled, 30_000_000_000_000_000);
    let built = backend_fields::BackendContainer::from_iter(vec![
        (Provider::Jet, 1u8),
        (Provider::Solend, 2),
        (Provider::Port, 3),
        (Provider::Jet, 4),
    ]);
    assert_eq!((built.solend, built.port, built.jet), (2, 3, 4));
    assert_eq!(*built.index(Provider::Port), 3);
}

#[test]
fn backend_container_building_and_mapping() {
    let d: BackendContainer<u64> = BackendContainerGeneric::default();
    assert_eq!(*d.index(Provider::Port), 0);
    let built = BackendContainerGeneric::<u64, 3>::from_iter(vec![(Provider::Jet, 5), (Provider::Jet, 6)]);
    assert_eq!(*built.index(Provider::Jet), 6);
    assert_eq!(*built.index(Provider::Solend), 0);
    let doubled = built.apply_owned(|_, v| v * 2);
    assert_eq!(*doubled.index(Provider::Jet), 12);
    let counts = BackendContainerGeneric::<u64, 3>::new(vec![Some(1), Some(0), Some(0)]).unwrap();
    let r: Result<BackendContainer<u64>, Provider> =
        counts.try_apply(|p, v| if *v == 0 { Err(p) } else { Ok(*v) });
    assert_eq!(r.err(), Some(Provider::Port));
    let ok: Result<BackendContainer<u64>, Provider> = counts.try_apply(|_, v| Ok(*v + 1));
    assert_eq!(*ok.unwrap().index(Provider::Jet), 1);
    let mapped = counts.apply(|p, v| p.index() as u64 + *v);
    assert_eq!(*mapped.index(Provider::Jet), 2);
    let empty: castle_vault::asset_container::AssetContainer<u8> = Default::default();
    assert!(empty.is_empty());
}

#[test]
fn backend_iterators_visit_providers_in_order() {
    let named = backend_fields::BackendContainer { solend: 1u8, port: 2, jet: 3 };
    let mut it = named.iter();
    assert_eq!(it.next(), Some((Provider::Solend, &1)));
    assert_eq!(it.next(), Some((Provider::Port, &2)));
    assert_eq!(it.next(), Some((Provider::Jet, &3)));
    assert_eq!(it.next(), None);
    let generic = BackendContainerGeneric::<u8, 3>::new(vec![Some(4), Some(5), Some(6)]).unwrap();
    let mut owned = generic.into_iter();
    assert_eq!(owned.next(), Some((Provider::Solend, 4)));
    assert_eq!(owned.next(), Some((Provider::Port, 5)));
    assert_eq!(owned.next(), Some((Provider::Jet, 6)));
    assert_eq!(owned.next(), None);
}

#[test]
fn withdrawing_freshly_minted_lp_returns_the_deposit() {
    // 500 LP tokens out for 1000 reserve tokens; a deposit of 300 mints 150
    let lp = calc_deposit_to_vault(300, 500, 1000).unwrap();
    assert_eq!(lp, 150);
    assert_eq!(calc_withdraw_from_vault(lp, 500 + lp, 1000 + 300), Some(300));
}

#[test]
fn collecting_an_owned_iteration_rebuilds_the_container() {
    let c = castle_vault::asset_container::AssetContainerGeneric::<u64, 3>::new(vec![Some(7), None, Some(9)]).unwrap();
    let mut it = castle_vault::asset_container::AssetContainerGeneric::<u64, 3>::new(vec![Some(7), None, Some(9)])
        .unwrap()
        .into_iter();
    let mut entries = Vec::new();
    while let Some(e) = it.next() {
        entries.push(e);
    }
    let rebuilt = castle_vault::asset_container::AssetContainerGeneric::<u64, 3>::from_iter(entries);
    for p in [Provider::Solend, Provider::Port, Provider::Jet] {
        assert_eq!(rebuilt.index(p), c.index(p));
    }
}
