use castle_vault::asset_container::reserves::ReturnCalculator;
use castle_vault::asset_container::{AssetContainer, AssetContainerGeneric};
use castle_vault::errors::VaultError;
use castle_vault::provider::Provider;
use castle_vault::ranking::compare;
use castle_vault::rate::{Rate, WAD};
use castle_vault::state::StrategyType;
use std::cmp::Ordering;

struct FixedReturn(Rate);

impl ReturnCalculator for FixedReturn {
    fn spec_calculate_return(&self, new_allocation: u64, old_allocation: u64) -> Result<Rate, VaultError> {
        self.calculate_return(new_allocation, old_allocation)
    }

    fn calculate_return(&self, _new_allocation: u64, _old_allocation: u64) -> Result<Rate, VaultError> {
        Ok(self.0)
    }
}

#[test]
fn test_compare() {
    let rc1 = FixedReturn(Rate::from_percent(10));
    let rc2 = FixedReturn(Rate::from_percent(20));
    assert_eq!(compare(&rc1, &rc2).unwrap(), Ordering::Less);
}

#[test]
fn test_calculate_weights_equal() {}

#[test]
fn test_calculate_weights_max_yield() {}

#[test]
fn reserves_test_get_apr() {}

fn fixed(a: u8, b: u8, c: u8) -> AssetContainer<FixedReturn> {
    AssetContainerGeneric::<FixedReturn, 3>::new(vec![
        Some(FixedReturn(Rate::from_percent(a))),
        Some(FixedReturn(Rate::from_percent(b))),
        Some(FixedReturn(Rate::from_percent(c))),
    ])
    .unwrap()
}

fn scaled(w: &Option<Rate>) -> Option<u128> {
    w.map(|r| r.scaled)
}

#[test]
fn compare_equal_and_greater() {
    let a = FixedReturn(Rate::from_percent(7));
    let b = FixedReturn(Rate::from_percent(7));
    let c = FixedReturn(Rate::from_percent(3));
    assert_eq!(compare(&a, &b).unwrap(), Ordering::Equal);
    assert_eq!(compare(&a, &c).unwrap(), Ordering::Greater);
}

#[test]
fn max_yield_fills_best_reserves_up_to_the_cap() {
    let assets = fixed(10, 20, 5);
    let w = assets.calculate_weights_max_yield(60).unwrap();
    assert_eq!(scaled(w.index(Provider::Port)), Some(600_000_000_000_000_000));
    assert_eq!(scaled(w.index(Provider::Solend)), Some(400_000_000_000_000_000));
    assert_eq!(scaled(w.index(Provider::Jet)), Some(0));
    assert!(w.verify_weights(60).is_ok());
}

#[test]
fn max_yield_with_full_cap_puts_everything_on_the_best() {
    let assets = fixed(3, 1, 9);
    let w = assets
        .calculate_weights(StrategyType::MaxYield, 100)
        .unwrap();
    assert_eq!(scaled(w.index(Provider::Jet)), Some(WAD));
    assert_eq!(scaled(w.index(Provider::Solend)), Some(0));
    assert_eq!(scaled(w.index(Provider::Port)), Some(0));
}

#[test]
fn max_yield_skips_missing_reserves() {
    let assets = AssetContainerGeneric::<FixedReturn, 3>::new(vec![
        Some(FixedReturn(Rate::from_percent(4))),
        None,
        Some(FixedReturn(Rate::from_percent(8))),
    ])
    .unwrap();
    let w = assets.calculate_weights_max_yield(50).unwrap();
    assert_eq!(scaled(w.index(Provider::Jet)), Some(500_000_000_000_000_000));
    assert_eq!(scaled(w.index(Provider::Solend)), Some(500_000_000_000_000_000));
    assert_eq!(scaled(w.index(Provider::Port)), None);
}

#[test]
fn equal_weights_are_a_third_each() {
    let assets = fixed(1, 2, 3);
    let w = assets.calculate_weights(StrategyType::EqualAllocation, 0).unwrap();
    for p in [Provider::Solend, Provider::Port, Provider::Jet] {
        assert_eq!(scaled(w.index(p)), Some(333_333_333_333_333_333));
    }
}

#[test]
fn apr_is_the_weighted_sum_of_returns() {
    let assets = fixed(10, 20, 5);
    let weights = AssetContainerGeneric::<Rate, 3>::new(vec![
        Some(Rate::from_percent(50)),
        Some(Rate::from_percent(50)),
        Some(Rate::from_percent(0)),
    ])
    .unwrap();
    let amounts = AssetContainerGeneric::<u64, 3>::new(vec![Some(1), Some(1), Some(1)]).unwrap();
    let apr = assets.get_apr(&weights, &amounts, &amounts).unwrap();
    assert_eq!(apr.scaled, 150_000_000_000_000_000);
}

#[test]
fn apr_leaves_out_incomplete_slots() {
    let assets = fixed(10, 20, 5);
    let weights = AssetContainerGeneric::<Rate, 3>::new(vec![
        Some(Rate::from_percent(50)),
        Some(Rate::from_percent(50)),
        Some(Rate::from_percent(100)),
    ])
    .unwrap();
    let amounts = AssetContainerGeneric::<u64, 3>::new(vec![Some(1), None, Some(1)]).unwrap();
    let apr = assets.get_apr(&weights, &amounts, &amounts).unwrap();
    assert_eq!(apr.scaled, 100_000_000_000_000_000);
}
