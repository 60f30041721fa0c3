use castle_vault::asset_container::{AssetContainer, AssetContainerGeneric};
use castle_vault::errors::{ErrorCode, MathError, VaultError};
use castle_vault::provider::Provider;
use castle_vault::rate::Rate;

fn weights(a: u8, b: u8, c: u8) -> AssetContainerGeneric<Rate, 3> {
    AssetContainerGeneric::<Rate, 3>::new(vec![
        Some(Rate::from_percent(a)),
        Some(Rate::from_percent(b)),
        Some(Rate::from_percent(c)),
    ])
    .unwrap()
}

#[test]
fn test_verify_weights_happy() {
    let rates = weights(0, 0, 100);
    assert!(rates.verify_weights(100).is_ok())
}

#[test]
fn test_verify_weights_happy2() {
    let rates = weights(1, 59, 40);
    assert!(rates.verify_weights(59).is_ok())
}

#[test]
fn test_verify_weights_unhappy_gt1() {
    let rates = weights(2, 59, 40);
    assert_eq!(
        rates.verify_weights(100),
        Err(VaultError::Code(ErrorCode::InvalidProposedWeights))
    )
}

#[test]
fn test_verify_weights_unhappy_alloc_cap() {
    let rates = weights(1, 59, 40);
    assert_eq!(
        rates.verify_weights(58),
        Err(VaultError::Code(ErrorCode::InvalidProposedWeights))
    )
}

#[test]
fn test_try_from_weights() {
    let rates = weights(10, 59, 100);
    let expected: [u64; 3] = [20, 118, 200];
    let mut it = AssetContainerGeneric::<u64, 3>::try_from_weights(&rates, 200)
        .unwrap()
        .into_iter();
    let mut seen = 0;
    while let Some((p, n)) = it.next() {
        assert_eq!(n, Some(expected[p.index()]));
        seen += 1;
    }
    assert_eq!(seen, 3);
}

#[test]
fn verify_weights_empty_container_is_refused() {
    let rates: AssetContainer<Rate> = AssetContainerGeneric::empty();
    assert_eq!(
        rates.verify_weights(100),
        Err(VaultError::Code(ErrorCode::InvalidProposedWeights))
    );
}

#[test]
fn verify_weights_under_one_is_refused() {
    let rates = weights(30, 30, 30);
    assert_eq!(
        rates.verify_weights(100),
        Err(VaultError::Code(ErrorCode::InvalidProposedWeights))
    );
}

#[test]
fn verify_weights_missing_slot_still_sums() {
    let rates = AssetContainerGeneric::<Rate, 3>::new(vec![
        Some(Rate::from_percent(50)),
        None,
        Some(Rate::from_percent(50)),
    ])
    .unwrap();
    assert!(rates.verify_weights(50).is_ok());
    assert!(rates.verify_weights(49).is_err());
}

#[test]
fn try_from_weights_rounds_down() {
    let rates = weights(33, 33, 34);
    let amounts = AssetContainerGeneric::<u64, 3>::try_from_weights(&rates, 10).unwrap();
    assert_eq!(*amounts.index(Provider::Solend), Some(3));
    assert_eq!(*amounts.index(Provider::Port), Some(3));
    assert_eq!(*amounts.index(Provider::Jet), Some(3));
}

#[test]
fn try_from_weights_overflow_is_reported() {
    let big = Rate::from_scaled_val(u64::MAX);
    let rates = AssetContainerGeneric::<Rate, 3>::new(vec![Some(big), None, None]).unwrap();
    let r = AssetContainerGeneric::<u64, 3>::try_from_weights(&rates, u64::MAX);
    assert_eq!(r.err(), Some(VaultError::Math(MathError::UnableToRoundU64)));
}

#[test]
fn new_requires_exact_slot_count() {
    assert!(AssetContainerGeneric::<u64, 3>::new(vec![Some(1), Some(2)]).is_none());
    assert!(AssetContainerGeneric::<u64, 3>::new(vec![Some(1), Some(2), None]).is_some());
}

#[test]
fn container_len_and_emptiness() {
    let c = AssetContainerGeneric::<u64, 3>::new(vec![None, Some(5), None]).unwrap();
    assert_eq!(c.len(), 1);
    assert!(!c.is_empty());
    let e: AssetContainerGeneric<u64, 3> = AssetContainerGeneric::empty();
    assert!(e.is_empty());
}

#[test]
fn borrowed_iterator_visits_providers_in_order() {
    let c = AssetContainerGeneric::<u64, 3>::new(vec![Some(7), None, Some(9)]).unwrap();
    let mut it = c.iter();
    assert_eq!(it.next(), Some((Provider::Solend, Some(&7))));
    assert_eq!(it.next(), Some((Provider::Port, None)));
    assert_eq!(it.next(), Some((Provider::Jet, Some(&9))));
    assert_eq!(it.next(), None);
}

#[test]
fn from_iter_last_entry_wins() {
    let c = AssetContainerGeneric::<u64, 3>::from_iter(vec![
        (Provider::Port, Some(1)),
        (Provider::Jet, Some(2)),
        (Provider::Port, Some(3)),
    ]);
    assert_eq!(*c.index(Provider::Solend), None);
    assert_eq!(*c.index(Provider::Port), Some(3));
    assert_eq!(*c.index(Provider::Jet), Some(2));
}
