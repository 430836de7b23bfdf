//! Clients decode errors by number, so the numbers must never drift.

use fluxora_factory::FactoryError;

const ALL: [FactoryError; 16] = [
    FactoryError::AlreadyInitialized,
    FactoryError::NotInitialized,
    FactoryError::Unauthorized,
    FactoryError::RecipientNotAllowlisted,
    FactoryError::DepositExceedsCap,
    FactoryError::DurationTooShort,
    FactoryError::InvalidTimeRange,
    FactoryError::InvalidCliff,
    FactoryError::CreationPaused,
    FactoryError::StreamContractPaused,
    FactoryError::StreamContractError,
    FactoryError::RateBelowMin,
    FactoryError::RateAboveMax,
    FactoryError::InvalidCap,
    FactoryError::InvalidMinDuration,
    FactoryError::InvalidMemo,
];

#[test]
fn factory_error_discriminants_test_factory_error_discriminants_are_stable() {
    assert_eq!(FactoryError::AlreadyInitialized.code(), 1);
    assert_eq!(FactoryError::NotInitialized.code(), 2);
    assert_eq!(FactoryError::Unauthorized.code(), 3);

    assert_eq!(FactoryError::RecipientNotAllowlisted.code(), 4);
    assert_eq!(FactoryError::DepositExceedsCap.code(), 5);
    assert_eq!(FactoryError::DurationTooShort.code(), 6);
    assert_eq!(FactoryError::InvalidTimeRange.code(), 7);
    assert_eq!(FactoryError::InvalidCliff.code(), 8);

    assert_eq!(FactoryError::CreationPaused.code(), 9);
    assert_eq!(FactoryError::StreamContractPaused.code(), 10);
    assert_eq!(FactoryError::StreamContractError.code(), 11);

    assert_eq!(FactoryError::RateBelowMin.code(), 12);
    assert_eq!(FactoryError::RateAboveMax.code(), 13);

    assert_eq!(FactoryError::InvalidCap.code(), 14);
    assert_eq!(FactoryError::InvalidMinDuration.code(), 15);

    assert_eq!(FactoryError::InvalidMemo.code(), 16);
}

#[test]
fn test_factory_error_discriminants_are_unique() {
    let mut seen = std::collections::HashSet::with_capacity(ALL.len());
    for variant in ALL.iter() {
        assert!(
            seen.insert(variant.code()),
            "code {} appears more than once (variant: {:?})",
            variant.code(),
            variant
        );
    }
    assert_eq!(seen.len(), ALL.len(), "variant count mismatch");
}

#[test]
fn test_factory_error_discriminants_are_dense_no_gaps() {
    let mut codes: Vec<u32> = ALL.iter().map(|v| v.code()).collect();
    codes.sort_unstable();
    assert_eq!(codes[0], 1);
    assert_eq!(codes[codes.len() - 1], ALL.len() as u32);
    for i in 0..codes.len() {
        assert_eq!(codes[i], (i + 1) as u32, "gap or reorder at position {}", i);
    }
}

#[test]
fn test_factory_error_discriminants_are_append_only_and_stable() {
    assert_eq!(FactoryError::AlreadyInitialized.code(), 1);
    assert_eq!(FactoryError::NotInitialized.code(), 2);
    assert_eq!(FactoryError::Unauthorized.code(), 3);
    assert_eq!(FactoryError::RecipientNotAllowlisted.code(), 4);
    assert_eq!(FactoryError::DepositExceedsCap.code(), 5);
    assert_eq!(FactoryError::DurationTooShort.code(), 6);
    assert_eq!(FactoryError::InvalidTimeRange.code(), 7);
    assert_eq!(FactoryError::InvalidCliff.code(), 8);
    assert_eq!(FactoryError::InvalidCap.code(), 14);
    assert_eq!(FactoryError::InvalidMinDuration.code(), 15);
}
