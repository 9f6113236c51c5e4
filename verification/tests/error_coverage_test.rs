use craft_nexus_contract::{is_retryable, Error};

// Errors that no contract function reports any more: only their codes are
// checked.

#[test]
fn test_error_username_already_exists_discriminant() {
    assert_eq!(Error::UsernameAlreadyExists.code(), 4);
}

#[test]
fn test_error_not_in_dispute_discriminant() {
    assert_eq!(Error::NotInDispute.code(), 8);
}

#[test]
fn test_error_already_onboarded_discriminant() {
    assert_eq!(Error::AlreadyOnboarded.code(), 9);
}

#[test]
fn test_error_batch_operation_failed_discriminant() {
    assert_eq!(Error::BatchOperationFailed.code(), 14);
}

#[test]
fn test_error_corrupted_platform_config_discriminant() {
    assert_eq!(Error::CorruptedPlatformConfig.code(), 26);
    // An operator has to act before this error goes away.
    assert!(!is_retryable(Error::CorruptedPlatformConfig));
}

#[test]
fn test_error_deprecated_function_discriminant() {
    assert_eq!(Error::DeprecatedFunction.code(), 30);
}

/// Every retryable error is classified as such; the others are spot-checked.
#[test]
fn test_is_retryable_classification() {
    assert!(is_retryable(Error::InvalidEscrowState));
    assert!(is_retryable(Error::ReleaseWindowNotElapsed));
    assert!(is_retryable(Error::ContractPaused));
    assert!(is_retryable(Error::DisputeExpired));
    assert!(is_retryable(Error::StakeCooldownActive));
    assert!(is_retryable(Error::ReentryDetected));
    assert!(is_retryable(Error::StakeQueueFull));
    assert!(is_retryable(Error::UpgradeCooldownActive));
    assert!(is_retryable(Error::CycleNotReady));
    assert!(is_retryable(Error::BatchLimitExceeded));

    assert!(!is_retryable(Error::Unauthorized));
    assert!(!is_retryable(Error::EscrowNotFound));
    assert!(!is_retryable(Error::TokenNotWhitelisted));
    assert!(!is_retryable(Error::InvalidFee));
    assert!(!is_retryable(Error::NoPendingAdmin));
    assert!(!is_retryable(Error::InvalidUpgradeHash));
    assert!(!is_retryable(Error::OnboardingContractNotSet));
    assert!(!is_retryable(Error::InvalidIpfsHash));
    assert!(!is_retryable(Error::NotAnUpgradeSigner));
    assert!(!is_retryable(Error::AlreadyApproved));
    assert!(!is_retryable(Error::InvalidTokenDecimals));
    assert!(!is_retryable(Error::StorageLayoutMismatch));
    assert!(!is_retryable(Error::UnsupportedToken));
}

/// Every variant maps to its code; guards against reordering or renumbering.
#[test]
fn test_all_error_discriminants() {
    assert_eq!(Error::Unauthorized.code(), 1);
    assert_eq!(Error::EscrowNotFound.code(), 2);
    assert_eq!(Error::InvalidEscrowState.code(), 3);
    assert_eq!(Error::UsernameAlreadyExists.code(), 4);
    assert_eq!(Error::TokenNotWhitelisted.code(), 5);
    assert_eq!(Error::AmountBelowMinimum.code(), 6);
    assert_eq!(Error::ReleaseWindowTooLong.code(), 7);
    assert_eq!(Error::NotInDispute.code(), 8);
    assert_eq!(Error::AlreadyOnboarded.code(), 9);
    assert_eq!(Error::InvalidFee.code(), 10);
    assert_eq!(Error::SameBuyerSeller.code(), 11);
    assert_eq!(Error::PlatformNotInitialized.code(), 12);
    assert_eq!(Error::ReleaseWindowNotElapsed.code(), 13);
    assert_eq!(Error::BatchOperationFailed.code(), 14);
    assert_eq!(Error::ContractPaused.code(), 15);
    assert_eq!(Error::DisputeExpired.code(), 16);
    assert_eq!(Error::InsufficientStake.code(), 17);
    assert_eq!(Error::StakeCooldownActive.code(), 18);
    assert_eq!(Error::InvalidRefundAmount.code(), 19);
    assert_eq!(Error::ProposalNotFound.code(), 20);
    assert_eq!(Error::ProposalAlreadyExists.code(), 21);
    assert_eq!(Error::ReentryDetected.code(), 22);
    assert_eq!(Error::ReleaseWindowTooShort.code(), 23);
    assert_eq!(Error::StakeTokenMismatch.code(), 24);
    assert_eq!(Error::InvalidAdminAddress.code(), 25);
    assert_eq!(Error::CorruptedPlatformConfig.code(), 26);
    assert_eq!(Error::StakeQueueFull.code(), 27);
    assert_eq!(Error::AdminRecoveryFailed.code(), 28);
    assert_eq!(Error::BatchLimitExceeded.code(), 29);
    assert_eq!(Error::DeprecatedFunction.code(), 30);
    assert_eq!(Error::NoPendingAdmin.code(), 31);
    assert_eq!(Error::NoUpgradeProposed.code(), 32);
    assert_eq!(Error::UpgradeCooldownActive.code(), 33);
    assert_eq!(Error::UpgradeProposalExists.code(), 34);
    assert_eq!(Error::InvalidUpgradeHash.code(), 35);
    assert_eq!(Error::RecurringEscrowNotFound.code(), 36);
    assert_eq!(Error::CycleNotReady.code(), 37);
    assert_eq!(Error::RecurringEscrowIdExhausted.code(), 38);
    assert_eq!(Error::OnboardingContractNotSet.code(), 39);
    assert_eq!(Error::InvalidMetadataHash.code(), 40);
    assert_eq!(Error::InvalidIpfsHash.code(), 41);
    assert_eq!(Error::NotAnUpgradeSigner.code(), 42);
    assert_eq!(Error::AlreadyApproved.code(), 43);
    assert_eq!(Error::InvalidTokenDecimals.code(), 44);
    assert_eq!(Error::StorageLayoutMismatch.code(), 45);
    assert_eq!(Error::UnsupportedToken.code(), 46);
}
