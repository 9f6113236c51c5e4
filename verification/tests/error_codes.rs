use craft_nexus_contract::{is_retryable, Error, ErrorCategory, ERROR_CODE_COUNT};

const ALL: [Error; 46] = [
    Error::Unauthorized,
    Error::EscrowNotFound,
    Error::InvalidEscrowState,
    Error::UsernameAlreadyExists,
    Error::TokenNotWhitelisted,
    Error::AmountBelowMinimum,
    Error::ReleaseWindowTooLong,
    Error::NotInDispute,
    Error::AlreadyOnboarded,
    Error::InvalidFee,
    Error::SameBuyerSeller,
    Error::PlatformNotInitialized,
    Error::ReleaseWindowNotElapsed,
    Error::BatchOperationFailed,
    Error::ContractPaused,
    Error::DisputeExpired,
    Error::InsufficientStake,
    Error::StakeCooldownActive,
    Error::InvalidRefundAmount,
    Error::ProposalNotFound,
    Error::ProposalAlreadyExists,
    Error::ReentryDetected,
    Error::ReleaseWindowTooShort,
    Error::StakeTokenMismatch,
    Error::InvalidAdminAddress,
    Error::CorruptedPlatformConfig,
    Error::StakeQueueFull,
    Error::AdminRecoveryFailed,
    Error::BatchLimitExceeded,
    Error::DeprecatedFunction,
    Error::NoPendingAdmin,
    Error::NoUpgradeProposed,
    Error::UpgradeCooldownActive,
    Error::UpgradeProposalExists,
    Error::InvalidUpgradeHash,
    Error::RecurringEscrowNotFound,
    Error::CycleNotReady,
    Error::RecurringEscrowIdExhausted,
    Error::OnboardingContractNotSet,
    Error::InvalidMetadataHash,
    Error::InvalidIpfsHash,
    Error::NotAnUpgradeSigner,
    Error::AlreadyApproved,
    Error::InvalidTokenDecimals,
    Error::StorageLayoutMismatch,
    Error::UnsupportedToken,
];

#[test]
fn from_code_inverts_code() {
    for err in ALL {
        assert_eq!(Error::from_code(err.code()), Some(err));
    }
}

#[test]
fn code_inverts_from_code() {
    for code in 1..=ERROR_CODE_COUNT {
        let err = Error::from_code(code).unwrap();
        assert_eq!(err.code(), code);
    }
}

#[test]
fn from_code_concrete_values() {
    assert_eq!(Error::from_code(1), Some(Error::Unauthorized));
    assert_eq!(Error::from_code(3), Some(Error::InvalidEscrowState));
    assert_eq!(Error::from_code(27), Some(Error::StakeQueueFull));
    assert_eq!(Error::from_code(46), Some(Error::UnsupportedToken));
}

#[test]
fn from_code_rejects_unknown_codes() {
    assert_eq!(Error::from_code(0), None);
    assert_eq!(Error::from_code(47), None);
    assert_eq!(Error::from_code(1000), None);
    assert_eq!(Error::from_code(u32::MAX), None);
}

#[test]
fn codes_are_distinct_and_in_range() {
    let mut seen = vec![false; 47];
    for err in ALL {
        let code = err.code() as usize;
        assert!(code >= 1 && code <= 46);
        assert!(!seen[code]);
        seen[code] = true;
    }
    assert!(seen[1..].iter().all(|b| *b));
}

#[test]
fn categories_follow_code_ranges() {
    assert_eq!(Error::Unauthorized.category(), ErrorCategory::AuthAccess);
    assert_eq!(Error::AlreadyOnboarded.category(), ErrorCategory::AuthAccess);
    assert_eq!(Error::InvalidFee.category(), ErrorCategory::StateTransition);
    assert_eq!(Error::InvalidRefundAmount.category(), ErrorCategory::StateTransition);
    assert_eq!(Error::ProposalNotFound.category(), ErrorCategory::ConfigResource);
    assert_eq!(Error::BatchLimitExceeded.category(), ErrorCategory::ConfigResource);
    assert_eq!(Error::DeprecatedFunction.category(), ErrorCategory::OperationalGates);
    assert_eq!(Error::OnboardingContractNotSet.category(), ErrorCategory::OperationalGates);
    assert_eq!(Error::InvalidMetadataHash.category(), ErrorCategory::Validation);
    assert_eq!(Error::UnsupportedToken.category(), ErrorCategory::Validation);
}

#[test]
fn exactly_ten_errors_are_retryable() {
    let retryable: Vec<Error> = ALL.iter().copied().filter(|e| is_retryable(*e)).collect();
    assert_eq!(
        retryable,
        vec![
            Error::InvalidEscrowState,
            Error::ReleaseWindowNotElapsed,
            Error::ContractPaused,
            Error::DisputeExpired,
            Error::StakeCooldownActive,
            Error::ReentryDetected,
            Error::StakeQueueFull,
            Error::BatchLimitExceeded,
            Error::UpgradeCooldownActive,
            Error::CycleNotReady,
        ]
    );
}

/// The host reports a contract error as `Error(Contract, #code)`, the text
/// that callers of the contract see when it fails with one of these errors.
#[test]
fn host_error_text_carries_the_code() {
    let cases = [
        (Error::InvalidEscrowState, "Error(Contract, #3)"),
        (Error::TokenNotWhitelisted, "Error(Contract, #5)"),
        (Error::ReleaseWindowNotElapsed, "Error(Contract, #13)"),
        (Error::ContractPaused, "Error(Contract, #15)"),
        (Error::InsufficientStake, "Error(Contract, #17)"),
        (Error::StakeCooldownActive, "Error(Contract, #18)"),
        (Error::StakeTokenMismatch, "Error(Contract, #24)"),
        (Error::InvalidAdminAddress, "Error(Contract, #25)"),
        (Error::StakeQueueFull, "Error(Contract, #27)"),
        (Error::RecurringEscrowNotFound, "Error(Contract, #36)"),
        (Error::CycleNotReady, "Error(Contract, #37)"),
        (Error::InvalidIpfsHash, "Error(Contract, #41)"),
    ];
    for (err, text) in cases {
        let host = soroban_sdk::Error::from_contract_error(err.code());
        assert_eq!(format!("{:?}", host), text);
        assert_eq!(Error::from_code(host.get_code()), Some(err));
    }
}
