use vstd::prelude::*;

verus! {

/// Number of distinct error codes; they are `1..=ERROR_CODE_COUNT`.
pub const ERROR_CODE_COUNT: u32 = 46;

/// The client errors that the escrow contract reports.
///
/// Each error is identified on the wire by a stable code from 1 up, given
/// by [`Error::code`] and grouped into categories by tens (see
/// [`Error::category`]). A cast such as `Error::Unauthorized as u32` gives
/// the variant's position, which starts at 0, and is not the wire code.
#[derive(Clone, Copy, Debug, PartialEq, Eq, Structural)]
pub enum Error {
    Unauthorized,
    EscrowNotFound,
    InvalidEscrowState,
    UsernameAlreadyExists,
    TokenNotWhitelisted,
    AmountBelowMinimum,
    ReleaseWindowTooLong,
    NotInDispute,
    AlreadyOnboarded,
    InvalidFee,
    SameBuyerSeller,
    PlatformNotInitialized,
    ReleaseWindowNotElapsed,
    BatchOperationFailed,
    ContractPaused,
    DisputeExpired,
    InsufficientStake,
    StakeCooldownActive,
    InvalidRefundAmount,
    ProposalNotFound,
    ProposalAlreadyExists,
    ReentryDetected,
    ReleaseWindowTooShort,
    StakeTokenMismatch,
    InvalidAdminAddress,
    CorruptedPlatformConfig,
    StakeQueueFull,
    AdminRecoveryFailed,
    BatchLimitExceeded,
    DeprecatedFunction,
    NoPendingAdmin,
    NoUpgradeProposed,
    UpgradeCooldownActive,
    UpgradeProposalExists,
    InvalidUpgradeHash,
    RecurringEscrowNotFound,
    CycleNotReady,
    RecurringEscrowIdExhausted,
    OnboardingContractNotSet,
    InvalidMetadataHash,
    InvalidIpfsHash,
    NotAnUpgradeSigner,
    AlreadyApproved,
    InvalidTokenDecimals,
    StorageLayoutMismatch,
    UnsupportedToken,
}

/// The groups into which the error codes fall.
#[derive(Clone, Copy, Debug, PartialEq, Eq, Structural)]
pub enum ErrorCategory {
    /// Codes 1 to 9.
    AuthAccess,
    /// Codes 10 to 19.
    StateTransition,
    /// Codes 20 to 29.
    ConfigResource,
    /// Codes 30 to 39.
    OperationalGates,
    /// Codes 40 and up.
    Validation,
}

/// The category that a code belongs to.
pub open spec fn category_of_code(code: int) -> ErrorCategory {
    if code < 10 {
        ErrorCategory::AuthAccess
    } else if code < 20 {
        ErrorCategory::StateTransition
    } else if code < 30 {
        ErrorCategory::ConfigResource
    } else if code < 40 {
        ErrorCategory::OperationalGates
    } else {
        ErrorCategory::Validation
    }
}

/// The error that carries `code`, if any.
pub open spec fn spec_from_code(code: u32) -> Option<Error> {
    if 1 <= code <= ERROR_CODE_COUNT {
        Some(choose|err: Error| err.spec_code() == code)
    } else {
        None
    }
}

/// Whether a failed call with this error may succeed when retried later,
/// once time has passed or another state has been left.
pub open spec fn spec_is_retryable(err: Error) -> bool {
    ||| err is InvalidEscrowState
    ||| err is ReleaseWindowNotElapsed
    ||| err is ContractPaused
    ||| err is DisputeExpired
    ||| err is StakeCooldownActive
    ||| err is ReentryDetected
    ||| err is StakeQueueFull
    ||| err is UpgradeCooldownActive
    ||| err is CycleNotReady
    ||| err is BatchLimitExceeded
}

impl Error {
    /// The stable numeric code of the error.
    pub open spec fn spec_code(self) -> u32 {
        match self {
            Error::Unauthorized => 1,
            Error::EscrowNotFound => 2,
            Error::InvalidEscrowState => 3,
            Error::UsernameAlreadyExists => 4,
            Error::TokenNotWhitelisted => 5,
            Error::AmountBelowMinimum => 6,
            Error::ReleaseWindowTooLong => 7,
            Error::NotInDispute => 8,
            Error::AlreadyOnboarded => 9,
            Error::InvalidFee => 10,
            Error::SameBuyerSeller => 11,
            Error::PlatformNotInitialized => 12,
            Error::ReleaseWindowNotElapsed => 13,
            Error::BatchOperationFailed => 14,
            Error::ContractPaused => 15,
            Error::DisputeExpired => 16,
            Error::InsufficientStake => 17,
            Error::StakeCooldownActive => 18,
            Error::InvalidRefundAmount => 19,
            Error::ProposalNotFound => 20,
            Error::ProposalAlreadyExists => 21,
            Error::ReentryDetected => 22,
            Error::ReleaseWindowTooShort => 23,
            Error::StakeTokenMismatch => 24,
            Error::InvalidAdminAddress => 25,
            Error::CorruptedPlatformConfig => 26,
            Error::StakeQueueFull => 27,
            Error::AdminRecoveryFailed => 28,
            Error::BatchLimitExceeded => 29,
            Error::DeprecatedFunction => 30,
            Error::NoPendingAdmin => 31,
            Error::NoUpgradeProposed => 32,
            Error::UpgradeCooldownActive => 33,
            Error::UpgradeProposalExists => 34,
            Error::InvalidUpgradeHash => 35,
            Error::RecurringEscrowNotFound => 36,
            Error::CycleNotReady => 37,
            Error::RecurringEscrowIdExhausted => 38,
            Error::OnboardingContractNotSet => 39,
            Error::InvalidMetadataHash => 40,
            Error::InvalidIpfsHash => 41,
            Error::NotAnUpgradeSigner => 42,
            Error::AlreadyApproved => 43,
            Error::InvalidTokenDecimals => 44,
            Error::StorageLayoutMismatch => 45,
            Error::UnsupportedToken => 46,
        }
    }

    /// The stable numeric code of the error.
    pub fn code(self) -> (code: u32)
        ensures
            code == self.spec_code(),
    {
        match self {
            Error::Unauthorized => 1,
            Error::EscrowNotFound => 2,
            Error::InvalidEscrowState => 3,
            Error::UsernameAlreadyExists => 4,
            Error::TokenNotWhitelisted => 5,
            Error::AmountBelowMinimum => 6,
            Error::ReleaseWindowTooLong => 7,
            Error::NotInDispute => 8,
            Error::AlreadyOnboarded => 9,
            Error::InvalidFee => 10,
            Error::SameBuyerSeller => 11,
            Error::PlatformNotInitialized => 12,
            Error::ReleaseWindowNotElapsed => 13,
            Error::BatchOperationFailed => 14,
            Error::ContractPaused => 15,
            Error::DisputeExpired => 16,
            Error::InsufficientStake => 17,
            Error::StakeCooldownActive => 18,
            Error::InvalidRefundAmount => 19,
            Error::ProposalNotFound => 20,
            Error::ProposalAlreadyExists => 21,
            Error::ReentryDetected => 22,
            Error::ReleaseWindowTooShort => 23,
            Error::StakeTokenMismatch => 24,
            Error::InvalidAdminAddress => 25,
            Error::CorruptedPlatformConfig => 26,
            Error::StakeQueueFull => 27,
            Error::AdminRecoveryFailed => 28,
            Error::BatchLimitExceeded => 29,
            Error::DeprecatedFunction => 30,
            Error::NoPendingAdmin => 31,
            Error::NoUpgradeProposed => 32,
            Error::UpgradeCooldownActive => 33,
            Error::UpgradeProposalExists => 34,
            Error::InvalidUpgradeHash => 35,
            Error::RecurringEscrowNotFound => 36,
            Error::CycleNotReady => 37,
            Error::RecurringEscrowIdExhausted => 38,
            Error::OnboardingContractNotSet => 39,
            Error::InvalidMetadataHash => 40,
            Error::InvalidIpfsHash => 41,
            Error::NotAnUpgradeSigner => 42,
            Error::AlreadyApproved => 43,
            Error::InvalidTokenDecimals => 44,
            Error::StorageLayoutMismatch => 45,
            Error::UnsupportedToken => 46,
        }
    }

    /// The error that carries `code`; `None` for a code that no error has.
    pub fn from_code(code: u32) -> (res: Option<Error>)
        ensures
            res is Some <==> 1 <= code <= ERROR_CODE_COUNT,
            res matches Some(err) ==> err.spec_code() == code,
            res == spec_from_code(code),
    {
        let res = match code {
            1 => Some(Error::Unauthorized),
            2 => Some(Error::EscrowNotFound),
            3 => Some(Error::InvalidEscrowState),
            4 => Some(Error::UsernameAlreadyExists),
            5 => Some(Error::TokenNotWhitelisted),
            6 => Some(Error::AmountBelowMinimum),
            7 => Some(Error::ReleaseWindowTooLong),
            8 => Some(Error::NotInDispute),
            9 => Some(Error::AlreadyOnboarded),
            10 => Some(Error::InvalidFee),
            11 => Some(Error::SameBuyerSeller),
            12 => Some(Error::PlatformNotInitialized),
            13 => Some(Error::ReleaseWindowNotElapsed),
            14 => Some(Error::BatchOperationFailed),
            15 => Some(Error::ContractPaused),
            16 => Some(Error::DisputeExpired),
            17 => Some(Error::InsufficientStake),
            18 => Some(Error::StakeCooldownActive),
            19 => Some(Error::InvalidRefundAmount),
            20 => Some(Error::ProposalNotFound),
            21 => Some(Error::ProposalAlreadyExists),
            22 => Some(Error::ReentryDetected),
            23 => Some(Error::ReleaseWindowTooShort),
            24 => Some(Error::StakeTokenMismatch),
            25 => Some(Error::InvalidAdminAddress),
            26 => Some(Error::CorruptedPlatformConfig),
            27 => Some(Error::StakeQueueFull),
            28 => Some(Error::AdminRecoveryFailed),
            29 => Some(Error::BatchLimitExceeded),
            30 => Some(Error::DeprecatedFunction),
            31 => Some(Error::NoPendingAdmin),
            32 => Some(Error::NoUpgradeProposed),
            33 => Some(Error::UpgradeCooldownActive),
            34 => Some(Error::UpgradeProposalExists),
            35 => Some(Error::InvalidUpgradeHash),
            36 => Some(Error::RecurringEscrowNotFound),
            37 => Some(Error::CycleNotReady),
            38 => Some(Error::RecurringEscrowIdExhausted),
            39 => Some(Error::OnboardingContractNotSet),
            40 => Some(Error::InvalidMetadataHash),
            41 => Some(Error::InvalidIpfsHash),
            42 => Some(Error::NotAnUpgradeSigner),
            43 => Some(Error::AlreadyApproved),
            44 => Some(Error::InvalidTokenDecimals),
            45 => Some(Error::StorageLayoutMismatch),
            46 => Some(Error::UnsupportedToken),
            _ => None,
        };
        proof {
            if let Some(err) = res {
                lemma_decode_encode(err);
            }
        }
        res
    }

    /// The category of the error, decided by the range its code falls in.
    pub fn category(self) -> (cat: ErrorCategory)
        ensures
            cat == category_of_code(self.spec_code() as int),
    {
        let code = self.code();
        if code < 10 {
            ErrorCategory::AuthAccess
        } else if code < 20 {
            ErrorCategory::StateTransition
        } else if code < 30 {
            ErrorCategory::ConfigResource
        } else if code < 40 {
            ErrorCategory::OperationalGates
        } else {
            ErrorCategory::Validation
        }
    }
}

/// Whether a failed call with `err` may succeed when retried later.
pub fn is_retryable(err: Error) -> (retryable: bool)
    ensures
        retryable == spec_is_retryable(err),
{
    match err {
        Error::InvalidEscrowState
        | Error::ReleaseWindowNotElapsed
        | Error::ContractPaused
        | Error::DisputeExpired
        | Error::StakeCooldownActive
        | Error::ReentryDetected
        | Error::StakeQueueFull
        | Error::UpgradeCooldownActive
        | Error::CycleNotReady
        | Error::BatchLimitExceeded => true,
        _ => false,
    }
}

/// Every error has a code in `1..=ERROR_CODE_COUNT`.
pub proof fn lemma_code_in_range(err: Error)
    ensures
        1 <= err.spec_code() <= ERROR_CODE_COUNT,
{
}

/// No two errors share a code.
pub proof fn lemma_codes_distinct(a: Error, b: Error)
    ensures
        a.spec_code() == b.spec_code() ==> a == b,
{
}

/// Every code in `1..=ERROR_CODE_COUNT` belongs to some error.
pub proof fn lemma_every_code_taken(code: u32)
    requires
        1 <= code <= ERROR_CODE_COUNT,
    ensures
        exists|err: Error| err.spec_code() == code,
{
    assert(Error::Unauthorized.spec_code() == 1);
    assert(Error::EscrowNotFound.spec_code() == 2);
    assert(Error::InvalidEscrowState.spec_code() == 3);
    assert(Error::UsernameAlreadyExists.spec_code() == 4);
    assert(Error::TokenNotWhitelisted.spec_code() == 5);
    assert(Error::AmountBelowMinimum.spec_code() == 6);
    assert(Error::ReleaseWindowTooLong.spec_code() == 7);
    assert(Error::NotInDispute.spec_code() == 8);
    assert(Error::AlreadyOnboarded.spec_code() == 9);
    assert(Error::InvalidFee.spec_code() == 10);
    assert(Error::SameBuyerSeller.spec_code() == 11);
    assert(Error::PlatformNotInitialized.spec_code() == 12);
    assert(Error::ReleaseWindowNotElapsed.spec_code() == 13);
    assert(Error::BatchOperationFailed.spec_code() == 14);
    assert(Error::ContractPaused.spec_code() == 15);
    assert(Error::DisputeExpired.spec_code() == 16);
    assert(Error::InsufficientStake.spec_code() == 17);
    assert(Error::StakeCooldownActive.spec_code() == 18);
    assert(Error::InvalidRefundAmount.spec_code() == 19);
    assert(Error::ProposalNotFound.spec_code() == 20);
    assert(Error::ProposalAlreadyExists.spec_code() == 21);
    assert(Error::ReentryDetected.spec_code() == 22);
    assert(Error::ReleaseWindowTooShort.spec_code() == 23);
    assert(Error::StakeTokenMismatch.spec_code() == 24);
    assert(Error::InvalidAdminAddress.spec_code() == 25);
    assert(Error::CorruptedPlatformConfig.spec_code() == 26);
    assert(Error::StakeQueueFull.spec_code() == 27);
    assert(Error::AdminRecoveryFailed.spec_code() == 28);
    assert(Error::BatchLimitExceeded.spec_code() == 29);
    assert(Error::DeprecatedFunction.spec_code() == 30);
    assert(Error::NoPendingAdmin.spec_code() == 31);
    assert(Error::NoUpgradeProposed.spec_code() == 32);
    assert(Error::UpgradeCooldownActive.spec_code() == 33);
    assert(Error::UpgradeProposalExists.spec_code() == 34);
    assert(Error::InvalidUpgradeHash.spec_code() == 35);
    assert(Error::RecurringEscrowNotFound.spec_code() == 36);
    assert(Error::CycleNotReady.spec_code() == 37);
    assert(Error::RecurringEscrowIdExhausted.spec_code() == 38);
    assert(Error::OnboardingContractNotSet.spec_code() == 39);
    assert(Error::InvalidMetadataHash.spec_code() == 40);
    assert(Error::InvalidIpfsHash.spec_code() == 41);
    assert(Error::NotAnUpgradeSigner.spec_code() == 42);
    assert(Error::AlreadyApproved.spec_code() == 43);
    assert(Error::InvalidTokenDecimals.spec_code() == 44);
    assert(Error::StorageLayoutMismatch.spec_code() == 45);
    assert(Error::UnsupportedToken.spec_code() == 46);
}

/// Decoding the code of an error gives the error back.
pub proof fn lemma_decode_encode(err: Error)
    ensures
        spec_from_code(err.spec_code()) == Some(err),
{
    lemma_code_in_range(err);
    lemma_every_code_taken(err.spec_code());
    let found = choose|e: Error| e.spec_code() == err.spec_code();
    lemma_codes_distinct(found, err);
}

/// Encoding a decoded error gives the code back, and exactly the codes in
/// `1..=ERROR_CODE_COUNT` decode to an error.
pub proof fn lemma_encode_decode(code: u32)
    ensures
        spec_from_code(code) is Some <==> 1 <= code <= ERROR_CODE_COUNT,
        spec_from_code(code) matches Some(err) ==> err.spec_code() == code,
{
    if 1 <= code <= ERROR_CODE_COUNT {
        lemma_every_code_taken(code);
    }
}

} // verus!
