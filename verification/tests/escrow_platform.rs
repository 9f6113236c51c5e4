use craft_nexus_contract::metadata::is_valid_ipfs_hash;
use craft_nexus_contract::{Error, EscrowStatus, Payout, Platform, PlatformConfig, TokenTransfer};

const CONTRACT: u64 = 100;
const BUYER: u64 = 1;
const SELLER: u64 = 2;
const TOKEN: u64 = 3;
const PLATFORM_WALLET: u64 = 4;
const ADMIN: u64 = 5;
const ARBITRATOR: u64 = 6;
const ONBOARDING: u64 = 7;
const NOW: u64 = 1_711_368_000;

/// A platform with a 5% fee, no minimum amount for the test token and a
/// one-second minimum release window.
fn setup() -> Platform {
    let mut platform =
        Platform::initialize(CONTRACT, PLATFORM_WALLET, ADMIN, ARBITRATOR, 500, Some(ONBOARDING))
            .unwrap();
    platform.set_min_escrow_amount(TOKEN, 0);
    platform.set_min_release_window(1);
    platform
}

/// Creates an active escrow and returns its order id.
fn create_active_escrow(platform: &mut Platform, amount: i128, order_id: u32) -> u32 {
    platform.create_escrow(BUYER, SELLER, TOKEN, amount, order_id, None, NOW).unwrap();
    order_id
}

#[test]
fn setup_records_the_configuration() {
    let platform = setup();
    assert_eq!(
        platform.config,
        PlatformConfig {
            platform_wallet: PLATFORM_WALLET,
            admin: ADMIN,
            arbitrator: ARBITRATOR,
            platform_fee_bps: 500,
            onboarding_contract: Some(ONBOARDING),
        }
    );
    assert_eq!(platform.min_escrow_amount_of(TOKEN), 0);
    assert_eq!(platform.min_release_window, 1);
    assert!(!platform.paused);
    assert!(platform.escrows.is_empty());
}

#[test]
fn initialize_rejects_a_fee_above_the_whole_amount() {
    let res = Platform::initialize(CONTRACT, PLATFORM_WALLET, ADMIN, ARBITRATOR, 10_001, None);
    assert!(matches!(res, Err(Error::InvalidFee)));
    assert!(Platform::initialize(CONTRACT, PLATFORM_WALLET, ADMIN, ARBITRATOR, 10_000, None).is_ok());
}

#[test]
fn create_escrow_moves_the_amount_to_the_contract() {
    let mut platform = setup();
    let transfer = platform.create_escrow(BUYER, SELLER, TOKEN, 1_000, 1, None, NOW);
    assert_eq!(transfer, Ok(TokenTransfer { token: TOKEN, from: BUYER, to: CONTRACT, amount: 1_000 }));
    let escrow = platform.get_escrow(1).unwrap();
    assert_eq!(escrow.amount, 1_000);
    assert_eq!(escrow.buyer, BUYER);
    assert_eq!(escrow.seller, SELLER);
    assert_eq!(escrow.created_at, NOW);
    assert_eq!(escrow.status, EscrowStatus::Active);
    assert_eq!(create_active_escrow(&mut platform, 500, 2), 2);
    assert_eq!(platform.escrows.len(), 2);
}

#[test]
fn create_escrow_refused_while_paused() {
    let mut platform = setup();
    platform.set_paused(true);
    let res = platform.create_escrow(BUYER, SELLER, TOKEN, 1_000, 1, None, NOW);
    assert_eq!(res, Err(Error::ContractPaused));
    assert!(platform.escrows.is_empty());
}

#[test]
fn create_escrow_refuses_tokens_off_the_whitelist() {
    let mut platform = setup();
    platform.whitelist_token(TOKEN);
    let other_token = 9;
    let res = platform.create_escrow(BUYER, SELLER, other_token, 500, 1, None, NOW);
    assert_eq!(res, Err(Error::TokenNotWhitelisted));
    assert!(platform.create_escrow(BUYER, SELLER, TOKEN, 500, 1, None, NOW).is_ok());
}

#[test]
fn create_escrow_refuses_bad_arguments() {
    let mut platform = setup();
    assert_eq!(
        platform.create_escrow(BUYER, BUYER, TOKEN, 1_000, 1, None, NOW),
        Err(Error::SameBuyerSeller)
    );
    assert_eq!(
        platform.create_escrow(BUYER, SELLER, TOKEN, 0, 1, None, NOW),
        Err(Error::AmountBelowMinimum)
    );
    platform.set_min_escrow_amount(TOKEN, 100);
    assert_eq!(
        platform.create_escrow(BUYER, SELLER, TOKEN, 99, 1, None, NOW),
        Err(Error::AmountBelowMinimum)
    );
    platform.set_min_release_window(3_600);
    assert_eq!(
        platform.create_escrow(BUYER, SELLER, TOKEN, 1_000, 1, Some(60), NOW),
        Err(Error::ReleaseWindowTooShort)
    );
    assert!(platform.create_escrow(BUYER, SELLER, TOKEN, 1_000, 1, Some(604_800), NOW).is_ok());
    assert_eq!(
        platform.create_escrow(BUYER, SELLER, TOKEN, 1_000, 1, None, NOW),
        Err(Error::InvalidEscrowState)
    );
    assert_eq!(platform.escrows.len(), 1);
}

#[test]
fn release_pays_the_seller_less_the_fee() {
    let mut platform = setup();
    create_active_escrow(&mut platform, 1_000, 1);
    let payout = platform.release_funds(1);
    assert_eq!(
        payout,
        Ok(Payout {
            to_seller: TokenTransfer { token: TOKEN, from: CONTRACT, to: SELLER, amount: 950 },
            fee: TokenTransfer { token: TOKEN, from: CONTRACT, to: PLATFORM_WALLET, amount: 50 },
        })
    );
    assert_eq!(platform.get_escrow(1).unwrap().status, EscrowStatus::Released);
    assert_eq!(platform.release_funds(1), Err(Error::InvalidEscrowState));
    assert_eq!(platform.release_funds(2), Err(Error::EscrowNotFound));
}

#[test]
fn release_fee_rounds_down() {
    let mut platform = setup();
    create_active_escrow(&mut platform, 39, 1);
    let payout = platform.release_funds(1).unwrap();
    assert_eq!(payout.fee.amount, 1);
    assert_eq!(payout.to_seller.amount, 38);
    create_active_escrow(&mut platform, i128::MAX, 2);
    let payout = platform.release_funds(2).unwrap();
    assert_eq!(payout.fee.amount, i128::MAX / 20);
    assert_eq!(payout.fee.amount + payout.to_seller.amount, i128::MAX);
}

#[test]
fn dispute_of_released_escrow_is_refused() {
    let mut platform = setup();
    create_active_escrow(&mut platform, 1_000, 1);
    platform.release_funds(1).unwrap();
    assert_eq!(platform.dispute_escrow(1, BUYER), Err(Error::InvalidEscrowState));
}

#[test]
fn auto_release_waits_for_the_window() {
    let mut platform = setup();
    platform.create_escrow(BUYER, SELLER, TOKEN, 1_000, 1, Some(604_800), NOW).unwrap();
    assert_eq!(platform.auto_release(1, NOW), Err(Error::ReleaseWindowNotElapsed));
    assert_eq!(platform.auto_release(1, NOW + 604_799), Err(Error::ReleaseWindowNotElapsed));
    let payout = platform.auto_release(1, NOW + 604_800).unwrap();
    assert_eq!(payout.to_seller.amount, 950);
    assert_eq!(platform.auto_release(1, NOW + 604_800), Err(Error::InvalidEscrowState));
    // Without a window of its own an escrow uses the platform's minimum.
    create_active_escrow(&mut platform, 1_000, 2);
    assert_eq!(platform.auto_release(2, NOW), Err(Error::ReleaseWindowNotElapsed));
    assert!(platform.auto_release(2, NOW + 1).is_ok());
    assert_eq!(platform.auto_release(3, NOW), Err(Error::EscrowNotFound));
}

#[test]
fn dispute_rules() {
    let mut platform = setup();
    create_active_escrow(&mut platform, 1_000, 1);
    assert_eq!(platform.dispute_escrow(2, BUYER), Err(Error::EscrowNotFound));
    assert_eq!(platform.dispute_escrow(1, ARBITRATOR), Err(Error::Unauthorized));
    assert_eq!(platform.dispute_escrow(1, BUYER), Ok(()));
    assert_eq!(platform.get_escrow(1).unwrap().status, EscrowStatus::Disputed);
    assert_eq!(platform.dispute_escrow(1, SELLER), Err(Error::InvalidEscrowState));
    assert_eq!(platform.release_funds(1), Err(Error::InvalidEscrowState));
}

#[test]
fn escrow_with_metadata_checks_the_ipfs_hash() {
    let mut platform = setup();
    let bad: &[u8] = b"INVALID";
    assert_eq!(
        platform.create_escrow_with_metadata(BUYER, SELLER, TOKEN, 1_000, 1, None, Some(bad), NOW),
        Err(Error::InvalidIpfsHash)
    );
    assert!(platform.escrows.is_empty());
    let v0: &[u8] = b"QmYwAPJzv5CZsnA625s3Xf2nemtYgPpHdWEz79ojWnPbdG";
    assert!(platform
        .create_escrow_with_metadata(BUYER, SELLER, TOKEN, 1_000, 1, None, Some(v0), NOW)
        .is_ok());
    let v1: &[u8] = b"bafybeigdyrzt5sfp7udm7hu76uh7y26nf3efuylqabf3oclgtqy55fbzdi";
    assert!(platform
        .create_escrow_with_metadata(BUYER, SELLER, TOKEN, 1_000, 2, None, Some(v1), NOW)
        .is_ok());
    assert!(platform
        .create_escrow_with_metadata(BUYER, SELLER, TOKEN, 1_000, 3, None, None, NOW)
        .is_ok());
}

#[test]
fn ipfs_hash_forms() {
    assert!(is_valid_ipfs_hash(b"QmYwAPJzv5CZsnA625s3Xf2nemtYgPpHdWEz79ojWnPbdG"));
    // `0` is not a base58 digit.
    assert!(!is_valid_ipfs_hash(b"QmYwAPJzv5CZsnA625s3Xf2nemtYgPpHdWEz79ojWnPbd0"));
    assert!(!is_valid_ipfs_hash(b"QmYwAPJzv5CZsnA625s3Xf2nemtYgPpHdWEz79ojWnPbd"));
    assert!(is_valid_ipfs_hash(b"bafybeigdyrzt5sfp7udm7hu76uh7y26nf3efuylqabf3oclgtqy55fbzdi"));
    assert!(!is_valid_ipfs_hash(b"bafybeigdyrzt5sfp7udm7hu76uh7y26nf3efuylqabf3oclgtqy55fbzdI"));
    assert!(!is_valid_ipfs_hash(b""));
}
