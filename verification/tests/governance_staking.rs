use craft_nexus_contract::governance::{get_admin, DEFAULT_WASM_UPGRADE_COOLDOWN};
use craft_nexus_contract::recurring::RecurringEscrow;
use craft_nexus_contract::staking::{MAX_STAKE_HISTORY_SIZE, STAKE_COOLDOWN};
use craft_nexus_contract::{Error, EscrowStatus, Platform, TokenTransfer};

const CONTRACT: u64 = 100;
const BUYER: u64 = 1;
const SELLER: u64 = 2;
const TOKEN: u64 = 3;
const PLATFORM_WALLET: u64 = 4;
const ADMIN: u64 = 5;
const ARBITRATOR: u64 = 6;
const ONBOARDING: u64 = 7;
const NOW: u64 = 1_711_368_000;

fn platform() -> Platform {
    let mut platform =
        Platform::initialize(CONTRACT, PLATFORM_WALLET, ADMIN, ARBITRATOR, 500, Some(ONBOARDING))
            .unwrap();
    platform.set_min_escrow_amount(TOKEN, 0);
    platform.set_min_release_window(1);
    platform
}

#[test]
fn admin_of_an_uninitialised_contract_is_refused() {
    assert_eq!(get_admin(&None), Err(Error::PlatformNotInitialized));
    assert_eq!(get_admin(&Some(platform())), Ok(ADMIN));
}

#[test]
fn onboarding_contract_get_and_clear() {
    let mut platform = platform();
    assert_eq!(platform.get_onboarding_contract(), Ok(ONBOARDING));
    assert_eq!(platform.clear_onboarding_contract(), Ok(()));
    assert_eq!(platform.get_onboarding_contract(), Err(Error::OnboardingContractNotSet));
    assert_eq!(platform.clear_onboarding_contract(), Err(Error::OnboardingContractNotSet));
}

#[test]
fn admin_transfer() {
    let mut platform = platform();
    assert_eq!(platform.cancel_admin_transfer(), Err(Error::NoPendingAdmin));
    assert_eq!(platform.update_admin(CONTRACT), Err(Error::InvalidAdminAddress));
    assert_eq!(platform.update_admin(42), Ok(()));
    assert_eq!(platform.accept_admin_transfer(43), Err(Error::Unauthorized));
    assert_eq!(platform.cancel_admin_transfer(), Ok(()));
    assert_eq!(platform.accept_admin_transfer(42), Err(Error::NoPendingAdmin));
    platform.update_admin(42).unwrap();
    assert_eq!(platform.accept_admin_transfer(42), Ok(()));
    assert_eq!(platform.config.admin, 42);
}

#[test]
fn upgrade_proposals() {
    let mut platform = platform();
    let hash1 = [1u8; 32];
    let hash2 = [2u8; 32];
    assert_eq!(platform.cancel_upgrade_wasm(NOW), Err(Error::NoUpgradeProposed));
    assert_eq!(platform.propose_upgrade_wasm(ADMIN, [0u8; 32], NOW), Err(Error::InvalidUpgradeHash));
    assert_eq!(platform.propose_upgrade_wasm(ARBITRATOR, hash1, NOW), Err(Error::NotAnUpgradeSigner));
    assert_eq!(platform.propose_upgrade_wasm(ADMIN, hash1, NOW), Ok(()));
    assert_eq!(platform.propose_upgrade_wasm(ADMIN, hash2, NOW), Err(Error::UpgradeProposalExists));
    assert_eq!(platform.propose_upgrade_wasm(ADMIN, hash1, NOW), Err(Error::AlreadyApproved));
    assert_eq!(platform.cancel_upgrade_wasm(NOW), Ok(()));
    assert_eq!(platform.propose_upgrade_wasm(ADMIN, hash1, NOW), Err(Error::UpgradeCooldownActive));
    assert_eq!(
        platform.propose_upgrade_wasm(ADMIN, hash1, NOW + DEFAULT_WASM_UPGRADE_COOLDOWN),
        Ok(())
    );
}

#[test]
fn upgrade_execution() {
    let mut platform = platform();
    let hash = [1u8; 32];
    assert_eq!(platform.execute_upgrade(hash, NOW), Err(Error::NoUpgradeProposed));
    platform.propose_upgrade_wasm(ADMIN, hash, NOW).unwrap();
    let later = NOW + DEFAULT_WASM_UPGRADE_COOLDOWN + 1;
    assert_eq!(platform.execute_upgrade([2u8; 32], later), Err(Error::InvalidUpgradeHash));
    assert_eq!(platform.execute_upgrade(hash, NOW + 1), Err(Error::UpgradeCooldownActive));
    assert_eq!(platform.execute_upgrade(hash, later), Ok(hash));
    assert!(platform.governance.upgrade_proposal.is_none());
}

#[test]
fn upgrade_multisig() {
    let mut platform = platform();
    let hash = [1u8; 32];
    let signer2 = 50;
    platform.set_upgrade_signers(vec![ADMIN, signer2]);
    platform.set_upgrade_threshold(2);
    assert_eq!(platform.propose_upgrade_wasm(77, hash, NOW), Err(Error::NotAnUpgradeSigner));
    assert_eq!(platform.propose_upgrade_wasm(ADMIN, hash, NOW), Ok(()));
    assert_eq!(platform.propose_upgrade_wasm(ADMIN, hash, NOW), Err(Error::AlreadyApproved));
    let later = NOW + DEFAULT_WASM_UPGRADE_COOLDOWN;
    assert_eq!(platform.execute_upgrade(hash, later), Err(Error::Unauthorized));
    assert_eq!(platform.propose_upgrade_wasm(signer2, hash, NOW), Ok(()));
    assert_eq!(platform.execute_upgrade(hash, later), Ok(hash));
}

#[test]
fn staking_rules() {
    let mut platform = platform();
    assert_eq!(platform.unstake_tokens(SELLER, TOKEN, NOW), Err(Error::InsufficientStake));
    assert_eq!(platform.stake_tokens(SELLER, TOKEN, 0, NOW), Err(Error::AmountBelowMinimum));
    assert_eq!(
        platform.stake_tokens(SELLER, TOKEN, 3_000, NOW),
        Ok(TokenTransfer { token: TOKEN, from: SELLER, to: CONTRACT, amount: 3_000 })
    );
    assert_eq!(platform.stake_tokens(SELLER, 9, 2_000, NOW), Err(Error::StakeTokenMismatch));
    assert_eq!(platform.unstake_tokens(SELLER, TOKEN, NOW), Err(Error::StakeCooldownActive));
    assert_eq!(platform.unstake_tokens(SELLER, 9, NOW + STAKE_COOLDOWN), Err(Error::StakeTokenMismatch));
    assert_eq!(
        platform.unstake_tokens(SELLER, TOKEN, NOW + STAKE_COOLDOWN),
        Ok(TokenTransfer { token: TOKEN, from: CONTRACT, to: SELLER, amount: 3_000 })
    );
    assert_eq!(platform.stake_amount_of(SELLER), 0);
    // Once withdrawn, the seller may stake in another token.
    assert!(platform.stake_tokens(SELLER, 9, 100, NOW).is_ok());
}

#[test]
fn stake_history_fills_up() {
    let mut platform = platform();
    for _ in 0..MAX_STAKE_HISTORY_SIZE {
        platform.stake_tokens(SELLER, TOKEN, 10, NOW).unwrap();
    }
    assert_eq!(platform.stake_amount_of(SELLER), 10 * MAX_STAKE_HISTORY_SIZE as i128);
    assert_eq!(platform.stake_tokens(SELLER, TOKEN, 10, NOW), Err(Error::StakeQueueFull));
}

#[test]
fn escrow_requires_the_seller_stake() {
    let mut platform = platform();
    platform.set_min_stake_required(5_000);
    assert_eq!(
        platform.create_escrow(BUYER, SELLER, TOKEN, 5_000, 1, None, NOW),
        Err(Error::InsufficientStake)
    );
    platform.stake_tokens(SELLER, TOKEN, 5_000, NOW).unwrap();
    assert!(platform.create_escrow(BUYER, SELLER, TOKEN, 5_000, 1, None, NOW).is_ok());
}

#[test]
fn partial_refund() {
    let mut platform = platform();
    platform.create_escrow(BUYER, SELLER, TOKEN, 1_000, 1, None, NOW).unwrap();
    assert_eq!(platform.propose_partial_refund(1, 300, BUYER), Err(Error::InvalidEscrowState));
    platform.dispute_escrow(1, BUYER).unwrap();
    assert_eq!(platform.accept_partial_refund(1), Err(Error::ProposalNotFound));
    assert_eq!(platform.propose_partial_refund(1, 0, BUYER), Err(Error::InvalidRefundAmount));
    assert_eq!(platform.propose_partial_refund(1, 1_001, BUYER), Err(Error::InvalidRefundAmount));
    assert_eq!(platform.propose_partial_refund(1, 300, ARBITRATOR), Err(Error::Unauthorized));
    assert_eq!(platform.propose_partial_refund(1, 300, BUYER), Ok(()));
    assert_eq!(platform.propose_partial_refund(1, 200, SELLER), Err(Error::ProposalAlreadyExists));
    let payout = platform.accept_partial_refund(1).unwrap();
    assert_eq!(payout.to_buyer, TokenTransfer { token: TOKEN, from: CONTRACT, to: BUYER, amount: 300 });
    assert_eq!(payout.to_seller, TokenTransfer { token: TOKEN, from: CONTRACT, to: SELLER, amount: 700 });
    assert_eq!(platform.get_escrow(1).unwrap().status, EscrowStatus::Refunded);
    assert_eq!(platform.accept_partial_refund(1), Err(Error::InvalidEscrowState));
    assert_eq!(platform.accept_partial_refund(2), Err(Error::EscrowNotFound));
}

#[test]
fn recurring_escrow_cycles() {
    let mut platform = platform();
    assert_eq!(platform.release_next_cycle(999, NOW), Err(Error::RecurringEscrowNotFound));
    let (escrow, transfer) =
        platform.create_recurring_escrow(BUYER, SELLER, TOKEN, 10_000, 3_600, 3, NOW).unwrap();
    assert_eq!(
        escrow,
        RecurringEscrow {
            id: 1,
            buyer: BUYER,
            seller: SELLER,
            token: TOKEN,
            total_amount: 10_000,
            frequency: 3_600,
            cycles: 3,
            cycles_released: 0,
            last_release: NOW,
        }
    );
    assert_eq!(transfer, TokenTransfer { token: TOKEN, from: BUYER, to: CONTRACT, amount: 10_000 });
    assert_eq!(platform.release_next_cycle(escrow.id, NOW), Err(Error::CycleNotReady));
    let first = platform.release_next_cycle(escrow.id, NOW + 3_600).unwrap();
    assert_eq!(first.amount, 3_333);
    assert_eq!(first.to, SELLER);
    assert_eq!(platform.release_next_cycle(escrow.id, NOW + 3_600), Err(Error::CycleNotReady));
    assert_eq!(platform.release_next_cycle(escrow.id, NOW + 7_200).unwrap().amount, 3_333);
    assert_eq!(platform.release_next_cycle(escrow.id, NOW + 10_800).unwrap().amount, 3_334);
    assert_eq!(platform.release_next_cycle(escrow.id, NOW + 14_400), Err(Error::InvalidEscrowState));
    let (second, _) =
        platform.create_recurring_escrow(BUYER, SELLER, TOKEN, 100, 60, 2, NOW).unwrap();
    assert_eq!(second.id, 2);
}

#[test]
fn recurring_escrow_refusals() {
    let mut platform = platform();
    assert_eq!(
        platform.create_recurring_escrow(BUYER, BUYER, TOKEN, 100, 60, 2, NOW),
        Err(Error::SameBuyerSeller)
    );
    assert_eq!(
        platform.create_recurring_escrow(BUYER, SELLER, TOKEN, 100, 60, 0, NOW),
        Err(Error::AmountBelowMinimum)
    );
    platform.recurring.next_id = u64::MAX;
    assert_eq!(
        platform.create_recurring_escrow(BUYER, SELLER, TOKEN, 100, 60, 2, NOW),
        Err(Error::RecurringEscrowIdExhausted)
    );
}
