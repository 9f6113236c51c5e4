//! Administration of the platform: the onboarding contract, the two-step
//! admin transfer and the multi-signer contract upgrade.

use vstd::prelude::*;

use crate::error::Error;
use crate::platform::{Platform, PlatformConfig};

verus! {

/// Seconds that must pass after an upgrade is proposed before it may be
/// executed, and after a proposal is cancelled before a new one may be made.
pub const DEFAULT_WASM_UPGRADE_COOLDOWN: u64 = 86400;

/// A pending contract upgrade.
pub struct UpgradeProposal {
    /// Hash of the code to install.
    pub hash: [u8; 32],
    /// Ledger time of the first approval.
    pub proposed_at: u64,
    /// The signers who have approved the upgrade, in order.
    pub approvals: Vec<u64>,
}

/// Admin transfer and upgrade state.
pub struct Governance {
    /// The address an admin transfer has been offered to.
    pub pending_admin: Option<u64>,
    /// Who may approve upgrades; while empty, the admin alone may.
    pub upgrade_signers: Vec<u64>,
    /// How many approvals an upgrade needs before it may be executed.
    pub upgrade_threshold: u32,
    pub upgrade_proposal: Option<UpgradeProposal>,
    /// Ledger time of the last cancellation of a proposal.
    pub upgrade_cancelled_at: Option<u64>,
}

impl Governance {
    /// The state right after initialisation.
    pub open spec fn is_initial(&self) -> bool {
        &&& self.pending_admin is None
        &&& self.upgrade_signers@.len() == 0
        &&& self.upgrade_threshold == 1
        &&& self.upgrade_proposal is None
        &&& self.upgrade_cancelled_at is None
    }

    /// No admin transfer offered, the admin as sole signer and no proposal.
    pub fn new() -> (g: Governance)
        ensures
            g.is_initial(),
    {
        Governance {
            pending_admin: None,
            upgrade_signers: Vec::new(),
            upgrade_threshold: 1,
            upgrade_proposal: None,
            upgrade_cancelled_at: None,
        }
    }
}

/// Whether every byte of `hash` is zero.
pub open spec fn is_zero_hash(hash: [u8; 32]) -> bool {
    forall|i: int| 0 <= i < 32 ==> hash@[i] == 0
}

fn hash_is_zero(hash: &[u8; 32]) -> (res: bool)
    ensures
        res == is_zero_hash(*hash),
{
    let mut i: usize = 0;
    while i < 32
        invariant
            i <= 32,
            forall|k: int| 0 <= k < i ==> hash@[k] == 0,
        decreases 32 - i,
    {
        if hash[i] != 0 {
            return false;
        }
        i = i + 1;
    }
    true
}

fn hashes_equal(a: &[u8; 32], b: &[u8; 32]) -> (res: bool)
    ensures
        res == (a@ == b@),
{
    let mut i: usize = 0;
    while i < 32
        invariant
            i <= 32,
            forall|k: int| 0 <= k < i ==> a@[k] == b@[k],
        decreases 32 - i,
    {
        if a[i] != b[i] {
            return false;
        }
        i = i + 1;
    }
    assert(a@ =~= b@);
    true
}

fn contains_id(ids: &Vec<u64>, id: u64) -> (res: bool)
    ensures
        res == ids@.contains(id),
{
    let mut i: usize = 0;
    while i < ids.len()
        invariant
            i <= ids@.len(),
            forall|k: int| 0 <= k < i ==> ids@[k] != id,
        decreases ids@.len() - i,
    {
        if ids[i] == id {
            return true;
        }
        i = i + 1;
    }
    false
}

/// The admin of a deployed contract, which fails with
/// `PlatformNotInitialized` until the platform has been initialised.
pub fn get_admin(contract: &Option<Platform>) -> (res: Result<u64, Error>)
    ensures
        res == match contract {
            Some(p) => Ok::<u64, Error>(p.config.admin),
            None => Err::<u64, Error>(Error::PlatformNotInitialized),
        },
{
    match contract {
        Some(p) => Ok(p.config.admin),
        None => Err(Error::PlatformNotInitialized),
    }
}

impl Platform {
    /// Every part of the state but the configuration and governance is as
    /// in `other`.
    pub open spec fn escrow_state_same(self, other: Platform) -> bool {
        &&& self.address == other.address
        &&& self.paused == other.paused
        &&& self.whitelist@ == other.whitelist@
        &&& self.min_escrow_amounts@ == other.min_escrow_amounts@
        &&& self.min_release_window == other.min_release_window
        &&& self.escrows@ == other.escrows@
        &&& self.staking == other.staking
        &&& self.recurring == other.recurring
    }

    /// Whether `signer` may approve upgrades.
    pub open spec fn is_upgrade_signer(&self, signer: u64) -> bool {
        if self.governance.upgrade_signers@.len() == 0 {
            signer == self.config.admin
        } else {
            self.governance.upgrade_signers@.contains(signer)
        }
    }

    /// Why `propose_upgrade_wasm` refuses, if it does; checks in this order.
    pub open spec fn propose_upgrade_error(&self, signer: u64, hash: [u8; 32], now: u64) -> Option<
        Error,
    > {
        if is_zero_hash(hash) {
            Some(Error::InvalidUpgradeHash)
        } else if !self.is_upgrade_signer(signer) {
            Some(Error::NotAnUpgradeSigner)
        } else {
            match self.governance.upgrade_proposal {
                Some(p) => {
                    if p.hash@ != hash@ {
                        Some(Error::UpgradeProposalExists)
                    } else if p.approvals@.contains(signer) {
                        Some(Error::AlreadyApproved)
                    } else {
                        None
                    }
                },
                None => {
                    if self.governance.upgrade_cancelled_at matches Some(t) && now < t
                        + DEFAULT_WASM_UPGRADE_COOLDOWN {
                        Some(Error::UpgradeCooldownActive)
                    } else {
                        None
                    }
                },
            }
        }
    }

    /// Why `execute_upgrade` refuses, if it does; checks in this order.
    pub open spec fn execute_upgrade_error(&self, hash: [u8; 32], now: u64) -> Option<Error> {
        match self.governance.upgrade_proposal {
            None => Some(Error::NoUpgradeProposed),
            Some(p) => {
                if p.hash@ != hash@ {
                    Some(Error::InvalidUpgradeHash)
                } else if now < p.proposed_at + DEFAULT_WASM_UPGRADE_COOLDOWN {
                    Some(Error::UpgradeCooldownActive)
                } else if p.approvals@.len() < self.governance.upgrade_threshold {
                    Some(Error::Unauthorized)
                } else {
                    None
                }
            },
        }
    }

    /// The configured onboarding contract; `OnboardingContractNotSet` when
    /// there is none.
    pub fn get_onboarding_contract(&self) -> (res: Result<u64, Error>)
        ensures
            res == match self.config.onboarding_contract {
                Some(c) => Ok::<u64, Error>(c),
                None => Err::<u64, Error>(Error::OnboardingContractNotSet),
            },
    {
        match self.config.onboarding_contract {
            Some(c) => Ok(c),
            None => Err(Error::OnboardingContractNotSet),
        }
    }

    /// Removes the onboarding contract; `OnboardingContractNotSet`, with
    /// nothing changed, when there is none.
    pub fn clear_onboarding_contract(&mut self) -> (res: Result<(), Error>)
        requires
            old(self).wf(),
        ensures
            final(self).wf(),
            final(self).escrow_state_same(*old(self)),
            final(self).governance == old(self).governance,
            old(self).config.onboarding_contract is None ==> res == Err::<(), Error>(
                Error::OnboardingContractNotSet,
            ) && final(self).config == old(self).config,
            old(self).config.onboarding_contract is Some ==> res is Ok && final(self).config == (
            PlatformConfig { onboarding_contract: None, ..old(self).config }),
    {
        if self.config.onboarding_contract.is_none() {
            return Err(Error::OnboardingContractNotSet);
        }
        self.config = PlatformConfig { onboarding_contract: None, ..self.config };
        Ok(())
    }

    /// Offers the admin role to `new_admin`, who must accept it;
    /// `InvalidAdminAddress`, with nothing changed, when `new_admin` is the
    /// contract itself.
    pub fn update_admin(&mut self, new_admin: u64) -> (res: Result<(), Error>)
        requires
            old(self).wf(),
        ensures
            final(self).wf(),
            final(self).escrow_state_same(*old(self)),
            final(self).config == old(self).config,
            final(self).governance.upgrade_signers@ == old(self).governance.upgrade_signers@,
            final(self).governance.upgrade_threshold == old(self).governance.upgrade_threshold,
            final(self).governance.upgrade_proposal == old(self).governance.upgrade_proposal,
            final(self).governance.upgrade_cancelled_at == old(
                self,
            ).governance.upgrade_cancelled_at,
            new_admin == old(self).address ==> res == Err::<(), Error>(Error::InvalidAdminAddress)
                && final(self).governance.pending_admin == old(self).governance.pending_admin,
            new_admin != old(self).address ==> res is Ok && final(self).governance.pending_admin
                == Some(new_admin),
    {
        if new_admin == self.address {
            return Err(Error::InvalidAdminAddress);
        }
        self.governance.pending_admin = Some(new_admin);
        Ok(())
    }

    /// Completes an admin transfer: the offered address becomes the admin.
    /// `NoPendingAdmin` when none was offered, `Unauthorized` when `caller`
    /// is not the offered address; nothing changes on failure.
    pub fn accept_admin_transfer(&mut self, caller: u64) -> (res: Result<(), Error>)
        requires
            old(self).wf(),
        ensures
            final(self).wf(),
            final(self).escrow_state_same(*old(self)),
            final(self).governance.upgrade_signers@ == old(self).governance.upgrade_signers@,
            final(self).governance.upgrade_threshold == old(self).governance.upgrade_threshold,
            final(self).governance.upgrade_proposal == old(self).governance.upgrade_proposal,
            final(self).governance.upgrade_cancelled_at == old(
                self,
            ).governance.upgrade_cancelled_at,
            match old(self).governance.pending_admin {
                None => res == Err::<(), Error>(Error::NoPendingAdmin) && final(self).config == old(
                    self,
                ).config && final(self).governance.pending_admin is None,
                Some(a) => if a != caller {
                    &&& res == Err::<(), Error>(Error::Unauthorized)
                    &&& final(self).config == old(self).config
                    &&& final(self).governance.pending_admin == Some(a)
                } else {
                    &&& res is Ok
                    &&& final(self).config == (PlatformConfig { admin: caller, ..old(self).config })
                    &&& final(self).governance.pending_admin is None
                },
            },
    {
        match self.governance.pending_admin {
            None => Err(Error::NoPendingAdmin),
            Some(a) => {
                if a != caller {
                    return Err(Error::Unauthorized);
                }
                self.config = PlatformConfig { admin: caller, ..self.config };
                self.governance.pending_admin = None;
                Ok(())
            },
        }
    }

    /// Withdraws an offered admin transfer; `NoPendingAdmin` when none was
    /// offered.
    pub fn cancel_admin_transfer(&mut self) -> (res: Result<(), Error>)
        requires
            old(self).wf(),
        ensures
            final(self).wf(),
            final(self).escrow_state_same(*old(self)),
            final(self).config == old(self).config,
            final(self).governance.upgrade_signers@ == old(self).governance.upgrade_signers@,
            final(self).governance.upgrade_threshold == old(self).governance.upgrade_threshold,
            final(self).governance.upgrade_proposal == old(self).governance.upgrade_proposal,
            final(self).governance.upgrade_cancelled_at == old(
                self,
            ).governance.upgrade_cancelled_at,
            final(self).governance.pending_admin is None,
            res == if old(self).governance.pending_admin is None {
                Err::<(), Error>(Error::NoPendingAdmin)
            } else {
                Ok::<(), Error>(())
            },
    {
        if self.governance.pending_admin.is_none() {
            return Err(Error::NoPendingAdmin);
        }
        self.governance.pending_admin = None;
        Ok(())
    }

    /// Replaces the list of upgrade signers.
    pub fn set_upgrade_signers(&mut self, signers: Vec<u64>)
        requires
            old(self).wf(),
        ensures
            final(self).wf(),
            final(self).escrow_state_same(*old(self)),
            final(self).config == old(self).config,
            final(self).governance.upgrade_signers@ == signers@,
            final(self).governance.pending_admin == old(self).governance.pending_admin,
            final(self).governance.upgrade_threshold == old(self).governance.upgrade_threshold,
            final(self).governance.upgrade_proposal == old(self).governance.upgrade_proposal,
            final(self).governance.upgrade_cancelled_at == old(
                self,
            ).governance.upgrade_cancelled_at,
    {
        self.governance.upgrade_signers = signers;
    }

    /// Sets how many approvals an upgrade needs.
    pub fn set_upgrade_threshold(&mut self, threshold: u32)
        requires
            old(self).wf(),
        ensures
            final(self).wf(),
            final(self).escrow_state_same(*old(self)),
            final(self).config == old(self).config,
            final(self).governance.upgrade_threshold == threshold,
            final(self).governance.pending_admin == old(self).governance.pending_admin,
            final(self).governance.upgrade_signers@ == old(self).governance.upgrade_signers@,
            final(self).governance.upgrade_proposal == old(self).governance.upgrade_proposal,
            final(self).governance.upgrade_cancelled_at == old(
                self,
            ).governance.upgrade_cancelled_at,
    {
        self.governance.upgrade_threshold = threshold;
    }

    /// Whether `signer` may approve upgrades.
    fn check_upgrade_signer(&self, signer: u64) -> (res: bool)
        ensures
            res == self.is_upgrade_signer(signer),
    {
        if self.governance.upgrade_signers.len() == 0 {
            signer == self.config.admin
        } else {
            contains_id(&self.governance.upgrade_signers, signer)
        }
    }

    /// Approves an upgrade to the code with `hash` at ledger time `now`.
    /// With no proposal pending, this proposes it, with `signer` as its
    /// first approval; with one pending for the same hash, it adds
    /// `signer`'s approval. Refusals, with nothing changed: see
    /// `propose_upgrade_error`.
    pub fn propose_upgrade_wasm(&mut self, signer: u64, hash: [u8; 32], now: u64) -> (res: Result<
        (),
        Error,
    >)
        requires
            old(self).wf(),
        ensures
            final(self).wf(),
            final(self).escrow_state_same(*old(self)),
            final(self).config == old(self).config,
            final(self).governance.pending_admin == old(self).governance.pending_admin,
            final(self).governance.upgrade_signers@ == old(self).governance.upgrade_signers@,
            final(self).governance.upgrade_threshold == old(self).governance.upgrade_threshold,
            final(self).governance.upgrade_cancelled_at == old(
                self,
            ).governance.upgrade_cancelled_at,
            res is Ok ==> {
                &&& exists|i: int| 0 <= i < 32 && hash@[i] != 0
                &&& (old(self).governance.upgrade_signers@.len() == 0 && signer == old(
                    self,
                ).config.admin) || old(self).governance.upgrade_signers@.contains(signer)
                &&& match old(self).governance.upgrade_proposal {
                    Some(q) => q.hash@ == hash@ && !q.approvals@.contains(signer),
                    None => old(self).governance.upgrade_cancelled_at matches Some(t) ==> now >= t
                        + DEFAULT_WASM_UPGRADE_COOLDOWN,
                }
            },
            match old(self).propose_upgrade_error(signer, hash, now) {
                Some(e) => {
                    &&& res == Err::<(), Error>(e)
                    &&& final(self).governance.upgrade_proposal == old(
                        self,
                    ).governance.upgrade_proposal
                },
                None => {
                    &&& res is Ok
                    &&& final(self).governance.upgrade_proposal matches Some(np) && match old(
                        self,
                    ).governance.upgrade_proposal {
                        Some(op) => {
                            &&& np.hash == op.hash
                            &&& np.proposed_at == op.proposed_at
                            &&& np.approvals@ == op.approvals@.push(signer)
                        },
                        None => {
                            &&& np.hash == hash
                            &&& np.proposed_at == now
                            &&& np.approvals@ == seq![signer]
                        },
                    }
                },
            },
    {
        if hash_is_zero(&hash) {
            return Err(Error::InvalidUpgradeHash);
        }
        if !self.check_upgrade_signer(signer) {
            return Err(Error::NotAnUpgradeSigner);
        }
        match &self.governance.upgrade_proposal {
            Some(p) => {
                if !hashes_equal(&p.hash, &hash) {
                    return Err(Error::UpgradeProposalExists);
                }
                if contains_id(&p.approvals, signer) {
                    return Err(Error::AlreadyApproved);
                }
            },
            None => {
                if let Some(t) = self.governance.upgrade_cancelled_at {
                    if now < t || now - t < DEFAULT_WASM_UPGRADE_COOLDOWN {
                        return Err(Error::UpgradeCooldownActive);
                    }
                }
            },
        }
        let current = self.governance.upgrade_proposal.take();
        let next = match current {
            Some(p) => {
                let mut approvals = p.approvals;
                approvals.push(signer);
                UpgradeProposal { hash: p.hash, proposed_at: p.proposed_at, approvals }
            },
            None => {
                let mut approvals = Vec::new();
                approvals.push(signer);
                UpgradeProposal { hash, proposed_at: now, approvals }
            },
        };
        self.governance.upgrade_proposal = Some(next);
        Ok(())
    }

    /// Withdraws the pending upgrade at ledger time `now`, which starts the
    /// cooldown before the next proposal; `NoUpgradeProposed`, with nothing
    /// changed, when none is pending.
    pub fn cancel_upgrade_wasm(&mut self, now: u64) -> (res: Result<(), Error>)
        requires
            old(self).wf(),
        ensures
            final(self).wf(),
            final(self).escrow_state_same(*old(self)),
            final(self).config == old(self).config,
            final(self).governance.pending_admin == old(self).governance.pending_admin,
            final(self).governance.upgrade_signers@ == old(self).governance.upgrade_signers@,
            final(self).governance.upgrade_threshold == old(self).governance.upgrade_threshold,
            final(self).governance.upgrade_proposal is None,
            old(self).governance.upgrade_proposal is None ==> res == Err::<(), Error>(
                Error::NoUpgradeProposed,
            ) && final(self).governance.upgrade_cancelled_at == old(
                self,
            ).governance.upgrade_cancelled_at,
            old(self).governance.upgrade_proposal is Some ==> res is Ok
                && final(self).governance.upgrade_cancelled_at == Some(now),
    {
        if self.governance.upgrade_proposal.is_none() {
            return Err(Error::NoUpgradeProposed);
        }
        self.governance.upgrade_proposal = None;
        self.governance.upgrade_cancelled_at = Some(now);
        Ok(())
    }

    /// Executes the pending upgrade at ledger time `now`: the proposal is
    /// consumed and the hash of the code to install is returned, for the
    /// host to install. Refusals, with nothing changed: see
    /// `execute_upgrade_error`.
    pub fn execute_upgrade(&mut self, hash: [u8; 32], now: u64) -> (res: Result<[u8; 32], Error>)
        requires
            old(self).wf(),
        ensures
            final(self).wf(),
            final(self).escrow_state_same(*old(self)),
            final(self).config == old(self).config,
            final(self).governance.pending_admin == old(self).governance.pending_admin,
            final(self).governance.upgrade_signers@ == old(self).governance.upgrade_signers@,
            final(self).governance.upgrade_threshold == old(self).governance.upgrade_threshold,
            final(self).governance.upgrade_cancelled_at == old(
                self,
            ).governance.upgrade_cancelled_at,
            res is Ok ==> (old(self).governance.upgrade_proposal matches Some(q) && {
                &&& q.hash@ == hash@
                &&& now >= q.proposed_at + DEFAULT_WASM_UPGRADE_COOLDOWN
                &&& q.approvals@.len() >= old(self).governance.upgrade_threshold
            }),
            match old(self).execute_upgrade_error(hash, now) {
                Some(e) => {
                    &&& res == Err::<[u8; 32], Error>(e)
                    &&& final(self).governance.upgrade_proposal == old(
                        self,
                    ).governance.upgrade_proposal
                },
                None => {
                    &&& res matches Ok(h) && h@ == hash@
                    &&& final(self).governance.upgrade_proposal is None
                },
            },
    {
        match &self.governance.upgrade_proposal {
            None => {
                return Err(Error::NoUpgradeProposed);
            },
            Some(p) => {
                if !hashes_equal(&p.hash, &hash) {
                    return Err(Error::InvalidUpgradeHash);
                }
                if now < p.proposed_at || now - p.proposed_at < DEFAULT_WASM_UPGRADE_COOLDOWN {
                    return Err(Error::UpgradeCooldownActive);
                }
                if p.approvals.len() < self.governance.upgrade_threshold as usize {
                    return Err(Error::Unauthorized);
                }
            },
        }
        self.governance.upgrade_proposal = None;
        Ok(hash)
    }
}

/// While a proposal is pending, a proposal of any other code is refused
/// with `UpgradeProposalExists`.
pub proof fn lemma_pending_proposal_blocks_others(
    p: Platform,
    signer: u64,
    hash: [u8; 32],
    now: u64,
)
    requires
        p.governance.upgrade_proposal matches Some(q) && q.hash@ != hash@,
        !is_zero_hash(hash),
        p.is_upgrade_signer(signer),
    ensures
        p.propose_upgrade_error(signer, hash, now) == Some(Error::UpgradeProposalExists),
{
}

/// Once `propose_upgrade_wasm` has accepted an approval, the same signer
/// approving the same code again is refused with `AlreadyApproved`, at any
/// later time.
pub proof fn lemma_no_second_approval(
    before: Platform,
    after: Platform,
    signer: u64,
    hash: [u8; 32],
    now: u64,
    later: u64,
)
    requires
        before.propose_upgrade_error(signer, hash, now) is None,
        after.config == before.config,
        after.governance.upgrade_signers@ == before.governance.upgrade_signers@,
        after.governance.upgrade_proposal matches Some(np) && match before.governance.upgrade_proposal {
            Some(op) => {
                &&& np.hash == op.hash
                &&& np.approvals@ == op.approvals@.push(signer)
            },
            None => {
                &&& np.hash == hash
                &&& np.approvals@ == seq![signer]
            },
        },
    ensures
        after.propose_upgrade_error(signer, hash, later) == Some(Error::AlreadyApproved),
{
    let np = after.governance.upgrade_proposal->0;
    assert(np.approvals@[np.approvals@.len() - 1] == signer);
}

/// Right after a cancellation, within the cooldown, a new proposal is
/// refused with `UpgradeCooldownActive`.
pub proof fn lemma_cancel_starts_cooldown(p: Platform, signer: u64, hash: [u8; 32], now: u64)
    requires
        p.governance.upgrade_proposal is None,
        p.governance.upgrade_cancelled_at matches Some(t) && now < t
            + DEFAULT_WASM_UPGRADE_COOLDOWN,
        !is_zero_hash(hash),
        p.is_upgrade_signer(signer),
    ensures
        p.propose_upgrade_error(signer, hash, now) == Some(Error::UpgradeCooldownActive),
{
}

/// An upgrade is executed only for the proposed code, after the cooldown,
/// with at least the required number of approvals.
pub proof fn lemma_execute_needs_approvals(p: Platform, hash: [u8; 32], now: u64)
    requires
        p.execute_upgrade_error(hash, now) is None,
    ensures
        p.governance.upgrade_proposal matches Some(q) && {
            &&& q.hash@ == hash@
            &&& now >= q.proposed_at + DEFAULT_WASM_UPGRADE_COOLDOWN
            &&& q.approvals@.len() >= p.governance.upgrade_threshold
        },
{
}

} // verus!
