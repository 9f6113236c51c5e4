//! The escrow platform's state and the decisions it takes on each call.
//!
//! Addresses (accounts, tokens, the contract itself) are held as integer
//! identifiers; ledger time is a UNIX timestamp handed in by the caller.
//! Token movements are not performed here: a call that moves funds returns
//! the transfers it calls for, and the host carries them out.

use vstd::prelude::*;

use crate::error::Error;
use crate::governance::Governance;
use crate::staking::{lemma_stake_amount_nonneg, stakes_unique, Staking};
use crate::recurring::RecurringBook;

verus! {

/// Platform fees are counted in basis points of an escrowed amount.
pub const BASIS_POINTS: u32 = 10000;

/// The settings fixed when the platform is initialised.
#[derive(Clone, Copy, Debug, PartialEq, Eq, Structural)]
pub struct PlatformConfig {
    pub platform_wallet: u64,
    pub admin: u64,
    pub arbitrator: u64,
    /// Fee taken from each released escrow, in basis points.
    pub platform_fee_bps: u32,
    pub onboarding_contract: Option<u64>,
}

/// Where an escrow stands.
#[derive(Clone, Copy, Debug, PartialEq, Eq, Structural)]
pub enum EscrowStatus {
    Active,
    Released,
    Disputed,
    /// Settled by an accepted partial refund.
    Refunded,
}

/// A refund of part of a disputed escrow to its buyer, offered by one party
/// and awaiting the other's acceptance.
#[derive(Clone, Copy, Debug, PartialEq, Eq, Structural)]
pub struct RefundProposal {
    pub amount: i128,
    pub proposer: u64,
}

/// Funds that a buyer has locked for an order.
#[derive(Clone, Copy, Debug, PartialEq, Eq, Structural)]
pub struct Escrow {
    pub order_id: u32,
    pub buyer: u64,
    pub seller: u64,
    pub token: u64,
    pub amount: i128,
    /// Seconds after creation before the escrow may be released without
    /// the buyer, when one was given.
    pub release_window: Option<u64>,
    /// Ledger time at creation.
    pub created_at: u64,
    pub status: EscrowStatus,
    pub refund_proposal: Option<RefundProposal>,
}

/// A movement of `amount` units of `token` that a call asks the host to make.
#[derive(Clone, Copy, Debug, PartialEq, Eq, Structural)]
pub struct TokenTransfer {
    pub token: u64,
    pub from: u64,
    pub to: u64,
    pub amount: i128,
}

/// The two transfers that settle a released escrow: the seller's share and
/// the platform's fee, both paid from the contract.
#[derive(Clone, Copy, Debug, PartialEq, Eq, Structural)]
pub struct Payout {
    pub to_seller: TokenTransfer,
    pub fee: TokenTransfer,
}

/// The minimum escrow amount configured for one token.
#[derive(Clone, Copy, Debug, PartialEq, Eq, Structural)]
pub struct MinEscrowAmount {
    pub token: u64,
    pub amount: i128,
}

/// The contract's state.
pub struct Platform {
    /// The contract's own address, which holds escrowed funds.
    pub address: u64,
    pub config: PlatformConfig,
    pub paused: bool,
    /// Tokens accepted for escrows; while empty, every token is accepted.
    pub whitelist: Vec<u64>,
    /// At most one entry per token; a token without one has no minimum.
    pub min_escrow_amounts: Vec<MinEscrowAmount>,
    /// The shortest release window an escrow may be given.
    pub min_release_window: u64,
    /// At most one escrow per order id.
    pub escrows: Vec<Escrow>,
    /// Admin transfer and contract upgrade state.
    pub governance: Governance,
    /// Sellers' stakes and the stake that escrows require of a seller.
    pub staking: Staking,
    /// Escrows paid out to the seller in equal cycles.
    pub recurring: RecurringBook,
}

/// The minimum amount configured for `token` in `mins`, 0 when none is.
pub open spec fn min_amount_in(mins: Seq<MinEscrowAmount>, token: u64) -> int {
    if exists|i: int| 0 <= i < mins.len() && mins[i].token == token {
        mins[choose|i: int| 0 <= i < mins.len() && mins[i].token == token].amount as int
    } else {
        0
    }
}

/// Whether some escrow in `escrows` has `order_id`.
pub open spec fn has_order_in(escrows: Seq<Escrow>, order_id: u32) -> bool {
    exists|i: int| 0 <= i < escrows.len() && escrows[i].order_id == order_id
}

/// The fee on `amount` at `fee_bps` basis points, rounded down.
pub open spec fn fee_on(amount: int, fee_bps: int) -> int {
    (amount * fee_bps) / (BASIS_POINTS as int)
}

/// Whether no token occurs twice in `mins`.
pub open spec fn tokens_unique(mins: Seq<MinEscrowAmount>) -> bool {
    forall|i: int, j: int| 0 <= i < j < mins.len() ==> mins[i].token != mins[j].token
}

/// In a list without repeated tokens, the minimum of a listed token is the
/// amount listed for it.
proof fn lemma_min_amount_at(mins: Seq<MinEscrowAmount>, i: int)
    requires
        tokens_unique(mins),
        0 <= i < mins.len(),
    ensures
        min_amount_in(mins, mins[i].token) == mins[i].amount,
{
    let t = mins[i].token;
    assert(exists|k: int| 0 <= k < mins.len() && mins[k].token == t);
    let k = choose|k: int| 0 <= k < mins.len() && mins[k].token == t;
    if k != i {
        if k < i {
            assert(mins[k].token != mins[i].token);
        } else {
            assert(mins[i].token != mins[k].token);
        }
    }
}

/// The fee splits into the fee on whole multiples of the basis and the fee
/// on the rest, and lies between 0 and the amount.
proof fn lemma_fee_split(amount: int, fee_bps: int)
    requires
        amount >= 0,
        0 <= fee_bps <= BASIS_POINTS,
    ensures
        fee_on(amount, fee_bps) == (amount / 10000) * fee_bps + ((amount % 10000) * fee_bps)
            / 10000,
        0 <= fee_on(amount, fee_bps) <= amount,
        (amount / 10000) * fee_bps <= amount,
        0 <= (amount % 10000) * fee_bps < 100000000,
{
    let q = amount / 10000;
    let r = amount % 10000;
    assert(amount == q * 10000 + r && 0 <= r < 10000 && q >= 0) by (nonlinear_arith)
        requires
            amount >= 0,
            q == amount / 10000,
            r == amount % 10000,
    ;
    assert(amount * fee_bps == (q * fee_bps) * 10000 + r * fee_bps) by (nonlinear_arith)
        requires
            amount == q * 10000 + r,
    ;
    assert(((q * fee_bps) * 10000 + r * fee_bps) / 10000 == q * fee_bps + (r * fee_bps) / 10000)
        by (nonlinear_arith)
        requires
            q >= 0,
            r >= 0,
            fee_bps >= 0,
    ;
    assert(0 <= amount * fee_bps <= amount * 10000) by (nonlinear_arith)
        requires
            amount >= 0,
            0 <= fee_bps <= 10000,
    ;
    assert(0 <= (amount * fee_bps) / 10000 <= amount) by (nonlinear_arith)
        requires
            0 <= amount * fee_bps <= amount * 10000,
    ;
    assert(q * fee_bps <= q * 10000 <= amount) by (nonlinear_arith)
        requires
            q >= 0,
            0 <= fee_bps <= 10000,
            amount == q * 10000 + r,
            r >= 0,
    ;
    assert(0 <= r * fee_bps < 100000000) by (nonlinear_arith)
        requires
            0 <= r < 10000,
            0 <= fee_bps <= 10000,
    ;
}

impl Platform {
    /// The platform's invariant: keys are unique, fees are at most the
    /// whole amount and every escrow holds a positive amount.
    pub open spec fn wf(&self) -> bool {
        &&& self.config.platform_fee_bps <= BASIS_POINTS
        &&& tokens_unique(self.min_escrow_amounts@)
        &&& forall|i: int, j: int|
            0 <= i < j < self.escrows@.len() ==> self.escrows@[i].order_id
                != self.escrows@[j].order_id
        &&& forall|i: int| 0 <= i < self.escrows@.len() ==> self.escrows@[i].amount > 0
        &&& stakes_unique(self.staking.stakes@)
        &&& self.recurring.wf()
        &&& forall|i: int|
            0 <= i < self.escrows@.len() && (#[trigger] self.escrows@[i]).refund_proposal is Some
                ==> 0 < self.escrows@[i].refund_proposal->0.amount <= self.escrows@[i].amount
    }

    /// The minimum escrow amount for `token`.
    pub open spec fn min_escrow_amount(&self, token: u64) -> int {
        min_amount_in(self.min_escrow_amounts@, token)
    }

    /// Whether an escrow with `order_id` exists.
    pub open spec fn has_order(&self, order_id: u32) -> bool {
        has_order_in(self.escrows@, order_id)
    }

    /// Whether escrows in `token` are accepted.
    pub open spec fn accepts_token(&self, token: u64) -> bool {
        self.whitelist@.len() == 0 || self.whitelist@.contains(token)
    }

    /// The state with every field as in `self` but the escrows.
    pub open spec fn same_settings(self, other: Platform) -> bool {
        &&& self.address == other.address
        &&& self.config == other.config
        &&& self.paused == other.paused
        &&& self.whitelist@ == other.whitelist@
        &&& self.min_escrow_amounts@ == other.min_escrow_amounts@
        &&& self.min_release_window == other.min_release_window
        &&& self.governance == other.governance
        &&& self.staking == other.staking
        &&& self.recurring == other.recurring
    }

    /// Why `create_escrow` refuses these arguments, if it does; the checks
    /// are made in this order.
    pub open spec fn create_escrow_error(
        &self,
        buyer: u64,
        seller: u64,
        token: u64,
        amount: i128,
        order_id: u32,
        release_window: Option<u64>,
    ) -> Option<Error> {
        if self.paused {
            Some(Error::ContractPaused)
        } else if buyer == seller {
            Some(Error::SameBuyerSeller)
        } else if !self.accepts_token(token) {
            Some(Error::TokenNotWhitelisted)
        } else if amount <= 0 || amount < self.min_escrow_amount(token) {
            Some(Error::AmountBelowMinimum)
        } else if release_window matches Some(w) && w < self.min_release_window {
            Some(Error::ReleaseWindowTooShort)
        } else if self.staking.min_stake_required > 0 && self.stake_amount(seller)
            < self.staking.min_stake_required {
            Some(Error::InsufficientStake)
        } else if self.has_order(order_id) {
            Some(Error::InvalidEscrowState)
        } else {
            None
        }
    }

    /// The position of the escrow with `order_id`, when it exists.
    pub open spec fn escrow_index(&self, order_id: u32) -> int {
        choose|i: int| 0 <= i < self.escrows@.len() && self.escrows@[i].order_id == order_id
    }

    /// The escrow with `order_id`, when it exists.
    pub open spec fn escrow_of(&self, order_id: u32) -> Escrow {
        self.escrows@[self.escrow_index(order_id)]
    }

    /// Why `dispute_escrow` refuses these arguments, if it does; the checks
    /// are made in this order.
    pub open spec fn dispute_escrow_error(&self, order_id: u32, disputer: u64) -> Option<Error> {
        if !self.has_order(order_id) {
            Some(Error::EscrowNotFound)
        } else if self.escrow_of(order_id).status != EscrowStatus::Active {
            Some(Error::InvalidEscrowState)
        } else if disputer != self.escrow_of(order_id).buyer && disputer != self.escrow_of(
            order_id,
        ).seller {
            Some(Error::Unauthorized)
        } else {
            None
        }
    }

    /// Why `release_funds` refuses to release the escrow, if it does.
    pub open spec fn release_funds_error(&self, order_id: u32) -> Option<Error> {
        if !self.has_order(order_id) {
            Some(Error::EscrowNotFound)
        } else if self.escrow_of(order_id).status != EscrowStatus::Active {
            Some(Error::InvalidEscrowState)
        } else {
            None
        }
    }

    /// Whether the release window of `escrow` has passed at `now`; an
    /// escrow created without a window uses the platform's minimum window.
    pub open spec fn window_elapsed(&self, escrow: Escrow, now: u64) -> bool {
        let window = match escrow.release_window {
            Some(w) => w,
            None => self.min_release_window,
        };
        now >= escrow.created_at + window
    }

    /// Why `auto_release` refuses to release the escrow, if it does; the
    /// checks are made in this order.
    pub open spec fn auto_release_error(&self, order_id: u32, now: u64) -> Option<Error> {
        if !self.has_order(order_id) {
            Some(Error::EscrowNotFound)
        } else if self.escrow_of(order_id).status != EscrowStatus::Active {
            Some(Error::InvalidEscrowState)
        } else if !self.window_elapsed(self.escrow_of(order_id), now) {
            Some(Error::ReleaseWindowNotElapsed)
        } else {
            None
        }
    }

    /// The transfers that settle `escrow`: its amount less the platform fee
    /// to the seller, and the fee to the platform wallet.
    pub open spec fn payout_for(&self, escrow: Escrow) -> Payout {
        let fee = fee_on(escrow.amount as int, self.config.platform_fee_bps as int);
        Payout {
            to_seller: TokenTransfer {
                token: escrow.token,
                from: self.address,
                to: escrow.seller,
                amount: (escrow.amount - fee) as i128,
            },
            fee: TokenTransfer {
                token: escrow.token,
                from: self.address,
                to: self.config.platform_wallet,
                amount: fee as i128,
            },
        }
    }

    /// Sets the platform up. Fails with `InvalidFee` when the fee exceeds
    /// the whole amount.
    pub fn initialize(
        address: u64,
        platform_wallet: u64,
        admin: u64,
        arbitrator: u64,
        platform_fee_bps: u32,
        onboarding_contract: Option<u64>,
    ) -> (res: Result<Platform, Error>)
        ensures
            res is Err <==> platform_fee_bps > BASIS_POINTS,
            res matches Err(e) ==> e == Error::InvalidFee,
            res matches Ok(p) ==> {
                &&& p.wf()
                &&& p.address == address
                &&& p.config == (PlatformConfig {
                    platform_wallet,
                    admin,
                    arbitrator,
                    platform_fee_bps,
                    onboarding_contract,
                })
                &&& !p.paused
                &&& p.whitelist@.len() == 0
                &&& p.min_escrow_amounts@.len() == 0
                &&& p.min_release_window == 0
                &&& p.escrows@.len() == 0
                &&& p.governance.is_initial()
                &&& p.staking.is_initial()
                &&& p.recurring.is_initial()
            },
    {
        if platform_fee_bps > BASIS_POINTS {
            return Err(Error::InvalidFee);
        }
        Ok(Platform {
            address,
            config: PlatformConfig {
                platform_wallet,
                admin,
                arbitrator,
                platform_fee_bps,
                onboarding_contract,
            },
            paused: false,
            whitelist: Vec::new(),
            min_escrow_amounts: Vec::new(),
            min_release_window: 0,
            escrows: Vec::new(),
            governance: Governance::new(),
            staking: Staking::new(),
            recurring: RecurringBook::new(),
        })
    }
}

impl Platform {
    /// The index of the minimum configured for `token`, if any.
    fn find_min_amount(&self, token: u64) -> (res: Option<usize>)
        ensures
            res matches Some(i) ==> i < self.min_escrow_amounts@.len()
                && self.min_escrow_amounts@[i as int].token == token,
            res is None ==> forall|i: int|
                0 <= i < self.min_escrow_amounts@.len() ==> self.min_escrow_amounts@[i].token
                    != token,
    {
        let mut i: usize = 0;
        while i < self.min_escrow_amounts.len()
            invariant
                i <= self.min_escrow_amounts@.len(),
                forall|k: int| 0 <= k < i ==> self.min_escrow_amounts@[k].token != token,
            decreases self.min_escrow_amounts@.len() - i,
        {
            if self.min_escrow_amounts[i].token == token {
                return Some(i);
            }
            i = i + 1;
        }
        None
    }

    /// The minimum escrow amount configured for `token`, 0 when none is.
    pub fn min_escrow_amount_of(&self, token: u64) -> (amount: i128)
        requires
            self.wf(),
        ensures
            amount == self.min_escrow_amount(token),
    {
        match self.find_min_amount(token) {
            Some(i) => {
                proof {
                    lemma_min_amount_at(self.min_escrow_amounts@, i as int);
                }
                self.min_escrow_amounts[i].amount
            },
            None => 0,
        }
    }

    /// Sets the minimum escrow amount for `token`; the minimums of other
    /// tokens and every other setting stay.
    pub fn set_min_escrow_amount(&mut self, token: u64, amount: i128)
        requires
            old(self).wf(),
        ensures
            final(self).wf(),
            final(self).min_escrow_amount(token) == amount,
            forall|t: u64|
                t != token ==> #[trigger] final(self).min_escrow_amount(t) == old(
                    self,
                ).min_escrow_amount(t),
            final(self).address == old(self).address,
            final(self).config == old(self).config,
            final(self).paused == old(self).paused,
            final(self).whitelist@ == old(self).whitelist@,
            final(self).min_release_window == old(self).min_release_window,
            final(self).escrows@ == old(self).escrows@,
            final(self).governance == old(self).governance,
            final(self).staking == old(self).staking,
            final(self).recurring == old(self).recurring,
    {
        let ghost before = self.min_escrow_amounts@;
        let entry = MinEscrowAmount { token, amount };
        match self.find_min_amount(token) {
            Some(i) => {
                self.min_escrow_amounts.set(i, entry);
            },
            None => {
                self.min_escrow_amounts.push(entry);
            },
        }
        let ghost after = self.min_escrow_amounts@;
        proof {
            assert(tokens_unique(after));
            let k = choose|k: int| 0 <= k < after.len() && after[k] == entry;
            assert(exists|k: int| 0 <= k < after.len() && after[k] == entry) by {
                if before.len() < after.len() {
                    assert(after[before.len() as int] == entry);
                } else {
                    let i = choose|i: int| 0 <= i < before.len() && before[i].token == token;
                    assert(after[i] == entry);
                }
            }
            lemma_min_amount_at(after, k);
            assert forall|t: u64| t != token implies #[trigger] min_amount_in(after, t)
                == min_amount_in(before, t) by {
                if exists|j: int| 0 <= j < before.len() && before[j].token == t {
                    let j = choose|j: int| 0 <= j < before.len() && before[j].token == t;
                    lemma_min_amount_at(before, j);
                    assert(after[j] == before[j]);
                    lemma_min_amount_at(after, j);
                } else {
                    assert(!exists|j: int| 0 <= j < after.len() && after[j].token == t) by {
                        if exists|j: int| 0 <= j < after.len() && after[j].token == t {
                            let j = choose|j: int| 0 <= j < after.len() && after[j].token == t;
                            if j < before.len() {
                                assert(before[j].token == t);
                            }
                        }
                    }
                }
            }
        }
    }

    /// Sets the shortest release window that new escrows may be given.
    pub fn set_min_release_window(&mut self, window: u64)
        requires
            old(self).wf(),
        ensures
            final(self).wf(),
            final(self).min_release_window == window,
            final(self).address == old(self).address,
            final(self).config == old(self).config,
            final(self).paused == old(self).paused,
            final(self).whitelist@ == old(self).whitelist@,
            final(self).min_escrow_amounts@ == old(self).min_escrow_amounts@,
            final(self).escrows@ == old(self).escrows@,
            final(self).governance == old(self).governance,
            final(self).staking == old(self).staking,
            final(self).recurring == old(self).recurring,
    {
        self.min_release_window = window;
    }

    /// Pauses or resumes the creation of escrows.
    pub fn set_paused(&mut self, paused: bool)
        requires
            old(self).wf(),
        ensures
            final(self).wf(),
            final(self).paused == paused,
            final(self).address == old(self).address,
            final(self).config == old(self).config,
            final(self).whitelist@ == old(self).whitelist@,
            final(self).min_escrow_amounts@ == old(self).min_escrow_amounts@,
            final(self).min_release_window == old(self).min_release_window,
            final(self).escrows@ == old(self).escrows@,
            final(self).governance == old(self).governance,
            final(self).staking == old(self).staking,
            final(self).recurring == old(self).recurring,
    {
        self.paused = paused;
    }

    /// Whether an escrow with `order_id` exists.
    fn order_exists(&self, order_id: u32) -> (res: bool)
        ensures
            res == self.has_order(order_id),
    {
        let mut i: usize = 0;
        while i < self.escrows.len()
            invariant
                i <= self.escrows@.len(),
                forall|k: int| 0 <= k < i ==> self.escrows@[k].order_id != order_id,
            decreases self.escrows@.len() - i,
        {
            if self.escrows[i].order_id == order_id {
                return true;
            }
            i = i + 1;
        }
        false
    }

    /// Locks `amount` of `token` from `buyer` for `seller` under `order_id`
    /// at ledger time `now`. On success the escrow is recorded as active and
    /// the call asks for the transfer of `amount` from the buyer to the
    /// contract; on failure nothing changes.
    pub fn create_escrow(
        &mut self,
        buyer: u64,
        seller: u64,
        token: u64,
        amount: i128,
        order_id: u32,
        release_window: Option<u64>,
        now: u64,
    ) -> (res: Result<TokenTransfer, Error>)
        requires
            old(self).wf(),
        ensures
            final(self).wf(),
            final(self).same_settings(*old(self)),
            old(self).paused ==> res == Err::<TokenTransfer, Error>(Error::ContractPaused),
            res is Err ==> final(self).escrows@ == old(self).escrows@,
            res is Ok ==> {
                &&& !old(self).paused
                &&& buyer != seller
                &&& (old(self).whitelist@.len() == 0 || old(self).whitelist@.contains(token))
                &&& amount > 0
                &&& amount >= old(self).min_escrow_amount(token)
                &&& (release_window matches Some(w) ==> w >= old(self).min_release_window)
                &&& old(self).stake_amount(seller) >= old(self).staking.min_stake_required
                &&& forall|i: int|
                    0 <= i < old(self).escrows@.len() ==> (#[trigger] old(self).escrows@[i]).order_id
                        != order_id
                &&& final(self).escrows@.len() == old(self).escrows@.len() + 1
                &&& final(self).escrows@.last().status == EscrowStatus::Active
                &&& final(self).escrows@.last().amount == amount
                &&& res == Ok::<TokenTransfer, Error>(
                    TokenTransfer { token, from: buyer, to: old(self).address, amount },
                )
            },
            match old(self).create_escrow_error(buyer, seller, token, amount, order_id, release_window) {
                Some(e) => {
                    &&& res == Err::<TokenTransfer, Error>(e)
                    &&& final(self).escrows@ == old(self).escrows@
                },
                None => {
                    &&& res == Ok::<TokenTransfer, Error>(
                        TokenTransfer { token, from: buyer, to: old(self).address, amount },
                    )
                    &&& final(self).escrows@ == old(self).escrows@.push(
                        Escrow {
                            order_id,
                            buyer,
                            seller,
                            token,
                            amount,
                            release_window,
                            created_at: now,
                            status: EscrowStatus::Active,
                            refund_proposal: None,
                        },
                    )
                },
            },
    {
        proof {
            lemma_stake_amount_nonneg(*self, seller);
        }
        if self.paused {
            return Err(Error::ContractPaused);
        }
        if buyer == seller {
            return Err(Error::SameBuyerSeller);
        }
        if self.whitelist.len() != 0 && !self.is_whitelisted(token) {
            return Err(Error::TokenNotWhitelisted);
        }
        if amount <= 0 || amount < self.min_escrow_amount_of(token) {
            return Err(Error::AmountBelowMinimum);
        }
        if let Some(w) = release_window {
            if w < self.min_release_window {
                return Err(Error::ReleaseWindowTooShort);
            }
        }
        if self.staking.min_stake_required > 0 && self.stake_amount_of(seller)
            < self.staking.min_stake_required {
            return Err(Error::InsufficientStake);
        }
        if self.order_exists(order_id) {
            return Err(Error::InvalidEscrowState);
        }
        let escrow = Escrow {
            order_id,
            buyer,
            seller,
            token,
            amount,
            release_window,
            created_at: now,
            status: EscrowStatus::Active,
            refund_proposal: None,
        };
        self.escrows.push(escrow);
        Ok(TokenTransfer { token, from: buyer, to: self.address, amount })
    }

    /// The position of the escrow with `order_id`, if there is one.
    pub(crate) fn find_escrow(&self, order_id: u32) -> (res: Option<usize>)
        requires
            self.wf(),
        ensures
            res is Some <==> self.has_order(order_id),
            res matches Some(i) ==> i == self.escrow_index(order_id) && i
                < self.escrows@.len(),
    {
        let mut i: usize = 0;
        while i < self.escrows.len()
            invariant
                self.wf(),
                i <= self.escrows@.len(),
                forall|k: int| 0 <= k < i ==> self.escrows@[k].order_id != order_id,
            decreases self.escrows@.len() - i,
        {
            if self.escrows[i].order_id == order_id {
                proof {
                    let k = self.escrow_index(order_id);
                    assert(0 <= k < self.escrows@.len() && self.escrows@[k].order_id == order_id);
                    if k != i {
                        assert(self.escrows@[i as int].order_id != self.escrows@[k].order_id);
                    }
                }
                return Some(i);
            }
            i = i + 1;
        }
        None
    }

    /// The escrow with `order_id`, if there is one.
    pub fn get_escrow(&self, order_id: u32) -> (res: Option<Escrow>)
        requires
            self.wf(),
        ensures
            res is Some <==> self.has_order(order_id),
            res matches Some(e) ==> e == self.escrow_of(order_id),
    {
        match self.find_escrow(order_id) {
            Some(i) => Some(self.escrows[i]),
            None => None,
        }
    }

    /// Marks the escrow with `order_id` as disputed, at the request of its
    /// buyer or seller; on failure nothing changes.
    pub fn dispute_escrow(&mut self, order_id: u32, disputer: u64) -> (res: Result<(), Error>)
        requires
            old(self).wf(),
        ensures
            final(self).wf(),
            final(self).same_settings(*old(self)),
            res is Err ==> final(self).escrows@ == old(self).escrows@,
            res is Ok ==> {
                let e = old(self).escrow_of(order_id);
                &&& old(self).has_order(order_id)
                &&& e.status == EscrowStatus::Active
                &&& (disputer == e.buyer || disputer == e.seller)
                &&& final(self).escrows@[old(self).escrow_index(order_id)].status
                    == EscrowStatus::Disputed
            },
            match old(self).dispute_escrow_error(order_id, disputer) {
                Some(e) => {
                    &&& res == Err::<(), Error>(e)
                    &&& final(self).escrows@ == old(self).escrows@
                },
                None => {
                    &&& res is Ok
                    &&& final(self).escrows@ == old(self).escrows@.update(
                        old(self).escrow_index(order_id),
                        Escrow { status: EscrowStatus::Disputed, ..old(self).escrow_of(order_id) },
                    )
                },
            },
    {
        let i = match self.find_escrow(order_id) {
            Some(i) => i,
            None => return Err(Error::EscrowNotFound),
        };
        let escrow = self.escrows[i];
        if escrow.status != EscrowStatus::Active {
            return Err(Error::InvalidEscrowState);
        }
        if disputer != escrow.buyer && disputer != escrow.seller {
            return Err(Error::Unauthorized);
        }
        self.escrows.set(i, Escrow { status: EscrowStatus::Disputed, ..escrow });
        Ok(())
    }

    /// Releases the escrow with `order_id`: it becomes released and the call
    /// asks for its amount to be paid out, the platform fee to the platform
    /// wallet and the rest to the seller; on failure nothing changes.
    pub fn release_funds(&mut self, order_id: u32) -> (res: Result<Payout, Error>)
        requires
            old(self).wf(),
        ensures
            final(self).wf(),
            final(self).same_settings(*old(self)),
            res is Err ==> final(self).escrows@ == old(self).escrows@,
            res matches Ok(payout) ==> {
                let e = old(self).escrow_of(order_id);
                &&& old(self).has_order(order_id)
                &&& e.status == EscrowStatus::Active
                &&& payout.to_seller.amount + payout.fee.amount == e.amount
                &&& payout.fee.amount == (e.amount * old(self).config.platform_fee_bps) / 10000
                &&& payout.to_seller.to == e.seller
                &&& payout.fee.to == old(self).config.platform_wallet
                &&& payout.to_seller.from == old(self).address
                &&& payout.fee.from == old(self).address
                &&& payout.to_seller.token == e.token
                &&& payout.fee.token == e.token
                &&& final(self).escrows@[old(self).escrow_index(order_id)].status
                    == EscrowStatus::Released
            },
            match old(self).release_funds_error(order_id) {
                Some(e) => {
                    &&& res == Err::<Payout, Error>(e)
                    &&& final(self).escrows@ == old(self).escrows@
                },
                None => {
                    &&& res == Ok::<Payout, Error>(old(self).payout_for(old(self).escrow_of(order_id)))
                    &&& final(self).escrows@ == old(self).escrows@.update(
                        old(self).escrow_index(order_id),
                        Escrow { status: EscrowStatus::Released, ..old(self).escrow_of(order_id) },
                    )
                },
            },
    {
        let i = match self.find_escrow(order_id) {
            Some(i) => i,
            None => return Err(Error::EscrowNotFound),
        };
        let escrow = self.escrows[i];
        if escrow.status != EscrowStatus::Active {
            return Err(Error::InvalidEscrowState);
        }
        Ok(self.settle(i))
    }

    /// Marks the escrow at position `i` released and returns its payout.
    fn settle(&mut self, i: usize) -> (payout: Payout)
        requires
            old(self).wf(),
            i < old(self).escrows@.len(),
        ensures
            final(self).wf(),
            final(self).same_settings(*old(self)),
            payout == old(self).payout_for(old(self).escrows@[i as int]),
            payout.to_seller.amount + payout.fee.amount == old(self).escrows@[i as int].amount,
            payout.fee.amount == (old(self).escrows@[i as int].amount
                * old(self).config.platform_fee_bps) / 10000,
            final(self).escrows@ == old(self).escrows@.update(
                i as int,
                Escrow { status: EscrowStatus::Released, ..old(self).escrows@[i as int] },
            ),
    {
        let escrow = self.escrows[i];
        let bps = self.config.platform_fee_bps;
        proof {
            lemma_fee_split(escrow.amount as int, bps as int);
        }
        let whole = (escrow.amount / 10000) * (bps as i128);
        let rest = ((escrow.amount % 10000) * (bps as i128)) / 10000;
        let fee = whole + rest;
        self.escrows.set(i, Escrow { status: EscrowStatus::Released, ..escrow });
        Payout {
            to_seller: TokenTransfer {
                token: escrow.token,
                from: self.address,
                to: escrow.seller,
                amount: escrow.amount - fee,
            },
            fee: TokenTransfer {
                token: escrow.token,
                from: self.address,
                to: self.config.platform_wallet,
                amount: fee,
            },
        }
    }

    /// Releases the escrow with `order_id` without the buyer, once its
    /// release window has passed at ledger time `now`; it is paid out as by
    /// `release_funds`. On failure nothing changes.
    pub fn auto_release(&mut self, order_id: u32, now: u64) -> (res: Result<Payout, Error>)
        requires
            old(self).wf(),
        ensures
            final(self).wf(),
            final(self).same_settings(*old(self)),
            res is Err ==> final(self).escrows@ == old(self).escrows@,
            res matches Ok(payout) ==> {
                let e = old(self).escrow_of(order_id);
                &&& old(self).has_order(order_id)
                &&& e.status == EscrowStatus::Active
                &&& now >= e.created_at + match e.release_window {
                    Some(w) => w,
                    None => old(self).min_release_window,
                }
                &&& payout.to_seller.amount + payout.fee.amount == e.amount
                &&& payout.fee.amount == (e.amount * old(self).config.platform_fee_bps) / 10000
                &&& payout.to_seller.to == e.seller
                &&& payout.fee.to == old(self).config.platform_wallet
                &&& payout.to_seller.from == old(self).address
                &&& payout.fee.from == old(self).address
                &&& payout.to_seller.token == e.token
                &&& payout.fee.token == e.token
                &&& final(self).escrows@[old(self).escrow_index(order_id)].status
                    == EscrowStatus::Released
            },
            match old(self).auto_release_error(order_id, now) {
                Some(e) => {
                    &&& res == Err::<Payout, Error>(e)
                    &&& final(self).escrows@ == old(self).escrows@
                },
                None => {
                    &&& res == Ok::<Payout, Error>(old(self).payout_for(old(self).escrow_of(order_id)))
                    &&& final(self).escrows@ == old(self).escrows@.update(
                        old(self).escrow_index(order_id),
                        Escrow { status: EscrowStatus::Released, ..old(self).escrow_of(order_id) },
                    )
                },
            },
    {
        let i = match self.find_escrow(order_id) {
            Some(i) => i,
            None => return Err(Error::EscrowNotFound),
        };
        let escrow = self.escrows[i];
        if escrow.status != EscrowStatus::Active {
            return Err(Error::InvalidEscrowState);
        }
        let window = match escrow.release_window {
            Some(w) => w,
            None => self.min_release_window,
        };
        if now < escrow.created_at || now - escrow.created_at < window {
            return Err(Error::ReleaseWindowNotElapsed);
        }
        Ok(self.settle(i))
    }

    /// Whether `token` is on the whitelist.
    fn is_whitelisted(&self, token: u64) -> (res: bool)
        ensures
            res == self.whitelist@.contains(token),
    {
        let mut i: usize = 0;
        while i < self.whitelist.len()
            invariant
                i <= self.whitelist@.len(),
                forall|k: int| 0 <= k < i ==> self.whitelist@[k] != token,
            decreases self.whitelist@.len() - i,
        {
            if self.whitelist[i] == token {
                return true;
            }
            i = i + 1;
        }
        false
    }

    /// Adds `token` to the whitelist; from then on only whitelisted tokens
    /// are accepted.
    pub fn whitelist_token(&mut self, token: u64)
        requires
            old(self).wf(),
        ensures
            final(self).wf(),
            final(self).whitelist@.contains(token),
            forall|t: u64|
                t != token ==> (#[trigger] final(self).whitelist@.contains(t) == old(
                    self,
                ).whitelist@.contains(t)),
            final(self).address == old(self).address,
            final(self).config == old(self).config,
            final(self).paused == old(self).paused,
            final(self).min_escrow_amounts@ == old(self).min_escrow_amounts@,
            final(self).min_release_window == old(self).min_release_window,
            final(self).escrows@ == old(self).escrows@,
            final(self).governance == old(self).governance,
            final(self).staking == old(self).staking,
            final(self).recurring == old(self).recurring,
    {
        let ghost before = self.whitelist@;
        if !self.is_whitelisted(token) {
            self.whitelist.push(token);
            proof {
                let after = self.whitelist@;
                assert(after[before.len() as int] == token);
                assert forall|t: u64| t != token implies #[trigger] after.contains(t)
                    == before.contains(t) by {
                    if before.contains(t) {
                        let k = choose|k: int| 0 <= k < before.len() && before[k] == t;
                        assert(after[k] == t);
                    }
                    if after.contains(t) {
                        let k = choose|k: int| 0 <= k < after.len() && after[k] == t;
                        assert(before[k] == t);
                    }
                }
            }
        }
    }
}

/// In a well-formed platform, the escrow at position `i` is the one found
/// under its order id.
pub proof fn lemma_escrow_index_at(p: Platform, i: int)
    requires
        p.wf(),
        0 <= i < p.escrows@.len(),
    ensures
        p.has_order(p.escrows@[i].order_id),
        p.escrow_index(p.escrows@[i].order_id) == i,
{
    let id = p.escrows@[i].order_id;
    assert(0 <= i < p.escrows@.len() && p.escrows@[i].order_id == id);
    let k = p.escrow_index(id);
    if k < i {
        assert(p.escrows@[k].order_id != p.escrows@[i].order_id);
    } else if k > i {
        assert(p.escrows@[i].order_id != p.escrows@[k].order_id);
    }
}

/// An escrow recorded by `create_escrow` is found under its order id, as
/// it was recorded.
pub proof fn lemma_created_escrow_found(before: Platform, after: Platform, escrow: Escrow)
    requires
        after.wf(),
        after.escrows@ == before.escrows@.push(escrow),
    ensures
        after.has_order(escrow.order_id),
        after.escrow_of(escrow.order_id) == escrow,
{
    lemma_escrow_index_at(after, before.escrows@.len() as int);
}

/// A released escrow can be neither disputed nor released again: once
/// `release_funds` has released an escrow, disputing it fails with
/// `InvalidEscrowState`, whoever asks, and so does releasing it again.
pub proof fn lemma_released_escrow_is_final(
    before: Platform,
    after: Platform,
    order_id: u32,
    disputer: u64,
)
    requires
        before.wf(),
        after.wf(),
        before.release_funds_error(order_id) is None,
        after.escrows@ == before.escrows@.update(
            before.escrow_index(order_id),
            Escrow { status: EscrowStatus::Released, ..before.escrow_of(order_id) },
        ),
    ensures
        after.dispute_escrow_error(order_id, disputer) == Some(Error::InvalidEscrowState),
        after.release_funds_error(order_id) == Some(Error::InvalidEscrowState),
{
    let i = before.escrow_index(order_id);
    assert(after.escrows@[i].order_id == order_id);
    lemma_escrow_index_at(after, i);
}

/// The payout of an escrow pays out exactly its amount, in two
/// non-negative parts, from the contract.
pub proof fn lemma_payout_conserves_amount(p: Platform, escrow: Escrow)
    requires
        p.wf(),
        escrow.amount > 0,
    ensures
        p.payout_for(escrow).to_seller.amount + p.payout_for(escrow).fee.amount == escrow.amount,
        p.payout_for(escrow).to_seller.amount >= 0,
        p.payout_for(escrow).fee.amount >= 0,
        p.payout_for(escrow).to_seller.from == p.address,
        p.payout_for(escrow).fee.from == p.address,
{
    lemma_fee_split(escrow.amount as int, p.config.platform_fee_bps as int);
}

/// An escrow is created only when every requirement holds: the platform
/// runs, buyer and seller differ, the token is accepted, the amount is
/// positive and reaches the token's minimum, a given window reaches the
/// platform's minimum, the seller holds at least the required stake, and
/// the order id is new.
pub proof fn lemma_escrow_creation_requirements(
    p: Platform,
    buyer: u64,
    seller: u64,
    token: u64,
    amount: i128,
    order_id: u32,
    release_window: Option<u64>,
)
    requires
        p.wf(),
        p.create_escrow_error(buyer, seller, token, amount, order_id, release_window) is None,
    ensures
        !p.paused,
        buyer != seller,
        p.whitelist@.len() == 0 || p.whitelist@.contains(token),
        amount > 0,
        amount >= p.min_escrow_amount(token),
        release_window matches Some(w) ==> w >= p.min_release_window,
        p.stake_amount(seller) >= p.staking.min_stake_required,
        forall|i: int| 0 <= i < p.escrows@.len() ==> (#[trigger] p.escrows@[i]).order_id != order_id,
{
    lemma_stake_amount_nonneg(p, seller);
    if exists|i: int| 0 <= i < p.escrows@.len() && p.escrows@[i].order_id == order_id {
        assert(p.has_order(order_id));
    }
}

/// A seller holding less than a positive stake requirement cannot be party
/// to a new escrow: creation is refused, with `InsufficientStake` unless an
/// earlier check refuses it first.
pub proof fn lemma_insufficient_stake_refused(
    p: Platform,
    buyer: u64,
    seller: u64,
    token: u64,
    amount: i128,
    order_id: u32,
    release_window: Option<u64>,
)
    requires
        p.wf(),
        p.staking.min_stake_required > 0,
        p.stake_amount(seller) < p.staking.min_stake_required,
    ensures
        p.create_escrow_error(buyer, seller, token, amount, order_id, release_window) is Some,
{
    if p.create_escrow_error(buyer, seller, token, amount, order_id, release_window) is None {
        lemma_escrow_creation_requirements(p, buyer, seller, token, amount, order_id, release_window);
    }
}

/// Only an active escrow is released, by the buyer or automatically, and
/// automatically only once its window has passed.
pub proof fn lemma_release_only_active(p: Platform, order_id: u32, now: u64)
    ensures
        p.release_funds_error(order_id) is None ==> p.has_order(order_id) && p.escrow_of(
            order_id,
        ).status == EscrowStatus::Active,
        p.auto_release_error(order_id, now) is None ==> {
            let e = p.escrow_of(order_id);
            &&& p.has_order(order_id)
            &&& e.status == EscrowStatus::Active
            &&& now >= e.created_at + match e.release_window {
                Some(w) => w,
                None => p.min_release_window,
            }
        },
{
}

/// A disputed escrow is not released, neither by the buyer nor
/// automatically: both are refused with `InvalidEscrowState`.
pub proof fn lemma_disputed_not_released(p: Platform, order_id: u32, now: u64)
    requires
        p.has_order(order_id),
        p.escrow_of(order_id).status == EscrowStatus::Disputed,
    ensures
        p.release_funds_error(order_id) == Some(Error::InvalidEscrowState),
        p.auto_release_error(order_id, now) == Some(Error::InvalidEscrowState),
{
}

} // verus!
