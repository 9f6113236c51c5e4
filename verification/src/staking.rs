//! Sellers' stakes: staking, unstaking after a cooldown, and the stake that
//! creating an escrow requires of its seller.

use vstd::prelude::*;

use crate::error::Error;
use crate::platform::{Platform, TokenTransfer};

verus! {

/// How many stake operations a seller's history holds.
pub const MAX_STAKE_HISTORY_SIZE: u32 = 100;

/// Seconds a stake stays locked after it was last added to.
pub const STAKE_COOLDOWN: u64 = 604800;

/// A seller's stake.
#[derive(Clone, Copy, Debug, PartialEq, Eq, Structural)]
pub struct Stake {
    pub seller: u64,
    /// The token the stake is held in.
    pub token: u64,
    /// The amount staked; 0 once it has been withdrawn.
    pub amount: i128,
    /// Ledger time of the last addition.
    pub staked_at: u64,
    /// How many stake operations the seller has made.
    pub history_len: u32,
}

/// Stakes and the staking requirement.
pub struct Staking {
    /// At most one entry per seller.
    pub stakes: Vec<Stake>,
    /// The stake a seller must hold to be party to a new escrow; 0 for none.
    pub min_stake_required: i128,
}

impl Staking {
    /// No stakes and no requirement.
    pub open spec fn is_initial(&self) -> bool {
        self.stakes@.len() == 0 && self.min_stake_required == 0
    }

    pub fn new() -> (s: Staking)
        ensures
            s.is_initial(),
    {
        Staking { stakes: Vec::new(), min_stake_required: 0 }
    }
}

/// Whether no seller occurs twice in `stakes` and no stake is negative.
pub open spec fn stakes_unique(stakes: Seq<Stake>) -> bool {
    &&& forall|i: int, j: int| 0 <= i < j < stakes.len() ==> stakes[i].seller != stakes[j].seller
    &&& forall|i: int| 0 <= i < stakes.len() ==> stakes[i].amount >= 0
}

/// The stake entry of `seller` in `stakes`, if any.
pub open spec fn stake_in(stakes: Seq<Stake>, seller: u64) -> Option<Stake> {
    if exists|i: int| 0 <= i < stakes.len() && stakes[i].seller == seller {
        Some(stakes[choose|i: int| 0 <= i < stakes.len() && stakes[i].seller == seller])
    } else {
        None
    }
}

/// In a list without repeated sellers, the entry of a listed seller is the
/// one listed.
proof fn lemma_stake_at(stakes: Seq<Stake>, i: int)
    requires
        stakes_unique(stakes),
        0 <= i < stakes.len(),
    ensures
        stake_in(stakes, stakes[i].seller) == Some(stakes[i]),
{
    let s = stakes[i].seller;
    assert(exists|k: int| 0 <= k < stakes.len() && stakes[k].seller == s);
    let k = choose|k: int| 0 <= k < stakes.len() && stakes[k].seller == s;
    if k < i {
        assert(stakes[k].seller != stakes[i].seller);
    } else if k > i {
        assert(stakes[i].seller != stakes[k].seller);
    }
}

impl Platform {
    /// The stake entry of `seller`.
    pub open spec fn stake_of(&self, seller: u64) -> Option<Stake> {
        stake_in(self.staking.stakes@, seller)
    }

    /// The amount `seller` has staked.
    pub open spec fn stake_amount(&self, seller: u64) -> int {
        match self.stake_of(seller) {
            Some(s) => s.amount as int,
            None => 0,
        }
    }

    /// Every part of the state but the staking is as in `other`.
    pub open spec fn all_but_staking_same(self, other: Platform) -> bool {
        &&& self.address == other.address
        &&& self.config == other.config
        &&& self.paused == other.paused
        &&& self.whitelist@ == other.whitelist@
        &&& self.min_escrow_amounts@ == other.min_escrow_amounts@
        &&& self.min_release_window == other.min_release_window
        &&& self.escrows@ == other.escrows@
        &&& self.governance == other.governance
        &&& self.recurring == other.recurring
    }

    /// Why `stake_tokens` refuses, if it does; checks in this order.
    pub open spec fn stake_error(&self, seller: u64, token: u64, amount: i128) -> Option<Error> {
        if amount <= 0 {
            Some(Error::AmountBelowMinimum)
        } else {
            match self.stake_of(seller) {
                Some(s) => {
                    if s.amount > 0 && s.token != token {
                        Some(Error::StakeTokenMismatch)
                    } else if s.history_len >= MAX_STAKE_HISTORY_SIZE {
                        Some(Error::StakeQueueFull)
                    } else {
                        None
                    }
                },
                None => None,
            }
        }
    }

    /// Why `unstake_tokens` refuses, if it does; checks in this order.
    pub open spec fn unstake_error(&self, seller: u64, token: u64, now: u64) -> Option<Error> {
        match self.stake_of(seller) {
            None => Some(Error::InsufficientStake),
            Some(s) => {
                if s.amount <= 0 {
                    Some(Error::InsufficientStake)
                } else if s.token != token {
                    Some(Error::StakeTokenMismatch)
                } else if now < s.staked_at + STAKE_COOLDOWN {
                    Some(Error::StakeCooldownActive)
                } else {
                    None
                }
            },
        }
    }

    /// The position of `seller`'s stake entry, if any.
    fn find_stake(&self, seller: u64) -> (res: Option<usize>)
        requires
            self.wf(),
        ensures
            res is None <==> self.stake_of(seller) is None,
            res matches Some(i) ==> i < self.staking.stakes@.len() && self.stake_of(seller) == Some(
                self.staking.stakes@[i as int],
            ),
    {
        let mut i: usize = 0;
        while i < self.staking.stakes.len()
            invariant
                self.wf(),
                i <= self.staking.stakes@.len(),
                forall|k: int| 0 <= k < i ==> self.staking.stakes@[k].seller != seller,
            decreases self.staking.stakes@.len() - i,
        {
            if self.staking.stakes[i].seller == seller {
                proof {
                    lemma_stake_at(self.staking.stakes@, i as int);
                }
                return Some(i);
            }
            i = i + 1;
        }
        None
    }

    /// The amount `seller` has staked.
    pub fn stake_amount_of(&self, seller: u64) -> (amount: i128)
        requires
            self.wf(),
        ensures
            amount == self.stake_amount(seller),
    {
        match self.find_stake(seller) {
            Some(i) => self.staking.stakes[i].amount,
            None => 0,
        }
    }

    /// Stores `entry` as the stake entry of its seller, at position `at`
    /// when the seller has one there.
    fn put_stake(&mut self, at: Option<usize>, entry: Stake)
        requires
            old(self).wf(),
            entry.amount >= 0,
            at is None <==> old(self).stake_of(entry.seller) is None,
            at matches Some(i) ==> i < old(self).staking.stakes@.len()
                && old(self).staking.stakes@[i as int].seller == entry.seller,
        ensures
            final(self).wf(),
            final(self).all_but_staking_same(*old(self)),
            final(self).staking.min_stake_required == old(self).staking.min_stake_required,
            final(self).stake_of(entry.seller) == Some(entry),
            forall|s: u64|
                s != entry.seller ==> #[trigger] final(self).stake_of(s) == old(self).stake_of(s),
    {
        let ghost before = self.staking.stakes@;
        match at {
            Some(i) => {
                self.staking.stakes.set(i, entry);
            },
            None => {
                self.staking.stakes.push(entry);
            },
        }
        let ghost after = self.staking.stakes@;
        proof {
            assert(stakes_unique(after)) by {
                if at is None {
                    assert forall|j: int| 0 <= j < before.len() implies before[j].seller
                        != entry.seller by {
                        if before[j].seller == entry.seller {
                            assert(exists|k: int|
                                0 <= k < before.len() && before[k].seller == entry.seller);
                        }
                    }
                }
            }
            let k: int = match at {
                Some(i) => i as int,
                None => before.len() as int,
            };
            assert(after[k] == entry);
            lemma_stake_at(after, k);
            assert forall|s: u64| s != entry.seller implies #[trigger] stake_in(after, s)
                == stake_in(before, s) by {
                if exists|j: int| 0 <= j < before.len() && before[j].seller == s {
                    let j = choose|j: int| 0 <= j < before.len() && before[j].seller == s;
                    lemma_stake_at(before, j);
                    assert(after[j] == before[j]);
                    lemma_stake_at(after, j);
                } else {
                    assert(!exists|j: int| 0 <= j < after.len() && after[j].seller == s) by {
                        if exists|j: int| 0 <= j < after.len() && after[j].seller == s {
                            let j = choose|j: int| 0 <= j < after.len() && after[j].seller == s;
                            if j < before.len() {
                                assert(before[j].seller == s);
                            }
                        }
                    }
                }
            }
        }
    }

    /// Sets the stake that sellers must hold to be party to a new escrow.
    pub fn set_min_stake_required(&mut self, amount: i128)
        requires
            old(self).wf(),
        ensures
            final(self).wf(),
            final(self).all_but_staking_same(*old(self)),
            final(self).staking.stakes@ == old(self).staking.stakes@,
            final(self).staking.min_stake_required == amount,
    {
        self.staking.min_stake_required = amount;
    }

    /// Adds `amount` of `token` to `seller`'s stake at ledger time `now`,
    /// which restarts the cooldown; on success the call asks for the
    /// transfer of `amount` from the seller to the contract. Refusals, with
    /// nothing changed: see `stake_error`.
    pub fn stake_tokens(&mut self, seller: u64, token: u64, amount: i128, now: u64) -> (res: Result<
        TokenTransfer,
        Error,
    >)
        requires
            old(self).wf(),
            old(self).stake_amount(seller) + amount <= i128::MAX,
        ensures
            final(self).wf(),
            final(self).all_but_staking_same(*old(self)),
            final(self).staking.min_stake_required == old(self).staking.min_stake_required,
            res is Ok ==> {
                &&& amount > 0
                &&& match old(self).stake_of(seller) {
                    Some(s) => (s.amount == 0 || s.token == token) && s.history_len
                        < MAX_STAKE_HISTORY_SIZE,
                    None => true,
                }
            },
            match old(self).stake_error(seller, token, amount) {
                Some(e) => {
                    &&& res == Err::<TokenTransfer, Error>(e)
                    &&& final(self).staking.stakes@ == old(self).staking.stakes@
                },
                None => {
                    &&& res == Ok::<TokenTransfer, Error>(
                        TokenTransfer { token, from: seller, to: old(self).address, amount },
                    )
                    &&& final(self).stake_of(seller) == Some(
                        Stake {
                            seller,
                            token,
                            amount: (old(self).stake_amount(seller) + amount) as i128,
                            staked_at: now,
                            history_len: match old(self).stake_of(seller) {
                                Some(s) => (s.history_len + 1) as u32,
                                None => 1,
                            },
                        },
                    )
                    &&& forall|s: u64|
                        s != seller ==> #[trigger] final(self).stake_of(s) == old(self).stake_of(s)
                },
            },
    {
        if amount <= 0 {
            return Err(Error::AmountBelowMinimum);
        }
        let at = self.find_stake(seller);
        let (held, history_len) = match at {
            Some(i) => {
                let s = self.staking.stakes[i];
                if s.amount > 0 && s.token != token {
                    return Err(Error::StakeTokenMismatch);
                }
                if s.history_len >= MAX_STAKE_HISTORY_SIZE {
                    return Err(Error::StakeQueueFull);
                }
                (s.amount, s.history_len + 1)
            },
            None => (0, 1),
        };
        let entry = Stake { seller, token, amount: held + amount, staked_at: now, history_len };
        self.put_stake(at, entry);
        Ok(TokenTransfer { token, from: seller, to: self.address, amount })
    }

    /// Withdraws `seller`'s whole stake in `token` at ledger time `now`,
    /// once the cooldown has passed; on success the call asks for the
    /// transfer of the stake from the contract back to the seller.
    /// Refusals, with nothing changed: see `unstake_error`.
    pub fn unstake_tokens(&mut self, seller: u64, token: u64, now: u64) -> (res: Result<
        TokenTransfer,
        Error,
    >)
        requires
            old(self).wf(),
        ensures
            final(self).wf(),
            final(self).all_but_staking_same(*old(self)),
            final(self).staking.min_stake_required == old(self).staking.min_stake_required,
            res matches Ok(t) ==> (old(self).stake_of(seller) matches Some(s) && {
                &&& s.amount > 0
                &&& s.token == token
                &&& now >= s.staked_at + STAKE_COOLDOWN
                &&& t.amount == s.amount
                &&& t.to == seller
                &&& t.from == old(self).address
            }),
            match old(self).unstake_error(seller, token, now) {
                Some(e) => {
                    &&& res == Err::<TokenTransfer, Error>(e)
                    &&& final(self).staking.stakes@ == old(self).staking.stakes@
                },
                None => {
                    &&& res == Ok::<TokenTransfer, Error>(
                        TokenTransfer {
                            token,
                            from: old(self).address,
                            to: seller,
                            amount: old(self).stake_of(seller)->0.amount,
                        },
                    )
                    &&& final(self).stake_of(seller) == Some(
                        Stake { amount: 0, ..old(self).stake_of(seller)->0 },
                    )
                    &&& forall|s: u64|
                        s != seller ==> #[trigger] final(self).stake_of(s) == old(self).stake_of(s)
                },
            },
    {
        let i = match self.find_stake(seller) {
            Some(i) => i,
            None => return Err(Error::InsufficientStake),
        };
        let s = self.staking.stakes[i];
        if s.amount <= 0 {
            return Err(Error::InsufficientStake);
        }
        if s.token != token {
            return Err(Error::StakeTokenMismatch);
        }
        if now < s.staked_at || now - s.staked_at < STAKE_COOLDOWN {
            return Err(Error::StakeCooldownActive);
        }
        self.put_stake(Some(i), Stake { amount: 0, ..s });
        Ok(TokenTransfer { token, from: self.address, to: seller, amount: s.amount })
    }
}

/// No seller's stake is negative.
pub proof fn lemma_stake_amount_nonneg(p: Platform, seller: u64)
    requires
        p.wf(),
    ensures
        p.stake_amount(seller) >= 0,
{
    let stakes = p.staking.stakes@;
    if exists|i: int| 0 <= i < stakes.len() && stakes[i].seller == seller {
        let i = choose|i: int| 0 <= i < stakes.len() && stakes[i].seller == seller;
        assert(stakes[i].amount >= 0);
    }
}

/// A stake just added to at `now` cannot be withdrawn before the cooldown
/// has passed: `unstake_tokens` refuses with `StakeCooldownActive`.
pub proof fn lemma_stake_locked_during_cooldown(
    before: Platform,
    after: Platform,
    seller: u64,
    token: u64,
    amount: i128,
    now: u64,
    later: u64,
)
    requires
        before.wf(),
        before.stake_error(seller, token, amount) is None,
        before.stake_amount(seller) + amount <= i128::MAX,
        after.stake_of(seller) == Some(
            Stake {
                seller,
                token,
                amount: (before.stake_amount(seller) + amount) as i128,
                staked_at: now,
                history_len: match before.stake_of(seller) {
                    Some(s) => (s.history_len + 1) as u32,
                    None => 1,
                },
            },
        ),
        later < now + STAKE_COOLDOWN,
    ensures
        after.unstake_error(seller, token, later) == Some(Error::StakeCooldownActive),
{
    let stakes = before.staking.stakes@;
    if exists|i: int| 0 <= i < stakes.len() && stakes[i].seller == seller {
        let i = choose|i: int| 0 <= i < stakes.len() && stakes[i].seller == seller;
        assert(stakes[i].amount >= 0);
    }
}

} // verus!
