//! Recurring escrows: an amount locked once and paid to the seller in a
//! fixed number of cycles, one cycle per period.

use vstd::prelude::*;

use crate::error::Error;
use crate::platform::{Platform, TokenTransfer};

verus! {

/// An amount paid out to a seller over `cycles` periods of `frequency`
/// seconds.
#[derive(Clone, Copy, Debug, PartialEq, Eq, Structural)]
pub struct RecurringEscrow {
    pub id: u64,
    pub buyer: u64,
    pub seller: u64,
    pub token: u64,
    pub total_amount: i128,
    /// Seconds between two releases.
    pub frequency: u64,
    pub cycles: u32,
    pub cycles_released: u32,
    /// Ledger time of creation or of the last release.
    pub last_release: u64,
}

/// The recurring escrows and the next identifier to hand out.
pub struct RecurringBook {
    pub escrows: Vec<RecurringEscrow>,
    pub next_id: u64,
}

/// What each cycle but the last pays: the total divided evenly, rounded down.
pub open spec fn per_cycle(r: RecurringEscrow) -> int {
    r.total_amount as int / r.cycles as int
}

/// What the next cycle of `r` pays; the last cycle also pays what rounding
/// left over, so that the cycles add up to the total.
pub open spec fn next_cycle_amount(r: RecurringEscrow) -> int {
    if r.cycles_released + 1 == r.cycles {
        r.total_amount - (r.cycles - 1) * per_cycle(r)
    } else {
        per_cycle(r)
    }
}

/// Splitting a positive total into `cycles` parts rounded down leaves a
/// last part between one part and the total.
proof fn lemma_cycle_split(total: int, cycles: int)
    requires
        total > 0,
        cycles > 0,
    ensures
        0 <= total / cycles <= total,
        0 <= (cycles - 1) * (total / cycles) <= total,
{
    assert(0 <= total / cycles <= total) by (nonlinear_arith)
        requires
            total > 0,
            cycles > 0,
    ;
    assert((total / cycles) * cycles <= total) by (nonlinear_arith)
        requires
            total > 0,
            cycles > 0,
    ;
    assert(0 <= (cycles - 1) * (total / cycles) <= (total / cycles) * cycles) by (nonlinear_arith)
        requires
            total / cycles >= 0,
            cycles > 0,
    ;
}

impl RecurringBook {
    /// Identifiers are below `next_id` and unique, and each escrow has a
    /// positive total, at least one cycle, and no more cycles released than
    /// it has.
    pub open spec fn wf(&self) -> bool {
        &&& forall|i: int|
            0 <= i < self.escrows@.len() ==> {
                let r = #[trigger] self.escrows@[i];
                &&& r.id < self.next_id
                &&& r.total_amount > 0
                &&& r.cycles > 0
                &&& r.cycles_released <= r.cycles
            }
        &&& forall|i: int, j: int|
            0 <= i < j < self.escrows@.len() ==> self.escrows@[i].id != self.escrows@[j].id
    }

    pub open spec fn is_initial(&self) -> bool {
        self.escrows@.len() == 0 && self.next_id == 1
    }

    pub fn new() -> (b: RecurringBook)
        ensures
            b.is_initial(),
            b.wf(),
    {
        RecurringBook { escrows: Vec::new(), next_id: 1 }
    }

    /// Whether a recurring escrow with `id` exists.
    pub open spec fn has_id(&self, id: u64) -> bool {
        exists|i: int| 0 <= i < self.escrows@.len() && self.escrows@[i].id == id
    }

    /// The position of the recurring escrow with `id`, when it exists.
    pub open spec fn index_of(&self, id: u64) -> int {
        choose|i: int| 0 <= i < self.escrows@.len() && self.escrows@[i].id == id
    }

    fn find(&self, id: u64) -> (res: Option<usize>)
        requires
            self.wf(),
        ensures
            res is Some <==> self.has_id(id),
            res matches Some(i) ==> i == self.index_of(id) && i < self.escrows@.len(),
    {
        let mut i: usize = 0;
        while i < self.escrows.len()
            invariant
                self.wf(),
                i <= self.escrows@.len(),
                forall|k: int| 0 <= k < i ==> self.escrows@[k].id != id,
            decreases self.escrows@.len() - i,
        {
            if self.escrows[i].id == id {
                proof {
                    let k = self.index_of(id);
                    assert(0 <= k < self.escrows@.len() && self.escrows@[k].id == id);
                    if k > i {
                        assert(self.escrows@[i as int].id != self.escrows@[k].id);
                    }
                }
                return Some(i);
            }
            i = i + 1;
        }
        None
    }
}

impl Platform {
    /// Every part of the state but the recurring escrows is as in `other`.
    pub open spec fn all_but_recurring_same(self, other: Platform) -> bool {
        &&& self.address == other.address
        &&& self.config == other.config
        &&& self.paused == other.paused
        &&& self.whitelist@ == other.whitelist@
        &&& self.min_escrow_amounts@ == other.min_escrow_amounts@
        &&& self.min_release_window == other.min_release_window
        &&& self.escrows@ == other.escrows@
        &&& self.governance == other.governance
        &&& self.staking == other.staking
    }

    /// Why `create_recurring_escrow` refuses, if it does; checks in this
    /// order.
    pub open spec fn create_recurring_error(
        &self,
        buyer: u64,
        seller: u64,
        token: u64,
        total_amount: i128,
        cycles: u32,
    ) -> Option<Error> {
        if self.paused {
            Some(Error::ContractPaused)
        } else if buyer == seller {
            Some(Error::SameBuyerSeller)
        } else if !self.accepts_token(token) {
            Some(Error::TokenNotWhitelisted)
        } else if total_amount <= 0 || cycles == 0 {
            Some(Error::AmountBelowMinimum)
        } else if self.recurring.next_id == u64::MAX {
            Some(Error::RecurringEscrowIdExhausted)
        } else {
            None
        }
    }

    /// Why `release_next_cycle` refuses, if it does; checks in this order.
    pub open spec fn release_cycle_error(&self, id: u64, now: u64) -> Option<Error> {
        if !self.recurring.has_id(id) {
            Some(Error::RecurringEscrowNotFound)
        } else {
            let r = self.recurring.escrows@[self.recurring.index_of(id)];
            if r.cycles_released >= r.cycles {
                Some(Error::InvalidEscrowState)
            } else if now < r.last_release + r.frequency {
                Some(Error::CycleNotReady)
            } else {
                None
            }
        }
    }

    fn whitelist_contains(&self, token: u64) -> (res: bool)
        ensures
            res == self.whitelist@.contains(token),
    {
        let mut i: usize = 0;
        while i < self.whitelist.len()
            invariant
                i <= self.whitelist@.len(),
                forall|k: int| 0 <= k < i ==> self.whitelist@[k] != token,
            decreases self.whitelist@.len() - i,
        {
            if self.whitelist[i] == token {
                return true;
            }
            i = i + 1;
        }
        false
    }

    /// Locks `total_amount` of `token` from `buyer` at ledger time `now`,
    /// to be paid to `seller` in `cycles` releases at least `frequency`
    /// seconds apart. On success the escrow gets the next identifier and
    /// the call asks for the transfer of the total from the buyer to the
    /// contract; on failure nothing changes.
    pub fn create_recurring_escrow(
        &mut self,
        buyer: u64,
        seller: u64,
        token: u64,
        total_amount: i128,
        frequency: u64,
        cycles: u32,
        now: u64,
    ) -> (res: Result<(RecurringEscrow, TokenTransfer), Error>)
        requires
            old(self).wf(),
        ensures
            final(self).wf(),
            final(self).all_but_recurring_same(*old(self)),
            old(self).paused ==> res == Err::<(RecurringEscrow, TokenTransfer), Error>(
                Error::ContractPaused,
            ) && final(self).recurring == old(self).recurring,
            res is Err ==> final(self).recurring == old(self).recurring,
            res matches Ok((r, t)) ==> {
                &&& !old(self).paused
                &&& buyer != seller
                &&& (old(self).whitelist@.len() == 0 || old(self).whitelist@.contains(token))
                &&& total_amount > 0
                &&& cycles > 0
                &&& r.id == old(self).recurring.next_id
                &&& !old(self).recurring.has_id(r.id)
                &&& r.cycles_released == 0
                &&& r.last_release == now
                &&& t == TokenTransfer {
                    token,
                    from: buyer,
                    to: old(self).address,
                    amount: total_amount,
                }
            },
            match old(self).create_recurring_error(buyer, seller, token, total_amount, cycles) {
                Some(e) => {
                    &&& res == Err::<(RecurringEscrow, TokenTransfer), Error>(e)
                    &&& final(self).recurring == old(self).recurring
                },
                None => {
                    let r = RecurringEscrow {
                        id: old(self).recurring.next_id,
                        buyer,
                        seller,
                        token,
                        total_amount,
                        frequency,
                        cycles,
                        cycles_released: 0,
                        last_release: now,
                    };
                    &&& res == Ok::<(RecurringEscrow, TokenTransfer), Error>(
                        (
                            r,
                            TokenTransfer {
                                token,
                                from: buyer,
                                to: old(self).address,
                                amount: total_amount,
                            },
                        ),
                    )
                    &&& final(self).recurring.escrows@ == old(self).recurring.escrows@.push(r)
                    &&& final(self).recurring.next_id == old(self).recurring.next_id + 1
                },
            },
    {
        if self.paused {
            return Err(Error::ContractPaused);
        }
        if buyer == seller {
            return Err(Error::SameBuyerSeller);
        }
        if self.whitelist.len() != 0 && !self.whitelist_contains(token) {
            return Err(Error::TokenNotWhitelisted);
        }
        if total_amount <= 0 || cycles == 0 {
            return Err(Error::AmountBelowMinimum);
        }
        if self.recurring.next_id == u64::MAX {
            return Err(Error::RecurringEscrowIdExhausted);
        }
        let r = RecurringEscrow {
            id: self.recurring.next_id,
            buyer,
            seller,
            token,
            total_amount,
            frequency,
            cycles,
            cycles_released: 0,
            last_release: now,
        };
        self.recurring.escrows.push(r);
        self.recurring.next_id = self.recurring.next_id + 1;
        Ok((r, TokenTransfer { token, from: buyer, to: self.address, amount: total_amount }))
    }

    /// Releases the next cycle of the recurring escrow with `id` at ledger
    /// time `now`: the cycle counts as released from `now`, and the call
    /// asks for the cycle's amount to be paid from the contract to the
    /// seller. On failure nothing changes.
    pub fn release_next_cycle(&mut self, id: u64, now: u64) -> (res: Result<TokenTransfer, Error>)
        requires
            old(self).wf(),
        ensures
            final(self).wf(),
            final(self).all_but_recurring_same(*old(self)),
            final(self).recurring.next_id == old(self).recurring.next_id,
            res is Err ==> final(self).recurring.escrows@ == old(self).recurring.escrows@,
            res matches Ok(t) ==> {
                let i = old(self).recurring.index_of(id);
                let r = old(self).recurring.escrows@[i];
                &&& old(self).recurring.has_id(id)
                &&& r.cycles_released < r.cycles
                &&& now >= r.last_release + r.frequency
                &&& t.token == r.token
                &&& t.from == old(self).address
                &&& t.to == r.seller
                &&& t.amount == if r.cycles_released + 1 == r.cycles {
                    r.total_amount - (r.cycles - 1) * (r.total_amount as int / r.cycles as int)
                } else {
                    r.total_amount as int / r.cycles as int
                }
                &&& final(self).recurring.escrows@[i].cycles_released == r.cycles_released + 1
                &&& final(self).recurring.escrows@[i].last_release == now
            },
            match old(self).release_cycle_error(id, now) {
                Some(e) => {
                    &&& res == Err::<TokenTransfer, Error>(e)
                    &&& final(self).recurring.escrows@ == old(self).recurring.escrows@
                },
                None => {
                    let i = old(self).recurring.index_of(id);
                    let r = old(self).recurring.escrows@[i];
                    &&& res == Ok::<TokenTransfer, Error>(
                        TokenTransfer {
                            token: r.token,
                            from: old(self).address,
                            to: r.seller,
                            amount: next_cycle_amount(r) as i128,
                        },
                    )
                    &&& final(self).recurring.escrows@ == old(self).recurring.escrows@.update(
                        i,
                        RecurringEscrow {
                            cycles_released: (r.cycles_released + 1) as u32,
                            last_release: now,
                            ..r
                        },
                    )
                },
            },
    {
        let i = match self.recurring.find(id) {
            Some(i) => i,
            None => return Err(Error::RecurringEscrowNotFound),
        };
        let r = self.recurring.escrows[i];
        if r.cycles_released >= r.cycles {
            return Err(Error::InvalidEscrowState);
        }
        if now < r.last_release || now - r.last_release < r.frequency {
            return Err(Error::CycleNotReady);
        }
        proof {
            lemma_cycle_split(r.total_amount as int, r.cycles as int);
        }
        let part = r.total_amount / (r.cycles as i128);
        let amount = if r.cycles_released + 1 == r.cycles {
            r.total_amount - ((r.cycles - 1) as i128) * part
        } else {
            part
        };
        self.recurring.escrows.set(
            i,
            RecurringEscrow { cycles_released: r.cycles_released + 1, last_release: now, ..r },
        );
        Ok(TokenTransfer { token: r.token, from: self.address, to: r.seller, amount })
    }
}

/// The cycles of a recurring escrow add up to its total: every cycle but
/// the last pays `per_cycle`, the last pays the rest, and no cycle pays a
/// negative amount.
pub proof fn lemma_cycles_add_up(r: RecurringEscrow)
    requires
        r.total_amount > 0,
        r.cycles > 0,
    ensures
        ({
            let last = RecurringEscrow { cycles_released: (r.cycles - 1) as u32, ..r };
            &&& (r.cycles - 1) * per_cycle(r) + next_cycle_amount(last) == r.total_amount
            &&& per_cycle(r) >= 0
            &&& next_cycle_amount(last) >= 0
        }),
{
    lemma_cycle_split(r.total_amount as int, r.cycles as int);
}

/// A cycle is released only once it is due: if a release at `now` is not
/// refused, the escrow exists, has cycles left, and `now` is at least one
/// period after the last release. This holds for every cycle, the last
/// included.
pub proof fn lemma_release_only_when_due(p: Platform, id: u64, now: u64)
    requires
        p.release_cycle_error(id, now) is None,
    ensures
        p.recurring.has_id(id),
        ({
            let r = p.recurring.escrows@[p.recurring.index_of(id)];
            &&& r.cycles_released < r.cycles
            &&& now >= r.last_release + r.frequency
        }),
{
}

/// A release before the period since the last release has passed is
/// refused with `CycleNotReady`, whichever cycle is next.
pub proof fn lemma_early_release_refused(p: Platform, id: u64, now: u64)
    requires
        p.recurring.has_id(id),
        p.recurring.escrows@[p.recurring.index_of(id)].cycles_released
            < p.recurring.escrows@[p.recurring.index_of(id)].cycles,
        now < p.recurring.escrows@[p.recurring.index_of(id)].last_release
            + p.recurring.escrows@[p.recurring.index_of(id)].frequency,
    ensures
        p.release_cycle_error(id, now) == Some(Error::CycleNotReady),
{
}

/// A paused platform creates no escrow of either kind.
pub proof fn lemma_paused_creates_nothing(
    p: Platform,
    buyer: u64,
    seller: u64,
    token: u64,
    amount: i128,
    order_id: u32,
    release_window: Option<u64>,
    cycles: u32,
)
    requires
        p.paused,
    ensures
        p.create_recurring_error(buyer, seller, token, amount, cycles) == Some(
            Error::ContractPaused,
        ),
        p.create_escrow_error(buyer, seller, token, amount, order_id, release_window) == Some(
            Error::ContractPaused,
        ),
{
}

/// A recurring escrow is created only on a running platform, between two
/// parties, for a positive total over at least one cycle, in an accepted
/// token.
pub proof fn lemma_recurring_creation_requirements(
    p: Platform,
    buyer: u64,
    seller: u64,
    token: u64,
    total_amount: i128,
    cycles: u32,
)
    requires
        p.create_recurring_error(buyer, seller, token, total_amount, cycles) is None,
    ensures
        !p.paused,
        buyer != seller,
        p.whitelist@.len() == 0 || p.whitelist@.contains(token),
        total_amount > 0,
        cycles > 0,
{
}

} // verus!
