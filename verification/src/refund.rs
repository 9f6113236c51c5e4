//! Settling a disputed escrow by a partial refund that one party offers
//! and the other accepts.

use vstd::prelude::*;

use crate::error::Error;
use crate::platform::{Escrow, EscrowStatus, Platform, RefundProposal, TokenTransfer};

verus! {

/// The two transfers that settle an escrow by a partial refund, both paid
/// from the contract.
#[derive(Clone, Copy, Debug, PartialEq, Eq, Structural)]
pub struct RefundPayout {
    pub to_buyer: TokenTransfer,
    pub to_seller: TokenTransfer,
}

impl Platform {
    /// Why `propose_partial_refund` refuses, if it does; checks in this
    /// order.
    pub open spec fn propose_refund_error(&self, order_id: u32, amount: i128, proposer: u64) -> Option<
        Error,
    > {
        if !self.has_order(order_id) {
            Some(Error::EscrowNotFound)
        } else if self.escrow_of(order_id).status != EscrowStatus::Disputed {
            Some(Error::InvalidEscrowState)
        } else if proposer != self.escrow_of(order_id).buyer && proposer != self.escrow_of(
            order_id,
        ).seller {
            Some(Error::Unauthorized)
        } else if amount <= 0 || amount > self.escrow_of(order_id).amount {
            Some(Error::InvalidRefundAmount)
        } else if self.escrow_of(order_id).refund_proposal is Some {
            Some(Error::ProposalAlreadyExists)
        } else {
            None
        }
    }

    /// Why `accept_partial_refund` refuses, if it does; checks in this order.
    pub open spec fn accept_refund_error(&self, order_id: u32) -> Option<Error> {
        if !self.has_order(order_id) {
            Some(Error::EscrowNotFound)
        } else if self.escrow_of(order_id).status != EscrowStatus::Disputed {
            Some(Error::InvalidEscrowState)
        } else if self.escrow_of(order_id).refund_proposal is None {
            Some(Error::ProposalNotFound)
        } else {
            None
        }
    }

    /// The transfers that settle `escrow` by refunding `refund` to its
    /// buyer: the refund to the buyer, the rest to the seller.
    pub open spec fn refund_payout_for(&self, escrow: Escrow, refund: i128) -> RefundPayout {
        RefundPayout {
            to_buyer: TokenTransfer {
                token: escrow.token,
                from: self.address,
                to: escrow.buyer,
                amount: refund,
            },
            to_seller: TokenTransfer {
                token: escrow.token,
                from: self.address,
                to: escrow.seller,
                amount: (escrow.amount - refund) as i128,
            },
        }
    }

    /// Offers to settle the disputed escrow with `order_id` by refunding
    /// `amount` to its buyer; `proposer` is its buyer or seller. On failure
    /// nothing changes.
    pub fn propose_partial_refund(&mut self, order_id: u32, amount: i128, proposer: u64) -> (res:
        Result<(), Error>)
        requires
            old(self).wf(),
        ensures
            final(self).wf(),
            final(self).same_settings(*old(self)),
            res is Ok ==> {
                let e = old(self).escrow_of(order_id);
                &&& old(self).has_order(order_id)
                &&& e.status == EscrowStatus::Disputed
                &&& (proposer == e.buyer || proposer == e.seller)
                &&& 0 < amount <= e.amount
                &&& e.refund_proposal is None
            },
            match old(self).propose_refund_error(order_id, amount, proposer) {
                Some(e) => {
                    &&& res == Err::<(), Error>(e)
                    &&& final(self).escrows@ == old(self).escrows@
                },
                None => {
                    &&& res is Ok
                    &&& final(self).escrows@ == old(self).escrows@.update(
                        old(self).escrow_index(order_id),
                        Escrow {
                            refund_proposal: Some(RefundProposal { amount, proposer }),
                            ..old(self).escrow_of(order_id)
                        },
                    )
                },
            },
    {
        let i = match self.find_escrow(order_id) {
            Some(i) => i,
            None => return Err(Error::EscrowNotFound),
        };
        let escrow = self.escrows[i];
        if escrow.status != EscrowStatus::Disputed {
            return Err(Error::InvalidEscrowState);
        }
        if proposer != escrow.buyer && proposer != escrow.seller {
            return Err(Error::Unauthorized);
        }
        if amount <= 0 || amount > escrow.amount {
            return Err(Error::InvalidRefundAmount);
        }
        if escrow.refund_proposal.is_some() {
            return Err(Error::ProposalAlreadyExists);
        }
        self.escrows.set(
            i,
            Escrow { refund_proposal: Some(RefundProposal { amount, proposer }), ..escrow },
        );
        Ok(())
    }

    /// Accepts the refund offered for the disputed escrow with `order_id`:
    /// the escrow becomes refunded and the call asks for the refund to be
    /// paid to the buyer and the rest to the seller. On failure nothing
    /// changes.
    pub fn accept_partial_refund(&mut self, order_id: u32) -> (res: Result<RefundPayout, Error>)
        requires
            old(self).wf(),
        ensures
            final(self).wf(),
            final(self).same_settings(*old(self)),
            res matches Ok(payout) ==> {
                let e = old(self).escrow_of(order_id);
                &&& old(self).has_order(order_id)
                &&& e.status == EscrowStatus::Disputed
                &&& e.refund_proposal matches Some(r) && payout.to_buyer.amount == r.amount
                &&& payout.to_buyer.amount + payout.to_seller.amount == e.amount
                &&& payout.to_buyer.to == e.buyer
                &&& payout.to_seller.to == e.seller
                &&& payout.to_buyer.from == old(self).address
                &&& payout.to_seller.from == old(self).address
            },
            match old(self).accept_refund_error(order_id) {
                Some(e) => {
                    &&& res == Err::<RefundPayout, Error>(e)
                    &&& final(self).escrows@ == old(self).escrows@
                },
                None => {
                    &&& res == Ok::<RefundPayout, Error>(
                        old(self).refund_payout_for(
                            old(self).escrow_of(order_id),
                            old(self).escrow_of(order_id).refund_proposal->0.amount,
                        ),
                    )
                    &&& final(self).escrows@ == old(self).escrows@.update(
                        old(self).escrow_index(order_id),
                        Escrow { status: EscrowStatus::Refunded, ..old(self).escrow_of(order_id) },
                    )
                },
            },
    {
        let i = match self.find_escrow(order_id) {
            Some(i) => i,
            None => return Err(Error::EscrowNotFound),
        };
        let escrow = self.escrows[i];
        if escrow.status != EscrowStatus::Disputed {
            return Err(Error::InvalidEscrowState);
        }
        let refund = match escrow.refund_proposal {
            Some(r) => r.amount,
            None => return Err(Error::ProposalNotFound),
        };
        self.escrows.set(i, Escrow { status: EscrowStatus::Refunded, ..escrow });
        Ok(RefundPayout {
            to_buyer: TokenTransfer {
                token: escrow.token,
                from: self.address,
                to: escrow.buyer,
                amount: refund,
            },
            to_seller: TokenTransfer {
                token: escrow.token,
                from: self.address,
                to: escrow.seller,
                amount: escrow.amount - refund,
            },
        })
    }
}

/// A refund payout pays out exactly the escrowed amount, in two
/// non-negative parts.
pub proof fn lemma_refund_conserves_amount(p: Platform, order_id: u32)
    requires
        p.wf(),
        p.accept_refund_error(order_id) is None,
    ensures
        ({
            let e = p.escrow_of(order_id);
            let payout = p.refund_payout_for(e, e.refund_proposal->0.amount);
            &&& payout.to_buyer.amount + payout.to_seller.amount == e.amount
            &&& payout.to_buyer.amount > 0
            &&& payout.to_seller.amount >= 0
        }),
{
    let i = p.escrow_index(order_id);
    assert(0 <= i < p.escrows@.len() && p.escrows@[i].order_id == order_id);
    assert(p.escrows@[i].refund_proposal is Some);
}

} // verus!
