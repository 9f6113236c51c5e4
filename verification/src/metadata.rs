//! Escrows created with an IPFS reference to their order's metadata, which
//! must be a well-formed content identifier.

use vstd::prelude::*;

use crate::error::Error;
use crate::platform::{Escrow, EscrowStatus, Platform, TokenTransfer};

verus! {

/// Whether `c` is a digit of the base58 alphabet used by IPFS (no `0`,
/// `O`, `I` or `l`).
pub open spec fn is_base58(c: u8) -> bool {
    ||| 49 <= c <= 57
    ||| 65 <= c <= 72
    ||| 74 <= c <= 78
    ||| 80 <= c <= 90
    ||| 97 <= c <= 107
    ||| 109 <= c <= 122
}

/// Whether `c` is a digit of the lower-case base32 alphabet (`a`-`z`,
/// `2`-`7`).
pub open spec fn is_base32_lower(c: u8) -> bool {
    ||| 97 <= c <= 122
    ||| 50 <= c <= 55
}

/// A version 0 content identifier: 46 base58 characters starting `Qm`.
pub open spec fn is_cid_v0(s: Seq<u8>) -> bool {
    &&& s.len() == 46
    &&& s[0] == 81
    &&& s[1] == 109
    &&& forall|i: int| 0 <= i < s.len() ==> is_base58(#[trigger] s[i])
}

/// A version 1 content identifier in base32: the multibase prefix `b`
/// followed by at least 58 lower-case base32 characters.
pub open spec fn is_cid_v1(s: Seq<u8>) -> bool {
    &&& s.len() >= 59
    &&& s[0] == 98
    &&& forall|i: int| 1 <= i < s.len() ==> is_base32_lower(#[trigger] s[i])
}

/// Whether `s` is an IPFS content identifier of either version.
pub open spec fn is_ipfs_hash(s: Seq<u8>) -> bool {
    is_cid_v0(s) || is_cid_v1(s)
}

fn base58_char(c: u8) -> (res: bool)
    ensures
        res == is_base58(c),
{
    (49 <= c && c <= 57) || (65 <= c && c <= 72) || (74 <= c && c <= 78) || (80 <= c && c <= 90)
        || (97 <= c && c <= 107) || (109 <= c && c <= 122)
}

fn base32_lower_char(c: u8) -> (res: bool)
    ensures
        res == is_base32_lower(c),
{
    (97 <= c && c <= 122) || (50 <= c && c <= 55)
}

/// Whether `hash` is an IPFS content identifier (version 0, or version 1
/// in base32).
pub fn is_valid_ipfs_hash(hash: &[u8]) -> (res: bool)
    ensures
        res == is_ipfs_hash(hash@),
        res ==> (hash@.len() == 46 && hash@[0] == 81 && hash@[1] == 109) || (hash@.len() >= 59
            && hash@[0] == 98),
        res ==> forall|i: int|
            0 <= i < hash@.len() ==> {
                let c = #[trigger] hash@[i];
                (48 <= c <= 57) || (65 <= c <= 90) || (97 <= c <= 122)
            },
{
    let n = hash.len();
    if n == 46 && hash[0] == 81 && hash[1] == 109 {
        let mut i: usize = 0;
        while i < n
            invariant
                n == hash@.len(),
                n == 46,
                hash@[0] == 81,
                hash@[1] == 109,
                i <= n,
                forall|k: int| 0 <= k < i ==> is_base58(#[trigger] hash@[k]),
            decreases n - i,
        {
            if !base58_char(hash[i]) {
                assert(!is_base58(hash@[i as int]));
                return false;
            }
            i = i + 1;
        }
        return true;
    }
    if n >= 59 && hash[0] == 98 {
        let mut i: usize = 1;
        while i < n
            invariant
                n == hash@.len(),
                n >= 59,
                hash@[0] == 98,
                1 <= i <= n,
                forall|k: int| 1 <= k < i ==> is_base32_lower(#[trigger] hash@[k]),
            decreases n - i,
        {
            if !base32_lower_char(hash[i]) {
                assert(!is_base32_lower(hash@[i as int]));
                return false;
            }
            i = i + 1;
        }
        return true;
    }
    false
}

impl Platform {
    /// As `create_escrow`, after checking the IPFS reference to the order's
    /// metadata, when one is given: a malformed one is refused with
    /// `InvalidIpfsHash` before any other check, with nothing changed.
    pub fn create_escrow_with_metadata(
        &mut self,
        buyer: u64,
        seller: u64,
        token: u64,
        amount: i128,
        order_id: u32,
        release_window: Option<u64>,
        ipfs_hash: Option<&[u8]>,
        now: u64,
    ) -> (res: Result<TokenTransfer, Error>)
        requires
            old(self).wf(),
        ensures
            final(self).wf(),
            final(self).same_settings(*old(self)),
            res is Ok && ipfs_hash is Some ==> ipfs_hash->0@.len() == 46 || ipfs_hash->0@.len()
                >= 59,
            ipfs_hash matches Some(h) && !is_ipfs_hash(h@) ==> {
                &&& res == Err::<TokenTransfer, Error>(Error::InvalidIpfsHash)
                &&& final(self).escrows@ == old(self).escrows@
            },
            !(ipfs_hash matches Some(h) && !is_ipfs_hash(h@)) ==> match old(
                self,
            ).create_escrow_error(buyer, seller, token, amount, order_id, release_window) {
                Some(e) => {
                    &&& res == Err::<TokenTransfer, Error>(e)
                    &&& final(self).escrows@ == old(self).escrows@
                },
                None => {
                    &&& res == Ok::<TokenTransfer, Error>(
                        TokenTransfer { token, from: buyer, to: old(self).address, amount },
                    )
                    &&& final(self).escrows@ == old(self).escrows@.push(
                        Escrow {
                            order_id,
                            buyer,
                            seller,
                            token,
                            amount,
                            release_window,
                            created_at: now,
                            status: EscrowStatus::Active,
                            refund_proposal: None,
                        },
                    )
                },
            },
    {
        if let Some(h) = ipfs_hash {
            if !is_valid_ipfs_hash(h) {
                return Err(Error::InvalidIpfsHash);
            }
        }
        self.create_escrow(buyer, seller, token, amount, order_id, release_window, now)
    }
}

/// Every IPFS identifier is at least 46 bytes long: exactly 46 in version
/// 0, at least 59 in base32 version 1, and made of letters and digits.
pub proof fn lemma_ipfs_hash_shape(s: Seq<u8>)
    requires
        is_ipfs_hash(s),
    ensures
        s.len() == 46 || s.len() >= 59,
        s.len() >= 46,
        forall|i: int|
            0 <= i < s.len() ==> {
                let c = #[trigger] s[i];
                (48 <= c <= 57) || (65 <= c <= 90) || (97 <= c <= 122)
            },
{
    if is_cid_v1(s) {
        assert forall|i: int| 0 <= i < s.len() implies {
            let c = #[trigger] s[i];
            (48 <= c <= 57) || (65 <= c <= 90) || (97 <= c <= 122)
        } by {
            if i >= 1 {
                assert(is_base32_lower(s[i]));
            }
        }
    } else {
        assert forall|i: int| 0 <= i < s.len() implies {
            let c = #[trigger] s[i];
            (48 <= c <= 57) || (65 <= c <= 90) || (97 <= c <= 122)
        } by {
            assert(is_base58(s[i]));
        }
    }
}

} // verus!
