//! The committee that governs a pool.

use vstd::prelude::*;
use crate::collection::Collection;
use crate::error::Error;
use crate::identity::Identity;

verus! {

/// The signers of a pool and how many of them must approve a proposal.
#[derive(Clone, Debug, PartialEq, Eq)]
pub struct Multisig {
    /// The pool that the committee governs.
    pub collection: Identity,
    /// The signers. A signer's position here is the signer's ballot slot in
    /// every proposal.
    pub signers: Vec<Identity>,
    /// How many approvals a proposal needs.
    pub threshold: u8,
    /// How many proposals have been created. The storage layer derives the
    /// slot of the next proposal from it.
    pub nonce: u64,
}

/// A committee as a mathematical value.
pub struct MultisigView {
    pub collection: Seq<u8>,
    pub signers: Seq<Seq<u8>>,
    pub threshold: nat,
    pub nonce: nat,
}

impl MultisigView {
    /// The signers can reach the threshold: it asks for no more approvals
    /// than there are signers.
    pub open spec fn threshold_reachable(self) -> bool {
        self.threshold <= self.signers.len()
    }
}

/// The identities of `signers`, each as its bytes.
pub open spec fn identities(signers: Seq<Identity>) -> Seq<Seq<u8>> {
    Seq::new(signers.len(), |i: int| signers[i]@)
}

impl View for Multisig {
    type V = MultisigView;

    open spec fn view(&self) -> MultisigView {
        MultisigView {
            collection: self.collection@,
            signers: identities(self.signers@),
            threshold: self.threshold as nat,
            nonce: self.nonce as nat,
        }
    }
}

/// The ballot slot of `who`: the first position at which `who` stands among
/// `signers`, if any.
pub open spec fn signer_slot(signers: Seq<Seq<u8>>, who: Seq<u8>) -> Option<int>
    decreases signers.len(),
{
    if signers.len() == 0 {
        None
    } else if signers[0] == who {
        Some(0)
    } else {
        match signer_slot(signers.drop_first(), who) {
            Some(i) => Some(i + 1),
            None => None,
        }
    }
}

/// `signer_slot` finds the first position of `who`, and finds none exactly
/// when `who` is no signer.
pub proof fn lemma_signer_slot(signers: Seq<Seq<u8>>, who: Seq<u8>)
    ensures
        match signer_slot(signers, who) {
            Some(i) => {
                &&& 0 <= i < signers.len()
                &&& signers[i] == who
                &&& forall|j: int| 0 <= j < i ==> signers[j] != who
            },
            None => forall|j: int| 0 <= j < signers.len() ==> signers[j] != who,
        },
    decreases signers.len(),
{
    if signers.len() == 0 {
    } else if signers[0] == who {
    } else {
        let rest = signers.drop_first();
        lemma_signer_slot(rest, who);
        match signer_slot(rest, who) {
            Some(i) => {
                assert(signers[i + 1] == rest[i]);
                assert forall|j: int| 0 <= j < i + 1 implies signers[j] != who by {
                    if j > 0 {
                        assert(signers[j] == rest[j - 1]);
                    }
                }
            },
            None => {
                assert forall|j: int| 0 <= j < signers.len() implies signers[j] != who by {
                    if j > 0 {
                        assert(signers[j] == rest[j - 1]);
                    }
                }
            },
        }
    }
}

/// A position that holds `who` and has no `who` before it is the ballot
/// slot of `who`.
pub proof fn lemma_first_match_is_slot(signers: Seq<Seq<u8>>, who: Seq<u8>, i: int)
    requires
        0 <= i < signers.len(),
        signers[i] == who,
        forall|j: int| 0 <= j < i ==> signers[j] != who,
    ensures
        signer_slot(signers, who) == Some(i),
{
    lemma_signer_slot(signers, who);
}

/// Where nobody among `signers` is `who`, `who` has no ballot slot.
pub proof fn lemma_no_match_no_slot(signers: Seq<Seq<u8>>, who: Seq<u8>)
    requires
        forall|j: int| 0 <= j < signers.len() ==> signers[j] != who,
    ensures
        signer_slot(signers, who) is None,
{
    lemma_signer_slot(signers, who);
}

/// The ballot slot of `who` in `multisig`: the first position at which
/// `who` stands among the signers, or `None` for a stranger.
pub fn signer_index(multisig: &Multisig, who: &Identity) -> (slot: Option<usize>)
    ensures
        match slot {
            Some(i) => signer_slot(multisig@.signers, who@) == Some(i as int),
            None => signer_slot(multisig@.signers, who@) is None,
        },
{
    let n = multisig.signers.len();
    let mut i: usize = 0;
    while i < n
        invariant
            n == multisig.signers@.len(),
            i <= n,
            forall|j: int| 0 <= j < i ==> multisig@.signers[j] != who@,
        decreases n - i,
    {
        if multisig.signers[i].same(who) {
            proof {
                lemma_first_match_is_slot(multisig@.signers, who@, i as int);
            }
            return Some(i);
        }
        i += 1;
    }
    proof {
        lemma_no_match_no_slot(multisig@.signers, who@);
    }
    None
}

/// What `create_multisig_handler` refuses, and why.
pub open spec fn create_multisig_refusal(
    admin: Seq<u8>,
    collection: crate::collection::CollectionView,
    signers: Seq<Seq<u8>>,
    threshold: nat,
) -> Option<Error> {
    if admin != collection.admin {
        Some(Error::NotAdmin)
    } else if threshold > signers.len() {
        Some(Error::InvalidThreshold)
    } else {
        None
    }
}

/// Sets up the committee of the pool stored under `collection_key`.
///
/// Only the pool's administrator may do so, and the threshold must be one
/// that the signers can reach. The new committee has created no proposal.
pub fn create_multisig_handler(
    admin: &Identity,
    collection: &Collection,
    collection_key: Identity,
    signers: Vec<Identity>,
    threshold: u8,
) -> (r: Result<Multisig, Error>)
    ensures
        match r {
            Ok(multisig) => {
                &&& create_multisig_refusal(
                    admin@,
                    collection@,
                    identities(signers@),
                    threshold as nat,
                ) is None
                &&& multisig@ == (MultisigView {
                    collection: collection_key@,
                    signers: identities(signers@),
                    threshold: threshold as nat,
                    nonce: 0,
                })
                &&& multisig@.threshold_reachable()
            },
            Err(e) => create_multisig_refusal(
                admin@,
                collection@,
                identities(signers@),
                threshold as nat,
            ) == Some(e),
        },
{
    if !admin.same(&collection.admin) {
        return Err(Error::NotAdmin);
    }
    if signers.len() < threshold as usize {
        return Err(Error::InvalidThreshold);
    }
    Ok(Multisig { collection: collection_key, signers, threshold, nonce: 0 })
}

} // verus!
