//! Recording the votes of the committee's signers.

use vstd::prelude::*;
use crate::error::Error;
use crate::identity::Identity;
use crate::index_wrapped::IndexWrappedMut;
use crate::multisig::{signer_index, signer_slot, Multisig, MultisigView};
use crate::proposal::{Proposal, ProposalView};

verus! {

/// Why `vote_on_proposal_handler` refuses, if it does: the caller is no
/// signer, or the proposal has been executed, or it has expired, or it has
/// no ballot slot for the signer.
pub open spec fn vote_refusal(
    multisig: MultisigView,
    proposal: ProposalView,
    signer: Seq<u8>,
    now: int,
) -> Option<Error> {
    match signer_slot(multisig.signers, signer) {
        None => Some(Error::NotSigner),
        Some(slot) => {
            if proposal.executed {
                Some(Error::AlreadyExecuted)
            } else if now >= proposal.expires_at {
                Some(Error::ProposalExpired)
            } else if slot >= proposal.approvals.len() || slot >= proposal.disapprovals.len() {
                Some(Error::NoBallotSlot)
            } else {
                None
            }
        },
    }
}

/// The proposal after the signer at `slot` has voted: the signer's approval
/// is `approve`, the signer's disapproval the opposite, and nothing else has
/// changed.
pub open spec fn voted(proposal: ProposalView, slot: int, approve: bool) -> ProposalView {
    ProposalView {
        approvals: proposal.approvals.update(slot, approve),
        disapprovals: proposal.disapprovals.update(slot, !approve),
        ..proposal
    }
}

/// What a vote comes to: the proposal with the vote recorded, or the reason
/// for which the vote is refused.
pub open spec fn vote_outcome(
    multisig: MultisigView,
    proposal: ProposalView,
    signer: Seq<u8>,
    now: int,
    approve: bool,
) -> Result<ProposalView, Error> {
    match vote_refusal(multisig, proposal, signer, now) {
        Some(e) => Err(e),
        None => Ok(voted(proposal, signer_slot(multisig.signers, signer).unwrap(), approve)),
    }
}

/// Records the vote of `signer` on `proposal` at time `now`.
///
/// Only a signer of the committee can vote, and only while the proposal is
/// open. The vote lands in the signer's ballot slot and replaces whatever
/// the signer voted before: after it the slot holds an approval or a
/// disapproval, never both and never neither. A refused call changes
/// nothing.
pub fn vote_on_proposal_handler(
    signer: &Identity,
    multisig: &Multisig,
    proposal: &mut Proposal,
    now: i64,
    approve: bool,
) -> (r: Result<(), Error>)
    ensures
        match r {
            Ok(()) => {
                &&& vote_outcome(multisig@, old(proposal)@, signer@, now as int, approve) == Ok::<
                    ProposalView,
                    Error,
                >(final(proposal)@)
                &&& signer_slot(multisig@.signers, signer@) matches Some(slot)
                &&& 0 <= slot < final(proposal)@.approvals.len()
                &&& slot < final(proposal)@.disapprovals.len()
                &&& final(proposal)@.approvals[slot] == approve
                &&& final(proposal)@.disapprovals[slot] == !approve
            },
            Err(e) => {
                &&& vote_outcome(multisig@, old(proposal)@, signer@, now as int, approve) == Err::<
                    ProposalView,
                    Error,
                >(e)
                &&& *final(proposal) == *old(proposal)
            },
        },
{
    let slot = match signer_index(multisig, signer) {
        None => {
            return Err(Error::NotSigner);
        },
        Some(slot) => slot,
    };
    if proposal.executed {
        return Err(Error::AlreadyExecuted);
    }
    if now >= proposal.expires_at {
        return Err(Error::ProposalExpired);
    }
    if slot >= proposal.approvals.len() || slot >= proposal.disapprovals.len() {
        return Err(Error::NoBallotSlot);
    }
    *proposal.approvals.index_wrapped_mut(slot as i128) = approve;
    *proposal.disapprovals.index_wrapped_mut(slot as i128) = !approve;
    Ok(())
}

/// Voting twice the same way is voting once: where a signer's vote is
/// accepted and the same vote is accepted again, the second leaves the
/// proposal as the first left it.
pub proof fn lemma_vote_idempotent(
    multisig: MultisigView,
    proposal: ProposalView,
    signer: Seq<u8>,
    first_time: int,
    second_time: int,
    approve: bool,
)
    requires
        vote_outcome(multisig, proposal, signer, first_time, approve) is Ok,
        vote_outcome(
            multisig,
            vote_outcome(multisig, proposal, signer, first_time, approve)->Ok_0,
            signer,
            second_time,
            approve,
        ) is Ok,
    ensures
        vote_outcome(
            multisig,
            vote_outcome(multisig, proposal, signer, first_time, approve)->Ok_0,
            signer,
            second_time,
            approve,
        ) == vote_outcome(multisig, proposal, signer, first_time, approve),
{
    let slot = signer_slot(multisig.signers, signer).unwrap();
    crate::multisig::lemma_signer_slot(multisig.signers, signer);
    let once = voted(proposal, slot, approve);
    let twice = voted(once, slot, approve);
    assert(twice.approvals =~= once.approvals);
    assert(twice.disapprovals =~= once.disapprovals);
}

/// A vote is an approval or a disapproval, never both and never neither:
/// after an accepted vote exactly one of the signer's two ballots is set,
/// and it is the one that the signer chose.
pub proof fn lemma_vote_exclusive(
    multisig: MultisigView,
    proposal: ProposalView,
    signer: Seq<u8>,
    now: int,
    approve: bool,
)
    requires
        vote_outcome(multisig, proposal, signer, now, approve) is Ok,
    ensures
        ({
            let after = vote_outcome(multisig, proposal, signer, now, approve)->Ok_0;
            let slot = signer_slot(multisig.signers, signer)->Some_0;
            &&& signer_slot(multisig.signers, signer) is Some
            &&& 0 <= slot < after.approvals.len()
            &&& slot < after.disapprovals.len()
            &&& after.approvals[slot] != after.disapprovals[slot]
            &&& after.approvals[slot] == approve
        }),
{
    crate::multisig::lemma_signer_slot(multisig.signers, signer);
}

/// A vote touches the signer's own ballot slot and no other.
pub proof fn lemma_vote_leaves_others(
    multisig: MultisigView,
    proposal: ProposalView,
    signer: Seq<u8>,
    now: int,
    approve: bool,
    other: int,
)
    requires
        vote_outcome(multisig, proposal, signer, now, approve) is Ok,
        0 <= other < proposal.approvals.len(),
        other < proposal.disapprovals.len(),
        signer_slot(multisig.signers, signer) != Some(other),
    ensures
        ({
            let after = vote_outcome(multisig, proposal, signer, now, approve)->Ok_0;
            &&& after.approvals.len() == proposal.approvals.len()
            &&& after.disapprovals.len() == proposal.disapprovals.len()
            &&& after.approvals[other] == proposal.approvals[other]
            &&& after.disapprovals[other] == proposal.disapprovals[other]
        }),
{
    crate::multisig::lemma_signer_slot(multisig.signers, signer);
}

/// A proposal with a ballot slot for every signer never lacks one: a
/// signer's vote on it is refused only because the proposal is closed.
pub proof fn lemma_every_signer_has_a_slot(
    multisig: MultisigView,
    proposal: ProposalView,
    signer: Seq<u8>,
    now: int,
)
    requires
        proposal.sized_for(multisig.signers.len()),
    ensures
        vote_refusal(multisig, proposal, signer, now) != Some(Error::NoBallotSlot),
        signer_slot(multisig.signers, signer) is Some && proposal.open_at(now) ==> vote_refusal(
            multisig,
            proposal,
            signer,
            now,
        ) is None,
{
    crate::multisig::lemma_signer_slot(multisig.signers, signer);
}

/// A vote adds no ballot slot and takes none away, and it counts once: a
/// signer's approval adds one to the approvals unless the signer approved
/// already, and a signer's disapproval takes one off if the signer had
/// approved.
pub proof fn lemma_vote_counts_once(
    multisig: MultisigView,
    proposal: ProposalView,
    signer: Seq<u8>,
    now: int,
    approve: bool,
)
    requires
        vote_outcome(multisig, proposal, signer, now, approve) is Ok,
    ensures
        ({
            let after = vote_outcome(multisig, proposal, signer, now, approve)->Ok_0;
            let slot = signer_slot(multisig.signers, signer)->Some_0;
            &&& after.approvals.len() == proposal.approvals.len()
            &&& after.disapprovals.len() == proposal.disapprovals.len()
            &&& after.approval_count() == proposal.approval_count() + (if approve {
                1int
            } else {
                0int
            }) - (if proposal.approvals[slot] {
                1int
            } else {
                0int
            })
        }),
{
    broadcast use vstd::multiset::group_multiset_axioms;

    crate::multisig::lemma_signer_slot(multisig.signers, signer);
    let slot = signer_slot(multisig.signers, signer)->Some_0;
    vstd::seq_lib::to_multiset_update(proposal.approvals, slot, approve);
    proposal.approvals.to_multiset_ensures();
    assert(proposal.approvals.contains(proposal.approvals[slot]));
}

} // verus!
