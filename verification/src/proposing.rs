//! Making proposals.
//!
//! Every proposal is made the same way. The pool must be active and the
//! proposer entitled to ask for what the proposal asks; the proposal then
//! gets its voting window and one empty ballot slot for each signer that the
//! committee has at that moment, and the committee counts one proposal more.

use vstd::prelude::*;
use crate::collection::{Collection, CollectionView};
use crate::error::Error;
use crate::identity::Identity;
use crate::member::{User, UserView};
use crate::multisig::{Multisig, MultisigView};
use crate::proposal::{Proposal, ProposalType, ProposalTypeView, ProposalView, VOTING_WINDOW};

verus! {

/// Why closing the pool or adjusting its settings cannot be proposed, if it
/// cannot: only the administrator of an active pool may propose either.
pub open spec fn admin_proposal_refusal(proposer: Seq<u8>, collection: CollectionView) -> Option<
    Error,
> {
    if !collection.is_active {
        Some(Error::CollectionInactive)
    } else if proposer != collection.admin {
        Some(Error::NotAdmin)
    } else {
        None
    }
}

/// Why a regular withdrawal cannot be proposed, if it cannot: only the
/// member may propose it, and only once the full commitment is paid.
pub open spec fn regular_withdraw_refusal(
    proposer: Seq<u8>,
    collection: CollectionView,
    user: UserView,
) -> Option<Error> {
    if !collection.is_active {
        Some(Error::CollectionInactive)
    } else if proposer != user.user {
        Some(Error::NotMember)
    } else if !user.can_withdraw {
        Some(Error::CannotWithdrawYet)
    } else {
        None
    }
}

/// Why an early withdrawal cannot be proposed, if it cannot: only the
/// member may propose it, only before the full commitment is paid, and only
/// one at a time.
pub open spec fn early_withdraw_refusal(
    proposer: Seq<u8>,
    collection: CollectionView,
    user: UserView,
) -> Option<Error> {
    if !collection.is_active {
        Some(Error::CollectionInactive)
    } else if proposer != user.user {
        Some(Error::NotMember)
    } else if user.can_withdraw {
        Some(Error::EligibleForRegularWithdrawal)
    } else if user.early_withdrawal_requested {
        Some(Error::EarlyWithdrawalAlreadyRequested)
    } else {
        None
    }
}

/// Why a proposal of the kind numbered `code` cannot be proposed, if it
/// cannot. A number above 3 names no kind of proposal.
pub open spec fn entitlement_refusal(
    code: nat,
    proposer: Seq<u8>,
    collection: CollectionView,
    user: UserView,
) -> Option<Error> {
    if !collection.is_active {
        Some(Error::CollectionInactive)
    } else if code == 0 {
        regular_withdraw_refusal(proposer, collection, user)
    } else if code == 1 || code == 2 {
        admin_proposal_refusal(proposer, collection)
    } else if code == 3 {
        early_withdraw_refusal(proposer, collection, user)
    } else {
        Some(Error::InvalidProposalType)
    }
}

/// Why a proposal cannot be opened at `now`, if it cannot: the end of its
/// voting window or the committee's count of proposals would leave the range
/// of its field.
pub open spec fn opening_refusal(multisig: MultisigView, now: int) -> Option<Error> {
    if now + VOTING_WINDOW > i64::MAX || multisig.nonce + 1 > u64::MAX {
        Some(Error::Overflow)
    } else {
        None
    }
}

/// `count` ballots, none of them cast.
pub open spec fn blank_ballots(count: nat) -> Seq<bool> {
    Seq::new(count, |i: int| false)
}

/// The proposal that `proposer` makes at `now` to a committee of
/// `signer_count` signers: open for seven days, not executed, with no vote
/// cast.
pub open spec fn opened(
    collection_key: Seq<u8>,
    signer_count: nat,
    proposer: Seq<u8>,
    now: int,
    proposal_type: ProposalTypeView,
) -> ProposalView {
    ProposalView {
        collection: collection_key,
        proposal_type,
        proposer,
        created_at: now,
        expires_at: now + VOTING_WINDOW,
        executed: false,
        approvals: blank_ballots(signer_count),
        disapprovals: blank_ballots(signer_count),
    }
}

/// The committee after one more proposal has been made.
pub open spec fn counted(multisig: MultisigView) -> MultisigView {
    MultisigView { nonce: multisig.nonce + 1, ..multisig }
}

/// What a proposal of the kind numbered `code` carries: a regular
/// withdrawal pays the proposer what the proposer has paid in; every other
/// kind carries those of the values supplied that it uses.
pub open spec fn payload(
    code: nat,
    proposer: Seq<u8>,
    user: UserView,
    withdraw_user: Seq<u8>,
    withdraw_amount: nat,
    new_duration: int,
    new_period: int,
    new_amount_per_period: nat,
    new_early_withdrawal_penalty_rate: nat,
) -> ProposalTypeView
    recommends
        code <= 3,
{
    if code == 0 {
        ProposalTypeView::RegularWithdraw {
            withdraw_user: proposer,
            withdraw_amount: user.total_paid,
        }
    } else {
        ProposalTypeView::from_parts(
            code,
            withdraw_user,
            withdraw_amount,
            new_duration,
            new_period,
            new_amount_per_period,
            new_early_withdrawal_penalty_rate,
        )
    }
}

/// `count` ballots, none of them cast.
fn blank(count: usize) -> (ballots: Vec<bool>)
    ensures
        ballots@ == blank_ballots(count as nat),
{
    let mut ballots: Vec<bool> = Vec::new();
    let mut i: usize = 0;
    while i < count
        invariant
            i <= count,
            ballots@ == blank_ballots(i as nat),
        decreases count - i,
    {
        ballots.push(false);
        i += 1;
    }
    ballots
}

/// Whether `proposer` may propose to close the pool or to adjust it.
fn admin_entitled(proposer: &Identity, collection: &Collection) -> (r: Result<(), Error>)
    ensures
        match r {
            Ok(()) => admin_proposal_refusal(proposer@, collection@) is None,
            Err(e) => admin_proposal_refusal(proposer@, collection@) == Some(e),
        },
{
    if !collection.is_active {
        Err(Error::CollectionInactive)
    } else if !proposer.same(&collection.admin) {
        Err(Error::NotAdmin)
    } else {
        Ok(())
    }
}

/// Whether `proposer` may propose a regular withdrawal from `user_account`.
fn regular_withdraw_entitled(
    proposer: &Identity,
    collection: &Collection,
    user_account: &User,
) -> (r: Result<(), Error>)
    ensures
        match r {
            Ok(()) => regular_withdraw_refusal(proposer@, collection@, user_account@) is None,
            Err(e) => regular_withdraw_refusal(proposer@, collection@, user_account@) == Some(e),
        },
{
    if !collection.is_active {
        Err(Error::CollectionInactive)
    } else if !proposer.same(&user_account.user) {
        Err(Error::NotMember)
    } else if !user_account.can_withdraw {
        Err(Error::CannotWithdrawYet)
    } else {
        Ok(())
    }
}

/// Whether `proposer` may propose an early withdrawal from `user_account`.
fn early_withdraw_entitled(
    proposer: &Identity,
    collection: &Collection,
    user_account: &User,
) -> (r: Result<(), Error>)
    ensures
        match r {
            Ok(()) => early_withdraw_refusal(proposer@, collection@, user_account@) is None,
            Err(e) => early_withdraw_refusal(proposer@, collection@, user_account@) == Some(e),
        },
{
    if !collection.is_active {
        Err(Error::CollectionInactive)
    } else if !proposer.same(&user_account.user) {
        Err(Error::NotMember)
    } else if user_account.can_withdraw {
        Err(Error::EligibleForRegularWithdrawal)
    } else if user_account.early_withdrawal_requested {
        Err(Error::EarlyWithdrawalAlreadyRequested)
    } else {
        Ok(())
    }
}

/// The steps that every proposal shares once the proposer's entitlement has
/// been established: the voting window, the blank ballots, and the
/// committee's count.
fn open_proposal(
    collection_key: Identity,
    multisig: &mut Multisig,
    proposer: Identity,
    now: i64,
    proposal_type: ProposalType,
) -> (r: Result<Proposal, Error>)
    ensures
        match r {
            Ok(proposal) => {
                &&& opening_refusal(old(multisig)@, now as int) is None
                &&& proposal@ == opened(
                    collection_key@,
                    old(multisig)@.signers.len(),
                    proposer@,
                    now as int,
                    proposal_type@,
                )
                &&& final(multisig)@ == counted(old(multisig)@)
            },
            Err(e) => {
                &&& opening_refusal(old(multisig)@, now as int) == Some(e)
                &&& *final(multisig) == *old(multisig)
            },
        },
{
    if now > i64::MAX - VOTING_WINDOW || multisig.nonce == u64::MAX {
        return Err(Error::Overflow);
    }
    let signer_count = multisig.signers.len();
    let proposal = Proposal {
        collection: collection_key,
        proposal_type,
        proposer,
        created_at: now,
        expires_at: now + VOTING_WINDOW,
        executed: false,
        approvals: blank(signer_count),
        disapprovals: blank(signer_count),
    };
    multisig.nonce = multisig.nonce + 1;
    Ok(proposal)
}

/// Proposes, at time `now`, that the member `user` take out what the member
/// has paid into the pool stored under `collection_key`.
///
/// The pool must be active, `user` must be the member of `user_account`, and
/// the member must have paid the full commitment. The proposal pays
/// `user_account.total_paid` to `user`.
pub fn propose_withdraw_handler(
    user: &Identity,
    collection: &Collection,
    collection_key: Identity,
    user_account: &User,
    multisig: &mut Multisig,
    now: i64,
) -> (r: Result<Proposal, Error>)
    ensures
        match r {
            Ok(proposal) => {
                &&& regular_withdraw_refusal(user@, collection@, user_account@) is None
                &&& opening_refusal(old(multisig)@, now as int) is None
                &&& proposal@ == opened(
                    collection_key@,
                    old(multisig)@.signers.len(),
                    user@,
                    now as int,
                    ProposalTypeView::RegularWithdraw {
                        withdraw_user: user@,
                        withdraw_amount: user_account@.total_paid,
                    },
                )
                &&& final(multisig)@ == counted(old(multisig)@)
            },
            Err(e) => {
                &&& *final(multisig) == *old(multisig)
                &&& match regular_withdraw_refusal(user@, collection@, user_account@) {
                    Some(refusal) => e == refusal,
                    None => opening_refusal(old(multisig)@, now as int) == Some(e),
                }
            },
        },
{
    regular_withdraw_entitled(user, collection, user_account)?;
    let proposal_type = ProposalType::RegularWithdraw {
        withdraw_user: *user,
        withdraw_amount: user_account.total_paid,
    };
    open_proposal(collection_key, multisig, *user, now, proposal_type)
}

/// Proposes, at time `now`, to close the pool stored under
/// `collection_key`. Only the administrator of an active pool may.
pub fn close_collection_handler(
    admin: &Identity,
    collection: &Collection,
    collection_key: Identity,
    multisig: &mut Multisig,
    now: i64,
) -> (r: Result<Proposal, Error>)
    ensures
        match r {
            Ok(proposal) => {
                &&& admin_proposal_refusal(admin@, collection@) is None
                &&& opening_refusal(old(multisig)@, now as int) is None
                &&& proposal@ == opened(
                    collection_key@,
                    old(multisig)@.signers.len(),
                    admin@,
                    now as int,
                    ProposalTypeView::CloseCollection,
                )
                &&& final(multisig)@ == counted(old(multisig)@)
            },
            Err(e) => {
                &&& *final(multisig) == *old(multisig)
                &&& match admin_proposal_refusal(admin@, collection@) {
                    Some(refusal) => e == refusal,
                    None => opening_refusal(old(multisig)@, now as int) == Some(e),
                }
            },
        },
{
    admin_entitled(admin, collection)?;
    open_proposal(collection_key, multisig, *admin, now, ProposalType::CloseCollection)
}

/// Proposes, at time `now`, new settings for the pool stored under
/// `collection_key`. Only the administrator of an active pool may.
///
/// The proposal carries the new duration, period and contribution. It
/// carries no penalty rate of the proposer's choosing: its rate is 0, and
/// that is what the pool's rate becomes when the proposal is executed.
pub fn adjust_settings_handler(
    admin: &Identity,
    collection: &Collection,
    collection_key: Identity,
    multisig: &mut Multisig,
    now: i64,
    new_duration: i64,
    new_period: i64,
    new_amount_per_period: u64,
) -> (r: Result<Proposal, Error>)
    ensures
        match r {
            Ok(proposal) => {
                &&& admin_proposal_refusal(admin@, collection@) is None
                &&& opening_refusal(old(multisig)@, now as int) is None
                &&& proposal@ == opened(
                    collection_key@,
                    old(multisig)@.signers.len(),
                    admin@,
                    now as int,
                    ProposalTypeView::AdjustSettings {
                        new_duration: new_duration as int,
                        new_period: new_period as int,
                        new_amount_per_period: new_amount_per_period as nat,
                        new_early_withdrawal_penalty_rate: 0,
                    },
                )
                &&& final(multisig)@ == counted(old(multisig)@)
            },
            Err(e) => {
                &&& *final(multisig) == *old(multisig)
                &&& match admin_proposal_refusal(admin@, collection@) {
                    Some(refusal) => e == refusal,
                    None => opening_refusal(old(multisig)@, now as int) == Some(e),
                }
            },
        },
{
    admin_entitled(admin, collection)?;
    let proposal_type = ProposalType::AdjustSettings {
        new_duration,
        new_period,
        new_amount_per_period,
        new_early_withdrawal_penalty_rate: 0,
    };
    open_proposal(collection_key, multisig, *admin, now, proposal_type)
}

/// Makes, at time `now`, a proposal of the kind numbered `proposal_type`
/// about the pool stored under `collection_key`: 0 for a regular
/// withdrawal, 1 for closing the pool, 2 for new settings, 3 for an early
/// withdrawal. Any other number is refused.
///
/// The proposer must be entitled as for that kind of proposal. Of the
/// values supplied, the proposal carries those that its kind uses: none for
/// a regular withdrawal, which pays the proposer `user_account.total_paid`,
/// and none for closing. An early withdrawal marks the member's entry, so
/// that no second one can be proposed while it is in flight; no other kind
/// touches the entry.
pub fn create_proposal_handler(
    proposer: &Identity,
    collection: &Collection,
    collection_key: Identity,
    multisig: &mut Multisig,
    user_account: &mut User,
    now: i64,
    proposal_type: u8,
    withdraw_user: Identity,
    withdraw_amount: u64,
    new_duration: i64,
    new_period: i64,
    new_amount_per_period: u64,
    new_early_withdrawal_penalty_rate: u8,
) -> (r: Result<Proposal, Error>)
    ensures
        match r {
            Ok(proposal) => {
                &&& entitlement_refusal(
                    proposal_type as nat,
                    proposer@,
                    collection@,
                    old(user_account)@,
                ) is None
                &&& opening_refusal(old(multisig)@, now as int) is None
                &&& proposal@ == opened(
                    collection_key@,
                    old(multisig)@.signers.len(),
                    proposer@,
                    now as int,
                    payload(
                        proposal_type as nat,
                        proposer@,
                        old(user_account)@,
                        withdraw_user@,
                        withdraw_amount as nat,
                        new_duration as int,
                        new_period as int,
                        new_amount_per_period as nat,
                        new_early_withdrawal_penalty_rate as nat,
                    ),
                )
                &&& proposal@.proposal_type.code() == proposal_type
                &&& final(multisig)@ == counted(old(multisig)@)
                &&& final(user_account)@ == if proposal_type == 3 {
                    UserView { early_withdrawal_requested: true, ..old(user_account)@ }
                } else {
                    old(user_account)@
                }
            },
            Err(e) => {
                &&& *final(multisig) == *old(multisig)
                &&& *final(user_account) == *old(user_account)
                &&& match entitlement_refusal(
                    proposal_type as nat,
                    proposer@,
                    collection@,
                    old(user_account)@,
                ) {
                    Some(refusal) => e == refusal,
                    None => opening_refusal(old(multisig)@, now as int) == Some(e),
                }
            },
        },
{
    if !collection.is_active {
        return Err(Error::CollectionInactive);
    }
    if proposal_type == 0 {
        propose_withdraw_handler(proposer, collection, collection_key, user_account, multisig, now)
    } else if proposal_type == 1 {
        close_collection_handler(proposer, collection, collection_key, multisig, now)
    } else if proposal_type == 2 {
        admin_entitled(proposer, collection)?;
        let settings = ProposalType::AdjustSettings {
            new_duration,
            new_period,
            new_amount_per_period,
            new_early_withdrawal_penalty_rate,
        };
        open_proposal(collection_key, multisig, *proposer, now, settings)
    } else if proposal_type == 3 {
        early_withdraw_entitled(proposer, collection, user_account)?;
        let withdrawal = ProposalType::EarlyWithdraw { withdraw_user, withdraw_amount };
        let proposal = open_proposal(collection_key, multisig, *proposer, now, withdrawal)?;
        user_account.early_withdrawal_requested = true;
        Ok(proposal)
    } else {
        Err(Error::InvalidProposalType)
    }
}

/// Blank ballots hold no approval.
pub proof fn lemma_blank_ballots_approve_nothing(count: nat)
    ensures
        blank_ballots(count).to_multiset().count(true) == 0,
    decreases count,
{
    if count == 0 {
        assert(blank_ballots(0) =~= Seq::<bool>::empty());
        crate::execution::lemma_no_ballots_no_approvals();
    } else {
        let fewer = (count - 1) as nat;
        lemma_blank_ballots_approve_nothing(fewer);
        assert(blank_ballots(count) =~= blank_ballots(fewer).push(false));
        crate::execution::lemma_one_more_ballot(blank_ballots(fewer), false);
    }
}

/// A new proposal is open and undecided: it can be acted on at the moment
/// it is made, it has a ballot slot for every signer of the committee, and
/// nobody has approved it yet. The committee keeps its signers and its
/// threshold, and counts exactly one proposal more.
pub proof fn lemma_new_proposal_is_open(
    collection_key: Seq<u8>,
    multisig: MultisigView,
    proposer: Seq<u8>,
    now: int,
    proposal_type: ProposalTypeView,
)
    ensures
        ({
            let proposal = opened(
                collection_key,
                multisig.signers.len(),
                proposer,
                now,
                proposal_type,
            );
            &&& proposal.open_at(now)
            &&& proposal.expires_at - proposal.created_at == 7 * 24 * 60 * 60
            &&& proposal.sized_for(multisig.signers.len())
            &&& proposal.sized_for(counted(multisig).signers.len())
            &&& proposal.approval_count() == 0
        }),
        counted(multisig).nonce == multisig.nonce + 1,
        counted(multisig).signers == multisig.signers,
        counted(multisig).threshold == multisig.threshold,
        counted(multisig).threshold_reachable() == multisig.threshold_reachable(),
{
    lemma_blank_ballots_approve_nothing(multisig.signers.len());
}

} // verus!
