//! Carrying out a proposal that the committee has approved.

use vstd::prelude::*;
use crate::collection::{Collection, CollectionView};
use crate::error::Error;
use crate::member::{User, UserView};
use crate::multisig::{Multisig, MultisigView};
use crate::proposal::{Proposal, ProposalType, ProposalTypeView, ProposalView};

verus! {

/// The part of an early withdrawal that is withheld: `rate` percent of
/// `withdraw_amount`, rounded down.
pub open spec fn early_withdrawal_penalty(withdraw_amount: nat, rate: nat) -> nat {
    withdraw_amount * rate / 100
}

/// What is moved from the pool's custody to the member's when a proposal of
/// this kind is executed; `None` where nothing is moved.
pub open spec fn payout(collection: CollectionView, proposal_type: ProposalTypeView) -> Option<
    int,
> {
    match proposal_type {
        ProposalTypeView::RegularWithdraw { withdraw_amount, .. } => Some(withdraw_amount as int),
        ProposalTypeView::EarlyWithdraw { withdraw_amount, .. } => Some(
            withdraw_amount - early_withdrawal_penalty(
                withdraw_amount,
                collection.early_withdrawal_penalty_rate,
            ),
        ),
        ProposalTypeView::CloseCollection => None,
        ProposalTypeView::AdjustSettings { .. } => None,
    }
}

/// Why a proposal of this kind cannot be applied to the pool and the
/// member's entry, if it cannot.
pub open spec fn settlement_refusal(
    collection: CollectionView,
    proposal_type: ProposalTypeView,
    user: UserView,
) -> Option<Error> {
    match proposal_type {
        ProposalTypeView::RegularWithdraw { withdraw_amount, .. } => {
            if !user.can_withdraw {
                Some(Error::CannotWithdrawYet)
            } else if collection.total_balance < withdraw_amount {
                Some(Error::InsufficientBalance)
            } else {
                None
            }
        },
        ProposalTypeView::EarlyWithdraw { withdraw_amount, .. } => {
            if !user.early_withdrawal_requested {
                Some(Error::EarlyWithdrawalNotRequested)
            } else if early_withdrawal_penalty(
                withdraw_amount,
                collection.early_withdrawal_penalty_rate,
            ) > withdraw_amount {
                Some(Error::PenaltyExceedsAmount)
            } else if collection.total_balance < withdraw_amount {
                Some(Error::InsufficientBalance)
            } else {
                None
            }
        },
        ProposalTypeView::CloseCollection => None,
        ProposalTypeView::AdjustSettings { .. } => None,
    }
}

/// Why `execute_proposal_handler` refuses, if it does: the proposal has been
/// executed, or has expired, or lacks approvals, or cannot be applied.
pub open spec fn execute_refusal(
    collection: CollectionView,
    multisig: MultisigView,
    proposal: ProposalView,
    user: UserView,
    now: int,
) -> Option<Error> {
    if proposal.executed {
        Some(Error::AlreadyExecuted)
    } else if now >= proposal.expires_at {
        Some(Error::ProposalExpired)
    } else if proposal.approval_count() < multisig.threshold {
        Some(Error::NotEnoughApprovals)
    } else {
        settlement_refusal(collection, proposal.proposal_type, user)
    }
}

/// The pool after a proposal of this kind has been applied to it.
///
/// A withdrawal takes the whole amount withdrawn out of the balance: what is
/// paid out and, for an early withdrawal, the penalty too.
pub open spec fn settled_collection(
    collection: CollectionView,
    proposal_type: ProposalTypeView,
) -> CollectionView {
    match proposal_type {
        ProposalTypeView::RegularWithdraw { withdraw_amount, .. } => CollectionView {
            total_balance: (collection.total_balance - withdraw_amount) as nat,
            ..collection
        },
        ProposalTypeView::EarlyWithdraw { withdraw_amount, .. } => CollectionView {
            total_balance: (collection.total_balance - withdraw_amount) as nat,
            ..collection
        },
        ProposalTypeView::CloseCollection => CollectionView { is_active: false, ..collection },
        ProposalTypeView::AdjustSettings {
            new_duration,
            new_period,
            new_amount_per_period,
            new_early_withdrawal_penalty_rate,
        } => CollectionView {
            duration: new_duration,
            period: new_period,
            amount_per_period: new_amount_per_period,
            early_withdrawal_penalty_rate: new_early_withdrawal_penalty_rate,
            ..collection
        },
    }
}

/// The member's entry after a proposal of this kind has been applied: a
/// withdrawal uses up what the member has paid and every eligibility.
pub open spec fn settled_user(user: UserView, proposal_type: ProposalTypeView) -> UserView {
    match proposal_type {
        ProposalTypeView::RegularWithdraw { .. } | ProposalTypeView::EarlyWithdraw { .. } => {
            UserView {
                total_paid: 0,
                can_withdraw: false,
                early_withdrawal_requested: false,
                ..user
            }
        },
        ProposalTypeView::CloseCollection => user,
        ProposalTypeView::AdjustSettings { .. } => user,
    }
}

/// No ballot approves where there is none.
pub proof fn lemma_no_ballots_no_approvals()
    ensures
        Seq::<bool>::empty().to_multiset().count(true) == 0,
{
    let none = Seq::<bool>::empty();
    none.to_multiset_ensures();
    vstd::multiset::lemma_multiset_empty_len(none.to_multiset());
    vstd::multiset::axiom_multiset_empty(true);
}

/// One more ballot adds one approval if it approves, and none if not.
pub proof fn lemma_one_more_ballot(ballots: Seq<bool>, ballot: bool)
    ensures
        ballots.push(ballot).to_multiset().count(true) == ballots.to_multiset().count(true) + (if ballot {
            1nat
        } else {
            0nat
        }),
{
    broadcast use vstd::multiset::group_multiset_axioms;

    vstd::seq_lib::to_multiset_build(ballots, ballot);
}

/// The number of `true` entries in `ballots`.
pub fn count_approvals(ballots: &Vec<bool>) -> (count: usize)
    ensures
        count == ballots@.to_multiset().count(true),
{
    let n = ballots.len();
    let mut count: usize = 0;
    let mut i: usize = 0;
    proof {
        lemma_no_ballots_no_approvals();
        assert(ballots@.take(0) =~= Seq::<bool>::empty());
    }
    while i < n
        invariant
            n == ballots@.len(),
            i <= n,
            count <= i,
            count == ballots@.take(i as int).to_multiset().count(true),
        decreases n - i,
    {
        proof {
            lemma_one_more_ballot(ballots@.take(i as int), ballots@[i as int]);
            assert(ballots@.take(i + 1) =~= ballots@.take(i as int).push(ballots@[i as int]));
        }
        if ballots[i] {
            count += 1;
        }
        i += 1;
    }
    assert(ballots@.take(n as int) =~= ballots@);
    count
}

/// `rate` percent of `withdraw_amount`, rounded down.
fn penalty_of(withdraw_amount: u64, rate: u8) -> (penalty: u128)
    ensures
        penalty == early_withdrawal_penalty(withdraw_amount as nat, rate as nat),
{
    assert(withdraw_amount * rate <= 0xffff_ffff_ffff_ffff * 0xff) by (nonlinear_arith)
        requires
            withdraw_amount <= 0xffff_ffff_ffff_ffff,
            rate <= 0xff,
    ;
    (withdraw_amount as u128 * rate as u128) / 100
}

/// Executes `proposal` at time `now`, against the pool, its committee and
/// the ledger entry of the member concerned.
///
/// The proposal must be open (neither executed nor expired) and hold at
/// least `threshold` approvals; disapprovals do not count against it. A
/// withdrawal asks again for the member's eligibility, takes the amount
/// withdrawn out of the pool's balance and resets the member's entry; the
/// result is then `Some` amount that the caller must move from the pool's
/// custody to the member's: the whole amount for a regular withdrawal, the
/// amount less the penalty for an early one. The changes and that transfer
/// are one unit: a caller who cannot make the transfer must keep none of
/// the changes. Closing and new settings move nothing, and the result is
/// `None`. In every case the proposal ends up executed. A refused call
/// changes nothing.
pub fn execute_proposal_handler(
    collection: &mut Collection,
    multisig: &Multisig,
    proposal: &mut Proposal,
    user_account: &mut User,
    now: i64,
) -> (r: Result<Option<u64>, Error>)
    ensures
        match r {
            Ok(paid) => {
                &&& execute_refusal(
                    old(collection)@,
                    multisig@,
                    old(proposal)@,
                    old(user_account)@,
                    now as int,
                ) is None
                &&& match paid {
                    Some(amount) => payout(old(collection)@, old(proposal)@.proposal_type)
                        == Some(amount as int),
                    None => payout(old(collection)@, old(proposal)@.proposal_type) is None,
                }
                &&& final(collection)@ == settled_collection(
                    old(collection)@,
                    old(proposal)@.proposal_type,
                )
                &&& final(user_account)@ == settled_user(
                    old(user_account)@,
                    old(proposal)@.proposal_type,
                )
                &&& final(proposal)@ == (ProposalView { executed: true, ..old(proposal)@ })
            },
            Err(e) => {
                &&& execute_refusal(
                    old(collection)@,
                    multisig@,
                    old(proposal)@,
                    old(user_account)@,
                    now as int,
                ) == Some(e)
                &&& *final(collection) == *old(collection)
                &&& *final(proposal) == *old(proposal)
                &&& *final(user_account) == *old(user_account)
            },
        },
{
    if proposal.executed {
        return Err(Error::AlreadyExecuted);
    }
    if now >= proposal.expires_at {
        return Err(Error::ProposalExpired);
    }
    let approval_count = count_approvals(&proposal.approvals);
    if approval_count < multisig.threshold as usize {
        return Err(Error::NotEnoughApprovals);
    }
    let paid = match proposal.proposal_type {
        ProposalType::RegularWithdraw { withdraw_user: _, withdraw_amount } => {
            if !user_account.can_withdraw {
                return Err(Error::CannotWithdrawYet);
            }
            if collection.total_balance < withdraw_amount {
                return Err(Error::InsufficientBalance);
            }
            collection.total_balance = collection.total_balance - withdraw_amount;
            user_account.total_paid = 0;
            user_account.can_withdraw = false;
            user_account.early_withdrawal_requested = false;
            Some(withdraw_amount)
        },
        ProposalType::EarlyWithdraw { withdraw_user: _, withdraw_amount } => {
            if !user_account.early_withdrawal_requested {
                return Err(Error::EarlyWithdrawalNotRequested);
            }
            let penalty = penalty_of(withdraw_amount, collection.early_withdrawal_penalty_rate);
            if penalty > withdraw_amount as u128 {
                return Err(Error::PenaltyExceedsAmount);
            }
            if collection.total_balance < withdraw_amount {
                return Err(Error::InsufficientBalance);
            }
            let penalty = penalty as u64;
            let amount = withdraw_amount - penalty;
            collection.total_balance = collection.total_balance - penalty;
            collection.total_balance = collection.total_balance - amount;
            user_account.total_paid = 0;
            user_account.can_withdraw = false;
            user_account.early_withdrawal_requested = false;
            Some(amount)
        },
        ProposalType::CloseCollection => {
            collection.is_active = false;
            None
        },
        ProposalType::AdjustSettings {
            new_duration,
            new_period,
            new_amount_per_period,
            new_early_withdrawal_penalty_rate,
        } => {
            collection.duration = new_duration;
            collection.period = new_period;
            collection.amount_per_period = new_amount_per_period;
            collection.early_withdrawal_penalty_rate = new_early_withdrawal_penalty_rate;
            None
        },
    };
    proposal.executed = true;
    Ok(paid)
}

/// The threshold gates execution: an open proposal with fewer approvals
/// than the threshold is refused for want of approvals, whatever else it
/// holds; one with exactly as many approvals as the threshold, or more, is
/// refused only if it cannot be applied. Disapprovals play no part.
pub proof fn lemma_threshold_gates_execution(
    collection: CollectionView,
    multisig: MultisigView,
    proposal: ProposalView,
    user: UserView,
    now: int,
)
    requires
        proposal.open_at(now),
    ensures
        proposal.approval_count() < multisig.threshold ==> execute_refusal(
            collection,
            multisig,
            proposal,
            user,
            now,
        ) == Some(Error::NotEnoughApprovals),
        proposal.approval_count() >= multisig.threshold ==> execute_refusal(
            collection,
            multisig,
            proposal,
            user,
            now,
        ) == settlement_refusal(collection, proposal.proposal_type, user),
        proposal.approval_count() == multisig.threshold && settlement_refusal(
            collection,
            proposal.proposal_type,
            user,
        ) is None ==> execute_refusal(collection, multisig, proposal, user, now) is None,
{
}

/// Whether a proposal is executed does not depend on its disapprovals.
pub proof fn lemma_disapprovals_do_not_block(
    collection: CollectionView,
    multisig: MultisigView,
    proposal: ProposalView,
    user: UserView,
    now: int,
    disapprovals: Seq<bool>,
)
    ensures
        execute_refusal(
            collection,
            multisig,
            ProposalView { disapprovals, ..proposal },
            user,
            now,
        ) == execute_refusal(collection, multisig, proposal, user, now),
{
}

/// An expired proposal is inert: from the moment its voting window has
/// closed it can be neither executed nor voted on, whatever approvals it
/// holds.
pub proof fn lemma_expired_proposal_is_inert(
    collection: CollectionView,
    multisig: MultisigView,
    proposal: ProposalView,
    user: UserView,
    signer: Seq<u8>,
    now: int,
)
    requires
        now >= proposal.expires_at,
    ensures
        execute_refusal(collection, multisig, proposal, user, now) is Some,
        !proposal.executed ==> execute_refusal(collection, multisig, proposal, user, now) == Some(
            Error::ProposalExpired,
        ),
        crate::voting::vote_refusal(multisig, proposal, signer, now) is Some,
{
}

/// A proposal is executed at most once: whatever it was executed against,
/// and whatever it is offered afterwards, an executed proposal is refused
/// as already executed, and can no longer be voted on.
pub proof fn lemma_executed_proposal_is_final(
    collection: CollectionView,
    multisig: MultisigView,
    proposal: ProposalView,
    user: UserView,
    signer: Seq<u8>,
    now: int,
)
    ensures
        execute_refusal(
            collection,
            multisig,
            ProposalView { executed: true, ..proposal },
            user,
            now,
        ) == Some(Error::AlreadyExecuted),
        crate::voting::vote_refusal(
            multisig,
            ProposalView { executed: true, ..proposal },
            signer,
            now,
        ) is Some,
{
}

/// A withdrawal uses up the member's eligibility. After one has been
/// executed the member has nothing paid, cannot withdraw and has no early
/// withdrawal in flight; so no other withdrawal can be executed for the
/// member, and no regular one proposed, until the member has paid again.
pub proof fn lemma_withdrawal_consumes_eligibility(
    user: UserView,
    executed: ProposalTypeView,
    collection: CollectionView,
    next: ProposalTypeView,
    proposer: Seq<u8>,
)
    requires
        executed is RegularWithdraw || executed is EarlyWithdraw,
        next is RegularWithdraw || next is EarlyWithdraw,
    ensures
        settled_user(user, executed).total_paid == 0,
        !settled_user(user, executed).can_withdraw,
        !settled_user(user, executed).early_withdrawal_requested,
        settlement_refusal(collection, next, settled_user(user, executed)) is Some,
        crate::proposing::regular_withdraw_refusal(
            proposer,
            collection,
            settled_user(user, executed),
        ) is Some,
{
}

/// A withdrawal takes out of the pool exactly the amount withdrawn: what is
/// paid out and what is withheld as penalty together.
pub proof fn lemma_withdrawal_leaves_balance(
    collection: CollectionView,
    proposal_type: ProposalTypeView,
    user: UserView,
)
    requires
        settlement_refusal(collection, proposal_type, user) is None,
    ensures
        match proposal_type {
            ProposalTypeView::RegularWithdraw { withdraw_amount, .. } => {
                &&& payout(collection, proposal_type) == Some(withdraw_amount as int)
                &&& settled_collection(collection, proposal_type).total_balance
                    == collection.total_balance - withdraw_amount
            },
            ProposalTypeView::EarlyWithdraw { withdraw_amount, .. } => {
                let penalty = early_withdrawal_penalty(
                    withdraw_amount,
                    collection.early_withdrawal_penalty_rate,
                );
                &&& payout(collection, proposal_type) == Some(withdraw_amount - penalty)
                &&& 0 <= withdraw_amount - penalty <= withdraw_amount
                &&& settled_collection(collection, proposal_type).total_balance
                    == collection.total_balance - penalty - (withdraw_amount - penalty)
            },
            _ => {
                &&& payout(collection, proposal_type) is None
                &&& settled_collection(collection, proposal_type).total_balance
                    == collection.total_balance
            },
        },
        settled_collection(collection, proposal_type).within_capacity()
            == collection.within_capacity(),
{
}

} // verus!
