//! A decision of the committee, in flight or resolved.

use vstd::prelude::*;
use crate::identity::Identity;

verus! {

/// How long a proposal can be voted on and executed: seven days, in seconds.
pub const VOTING_WINDOW: i64 = 7 * 24 * 60 * 60;

/// What a proposal asks for, with what it needs to be carried out.
#[derive(Clone, Copy, Debug, PartialEq, Eq)]
pub enum ProposalType {
    /// A member who has paid the full commitment takes the savings out.
    RegularWithdraw { withdraw_user: Identity, withdraw_amount: u64 },
    /// The pool stops taking payments and proposals.
    CloseCollection,
    /// The pool gets new settings.
    AdjustSettings {
        new_duration: i64,
        new_period: i64,
        new_amount_per_period: u64,
        new_early_withdrawal_penalty_rate: u8,
    },
    /// A member takes savings out before the commitment is paid, less a
    /// penalty.
    EarlyWithdraw { withdraw_user: Identity, withdraw_amount: u64 },
}

/// What a proposal asks for, as a mathematical value.
pub enum ProposalTypeView {
    RegularWithdraw { withdraw_user: Seq<u8>, withdraw_amount: nat },
    CloseCollection,
    AdjustSettings {
        new_duration: int,
        new_period: int,
        new_amount_per_period: nat,
        new_early_withdrawal_penalty_rate: nat,
    },
    EarlyWithdraw { withdraw_user: Seq<u8>, withdraw_amount: nat },
}

impl View for ProposalType {
    type V = ProposalTypeView;

    open spec fn view(&self) -> ProposalTypeView {
        match *self {
            ProposalType::RegularWithdraw { withdraw_user, withdraw_amount } => {
                ProposalTypeView::RegularWithdraw {
                    withdraw_user: withdraw_user@,
                    withdraw_amount: withdraw_amount as nat,
                }
            },
            ProposalType::CloseCollection => ProposalTypeView::CloseCollection,
            ProposalType::AdjustSettings {
                new_duration,
                new_period,
                new_amount_per_period,
                new_early_withdrawal_penalty_rate,
            } => ProposalTypeView::AdjustSettings {
                new_duration: new_duration as int,
                new_period: new_period as int,
                new_amount_per_period: new_amount_per_period as nat,
                new_early_withdrawal_penalty_rate: new_early_withdrawal_penalty_rate as nat,
            },
            ProposalType::EarlyWithdraw { withdraw_user, withdraw_amount } => {
                ProposalTypeView::EarlyWithdraw {
                    withdraw_user: withdraw_user@,
                    withdraw_amount: withdraw_amount as nat,
                }
            },
        }
    }
}

impl ProposalTypeView {
    /// What a proposal of the kind numbered `code` asks for, given the
    /// values that a stored record holds. Each kind uses its own values and
    /// no others.
    pub open spec fn from_parts(
        code: nat,
        withdraw_user: Seq<u8>,
        withdraw_amount: nat,
        new_duration: int,
        new_period: int,
        new_amount_per_period: nat,
        new_early_withdrawal_penalty_rate: nat,
    ) -> ProposalTypeView
        recommends
            code <= 3,
    {
        if code == 0 {
            ProposalTypeView::RegularWithdraw { withdraw_user, withdraw_amount }
        } else if code == 1 {
            ProposalTypeView::CloseCollection
        } else if code == 2 {
            ProposalTypeView::AdjustSettings {
                new_duration,
                new_period,
                new_amount_per_period,
                new_early_withdrawal_penalty_rate,
            }
        } else {
            ProposalTypeView::EarlyWithdraw { withdraw_user, withdraw_amount }
        }
    }

    /// The number that stands for the kind of proposal in stored records:
    /// 0 for a regular withdrawal, 1 for closing, 2 for new settings, 3 for
    /// an early withdrawal.
    pub open spec fn code(self) -> nat {
        match self {
            ProposalTypeView::RegularWithdraw { .. } => 0,
            ProposalTypeView::CloseCollection => 1,
            ProposalTypeView::AdjustSettings { .. } => 2,
            ProposalTypeView::EarlyWithdraw { .. } => 3,
        }
    }
}

impl ProposalType {
    /// The number that stands for the kind of proposal in stored records.
    pub fn code(&self) -> (c: u8)
        ensures
            c == self@.code(),
    {
        match self {
            ProposalType::RegularWithdraw { .. } => 0,
            ProposalType::CloseCollection => 1,
            ProposalType::AdjustSettings { .. } => 2,
            ProposalType::EarlyWithdraw { .. } => 3,
        }
    }

    /// What a stored record asks for: the kind numbered `code`, with those
    /// of the record's values that this kind uses. A number above 3 names no
    /// kind of proposal.
    pub fn from_parts(
        code: u8,
        withdraw_user: Identity,
        withdraw_amount: u64,
        new_duration: i64,
        new_period: i64,
        new_amount_per_period: u64,
        new_early_withdrawal_penalty_rate: u8,
    ) -> (r: Option<ProposalType>)
        ensures
            r is Some <==> code <= 3,
            r matches Some(proposal_type) ==> proposal_type@ == ProposalTypeView::from_parts(
                code as nat,
                withdraw_user@,
                withdraw_amount as nat,
                new_duration as int,
                new_period as int,
                new_amount_per_period as nat,
                new_early_withdrawal_penalty_rate as nat,
            ),
    {
        if code == 0 {
            Some(ProposalType::RegularWithdraw { withdraw_user, withdraw_amount })
        } else if code == 1 {
            Some(ProposalType::CloseCollection)
        } else if code == 2 {
            Some(
                ProposalType::AdjustSettings {
                    new_duration,
                    new_period,
                    new_amount_per_period,
                    new_early_withdrawal_penalty_rate,
                },
            )
        } else if code == 3 {
            Some(ProposalType::EarlyWithdraw { withdraw_user, withdraw_amount })
        } else {
            None
        }
    }
}

/// A proposal: what it asks for, who asked, until when it can be acted on,
/// and how each signer has voted.
#[derive(Clone, Debug, PartialEq, Eq)]
pub struct Proposal {
    /// The pool that the proposal is about.
    pub collection: Identity,
    /// What the proposal asks for.
    pub proposal_type: ProposalType,
    /// Who made the proposal.
    pub proposer: Identity,
    /// When the proposal was made.
    pub created_at: i64,
    /// From when on the proposal can no longer be voted on or executed.
    pub expires_at: i64,
    /// Whether the proposal has been carried out. Never goes back to false.
    pub executed: bool,
    /// For each signer, by ballot slot, whether the signer approves.
    pub approvals: Vec<bool>,
    /// For each signer, by ballot slot, whether the signer disapproves.
    pub disapprovals: Vec<bool>,
}

/// A proposal as a mathematical value.
pub struct ProposalView {
    pub collection: Seq<u8>,
    pub proposal_type: ProposalTypeView,
    pub proposer: Seq<u8>,
    pub created_at: int,
    pub expires_at: int,
    pub executed: bool,
    pub approvals: Seq<bool>,
    pub disapprovals: Seq<bool>,
}

impl View for Proposal {
    type V = ProposalView;

    open spec fn view(&self) -> ProposalView {
        ProposalView {
            collection: self.collection@,
            proposal_type: self.proposal_type@,
            proposer: self.proposer@,
            created_at: self.created_at as int,
            expires_at: self.expires_at as int,
            executed: self.executed,
            approvals: self.approvals@,
            disapprovals: self.disapprovals@,
        }
    }
}

impl ProposalView {
    /// Whether the proposal can still be voted on and executed at `now`.
    pub open spec fn open_at(self, now: int) -> bool {
        !self.executed && now < self.expires_at
    }

    /// How many signers approve.
    pub open spec fn approval_count(self) -> nat {
        self.approvals.to_multiset().count(true)
    }

    /// The proposal has one approval slot and one disapproval slot for each
    /// of `signer_count` signers.
    pub open spec fn sized_for(self, signer_count: nat) -> bool {
        self.approvals.len() == signer_count && self.disapprovals.len() == signer_count
    }
}

} // verus!
