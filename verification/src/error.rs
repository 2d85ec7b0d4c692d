//! Why a handler refused a call.

use vstd::prelude::*;

verus! {

/// The reason a handler refused a call. A refused call changes no record.
#[derive(Clone, Copy, Debug, PartialEq, Eq, Structural)]
pub enum Error {
    /// The caller is not the collection's administrator.
    NotAdmin,
    /// The caller is not the member that the ledger entry belongs to.
    NotMember,
    /// The caller is not one of the committee's signers.
    NotSigner,
    /// The collection has been closed.
    CollectionInactive,
    /// Every member slot of the collection is taken.
    CollectionFull,
    /// The committee has fewer signers than the threshold asks for.
    InvalidThreshold,
    /// The member has not yet paid the full commitment.
    CannotWithdrawYet,
    /// The member has paid the full commitment and must withdraw regularly.
    EligibleForRegularWithdrawal,
    /// The member already has an early withdrawal in flight.
    EarlyWithdrawalAlreadyRequested,
    /// The member has no early withdrawal in flight.
    EarlyWithdrawalNotRequested,
    /// The number does not name a kind of proposal.
    InvalidProposalType,
    /// The payment is not the collection's fixed contribution.
    InvalidPaymentAmount,
    /// The period since the member's last payment has not elapsed.
    PaymentTooEarly,
    /// The proposal's voting window has closed.
    ProposalExpired,
    /// Fewer signers have approved than the threshold asks for.
    NotEnoughApprovals,
    /// The proposal has already been executed.
    AlreadyExecuted,
    /// The proposal has no ballot slot at the signer's position.
    NoBallotSlot,
    /// The penalty is larger than the amount withdrawn.
    PenaltyExceedsAmount,
    /// The pool holds less than the proposal withdraws.
    InsufficientBalance,
    /// A counter, a total or a timestamp would leave the range of its field.
    Overflow,
}

/// The families that the reasons for refusal fall into.
#[derive(Clone, Copy, Debug, PartialEq, Eq, Structural)]
pub enum ErrorKind {
    /// The caller is not the required administrator, member or signer.
    Authorization,
    /// The collection is not active.
    StateClosed,
    /// The member slots are exhausted.
    Capacity,
    /// A withdrawal's preconditions are unmet or already consumed.
    Eligibility,
    /// A payment came too early, or a proposal was acted on too late.
    Timing,
    /// The committee's rules are not met.
    Governance,
    /// The proposal has already been executed.
    AlreadyTerminal,
    /// The ledger's arithmetic cannot be carried out.
    Accounting,
}

impl Error {
    /// The family of `self`.
    pub open spec fn spec_kind(self) -> ErrorKind {
        match self {
            Error::NotAdmin | Error::NotMember | Error::NotSigner => ErrorKind::Authorization,
            Error::CollectionInactive => ErrorKind::StateClosed,
            Error::CollectionFull => ErrorKind::Capacity,
            Error::CannotWithdrawYet
            | Error::EligibleForRegularWithdrawal
            | Error::EarlyWithdrawalAlreadyRequested
            | Error::EarlyWithdrawalNotRequested => ErrorKind::Eligibility,
            Error::PaymentTooEarly | Error::ProposalExpired => ErrorKind::Timing,
            Error::InvalidThreshold
            | Error::InvalidProposalType
            | Error::NotEnoughApprovals
            | Error::NoBallotSlot => ErrorKind::Governance,
            Error::AlreadyExecuted => ErrorKind::AlreadyTerminal,
            Error::InvalidPaymentAmount
            | Error::PenaltyExceedsAmount
            | Error::InsufficientBalance
            | Error::Overflow => ErrorKind::Accounting,
        }
    }

    /// The family of `self`.
    #[verifier::when_used_as_spec(spec_kind)]
    pub fn kind(self) -> (k: ErrorKind)
        ensures
            k == self.spec_kind(),
    {
        match self {
            Error::NotAdmin | Error::NotMember | Error::NotSigner => ErrorKind::Authorization,
            Error::CollectionInactive => ErrorKind::StateClosed,
            Error::CollectionFull => ErrorKind::Capacity,
            Error::CannotWithdrawYet
            | Error::EligibleForRegularWithdrawal
            | Error::EarlyWithdrawalAlreadyRequested
            | Error::EarlyWithdrawalNotRequested => ErrorKind::Eligibility,
            Error::PaymentTooEarly | Error::ProposalExpired => ErrorKind::Timing,
            Error::InvalidThreshold
            | Error::InvalidProposalType
            | Error::NotEnoughApprovals
            | Error::NoBallotSlot => ErrorKind::Governance,
            Error::AlreadyExecuted => ErrorKind::AlreadyTerminal,
            Error::InvalidPaymentAmount
            | Error::PenaltyExceedsAmount
            | Error::InsufficientBalance
            | Error::Overflow => ErrorKind::Accounting,
        }
    }
}

} // verus!
