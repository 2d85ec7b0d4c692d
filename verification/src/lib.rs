//! Pooled savings governed by a committee of signers.
//!
//! Members pay fixed contributions into a shared pool at a fixed cadence.
//! Every disbursement and every change of the pool's settings is a proposal
//! that the committee votes on and that is applied only once enough signers
//! have approved it.

pub mod admission;
pub mod collection;
pub mod contribution;
pub mod error;
pub mod execution;
pub mod identity;
pub mod index_wrapped;
pub mod member;
pub mod multisig;
pub mod proposal;
pub mod proposing;
pub mod voting;

pub use admission::{add_user_handler, create_collection_handler};
pub use collection::{Collection, CollectionView};
pub use contribution::pay_handler;
pub use error::{Error, ErrorKind};
pub use execution::{count_approvals, execute_proposal_handler};
pub use identity::Identity;
pub use index_wrapped::{IndexWrapped, IndexWrappedMut};
pub use member::{User, UserView};
pub use multisig::{create_multisig_handler, signer_index, Multisig, MultisigView};
pub use proposal::{Proposal, ProposalType, ProposalTypeView, ProposalView, VOTING_WINDOW};
pub use proposing::{
    adjust_settings_handler, close_collection_handler, create_proposal_handler,
    propose_withdraw_handler,
};
pub use voting::vote_on_proposal_handler;
