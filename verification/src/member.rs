//! One member's entry in the ledger of a pool.

use vstd::prelude::*;
use crate::identity::Identity;

verus! {

/// What one member has paid into a pool, and what the member may ask for.
#[derive(Clone, Copy, Debug, PartialEq, Eq)]
pub struct User {
    /// The pool that the entry belongs to.
    pub collection: Identity,
    /// The member.
    pub user: Identity,
    /// How many contributions the member has made.
    pub paid_periods: u8,
    /// When the member last paid.
    pub last_paid: i64,
    /// What the member has paid in all; what a regular withdrawal pays out.
    pub total_paid: u64,
    /// Whether the member has paid the full commitment.
    pub can_withdraw: bool,
    /// Whether the member has an early withdrawal in flight.
    pub early_withdrawal_requested: bool,
}

/// A ledger entry as a mathematical value.
pub struct UserView {
    pub collection: Seq<u8>,
    pub user: Seq<u8>,
    pub paid_periods: nat,
    pub last_paid: int,
    pub total_paid: nat,
    pub can_withdraw: bool,
    pub early_withdrawal_requested: bool,
}

impl View for User {
    type V = UserView;

    open spec fn view(&self) -> UserView {
        UserView {
            collection: self.collection@,
            user: self.user@,
            paid_periods: self.paid_periods as nat,
            last_paid: self.last_paid as int,
            total_paid: self.total_paid as nat,
            can_withdraw: self.can_withdraw,
            early_withdrawal_requested: self.early_withdrawal_requested,
        }
    }
}

impl UserView {
    /// The entry of a member who has just been admitted: nothing paid,
    /// nothing to withdraw, nothing requested.
    pub open spec fn admitted(collection: Seq<u8>, user: Seq<u8>) -> UserView {
        UserView {
            collection,
            user,
            paid_periods: 0,
            last_paid: 0,
            total_paid: 0,
            can_withdraw: false,
            early_withdrawal_requested: false,
        }
    }
}

} // verus!
