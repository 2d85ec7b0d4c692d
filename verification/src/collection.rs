//! The pool: its settings and its aggregate state.

use vstd::prelude::*;
use crate::identity::Identity;

verus! {

/// A savings pool: what its members owe, how many they are, what it holds.
#[derive(Clone, Debug, PartialEq, Eq)]
pub struct Collection {
    /// The administrator, who admits members and may propose to close the
    /// pool or to adjust its settings.
    pub admin: Identity,
    /// A name for people to read.
    pub name: String,
    /// The length of the whole commitment, in seconds.
    pub duration: i64,
    /// The time between two payments of one member, in seconds.
    pub period: i64,
    /// What a member pays each period.
    pub amount_per_period: u64,
    /// How many members the pool has room for.
    pub total_members: u8,
    /// How many members the pool has.
    pub active_members: u8,
    /// What the pool holds.
    pub total_balance: u64,
    /// Whether the pool still takes payments and proposals.
    pub is_active: bool,
    /// The share of an early withdrawal that is withheld, in percent.
    pub early_withdrawal_penalty_rate: u8,
}

/// A pool as a mathematical value.
pub struct CollectionView {
    pub admin: Seq<u8>,
    pub name: Seq<char>,
    pub duration: int,
    pub period: int,
    pub amount_per_period: nat,
    pub total_members: nat,
    pub active_members: nat,
    pub total_balance: nat,
    pub is_active: bool,
    pub early_withdrawal_penalty_rate: nat,
}

impl View for Collection {
    type V = CollectionView;

    open spec fn view(&self) -> CollectionView {
        CollectionView {
            admin: self.admin@,
            name: self.name@,
            duration: self.duration as int,
            period: self.period as int,
            amount_per_period: self.amount_per_period as nat,
            total_members: self.total_members as nat,
            active_members: self.active_members as nat,
            total_balance: self.total_balance as nat,
            is_active: self.is_active,
            early_withdrawal_penalty_rate: self.early_withdrawal_penalty_rate as nat,
        }
    }
}

impl CollectionView {
    /// The pool has no more members than it has room for.
    pub open spec fn within_capacity(self) -> bool {
        self.active_members <= self.total_members
    }
}

} // verus!
