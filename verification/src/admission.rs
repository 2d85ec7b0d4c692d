//! Setting up a pool and admitting its members.

use vstd::prelude::*;
use crate::collection::{Collection, CollectionView};
use crate::error::Error;
use crate::identity::Identity;
use crate::member::{User, UserView};

verus! {

/// Sets up a pool that `admin` administers. Nothing is asked of the
/// settings: the pool starts active, without members and without balance.
pub fn create_collection_handler(
    admin: &Identity,
    name: String,
    duration: i64,
    period: i64,
    amount_per_period: u64,
    total_members: u8,
    early_withdrawal_penalty_rate: u8,
) -> (collection: Collection)
    ensures
        collection@ == (CollectionView {
            admin: admin@,
            name: name@,
            duration: duration as int,
            period: period as int,
            amount_per_period: amount_per_period as nat,
            total_members: total_members as nat,
            active_members: 0,
            total_balance: 0,
            is_active: true,
            early_withdrawal_penalty_rate: early_withdrawal_penalty_rate as nat,
        }),
        collection@.within_capacity(),
{
    Collection {
        admin: *admin,
        name,
        duration,
        period,
        amount_per_period,
        total_members,
        active_members: 0,
        total_balance: 0,
        is_active: true,
        early_withdrawal_penalty_rate,
    }
}

/// Why `add_user_handler` refuses, if it does: the caller is not the
/// administrator, or the pool is full, or it is closed.
pub open spec fn add_user_refusal(admin: Seq<u8>, collection: CollectionView) -> Option<Error> {
    if admin != collection.admin {
        Some(Error::NotAdmin)
    } else if collection.active_members >= collection.total_members {
        Some(Error::CollectionFull)
    } else if !collection.is_active {
        Some(Error::CollectionInactive)
    } else {
        None
    }
}

/// Admits `new_user` to the pool stored under `collection_key`.
///
/// Only the administrator may admit, and only to an active pool with a free
/// slot. The pool then has one member more, and the result is the new
/// member's ledger entry, with nothing paid and nothing to withdraw. A
/// refused call changes nothing.
pub fn add_user_handler(
    admin: &Identity,
    collection: &mut Collection,
    collection_key: Identity,
    new_user: Identity,
) -> (r: Result<User, Error>)
    ensures
        match r {
            Ok(user) => {
                &&& add_user_refusal(admin@, old(collection)@) is None
                &&& user@ == UserView::admitted(collection_key@, new_user@)
                &&& final(collection)@ == (CollectionView {
                    active_members: old(collection)@.active_members + 1,
                    ..old(collection)@
                })
                &&& final(collection)@.within_capacity()
            },
            Err(e) => {
                &&& add_user_refusal(admin@, old(collection)@) == Some(e)
                &&& *final(collection) == *old(collection)
            },
        },
{
    if !admin.same(&collection.admin) {
        return Err(Error::NotAdmin);
    }
    if collection.active_members >= collection.total_members {
        return Err(Error::CollectionFull);
    }
    if !collection.is_active {
        return Err(Error::CollectionInactive);
    }
    collection.active_members = collection.active_members + 1;
    Ok(
        User {
            collection: collection_key,
            user: new_user,
            paid_periods: 0,
            last_paid: 0,
            total_paid: 0,
            can_withdraw: false,
            early_withdrawal_requested: false,
        },
    )
}

} // verus!
