//! Paying contributions into a pool.

use vstd::prelude::*;
use crate::collection::{Collection, CollectionView};
use crate::error::Error;
use crate::identity::Identity;
use crate::member::{User, UserView};

verus! {

/// Why `pay_handler` refuses, if it does: the caller is not the member, or
/// the pool is closed, or the amount is not the pool's contribution, or the
/// period since the last payment has not elapsed, or a counter or a total
/// would leave the range of its field.
pub open spec fn pay_refusal(
    caller: Seq<u8>,
    collection: CollectionView,
    user: UserView,
    now: int,
    amount: nat,
) -> Option<Error> {
    if caller != user.user {
        Some(Error::NotMember)
    } else if !collection.is_active {
        Some(Error::CollectionInactive)
    } else if amount != collection.amount_per_period {
        Some(Error::InvalidPaymentAmount)
    } else if now - user.last_paid < collection.period {
        Some(Error::PaymentTooEarly)
    } else if user.paid_periods + 1 > u8::MAX || user.total_paid + amount > u64::MAX
        || collection.total_balance + amount > u64::MAX {
        Some(Error::Overflow)
    } else {
        None
    }
}

/// Whether `paid_periods` contributions, each standing for one period,
/// cover the pool's duration.
pub open spec fn commitment_met(collection: CollectionView, paid_periods: nat) -> bool {
    paid_periods * collection.period >= collection.duration
}

/// The member's entry after a payment of `amount` at `now`: one period and
/// `amount` more are paid, and the member can withdraw from the moment the
/// periods paid cover the pool's duration.
pub open spec fn paid_user(
    user: UserView,
    collection: CollectionView,
    now: int,
    amount: nat,
) -> UserView {
    UserView {
        paid_periods: user.paid_periods + 1,
        last_paid: now,
        total_paid: user.total_paid + amount,
        can_withdraw: user.can_withdraw || commitment_met(collection, user.paid_periods + 1),
        ..user
    }
}

/// The pool after a payment of `amount`.
pub open spec fn paid_collection(collection: CollectionView, amount: nat) -> CollectionView {
    CollectionView { total_balance: collection.total_balance + amount, ..collection }
}

/// Takes the payment of `amount` that `caller` makes at time `now`.
///
/// The caller must be the member of `user_account`, the pool active, the
/// amount exactly the pool's contribution, and at least one period must lie
/// between the member's last payment and `now`. The payment then counts as
/// one period paid, adds to what the member has paid and to what the pool
/// holds, and makes the member eligible to withdraw once the periods paid,
/// times the pool's period, reach the pool's duration. A refused call
/// changes nothing.
pub fn pay_handler(
    caller: &Identity,
    collection: &mut Collection,
    user_account: &mut User,
    now: i64,
    amount: u64,
) -> (r: Result<(), Error>)
    ensures
        match r {
            Ok(()) => {
                &&& pay_refusal(
                    caller@,
                    old(collection)@,
                    old(user_account)@,
                    now as int,
                    amount as nat,
                ) is None
                &&& final(user_account)@ == paid_user(
                    old(user_account)@,
                    old(collection)@,
                    now as int,
                    amount as nat,
                )
                &&& final(collection)@ == paid_collection(old(collection)@, amount as nat)
            },
            Err(e) => {
                &&& pay_refusal(
                    caller@,
                    old(collection)@,
                    old(user_account)@,
                    now as int,
                    amount as nat,
                ) == Some(e)
                &&& *final(collection) == *old(collection)
                &&& *final(user_account) == *old(user_account)
            },
        },
{
    if !caller.same(&user_account.user) {
        return Err(Error::NotMember);
    }
    if !collection.is_active {
        return Err(Error::CollectionInactive);
    }
    if amount != collection.amount_per_period {
        return Err(Error::InvalidPaymentAmount);
    }
    if (now as i128) - (user_account.last_paid as i128) < collection.period as i128 {
        return Err(Error::PaymentTooEarly);
    }
    if user_account.paid_periods == u8::MAX || user_account.total_paid > u64::MAX - amount
        || collection.total_balance > u64::MAX - amount {
        return Err(Error::Overflow);
    }
    let paid_periods: u8 = user_account.paid_periods + 1;
    assert(-0x8000_0000_0000_0000 * 0xff <= paid_periods * collection.period
        <= 0x7fff_ffff_ffff_ffff * 0xff) by (nonlinear_arith)
        requires
            0 <= paid_periods <= 0xff,
            -0x8000_0000_0000_0000 <= collection.period <= 0x7fff_ffff_ffff_ffff,
    ;
    let covered = (paid_periods as i128) * (collection.period as i128);
    user_account.paid_periods = paid_periods;
    user_account.last_paid = now;
    user_account.total_paid = user_account.total_paid + amount;
    collection.total_balance = collection.total_balance + amount;
    if covered >= collection.duration as i128 {
        user_account.can_withdraw = true;
    }
    Ok(())
}

/// One call of `pay_handler`: who pays, when, and how much.
pub struct Payment {
    pub caller: Seq<u8>,
    pub now: int,
    pub amount: nat,
}

/// Whether the payment is accepted for the member's entry and the pool as
/// they stand.
pub open spec fn accepted(user: UserView, collection: CollectionView, payment: Payment) -> bool {
    pay_refusal(payment.caller, collection, user, payment.now, payment.amount) is None
}

/// The member's entry and the pool after `payments` have been made one
/// after another, each taking effect if it is accepted and none if it is
/// refused.
pub open spec fn after_payments(
    user: UserView,
    collection: CollectionView,
    payments: Seq<Payment>,
) -> (UserView, CollectionView)
    decreases payments.len(),
{
    if payments.len() == 0 {
        (user, collection)
    } else {
        let (u, c) = after_payments(user, collection, payments.drop_last());
        let payment = payments.last();
        if accepted(u, c, payment) {
            (paid_user(u, c, payment.now, payment.amount), paid_collection(c, payment.amount))
        } else {
            (u, c)
        }
    }
}

/// How many of `payments`, made one after another, are accepted.
pub open spec fn accepted_count(
    user: UserView,
    collection: CollectionView,
    payments: Seq<Payment>,
) -> nat
    decreases payments.len(),
{
    if payments.len() == 0 {
        0
    } else {
        let (u, c) = after_payments(user, collection, payments.drop_last());
        accepted_count(user, collection, payments.drop_last()) + (if accepted(
            u,
            c,
            payments.last(),
        ) {
            1nat
        } else {
            0nat
        })
    }
}

/// The sum of the amounts of those of `payments`, made one after another,
/// that are accepted.
pub open spec fn accepted_amounts(
    user: UserView,
    collection: CollectionView,
    payments: Seq<Payment>,
) -> nat
    decreases payments.len(),
{
    if payments.len() == 0 {
        0
    } else {
        let (u, c) = after_payments(user, collection, payments.drop_last());
        accepted_amounts(user, collection, payments.drop_last()) + (if accepted(
            u,
            c,
            payments.last(),
        ) {
            payments.last().amount
        } else {
            0nat
        })
    }
}

/// Whether the member's commitment is met once `more` further periods are
/// paid.
pub open spec fn met_after(collection: CollectionView, user: UserView, more: nat) -> bool {
    commitment_met(collection, user.paid_periods + more)
}

/// Payments add up. After any series of payments the member has paid what
/// the member had paid before plus the sum of the accepted amounts, the
/// pool holds that much more, each accepted payment counts as one period,
/// and every accepted amount is the pool's contribution. Payments change
/// nothing else of the pool.
pub proof fn lemma_payments_add_up(
    user: UserView,
    collection: CollectionView,
    payments: Seq<Payment>,
)
    ensures
        ({
            let (u, c) = after_payments(user, collection, payments);
            let sum = accepted_amounts(user, collection, payments);
            let count = accepted_count(user, collection, payments);
            &&& u.total_paid == user.total_paid + sum
            &&& c.total_balance == collection.total_balance + sum
            &&& u.paid_periods == user.paid_periods + count
            &&& sum == count * collection.amount_per_period
            &&& count <= payments.len()
            &&& c == (CollectionView { total_balance: c.total_balance, ..collection })
            &&& c.within_capacity() == collection.within_capacity()
            &&& u.user == user.user
            &&& u.collection == user.collection
            &&& u.early_withdrawal_requested == user.early_withdrawal_requested
        }),
    decreases payments.len(),
{
    if payments.len() > 0 {
        let earlier = payments.drop_last();
        lemma_payments_add_up(user, collection, earlier);
        let count = accepted_count(user, collection, earlier);
        assert((count + 1) * collection.amount_per_period == count * collection.amount_per_period
            + collection.amount_per_period) by (nonlinear_arith);
    }
}

/// Eligibility comes exactly with the payment that completes the
/// commitment. After any series of payments the member can withdraw if and
/// only if the member could before, or one of the accepted payments was the
/// one with which the periods paid, times the pool's period, reached the
/// pool's duration.
pub proof fn lemma_eligibility_follows_commitment(
    user: UserView,
    collection: CollectionView,
    payments: Seq<Payment>,
)
    ensures
        after_payments(user, collection, payments).0.can_withdraw <==> (user.can_withdraw
            || exists|k: nat|
            1 <= k <= accepted_count(user, collection, payments) && #[trigger] met_after(
                collection,
                user,
                k,
            )),
    decreases payments.len(),
{
    if payments.len() > 0 {
        let earlier = payments.drop_last();
        lemma_eligibility_follows_commitment(user, collection, earlier);
        lemma_payments_add_up(user, collection, earlier);
        let (u, c) = after_payments(user, collection, earlier);
        let count = accepted_count(user, collection, earlier);
        if accepted(u, c, payments.last()) {
            assert(commitment_met(c, u.paid_periods + 1) == met_after(collection, user, count + 1));
        }
    }
}

/// Where the pool's period is not negative, a member who could not withdraw
/// before a series of payments, of which at least one is accepted, can
/// withdraw after it if and only if the periods then paid, times the pool's
/// period, reach the pool's duration.
pub proof fn lemma_eligible_iff_commitment_met(
    user: UserView,
    collection: CollectionView,
    payments: Seq<Payment>,
)
    requires
        collection.period >= 0,
        !user.can_withdraw,
        accepted_count(user, collection, payments) >= 1,
    ensures
        after_payments(user, collection, payments).0.can_withdraw <==> commitment_met(
            collection,
            after_payments(user, collection, payments).0.paid_periods,
        ),
{
    lemma_eligibility_follows_commitment(user, collection, payments);
    lemma_payments_add_up(user, collection, payments);
    let count = accepted_count(user, collection, payments);
    let after = after_payments(user, collection, payments).0;
    assert(met_after(collection, user, count) == commitment_met(collection, after.paid_periods));
    assert forall|k: nat| 1 <= k <= count && #[trigger] met_after(collection, user, k) implies
        commitment_met(collection, after.paid_periods) by {
        assert((user.paid_periods + k) * collection.period <= (user.paid_periods + count)
            * collection.period) by (nonlinear_arith)
            requires
                k <= count,
                collection.period >= 0,
        ;
    }
}

/// No payment is taken before its time: as long as a full period has not
/// passed since the member's last payment, be it short by a single second,
/// the payment is refused, and for that reason where nothing else is wrong
/// with it.
pub proof fn lemma_early_payment_refused(
    caller: Seq<u8>,
    collection: CollectionView,
    user: UserView,
    now: int,
    amount: nat,
)
    requires
        now < user.last_paid + collection.period,
    ensures
        pay_refusal(caller, collection, user, now, amount) is Some,
        caller == user.user && collection.is_active && amount == collection.amount_per_period
            ==> pay_refusal(caller, collection, user, now, amount) == Some(Error::PaymentTooEarly),
{
}

/// A payment is due from the moment a full period has passed: from then on
/// the member's payment of the pool's contribution to the active pool is
/// accepted, unless a counter or a total would leave the range of its
/// field.
pub proof fn lemma_due_payment_accepted(
    caller: Seq<u8>,
    collection: CollectionView,
    user: UserView,
    now: int,
    amount: nat,
)
    requires
        caller == user.user,
        collection.is_active,
        amount == collection.amount_per_period,
        now >= user.last_paid + collection.period,
        user.paid_periods < u8::MAX,
        user.total_paid + amount <= u64::MAX,
        collection.total_balance + amount <= u64::MAX,
    ensures
        pay_refusal(caller, collection, user, now, amount) is None,
{
}

} // verus!
