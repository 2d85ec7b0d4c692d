use rotary_savings::{
    add_user_handler, create_collection_handler, create_multisig_handler, create_proposal_handler,
    execute_proposal_handler, pay_handler, propose_withdraw_handler, vote_on_proposal_handler,
    Error, Identity, ProposalType,
};

const DAY: i64 = 24 * 60 * 60;

fn party(tag: u8) -> Identity {
    Identity::new([tag; 32])
}

#[test]
fn three_payments_then_an_approved_regular_withdrawal() {
    let admin = party(1);
    let member = party(2);
    let pool_key = party(50);
    let signers = vec![party(10), party(11), party(12)];

    let mut pool =
        create_collection_handler(&admin, String::from("harvest"), 90 * DAY, 30 * DAY, 100, 10, 10);
    let mut entry = add_user_handler(&admin, &mut pool, pool_key, member).unwrap();
    let mut committee =
        create_multisig_handler(&admin, &pool, pool_key, signers.clone(), 2).unwrap();
    assert_eq!(pool.active_members, 1);

    let start = 1_700_000_000;
    assert_eq!(pay_handler(&member, &mut pool, &mut entry, start, 100), Ok(()));
    assert!(!entry.can_withdraw);
    assert_eq!(
        pay_handler(&member, &mut pool, &mut entry, start + 30 * DAY - 1, 100),
        Err(Error::PaymentTooEarly)
    );
    assert_eq!(pay_handler(&member, &mut pool, &mut entry, start + 30 * DAY, 100), Ok(()));
    assert!(!entry.can_withdraw);
    assert_eq!(pay_handler(&member, &mut pool, &mut entry, start + 61 * DAY, 100), Ok(()));
    assert!(entry.can_withdraw);
    assert_eq!(entry.total_paid, 300);
    assert_eq!(entry.paid_periods, 3);
    assert_eq!(pool.total_balance, 300);

    let proposed = start + 62 * DAY;
    let mut proposal =
        propose_withdraw_handler(&member, &pool, pool_key, &entry, &mut committee, proposed)
            .unwrap();
    assert_eq!(committee.nonce, 1);
    assert_eq!(
        proposal.proposal_type,
        ProposalType::RegularWithdraw { withdraw_user: member, withdraw_amount: 300 }
    );
    assert_eq!(proposal.expires_at, proposed + 7 * DAY);

    assert_eq!(
        execute_proposal_handler(&mut pool, &committee, &mut proposal, &mut entry, proposed + 1),
        Err(Error::NotEnoughApprovals)
    );
    assert_eq!(
        vote_on_proposal_handler(&signers[0], &committee, &mut proposal, proposed + DAY, true),
        Ok(())
    );
    assert_eq!(
        execute_proposal_handler(&mut pool, &committee, &mut proposal, &mut entry, proposed + DAY),
        Err(Error::NotEnoughApprovals)
    );
    assert_eq!(
        vote_on_proposal_handler(&signers[1], &committee, &mut proposal, proposed + DAY, false),
        Ok(())
    );
    assert_eq!(
        vote_on_proposal_handler(&signers[2], &committee, &mut proposal, proposed + 2 * DAY, true),
        Ok(())
    );
    assert_eq!(proposal.approvals, vec![true, false, true]);
    assert_eq!(proposal.disapprovals, vec![false, true, false]);

    let paid =
        execute_proposal_handler(&mut pool, &committee, &mut proposal, &mut entry, proposed + 3 * DAY);
    assert_eq!(paid, Ok(Some(300)));
    assert_eq!(entry.total_paid, 0);
    assert!(!entry.can_withdraw);
    assert_eq!(pool.total_balance, 0);
    assert!(proposal.executed);

    assert_eq!(
        execute_proposal_handler(&mut pool, &committee, &mut proposal, &mut entry, proposed + 3 * DAY),
        Err(Error::AlreadyExecuted)
    );
    assert_eq!(
        propose_withdraw_handler(&member, &pool, pool_key, &entry, &mut committee, proposed + 4 * DAY),
        Err(Error::CannotWithdrawYet)
    );
}

#[test]
fn an_early_withdrawal_and_a_closing_run_their_course() {
    let admin = party(1);
    let pool_key = party(50);
    let signers = vec![party(10), party(11), party(12)];
    let mut pool =
        create_collection_handler(&admin, String::from("harvest"), 90 * DAY, 30 * DAY, 100, 10, 10);
    let mut committee =
        create_multisig_handler(&admin, &pool, pool_key, signers.clone(), 2).unwrap();
    let mut first = add_user_handler(&admin, &mut pool, pool_key, party(2)).unwrap();
    let mut second = add_user_handler(&admin, &mut pool, pool_key, party(3)).unwrap();
    for month in 1..=3 {
        assert_eq!(pay_handler(&party(2), &mut pool, &mut first, month * 30 * DAY, 100), Ok(()));
    }
    assert_eq!(pay_handler(&party(3), &mut pool, &mut second, 30 * DAY, 100), Ok(()));
    assert_eq!(pool.total_balance, 400);
    assert!(first.can_withdraw);
    assert!(!second.can_withdraw);

    let now = 100 * DAY;
    let mut early = create_proposal_handler(
        &party(3),
        &pool,
        pool_key,
        &mut committee,
        &mut second,
        now,
        3,
        party(3),
        100,
        0,
        0,
        0,
        0,
    )
    .unwrap();
    assert!(second.early_withdrawal_requested);
    assert_eq!(vote_on_proposal_handler(&signers[1], &committee, &mut early, now, true), Ok(()));
    assert_eq!(vote_on_proposal_handler(&signers[2], &committee, &mut early, now, true), Ok(()));
    assert_eq!(
        execute_proposal_handler(&mut pool, &committee, &mut early, &mut second, now),
        Ok(Some(90))
    );
    assert_eq!(pool.total_balance, 300);
    assert_eq!(second.total_paid, 0);
    assert!(!second.early_withdrawal_requested);

    let mut close = create_proposal_handler(
        &admin,
        &pool,
        pool_key,
        &mut committee,
        &mut first,
        now,
        1,
        party(0),
        0,
        0,
        0,
        0,
        0,
    )
    .unwrap();
    assert_eq!(committee.nonce, 2);
    assert_eq!(vote_on_proposal_handler(&signers[0], &committee, &mut close, now, true), Ok(()));
    assert_eq!(vote_on_proposal_handler(&signers[1], &committee, &mut close, now, true), Ok(()));
    assert_eq!(
        execute_proposal_handler(&mut pool, &committee, &mut close, &mut first, now),
        Ok(None)
    );
    assert!(!pool.is_active);
    assert_eq!(
        pay_handler(&party(2), &mut pool, &mut first, 200 * DAY, 100),
        Err(Error::CollectionInactive)
    );
    assert_eq!(
        add_user_handler(&admin, &mut pool, pool_key, party(4)),
        Err(Error::CollectionInactive)
    );
}
