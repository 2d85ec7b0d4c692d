use rotary_savings::{
    adjust_settings_handler, close_collection_handler, create_proposal_handler,
    propose_withdraw_handler, Collection, Error, Identity, Multisig, Proposal, ProposalType, User,
    VOTING_WINDOW,
};

fn proposing_key(tag: u8) -> Identity {
    Identity::new([tag; 32])
}

fn proposing_pool() -> Collection {
    Collection {
        admin: proposing_key(1),
        name: String::from("harvest"),
        duration: 90,
        period: 30,
        amount_per_period: 100,
        total_members: 5,
        active_members: 1,
        total_balance: 300,
        is_active: true,
        early_withdrawal_penalty_rate: 10,
    }
}

fn proposing_committee() -> Multisig {
    Multisig {
        collection: proposing_key(50),
        signers: vec![proposing_key(10), proposing_key(11), proposing_key(12)],
        threshold: 2,
        nonce: 4,
    }
}

fn proposing_member() -> User {
    User {
        collection: proposing_key(50),
        user: proposing_key(2),
        paid_periods: 3,
        last_paid: 90,
        total_paid: 300,
        can_withdraw: true,
        early_withdrawal_requested: false,
    }
}

fn proposing_saver() -> User {
    User { paid_periods: 1, last_paid: 30, total_paid: 100, can_withdraw: false, ..proposing_member() }
}

fn generic(
    proposer: u8,
    pool: &Collection,
    committee: &mut Multisig,
    entry: &mut User,
    now: i64,
    proposal_type: u8,
) -> Result<Proposal, Error> {
    create_proposal_handler(
        &proposing_key(proposer),
        pool,
        proposing_key(50),
        committee,
        entry,
        now,
        proposal_type,
        proposing_key(77),
        40,
        180,
        60,
        200,
        25,
    )
}

#[test]
fn the_voting_window_is_seven_days() {
    assert_eq!(VOTING_WINDOW, 604_800);
}

#[test]
fn a_member_proposes_to_withdraw_what_the_member_paid() {
    let pool = proposing_pool();
    let entry = proposing_member();
    let mut committee = proposing_committee();
    let proposal = propose_withdraw_handler(
        &proposing_key(2),
        &pool,
        proposing_key(50),
        &entry,
        &mut committee,
        1_000,
    );
    assert_eq!(
        proposal,
        Ok(Proposal {
            collection: proposing_key(50),
            proposal_type: ProposalType::RegularWithdraw {
                withdraw_user: proposing_key(2),
                withdraw_amount: 300,
            },
            proposer: proposing_key(2),
            created_at: 1_000,
            expires_at: 1_000 + 604_800,
            executed: false,
            approvals: vec![false, false, false],
            disapprovals: vec![false, false, false],
        })
    );
    assert_eq!(committee, Multisig { nonce: 5, ..proposing_committee() });
}

#[test]
fn a_withdrawal_is_proposed_by_the_member_only() {
    let pool = proposing_pool();
    let entry = proposing_member();
    let mut committee = proposing_committee();
    assert_eq!(
        propose_withdraw_handler(&proposing_key(1), &pool, proposing_key(50), &entry, &mut committee, 0),
        Err(Error::NotMember)
    );
    assert_eq!(committee, proposing_committee());
}

#[test]
fn a_withdrawal_needs_the_full_commitment() {
    let pool = proposing_pool();
    let entry = proposing_saver();
    let mut committee = proposing_committee();
    assert_eq!(
        propose_withdraw_handler(&proposing_key(2), &pool, proposing_key(50), &entry, &mut committee, 0),
        Err(Error::CannotWithdrawYet)
    );
    assert_eq!(committee, proposing_committee());
}

#[test]
fn a_closed_collection_takes_no_proposal() {
    let mut pool = proposing_pool();
    pool.is_active = false;
    let mut entry = proposing_member();
    let mut committee = proposing_committee();
    assert_eq!(
        propose_withdraw_handler(&proposing_key(2), &pool, proposing_key(50), &entry, &mut committee, 0),
        Err(Error::CollectionInactive)
    );
    assert_eq!(
        close_collection_handler(&proposing_key(1), &pool, proposing_key(50), &mut committee, 0),
        Err(Error::CollectionInactive)
    );
    assert_eq!(
        adjust_settings_handler(&proposing_key(1), &pool, proposing_key(50), &mut committee, 0, 1, 1, 1),
        Err(Error::CollectionInactive)
    );
    for proposal_type in 0..=4 {
        assert_eq!(
            generic(1, &pool, &mut committee, &mut entry, 0, proposal_type),
            Err(Error::CollectionInactive)
        );
    }
    assert_eq!(committee, proposing_committee());
    assert_eq!(entry, proposing_member());
}

#[test]
fn the_closed_collection_is_reported_before_the_stranger() {
    let mut pool = proposing_pool();
    pool.is_active = false;
    let entry = proposing_saver();
    let mut committee = proposing_committee();
    assert_eq!(
        propose_withdraw_handler(&proposing_key(9), &pool, proposing_key(50), &entry, &mut committee, 0),
        Err(Error::CollectionInactive)
    );
    assert_eq!(
        close_collection_handler(&proposing_key(9), &pool, proposing_key(50), &mut committee, 0),
        Err(Error::CollectionInactive)
    );
}

#[test]
fn the_admin_proposes_to_close() {
    let pool = proposing_pool();
    let mut committee = proposing_committee();
    let proposal =
        close_collection_handler(&proposing_key(1), &pool, proposing_key(50), &mut committee, -5);
    assert_eq!(
        proposal,
        Ok(Proposal {
            collection: proposing_key(50),
            proposal_type: ProposalType::CloseCollection,
            proposer: proposing_key(1),
            created_at: -5,
            expires_at: 604_795,
            executed: false,
            approvals: vec![false, false, false],
            disapprovals: vec![false, false, false],
        })
    );
    assert_eq!(committee.nonce, 5);
}

#[test]
fn only_the_admin_proposes_to_close_or_to_adjust() {
    let pool = proposing_pool();
    let mut committee = proposing_committee();
    assert_eq!(
        close_collection_handler(&proposing_key(2), &pool, proposing_key(50), &mut committee, 0),
        Err(Error::NotAdmin)
    );
    assert_eq!(
        adjust_settings_handler(&proposing_key(10), &pool, proposing_key(50), &mut committee, 0, 1, 1, 1),
        Err(Error::NotAdmin)
    );
    let mut entry = proposing_member();
    assert_eq!(generic(2, &pool, &mut committee, &mut entry, 0, 1), Err(Error::NotAdmin));
    assert_eq!(generic(2, &pool, &mut committee, &mut entry, 0, 2), Err(Error::NotAdmin));
    assert_eq!(committee, proposing_committee());
}

#[test]
fn the_admin_proposes_new_settings() {
    let pool = proposing_pool();
    let mut committee = proposing_committee();
    let proposal = adjust_settings_handler(
        &proposing_key(1),
        &pool,
        proposing_key(50),
        &mut committee,
        2_000,
        180,
        60,
        200,
    );
    assert_eq!(
        proposal,
        Ok(Proposal {
            collection: proposing_key(50),
            proposal_type: ProposalType::AdjustSettings {
                new_duration: 180,
                new_period: 60,
                new_amount_per_period: 200,
                new_early_withdrawal_penalty_rate: 0,
            },
            proposer: proposing_key(1),
            created_at: 2_000,
            expires_at: 606_800,
            executed: false,
            approvals: vec![false, false, false],
            disapprovals: vec![false, false, false],
        })
    );
    assert_eq!(committee.nonce, 5);
}

#[test]
fn each_proposal_gets_a_ballot_slot_for_each_signer_of_the_moment() {
    let pool = proposing_pool();
    let mut committee = proposing_committee();
    committee.signers = Vec::new();
    let empty = close_collection_handler(&proposing_key(1), &pool, proposing_key(50), &mut committee, 0)
        .unwrap();
    assert_eq!(empty.approvals, Vec::<bool>::new());
    assert_eq!(empty.disapprovals, Vec::<bool>::new());
    committee.signers = vec![proposing_key(10); 7];
    let seven = close_collection_handler(&proposing_key(1), &pool, proposing_key(50), &mut committee, 0)
        .unwrap();
    assert_eq!(seven.approvals, vec![false; 7]);
    assert_eq!(seven.disapprovals, vec![false; 7]);
    assert_eq!(committee.nonce, 6);
}

#[test]
fn every_proposal_made_counts_and_no_refused_one() {
    let pool = proposing_pool();
    let mut committee = proposing_committee();
    committee.nonce = 0;
    let mut entry = proposing_member();
    assert!(close_collection_handler(&proposing_key(1), &pool, proposing_key(50), &mut committee, 0).is_ok());
    assert_eq!(committee.nonce, 1);
    assert!(close_collection_handler(&proposing_key(2), &pool, proposing_key(50), &mut committee, 0).is_err());
    assert_eq!(committee.nonce, 1);
    assert!(adjust_settings_handler(&proposing_key(1), &pool, proposing_key(50), &mut committee, 0, 1, 1, 1).is_ok());
    assert_eq!(committee.nonce, 2);
    assert!(propose_withdraw_handler(&proposing_key(2), &pool, proposing_key(50), &entry, &mut committee, 0).is_ok());
    assert_eq!(committee.nonce, 3);
    assert!(generic(2, &pool, &mut committee, &mut entry, 0, 0).is_ok());
    assert_eq!(committee.nonce, 4);
    assert!(generic(2, &pool, &mut committee, &mut entry, 0, 9).is_err());
    assert_eq!(committee.nonce, 4);
}

#[test]
fn a_proposal_whose_window_would_end_after_the_end_of_time_is_refused() {
    let pool = proposing_pool();
    let mut committee = proposing_committee();
    assert_eq!(
        close_collection_handler(
            &proposing_key(1),
            &pool,
            proposing_key(50),
            &mut committee,
            i64::MAX - 604_799
        ),
        Err(Error::Overflow)
    );
    assert_eq!(committee, proposing_committee());
    let last = close_collection_handler(
        &proposing_key(1),
        &pool,
        proposing_key(50),
        &mut committee,
        i64::MAX - 604_800,
    )
    .unwrap();
    assert_eq!(last.expires_at, i64::MAX);
}

#[test]
fn a_committee_that_cannot_count_further_takes_no_proposal() {
    let pool = proposing_pool();
    let mut committee = proposing_committee();
    committee.nonce = u64::MAX;
    let mut entry = proposing_saver();
    assert_eq!(
        close_collection_handler(&proposing_key(1), &pool, proposing_key(50), &mut committee, 0),
        Err(Error::Overflow)
    );
    assert_eq!(generic(2, &pool, &mut committee, &mut entry, 0, 3), Err(Error::Overflow));
    assert_eq!(committee.nonce, u64::MAX);
    assert_eq!(entry, proposing_saver());
    committee.nonce = u64::MAX - 1;
    assert!(close_collection_handler(&proposing_key(1), &pool, proposing_key(50), &mut committee, 0).is_ok());
    assert_eq!(committee.nonce, u64::MAX);
}

#[test]
fn the_general_entry_makes_a_regular_withdrawal_like_the_dedicated_one() {
    let pool = proposing_pool();
    let mut entry = proposing_member();
    let mut committee = proposing_committee();
    let general = generic(2, &pool, &mut committee, &mut entry, 1_000, 0);
    let mut other = proposing_committee();
    let dedicated = propose_withdraw_handler(
        &proposing_key(2),
        &pool,
        proposing_key(50),
        &proposing_member(),
        &mut other,
        1_000,
    );
    assert!(general.is_ok());
    assert_eq!(general, dedicated);
    assert_eq!(
        general.unwrap().proposal_type,
        ProposalType::RegularWithdraw { withdraw_user: proposing_key(2), withdraw_amount: 300 }
    );
    assert_eq!(committee, other);
    assert_eq!(entry, proposing_member());
}

#[test]
fn the_general_entry_refuses_a_regular_withdrawal_as_the_dedicated_one_does() {
    let pool = proposing_pool();
    let mut committee = proposing_committee();
    let mut entry = proposing_member();
    assert_eq!(generic(3, &pool, &mut committee, &mut entry, 0, 0), Err(Error::NotMember));
    let mut entry = proposing_saver();
    assert_eq!(generic(2, &pool, &mut committee, &mut entry, 0, 0), Err(Error::CannotWithdrawYet));
    assert_eq!(committee, proposing_committee());
    assert_eq!(entry, proposing_saver());
}

#[test]
fn the_general_entry_makes_a_closing_proposal() {
    let pool = proposing_pool();
    let mut entry = proposing_member();
    let mut committee = proposing_committee();
    let proposal = generic(1, &pool, &mut committee, &mut entry, 10, 1).unwrap();
    assert_eq!(proposal.proposal_type, ProposalType::CloseCollection);
    assert_eq!(proposal.proposer, proposing_key(1));
    assert_eq!(proposal.expires_at, 604_810);
    assert_eq!(entry, proposing_member());
    assert_eq!(committee.nonce, 5);
}

#[test]
fn the_general_entry_carries_the_penalty_rate_of_new_settings() {
    let pool = proposing_pool();
    let mut entry = proposing_member();
    let mut committee = proposing_committee();
    let proposal = generic(1, &pool, &mut committee, &mut entry, 10, 2).unwrap();
    assert_eq!(
        proposal.proposal_type,
        ProposalType::AdjustSettings {
            new_duration: 180,
            new_period: 60,
            new_amount_per_period: 200,
            new_early_withdrawal_penalty_rate: 25,
        }
    );
    assert_eq!(entry, proposing_member());
}

#[test]
fn a_member_proposes_an_early_withdrawal() {
    let pool = proposing_pool();
    let mut entry = proposing_saver();
    let mut committee = proposing_committee();
    let proposal = generic(2, &pool, &mut committee, &mut entry, 500, 3);
    assert_eq!(
        proposal,
        Ok(Proposal {
            collection: proposing_key(50),
            proposal_type: ProposalType::EarlyWithdraw {
                withdraw_user: proposing_key(77),
                withdraw_amount: 40,
            },
            proposer: proposing_key(2),
            created_at: 500,
            expires_at: 605_300,
            executed: false,
            approvals: vec![false, false, false],
            disapprovals: vec![false, false, false],
        })
    );
    assert_eq!(entry, User { early_withdrawal_requested: true, ..proposing_saver() });
    assert_eq!(committee.nonce, 5);
}

#[test]
fn only_one_early_withdrawal_at_a_time() {
    let pool = proposing_pool();
    let mut entry = proposing_saver();
    let mut committee = proposing_committee();
    assert!(generic(2, &pool, &mut committee, &mut entry, 500, 3).is_ok());
    let before = entry;
    assert_eq!(
        generic(2, &pool, &mut committee, &mut entry, 501, 3),
        Err(Error::EarlyWithdrawalAlreadyRequested)
    );
    assert_eq!(entry, before);
    assert_eq!(committee.nonce, 5);
}

#[test]
fn a_member_who_can_withdraw_regularly_cannot_withdraw_early() {
    let pool = proposing_pool();
    let mut entry = proposing_member();
    let mut committee = proposing_committee();
    assert_eq!(
        generic(2, &pool, &mut committee, &mut entry, 500, 3),
        Err(Error::EligibleForRegularWithdrawal)
    );
    entry.early_withdrawal_requested = true;
    assert_eq!(
        generic(2, &pool, &mut committee, &mut entry, 500, 3),
        Err(Error::EligibleForRegularWithdrawal)
    );
    assert_eq!(committee, proposing_committee());
}

#[test]
fn an_early_withdrawal_is_proposed_by_the_member_only() {
    let pool = proposing_pool();
    let mut entry = proposing_saver();
    let mut committee = proposing_committee();
    assert_eq!(generic(1, &pool, &mut committee, &mut entry, 500, 3), Err(Error::NotMember));
    assert_eq!(entry, proposing_saver());
    assert_eq!(committee, proposing_committee());
}

#[test]
fn a_number_above_three_names_no_proposal() {
    let pool = proposing_pool();
    let mut entry = proposing_member();
    let mut committee = proposing_committee();
    assert_eq!(generic(1, &pool, &mut committee, &mut entry, 0, 4), Err(Error::InvalidProposalType));
    assert_eq!(generic(2, &pool, &mut committee, &mut entry, 0, 255), Err(Error::InvalidProposalType));
    assert_eq!(committee, proposing_committee());
    assert_eq!(entry, proposing_member());
}

#[test]
fn the_number_of_a_proposal_type_and_its_parts_go_both_ways() {
    let user = proposing_key(77);
    let regular = ProposalType::from_parts(0, user, 40, 180, 60, 200, 25);
    assert_eq!(
        regular,
        Some(ProposalType::RegularWithdraw { withdraw_user: user, withdraw_amount: 40 })
    );
    assert_eq!(regular.unwrap().code(), 0);
    let close = ProposalType::from_parts(1, user, 40, 180, 60, 200, 25);
    assert_eq!(close, Some(ProposalType::CloseCollection));
    assert_eq!(close.unwrap().code(), 1);
    let adjust = ProposalType::from_parts(2, user, 40, 180, 60, 200, 25);
    assert_eq!(
        adjust,
        Some(ProposalType::AdjustSettings {
            new_duration: 180,
            new_period: 60,
            new_amount_per_period: 200,
            new_early_withdrawal_penalty_rate: 25,
        })
    );
    assert_eq!(adjust.unwrap().code(), 2);
    let early = ProposalType::from_parts(3, user, 40, 180, 60, 200, 25);
    assert_eq!(early, Some(ProposalType::EarlyWithdraw { withdraw_user: user, withdraw_amount: 40 }));
    assert_eq!(early.unwrap().code(), 3);
    assert_eq!(ProposalType::from_parts(4, user, 40, 180, 60, 200, 25), None);
    assert_eq!(ProposalType::from_parts(255, user, 40, 180, 60, 200, 25), None);
}
