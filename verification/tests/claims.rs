use gadgetguard::{
    deposit, finalize_claim, initialize_pool, join_pool, submit_claim, vote_claim, Claim,
    ClaimStatus, ClaimType, Direction, ErrorCode, Member, Pool, Pubkey, Transfer,
};

fn who(n: u8) -> Pubkey {
    Pubkey::new([n; 32])
}

fn pool_with(quorum: u8, approval_ratio: u16) -> Pool {
    initialize_pool(who(1), who(2), 5000, 3600, quorum, approval_ratio).unwrap()
}

fn joined(pool: &mut Pool, n: u8, amount: u64) -> Member {
    let mut member = join_pool(pool, who(100), who(n)).unwrap();
    if amount > 0 {
        deposit(pool, &mut member, amount).unwrap();
    }
    member
}

fn submitted(pool: &mut Pool, claimant: &Member, amount: u64, now: i64) -> Claim {
    submit_claim(pool, claimant, ClaimType::Theft, amount, String::from("uri"), u64::MAX, now)
        .unwrap()
}

fn cast(pool: &Pool, claim: &mut Claim, first: u8, yes: u8, no: u8, now: i64) {
    let mut n: u8 = 0;
    while n < yes + no {
        let voter = Member {
            pool: who(100),
            member: who(first + n),
            deposited_amount: 0,
            claim_limit: 0,
            last_claim_ts: 0,
            active: true,
        };
        assert_eq!(vote_claim(pool, claim, &voter, n < yes, now), Ok(()));
        n += 1;
    }
}

#[test]
fn submit_claim_makes_a_pending_claim() {
    let mut pool = pool_with(2, 6000);
    let claimant = joined(&mut pool, 10, 1000);
    let claim = submit_claim(
        &mut pool,
        &claimant,
        ClaimType::Loss,
        500,
        String::from("https://example.org/evidence/1"),
        500,
        42,
    );
    assert_eq!(
        claim,
        Ok(Claim {
            pool: who(100),
            claim_id: 0,
            claimant: who(10),
            claim_type: ClaimType::Loss,
            requested_amount: 500,
            evidence_uri: String::from("https://example.org/evidence/1"),
            created_ts: 42,
            status: ClaimStatus::Pending,
            yes_votes: 0,
            no_votes: 0,
            voters: vec![],
        })
    );
    assert_eq!(pool.claim_count, 1);
    assert_eq!(claimant.last_claim_ts, 0);
}

#[test]
fn claims_are_numbered_in_the_order_of_submission() {
    let mut pool = pool_with(2, 6000);
    let a = joined(&mut pool, 10, 1000);
    let b = joined(&mut pool, 11, 1000);
    assert_eq!(submitted(&mut pool, &a, 1, 5).claim_id, 0);
    assert_eq!(submitted(&mut pool, &b, 1, 5).claim_id, 1);
    assert_eq!(submitted(&mut pool, &a, 1, 6).claim_id, 2);
    assert_eq!(pool.claim_count, 3);
    // A refused submission takes no number.
    assert!(submit_claim(&mut pool, &a, ClaimType::Loss, 501, String::new(), 1000, 7).is_err());
    assert_eq!(submitted(&mut pool, &b, 1, 8).claim_id, 3);
    assert_eq!(pool.member_count, 2);
}

#[test]
fn submit_claim_refusals_come_in_order() {
    let mut pool = pool_with(2, 6000);
    let mut claimant = joined(&mut pool, 10, 1000);
    let long = "x".repeat(201);
    let before = pool;

    let r = submit_claim(&mut pool, &claimant, ClaimType::Damage, 501, long.clone(), 0, 1);
    assert_eq!(r, Err(ErrorCode::ClaimExceedsLimit));
    let r = submit_claim(&mut pool, &claimant, ClaimType::Damage, 500, long.clone(), 0, 1);
    assert_eq!(r, Err(ErrorCode::EvidenceUriTooLong));
    let r = submit_claim(&mut pool, &claimant, ClaimType::Damage, 500, "x".repeat(200), 499, 1);
    assert_eq!(r, Err(ErrorCode::InsufficientPoolFunds));
    claimant.active = false;
    let r = submit_claim(&mut pool, &claimant, ClaimType::Damage, 501, long, 0, 1);
    assert_eq!(r, Err(ErrorCode::MemberNotActive));
    assert_eq!(pool, before);
}

#[test]
fn evidence_is_measured_in_bytes() {
    let mut pool = pool_with(2, 6000);
    let claimant = joined(&mut pool, 10, 1000);
    assert!(submit_claim(&mut pool, &claimant, ClaimType::Damage, 1, "x".repeat(200), 1, 1).is_ok());
    assert!(submit_claim(&mut pool, &claimant, ClaimType::Damage, 1, String::new(), 1, 1).is_ok());
    // 100 letters of two bytes each fit; 101 of them are 202 bytes.
    let fits = "\u{e9}".repeat(100);
    assert!(submit_claim(&mut pool, &claimant, ClaimType::Damage, 1, fits, 1, 1).is_ok());
    let too_long = "\u{e9}".repeat(101);
    assert_eq!(
        submit_claim(&mut pool, &claimant, ClaimType::Damage, 1, too_long, 1, 1),
        Err(ErrorCode::EvidenceUriTooLong)
    );
    assert_eq!(pool.claim_count, 3);
}

#[test]
fn submit_claim_fails_when_the_count_is_full() {
    let mut pool = pool_with(2, 6000);
    let claimant = joined(&mut pool, 10, 1000);
    pool.claim_count = u64::MAX;
    let before = pool;
    assert_eq!(
        submit_claim(&mut pool, &claimant, ClaimType::Damage, 1, String::new(), 1, 1),
        Err(ErrorCode::ArithmeticOverflow)
    );
    assert_eq!(pool, before);
}

#[test]
fn a_claim_for_nothing_needs_no_limit() {
    let mut pool = pool_with(2, 6000);
    let claimant = joined(&mut pool, 10, 0);
    let claim = submit_claim(&mut pool, &claimant, ClaimType::Damage, 0, String::new(), 0, 1);
    assert_eq!(claim.map(|c| c.requested_amount), Ok(0));
}

#[test]
fn vote_is_recorded_with_its_voter() {
    let mut pool = pool_with(2, 6000);
    let claimant = joined(&mut pool, 10, 1000);
    let voter = joined(&mut pool, 11, 0);
    let mut claim = submitted(&mut pool, &claimant, 500, 100);
    assert_eq!(vote_claim(&pool, &mut claim, &voter, false, 100), Ok(()));
    assert_eq!(claim.voters, vec![who(11)]);
    assert_eq!((claim.yes_votes, claim.no_votes), (0, 1));
    // The claimant is a member like any other.
    assert_eq!(vote_claim(&pool, &mut claim, &claimant, true, 3700), Ok(()));
    assert_eq!(claim.voters, vec![who(11), who(10)]);
    assert_eq!((claim.yes_votes, claim.no_votes), (1, 1));
    assert_eq!(claim.status, ClaimStatus::Pending);
}

#[test]
fn second_vote_of_an_identity_is_refused() {
    let mut pool = pool_with(2, 6000);
    let claimant = joined(&mut pool, 10, 1000);
    let voter = joined(&mut pool, 11, 0);
    let mut claim = submitted(&mut pool, &claimant, 500, 100);
    vote_claim(&pool, &mut claim, &voter, true, 100).unwrap();
    let before = claim.clone();
    assert_eq!(vote_claim(&pool, &mut claim, &voter, true, 101), Err(ErrorCode::AlreadyVoted));
    assert_eq!(vote_claim(&pool, &mut claim, &voter, false, 101), Err(ErrorCode::AlreadyVoted));
    assert_eq!(claim, before);
}

#[test]
fn vote_window_closes_after_the_deadline() {
    let mut pool = pool_with(2, 6000);
    let claimant = joined(&mut pool, 10, 1000);
    let voter = joined(&mut pool, 11, 0);
    let mut claim = submitted(&mut pool, &claimant, 500, 100);
    let before = claim.clone();
    assert_eq!(vote_claim(&pool, &mut claim, &voter, true, 3701), Err(ErrorCode::VoteWindowExpired));
    assert_eq!(claim, before);
    assert_eq!(vote_claim(&pool, &mut claim, &voter, true, 3700), Ok(()));
}

#[test]
fn vote_needs_an_active_member_and_a_pending_claim() {
    let mut pool = pool_with(1, 6000);
    let claimant = joined(&mut pool, 10, 1000);
    let mut voter = joined(&mut pool, 11, 0);
    let other = joined(&mut pool, 12, 0);
    let mut claim = submitted(&mut pool, &claimant, 500, 100);
    voter.active = false;
    assert_eq!(vote_claim(&pool, &mut claim, &voter, true, 100), Err(ErrorCode::MemberNotActive));
    voter.active = true;
    vote_claim(&pool, &mut claim, &voter, false, 100).unwrap();
    assert_eq!(finalize_claim(&mut pool, &mut claim, who(10), 3701, 1000), Ok(None));
    let before = claim.clone();
    assert_eq!(vote_claim(&pool, &mut claim, &other, true, 100), Err(ErrorCode::ClaimNotPending));
    assert_eq!(claim, before);
}

#[test]
fn a_claim_takes_32_voters_and_no_more() {
    let mut pool = pool_with(2, 6000);
    let claimant = joined(&mut pool, 1, 1000);
    let mut claim = submitted(&mut pool, &claimant, 500, 100);
    cast(&pool, &mut claim, 50, 20, 12, 200);
    assert_eq!(claim.voters.len(), 32);
    assert_eq!((claim.yes_votes, claim.no_votes), (20, 12));
    let late = joined(&mut pool, 200, 0);
    let before = claim.clone();
    assert_eq!(vote_claim(&pool, &mut claim, &late, true, 200), Err(ErrorCode::MaxVotersReached));
    assert_eq!(claim, before);
    // Having voted is reported before the full list.
    let early = Member { member: who(50), ..late };
    assert_eq!(vote_claim(&pool, &mut claim, &early, true, 200), Err(ErrorCode::AlreadyVoted));
}

#[test]
fn deadline_outside_the_range_of_time_is_an_overflow() {
    let mut pool = pool_with(1, 6000);
    let claimant = joined(&mut pool, 10, 1000);
    let voter = joined(&mut pool, 11, 0);
    let mut claim = submitted(&mut pool, &claimant, 500, i64::MAX - 3599);
    let before = claim.clone();
    assert_eq!(
        vote_claim(&pool, &mut claim, &voter, true, 0),
        Err(ErrorCode::ArithmeticOverflow)
    );
    assert_eq!(
        finalize_claim(&mut pool, &mut claim, who(10), i64::MAX, 1000),
        Err(ErrorCode::ArithmeticOverflow)
    );
    assert_eq!(claim, before);
    // One second earlier the deadline is the last moment there is.
    let mut claim = submitted(&mut pool, &claimant, 500, i64::MAX - 3600);
    assert_eq!(vote_claim(&pool, &mut claim, &voter, true, i64::MAX), Ok(()));
    assert_eq!(
        finalize_claim(&mut pool, &mut claim, who(10), i64::MAX, 1000),
        Err(ErrorCode::VoteWindowNotExpired)
    );
}

#[test]
fn tally_that_is_full_is_an_overflow() {
    let mut pool = pool_with(1, 6000);
    let claimant = joined(&mut pool, 10, 1000);
    let voter = joined(&mut pool, 11, 0);
    let mut claim = submitted(&mut pool, &claimant, 500, 100);
    claim.yes_votes = 255;
    let before = claim.clone();
    assert_eq!(vote_claim(&pool, &mut claim, &voter, true, 100), Err(ErrorCode::ArithmeticOverflow));
    assert_eq!(claim, before);
    assert_eq!(vote_claim(&pool, &mut claim, &voter, false, 100), Ok(()));
    assert_eq!(
        finalize_claim(&mut pool, &mut claim, who(10), 3701, 1000),
        Err(ErrorCode::ArithmeticOverflow)
    );
}

#[test]
fn finalize_needs_the_quorum() {
    let mut pool = pool_with(3, 6000);
    let claimant = joined(&mut pool, 10, 1000);
    let mut claim = submitted(&mut pool, &claimant, 500, 100);
    cast(&pool, &mut claim, 50, 2, 0, 100);
    let before = claim.clone();
    assert_eq!(
        finalize_claim(&mut pool, &mut claim, who(10), 3701, 1000),
        Err(ErrorCode::QuorumNotReached)
    );
    assert_eq!(claim, before);
    // The window is looked at before the quorum is.
    assert_eq!(
        finalize_claim(&mut pool, &mut claim, who(10), 3700, 1000),
        Err(ErrorCode::VoteWindowNotExpired)
    );
}

#[test]
fn approval_is_in_basis_points_rounded_down() {
    // Two of three votes in favour are 6666 basis points.
    let mut pool = pool_with(3, 6666);
    let claimant = joined(&mut pool, 10, 1000);
    let mut claim = submitted(&mut pool, &claimant, 500, 100);
    cast(&pool, &mut claim, 50, 2, 1, 100);
    let outcome = finalize_claim(&mut pool, &mut claim, who(10), 3701, 500);
    assert_eq!(
        outcome,
        Ok(Some(Transfer { direction: Direction::OutOfTreasury, party: who(10), amount: 500 }))
    );
    assert_eq!(claim.status, ClaimStatus::Paid);

    let mut strict = pool_with(3, 6667);
    let claimant = joined(&mut strict, 10, 1000);
    let mut claim = submitted(&mut strict, &claimant, 500, 100);
    cast(&strict, &mut claim, 50, 2, 1, 100);
    assert_eq!(finalize_claim(&mut strict, &mut claim, who(10), 3701, 500), Ok(None));
    assert_eq!(claim.status, ClaimStatus::Rejected);
    assert_eq!(strict.total_paid_out, 0);
}

#[test]
fn a_ratio_of_zero_approves_without_a_yes() {
    let mut pool = pool_with(1, 0);
    let claimant = joined(&mut pool, 10, 1000);
    let mut claim = submitted(&mut pool, &claimant, 500, 100);
    cast(&pool, &mut claim, 50, 0, 1, 100);
    assert!(finalize_claim(&mut pool, &mut claim, who(10), 3701, 500).unwrap().is_some());
    assert_eq!(claim.status, ClaimStatus::Paid);
}

#[test]
fn approved_claim_without_funds_is_left_approved() {
    let mut pool = pool_with(2, 6000);
    let claimant = joined(&mut pool, 10, 1000);
    let mut claim = submitted(&mut pool, &claimant, 500, 100);
    cast(&pool, &mut claim, 50, 2, 0, 100);
    let pool_before = pool;
    let pending = claim.clone();
    assert_eq!(
        finalize_claim(&mut pool, &mut claim, who(10), 3701, 499),
        Err(ErrorCode::InsufficientPoolFunds)
    );
    assert_eq!(claim, Claim { status: ClaimStatus::Approved, ..pending });
    assert_eq!(pool, pool_before);
    // It is not pending any more, so it cannot be finalized again.
    assert_eq!(
        finalize_claim(&mut pool, &mut claim, who(10), 3701, 500),
        Err(ErrorCode::ClaimNotPending)
    );
}

#[test]
fn payout_total_that_is_full_is_an_overflow() {
    let mut pool = pool_with(2, 6000);
    let claimant = joined(&mut pool, 10, 1000);
    let mut claim = submitted(&mut pool, &claimant, 500, 100);
    cast(&pool, &mut claim, 50, 2, 0, 100);
    pool.total_paid_out = u64::MAX - 499;
    let pool_before = pool;
    assert_eq!(
        finalize_claim(&mut pool, &mut claim, who(10), 3701, 500),
        Err(ErrorCode::ArithmeticOverflow)
    );
    assert_eq!(claim.status, ClaimStatus::Approved);
    assert_eq!(pool, pool_before);
}

#[test]
fn finished_claims_are_not_finalized_again() {
    let mut pool = pool_with(1, 6000);
    let claimant = joined(&mut pool, 10, 1000);
    let mut paid = submitted(&mut pool, &claimant, 200, 100);
    cast(&pool, &mut paid, 50, 1, 0, 100);
    assert!(finalize_claim(&mut pool, &mut paid, who(10), 3701, 1000).is_ok());
    assert_eq!(pool.total_paid_out, 200);
    assert_eq!(
        finalize_claim(&mut pool, &mut paid, who(10), 3701, 1000),
        Err(ErrorCode::ClaimNotPending)
    );
    // The status is looked at before the claimant is.
    assert_eq!(
        finalize_claim(&mut pool, &mut paid, who(11), 3701, 1000),
        Err(ErrorCode::ClaimNotPending)
    );
    assert_eq!(paid.status, ClaimStatus::Paid);
    assert_eq!(pool.total_paid_out, 200);
}

#[test]
fn without_votes_and_quorum_there_is_no_ratio() {
    // Only a pool that `initialize_pool` did not make can have a quorum of zero.
    let mut pool = pool_with(1, 6000);
    pool.quorum = 0;
    let claimant = joined(&mut pool, 10, 1000);
    let mut claim = submitted(&mut pool, &claimant, 500, 100);
    assert_eq!(
        finalize_claim(&mut pool, &mut claim, who(10), 3701, 1000),
        Err(ErrorCode::ArithmeticOverflow)
    );
    assert_eq!(claim.status, ClaimStatus::Pending);
}

#[test]
fn clone_of_a_claim_is_the_same_claim() {
    let mut pool = pool_with(2, 6000);
    let claimant = joined(&mut pool, 10, 1000);
    let mut claim = submitted(&mut pool, &claimant, 500, 100);
    cast(&pool, &mut claim, 50, 3, 2, 100);
    let copy = claim.clone();
    assert_eq!(copy, claim);
    assert_eq!(copy.voters.len(), 5);
    assert_eq!(copy.evidence_uri, "uri");
}
