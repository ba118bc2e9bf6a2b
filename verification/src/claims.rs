//! The life of a claim: submitted as pending, then rejected, or approved and
//! paid.

use vstd::prelude::*;
use crate::errors::ErrorCode;
use crate::pubkey::Pubkey;
use crate::state::{
    stored_len, Claim, ClaimStatus, ClaimType, ClaimView, Direction, Member, Pool, Transfer,
    MAX_EVIDENCE_LEN,
};
use crate::voting::{approval_bps, checked_deadline, vote_deadline};

verus! {

/// The result of `submit_claim` with the claim, if there is one, as a
/// mathematical value.
pub open spec fn viewed(r: Result<Claim, ErrorCode>) -> Result<ClaimView, ErrorCode> {
    match r {
        Ok(claim) => Ok(claim@),
        Err(e) => Err(e),
    }
}

/// The claim that `submit_claim` makes: pending, without votes, numbered
/// `claim_id`, made by `member` on the member's pool at the time `now`.
pub open spec fn fresh_claim(
    claim_id: u64,
    member: Member,
    claim_type: ClaimType,
    requested_amount: u64,
    evidence_uri: Seq<char>,
    now: i64,
) -> ClaimView {
    ClaimView {
        pool: member.pool,
        claim_id,
        claimant: member.member,
        claim_type,
        requested_amount,
        evidence_uri,
        created_ts: now,
        status: ClaimStatus::Pending,
        yes_votes: 0,
        no_votes: 0,
        voters: Seq::empty(),
    }
}

/// What submitting a claim does: the pool afterwards, and the new claim or
/// the reason why there is none. A refused submission leaves the pool as it
/// was. The conditions are tested in the order in which they stand here.
pub open spec fn submit_spec(
    pool: Pool,
    member: Member,
    claim_type: ClaimType,
    requested_amount: u64,
    evidence_uri: Seq<char>,
    treasury_balance: u64,
    now: i64,
) -> (Pool, Result<ClaimView, ErrorCode>) {
    if !member.active {
        (pool, Err(ErrorCode::MemberNotActive))
    } else if requested_amount > member.claim_limit {
        (pool, Err(ErrorCode::ClaimExceedsLimit))
    } else if stored_len(evidence_uri) > MAX_EVIDENCE_LEN {
        (pool, Err(ErrorCode::EvidenceUriTooLong))
    } else if treasury_balance < requested_amount {
        (pool, Err(ErrorCode::InsufficientPoolFunds))
    } else if pool.claim_count == u64::MAX {
        (pool, Err(ErrorCode::ArithmeticOverflow))
    } else {
        (
            Pool { claim_count: (pool.claim_count + 1) as u64, ..pool },
            Ok(
                fresh_claim(
                    pool.claim_count,
                    member,
                    claim_type,
                    requested_amount,
                    evidence_uri,
                    now,
                ),
            ),
        )
    }
}

/// Why a claim cannot be decided when `claimant` asks for it at the time
/// `now`, if anything stands against it. The conditions are tested in the
/// order in which they stand here.
pub open spec fn finalize_refusal(pool: Pool, claim: ClaimView, claimant: Pubkey, now: i64) -> Option<
    ErrorCode,
> {
    let deadline = vote_deadline(claim.created_ts, pool.vote_window_secs);
    let total = claim.yes_votes + claim.no_votes;
    if claim.status != ClaimStatus::Pending {
        Some(ErrorCode::ClaimNotPending)
    } else if claimant != claim.claimant {
        Some(ErrorCode::InvalidClaimant)
    } else if deadline is None {
        Some(ErrorCode::ArithmeticOverflow)
    } else if now <= deadline->0 {
        Some(ErrorCode::VoteWindowNotExpired)
    } else if total > u8::MAX {
        Some(ErrorCode::ArithmeticOverflow)
    } else if total < pool.quorum {
        Some(ErrorCode::QuorumNotReached)
    } else if total == 0 {
        Some(ErrorCode::ArithmeticOverflow)
    } else {
        None
    }
}

/// Whether the votes cast on a claim approve it.
pub open spec fn is_approved(pool: Pool, claim: ClaimView) -> bool {
    approval_bps(claim.yes_votes, claim.yes_votes + claim.no_votes) >= pool.approval_ratio
}

/// Why an approved claim cannot be paid, if anything stands against it.
pub open spec fn payout_refusal(pool: Pool, claim: ClaimView, treasury_balance: u64) -> Option<
    ErrorCode,
> {
    if treasury_balance < claim.requested_amount {
        Some(ErrorCode::InsufficientPoolFunds)
    } else if pool.total_paid_out + claim.requested_amount > u64::MAX {
        Some(ErrorCode::ArithmeticOverflow)
    } else {
        None
    }
}

/// What finalizing does: the pool and the claim afterwards, and the result.
///
/// A claim that cannot be decided stays as it was. A claim that the votes do
/// not approve becomes `Rejected`. An approved claim becomes `Paid`, the
/// pool's `total_paid_out` grows by the requested amount, and the result is
/// the transfer to the claimant. An approved claim that cannot be paid is
/// left `Approved`, with the pool unchanged.
pub open spec fn finalize_spec(
    pool: Pool,
    claim: ClaimView,
    claimant: Pubkey,
    now: i64,
    treasury_balance: u64,
) -> (Pool, ClaimView, Result<Option<Transfer>, ErrorCode>) {
    if let Some(e) = finalize_refusal(pool, claim, claimant, now) {
        (pool, claim, Err(e))
    } else if !is_approved(pool, claim) {
        (pool, ClaimView { status: ClaimStatus::Rejected, ..claim }, Ok(None))
    } else if let Some(e) = payout_refusal(pool, claim, treasury_balance) {
        (pool, ClaimView { status: ClaimStatus::Approved, ..claim }, Err(e))
    } else {
        (
            Pool { total_paid_out: (pool.total_paid_out + claim.requested_amount) as u64, ..pool },
            ClaimView { status: ClaimStatus::Paid, ..claim },
            Ok(
                Some(
                    Transfer {
                        direction: Direction::OutOfTreasury,
                        party: claim.claimant,
                        amount: claim.requested_amount,
                    },
                ),
            ),
        )
    }
}

/// A claim is sound when it is submitted: pending, without votes or voters,
/// its evidence reference within the bound.
pub proof fn lemma_submitted_claim_wf(
    pool: Pool,
    member: Member,
    claim_type: ClaimType,
    requested_amount: u64,
    evidence_uri: Seq<char>,
    treasury_balance: u64,
    now: i64,
)
    requires
        submit_spec(
            pool,
            member,
            claim_type,
            requested_amount,
            evidence_uri,
            treasury_balance,
            now,
        ).1 is Ok,
    ensures
        submit_spec(
            pool,
            member,
            claim_type,
            requested_amount,
            evidence_uri,
            treasury_balance,
            now,
        ).1->Ok_0.wf(),
        submit_spec(
            pool,
            member,
            claim_type,
            requested_amount,
            evidence_uri,
            treasury_balance,
            now,
        ).1->Ok_0.status == ClaimStatus::Pending,
        requested_amount <= member.claim_limit,
{
}

/// Finalizing changes nothing of a claim but its status, and the status of
/// a claim that is not pending never changes again.
pub proof fn lemma_finalize_changes_status_only(
    pool: Pool,
    claim: ClaimView,
    claimant: Pubkey,
    now: i64,
    treasury_balance: u64,
)
    ensures
        finalize_spec(pool, claim, claimant, now, treasury_balance).1 == (ClaimView {
            status: finalize_spec(pool, claim, claimant, now, treasury_balance).1.status,
            ..claim
        }),
        claim.status != ClaimStatus::Pending ==> finalize_spec(
            pool,
            claim,
            claimant,
            now,
            treasury_balance,
        ).1 == claim,
        claim.wf() ==> finalize_spec(pool, claim, claimant, now, treasury_balance).1.wf(),
{
}

/// Submits a claim of `member` for `requested_amount`, at the time `now`.
///
/// The member has to be active, the amount within the member's claim limit,
/// the evidence reference at most 200 bytes long, and the treasury, which
/// holds `treasury_balance` at the time of the call, has to cover the amount.
/// Nothing is set aside: the balance is looked at again when the claim is
/// finalized. The claim gets the pool's claim count as its number, and the
/// count grows by one.
pub fn submit_claim(
    pool: &mut Pool,
    member: &Member,
    claim_type: ClaimType,
    requested_amount: u64,
    evidence_uri: String,
    treasury_balance: u64,
    now: i64,
) -> (r: Result<Claim, ErrorCode>)
    ensures
        (*final(pool), viewed(r)) == submit_spec(
            *old(pool),
            *member,
            claim_type,
            requested_amount,
            evidence_uri@,
            treasury_balance,
            now,
        ),
{
    if !member.active {
        return Err(ErrorCode::MemberNotActive);
    }
    if requested_amount > member.claim_limit {
        return Err(ErrorCode::ClaimExceedsLimit);
    }
    if evidence_uri.as_str().as_bytes().len() > MAX_EVIDENCE_LEN {
        return Err(ErrorCode::EvidenceUriTooLong);
    }
    if treasury_balance < requested_amount {
        return Err(ErrorCode::InsufficientPoolFunds);
    }
    let claim_id = pool.claim_count;
    let next = match pool.claim_count.checked_add(1) {
        Some(n) => n,
        None => {
            return Err(ErrorCode::ArithmeticOverflow);
        },
    };
    pool.claim_count = next;
    Ok(
        Claim {
            pool: member.pool,
            claim_id,
            claimant: member.member,
            claim_type,
            requested_amount,
            evidence_uri,
            created_ts: now,
            status: ClaimStatus::Pending,
            yes_votes: 0,
            no_votes: 0,
            voters: Vec::new(),
        },
    )
}

/// Decides a pending claim once its vote window has closed.
///
/// Only the claimant's identity can ask for it, only after the claim's
/// deadline, and only when the votes cast reach the pool's quorum. The claim
/// is approved when the yes-votes' share of all votes, in basis points and
/// rounded down, is at least the pool's approval ratio. `treasury_balance` is
/// what the treasury holds at the time of the call. `Ok(None)` says that the
/// claim was rejected; `Ok(Some(t))` that it was approved, with the payout `t`
/// to carry out.
pub fn finalize_claim(
    pool: &mut Pool,
    claim: &mut Claim,
    claimant: Pubkey,
    now: i64,
    treasury_balance: u64,
) -> (r: Result<Option<Transfer>, ErrorCode>)
    ensures
        (*final(pool), final(claim)@, r) == finalize_spec(
            *old(pool),
            old(claim)@,
            claimant,
            now,
            treasury_balance,
        ),
{
    if claim.status != ClaimStatus::Pending {
        return Err(ErrorCode::ClaimNotPending);
    }
    if claimant != claim.claimant {
        return Err(ErrorCode::InvalidClaimant);
    }
    let deadline = match checked_deadline(claim.created_ts, pool.vote_window_secs) {
        Some(d) => d,
        None => {
            return Err(ErrorCode::ArithmeticOverflow);
        },
    };
    if now <= deadline {
        return Err(ErrorCode::VoteWindowNotExpired);
    }
    let total = match claim.yes_votes.checked_add(claim.no_votes) {
        Some(t) => t,
        None => {
            return Err(ErrorCode::ArithmeticOverflow);
        },
    };
    if total < pool.quorum {
        return Err(ErrorCode::QuorumNotReached);
    }
    if total == 0 {
        return Err(ErrorCode::ArithmeticOverflow);
    }
    let approval: u64 = (claim.yes_votes as u64 * 10000) / (total as u64);
    if approval < pool.approval_ratio as u64 {
        claim.status = ClaimStatus::Rejected;
        return Ok(None);
    }
    claim.status = ClaimStatus::Approved;
    if treasury_balance < claim.requested_amount {
        return Err(ErrorCode::InsufficientPoolFunds);
    }
    let paid_out = match pool.total_paid_out.checked_add(claim.requested_amount) {
        Some(t) => t,
        None => {
            return Err(ErrorCode::ArithmeticOverflow);
        },
    };
    pool.total_paid_out = paid_out;
    claim.status = ClaimStatus::Paid;
    Ok(
        Some(
            Transfer {
                direction: Direction::OutOfTreasury,
                party: claim.claimant,
                amount: claim.requested_amount,
            },
        ),
    )
}

} // verus!
