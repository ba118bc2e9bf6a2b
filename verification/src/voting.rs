//! Votes on a claim: who may vote, until when, and how the votes are counted.

use vstd::prelude::*;
use crate::errors::ErrorCode;
use crate::pubkey::Pubkey;
use crate::state::{Claim, ClaimStatus, ClaimView, Member, Pool, MAX_VOTERS};

verus! {

/// The last moment at which a claim submitted at `created_ts` can be voted
/// on, or `None` where that moment lies outside the range of a timestamp.
pub open spec fn vote_deadline(created_ts: i64, vote_window_secs: i64) -> Option<i64> {
    if i64::MIN <= created_ts + vote_window_secs <= i64::MAX {
        Some((created_ts + vote_window_secs) as i64)
    } else {
        None
    }
}

/// The share of yes-votes among `total` votes, in basis points, rounded down.
pub open spec fn approval_bps(yes_votes: u8, total: int) -> int
    recommends
        total > 0,
{
    (yes_votes * 10000) / total
}

/// What a vote of `member` at the time `now` does to a claim: the claim
/// afterwards, and what the voter is told. A refused vote leaves the claim as
/// it was. The conditions are tested in the order in which they stand here.
pub open spec fn vote_spec(
    pool: Pool,
    claim: ClaimView,
    member: Member,
    vote_yes: bool,
    now: i64,
) -> (ClaimView, Result<(), ErrorCode>) {
    let deadline = vote_deadline(claim.created_ts, pool.vote_window_secs);
    if !member.active {
        (claim, Err(ErrorCode::MemberNotActive))
    } else if claim.status != ClaimStatus::Pending {
        (claim, Err(ErrorCode::ClaimNotPending))
    } else if deadline is None {
        (claim, Err(ErrorCode::ArithmeticOverflow))
    } else if now > deadline->0 {
        (claim, Err(ErrorCode::VoteWindowExpired))
    } else if claim.voters.contains(member.member) {
        (claim, Err(ErrorCode::AlreadyVoted))
    } else if claim.voters.len() >= MAX_VOTERS {
        (claim, Err(ErrorCode::MaxVotersReached))
    } else if vote_yes && claim.yes_votes == u8::MAX || !vote_yes && claim.no_votes == u8::MAX {
        (claim, Err(ErrorCode::ArithmeticOverflow))
    } else if vote_yes {
        (
            ClaimView {
                yes_votes: (claim.yes_votes + 1) as u8,
                voters: claim.voters.push(member.member),
                ..claim
            },
            Ok(()),
        )
    } else {
        (
            ClaimView {
                no_votes: (claim.no_votes + 1) as u8,
                voters: claim.voters.push(member.member),
                ..claim
            },
            Ok(()),
        )
    }
}

/// A vote keeps a claim's record sound: afterwards, as before, no identity
/// occurs twice among the voters, the two tallies together count the voters,
/// and there are at most 32 of them.
pub proof fn lemma_vote_keeps_wf(
    pool: Pool,
    claim: ClaimView,
    member: Member,
    vote_yes: bool,
    now: i64,
)
    requires
        claim.wf(),
    ensures
        vote_spec(pool, claim, member, vote_yes, now).0.wf(),
{
    let after = vote_spec(pool, claim, member, vote_yes, now).0;
    if vote_spec(pool, claim, member, vote_yes, now).1 is Ok {
        assert(after.voters == claim.voters.push(member.member));
        assert forall|i: int, j: int| 0 <= i < j < after.voters.len() implies after.voters[i]
            != after.voters[j] by {
            if j == claim.voters.len() {
                assert(claim.voters.contains(claim.voters[i]));
            }
        }
    }
}

/// A vote that counts is the voter's first on the claim: the voter was not
/// among the voters before, is the only one added, and exactly one tally
/// grows, by one.
pub proof fn lemma_vote_counts_once(
    pool: Pool,
    claim: ClaimView,
    member: Member,
    vote_yes: bool,
    now: i64,
)
    requires
        vote_spec(pool, claim, member, vote_yes, now).1 is Ok,
    ensures
        !claim.voters.contains(member.member),
        vote_spec(pool, claim, member, vote_yes, now).0.voters == claim.voters.push(member.member),
        vote_spec(pool, claim, member, vote_yes, now).0.yes_votes + vote_spec(
            pool,
            claim,
            member,
            vote_yes,
            now,
        ).0.no_votes == claim.yes_votes + claim.no_votes + 1,
{
}

/// A second vote of the same identity is refused and tallies nothing.
pub proof fn lemma_second_vote_refused(
    pool: Pool,
    claim: ClaimView,
    member: Member,
    vote_yes: bool,
    now: i64,
)
    requires
        claim.voters.contains(member.member),
    ensures
        vote_spec(pool, claim, member, vote_yes, now).1 is Err,
        vote_spec(pool, claim, member, vote_yes, now).0 == claim,
{
}

/// Computes `vote_deadline`.
pub fn checked_deadline(created_ts: i64, vote_window_secs: i64) -> (deadline: Option<i64>)
    ensures
        deadline == vote_deadline(created_ts, vote_window_secs),
{
    created_ts.checked_add(vote_window_secs)
}

/// Whether `key` is among `voters`.
pub fn has_voted(voters: &Vec<Pubkey>, key: Pubkey) -> (found: bool)
    ensures
        found == voters@.contains(key),
{
    let mut i: usize = 0;
    while i < voters.len()
        invariant
            i <= voters.len(),
            forall|k: int| 0 <= k < i ==> voters@[k] != key,
        decreases voters.len() - i,
    {
        if voters[i] == key {
            return true;
        }
        i += 1;
    }
    false
}

/// Records the vote of `member` on `claim`, cast at the time `now`.
///
/// The vote counts when the member is active, the claim is pending, `now` is
/// not after the claim's deadline, the member has not voted on the claim and
/// the claim has room for another voter. Then the member's identity is added
/// to the voters and one of the two tallies grows by one. Otherwise the claim
/// stays as it was and the result names the first condition that failed.
pub fn vote_claim(
    pool: &Pool,
    claim: &mut Claim,
    member: &Member,
    vote_yes: bool,
    now: i64,
) -> (r: Result<(), ErrorCode>)
    ensures
        (final(claim)@, r) == vote_spec(*pool, old(claim)@, *member, vote_yes, now),
{
    if !member.active {
        return Err(ErrorCode::MemberNotActive);
    }
    if claim.status != ClaimStatus::Pending {
        return Err(ErrorCode::ClaimNotPending);
    }
    let deadline = match checked_deadline(claim.created_ts, pool.vote_window_secs) {
        Some(d) => d,
        None => {
            return Err(ErrorCode::ArithmeticOverflow);
        },
    };
    if now > deadline {
        return Err(ErrorCode::VoteWindowExpired);
    }
    if has_voted(&claim.voters, member.member) {
        return Err(ErrorCode::AlreadyVoted);
    }
    if claim.voters.len() >= MAX_VOTERS {
        return Err(ErrorCode::MaxVotersReached);
    }
    if vote_yes {
        match claim.yes_votes.checked_add(1) {
            Some(n) => {
                claim.yes_votes = n;
            },
            None => {
                return Err(ErrorCode::ArithmeticOverflow);
            },
        }
    } else {
        match claim.no_votes.checked_add(1) {
            Some(n) => {
                claim.no_votes = n;
            },
            None => {
                return Err(ErrorCode::ArithmeticOverflow);
            },
        }
    }
    claim.voters.push(member.member);
    Ok(())
}

} // verus!
