//! The records of a pool: its ledger, its members and their claims.

use vstd::prelude::*;
use crate::pubkey::Pubkey;

verus! {

/// The most bytes that a claim's evidence reference may take.
pub const MAX_EVIDENCE_LEN: usize = 200;

/// The most voters that a claim records.
pub const MAX_VOTERS: usize = 32;

/// The ledger of one pool: its governance parameters, fixed when the pool is
/// made, and its running totals.
#[derive(Clone, Copy, Debug, PartialEq, Eq)]
pub struct Pool {
    /// Who made the pool.
    pub admin: Pubkey,
    /// The asset in which deposits and payouts are counted.
    pub accepted_mint: Pubkey,
    /// What the members hold in the pool, all together.
    pub total_deposits: u64,
    /// What has been paid for approved claims.
    pub total_paid_out: u64,
    /// How many claims were submitted; the next claim's id.
    pub claim_count: u64,
    /// How many members have joined.
    pub member_count: u64,
    /// The share of a deposit that becomes claim limit, in basis points.
    pub max_claim_pct: u16,
    /// For how many seconds after its submission a claim can be voted on.
    pub vote_window_secs: i64,
    /// The least number of votes with which a claim can be finalized.
    pub quorum: u8,
    /// The least share of yes-votes that approves a claim, in basis points.
    pub approval_ratio: u16,
}

/// One member of one pool.
#[derive(Clone, Copy, Debug, PartialEq, Eq)]
pub struct Member {
    /// The pool that the member belongs to.
    pub pool: Pubkey,
    /// The member's identity.
    pub member: Pubkey,
    /// What the member holds in the pool.
    pub deposited_amount: u64,
    /// The most that the member may ask for in one claim.
    pub claim_limit: u64,
    /// When the member last submitted a claim. No operation reads it.
    pub last_claim_ts: i64,
    /// Whether the member may take part. No operation clears it.
    pub active: bool,
}

/// What a claim is made for.
#[derive(Clone, Copy, Debug, PartialEq, Eq, Structural)]
pub enum ClaimType {
    Damage,
    Theft,
    Loss,
}

/// Where a claim stands. A claim starts as `Pending`; `Rejected` and `Paid`
/// are final. `Approved` lies between `Pending` and `Paid`: a claim is left
/// in it only when it was approved and could not be paid.
#[derive(Clone, Copy, Debug, PartialEq, Eq, Structural)]
pub enum ClaimStatus {
    Pending,
    Approved,
    Rejected,
    Paid,
}

/// A member's request for a payout, with the votes cast on it.
#[derive(Debug, PartialEq, Eq)]
pub struct Claim {
    /// The pool that the claim is made on.
    pub pool: Pubkey,
    /// The claim's number within its pool.
    pub claim_id: u64,
    /// The member who asks.
    pub claimant: Pubkey,
    pub claim_type: ClaimType,
    /// The amount asked for.
    pub requested_amount: u64,
    /// Where the evidence can be found.
    pub evidence_uri: String,
    /// When the claim was submitted.
    pub created_ts: i64,
    pub status: ClaimStatus,
    /// The number of votes in favour.
    pub yes_votes: u8,
    /// The number of votes against.
    pub no_votes: u8,
    /// Who has voted, in the order of the votes.
    pub voters: Vec<Pubkey>,
}

/// A claim as a mathematical value.
pub struct ClaimView {
    pub pool: Pubkey,
    pub claim_id: u64,
    pub claimant: Pubkey,
    pub claim_type: ClaimType,
    pub requested_amount: u64,
    pub evidence_uri: Seq<char>,
    pub created_ts: i64,
    pub status: ClaimStatus,
    pub yes_votes: u8,
    pub no_votes: u8,
    pub voters: Seq<Pubkey>,
}

impl View for Claim {
    type V = ClaimView;

    open spec fn view(&self) -> ClaimView {
        ClaimView {
            pool: self.pool,
            claim_id: self.claim_id,
            claimant: self.claimant,
            claim_type: self.claim_type,
            requested_amount: self.requested_amount,
            evidence_uri: self.evidence_uri@,
            created_ts: self.created_ts,
            status: self.status,
            yes_votes: self.yes_votes,
            no_votes: self.no_votes,
            voters: self.voters@,
        }
    }
}

impl Clone for Claim {
    fn clone(&self) -> (copy: Claim)
        ensures
            copy@ == self@,
    {
        let mut voters: Vec<Pubkey> = Vec::new();
        let mut i: usize = 0;
        while i < self.voters.len()
            invariant
                i <= self.voters@.len(),
                voters@ == self.voters@.take(i as int),
            decreases self.voters@.len() - i,
        {
            voters.push(self.voters[i]);
            assert(self.voters@.take(i + 1) =~= self.voters@.take(i as int).push(
                self.voters@[i as int],
            ));
            i += 1;
        }
        assert(self.voters@.take(i as int) =~= self.voters@);
        Claim {
            pool: self.pool,
            claim_id: self.claim_id,
            claimant: self.claimant,
            claim_type: self.claim_type,
            requested_amount: self.requested_amount,
            evidence_uri: self.evidence_uri.clone(),
            created_ts: self.created_ts,
            status: self.status,
            yes_votes: self.yes_votes,
            no_votes: self.no_votes,
            voters,
        }
    }
}

/// Which way value moves between a party and the pool's treasury.
#[derive(Clone, Copy, Debug, PartialEq, Eq, Structural)]
pub enum Direction {
    /// From the party's own balance into the treasury.
    IntoTreasury,
    /// From the treasury to the party.
    OutOfTreasury,
}

/// A movement of value that has to accompany a change of the records. The
/// operations of this crate change the records and return the transfer; the
/// caller carries it out, and keeps the changed records only if it succeeded.
#[derive(Clone, Copy, Debug, PartialEq, Eq)]
pub struct Transfer {
    pub direction: Direction,
    /// The member or claimant on the other side of the treasury.
    pub party: Pubkey,
    pub amount: u64,
}

/// The number of bytes that a string takes when it is stored.
pub open spec fn stored_len(s: Seq<char>) -> nat {
    vstd::utf8::encode_utf8(s).len()
}

impl Pool {
    /// The governance parameters are inside their ranges.
    pub open spec fn valid_config(
        max_claim_pct: u16,
        vote_window_secs: i64,
        quorum: u8,
        approval_ratio: u16,
    ) -> bool {
        &&& max_claim_pct <= 10000
        &&& vote_window_secs > 0
        &&& quorum > 0
        &&& approval_ratio <= 10000
    }

    /// The pool's parameters are those of a pool that was made by
    /// `initialize_pool`.
    pub open spec fn wf(&self) -> bool {
        Self::valid_config(
            self.max_claim_pct,
            self.vote_window_secs,
            self.quorum,
            self.approval_ratio,
        )
    }
}

impl ClaimView {
    /// No identity occurs twice among the voters.
    pub open spec fn voters_distinct(&self) -> bool {
        forall|i: int, j: int|
            0 <= i < j < self.voters.len() ==> self.voters[i] != self.voters[j]
    }

    /// Every vote tallied belongs to one voter, each voter has one vote, and
    /// the record's two bounded fields are inside their bounds.
    pub open spec fn wf(&self) -> bool {
        &&& self.voters.len() <= MAX_VOTERS
        &&& self.voters_distinct()
        &&& self.yes_votes + self.no_votes == self.voters.len()
        &&& stored_len(self.evidence_uri) <= MAX_EVIDENCE_LEN
    }
}

} // verus!
