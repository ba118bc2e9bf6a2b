//! A pool with all its records as one mathematical value, the operations as
//! functions on it, and what holds of every state that they can reach.

use vstd::prelude::*;
use crate::claims::{finalize_spec, submit_spec};
use crate::errors::{ErrorCode, RegistryError};
use crate::membership::{claim_share, deposit_spec, join_spec, withdraw_spec};
use crate::pubkey::Pubkey;
use crate::state::{ClaimStatus, ClaimType, ClaimView, Member, Pool, Transfer};
use crate::voting::vote_spec;

verus! {

/// One pool and the records of its members and claims, in the order in which
/// they were made.
pub struct RegistryView {
    /// The pool's identity.
    pub pool_key: Pubkey,
    pub pool: Pool,
    pub members: Seq<Member>,
    pub claims: Seq<ClaimView>,
    /// For each member, how many withdrawals the member has made.
    pub withdrawals: Seq<nat>,
}

/// What the given members hold in the pool, all together.
pub open spec fn total_deposited(members: Seq<Member>) -> int
    decreases members.len(),
{
    if members.len() == 0 {
        0
    } else {
        total_deposited(members.drop_last()) + members.last().deposited_amount
    }
}

/// What was paid for a claim: the amount asked for if the claim is paid,
/// and nothing otherwise.
pub open spec fn paid_amount(claim: ClaimView) -> int {
    if claim.status == ClaimStatus::Paid {
        claim.requested_amount as int
    } else {
        0
    }
}

/// What was paid for the given claims, all together.
pub open spec fn total_paid(claims: Seq<ClaimView>) -> int
    decreases claims.len(),
{
    if claims.len() == 0 {
        0
    } else {
        total_paid(claims.drop_last()) + paid_amount(claims.last())
    }
}

/// Something that can be asked of a registry, with all that it depends on.
pub enum Operation {
    Join { user: Pubkey },
    Deposit { user: Pubkey, amount: u64 },
    Withdraw { user: Pubkey, amount: u64, treasury_balance: u64 },
    Submit {
        user: Pubkey,
        claim_type: ClaimType,
        requested_amount: u64,
        evidence_uri: Seq<char>,
        treasury_balance: u64,
        now: i64,
    },
    Vote { claim_id: u64, voter: Pubkey, vote_yes: bool, now: i64 },
    Finalize { claim_id: u64, claimant: Pubkey, now: i64, treasury_balance: u64 },
}

/// The error in a result, if the result is one.
pub open spec fn error_of<T>(r: Result<T, RegistryError>) -> Option<RegistryError> {
    match r {
        Ok(_) => None,
        Err(e) => Some(e),
    }
}

/// The result of an operation on single records, as a registry reports it.
pub open spec fn refused<T>(r: Result<T, ErrorCode>) -> Result<T, RegistryError> {
    match r {
        Ok(t) => Ok(t),
        Err(e) => Err(RegistryError::Refused(e)),
    }
}

impl RegistryView {
    /// The registry of a new pool: the ledger, and no record yet.
    pub open spec fn new(pool_key: Pubkey, pool: Pool) -> RegistryView {
        RegistryView {
            pool_key,
            pool,
            members: Seq::empty(),
            claims: Seq::empty(),
            withdrawals: Seq::empty(),
        }
    }

    /// Whether `user` is a member.
    pub open spec fn has_member(self, user: Pubkey) -> bool {
        exists|i: int| 0 <= i < self.members.len() && #[trigger] self.members[i].member == user
    }

    /// Where the record of the member `user` stands.
    pub open spec fn position(self, user: Pubkey) -> int
        recommends
            self.has_member(user),
    {
        choose|i: int| 0 <= i < self.members.len() && #[trigger] self.members[i].member == user
    }

    /// Whether the pool has a claim numbered `claim_id`.
    pub open spec fn has_claim(self, claim_id: u64) -> bool {
        claim_id < self.claims.len()
    }

    /// Each identity has at most one member record, every record is of this
    /// pool, and every member is active.
    pub open spec fn members_sound(self) -> bool {
        &&& forall|i: int, j: int|
            0 <= i < j < self.members.len() ==> self.members[i].member != self.members[j].member
        &&& forall|i: int|
            0 <= i < self.members.len() ==> (#[trigger] self.members[i]).pool == self.pool_key
        &&& forall|i: int| 0 <= i < self.members.len() ==> (#[trigger] self.members[i]).active
    }

    /// The pool's total of deposits is the sum of what its members hold.
    pub open spec fn deposits_balanced(self) -> bool {
        self.pool.total_deposits == total_deposited(self.members)
    }

    /// A member's claim limit lies above the share of what the member holds
    /// by no more than the number of withdrawals that the member has made.
    pub open spec fn limits_bounded(self) -> bool {
        &&& self.withdrawals.len() == self.members.len()
        &&& forall|i: int|
            0 <= i < self.members.len() ==> (#[trigger] self.members[i]).claim_limit <= claim_share(
                self.members[i].deposited_amount as int,
                self.pool.max_claim_pct as int,
            ) + self.withdrawals[i]
    }

    /// On every claim each voter has one vote: no identity occurs twice among
    /// the voters, the tallies together count the voters, and there are at
    /// most 32 of them.
    pub open spec fn votes_counted_once(self) -> bool {
        forall|i: int| 0 <= i < self.claims.len() ==> (#[trigger] self.claims[i]).wf()
    }

    /// The two counters count the records, and a claim's number is its place
    /// among the claims: no number is given twice.
    pub open spec fn numbered_in_order(self) -> bool {
        &&& self.pool.member_count == self.members.len()
        &&& self.pool.claim_count == self.claims.len()
        &&& forall|i: int| 0 <= i < self.claims.len() ==> (#[trigger] self.claims[i]).claim_id == i
    }

    /// Every claim is of this pool and is pending, rejected or paid, and the
    /// pool's total of payouts is the sum of its paid claims.
    pub open spec fn claims_sound(self) -> bool {
        &&& forall|i: int|
            0 <= i < self.claims.len() ==> (#[trigger] self.claims[i]).pool == self.pool_key
        &&& forall|i: int|
            0 <= i < self.claims.len() ==> (#[trigger] self.claims[i]).status
                != ClaimStatus::Approved
        &&& self.pool.total_paid_out == total_paid(self.claims)
    }

    /// What holds of a registry at all times.
    pub open spec fn wf(self) -> bool {
        &&& self.pool.wf()
        &&& self.members_sound()
        &&& self.deposits_balanced()
        &&& self.limits_bounded()
        &&& self.votes_counted_once()
        &&& self.numbered_in_order()
        &&& self.claims_sound()
    }

    /// `user` joins the pool.
    pub open spec fn join(self, user: Pubkey) -> (RegistryView, Result<(), RegistryError>) {
        let (pool, r) = join_spec(self.pool, self.pool_key, user);
        if self.has_member(user) {
            (self, Err(RegistryError::MemberExists))
        } else {
            match r {
                Ok(member) => (
                    RegistryView {
                        pool,
                        members: self.members.push(member),
                        withdrawals: self.withdrawals.push(0),
                        ..self
                    },
                    Ok(()),
                ),
                Err(e) => (self, Err(RegistryError::Refused(e))),
            }
        }
    }

    /// The member `user` deposits `amount`.
    pub open spec fn deposit(self, user: Pubkey, amount: u64) -> (
        RegistryView,
        Result<Transfer, RegistryError>,
    ) {
        let i = self.position(user);
        let (pool, member, r) = deposit_spec(self.pool, self.members[i], amount);
        if !self.has_member(user) {
            (self, Err(RegistryError::NoSuchMember))
        } else if r is Ok {
            (RegistryView { pool, members: self.members.update(i, member), ..self }, refused(r))
        } else {
            (self, refused(r))
        }
    }

    /// The member `user` withdraws `amount` while the treasury holds
    /// `treasury_balance`.
    pub open spec fn withdraw(self, user: Pubkey, amount: u64, treasury_balance: u64) -> (
        RegistryView,
        Result<Transfer, RegistryError>,
    ) {
        let i = self.position(user);
        let (pool, member, r) = withdraw_spec(self.pool, self.members[i], amount, treasury_balance);
        if !self.has_member(user) {
            (self, Err(RegistryError::NoSuchMember))
        } else if r is Ok {
            (
                RegistryView {
                    pool,
                    members: self.members.update(i, member),
                    withdrawals: self.withdrawals.update(i, self.withdrawals[i] + 1),
                    ..self
                },
                refused(r),
            )
        } else {
            (self, refused(r))
        }
    }

    /// The member `user` submits a claim; the result is the claim's number.
    pub open spec fn submit(
        self,
        user: Pubkey,
        claim_type: ClaimType,
        requested_amount: u64,
        evidence_uri: Seq<char>,
        treasury_balance: u64,
        now: i64,
    ) -> (RegistryView, Result<u64, RegistryError>) {
        let i = self.position(user);
        let (pool, r) = submit_spec(
            self.pool,
            self.members[i],
            claim_type,
            requested_amount,
            evidence_uri,
            treasury_balance,
            now,
        );
        if !self.has_member(user) {
            (self, Err(RegistryError::NoSuchMember))
        } else {
            match r {
                Ok(claim) => (
                    RegistryView { pool, claims: self.claims.push(claim), ..self },
                    Ok(claim.claim_id),
                ),
                Err(e) => (self, Err(RegistryError::Refused(e))),
            }
        }
    }

    /// The member `voter` votes on the claim numbered `claim_id`.
    pub open spec fn vote(self, claim_id: u64, voter: Pubkey, vote_yes: bool, now: i64) -> (
        RegistryView,
        Result<(), RegistryError>,
    ) {
        let i = self.position(voter);
        let (claim, r) = vote_spec(
            self.pool,
            self.claims[claim_id as int],
            self.members[i],
            vote_yes,
            now,
        );
        if !self.has_claim(claim_id) {
            (self, Err(RegistryError::NoSuchClaim))
        } else if !self.has_member(voter) {
            (self, Err(RegistryError::NoSuchMember))
        } else if r is Ok {
            (RegistryView { claims: self.claims.update(claim_id as int, claim), ..self }, refused(r))
        } else {
            (self, refused(r))
        }
    }

    /// The claim numbered `claim_id` is finalized in the name of `claimant`.
    /// A claim that was approved and cannot be paid stays pending.
    pub open spec fn finalize(self, claim_id: u64, claimant: Pubkey, now: i64, treasury_balance: u64) -> (
        RegistryView,
        Result<Option<Transfer>, RegistryError>,
    ) {
        let (pool, claim, r) = finalize_spec(
            self.pool,
            self.claims[claim_id as int],
            claimant,
            now,
            treasury_balance,
        );
        if !self.has_claim(claim_id) {
            (self, Err(RegistryError::NoSuchClaim))
        } else if r is Ok {
            (
                RegistryView { pool, claims: self.claims.update(claim_id as int, claim), ..self },
                refused(r),
            )
        } else {
            (self, refused(r))
        }
    }

    /// The registry after `op`, whether `op` was carried out or refused.
    pub open spec fn apply(self, op: Operation) -> RegistryView {
        match op {
            Operation::Join { user } => self.join(user).0,
            Operation::Deposit { user, amount } => self.deposit(user, amount).0,
            Operation::Withdraw { user, amount, treasury_balance } => self.withdraw(
                user,
                amount,
                treasury_balance,
            ).0,
            Operation::Submit {
                user,
                claim_type,
                requested_amount,
                evidence_uri,
                treasury_balance,
                now,
            } => self.submit(
                user,
                claim_type,
                requested_amount,
                evidence_uri,
                treasury_balance,
                now,
            ).0,
            Operation::Vote { claim_id, voter, vote_yes, now } => self.vote(
                claim_id,
                voter,
                vote_yes,
                now,
            ).0,
            Operation::Finalize { claim_id, claimant, now, treasury_balance } => self.finalize(
                claim_id,
                claimant,
                now,
                treasury_balance,
            ).0,
        }
    }

    /// Why `op` is refused, if it is.
    pub open spec fn refusal(self, op: Operation) -> Option<RegistryError> {
        match op {
            Operation::Join { user } => error_of(self.join(user).1),
            Operation::Deposit { user, amount } => error_of(self.deposit(user, amount).1),
            Operation::Withdraw { user, amount, treasury_balance } => error_of(
                self.withdraw(user, amount, treasury_balance).1,
            ),
            Operation::Submit {
                user,
                claim_type,
                requested_amount,
                evidence_uri,
                treasury_balance,
                now,
            } => error_of(
                self.submit(
                    user,
                    claim_type,
                    requested_amount,
                    evidence_uri,
                    treasury_balance,
                    now,
                ).1,
            ),
            Operation::Vote { claim_id, voter, vote_yes, now } => error_of(
                self.vote(claim_id, voter, vote_yes, now).1,
            ),
            Operation::Finalize { claim_id, claimant, now, treasury_balance } => error_of(
                self.finalize(claim_id, claimant, now, treasury_balance).1,
            ),
        }
    }

    /// The number of the claim that `op` makes, if `op` is a submission that
    /// is carried out.
    pub open spec fn outcome_id(self, op: Operation) -> Option<u64> {
        match op {
            Operation::Submit {
                user,
                claim_type,
                requested_amount,
                evidence_uri,
                treasury_balance,
                now,
            } => match self.submit(
                user,
                claim_type,
                requested_amount,
                evidence_uri,
                treasury_balance,
                now,
            ).1 {
                Ok(id) => Some(id),
                Err(_) => None,
            },
            _ => None,
        }
    }

    /// The registry after the operations `ops`, one after the other.
    pub open spec fn run(self, ops: Seq<Operation>) -> RegistryView
        decreases ops.len(),
    {
        if ops.len() == 0 {
            self
        } else {
            self.run(ops.drop_last()).apply(ops.last())
        }
    }

    /// This registry holds everything that `before` held: each record of
    /// `before` stands where it stood, a member under the same identity and
    /// a claim under the same number, and no counter is lower.
    pub open spec fn extends(self, before: RegistryView) -> bool {
        &&& before.pool.member_count <= self.pool.member_count
        &&& before.pool.claim_count <= self.pool.claim_count
        &&& before.members.len() <= self.members.len()
        &&& before.claims.len() <= self.claims.len()
        &&& forall|i: int|
            0 <= i < before.members.len() ==> (#[trigger] self.members[i]).member
                == before.members[i].member
        &&& forall|i: int|
            0 <= i < before.claims.len() ==> (#[trigger] self.claims[i]).claim_id
                == before.claims[i].claim_id
    }
}

} // verus!
