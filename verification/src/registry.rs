//! A pool kept with the records of its members and claims, each found by
//! the identity or the number under which it was made.

use vstd::prelude::*;
use crate::claims::{finalize_claim, submit_claim};
use crate::errors::{ErrorCode, RegistryError};
use crate::invariants::{
    lemma_deposit_keeps_wf, lemma_finalize_keeps_wf, lemma_join_keeps_wf, lemma_new_registry_wf,
    lemma_position_is_unique, lemma_submit_keeps_wf, lemma_vote_keeps_registry_wf,
    lemma_withdraw_keeps_wf,
};
use crate::membership::{deposit, join_pool, withdraw};
use crate::model::RegistryView;
use crate::pool::{fresh_pool, initialize_pool};
use crate::pubkey::Pubkey;
use crate::state::{Claim, ClaimType, ClaimView, Member, Pool, Transfer};
use crate::voting::vote_claim;

verus! {

/// One pool with the records of its members and claims.
///
/// An operation is carried out as a whole or not at all: a refused operation
/// leaves every record as it was. A member is found by identity, a claim by
/// its number.
///
/// An operation that returns a transfer has changed the records already. A
/// caller whose transfer can fail asks the operation of a copy of the
/// registry, and keeps the copy once the transfer has gone through.
pub struct Registry {
    pool_key: Pubkey,
    pool: Pool,
    members: Vec<Member>,
    claims: Vec<Claim>,
    withdrawals: Ghost<Seq<nat>>,
}

impl View for Registry {
    type V = RegistryView;

    closed spec fn view(&self) -> RegistryView {
        RegistryView {
            pool_key: self.pool_key,
            pool: self.pool,
            members: self.members@,
            claims: Seq::new(self.claims@.len(), |i: int| self.claims@[i]@),
            withdrawals: self.withdrawals@,
        }
    }
}

impl Clone for Registry {
    fn clone(&self) -> (copy: Registry)
        ensures
            copy@ == self@,
    {
        let mut members: Vec<Member> = Vec::new();
        let mut i: usize = 0;
        while i < self.members.len()
            invariant
                i <= self.members@.len(),
                members@ == self.members@.take(i as int),
            decreases self.members@.len() - i,
        {
            members.push(self.members[i]);
            assert(self.members@.take(i + 1) =~= self.members@.take(i as int).push(
                self.members@[i as int],
            ));
            i += 1;
        }
        assert(self.members@.take(i as int) =~= self.members@);
        let mut claims: Vec<Claim> = Vec::new();
        let mut j: usize = 0;
        while j < self.claims.len()
            invariant
                j <= self.claims@.len(),
                claims@.len() == j,
                forall|k: int| 0 <= k < j ==> claims@[k]@ == self.claims@[k]@,
            decreases self.claims@.len() - j,
        {
            claims.push(self.claims[j].clone());
            j += 1;
        }
        let copy = Registry {
            pool_key: self.pool_key,
            pool: self.pool,
            members,
            claims,
            withdrawals: Ghost(self.withdrawals@),
        };
        assert(copy@.claims =~= self@.claims);
        copy
    }
}

impl Registry {
    /// The registry is sound: see [`RegistryView::wf`].
    pub open spec fn wf(&self) -> bool {
        self@.wf()
    }

    /// Makes a pool with the identity `pool_key`, without members or claims.
    /// The parameters are those of `initialize_pool`, and are refused as
    /// there.
    pub fn new(
        pool_key: Pubkey,
        admin: Pubkey,
        accepted_mint: Pubkey,
        max_claim_pct: u16,
        vote_window_secs: i64,
        quorum: u8,
        approval_ratio: u16,
    ) -> (r: Result<Registry, ErrorCode>)
        ensures
            match r {
                Ok(registry) => {
                    &&& Pool::valid_config(max_claim_pct, vote_window_secs, quorum, approval_ratio)
                    &&& registry.wf()
                    &&& registry@ == RegistryView::new(
                        pool_key,
                        fresh_pool(
                            admin,
                            accepted_mint,
                            max_claim_pct,
                            vote_window_secs,
                            quorum,
                            approval_ratio,
                        ),
                    )
                },
                Err(e) => {
                    &&& !Pool::valid_config(max_claim_pct, vote_window_secs, quorum, approval_ratio)
                    &&& e == ErrorCode::InvalidGovernanceConfig
                },
            },
    {
        match initialize_pool(
            admin,
            accepted_mint,
            max_claim_pct,
            vote_window_secs,
            quorum,
            approval_ratio,
        ) {
            Ok(pool) => {
                let registry = Registry {
                    pool_key,
                    pool,
                    members: Vec::new(),
                    claims: Vec::new(),
                    withdrawals: Ghost(Seq::empty()),
                };
                proof {
                    lemma_new_registry_wf(pool_key, pool);
                    assert(registry@.claims =~= Seq::<ClaimView>::empty());
                }
                Ok(registry)
            },
            Err(e) => Err(e),
        }
    }

    /// The pool's identity.
    pub fn pool_key(&self) -> (key: Pubkey)
        ensures
            key == self@.pool_key,
    {
        self.pool_key
    }

    /// The pool's ledger.
    pub fn pool(&self) -> (pool: Pool)
        ensures
            pool == self@.pool,
    {
        self.pool
    }

    /// Where the record of `user` stands, if `user` is a member.
    fn find_member(&self, user: Pubkey) -> (found: Option<usize>)
        ensures
            match found {
                Some(i) => i < self.members@.len() && self.members@[i as int].member == user,
                None => !self@.has_member(user),
            },
    {
        let mut i: usize = 0;
        while i < self.members.len()
            invariant
                i <= self.members@.len(),
                forall|k: int| 0 <= k < i ==> self.members@[k].member != user,
            decreases self.members@.len() - i,
        {
            if self.members[i].member == user {
                return Some(i);
            }
            i += 1;
        }
        None
    }

    /// The record of the member `user`, if there is one.
    pub fn member(&self, user: Pubkey) -> (found: Option<Member>)
        requires
            self.wf(),
        ensures
            match found {
                Some(member) => self@.has_member(user) && member == self@.members[self@.position(
                    user,
                )],
                None => !self@.has_member(user),
            },
    {
        match self.find_member(user) {
            Some(i) => {
                proof {
                    lemma_position_is_unique(self@, i as int);
                }
                Some(self.members[i])
            },
            None => None,
        }
    }

    /// The claim numbered `claim_id`, if there is one.
    pub fn claim(&self, claim_id: u64) -> (found: Option<&Claim>)
        ensures
            match found {
                Some(claim) => self@.has_claim(claim_id) && claim@ == self@.claims[claim_id as int],
                None => !self@.has_claim(claim_id),
            },
    {
        if claim_id < self.claims.len() as u64 {
            Some(&self.claims[claim_id as usize])
        } else {
            None
        }
    }

    /// `user` joins the pool, with nothing deposited and no claim limit.
    /// An identity can join once.
    pub fn join(&mut self, user: Pubkey) -> (r: Result<(), RegistryError>)
        requires
            old(self).wf(),
        ensures
            final(self).wf(),
            (final(self)@, r) == old(self)@.join(user),
    {
        if self.find_member(user).is_some() {
            return Err(RegistryError::MemberExists);
        }
        proof {
            lemma_join_keeps_wf(self@, user);
        }
        match join_pool(&mut self.pool, self.pool_key, user) {
            Ok(member) => {
                self.members.push(member);
                self.withdrawals = Ghost(self.withdrawals@.push(0));
                assert(self@.claims =~= old(self)@.claims);
                Ok(())
            },
            Err(e) => Err(RegistryError::Refused(e)),
        }
    }

    /// The member `user` deposits `amount`; the result is the transfer into
    /// the treasury that the deposit consists of.
    pub fn deposit(&mut self, user: Pubkey, amount: u64) -> (r: Result<Transfer, RegistryError>)
        requires
            old(self).wf(),
        ensures
            final(self).wf(),
            (final(self)@, r) == old(self)@.deposit(user, amount),
    {
        let i = match self.find_member(user) {
            Some(i) => i,
            None => {
                return Err(RegistryError::NoSuchMember);
            },
        };
        proof {
            lemma_position_is_unique(self@, i as int);
            lemma_deposit_keeps_wf(self@, user, amount);
        }
        let mut member = self.members[i];
        match deposit(&mut self.pool, &mut member, amount) {
            Ok(transfer) => {
                self.members[i] = member;
                assert(self@.claims =~= old(self)@.claims);
                Ok(transfer)
            },
            Err(e) => Err(RegistryError::Refused(e)),
        }
    }

    /// The member `user` withdraws `amount` while the treasury holds
    /// `treasury_balance`; the result is the transfer out of the treasury
    /// that the withdrawal consists of.
    pub fn withdraw(&mut self, user: Pubkey, amount: u64, treasury_balance: u64) -> (r: Result<
        Transfer,
        RegistryError,
    >)
        requires
            old(self).wf(),
        ensures
            final(self).wf(),
            (final(self)@, r) == old(self)@.withdraw(user, amount, treasury_balance),
    {
        let i = match self.find_member(user) {
            Some(i) => i,
            None => {
                return Err(RegistryError::NoSuchMember);
            },
        };
        proof {
            lemma_position_is_unique(self@, i as int);
            lemma_withdraw_keeps_wf(self@, user, amount, treasury_balance);
        }
        let mut member = self.members[i];
        match withdraw(&mut self.pool, &mut member, amount, treasury_balance) {
            Ok(transfer) => {
                self.members[i] = member;
                self.withdrawals = Ghost(
                    self.withdrawals@.update(i as int, self.withdrawals@[i as int] + 1),
                );
                assert(self@.claims =~= old(self)@.claims);
                Ok(transfer)
            },
            Err(e) => Err(RegistryError::Refused(e)),
        }
    }

    /// The member `user` submits a claim at the time `now`, while the
    /// treasury holds `treasury_balance`; the result is the claim's number.
    pub fn submit(
        &mut self,
        user: Pubkey,
        claim_type: ClaimType,
        requested_amount: u64,
        evidence_uri: String,
        treasury_balance: u64,
        now: i64,
    ) -> (r: Result<u64, RegistryError>)
        requires
            old(self).wf(),
        ensures
            final(self).wf(),
            (final(self)@, r) == old(self)@.submit(
                user,
                claim_type,
                requested_amount,
                evidence_uri@,
                treasury_balance,
                now,
            ),
    {
        let i = match self.find_member(user) {
            Some(i) => i,
            None => {
                return Err(RegistryError::NoSuchMember);
            },
        };
        proof {
            lemma_position_is_unique(self@, i as int);
            lemma_submit_keeps_wf(
                self@,
                user,
                claim_type,
                requested_amount,
                evidence_uri@,
                treasury_balance,
                now,
            );
        }
        let member = self.members[i];
        match submit_claim(
            &mut self.pool,
            &member,
            claim_type,
            requested_amount,
            evidence_uri,
            treasury_balance,
            now,
        ) {
            Ok(claim) => {
                let claim_id = claim.claim_id;
                let ghost made = claim@;
                self.claims.push(claim);
                assert(self@.claims =~= old(self)@.claims.push(made));
                Ok(claim_id)
            },
            Err(e) => Err(RegistryError::Refused(e)),
        }
    }

    /// The member `voter` votes on the claim numbered `claim_id`, at the
    /// time `now`.
    pub fn vote(&mut self, claim_id: u64, voter: Pubkey, vote_yes: bool, now: i64) -> (r: Result<
        (),
        RegistryError,
    >)
        requires
            old(self).wf(),
        ensures
            final(self).wf(),
            (final(self)@, r) == old(self)@.vote(claim_id, voter, vote_yes, now),
    {
        if claim_id >= self.claims.len() as u64 {
            return Err(RegistryError::NoSuchClaim);
        }
        let i = match self.find_member(voter) {
            Some(i) => i,
            None => {
                return Err(RegistryError::NoSuchMember);
            },
        };
        proof {
            lemma_position_is_unique(self@, i as int);
            lemma_vote_keeps_registry_wf(self@, claim_id, voter, vote_yes, now);
        }
        let member = self.members[i];
        let r = vote_claim(&self.pool, &mut self.claims[claim_id as usize], &member, vote_yes, now);
        match r {
            Ok(()) => {
                assert(self@.claims =~= old(self)@.claims.update(
                    claim_id as int,
                    self.claims@[claim_id as int]@,
                ));
                Ok(())
            },
            Err(e) => {
                assert(self@.claims =~= old(self)@.claims);
                Err(RegistryError::Refused(e))
            },
        }
    }

    /// Finalizes the claim numbered `claim_id` in the name of `claimant`, at
    /// the time `now`, while the treasury holds `treasury_balance`.
    /// `Ok(None)` says that the claim was rejected; `Ok(Some(t))` that it was
    /// approved, with the payout `t` to carry out. An approved claim that
    /// cannot be paid stays pending, and the call fails.
    pub fn finalize(&mut self, claim_id: u64, claimant: Pubkey, now: i64, treasury_balance: u64) -> (r:
        Result<Option<Transfer>, RegistryError>)
        requires
            old(self).wf(),
        ensures
            final(self).wf(),
            (final(self)@, r) == old(self)@.finalize(claim_id, claimant, now, treasury_balance),
    {
        if claim_id >= self.claims.len() as u64 {
            return Err(RegistryError::NoSuchClaim);
        }
        proof {
            lemma_finalize_keeps_wf(self@, claim_id, claimant, now, treasury_balance);
        }
        let status = self.claims[claim_id as usize].status;
        let r = finalize_claim(
            &mut self.pool,
            &mut self.claims[claim_id as usize],
            claimant,
            now,
            treasury_balance,
        );
        match r {
            Ok(outcome) => {
                assert(self@.claims =~= old(self)@.claims.update(
                    claim_id as int,
                    self.claims@[claim_id as int]@,
                ));
                Ok(outcome)
            },
            Err(e) => {
                self.claims[claim_id as usize].status = status;
                assert(self@.claims =~= old(self)@.claims);
                Err(RegistryError::Refused(e))
            },
        }
    }
}

} // verus!
