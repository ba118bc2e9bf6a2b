//! Proofs that every operation keeps a registry sound, and that its counters
//! only grow.

use vstd::prelude::*;
use crate::claims::{
    finalize_spec, lemma_finalize_changes_status_only, lemma_submitted_claim_wf, submit_spec,
};
use crate::errors::{ErrorCode, RegistryError};
use crate::membership::{
    deposit_spec, fresh_member, lemma_deposit_keeps_excess, lemma_withdraw_adds_one,
    withdraw_spec,
};
use crate::model::{paid_amount, total_deposited, total_paid, Operation, RegistryView};
use crate::pool::fresh_pool;
use crate::pubkey::Pubkey;
use crate::state::{ClaimType, ClaimView, Member, Pool};
use crate::voting::{lemma_vote_keeps_wf, vote_spec};

verus! {

/// A further member adds the member's deposit to the sum.
pub proof fn lemma_total_deposited_push(members: Seq<Member>, member: Member)
    ensures
        total_deposited(members.push(member)) == total_deposited(members)
            + member.deposited_amount,
{
    assert(members.push(member).drop_last() =~= members);
}

/// A changed record changes the sum by the difference of the two deposits.
pub proof fn lemma_total_deposited_update(members: Seq<Member>, i: int, member: Member)
    requires
        0 <= i < members.len(),
    ensures
        total_deposited(members.update(i, member)) == total_deposited(members)
            - members[i].deposited_amount + member.deposited_amount,
    decreases members.len(),
{
    if i == members.len() - 1 {
        assert(members.update(i, member).drop_last() =~= members.drop_last());
    } else {
        lemma_total_deposited_update(members.drop_last(), i, member);
        assert(members.update(i, member).drop_last() =~= members.drop_last().update(i, member));
    }
}

/// A further claim adds to the sum what it was paid.
pub proof fn lemma_total_paid_push(claims: Seq<ClaimView>, claim: ClaimView)
    ensures
        total_paid(claims.push(claim)) == total_paid(claims) + paid_amount(claim),
{
    assert(claims.push(claim).drop_last() =~= claims);
}

/// A changed claim changes the sum by the difference of what the two were
/// paid.
pub proof fn lemma_total_paid_update(claims: Seq<ClaimView>, i: int, claim: ClaimView)
    requires
        0 <= i < claims.len(),
    ensures
        total_paid(claims.update(i, claim)) == total_paid(claims) - paid_amount(claims[i])
            + paid_amount(claim),
    decreases claims.len(),
{
    if i == claims.len() - 1 {
        assert(claims.update(i, claim).drop_last() =~= claims.drop_last());
    } else {
        lemma_total_paid_update(claims.drop_last(), i, claim);
        assert(claims.update(i, claim).drop_last() =~= claims.drop_last().update(i, claim));
    }
}

/// Among sound members an identity stands at one place only.
pub proof fn lemma_position_is_unique(v: RegistryView, i: int)
    requires
        v.members_sound(),
        0 <= i < v.members.len(),
    ensures
        v.has_member(v.members[i].member),
        v.position(v.members[i].member) == i,
{
    let user = v.members[i].member;
    assert(v.has_member(user));
    let p = v.position(user);
    if p < i {
        assert(v.members[p].member != v.members[i].member);
    } else if i < p {
        assert(v.members[i].member != v.members[p].member);
    }
}

/// The registry of a pool whose parameters are valid and whose totals and
/// counters are zero is sound.
pub proof fn lemma_new_registry_wf(pool_key: Pubkey, pool: Pool)
    requires
        pool.wf(),
        pool.total_deposits == 0,
        pool.total_paid_out == 0,
        pool.claim_count == 0,
        pool.member_count == 0,
    ensures
        RegistryView::new(pool_key, pool).wf(),
{
}

/// Joining keeps the registry sound.
pub proof fn lemma_join_keeps_wf(v: RegistryView, user: Pubkey)
    requires
        v.wf(),
    ensures
        v.join(user).0.wf(),
{
    let after = v.join(user).0;
    if v.join(user).1 is Ok {
        let member = fresh_member(v.pool_key, user);
        assert(after.members == v.members.push(member));
        lemma_total_deposited_push(v.members, member);
        assert forall|i: int, j: int| 0 <= i < j < after.members.len() implies after.members[i].member
            != after.members[j].member by {
            if j == v.members.len() && v.members[i].member == user {
                assert(v.has_member(user));
            }
        }
    }
}

/// A deposit keeps the registry sound.
pub proof fn lemma_deposit_keeps_wf(v: RegistryView, user: Pubkey, amount: u64)
    requires
        v.wf(),
    ensures
        v.deposit(user, amount).0.wf(),
{
    let after = v.deposit(user, amount).0;
    if v.deposit(user, amount).1 is Ok {
        let i = v.position(user);
        let member = deposit_spec(v.pool, v.members[i], amount).1;
        assert(after.members == v.members.update(i, member));
        lemma_total_deposited_update(v.members, i, member);
        lemma_deposit_keeps_excess(v.pool, v.members[i], amount);
        assert(after.members[i].claim_limit <= crate::membership::claim_share(
            after.members[i].deposited_amount as int,
            after.pool.max_claim_pct as int,
        ) + after.withdrawals[i]);
    }
}

/// A withdrawal keeps the registry sound.
pub proof fn lemma_withdraw_keeps_wf(
    v: RegistryView,
    user: Pubkey,
    amount: u64,
    treasury_balance: u64,
)
    requires
        v.wf(),
    ensures
        v.withdraw(user, amount, treasury_balance).0.wf(),
{
    let after = v.withdraw(user, amount, treasury_balance).0;
    if v.withdraw(user, amount, treasury_balance).1 is Ok {
        let i = v.position(user);
        let member = withdraw_spec(v.pool, v.members[i], amount, treasury_balance).1;
        assert(after.members == v.members.update(i, member));
        lemma_total_deposited_update(v.members, i, member);
        lemma_withdraw_adds_one(v.pool, v.members[i], amount, treasury_balance);
        assert(after.members[i].claim_limit <= crate::membership::claim_share(
            after.members[i].deposited_amount as int,
            after.pool.max_claim_pct as int,
        ) + after.withdrawals[i]);
    }
}

/// Submitting a claim keeps the registry sound.
pub proof fn lemma_submit_keeps_wf(
    v: RegistryView,
    user: Pubkey,
    claim_type: ClaimType,
    requested_amount: u64,
    evidence_uri: Seq<char>,
    treasury_balance: u64,
    now: i64,
)
    requires
        v.wf(),
    ensures
        v.submit(user, claim_type, requested_amount, evidence_uri, treasury_balance, now).0.wf(),
{
    let (after, r) = v.submit(
        user,
        claim_type,
        requested_amount,
        evidence_uri,
        treasury_balance,
        now,
    );
    if r is Ok {
        let i = v.position(user);
        let made = submit_spec(
            v.pool,
            v.members[i],
            claim_type,
            requested_amount,
            evidence_uri,
            treasury_balance,
            now,
        ).1;
        let claim = made->Ok_0;
        lemma_submitted_claim_wf(
            v.pool,
            v.members[i],
            claim_type,
            requested_amount,
            evidence_uri,
            treasury_balance,
            now,
        );
        assert(after.claims == v.claims.push(claim));
        lemma_total_paid_push(v.claims, claim);
    }
}

/// A vote keeps the registry sound.
pub proof fn lemma_vote_keeps_registry_wf(
    v: RegistryView,
    claim_id: u64,
    voter: Pubkey,
    vote_yes: bool,
    now: i64,
)
    requires
        v.wf(),
    ensures
        v.vote(claim_id, voter, vote_yes, now).0.wf(),
{
    let (after, r) = v.vote(claim_id, voter, vote_yes, now);
    if r is Ok {
        let i = v.position(voter);
        let before = v.claims[claim_id as int];
        let claim = vote_spec(v.pool, before, v.members[i], vote_yes, now).0;
        lemma_vote_keeps_wf(v.pool, before, v.members[i], vote_yes, now);
        assert(after.claims == v.claims.update(claim_id as int, claim));
        lemma_total_paid_update(v.claims, claim_id as int, claim);
    }
}

/// Finalizing a claim keeps the registry sound.
pub proof fn lemma_finalize_keeps_wf(
    v: RegistryView,
    claim_id: u64,
    claimant: Pubkey,
    now: i64,
    treasury_balance: u64,
)
    requires
        v.wf(),
    ensures
        v.finalize(claim_id, claimant, now, treasury_balance).0.wf(),
{
    let (after, r) = v.finalize(claim_id, claimant, now, treasury_balance);
    if r is Ok {
        let before = v.claims[claim_id as int];
        let claim = finalize_spec(v.pool, before, claimant, now, treasury_balance).1;
        lemma_finalize_changes_status_only(v.pool, before, claimant, now, treasury_balance);
        assert(after.claims == v.claims.update(claim_id as int, claim));
        lemma_total_paid_update(v.claims, claim_id as int, claim);
    }
}

/// Whatever operation is asked of a sound registry, the registry is sound
/// afterwards.
pub proof fn lemma_apply_keeps_wf(v: RegistryView, op: Operation)
    requires
        v.wf(),
    ensures
        v.apply(op).wf(),
{
    match op {
        Operation::Join { user } => lemma_join_keeps_wf(v, user),
        Operation::Deposit { user, amount } => lemma_deposit_keeps_wf(v, user, amount),
        Operation::Withdraw { user, amount, treasury_balance } => lemma_withdraw_keeps_wf(
            v,
            user,
            amount,
            treasury_balance,
        ),
        Operation::Submit {
            user,
            claim_type,
            requested_amount,
            evidence_uri,
            treasury_balance,
            now,
        } => lemma_submit_keeps_wf(
            v,
            user,
            claim_type,
            requested_amount,
            evidence_uri,
            treasury_balance,
            now,
        ),
        Operation::Vote { claim_id, voter, vote_yes, now } => lemma_vote_keeps_registry_wf(
            v,
            claim_id,
            voter,
            vote_yes,
            now,
        ),
        Operation::Finalize { claim_id, claimant, now, treasury_balance } => lemma_finalize_keeps_wf(
            v,
            claim_id,
            claimant,
            now,
            treasury_balance,
        ),
    }
}

/// Every state that operations reach from a sound registry is sound. In
/// particular, in every such state the pool's total of deposits is the sum
/// of what its members hold, no claim limit lies above the share of the
/// member's deposit by more than the number of the member's withdrawals, and
/// on no claim is an identity counted twice or are there more than 32 voters.
pub proof fn lemma_run_keeps_wf(v: RegistryView, ops: Seq<Operation>)
    requires
        v.wf(),
    ensures
        v.run(ops).wf(),
        v.run(ops).deposits_balanced(),
        v.run(ops).limits_bounded(),
        v.run(ops).votes_counted_once(),
        v.run(ops).numbered_in_order(),
    decreases ops.len(),
{
    if ops.len() > 0 {
        lemma_run_keeps_wf(v, ops.drop_last());
        lemma_apply_keeps_wf(v.run(ops.drop_last()), ops.last());
    }
}

/// Every state of a pool is sound: the registry of a pool made from valid
/// parameters is, and so is whatever any operations make of it.
pub proof fn lemma_reachable_states_are_sound(
    pool_key: Pubkey,
    admin: Pubkey,
    accepted_mint: Pubkey,
    max_claim_pct: u16,
    vote_window_secs: i64,
    quorum: u8,
    approval_ratio: u16,
    ops: Seq<Operation>,
)
    requires
        Pool::valid_config(max_claim_pct, vote_window_secs, quorum, approval_ratio),
    ensures
        RegistryView::new(
            pool_key,
            fresh_pool(
                admin,
                accepted_mint,
                max_claim_pct,
                vote_window_secs,
                quorum,
                approval_ratio,
            ),
        ).run(ops).wf(),
{
    let pool = fresh_pool(
        admin,
        accepted_mint,
        max_claim_pct,
        vote_window_secs,
        quorum,
        approval_ratio,
    );
    lemma_new_registry_wf(pool_key, pool);
    lemma_run_keeps_wf(RegistryView::new(pool_key, pool), ops);
}

/// An operation is carried out as a whole or not at all: a refused
/// operation leaves the registry as it was.
pub proof fn lemma_refused_operation_changes_nothing(v: RegistryView, op: Operation)
    requires
        v.refusal(op) is Some,
    ensures
        v.apply(op) == v,
{
}

/// No operation is refused for the member's pending claims or for the
/// claim's type.
pub proof fn lemma_errors_never_reported(v: RegistryView, op: Operation)
    ensures
        v.refusal(op) != Some(RegistryError::Refused(ErrorCode::PendingClaimsExist)),
        v.refusal(op) != Some(RegistryError::Refused(ErrorCode::InvalidClaimType)),
{
}

/// No operation takes a record away, gives a member another identity or a
/// claim another number, or lowers a counter.
pub proof fn lemma_apply_extends(v: RegistryView, op: Operation)
    requires
        v.wf(),
    ensures
        v.apply(op).extends(v),
{
    match op {
        Operation::Join { user } => {},
        Operation::Deposit { user, amount } => {},
        Operation::Withdraw { user, amount, treasury_balance } => {},
        Operation::Submit {
            user,
            claim_type,
            requested_amount,
            evidence_uri,
            treasury_balance,
            now,
        } => {},
        Operation::Vote { claim_id, voter, vote_yes, now } => {},
        Operation::Finalize { claim_id, claimant, now, treasury_balance } => {},
    }
}

/// What `lemma_apply_extends` says of one operation holds of any number of
/// them: the counters never go down, and the records made stay in place.
pub proof fn lemma_run_extends(v: RegistryView, ops: Seq<Operation>)
    requires
        v.wf(),
    ensures
        v.run(ops).extends(v),
    decreases ops.len(),
{
    if ops.len() > 0 {
        lemma_run_extends(v, ops.drop_last());
        lemma_run_keeps_wf(v, ops.drop_last());
        lemma_apply_extends(v.run(ops.drop_last()), ops.last());
    }
}

/// Each member who joins raises the member count by one.
pub proof fn lemma_join_counts_up(v: RegistryView, user: Pubkey)
    requires
        v.join(user).1 is Ok,
    ensures
        v.join(user).0.pool.member_count == v.pool.member_count + 1,
        v.join(user).0.pool.claim_count == v.pool.claim_count,
{
}

/// A claim's number is the claim count at its submission, which then grows
/// by one. So, whatever happens in between, a claim submitted later has a
/// greater number: no number is given twice.
pub proof fn lemma_claim_numbers_grow(
    v: RegistryView,
    first: Operation,
    between: Seq<Operation>,
    second: Operation,
)
    requires
        v.wf(),
        first is Submit,
        second is Submit,
        v.outcome_id(first) is Some,
        v.apply(first).run(between).outcome_id(second) is Some,
    ensures
        v.outcome_id(first)->0 == v.pool.claim_count,
        v.apply(first).pool.claim_count == v.pool.claim_count + 1,
        v.outcome_id(first)->0 < v.apply(first).run(between).outcome_id(second)->0,
{
    lemma_apply_keeps_wf(v, first);
    lemma_run_extends(v.apply(first), between);
}

} // verus!
