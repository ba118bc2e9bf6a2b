//! Members of a pool: joining, depositing and withdrawing, and the claim
//! limit that follows a member's deposits.

use vstd::prelude::*;
use crate::errors::ErrorCode;
use crate::pubkey::Pubkey;
use crate::state::{Direction, Member, Pool, Transfer};

verus! {

/// The claim limit that an amount is worth at `pct` basis points: the
/// amount's share, rounded down.
pub open spec fn claim_share(amount: int, pct: int) -> int {
    (amount * pct) / 10000
}

/// The member that `join_pool` makes: nothing deposited, no claim limit,
/// active.
pub open spec fn fresh_member(pool_key: Pubkey, user: Pubkey) -> Member {
    Member {
        pool: pool_key,
        member: user,
        deposited_amount: 0,
        claim_limit: 0,
        last_claim_ts: 0,
        active: true,
    }
}

/// What joining does: the pool afterwards, and the new member's record or
/// the reason why there is none.
pub open spec fn join_spec(pool: Pool, pool_key: Pubkey, user: Pubkey) -> (
    Pool,
    Result<Member, ErrorCode>,
) {
    if pool.member_count == u64::MAX {
        (pool, Err(ErrorCode::ArithmeticOverflow))
    } else {
        (
            Pool { member_count: (pool.member_count + 1) as u64, ..pool },
            Ok(fresh_member(pool_key, user)),
        )
    }
}

/// What a deposit does: the pool and the member afterwards, and the result.
/// A refused deposit changes nothing.
pub open spec fn deposit_spec(pool: Pool, member: Member, amount: u64) -> (
    Pool,
    Member,
    Result<Transfer, ErrorCode>,
) {
    let share = claim_share(amount as int, pool.max_claim_pct as int);
    if !member.active {
        (pool, member, Err(ErrorCode::MemberNotActive))
    } else if member.deposited_amount + amount > u64::MAX || member.claim_limit + share > u64::MAX
        || pool.total_deposits + amount > u64::MAX {
        (pool, member, Err(ErrorCode::ArithmeticOverflow))
    } else {
        (
            Pool { total_deposits: (pool.total_deposits + amount) as u64, ..pool },
            Member {
                deposited_amount: (member.deposited_amount + amount) as u64,
                claim_limit: (member.claim_limit + share) as u64,
                ..member
            },
            Ok(
                Transfer {
                    direction: Direction::IntoTreasury,
                    party: member.member,
                    amount,
                },
            ),
        )
    }
}

/// What a withdrawal does: the pool and the member afterwards, and the
/// result. A refused withdrawal changes nothing. The conditions are tested in
/// the order in which they stand here. The claim limit goes down by the
/// share of the amount withdrawn, and stops at zero.
pub open spec fn withdraw_spec(pool: Pool, member: Member, amount: u64, treasury_balance: u64) -> (
    Pool,
    Member,
    Result<Transfer, ErrorCode>,
) {
    let share = claim_share(amount as int, pool.max_claim_pct as int);
    if !member.active {
        (pool, member, Err(ErrorCode::MemberNotActive))
    } else if member.deposited_amount < amount {
        (pool, member, Err(ErrorCode::InsufficientMemberDeposit))
    } else if treasury_balance < amount {
        (pool, member, Err(ErrorCode::InsufficientPoolFunds))
    } else if share > u64::MAX || pool.total_deposits < amount {
        (pool, member, Err(ErrorCode::ArithmeticOverflow))
    } else {
        (
            Pool { total_deposits: (pool.total_deposits - amount) as u64, ..pool },
            Member {
                deposited_amount: (member.deposited_amount - amount) as u64,
                claim_limit: if member.claim_limit >= share {
                    (member.claim_limit - share) as u64
                } else {
                    0
                },
                ..member
            },
            Ok(
                Transfer {
                    direction: Direction::OutOfTreasury,
                    party: member.member,
                    amount,
                },
            ),
        )
    }
}

/// By how much a member's claim limit lies above the share of what the
/// member holds in the pool; zero where it does not lie above it.
pub open spec fn limit_excess(member: Member, pct: u16) -> int {
    let entitled = claim_share(member.deposited_amount as int, pct as int);
    if member.claim_limit > entitled {
        member.claim_limit - entitled
    } else {
        0
    }
}

/// The share of a sum is the sum of the shares, or one more: each share is
/// rounded down by itself.
pub proof fn lemma_share_of_sum(a: int, b: int, pct: int)
    requires
        0 <= a,
        0 <= b,
        0 <= pct,
    ensures
        claim_share(a, pct) + claim_share(b, pct) <= claim_share(a + b, pct),
        claim_share(a + b, pct) <= claim_share(a, pct) + claim_share(b, pct) + 1,
{
    assert((a + b) * pct == a * pct + b * pct) by (nonlinear_arith);
    assert(0 <= a * pct && 0 <= b * pct) by (nonlinear_arith)
        requires
            0 <= a,
            0 <= b,
            0 <= pct,
    ;
}

/// At no more than 10000 basis points an amount's share lies between zero
/// and the amount.
pub proof fn lemma_share_within_amount(amount: int, pct: int)
    requires
        0 <= amount,
        0 <= pct <= 10000,
    ensures
        0 <= claim_share(amount, pct) <= amount,
{
    assert(0 <= amount * pct <= amount * 10000) by (nonlinear_arith)
        requires
            0 <= amount,
            0 <= pct <= 10000,
    ;
}

/// A new member's claim limit is the share of the member's deposit: both are
/// zero.
pub proof fn lemma_fresh_member_has_no_excess(pool_key: Pubkey, user: Pubkey, pct: u16)
    ensures
        limit_excess(fresh_member(pool_key, user), pct) == 0,
{
}

/// A deposit never lifts the claim limit further above the share of what
/// the member holds. So the limit of a member who has only ever deposited
/// is at most that share.
pub proof fn lemma_deposit_keeps_excess(pool: Pool, member: Member, amount: u64)
    requires
        deposit_spec(pool, member, amount).2 is Ok,
    ensures
        limit_excess(deposit_spec(pool, member, amount).1, pool.max_claim_pct) <= limit_excess(
            member,
            pool.max_claim_pct,
        ),
{
    lemma_share_of_sum(member.deposited_amount as int, amount as int, pool.max_claim_pct as int);
}

/// A withdrawal lifts the claim limit at most one unit further above the
/// share of what the member holds, and not at all when the amount's share
/// needs no rounding. Where the limit stops at zero it lies above nothing.
pub proof fn lemma_withdraw_adds_one(
    pool: Pool,
    member: Member,
    amount: u64,
    treasury_balance: u64,
)
    requires
        withdraw_spec(pool, member, amount, treasury_balance).2 is Ok,
    ensures
        limit_excess(
            withdraw_spec(pool, member, amount, treasury_balance).1,
            pool.max_claim_pct,
        ) <= limit_excess(member, pool.max_claim_pct) + 1,
        (amount * pool.max_claim_pct) % 10000 == 0 ==> limit_excess(
            withdraw_spec(pool, member, amount, treasury_balance).1,
            pool.max_claim_pct,
        ) <= limit_excess(member, pool.max_claim_pct),
        member.claim_limit <= claim_share(amount as int, pool.max_claim_pct as int) ==> limit_excess(
            withdraw_spec(pool, member, amount, treasury_balance).1,
            pool.max_claim_pct,
        ) == 0,
{
    let rest = member.deposited_amount - amount;
    let pct = pool.max_claim_pct as int;
    lemma_share_of_sum(rest, amount as int, pct);
    assert(0 <= rest * pct) by (nonlinear_arith)
        requires
            0 <= rest,
            0 <= pct,
    ;
    assert((rest + amount) * pct == rest * pct + amount * pct) by (nonlinear_arith);
}

/// Computes `claim_share` in 128 bits; `None` where it does not fit into 64.
pub fn checked_claim_share(amount: u64, pct: u16) -> (share: Option<u64>)
    ensures
        share == if claim_share(amount as int, pct as int) <= u64::MAX {
            Some(claim_share(amount as int, pct as int) as u64)
        } else {
            None
        },
{
    assert(amount * pct <= 0xffff_ffff_ffff_ffff * 0xffff) by (nonlinear_arith)
        requires
            0 <= amount <= 0xffff_ffff_ffff_ffff,
            0 <= pct <= 0xffff,
    ;
    let wide: u128 = (amount as u128) * (pct as u128) / 10000;
    if wide > u64::MAX as u128 {
        None
    } else {
        Some(wide as u64)
    }
}

/// Makes the record of a new member of the pool `pool_key`, and counts the
/// member in. Fails with `ArithmeticOverflow`, and leaves the pool as it was,
/// when the member count cannot grow.
pub fn join_pool(pool: &mut Pool, pool_key: Pubkey, user: Pubkey) -> (r: Result<Member, ErrorCode>)
    ensures
        (*final(pool), r) == join_spec(*old(pool), pool_key, user),
{
    match pool.member_count.checked_add(1) {
        Some(n) => {
            pool.member_count = n;
            Ok(
                Member {
                    pool: pool_key,
                    member: user,
                    deposited_amount: 0,
                    claim_limit: 0,
                    last_claim_ts: 0,
                    active: true,
                },
            )
        },
        None => Err(ErrorCode::ArithmeticOverflow),
    }
}

/// Books a deposit of `amount` by `member`.
///
/// The member has to be active. The member's deposit and the pool's total
/// grow by `amount`, the member's claim limit by the amount's share at the
/// pool's `max_claim_pct`. Where one of the three would leave the range of 64
/// bits the deposit fails with `ArithmeticOverflow` and nothing changes. The
/// result is the transfer into the treasury that the deposit consists of.
pub fn deposit(pool: &mut Pool, member: &mut Member, amount: u64) -> (r: Result<
    Transfer,
    ErrorCode,
>)
    ensures
        (*final(pool), *final(member), r) == deposit_spec(*old(pool), *old(member), amount),
{
    if !member.active {
        return Err(ErrorCode::MemberNotActive);
    }
    let deposited = match member.deposited_amount.checked_add(amount) {
        Some(d) => d,
        None => {
            return Err(ErrorCode::ArithmeticOverflow);
        },
    };
    let share = match checked_claim_share(amount, pool.max_claim_pct) {
        Some(s) => s,
        None => {
            return Err(ErrorCode::ArithmeticOverflow);
        },
    };
    let limit = match member.claim_limit.checked_add(share) {
        Some(l) => l,
        None => {
            return Err(ErrorCode::ArithmeticOverflow);
        },
    };
    let total = match pool.total_deposits.checked_add(amount) {
        Some(t) => t,
        None => {
            return Err(ErrorCode::ArithmeticOverflow);
        },
    };
    member.deposited_amount = deposited;
    member.claim_limit = limit;
    pool.total_deposits = total;
    Ok(Transfer { direction: Direction::IntoTreasury, party: member.member, amount })
}

/// Books a withdrawal of `amount` by `member`.
///
/// The member has to be active and to hold at least `amount` in the pool,
/// and the treasury, which holds `treasury_balance` at the time of the call,
/// has to cover it. The member's deposit and the pool's total go down by
/// `amount`; the claim limit goes down by the amount's share and stops at
/// zero. Whether the member has claims pending is not looked at. The result
/// is the transfer out of the treasury that the withdrawal consists of.
pub fn withdraw(pool: &mut Pool, member: &mut Member, amount: u64, treasury_balance: u64) -> (r:
    Result<Transfer, ErrorCode>)
    ensures
        (*final(pool), *final(member), r) == withdraw_spec(
            *old(pool),
            *old(member),
            amount,
            treasury_balance,
        ),
{
    if !member.active {
        return Err(ErrorCode::MemberNotActive);
    }
    if member.deposited_amount < amount {
        return Err(ErrorCode::InsufficientMemberDeposit);
    }
    if treasury_balance < amount {
        return Err(ErrorCode::InsufficientPoolFunds);
    }
    let share = match checked_claim_share(amount, pool.max_claim_pct) {
        Some(s) => s,
        None => {
            return Err(ErrorCode::ArithmeticOverflow);
        },
    };
    let total = match pool.total_deposits.checked_sub(amount) {
        Some(t) => t,
        None => {
            return Err(ErrorCode::ArithmeticOverflow);
        },
    };
    member.deposited_amount = member.deposited_amount - amount;
    member.claim_limit = member.claim_limit.saturating_sub(share);
    pool.total_deposits = total;
    Ok(Transfer { direction: Direction::OutOfTreasury, party: member.member, amount })
}

} // verus!
