//! The making of a pool.

use vstd::prelude::*;
use crate::errors::ErrorCode;
use crate::pubkey::Pubkey;
use crate::state::Pool;

verus! {

/// The pool that `initialize_pool` makes from valid parameters: the
/// parameters as given, and every total and counter at zero.
pub open spec fn fresh_pool(
    admin: Pubkey,
    accepted_mint: Pubkey,
    max_claim_pct: u16,
    vote_window_secs: i64,
    quorum: u8,
    approval_ratio: u16,
) -> Pool {
    Pool {
        admin,
        accepted_mint,
        total_deposits: 0,
        total_paid_out: 0,
        claim_count: 0,
        member_count: 0,
        max_claim_pct,
        vote_window_secs,
        quorum,
        approval_ratio,
    }
}

/// Makes the ledger of a new pool.
///
/// The parameters are accepted when both values in basis points are at most
/// 10000 and the vote window and the quorum are positive; any other
/// parameters give `InvalidGovernanceConfig`.
pub fn initialize_pool(
    admin: Pubkey,
    accepted_mint: Pubkey,
    max_claim_pct: u16,
    vote_window_secs: i64,
    quorum: u8,
    approval_ratio: u16,
) -> (r: Result<Pool, ErrorCode>)
    ensures
        Pool::valid_config(max_claim_pct, vote_window_secs, quorum, approval_ratio) ==> r == Ok::<
            Pool,
            ErrorCode,
        >(
            fresh_pool(
                admin,
                accepted_mint,
                max_claim_pct,
                vote_window_secs,
                quorum,
                approval_ratio,
            ),
        ),
        !Pool::valid_config(max_claim_pct, vote_window_secs, quorum, approval_ratio) ==> r == Err::<
            Pool,
            ErrorCode,
        >(ErrorCode::InvalidGovernanceConfig),
        r is Ok ==> r->Ok_0.wf(),
{
    if !(max_claim_pct <= 10000 && vote_window_secs > 0 && quorum > 0 && approval_ratio <= 10000) {
        return Err(ErrorCode::InvalidGovernanceConfig);
    }
    Ok(
        Pool {
            admin,
            accepted_mint,
            total_deposits: 0,
            total_paid_out: 0,
            claim_count: 0,
            member_count: 0,
            max_claim_pct,
            vote_window_secs,
            quorum,
            approval_ratio,
        },
    )
}

} // verus!
