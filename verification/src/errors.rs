//! The failures that an operation on a pool can report.

use vstd::prelude::*;

verus! {

/// Why an operation was refused. Every refusal names its cause, so that a
/// client can tell a condition that time will mend from one that it will not.
#[derive(Clone, Copy, Debug, PartialEq, Eq, Structural)]
pub enum ErrorCode {
    /// The treasury holds less than the amount that has to leave it.
    InsufficientPoolFunds,
    /// The requested amount is above the member's claim limit.
    ClaimExceedsLimit,
    /// The voter's identity is already among the claim's voters.
    AlreadyVoted,
    /// The claim's vote window is still open.
    VoteWindowNotExpired,
    /// The claim's vote window has closed.
    VoteWindowExpired,
    /// The claim has left the pending state.
    ClaimNotPending,
    /// The member's record is not active.
    MemberNotActive,
    /// The member has deposited less than the amount to withdraw.
    InsufficientMemberDeposit,
    /// The member has claims that are still pending. No operation reports
    /// it: a withdrawal does not look at the member's claims.
    PendingClaimsExist,
    /// The claim's type is none of the known ones. No operation reports it:
    /// every value of `ClaimType` is a known one.
    InvalidClaimType,
    /// The evidence reference is longer than a claim record can hold.
    EvidenceUriTooLong,
    /// A counter or a balance would leave the range of its type.
    ArithmeticOverflow,
    /// Fewer votes were cast than the pool's quorum asks for.
    QuorumNotReached,
    /// The claim already has as many voters as a claim record can hold.
    MaxVotersReached,
    /// The governance parameters are outside their ranges.
    InvalidGovernanceConfig,
    /// The identity given is not the claim's claimant.
    InvalidClaimant,
}

/// Why a registry refused an operation.
#[derive(Clone, Copy, Debug, PartialEq, Eq, Structural)]
pub enum RegistryError {
    /// The identity is a member of the pool already.
    MemberExists,
    /// The identity is no member of the pool.
    NoSuchMember,
    /// The pool has no claim of that number.
    NoSuchClaim,
    /// The records were found, and the pool's rules refuse the operation.
    Refused(ErrorCode),
}

} // verus!
