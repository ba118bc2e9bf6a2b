//! A mutual-protection pool: members deposit into a shared treasury, earn a
//! claim entitlement in proportion to what they deposited, and ask for payouts
//! that the membership approves or rejects by a quorum vote inside a bounded
//! window.
//!
//! The crate holds the accounting and governance rules only. Moving value is
//! left to the caller: an operation that moves value returns the [`Transfer`]
//! that has to accompany it. The current time and the treasury's balance are
//! handed in as plain values.

pub mod claims;
pub mod errors;
pub mod invariants;
pub mod membership;
pub mod model;
pub mod pool;
pub mod pubkey;
pub mod registry;
pub mod state;
pub mod voting;

pub use claims::{finalize_claim, submit_claim};
pub use errors::{ErrorCode, RegistryError};
pub use membership::{deposit, join_pool, withdraw};
pub use pool::initialize_pool;
pub use pubkey::Pubkey;
pub use registry::Registry;
pub use state::{Claim, ClaimStatus, ClaimType, Direction, Member, Pool, Transfer};
pub use voting::vote_claim;
