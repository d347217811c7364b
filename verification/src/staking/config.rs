use vstd::prelude::*;

verus! {

/// Basis points.
pub const BP: u64 = 10_000;

/// The length of a payout time block, in seconds.
pub const PAYOUT_TIME_BLOCK: u64 = 300;

/// The slack granted to a payout that runs slightly early, in seconds.
pub const PAYOUT_TIME_BUFFER: u64 = 60;

/// How long an NFT must have been staked to count for rewards, in seconds.
pub const DAY_IN_SECONDS: u64 = 86_400;

} // verus!
