//! The parameters of difficulty retargeting.

use vstd::prelude::*;

verus! {

/// The number of blocks to process between difficulty adjustments.
pub const CYCLE_BLOCK_LIMIT: u32 = 500;

/// The target block time, in nanoseconds (2 ms).
pub const TARGET_BLOCK_TIME_NANOS: u64 = 2_000_000;

/// The time that a full cycle is expected to take, in nanoseconds:
/// `CYCLE_BLOCK_LIMIT` times `TARGET_BLOCK_TIME_NANOS`.
pub const EXPECTED_CYCLE_NANOS: u64 = 1_000_000_000;

/// The minimum factor by which to multiply the target per adjustment, in
/// hundredths (0.25).
pub const MIN_FACTOR_PERCENT: u64 = 25;

/// The maximum factor by which to multiply the target per adjustment, in
/// hundredths (4.00).
pub const MAX_FACTOR_PERCENT: u64 = 400;

/// The expected cycle time is the block limit times the target block time.
pub proof fn lemma_expected_cycle()
    ensures
        EXPECTED_CYCLE_NANOS == CYCLE_BLOCK_LIMIT * TARGET_BLOCK_TIME_NANOS,
{
}

} // verus!
