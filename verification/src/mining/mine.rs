//! Difficulty retargeting and the synchronous nonce search.

use vstd::prelude::*;

use crate::mining::constants::{EXPECTED_CYCLE_NANOS, MAX_FACTOR_PERCENT, MIN_FACTOR_PERCENT};
use crate::mining::error::Error;
use crate::mining::miner::{Miner, MinerView, Sealed};
use crate::util::types::block::BlockView;
use crate::util::types::chain::{
    chain_wf, lemma_push_preserves_chain, validate_and_push_spec, Error as ChainError,
};
use crate::util::types::header::{compact_target, compact_valid};
use crate::util::uint256::{uint256_limit, Uint256};

verus! {

/// The retargeting factor in hundredths: the elapsed cycle time over the
/// expected cycle time, times 100, rounded to the nearest integer (halves
/// up), and clamped to `MIN_FACTOR_PERCENT ..= MAX_FACTOR_PERCENT`.
pub open spec fn scaled_factor_of(elapsed_nanos: nat) -> nat {
    let rounded = (200 * elapsed_nanos + EXPECTED_CYCLE_NANOS) / (2 * EXPECTED_CYCLE_NANOS);
    if rounded < MIN_FACTOR_PERCENT {
        MIN_FACTOR_PERCENT as nat
    } else if rounded > MAX_FACTOR_PERCENT {
        MAX_FACTOR_PERCENT as nat
    } else {
        rounded as nat
    }
}

/// The target after an adjustment: the target is divided by 100 first,
/// truncating, and the quotient is then multiplied by the scaled factor.
pub open spec fn adjusted_target_of(target: nat, elapsed_nanos: nat) -> nat {
    scaled_factor_of(elapsed_nanos) * (target / 100)
}

/// Compute the retargeting factor, in hundredths, of a cycle that took
/// `elapsed_nanos` nanoseconds.
pub fn scaled_factor(elapsed_nanos: u128) -> (factor: u64)
    ensures
        factor == scaled_factor_of(elapsed_nanos as nat),
        MIN_FACTOR_PERCENT <= factor <= MAX_FACTOR_PERCENT,
{
    let expected: u128 = EXPECTED_CYCLE_NANOS as u128;
    if elapsed_nanos >= 4 * expected {
        assert((200 * elapsed_nanos + 1_000_000_000) / 2_000_000_000 >= 400);
        MAX_FACTOR_PERCENT
    } else {
        let rounded: u128 = (200 * elapsed_nanos + expected) / (2 * expected);
        assert(rounded == (200 * elapsed_nanos + 1_000_000_000) / 2_000_000_000);
        if rounded < MIN_FACTOR_PERCENT as u128 {
            MIN_FACTOR_PERCENT
        } else {
            rounded as u64
        }
    }
}

/// Whether the adjustment of `target` after a cycle that took
/// `elapsed_nanos` nanoseconds fits in 256 bits.
pub fn adjustment_fits(target: &Uint256, elapsed_nanos: u128) -> (fits: bool)
    ensures
        fits == (adjusted_target_of(target@, elapsed_nanos as nat) < uint256_limit()),
{
    let factor = Uint256::from_u128(scaled_factor(elapsed_nanos) as u128);
    let scaled_target = target.div(Uint256::from_u128(100));
    factor.checked_mul(scaled_target).is_some()
}

/// Adjust `target` after a cycle that took `elapsed_nanos` nanoseconds. The
/// target becomes the scaled factor times a hundredth of the old target. An
/// adjustment that does not fit in 256 bits is fatal to the miner and has
/// no place here: `adjustment_fits` tells beforehand.
pub fn adjust_target(target: &mut Uint256, elapsed_nanos: u128)
    requires
        adjusted_target_of(old(target)@, elapsed_nanos as nat) < uint256_limit(),
    ensures
        final(target)@ == adjusted_target_of(old(target)@, elapsed_nanos as nat),
{
    let factor = Uint256::from_u128(scaled_factor(elapsed_nanos) as u128);
    let scaled_target = target.div(Uint256::from_u128(100));
    *target = factor.checked_mul(scaled_target).unwrap();
}

/// A cycle that took exactly the expected time has factor 1.00: the target
/// loses what the division by 100 truncates, and nothing else. Adjusting
/// again by the same factor changes nothing more, and such an adjustment
/// always fits.
pub proof fn lemma_adjust_identity(target: nat)
    ensures
        scaled_factor_of(EXPECTED_CYCLE_NANOS as nat) == 100,
        adjusted_target_of(target, EXPECTED_CYCLE_NANOS as nat) == target / 100 * 100,
        adjusted_target_of(
            adjusted_target_of(target, EXPECTED_CYCLE_NANOS as nat),
            EXPECTED_CYCLE_NANOS as nat,
        ) == adjusted_target_of(target, EXPECTED_CYCLE_NANOS as nat),
        adjusted_target_of(target, EXPECTED_CYCLE_NANOS as nat) <= target,
{
    lemma_factor_at_expected();
}

/// The factor of a cycle that took exactly the expected time is 1.00.
proof fn lemma_factor_at_expected()
    ensures
        scaled_factor_of(EXPECTED_CYCLE_NANOS as nat) == 100,
{
    let rounded = (200 * EXPECTED_CYCLE_NANOS as nat + EXPECTED_CYCLE_NANOS) / (2
        * EXPECTED_CYCLE_NANOS);
    assert(rounded == 201_000_000_000int / 2_000_000_000int);
}

/// The factor never leaves `MIN_FACTOR_PERCENT ..= MAX_FACTOR_PERCENT`: a
/// cycle that took at least four times the expected time has factor 4.00
/// exactly, and one that took no time at all has factor 0.25 exactly.
pub proof fn lemma_factor_clamped(elapsed_nanos: nat)
    ensures
        MIN_FACTOR_PERCENT <= scaled_factor_of(elapsed_nanos) <= MAX_FACTOR_PERCENT,
        elapsed_nanos >= 4 * EXPECTED_CYCLE_NANOS ==> scaled_factor_of(elapsed_nanos)
            == MAX_FACTOR_PERCENT,
        scaled_factor_of(1000 * EXPECTED_CYCLE_NANOS as nat) == MAX_FACTOR_PERCENT,
        scaled_factor_of(0) == MIN_FACTOR_PERCENT,
{
    let rounded = (200 * elapsed_nanos + EXPECTED_CYCLE_NANOS) / (2 * EXPECTED_CYCLE_NANOS);
    assert(rounded == (200 * elapsed_nanos + 1_000_000_000) / 2_000_000_000);
    let huge = (200 * (1000 * EXPECTED_CYCLE_NANOS as nat) + EXPECTED_CYCLE_NANOS) / (2
        * EXPECTED_CYCLE_NANOS);
    assert(huge == 200_001_000_000_000int / 2_000_000_000int);
    let none = (200 * 0nat + EXPECTED_CYCLE_NANOS) / (2 * EXPECTED_CYCLE_NANOS);
    assert(none == 1_000_000_000int / 2_000_000_000int);
}

/// A slower cycle never gives a smaller factor.
pub proof fn lemma_factor_monotonic(faster: nat, slower: nat)
    requires
        faster <= slower,
    ensures
        scaled_factor_of(faster) <= scaled_factor_of(slower),
{
    let a = (200 * faster + EXPECTED_CYCLE_NANOS) / (2 * EXPECTED_CYCLE_NANOS);
    let b = (200 * slower + EXPECTED_CYCLE_NANOS) / (2 * EXPECTED_CYCLE_NANOS);
    assert(a == (200 * faster + 1_000_000_000) / 2_000_000_000);
    assert(b == (200 * slower + 1_000_000_000) / 2_000_000_000);
}

/// The direction and the reach of an adjustment: a cycle that was no slower
/// than expected never raises the target, one that was no faster than
/// expected lowers it by no more than the division by 100 truncates, and no
/// cycle moves a hundredth of the target by more than a factor of four
/// either way.
pub proof fn lemma_adjust_direction(target: nat, elapsed_nanos: nat)
    ensures
        elapsed_nanos <= EXPECTED_CYCLE_NANOS ==> adjusted_target_of(target, elapsed_nanos)
            <= target,
        elapsed_nanos >= EXPECTED_CYCLE_NANOS ==> adjusted_target_of(target, elapsed_nanos)
            >= target / 100 * 100,
        MIN_FACTOR_PERCENT * (target / 100) <= adjusted_target_of(target, elapsed_nanos)
            <= MAX_FACTOR_PERCENT * (target / 100),
{
    lemma_factor_at_expected();
    lemma_factor_clamped(elapsed_nanos);
    let factor = scaled_factor_of(elapsed_nanos);
    let hundredth = target / 100;
    if elapsed_nanos <= EXPECTED_CYCLE_NANOS {
        lemma_factor_monotonic(elapsed_nanos, EXPECTED_CYCLE_NANOS as nat);
        assert(factor * hundredth <= 100 * hundredth) by (nonlinear_arith)
            requires
                factor <= 100,
        ;
    }
    if elapsed_nanos >= EXPECTED_CYCLE_NANOS {
        lemma_factor_monotonic(EXPECTED_CYCLE_NANOS as nat, elapsed_nanos);
        assert(factor * hundredth >= 100 * hundredth) by (nonlinear_arith)
            requires
                factor >= 100,
        ;
    }
    assert(25 * hundredth <= factor * hundredth <= 400 * hundredth) by (nonlinear_arith)
        requires
            25 <= factor <= 400,
    ;
}

/// Whether `nonce` is the first nonce, from the miner's current one on, that
/// solves its search.
pub open spec fn first_solution(miner: MinerView, nonce: u32) -> bool {
    &&& miner.nonce <= nonce
    &&& miner.solved_by(nonce)
    &&& forall|n: u32| miner.nonce <= n < nonce ==> !#[trigger] miner.solved_by(n)
}

/// Whether no nonce, from the miner's current one on, solves its search.
pub open spec fn no_solution(miner: MinerView) -> bool {
    forall|n: u32| miner.nonce <= n ==> !#[trigger] miner.solved_by(n)
}

/// Mine a block: try nonce after nonce, from the miner's current one on,
/// until the proof-of-work digest meets the target, then seal the block.
/// Nothing arrives from the network while this search runs.
///
/// The search ends at the first nonce that solves it. It fails with
/// `NonceOverflow` if no nonce does, and with `TargetOverflow` if the block
/// completes a cycle and the adjusted target does not fit in 256 bits; in
/// both cases the miner stays at the last nonce tried.
pub fn mine_block(miner: &mut Miner, timestamp: u32, elapsed_nanos: u128) -> (result: Result<
    Sealed,
    Error,
>)
    requires
        old(miner)@.hashable(),
    ensures
        match result {
            Ok(sealed) => {
                let found = MinerView { nonce: sealed.block@.header.nonce, ..old(miner)@ };
                &&& first_solution(old(miner)@, found.nonce)
                &&& !found.seal_overflows(elapsed_nanos as nat)
                &&& final(miner)@ == found.after_seal(timestamp, elapsed_nanos as nat)
                &&& sealed.block@ == found.sealed_block(timestamp)
                &&& sealed.cycle_restarted == found.completes_cycle()
            },
            Err(Error::NonceOverflow) => {
                &&& no_solution(old(miner)@)
                &&& final(miner)@ == (MinerView { nonce: u32::MAX, ..old(miner)@ })
            },
            Err(Error::TargetOverflow) => {
                &&& first_solution(old(miner)@, final(miner)@.nonce)
                &&& final(miner)@.seal_overflows(elapsed_nanos as nat)
                &&& final(miner)@ == (MinerView { nonce: final(miner)@.nonce, ..old(miner)@ })
            },
        },
{
    loop
        invariant
            miner@ == (MinerView { nonce: miner@.nonce, ..old(miner)@ }),
            old(miner)@.nonce <= miner@.nonce,
            old(miner)@.hashable(),
            forall|n: u32|
                old(miner)@.nonce <= n < miner@.nonce ==> !#[trigger] old(miner)@.solved_by(n),
        decreases u32::MAX - miner@.nonce,
    {
        if miner.nonce_meets_target() {
            return miner.seal(timestamp, elapsed_nanos);
        }
        match miner.advance(None, None) {
            Ok(_) => {},
            Err(err) => {
                return Err(err);
            },
        }
    }
}

/// A block mined on the tip of a chain extends that chain: if the miner
/// extends the chain's last block and its target is no larger than the one
/// its header bits encode, the block sealed at a nonce that solves the
/// search is appended by `validate_and_push`.
pub proof fn lemma_mined_block_extends_chain(
    chain: Seq<BlockView>,
    miner: MinerView,
    nonce: u32,
    timestamp: u32,
)
    requires
        chain_wf(chain),
        compact_valid(miner.bits),
        miner.target <= compact_target(miner.bits),
        miner.prev_block_hash == chain.last().digest(),
        first_solution(miner, nonce),
    ensures
        validate_and_push_spec(
            chain,
            (MinerView { nonce, ..miner }).sealed_block(timestamp),
        ) == (
            chain.push((MinerView { nonce, ..miner }).sealed_block(timestamp)),
            Ok::<(), ChainError>(()),
        ),
        chain_wf(chain.push((MinerView { nonce, ..miner }).sealed_block(timestamp))),
{
    let block = (MinerView { nonce, ..miner }).sealed_block(timestamp);
    lemma_push_preserves_chain(chain, block);
}

} // verus!
