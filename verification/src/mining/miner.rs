//! The state of the nonce search and its transitions. The search itself is
//! driven from outside: between two attempts the driver hands over whatever
//! arrived from the network, and the miner answers with what has to go out.

use vstd::prelude::*;

use crate::mining::constants::CYCLE_BLOCK_LIMIT;
use crate::mining::error::Error;
use crate::mining::mine::{adjust_target, adjusted_target_of, adjustment_fits};
use crate::util::constants::SHA256_HASH_SIZE;
use crate::util::types::block::{
    digest_meets_target, meets_target, pow_digest, pow_digest_of, pow_hashable, txns_hashable,
    Block, BlockView,
};
use crate::util::types::header::{compact_target, compact_valid, decode_target, Header, HeaderView};
use crate::util::types::txn::{txn_views, Txn, TxnView};
use crate::util::uint256::{uint256_limit, Uint256};

verus! {

/// What a miner holds, as plain values.
pub struct MinerView {
    /// The target that a proof-of-work digest must not exceed.
    pub target: nat,
    /// The number of blocks mined in the current cycle.
    pub cycle_block_count: u32,
    /// The version that mined headers carry.
    pub version: u32,
    /// The merkle root that mined headers carry.
    pub merkle_root: Seq<u8>,
    /// The compact target that mined headers carry.
    pub bits: u32,
    /// The digest of the block that the next block extends.
    pub prev_block_hash: Seq<u8>,
    /// The pending transactions, in order of arrival.
    pub mempool: Seq<TxnView>,
    /// The nonce to try next.
    pub nonce: u32,
}

/// The number of transactions as a block declares it: the length of the
/// list, or the largest count if the list is longer than that.
pub open spec fn declared_txn_count(len: nat) -> u32 {
    if len <= u32::MAX {
        len as u32
    } else {
        u32::MAX
    }
}

impl MinerView {
    /// A miner at first run: the largest target, nothing mined, nothing
    /// pending, every header field zero.
    pub open spec fn initial() -> MinerView {
        MinerView {
            target: (uint256_limit() - 1) as nat,
            cycle_block_count: 0,
            version: 0,
            merkle_root: Seq::new(32, |i: int| 0u8),
            bits: 0,
            prev_block_hash: Seq::new(32, |i: int| 0u8),
            mempool: Seq::empty(),
            nonce: 0,
        }
    }

    /// Whether the proof-of-work preimage of the mempool is short enough to
    /// be hashed.
    pub open spec fn hashable(self) -> bool {
        pow_hashable(self.mempool)
    }

    /// Whether `nonce` solves the current search.
    pub open spec fn solved_by(self, nonce: u32) -> bool {
        meets_target(pow_digest_of(self.mempool, nonce), self.target)
    }

    /// The header of the block that is sealed now.
    pub open spec fn sealed_header(self, timestamp: u32) -> HeaderView {
        HeaderView {
            version: self.version,
            prev_block_hash: self.prev_block_hash,
            merkle_root: self.merkle_root,
            timestamp,
            bits: self.bits,
            nonce: self.nonce,
        }
    }

    /// The block that is sealed now: the current header fields, the mempool
    /// and the current nonce.
    pub open spec fn sealed_block(self, timestamp: u32) -> BlockView {
        BlockView {
            header: self.sealed_header(timestamp),
            txn_count: declared_txn_count(self.mempool.len()),
            txns: self.mempool,
        }
    }

    /// Whether sealing now completes a cycle.
    pub open spec fn completes_cycle(self) -> bool {
        self.cycle_block_count + 1 >= CYCLE_BLOCK_LIMIT
    }

    /// Whether sealing now fails: it completes a cycle and the adjusted
    /// target does not fit in 256 bits.
    pub open spec fn seal_overflows(self, elapsed_nanos: nat) -> bool {
        self.completes_cycle() && adjusted_target_of(self.target, elapsed_nanos)
            >= uint256_limit()
    }

    /// The miner after sealing a block: the next block extends the sealed
    /// one, the mempool is empty, the search starts over, and the target is
    /// adjusted if the cycle is complete.
    pub open spec fn after_seal(self, timestamp: u32, elapsed_nanos: nat) -> MinerView {
        MinerView {
            target: if self.completes_cycle() {
                adjusted_target_of(self.target, elapsed_nanos)
            } else {
                self.target
            },
            cycle_block_count: if self.completes_cycle() {
                0
            } else {
                (self.cycle_block_count + 1) as u32
            },
            prev_block_hash: self.sealed_header(timestamp).digest(),
            mempool: Seq::empty(),
            nonce: 0,
            ..self
        }
    }

    /// The miner after an attempt that failed: an arrived transaction is
    /// pending, an arrived block is the one to extend, the nonce is one more.
    pub open spec fn after_advance(
        self,
        txn: Option<TxnView>,
        block: Option<BlockView>,
    ) -> MinerView {
        MinerView {
            mempool: match txn {
                Some(t) => self.mempool.push(t),
                None => self.mempool,
            },
            prev_block_hash: match block {
                Some(b) => b.digest(),
                None => self.prev_block_hash,
            },
            nonce: (self.nonce + 1) as u32,
            ..self
        }
    }
}

/// The plain value of a transaction that may be there.
pub open spec fn txn_option_view(txn: Option<Txn>) -> Option<TxnView> {
    match txn {
        Some(t) => Some(t@),
        None => None,
    }
}

/// The plain value of a block that may be there.
pub open spec fn block_option_view(block: Option<Block>) -> Option<BlockView> {
    match block {
        Some(b) => Some(b@),
        None => None,
    }
}

/// What sealing a block hands to the driver.
pub struct Sealed {
    /// The mined block, to be sent out.
    pub block: Block,
    /// Whether a new cycle has begun, so that its time is measured from now.
    pub cycle_restarted: bool,
}

/// The state of the nonce search.
pub struct Miner {
    target: Uint256,
    cycle_block_count: u32,
    version: u32,
    merkle_root: [u8; SHA256_HASH_SIZE],
    bits: u32,
    prev_block_hash: [u8; SHA256_HASH_SIZE],
    mempool: Vec<Txn>,
    nonce: u32,
}

impl View for Miner {
    type V = MinerView;

    closed spec fn view(&self) -> MinerView {
        MinerView {
            target: self.target@,
            cycle_block_count: self.cycle_block_count,
            version: self.version,
            merkle_root: self.merkle_root@,
            bits: self.bits,
            prev_block_hash: self.prev_block_hash@,
            mempool: txn_views(self.mempool@),
            nonce: self.nonce,
        }
    }
}

impl Miner {
    /// A miner at first run.
    pub fn new() -> (miner: Miner)
        ensures
            miner@ == MinerView::initial(),
    {
        let miner = Miner {
            target: Uint256::max_value(),
            cycle_block_count: 0,
            version: 0,
            merkle_root: [0u8; SHA256_HASH_SIZE],
            bits: 0,
            prev_block_hash: [0u8; SHA256_HASH_SIZE],
            mempool: Vec::new(),
            nonce: 0,
        };
        assert(miner@.merkle_root =~= MinerView::initial().merkle_root);
        assert(miner@.prev_block_hash =~= MinerView::initial().prev_block_hash);
        assert(miner@.mempool =~= MinerView::initial().mempool);
        miner
    }

    /// Set the difficulty: mined headers carry `bits`, and the search goes
    /// against the target that `bits` encode. Nothing changes, and `false`
    /// is returned, if `bits` encode no target.
    pub fn set_difficulty(&mut self, bits: u32) -> (set: bool)
        ensures
            set == compact_valid(bits),
            set ==> final(self)@ == (MinerView {
                bits,
                target: compact_target(bits),
                ..old(self)@
            }),
            !set ==> final(self)@ == old(self)@,
    {
        match decode_target(bits) {
            Some(target) => {
                self.bits = bits;
                self.target = target;
                true
            },
            None => false,
        }
    }

    /// Set the block that the next mined block extends.
    pub fn set_tip(&mut self, prev_block_hash: [u8; SHA256_HASH_SIZE])
        ensures
            final(self)@ == (MinerView { prev_block_hash: prev_block_hash@, ..old(self)@ }),
    {
        self.prev_block_hash = prev_block_hash;
    }

    /// Set the nonce to try next.
    pub fn set_nonce(&mut self, nonce: u32)
        ensures
            final(self)@ == (MinerView { nonce, ..old(self)@ }),
    {
        self.nonce = nonce;
    }

    /// Return the current target.
    pub fn target(&self) -> (target: Uint256)
        ensures
            target@ == self@.target,
    {
        self.target
    }

    /// Return the nonce to try next.
    pub fn nonce(&self) -> (nonce: u32)
        ensures
            nonce == self@.nonce,
    {
        self.nonce
    }

    /// Return the number of blocks mined in the current cycle.
    pub fn cycle_block_count(&self) -> (count: u32)
        ensures
            count == self@.cycle_block_count,
    {
        self.cycle_block_count
    }

    /// Return the number of pending transactions.
    pub fn mempool_len(&self) -> (len: usize)
        ensures
            len == self@.mempool.len(),
    {
        self.mempool.len()
    }

    /// Return the digest of the block that the next mined block extends.
    pub fn prev_block_hash(&self) -> (hash: [u8; SHA256_HASH_SIZE])
        ensures
            hash@ == self@.prev_block_hash,
    {
        self.prev_block_hash
    }

    /// Whether the proof-of-work preimage of the mempool is short enough to
    /// be hashed.
    pub fn is_hashable(&self) -> (fits: bool)
        ensures
            fits == self@.hashable(),
    {
        txns_hashable(&self.mempool)
    }

    /// Whether the current nonce solves the search: whether the
    /// proof-of-work digest of the mempool under it meets the target.
    pub fn nonce_meets_target(&self) -> (met: bool)
        requires
            self@.hashable(),
        ensures
            met == self@.solved_by(self@.nonce),
    {
        let digest = pow_digest(&self.mempool, self.nonce);
        digest_meets_target(&digest, &self.target)
    }

    /// Go on after an attempt that failed. A transaction that arrived is
    /// appended to the mempool and handed back for re-broadcast; a block
    /// that arrived becomes the block to extend; the nonce is incremented.
    /// If the nonce cannot be incremented, nothing changes.
    pub fn advance(&mut self, txn: Option<Txn>, block: Option<Block>) -> (result: Result<
        Option<Txn>,
        Error,
    >)
        ensures
            result is Ok <==> old(self)@.nonce < u32::MAX,
            result is Ok ==> final(self)@ == old(self)@.after_advance(
                txn_option_view(txn),
                block_option_view(block),
            ) && txn_option_view(result->Ok_0) == txn_option_view(txn),
            result is Err ==> result->Err_0 == Error::NonceOverflow && final(self)@ == old(
                self,
            )@,
    {
        if self.nonce == u32::MAX {
            return Err(Error::NonceOverflow);
        }
        let rebroadcast = match txn {
            Some(t) => {
                self.mempool.push(t.duplicate());
                assert(txn_views(self.mempool@) == txn_views(old(self).mempool@).push(t@));
                Some(t)
            },
            None => None,
        };
        match block {
            Some(b) => {
                self.prev_block_hash = b.hash();
            },
            None => {},
        }
        self.nonce = self.nonce + 1;
        Ok(rebroadcast)
    }

    /// Seal a block from the current header fields, the mempool and the
    /// current nonce, and start the search for the next one. Sealing the
    /// last block of a cycle adjusts the target to the time that the cycle
    /// took; if the adjusted target does not fit in 256 bits, nothing
    /// changes and no block is sealed.
    pub fn seal(&mut self, timestamp: u32, elapsed_nanos: u128) -> (result: Result<Sealed, Error>)
        ensures
            result is Err <==> old(self)@.seal_overflows(elapsed_nanos as nat),
            result is Err ==> result->Err_0 == Error::TargetOverflow && final(self)@ == old(
                self,
            )@,
            result is Ok ==> {
                &&& final(self)@ == old(self)@.after_seal(timestamp, elapsed_nanos as nat)
                &&& result->Ok_0.block@ == old(self)@.sealed_block(timestamp)
                &&& result->Ok_0.cycle_restarted == old(self)@.completes_cycle()
            },
    {
        let completes = self.cycle_block_count >= CYCLE_BLOCK_LIMIT - 1;
        let mut target = self.target;
        if completes {
            if !adjustment_fits(&target, elapsed_nanos) {
                return Err(Error::TargetOverflow);
            }
            adjust_target(&mut target, elapsed_nanos);
        }
        let header = Header::new(
            self.version,
            self.prev_block_hash,
            self.merkle_root,
            timestamp,
            self.bits,
            self.nonce,
        );
        let txn_count: u32 = if self.mempool.len() <= u32::MAX as usize {
            self.mempool.len() as u32
        } else {
            u32::MAX
        };
        let mut txns = Vec::<Txn>::new();
        std::mem::swap(&mut self.mempool, &mut txns);
        assert(txn_views(self.mempool@) =~= Seq::<TxnView>::empty());
        self.prev_block_hash = header.hash();
        self.nonce = 0;
        self.target = target;
        self.cycle_block_count = if completes {
            0
        } else {
            self.cycle_block_count + 1
        };
        Ok(Sealed { block: Block::new(header, txn_count, txns), cycle_restarted: completes })
    }
}

/// A block sealed at a nonce that solves the search carries a valid proof of
/// work, provided that the miner's target is no larger than the one its
/// header bits encode.
pub proof fn lemma_sealed_block_valid(miner: MinerView, timestamp: u32)
    requires
        miner.solved_by(miner.nonce),
        compact_valid(miner.bits),
        miner.target <= compact_target(miner.bits),
    ensures
        miner.sealed_block(timestamp).nonce_valid(),
{
}

} // verus!
