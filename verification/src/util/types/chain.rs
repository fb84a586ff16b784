//! The active chain: an append-only history of blocks that starts at the
//! genesis block and grows by one validated block at a time.

use vstd::prelude::*;
use vstd::string::StringExecFns;

use crate::util::bytes::bytes_eq;
use crate::util::constants::SHA256_HASH_SIZE;
use crate::util::types::block::{Block, BlockView};
use crate::util::types::block::Error as BlockError;
use crate::util::types::header::{compact_target, compact_valid, lemma_zero_coefficient};
use crate::util::uint256::Uint256;

verus! {

/// Error type for `ActiveChain`.
#[derive(Clone, Copy, Debug, PartialEq, Eq, Structural)]
pub enum Error {
    /// The block does not extend the current tip of the chain.
    IncorrectPrevBlockHash,
    /// The block itself is invalid.
    BlockError(BlockError),
}

impl Error {
    /// The text that describes this error.
    pub open spec fn spec_text(self) -> Seq<char> {
        match self {
            Error::IncorrectPrevBlockHash =>
                "Attempted to push block with incorrect previous block hash"@,
            Error::BlockError(err) => "BlockError: "@ + err.spec_text(),
        }
    }

    /// Return the text that describes this error.
    pub fn to_string(&self) -> (text: String)
        ensures
            text@ == self.spec_text(),
    {
        match self {
            Error::IncorrectPrevBlockHash => {
                "Attempted to push block with incorrect previous block hash".to_owned()
            },
            Error::BlockError(err) => {
                let mut text = "BlockError: ".to_owned();
                text.append(err.to_string().as_str());
                text
            },
        }
    }
}

/// The plain values of a list of blocks.
pub open spec fn block_views(list: Seq<Block>) -> Seq<BlockView> {
    list.map_values(|b: Block| b@)
}

/// Every block but the first names the digest of its predecessor.
pub open spec fn chain_linked(chain: Seq<BlockView>) -> bool {
    forall|i: int|
        1 <= i < chain.len() ==> (#[trigger] chain[i]).header.prev_block_hash == chain[i
            - 1].digest()
}

/// Every block but the first carries a valid proof of work.
pub open spec fn chain_worked(chain: Seq<BlockView>) -> bool {
    forall|i: int| 1 <= i < chain.len() ==> (#[trigger] chain[i]).nonce_valid()
}

/// The chain invariant: the chain starts at the genesis block, every later
/// block names its predecessor and has met its own target.
pub open spec fn chain_wf(chain: Seq<BlockView>) -> bool {
    &&& chain.len() >= 1
    &&& chain[0] == BlockView::genesis()
    &&& chain_linked(chain)
    &&& chain_worked(chain)
}

/// What `validate_and_push` does to a chain: the chain afterwards and the
/// result. The proof of work is checked first, then the link to the tip.
pub open spec fn validate_and_push_spec(chain: Seq<BlockView>, block: BlockView) -> (
    Seq<BlockView>,
    Result<(), Error>,
) {
    if !block.nonce_valid() {
        (chain, Err(Error::BlockError(BlockError::NonceFailedVerification)))
    } else if block.header.prev_block_hash != chain.last().digest() {
        (chain, Err(Error::IncorrectPrevBlockHash))
    } else {
        (chain.push(block), Ok(()))
    }
}

/// Pushing keeps the chain invariant, never shortens the chain, and leaves
/// every block that was there in place.
pub proof fn lemma_push_preserves_chain(chain: Seq<BlockView>, block: BlockView)
    requires
        chain_wf(chain),
    ensures
        chain_wf(validate_and_push_spec(chain, block).0),
        validate_and_push_spec(chain, block).0.len() >= chain.len(),
        validate_and_push_spec(chain, block).0.take(chain.len() as int) == chain,
{
    let after = validate_and_push_spec(chain, block).0;
    if after != chain {
        assert(after == chain.push(block));
        assert forall|i: int| 1 <= i < after.len() implies (#[trigger] after[i]).header.prev_block_hash
            == after[i - 1].digest() by {
            if i < chain.len() {
                assert(after[i] == chain[i]);
            }
        }
        assert forall|i: int| 1 <= i < after.len() implies (#[trigger] after[i]).nonce_valid() by {
            if i < chain.len() {
                assert(after[i] == chain[i]);
            }
        }
    }
}

/// On a chain that holds only the genesis block, a block with a valid proof
/// of work is appended if it names the digest of the genesis header, and is
/// refused with `IncorrectPrevBlockHash` if it names anything else.
pub proof fn lemma_push_onto_genesis(block: BlockView)
    requires
        block.nonce_valid(),
    ensures
        block.header.prev_block_hash == BlockView::genesis().header.digest()
            ==> validate_and_push_spec(seq![BlockView::genesis()], block) == (
            seq![BlockView::genesis(), block],
            Ok::<(), Error>(()),
        ),
        block.header.prev_block_hash != BlockView::genesis().header.digest()
            ==> validate_and_push_spec(seq![BlockView::genesis()], block) == (
            seq![BlockView::genesis()],
            Err::<(), Error>(Error::IncorrectPrevBlockHash),
        ),
{
    let chain = seq![BlockView::genesis()];
    assert(chain.last() == BlockView::genesis());
    assert(chain.push(block) == seq![BlockView::genesis(), block]);
}

/// A block is appended exactly when its proof of work is valid and it names
/// the digest of the tip; otherwise the chain is unchanged, and the error
/// tells which of the two failed.
pub proof fn lemma_push_outcome(chain: Seq<BlockView>, block: BlockView)
    ensures
        validate_and_push_spec(chain, block).1 is Ok <==> block.nonce_valid()
            && block.header.prev_block_hash == chain.last().digest(),
        validate_and_push_spec(chain, block).1 is Ok ==> validate_and_push_spec(chain, block).0
            == chain.push(block),
        validate_and_push_spec(chain, block).1 is Err ==> validate_and_push_spec(chain, block).0
            == chain,
        validate_and_push_spec(chain, block).1 == Err::<(), Error>(Error::IncorrectPrevBlockHash)
            <==> block.nonce_valid() && block.header.prev_block_hash != chain.last().digest(),
        validate_and_push_spec(chain, block).1 == Err::<(), Error>(
            Error::BlockError(BlockError::NonceFailedVerification),
        ) <==> !block.nonce_valid(),
{
}

/// The targets of the blocks, in chain order. They are what the work of a
/// chain is measured by: the smaller a block's target, the more work the
/// block stands for. The first is the target of the genesis block, which
/// is 0.
pub open spec fn chain_targets(chain: Seq<BlockView>) -> Seq<nat> {
    Seq::new(chain.len(), |i: int| compact_target(chain[i].header.bits))
}

/// Every block of a chain has bits that encode a target: the genesis block
/// the target 0, every other block the target that its nonce has met.
pub proof fn lemma_chain_targets_encoded(chain: Seq<BlockView>, i: int)
    requires
        chain_wf(chain),
        0 <= i < chain.len(),
    ensures
        compact_valid(chain[i].header.bits),
        i == 0 ==> compact_target(chain[i].header.bits) == 0,
{
    if i == 0 {
        lemma_zero_coefficient(0);
    } else {
        assert(chain[i].nonce_valid());
    }
}

/// Appending a block appends its target and leaves the targets before it as
/// they were: the work that a chain holds never shrinks.
pub proof fn lemma_push_extends_targets(chain: Seq<BlockView>, block: BlockView)
    requires
        chain_wf(chain),
    ensures
        validate_and_push_spec(chain, block).1 is Ok ==> chain_targets(
            validate_and_push_spec(chain, block).0,
        ) == chain_targets(chain).push(compact_target(block.header.bits)),
        validate_and_push_spec(chain, block).1 is Err ==> chain_targets(
            validate_and_push_spec(chain, block).0,
        ) == chain_targets(chain),
{
    if validate_and_push_spec(chain, block).1 is Ok {
        assert(chain_targets(chain.push(block)) =~= chain_targets(chain).push(
            compact_target(block.header.bits),
        ));
    }
}

/// The active local chain.
pub struct ActiveChain {
    blocks: Vec<Block>,
}

impl View for ActiveChain {
    type V = Seq<BlockView>;

    closed spec fn view(&self) -> Seq<BlockView> {
        block_views(self.blocks@)
    }
}

impl ActiveChain {
    /// The chain invariant.
    pub open spec fn wf(&self) -> bool {
        chain_wf(self@)
    }

    /// Initialize and return the active chain with the genesis block.
    pub fn new() -> (chain: ActiveChain)
        ensures
            chain.wf(),
            chain@ == seq![BlockView::genesis()],
    {
        let mut blocks = Vec::<Block>::new();
        blocks.push(Block::genesis());
        let chain = ActiveChain { blocks };
        assert(chain@ == seq![BlockView::genesis()]);
        chain
    }

    /// Return the number of blocks in this chain, the genesis block included.
    pub fn len(&self) -> (len: usize)
        ensures
            len == self@.len(),
    {
        self.blocks.len()
    }

    /// Return the block at `index`, where the genesis block has index 0.
    pub fn block(&self, index: usize) -> (block: &Block)
        requires
            index < self@.len(),
        ensures
            block@ == self@[index as int],
    {
        &self.blocks[index]
    }

    /// Validate and push a block to the end of this chain.
    ///
    /// Returns `BlockError` if the block's nonce fails verification, and
    /// `IncorrectPrevBlockHash` if the block's `prev_block_hash` does not
    /// match the hash of this chain's last block. The block is appended only
    /// if neither is the case.
    pub fn validate_and_push(&mut self, block: Block) -> (result: Result<(), Error>)
        requires
            old(self).wf(),
            block@.hashable(),
        ensures
            final(self).wf(),
            (final(self)@, result) == validate_and_push_spec(old(self)@, block@),
    {
        proof {
            lemma_push_preserves_chain(self@, block@);
        }
        match block.verify_nonce() {
            Ok(_) => {
                let prev = block.prev_block_hash();
                let last = self.last_block_hash();
                if bytes_eq(prev.as_slice(), last.as_slice()) {
                    self.blocks.push(block);
                    assert(self@ == old(self)@.push(block@));
                    Ok(())
                } else {
                    Err(Error::IncorrectPrevBlockHash)
                }
            },
            Err(err) => Err(Error::BlockError(err)),
        }
    }

    /// Return the targets of the blocks, in chain order.
    pub fn targets(&self) -> (targets: Vec<Uint256>)
        requires
            self.wf(),
        ensures
            targets@.len() == self@.len(),
            targets@.map_values(|t: Uint256| t@) == chain_targets(self@),
    {
        let mut targets = Vec::<Uint256>::new();
        let mut i: usize = 0;
        while i < self.blocks.len()
            invariant
                i <= self.blocks.len(),
                self.wf(),
                targets@.len() == i,
                forall|k: int|
                    0 <= k < i ==> (#[trigger] targets@[k])@ == compact_target(
                        self@[k].header.bits,
                    ),
            decreases self.blocks.len() - i,
        {
            proof {
                lemma_chain_targets_encoded(self@, i as int);
            }
            let target = self.blocks[i].header().target();
            targets.push(target);
            i = i + 1;
        }
        assert(targets@.map_values(|t: Uint256| t@) =~= chain_targets(self@));
        targets
    }

    /// Get the hash of the last block in this chain.
    pub fn last_block_hash(&self) -> (hash: [u8; SHA256_HASH_SIZE])
        requires
            self.wf(),
        ensures
            hash@ == self@.last().digest(),
    {
        self.blocks[self.blocks.len() - 1].hash()
    }
}

impl Default for ActiveChain {
    /// The chain that holds only the genesis block.
    fn default() -> (chain: ActiveChain)
        ensures
            chain.wf(),
            chain@ == seq![BlockView::genesis()],
    {
        ActiveChain::new()
    }
}

} // verus!
