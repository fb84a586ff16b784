use rbtc::mining::mine::mine_block;
use rbtc::mining::miner::Miner;
use rbtc::util::types::block::Block;
use rbtc::util::types::block::Error as BlockError;
use rbtc::util::types::chain::{ActiveChain, Error};
use rbtc::util::types::header::Header;
use rbtc::util::uint256::Uint256;

const EASY: u32 = 0x2100ffff;
const HARD: u32 = 0x210010ff;

/// Mine a block on top of `chain` at the given difficulty.
fn mine_on(chain: &ActiveChain, bits: u32) -> Block {
    let mut miner = Miner::new();
    assert!(miner.set_difficulty(bits));
    miner.set_tip(chain.last_block_hash());
    mine_block(&mut miner, 0, 0).unwrap().block
}

fn as_float(x: &Uint256) -> f64 {
    x.hi as f64 * 340282366920938463463374607431768211456.0 + x.lo as f64
}

/// The largest target over this one.
fn relative_work_of(target: &Uint256) -> f64 {
    as_float(&Uint256::max_value()) / as_float(target)
}

/// The sum over all blocks of the largest target over the block's own.
fn total_relative_work(chain: &ActiveChain) -> f64 {
    chain.targets().iter().map(relative_work_of).sum()
}

/// The same sum over the blocks after the genesis block.
fn mined_relative_work(chain: &ActiveChain) -> f64 {
    chain.targets().iter().skip(1).map(relative_work_of).sum()
}

#[test]
fn new_chain_holds_the_genesis_block_only() {
    let chain = ActiveChain::new();
    assert_eq!(chain.len(), 1);
    assert_eq!(chain.block(0).hash(), Block::genesis().hash());
    assert_eq!(chain.last_block_hash(), Header::genesis().hash());
    assert_eq!(chain.block(0).prev_block_hash(), [0u8; 32]);
    assert_eq!(chain.targets(), vec![Uint256 { hi: 0, lo: 0 }]);
    assert_eq!(ActiveChain::default().len(), 1);
}

#[test]
fn push_onto_genesis_succeeds_for_a_valid_block_that_names_it() {
    let mut chain = ActiveChain::new();
    let genesis_hash = Header::genesis().hash();
    // The digest of no transactions under nonce 1 starts with 0xad7511.
    let block = Block::new(Header::new(1, genesis_hash, [0; 32], 0, 0x2100ee00, 1), 0, Vec::new());
    let hash = block.hash();
    assert_eq!(chain.validate_and_push(block), Ok(()));
    assert_eq!(chain.len(), 2);
    assert_eq!(chain.last_block_hash(), hash);
    assert_eq!(chain.block(1).prev_block_hash(), genesis_hash);
    assert_eq!(chain.block(0).hash(), genesis_hash);
}

#[test]
fn push_fails_with_incorrect_prev_block_hash_for_any_other_hash() {
    let mut chain = ActiveChain::new();
    let block = Block::new(Header::new(1, [0; 32], [0; 32], 0, 0x2100ee00, 1), 0, Vec::new());
    assert_eq!(block.verify_nonce(), Ok(()));
    assert_eq!(chain.validate_and_push(block), Err(Error::IncorrectPrevBlockHash));
    assert_eq!(chain.len(), 1);
    let mut almost = Header::genesis().hash();
    almost[31] ^= 1;
    let block = Block::new(Header::new(1, almost, [0; 32], 0, 0x2100ee00, 1), 0, Vec::new());
    assert_eq!(chain.validate_and_push(block), Err(Error::IncorrectPrevBlockHash));
    assert_eq!(chain.len(), 1);
    assert_eq!(chain.last_block_hash(), Header::genesis().hash());
}

#[test]
fn push_fails_with_block_error_when_the_nonce_fails() {
    let mut chain = ActiveChain::new();
    let genesis_hash = Header::genesis().hash();
    // The digest of no transactions under nonce 0 starts with 0xee9b92.
    let block = Block::new(Header::new(1, genesis_hash, [0; 32], 0, 0x2100ee00, 0), 0, Vec::new());
    assert_eq!(
        chain.validate_and_push(block),
        Err(Error::BlockError(BlockError::NonceFailedVerification))
    );
    assert_eq!(chain.len(), 1);
    // The proof of work is checked first: a block that fails both checks
    // is refused for its nonce.
    let block = Block::new(Header::new(1, [9; 32], [0; 32], 0, 0x2100ee00, 0), 0, Vec::new());
    assert_eq!(
        chain.validate_and_push(block),
        Err(Error::BlockError(BlockError::NonceFailedVerification))
    );
    assert_eq!(chain.validate_and_push(Block::genesis()), Err(Error::BlockError(
        BlockError::NonceFailedVerification
    )));
    assert_eq!(chain.len(), 1);
}

#[test]
fn mining_one_block_at_trivial_difficulty_extends_the_chain() {
    let mut chain = ActiveChain::new();
    let mut miner = Miner::new();
    // The target lies between the digests of nonce 0 and of nonce 1.
    assert!(miner.set_difficulty(0x2100ee00));
    miner.set_tip(chain.last_block_hash());
    let sealed = mine_block(&mut miner, 1_700_000_000, 0).unwrap();
    assert_eq!(sealed.block.header().nonce(), 1);
    assert_eq!(sealed.block.verify_nonce(), Ok(()));
    let hash = sealed.block.hash();
    assert_eq!(chain.validate_and_push(sealed.block), Ok(()));
    assert_eq!(chain.len(), 2);
    assert_eq!(chain.last_block_hash(), hash);
    assert_eq!(miner.prev_block_hash(), hash);
}

#[test]
fn chain_grows_block_by_block_and_keeps_its_links() {
    let mut chain = ActiveChain::new();
    for expected_len in 2..6usize {
        let block = mine_on(&chain, EASY);
        assert_eq!(chain.validate_and_push(block), Ok(()));
        assert_eq!(chain.len(), expected_len);
    }
    for i in 1..chain.len() {
        assert_eq!(chain.block(i).prev_block_hash(), chain.block(i - 1).hash());
        assert_eq!(chain.block(i).verify_nonce(), Ok(()));
    }
    // A block that extends an earlier block is refused: the chain only grows at its tip.
    let mut stale = Miner::new();
    assert!(stale.set_difficulty(EASY));
    stale.set_tip(chain.block(2).hash());
    let block = mine_block(&mut stale, 0, 0).unwrap().block;
    assert_eq!(chain.validate_and_push(block), Err(Error::IncorrectPrevBlockHash));
    assert_eq!(chain.len(), 5);
}

#[test]
fn targets_are_those_of_the_mined_blocks() {
    let mut chain = ActiveChain::new();
    let block = mine_on(&chain, EASY);
    assert_eq!(chain.validate_and_push(block), Ok(()));
    let block = mine_on(&chain, HARD);
    assert_eq!(chain.validate_and_push(block), Ok(()));
    assert_eq!(
        chain.targets(),
        vec![
            Uint256 { hi: 0, lo: 0 },
            Uint256 { hi: 0xffff << 112, lo: 0 },
            Uint256 { hi: 0x10ff << 112, lo: 0 },
        ]
    );
}

#[test]
fn total_relative_work_never_decreases_as_blocks_are_appended() {
    let mut chain = ActiveChain::new();
    let mut total = total_relative_work(&chain);
    let mut mined = mined_relative_work(&chain);
    assert_eq!(mined, 0.0);
    for bits in [EASY, HARD, EASY, 0x210080ff] {
        let block = mine_on(&chain, bits);
        assert_eq!(chain.validate_and_push(block), Ok(()));
        assert!(total_relative_work(&chain) >= total);
        assert!(mined_relative_work(&chain) - mined >= 1.0);
        total = total_relative_work(&chain);
        mined = mined_relative_work(&chain);
    }
    // A refused block adds nothing.
    assert_eq!(chain.validate_and_push(Block::genesis()), Err(Error::BlockError(
        BlockError::NonceFailedVerification
    )));
    assert_eq!(mined_relative_work(&chain), mined);
    assert!(total_relative_work(&chain) >= total);
}

#[test]
fn genesis_block_weighs_the_same_in_every_chain() {
    // The target of the genesis block is 0, so its term of the sum is the
    // largest target over 0: infinite, and the same in every chain.
    let chain = ActiveChain::new();
    assert_eq!(chain.targets()[0], Uint256 { hi: 0, lo: 0 });
    assert!(relative_work_of(&chain.targets()[0]).is_infinite());
    assert!(total_relative_work(&chain).is_infinite());
}

#[test]
fn heavier_chain_is_not_the_longer_one() {
    let mut long = ActiveChain::new();
    for _ in 0..3 {
        let block = mine_on(&long, EASY);
        assert_eq!(long.validate_and_push(block), Ok(()));
    }
    let mut short = ActiveChain::new();
    let block = mine_on(&short, HARD);
    assert_eq!(short.validate_and_push(block), Ok(()));
    assert_eq!(long.block(0).hash(), short.block(0).hash());
    assert_eq!(long.len(), 4);
    assert_eq!(short.len(), 2);
    // The two chains share their genesis block; they differ by the work of
    // the blocks mined on it.
    let long_work = mined_relative_work(&long);
    let short_work = mined_relative_work(&short);
    assert!(long_work > 3.0 && long_work < 3.001);
    assert!(short_work > 15.0 && short_work < 15.1);
    assert!(short_work > long_work);
    assert!(short_work.partial_cmp(&long_work) == Some(std::cmp::Ordering::Greater));
}

#[test]
fn chain_error_has_its_text() {
    assert_eq!(
        Error::IncorrectPrevBlockHash.to_string(),
        "Attempted to push block with incorrect previous block hash"
    );
    assert_eq!(
        Error::BlockError(BlockError::NonceFailedVerification).to_string(),
        "BlockError: NonceFailedVerification"
    );
}
