//! Plain-value models of the chain data that the mining RPC methods and the
//! consensus errors carry: heights, block hashes, networks and difficulties.

use vstd::prelude::*;

verus! {

/// `2^31 - 1`, the largest height that fits in an `i32`: a chain tip at most
/// this high can be counted back from with a negative `i32` index.
pub const MAX_HEIGHT: u32 = 2147483647;

/// The height of a block: the number of blocks between it and the genesis block.
#[derive(Debug, Clone, Copy, PartialEq, Eq, Structural)]
pub struct Height(pub u32);

/// A block hash, as its 32 bytes in internal byte order.
#[derive(Debug, Clone, Copy, PartialEq, Eq)]
pub struct BlockHash(pub [u8; 32]);

/// A Zcash network.
#[derive(Debug, Clone, Copy, PartialEq, Eq, Structural)]
pub enum Network {
    /// The production network.
    Mainnet,
    /// The test network.
    Testnet,
}

/// An expanded difficulty threshold: a 256-bit unsigned integer, as four
/// 64-bit words, least significant first.
#[derive(Debug, Clone, Copy, PartialEq, Eq)]
pub struct ExpandedDifficulty(pub [u64; 4]);

} // verus!
