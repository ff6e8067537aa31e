//! The values that the mining RPC methods exchange with the mempool and the
//! chain verifier, and the values that they return.

use vstd::prelude::*;

use crate::chain::{BlockHash, Height};
use crate::error::BlockError;

verus! {


/// Whether `bytes` are the 32 bytes of an all-zero hash.
pub open spec fn is_zero_hash(bytes: Seq<u8>) -> bool {
    &&& bytes.len() == 32
    &&& forall|i: int| 0 <= i < 32 ==> bytes[i] == 0u8
}

/// Whether `bytes` are the 32 bytes of the placeholder authorizing data digest.
pub open spec fn is_auth_digest_placeholder(bytes: Seq<u8>) -> bool {
    &&& bytes.len() == 32
    &&& forall|i: int| 0 <= i < 32 ==> bytes[i] == 0xffu8
}

/// The identifier of an unmined transaction.
#[derive(Debug, Clone, Copy, PartialEq, Eq)]
pub enum UnminedTxId {
    /// A transaction older than v5, identified by its transaction id alone.
    Legacy([u8; 32]),
    /// A v5 transaction, identified by its transaction id and the digest of
    /// its authorizing data.
    Witnessed { id: [u8; 32], auth_digest: [u8; 32] },
}

/// Returns the placeholder authorizing data digest of a transaction older than
/// v5, which has none: 32 bytes of `0xff`.
pub fn auth_digest_placeholder() -> (digest: [u8; 32])
    ensures
        is_auth_digest_placeholder(digest@),
{
    [0xffu8; 32]
}

impl UnminedTxId {
    /// The id that the transaction has once it is mined.
    pub open spec fn spec_mined_id(self) -> [u8; 32] {
        match self {
            UnminedTxId::Legacy(id) => id,
            UnminedTxId::Witnessed { id, .. } => id,
        }
    }

    /// The digest of the transaction's authorizing data, for a v5 transaction.
    pub open spec fn spec_auth_digest(self) -> Option<[u8; 32]> {
        match self {
            UnminedTxId::Legacy(_) => None,
            UnminedTxId::Witnessed { auth_digest, .. } => Some(auth_digest),
        }
    }

    /// Returns the id that the transaction has once it is mined.
    pub fn mined_id(&self) -> (id: [u8; 32])
        ensures
            id == self.spec_mined_id(),
    {
        match self {
            UnminedTxId::Legacy(id) => *id,
            UnminedTxId::Witnessed { id, .. } => *id,
        }
    }

    /// Returns the digest of the transaction's authorizing data, for a v5 transaction.
    pub fn auth_digest(&self) -> (digest: Option<[u8; 32]>)
        ensures
            digest == self.spec_auth_digest(),
    {
        match self {
            UnminedTxId::Legacy(_) => None,
            UnminedTxId::Witnessed { auth_digest, .. } => Some(*auth_digest),
        }
    }
}

/// A transaction in the mempool: its identifier and its serialized data.
#[derive(Debug, Clone, PartialEq, Eq)]
pub struct UnminedTx {
    /// The transaction's identifier.
    pub id: UnminedTxId,
    /// The transaction, serialized.
    pub transaction: Vec<u8>,
}

/// A request that `getblocktemplate` makes to the mempool service.
#[derive(Debug, Clone, Copy, PartialEq, Eq, Structural)]
pub enum MempoolRequest {
    /// Asks for every transaction in the mempool.
    FullTransactions,
}

/// The mempool service's answer to a [`MempoolRequest`].
#[derive(Debug, Clone, PartialEq, Eq)]
pub enum MempoolResponse {
    /// Every transaction in the mempool.
    FullTransactions(Vec<UnminedTx>),
}

/// Transaction data and fields needed to generate blocks using `getblocktemplate`.
#[derive(Debug, Clone, PartialEq, Eq)]
pub struct TransactionTemplate {
    /// The serialized data of this transaction.
    pub data: Vec<u8>,
    /// The transaction id of this transaction.
    pub hash: [u8; 32],
    /// The authorizing data digest of a v5 transaction, or a placeholder for older versions.
    pub auth_digest: [u8; 32],
    /// The transactions in this block template that this transaction depends upon.
    pub depends: Vec<i64>,
    /// The fee for this transaction, in zatoshis.
    pub fee: i64,
    /// The number of transparent signature operations in this transaction.
    pub sigops: i64,
    /// Whether this transaction is required in the block.
    pub required: bool,
}

/// Whether `template` is the template of the mempool transaction `tx`.
pub open spec fn is_template_of(template: TransactionTemplate, tx: UnminedTx) -> bool {
    &&& template.data@ == tx.transaction@
    &&& template.hash == tx.id.spec_mined_id()
    &&& match tx.id.spec_auth_digest() {
        Some(digest) => template.auth_digest == digest,
        None => is_auth_digest_placeholder(template.auth_digest@),
    }
    &&& template.depends@.len() == 0
    &&& template.fee == 0
    &&& template.sigops == 0
    &&& !template.required
}

/// Whether `template` is the placeholder coinbase transaction template.
pub open spec fn is_placeholder_coinbase(template: TransactionTemplate) -> bool {
    &&& template.data@.len() == 0
    &&& is_zero_hash(template.hash@)
    &&& is_zero_hash(template.auth_digest@)
    &&& template.depends@.len() == 0
    &&& template.fee == 0
    &&& template.sigops == 0
    &&& template.required
}

impl TransactionTemplate {
    /// Converts a mempool transaction to a transaction template.
    pub fn from_unmined(tx: &UnminedTx) -> (template: TransactionTemplate)
        ensures
            is_template_of(template, *tx),
    {
        let auth_digest = match tx.id.auth_digest() {
            Some(digest) => digest,
            None => auth_digest_placeholder(),
        };
        TransactionTemplate {
            data: tx.transaction.clone(),
            hash: tx.id.mined_id(),
            auth_digest,
            // Always empty, not supported yet.
            depends: Vec::new(),
            fee: 0,
            sigops: 0,
            // Only the coinbase transaction is required.
            required: false,
        }
    }
}

/// The roots of a block template.
#[derive(Debug, Clone, Copy, PartialEq, Eq)]
pub struct DefaultRoots {
    /// The merkle root of the transaction ids in the block.
    pub merkle_root: [u8; 32],
    /// The root of the chain history tree.
    pub chain_history_root: [u8; 32],
    /// The root of the authorizing data tree of the transactions in the block.
    pub auth_data_root: [u8; 32],
    /// The block commitment hash.
    pub block_commitments_hash: [u8; 32],
}

/// A block template: what a miner needs to build a new block.
#[derive(Debug, Clone, PartialEq, Eq)]
pub struct GetBlockTemplate {
    /// The capabilities of the template.
    pub capabilities: Vec<String>,
    /// The version of the block format.
    pub version: u32,
    /// The hash of the previous block.
    pub previous_block_hash: crate::get_block_template_rpcs::GetBlockHash,
    /// The block commitment of the new block's header.
    pub block_commitments_hash: [u8; 32],
    /// Legacy name for the block commitment.
    pub light_client_root_hash: [u8; 32],
    /// Legacy name for the block commitment.
    pub final_sapling_root_hash: [u8; 32],
    /// The roots of the block.
    pub default_roots: DefaultRoots,
    /// The non-coinbase transactions of the block.
    pub transactions: Vec<TransactionTemplate>,
    /// The coinbase transaction of the block.
    pub coinbase_txn: TransactionTemplate,
    /// The expected difficulty of the block, hex-encoded.
    pub target: String,
    /// The minimum time of the block.
    pub min_time: u32,
    /// The parts of the block that miners may change.
    pub mutable: Vec<String>,
    /// The range of valid nonces, hex-encoded.
    pub nonce_range: String,
    /// The limit on signature operations in the block.
    pub sigop_limit: u64,
    /// The limit on the block's size.
    pub size_limit: u64,
    /// The current time.
    pub cur_time: u32,
    /// The compact difficulty threshold, hex-encoded.
    pub bits: String,
    /// The height of the block.
    pub height: u32,
}

/// Errors that `submitblock` reports.
#[derive(Debug, Clone, Copy, PartialEq, Eq, Structural)]
pub enum SubmitBlockErrorResponse {
    /// The block was already in the best chain.
    Duplicate,
    /// The block was already submitted, but it is not in the best chain.
    DuplicateInconclusive,
    /// The block was accepted, but it is not in the best chain.
    Inconclusive,
    /// The block was rejected.
    Rejected,
}

/// The result of `submitblock`.
#[derive(Debug, Clone, Copy, PartialEq, Eq, Structural)]
pub enum SubmitBlockResponse {
    /// The block was rejected or is a duplicate.
    ErrorResponse(SubmitBlockErrorResponse),
    /// The block was committed to a chain.
    Accepted,
}

/// Errors of the checkpoint verifier, as far as `submitblock` tells them apart.
#[derive(Debug, PartialEq)]
pub enum VerifyCheckpointError {
    /// The block at this height and with this hash was already verified.
    AlreadyVerified { height: Height, hash: BlockHash },
    /// Any other checkpoint verification failure.
    Other,
}

/// Errors of the semantic block verifier, as far as `submitblock` tells them apart.
#[derive(Debug, PartialEq)]
pub enum VerifyBlockError {
    /// The block broke a consensus rule.
    Block { source: BlockError },
    /// Any other block verification failure.
    Other,
}

/// Errors of the chain verifier, which sends each block to the checkpoint
/// verifier or to the semantic block verifier.
#[derive(Debug, PartialEq)]
pub enum VerifyChainError {
    /// The checkpoint verifier refused the block.
    Checkpoint(VerifyCheckpointError),
    /// The semantic block verifier refused the block.
    Block(VerifyBlockError),
}

} // verus!
