//! Errors that can occur when checking consensus rules.
//!
//! Each error variant corresponds to a consensus rule, so enumerating
//! all possible verification failures enumerates the consensus rules that
//! are implemented, and ensures that no block or transaction is rejected
//! for a non-enumerated reason.

use vstd::prelude::*;

use crate::chain::{BlockHash, ExpandedDifficulty, Height, Network};

verus! {

/// The error type of RedJubjub signature operations.
#[verifier::external_type_specification]
#[verifier::external_body]
pub struct ExRedJubjubError(redjubjub::Error);

/// Errors in the validation of the coinbase transaction's subsidy.
#[derive(Debug, Clone, Copy, PartialEq, Eq, Structural)]
pub enum SubsidyError {
    /// No coinbase transaction in block.
    NoCoinbase,
    /// Founders reward output not found.
    FoundersRewardNotFound,
}

/// Errors of transparent script verification.
#[derive(Debug, Clone, Copy, PartialEq, Eq, Structural)]
pub enum ScriptError {
    /// The script failed to verify.
    ScriptInvalid,
    /// The transaction could not be deserialized.
    TxDeserialize,
    /// The input index is out of bounds for the transaction's inputs.
    TxIndex,
    /// The transaction has an invalid size for its protocol.
    TxSizeMismatch,
    /// An unknown error kind, by its numeric code.
    Unknown(u32),
}

/// Errors of Ed25519 signature operations.
#[derive(Debug, Clone, Copy, PartialEq, Eq, Structural)]
pub enum Ed25519Error {
    /// Malformed secret key encoding.
    MalformedSecretKey,
    /// Malformed public key encoding.
    MalformedPublicKey,
    /// Invalid signature.
    InvalidSignature,
    /// Invalid length when parsing a byte slice.
    InvalidSliceLength,
}

/// Errors in the validation of a transaction.
#[derive(Debug, PartialEq)]
pub enum TransactionError {
    /// The first transaction must be coinbase.
    CoinbasePosition,
    /// A coinbase input was found in a non-coinbase transaction.
    CoinbaseInputFound,
    /// A coinbase transaction MUST NOT have any JoinSplit descriptions or Spend descriptions.
    CoinbaseHasJoinSplitOrSpend,
    /// The coinbase transaction failed subsidy validation.
    Subsidy(SubsidyError),
    /// The transaction version number MUST be >= 4.
    WrongVersion,
    /// At least one of tx_in_count, nShieldedSpend, and nJoinSplit MUST be nonzero.
    NoTransfer,
    /// If there are no Spends or Outputs, the value balance MUST be 0.
    BadBalance,
    /// A transparent script could not be verified.
    Script(ScriptError),
    /// A spend proof MUST be valid given a primary input formed from the other
    /// fields except spendAuthSig.
    Groth16,
    /// joinSplitSig MUST represent a valid signature under joinSplitPubKey of
    /// dataToBeSigned.
    Ed25519(Ed25519Error),
    /// bindingSig MUST represent a valid signature under the transaction binding
    /// validating key bvk of SigHash.
    RedJubjub(redjubjub::Error),
}

/// Errors in the validation of a block.
#[derive(Debug, PartialEq)]
pub enum BlockError {
    /// The block contains invalid transactions.
    Transaction(TransactionError),
    /// The block has no transactions.
    NoTransactions,
    /// The block is already in the chain, at the given depth.
    AlreadyInChain(BlockHash, u32),
    /// The block has no height.
    MissingHeight(BlockHash),
    /// The block's height is greater than the maximum height.
    MaxHeight(Height, BlockHash, Height),
    /// The difficulty threshold in the block header is invalid.
    InvalidDifficulty(Height, BlockHash),
    /// The block's difficulty threshold is easier than the network's difficulty limit:
    /// height, hash, threshold, network, limit.
    TargetDifficultyLimit(Height, BlockHash, ExpandedDifficulty, Network, ExpandedDifficulty),
    /// The block's hash is easier than its difficulty threshold: height, hash, threshold.
    DifficultyFilter(Height, BlockHash, ExpandedDifficulty),
}

impl From<SubsidyError> for TransactionError {
    fn from(err: SubsidyError) -> (result: TransactionError) {
        TransactionError::Subsidy(err)
    }
}

impl vstd::std_specs::convert::FromSpecImpl<SubsidyError> for TransactionError {
    open spec fn obeys_from_spec() -> bool {
        true
    }

    open spec fn from_spec(err: SubsidyError) -> TransactionError {
        TransactionError::Subsidy(err)
    }
}

impl From<ScriptError> for TransactionError {
    fn from(err: ScriptError) -> (result: TransactionError) {
        TransactionError::Script(err)
    }
}

impl vstd::std_specs::convert::FromSpecImpl<ScriptError> for TransactionError {
    open spec fn obeys_from_spec() -> bool {
        true
    }

    open spec fn from_spec(err: ScriptError) -> TransactionError {
        TransactionError::Script(err)
    }
}

impl From<Ed25519Error> for TransactionError {
    fn from(err: Ed25519Error) -> (result: TransactionError) {
        TransactionError::Ed25519(err)
    }
}

impl vstd::std_specs::convert::FromSpecImpl<Ed25519Error> for TransactionError {
    open spec fn obeys_from_spec() -> bool {
        true
    }

    open spec fn from_spec(err: Ed25519Error) -> TransactionError {
        TransactionError::Ed25519(err)
    }
}

impl From<TransactionError> for BlockError {
    fn from(err: TransactionError) -> (result: BlockError) {
        BlockError::Transaction(err)
    }
}

impl vstd::std_specs::convert::FromSpecImpl<TransactionError> for BlockError {
    open spec fn obeys_from_spec() -> bool {
        true
    }

    open spec fn from_spec(err: TransactionError) -> BlockError {
        BlockError::Transaction(err)
    }
}

impl From<SubsidyError> for BlockError {
    fn from(err: SubsidyError) -> (result: BlockError) {
        BlockError::Transaction(TransactionError::Subsidy(err))
    }
}

impl vstd::std_specs::convert::FromSpecImpl<SubsidyError> for BlockError {
    open spec fn obeys_from_spec() -> bool {
        true
    }

    open spec fn from_spec(err: SubsidyError) -> BlockError {
        BlockError::Transaction(TransactionError::Subsidy(err))
    }
}

/// A subsidy error turns into the same block error directly as it does through
/// the transaction error that it causes.
pub proof fn lemma_subsidy_error_reaches_block_through_transaction(err: SubsidyError)
    ensures
        <BlockError as vstd::std_specs::convert::FromSpec<SubsidyError>>::from_spec(err)
            == <BlockError as vstd::std_specs::convert::FromSpec<TransactionError>>::from_spec(
            <TransactionError as vstd::std_specs::convert::FromSpec<SubsidyError>>::from_spec(err),
        ),
{
}

} // verus!
