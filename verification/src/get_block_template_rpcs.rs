//! RPC methods related to mining: the decisions of `getblockcount`,
//! `getblockhash`, `getblocktemplate` and `submitblock`, from the answers of
//! the services that they call to the JSON-RPC results that they return.

use vstd::prelude::*;

pub mod types;

use self::types::{
    is_placeholder_coinbase, is_template_of, is_zero_hash, DefaultRoots, GetBlockTemplate,
    MempoolRequest, MempoolResponse, SubmitBlockErrorResponse, SubmitBlockResponse,
    TransactionTemplate, UnminedTx, UnminedTxId, VerifyBlockError, VerifyChainError,
    VerifyCheckpointError,
};

use crate::chain::{BlockHash, Height, MAX_HEIGHT};
use crate::error::BlockError;
use crate::merkle::{
    auth_data_root_of, auth_digests, merkle_root_of, mined_ids, transactions_auth_data_root,
    transactions_merkle_root,
};
use crate::rpc_error::{
    invalid_params, server_error, RpcError, INVALID_PARAMS_CODE, MISSING_BLOCK_ERROR_CODE,
    SERVER_ERROR_CODE,
};

verus! {

/// RPC method implementations: the handles of the services that the mining
/// methods call.
pub struct GetBlockTemplateRpcImpl<Mempool, State, Tip, ChainVerifier> {
    /// A handle to the mempool service.
    mempool: Mempool,
    /// A handle to the state service.
    state: State,
    /// Allows efficient access to the best tip of the blockchain.
    latest_chain_tip: Tip,
    /// The chain verifier, used for submitting blocks.
    chain_verifier: ChainVerifier,
}

impl<Mempool, State, Tip, ChainVerifier> GetBlockTemplateRpcImpl<
    Mempool,
    State,
    Tip,
    ChainVerifier,
> {
    /// The mempool handle.
    pub closed spec fn mempool_handle(&self) -> Mempool {
        self.mempool
    }

    /// The state handle.
    pub closed spec fn state_handle(&self) -> State {
        self.state
    }

    /// The chain tip handle.
    pub closed spec fn chain_tip_handle(&self) -> Tip {
        self.latest_chain_tip
    }

    /// The chain verifier handle.
    pub closed spec fn chain_verifier_handle(&self) -> ChainVerifier {
        self.chain_verifier
    }

    /// Creates a new instance of the handler for getblocktemplate RPCs.
    pub fn new(
        mempool: Mempool,
        state: State,
        latest_chain_tip: Tip,
        chain_verifier: ChainVerifier,
    ) -> (rpc: Self)
        ensures
            rpc.mempool_handle() == mempool,
            rpc.state_handle() == state,
            rpc.chain_tip_handle() == latest_chain_tip,
            rpc.chain_verifier_handle() == chain_verifier,
    {
        Self { mempool, state, latest_chain_tip, chain_verifier }
    }

    /// Returns the mempool handle.
    pub fn mempool(&self) -> (mempool: &Mempool)
        ensures
            *mempool == self.mempool_handle(),
    {
        &self.mempool
    }

    /// Returns the state handle.
    pub fn state(&self) -> (state: &State)
        ensures
            *state == self.state_handle(),
    {
        &self.state
    }

    /// Returns the chain tip handle.
    pub fn latest_chain_tip(&self) -> (tip: &Tip)
        ensures
            *tip == self.chain_tip_handle(),
    {
        &self.latest_chain_tip
    }

    /// Returns the chain verifier handle.
    pub fn chain_verifier(&self) -> (chain_verifier: &ChainVerifier)
        ensures
            *chain_verifier == self.chain_verifier_handle(),
    {
        &self.chain_verifier
    }
}

/// The height that the block index `index` denotes when the best chain tip is at
/// height `tip`, if any: a non-negative index is a height up to the tip, and a
/// negative index counts back from the tip, `-1` being the tip itself.
pub open spec fn height_for_index(index: int, tip: int) -> Option<int> {
    if index >= 0 {
        if index <= tip { Some(index) } else { None }
    } else {
        if tip + 1 + index >= 0 { Some(tip + 1 + index) } else { None }
    }
}

/// The message of the error for a non-negative index above the tip.
pub open spec fn index_above_tip_message() -> Seq<char> {
    "Provided index is greater than the current tip"@
}

/// The message of the error for a negative index that reaches below the genesis block.
pub open spec fn negative_height_message() -> Seq<char> {
    "Provided negative index ends up with a negative height"@
}

/// Given a potentially negative index, finds the corresponding `Height`.
///
/// This is how `getblockhash` reads its integer index argument.
pub fn get_height_from_int(index: i32, tip_height: Height) -> (result: Result<Height, RpcError>)
    requires
        index < 0 ==> tip_height.0 <= MAX_HEIGHT,
    ensures
        result is Ok <==> height_for_index(index as int, tip_height.0 as int) is Some,
        result matches Ok(height) ==> height_for_index(index as int, tip_height.0 as int)
            == Some(height.0 as int),
        result matches Err(error) ==> {
            &&& error.code == INVALID_PARAMS_CODE
            &&& index >= 0 ==> error.message@ == index_above_tip_message()
            &&& index < 0 ==> error.message@ == negative_height_message()
        },
{
    if index >= 0 {
        let height: u32 = index as u32;
        if height > tip_height.0 {
            return Err(invalid_params("Provided index is greater than the current tip"));
        }
        Ok(Height(height))
    } else {
        // `index + 1` can't overflow, because `index` is always negative here.
        let tip: i32 = tip_height.0 as i32;
        let height: Option<i32> = tip.checked_add(index + 1);
        match height {
            None => Err(invalid_params("Provided index is not valid")),
            Some(h) => {
                if h < 0 {
                    return Err(
                        invalid_params("Provided negative index ends up with a negative height"),
                    );
                }
                let h: u32 = h as u32;
                if h > tip_height.0 {
                    return Err(invalid_params("Provided index is greater than the current tip"));
                }
                Ok(Height(h))
            },
        }
    }
}


/// The message of the error for an empty state.
pub open spec fn no_blocks_message() -> Seq<char> {
    "No blocks in state"@
}

/// The message of the error for a block that is missing from the best chain.
pub open spec fn block_not_found_message() -> Seq<char> {
    "Block not found"@
}

/// Returns the height of the best chain tip, or the server error for an empty
/// state when there is no tip.
pub fn best_chain_tip_height(best_tip_height: Option<Height>) -> (result: Result<Height, RpcError>)
    ensures
        best_tip_height matches Some(tip) ==> result == Ok::<Height, RpcError>(tip),
        best_tip_height is None ==> (result matches Err(error) && error.code == SERVER_ERROR_CODE
            && error.message@ == no_blocks_message()),
{
    match best_tip_height {
        Some(tip) => Ok(tip),
        None => Err(server_error(SERVER_ERROR_CODE, "No blocks in state".to_owned())),
    }
}

/// The block count that `getblockcount` reports for the given best tip height:
/// the height of the tip, which is the number of blocks in the best chain
/// excluding the genesis block.
pub open spec fn block_count_for(best_tip_height: Option<Height>) -> Option<int> {
    match best_tip_height {
        Some(tip) => Some(tip.0 as int),
        None => None,
    }
}

/// `getblockcount`: returns the height of the most recent block in the best
/// valid block chain (equivalently, the number of blocks in this chain
/// excluding the genesis block).
pub fn get_block_count(best_tip_height: Option<Height>) -> (result: Result<u32, RpcError>)
    ensures
        result matches Ok(count) ==> block_count_for(best_tip_height) == Some(count as int),
        result is Err ==> block_count_for(best_tip_height) is None,
        result matches Err(error) ==> error.code == SERVER_ERROR_CODE && error.message@
            == no_blocks_message(),
{
    match best_chain_tip_height(best_tip_height) {
        Ok(height) => Ok(height.0),
        Err(error) => Err(error),
    }
}

/// A request that the mining methods make to the state service.
#[derive(Debug, Clone, Copy, PartialEq, Eq, Structural)]
pub enum ReadRequest {
    /// Looks up the hash of the best chain block at the given height.
    BestChainBlockHash(Height),
}

/// The state service's answer to a [`ReadRequest`].
#[derive(Debug, Clone, Copy, PartialEq, Eq)]
pub enum ReadResponse {
    /// The hash of the best chain block at the requested height, if there is one.
    BlockHash(Option<BlockHash>),
}

/// The result of `getblockhash`: a block hash.
#[derive(Debug, Clone, Copy, PartialEq, Eq)]
pub struct GetBlockHash(pub BlockHash);

/// The height whose block hash `getblockhash` asks the state for, given its
/// index argument and the best chain tip height, if it asks for one.
pub open spec fn requested_height(index: int, best_tip_height: Option<Height>) -> Option<int> {
    match best_tip_height {
        Some(tip) => height_for_index(index, tip.0 as int),
        None => None,
    }
}

/// First half of `getblockhash`: reads the index argument against the best
/// chain tip and returns the state request for the block hash at the height
/// that the index denotes, or the error that the method returns.
pub fn get_block_hash_request(index: i32, best_tip_height: Option<Height>) -> (result: Result<
    ReadRequest,
    RpcError,
>)
    requires
        best_tip_height matches Some(tip) ==> (index < 0 ==> tip.0 <= MAX_HEIGHT),
    ensures
        result is Ok <==> requested_height(index as int, best_tip_height) is Some,
        result matches Ok(ReadRequest::BestChainBlockHash(height)) ==> requested_height(
            index as int,
            best_tip_height,
        ) == Some(height.0 as int),
        best_tip_height is None ==> (result matches Err(error) && error.code == SERVER_ERROR_CODE
            && error.message@ == no_blocks_message()),
        best_tip_height is Some ==> (result matches Err(error) ==> {
            &&& error.code == INVALID_PARAMS_CODE
            &&& index >= 0 ==> error.message@ == index_above_tip_message()
            &&& index < 0 ==> error.message@ == negative_height_message()
        }),
{
    let tip_height = match best_chain_tip_height(best_tip_height) {
        Ok(tip_height) => tip_height,
        Err(error) => return Err(error),
    };
    match get_height_from_int(index, tip_height) {
        Ok(height) => Ok(ReadRequest::BestChainBlockHash(height)),
        Err(error) => Err(error),
    }
}

/// Second half of `getblockhash`: turns the state service's answer, or the
/// message of its failure, into the result of the method.
pub fn get_block_hash_response(response: Result<ReadResponse, String>) -> (result: Result<
    GetBlockHash,
    RpcError,
>)
    ensures
        response matches Err(message) ==> (result matches Err(error) && error.code
            == SERVER_ERROR_CODE && error.message == message),
        response matches Ok(ReadResponse::BlockHash(Some(hash))) ==> result
            == Ok::<GetBlockHash, RpcError>(GetBlockHash(hash)),
        response matches Ok(ReadResponse::BlockHash(None)) ==> (result matches Err(error)
            && error.code == MISSING_BLOCK_ERROR_CODE && error.message@
            == block_not_found_message()),
{
    match response {
        Err(message) => Err(server_error(SERVER_ERROR_CODE, message)),
        Ok(ReadResponse::BlockHash(Some(hash))) => Ok(GetBlockHash(hash)),
        Ok(ReadResponse::BlockHash(None)) => Err(
            server_error(MISSING_BLOCK_ERROR_CODE, "Block not found".to_owned()),
        ),
    }
}

/// The index `-1` denotes the best chain tip.
pub proof fn lemma_minus_one_is_tip(tip: int)
    requires
        tip >= 0,
    ensures
        height_for_index(-1, tip) == Some(tip),
{
}

/// Each height from the genesis block up to the tip is denoted by exactly two
/// indices: the height itself, and the negative index that counts back to it
/// from the tip; no index denotes a height above the tip.
pub proof fn lemma_indices_of_height(index: int, tip: int, height: int)
    requires
        tip >= 0,
    ensures
        height_for_index(index, tip) == Some(height) <==> (0 <= height <= tip && (index == height
            || index == height - tip - 1)),
{
}

/// A non-negative index and the negative index that lies `tip + 1` below it
/// denote the same block.
pub proof fn lemma_negative_index_counts_back_from_tip(index: int, tip: int)
    requires
        0 <= index <= tip,
    ensures
        height_for_index(index - tip - 1, tip) == height_for_index(index, tip),
{
}

/// `getblockhash -1` asks for the block at the height that `getblockcount`
/// reports, and fails exactly when `getblockcount` does.
pub proof fn lemma_last_block_is_block_count(best_tip_height: Option<Height>)
    ensures
        requested_height(-1, best_tip_height) == block_count_for(best_tip_height),
{
}

/// The request that `getblocktemplate` makes to the mempool for the given best
/// chain tip height, if it makes one: every transaction, whenever there is a tip.
pub open spec fn mempool_request_for(best_tip_height: Option<Height>) -> Option<MempoolRequest> {
    match best_tip_height {
        Some(_) => Some(MempoolRequest::FullTransactions),
        None => None,
    }
}

/// `getblockhash` asks the state for the block at the index itself when the
/// index is a height from genesis up to the tip, for the block `-index - 1`
/// below the tip when the index is negative and reaches no further back than
/// genesis, and asks for nothing otherwise or when there is no tip.
pub proof fn lemma_requested_height_of_index(index: int, tip: Height)
    ensures
        0 <= index <= tip.0 ==> requested_height(index, Some(tip)) == Some(index),
        -(tip.0 + 1) <= index < 0 ==> requested_height(index, Some(tip)) == Some(tip.0 + 1 + index),
        (index > tip.0 || index < -(tip.0 + 1)) ==> requested_height(index, Some(tip)) is None,
        requested_height(index, None) is None,
{
}

/// First step of `getblocktemplate`: checks that the state has a best chain tip
/// and returns the request for the mempool's transactions, or the error that
/// the method returns.
pub fn get_block_template_request(best_tip_height: Option<Height>) -> (result: Result<
    MempoolRequest,
    RpcError,
>)
    ensures
        result is Ok <==> mempool_request_for(best_tip_height) is Some,
        result matches Ok(request) ==> mempool_request_for(best_tip_height) == Some(request),
        best_tip_height is None ==> (result matches Err(error) && error.code == SERVER_ERROR_CODE
            && error.message@ == no_blocks_message()),
{
    match best_chain_tip_height(best_tip_height) {
        Ok(_tip_height) => Ok(MempoolRequest::FullTransactions),
        Err(error) => Err(error),
    }
}

/// Whether `template` is the block template that `getblocktemplate` builds from
/// the mempool transactions `transactions`.
///
/// Every transaction of the mempool goes into the template, in the mempool's
/// order, beside a placeholder coinbase transaction; the merkle root and the
/// authorizing data root are those of the mempool transactions, or all zero
/// when there are none; every other field is zero or empty.
pub open spec fn is_block_template_for(
    template: GetBlockTemplate,
    transactions: Seq<UnminedTx>,
) -> bool {
    &&& template.capabilities@.len() == 0
    &&& template.version == 0
    &&& is_zero_hash(template.previous_block_hash.0.0@)
    &&& is_zero_hash(template.block_commitments_hash@)
    &&& is_zero_hash(template.light_client_root_hash@)
    &&& is_zero_hash(template.final_sapling_root_hash@)
    &&& if transactions.len() == 0 {
        &&& is_zero_hash(template.default_roots.merkle_root@)
        &&& is_zero_hash(template.default_roots.auth_data_root@)
    } else {
        &&& template.default_roots.merkle_root@ == merkle_root_of(mined_ids(transactions))
        &&& template.default_roots.auth_data_root@ == auth_data_root_of(auth_digests(transactions))
    }
    &&& is_zero_hash(template.default_roots.chain_history_root@)
    &&& is_zero_hash(template.default_roots.block_commitments_hash@)
    &&& template.transactions@.len() == transactions.len()
    &&& forall|i: int|
        0 <= i < transactions.len() ==> is_template_of(
            #[trigger] template.transactions@[i],
            transactions[i],
        )
    &&& is_placeholder_coinbase(template.coinbase_txn)
    &&& template.target@.len() == 0
    &&& template.min_time == 0
    &&& template.mutable@.len() == 0
    &&& template.nonce_range@.len() == 0
    &&& template.sigop_limit == 0
    &&& template.size_limit == 0
    &&& template.cur_time == 0
    &&& template.bits@.len() == 0
    &&& template.height == 0
}

/// Whether two transaction templates hold the same values.
pub open spec fn same_transaction_template(a: TransactionTemplate, b: TransactionTemplate) -> bool {
    &&& a.data@ == b.data@
    &&& a.hash@ == b.hash@
    &&& a.auth_digest@ == b.auth_digest@
    &&& a.depends@ == b.depends@
    &&& a.fee == b.fee
    &&& a.sigops == b.sigops
    &&& a.required == b.required
}

/// Whether two block templates hold the same values.
pub open spec fn same_block_template(a: GetBlockTemplate, b: GetBlockTemplate) -> bool {
    &&& a.capabilities@ == b.capabilities@
    &&& a.version == b.version
    &&& a.previous_block_hash.0.0@ == b.previous_block_hash.0.0@
    &&& a.block_commitments_hash@ == b.block_commitments_hash@
    &&& a.light_client_root_hash@ == b.light_client_root_hash@
    &&& a.final_sapling_root_hash@ == b.final_sapling_root_hash@
    &&& a.default_roots.merkle_root@ == b.default_roots.merkle_root@
    &&& a.default_roots.chain_history_root@ == b.default_roots.chain_history_root@
    &&& a.default_roots.auth_data_root@ == b.default_roots.auth_data_root@
    &&& a.default_roots.block_commitments_hash@ == b.default_roots.block_commitments_hash@
    &&& a.transactions@.len() == b.transactions@.len()
    &&& forall|i: int|
        0 <= i < a.transactions@.len() ==> same_transaction_template(
            #[trigger] a.transactions@[i],
            b.transactions@[i],
        )
    &&& same_transaction_template(a.coinbase_txn, b.coinbase_txn)
    &&& a.target@ == b.target@
    &&& a.min_time == b.min_time
    &&& a.mutable@ == b.mutable@
    &&& a.nonce_range@ == b.nonce_range@
    &&& a.sigop_limit == b.sigop_limit
    &&& a.size_limit == b.size_limit
    &&& a.cur_time == b.cur_time
    &&& a.bits@ == b.bits@
    &&& a.height == b.height
}

/// Two hashes that are both all zero are the same hash.
proof fn lemma_zero_hashes_equal(a: Seq<u8>, b: Seq<u8>)
    requires
        is_zero_hash(a),
        is_zero_hash(b),
    ensures
        a == b,
{
    assert(a =~= b);
}

/// `getblocktemplate` depends on the best chain tip only through whether there
/// is one: every tip gives the same mempool request, and the template is then
/// fixed by the mempool's transactions alone.
pub proof fn lemma_block_template_ignores_tip_height(
    tip_1: Height,
    tip_2: Height,
    transactions: Seq<UnminedTx>,
    template_1: GetBlockTemplate,
    template_2: GetBlockTemplate,
)
    requires
        is_block_template_for(template_1, transactions),
        is_block_template_for(template_2, transactions),
    ensures
        mempool_request_for(Some(tip_1)) == mempool_request_for(Some(tip_2)),
        same_block_template(template_1, template_2),
{
    assert(template_1.capabilities@ =~= template_2.capabilities@);
    assert(template_1.mutable@ =~= template_2.mutable@);
    assert(template_1.target@ =~= template_2.target@);
    assert(template_1.nonce_range@ =~= template_2.nonce_range@);
    assert(template_1.bits@ =~= template_2.bits@);
    lemma_zero_hashes_equal(template_1.previous_block_hash.0.0@, template_2.previous_block_hash.0.0@);
    lemma_zero_hashes_equal(template_1.block_commitments_hash@, template_2.block_commitments_hash@);
    lemma_zero_hashes_equal(template_1.light_client_root_hash@, template_2.light_client_root_hash@);
    lemma_zero_hashes_equal(
        template_1.final_sapling_root_hash@,
        template_2.final_sapling_root_hash@,
    );
    lemma_zero_hashes_equal(
        template_1.default_roots.chain_history_root@,
        template_2.default_roots.chain_history_root@,
    );
    lemma_zero_hashes_equal(
        template_1.default_roots.block_commitments_hash@,
        template_2.default_roots.block_commitments_hash@,
    );
    if transactions.len() == 0 {
        lemma_zero_hashes_equal(
            template_1.default_roots.merkle_root@,
            template_2.default_roots.merkle_root@,
        );
        lemma_zero_hashes_equal(
            template_1.default_roots.auth_data_root@,
            template_2.default_roots.auth_data_root@,
        );
    }
    let coinbase_1 = template_1.coinbase_txn;
    let coinbase_2 = template_2.coinbase_txn;
    lemma_zero_hashes_equal(coinbase_1.hash@, coinbase_2.hash@);
    lemma_zero_hashes_equal(coinbase_1.auth_digest@, coinbase_2.auth_digest@);
    assert(coinbase_1.data@ =~= coinbase_2.data@);
    assert(coinbase_1.depends@ =~= coinbase_2.depends@);
    assert forall|i: int| 0 <= i < template_1.transactions@.len() implies same_transaction_template(
        #[trigger] template_1.transactions@[i],
        template_2.transactions@[i],
    ) by {
        let a = template_1.transactions@[i];
        let b = template_2.transactions@[i];
        assert(is_template_of(a, transactions[i]));
        assert(is_template_of(b, transactions[i]));
        assert(a.depends@ =~= b.depends@);
        assert(a.auth_digest@ =~= b.auth_digest@);
    }
}

/// The roots of a block template commit to the template's own transactions:
/// for a non-empty mempool, the merkle root is that of the transaction
/// templates' hashes, and the authorizing data root is that of their
/// authorizing data digests.
pub proof fn lemma_template_roots_commit_to_its_transactions(
    template: GetBlockTemplate,
    transactions: Seq<UnminedTx>,
)
    requires
        is_block_template_for(template, transactions),
        transactions.len() > 0,
    ensures
        template.default_roots.merkle_root@ == merkle_root_of(
            template.transactions@.map_values(|t: TransactionTemplate| t.hash@),
        ),
        template.default_roots.auth_data_root@ == auth_data_root_of(
            template.transactions@.map_values(|t: TransactionTemplate| t.auth_digest@),
        ),
{
    crate::merkle::lemma_tree_leaves_are_transaction_identifiers(transactions);
    let hashes = template.transactions@.map_values(|t: TransactionTemplate| t.hash@);
    let digests = template.transactions@.map_values(|t: TransactionTemplate| t.auth_digest@);
    assert forall|k: int| 0 <= k < transactions.len() implies hashes[k] == mined_ids(
        transactions,
    )[k] && digests[k] == auth_digests(transactions)[k] by {
        assert(is_template_of(template.transactions@[k], transactions[k]));
        assert(digests[k] =~= auth_digests(transactions)[k]);
    }
    assert(hashes =~= mined_ids(transactions));
    assert(digests =~= auth_digests(transactions));
}

/// The template of a one-transaction mempool has that transaction's mined id
/// as merkle root, and its authorizing data digest (or 32 bytes of `0xff` for
/// a transaction older than v5) as authorizing data root.
pub proof fn lemma_template_roots_of_one_transaction(template: GetBlockTemplate, tx: UnminedTx)
    requires
        is_block_template_for(template, seq![tx]),
    ensures
        match tx.id {
            UnminedTxId::Legacy(id) => {
                &&& template.default_roots.merkle_root@ == id@
                &&& crate::merkle::is_filled_hash(template.default_roots.auth_data_root@, 0xffu8)
            },
            UnminedTxId::Witnessed { id, auth_digest } => {
                &&& template.default_roots.merkle_root@ == id@
                &&& template.default_roots.auth_data_root@ == auth_digest@
            },
        },
{
    crate::merkle::lemma_roots_of_one_transaction(tx);
}

/// Builds the block template for the mempool transactions `transactions`.
pub fn block_template_from_transactions(transactions: &Vec<UnminedTx>) -> (template:
    GetBlockTemplate)
    requires
        transactions@.len() <= usize::MAX / 2 + 1,
    ensures
        is_block_template_for(template, transactions@),
{
    let merkle_root: [u8; 32];
    let auth_data_root: [u8; 32];
    // The coinbase transaction is not in these lists yet, so an empty mempool
    // gives zero roots.
    if transactions.len() != 0 {
        merkle_root = transactions_merkle_root(transactions);
        auth_data_root = transactions_auth_data_root(transactions);
    } else {
        merkle_root = [0u8; 32];
        auth_data_root = [0u8; 32];
    }

    let mut templates: Vec<TransactionTemplate> = Vec::new();
    let count: usize = transactions.len();
    for i in 0..count
        invariant
            count == transactions@.len(),
            templates@.len() == i,
            forall|j: int| 0 <= j < i ==> is_template_of(#[trigger] templates@[j], transactions@[j]),
    {
        templates.push(TransactionTemplate::from_unmined(&transactions[i]));
    }

    GetBlockTemplate {
        capabilities: Vec::new(),
        version: 0,
        previous_block_hash: GetBlockHash(BlockHash([0u8; 32])),
        block_commitments_hash: [0u8; 32],
        light_client_root_hash: [0u8; 32],
        final_sapling_root_hash: [0u8; 32],
        default_roots: DefaultRoots {
            merkle_root,
            chain_history_root: [0u8; 32],
            auth_data_root,
            block_commitments_hash: [0u8; 32],
        },
        transactions: templates,
        coinbase_txn: TransactionTemplate {
            data: Vec::new(),
            hash: [0u8; 32],
            auth_digest: [0u8; 32],
            // Always empty for coinbase transactions.
            depends: Vec::new(),
            fee: 0,
            sigops: 0,
            required: true,
        },
        target: String::new(),
        min_time: 0,
        mutable: Vec::new(),
        nonce_range: String::new(),
        sigop_limit: 0,
        size_limit: 0,
        cur_time: 0,
        bits: String::new(),
        height: 0,
    }
}

/// Second step of `getblocktemplate`: turns the mempool's answer, or the message
/// of its failure, into the result of the method.
pub fn get_block_template_response(response: Result<MempoolResponse, String>) -> (result: Result<
    GetBlockTemplate,
    RpcError,
>)
    requires
        response matches Ok(MempoolResponse::FullTransactions(transactions))
            ==> transactions@.len() <= usize::MAX / 2 + 1,
    ensures
        response matches Err(message) ==> (result matches Err(error) && error.code
            == SERVER_ERROR_CODE && error.message == message),
        response matches Ok(MempoolResponse::FullTransactions(transactions)) ==> (
        result matches Ok(template) && is_block_template_for(template, transactions@)),
{
    match response {
        Err(message) => Err(server_error(SERVER_ERROR_CODE, message)),
        Ok(MempoolResponse::FullTransactions(transactions)) => Ok(
            block_template_from_transactions(&transactions),
        ),
    }
}

/// What became of a block that `submitblock` received, as far as the method
/// tells the cases apart.
#[derive(Debug)]
pub enum SubmitBlockOutcome {
    /// The submitted data is not a serialized block.
    Undeserializable,
    /// The chain verifier could not take the block; this is the message of its failure.
    VerifierNotReady(String),
    /// The chain verifier committed the block, which has this hash, to a chain.
    Committed(BlockHash),
    /// The chain verifier refused the block with this error.
    ChainError(VerifyChainError),
    /// The chain verifier failed with an error that is not a chain verification error.
    UnknownError,
}

/// Whether a chain verification error says that the block is a duplicate: the
/// checkpoint verifier already verified it, or the block verifier found it
/// already in the chain.
pub open spec fn is_duplicate_error(error: VerifyChainError) -> bool {
    ||| error matches VerifyChainError::Checkpoint(VerifyCheckpointError::AlreadyVerified { .. })
    ||| error matches VerifyChainError::Block(
        VerifyBlockError::Block { source: BlockError::AlreadyInChain(..) },
    )
}

/// The only chain verification errors that make a submitted block a duplicate
/// are a checkpoint verifier that already verified it and a block verifier
/// that found it already in the chain: every other checkpoint error, and every
/// other consensus rule that a block breaks, is not a duplicate.
pub proof fn lemma_duplicates_are_known_blocks(
    checkpoint_error: VerifyCheckpointError,
    block_error: BlockError,
)
    ensures
        is_duplicate_error(VerifyChainError::Checkpoint(checkpoint_error)) <==> checkpoint_error
            is AlreadyVerified,
        is_duplicate_error(
            VerifyChainError::Block(VerifyBlockError::Block { source: block_error }),
        ) <==> block_error is AlreadyInChain,
        !is_duplicate_error(VerifyChainError::Block(VerifyBlockError::Other)),
{
}

/// `submitblock`: turns what became of the submitted block into the result of the method.
///
/// A committed block is `Accepted`, a duplicate is `Duplicate`, and every other
/// block, including data that is not a block, is `Rejected`; the method only
/// fails when the chain verifier cannot take the block.
pub fn submit_block_result(outcome: SubmitBlockOutcome) -> (result: Result<
    SubmitBlockResponse,
    RpcError,
>)
    ensures
        outcome matches SubmitBlockOutcome::VerifierNotReady(message) ==> (result matches Err(
            error,
        ) && error.code == SERVER_ERROR_CODE && error.message == message),
        result is Err <==> outcome is VerifierNotReady,
        result == Ok::<SubmitBlockResponse, RpcError>(SubmitBlockResponse::Accepted) <==> outcome
            is Committed,
        outcome matches SubmitBlockOutcome::ChainError(error) ==> result == Ok::<
            SubmitBlockResponse,
            RpcError,
        >(
            SubmitBlockResponse::ErrorResponse(
                if is_duplicate_error(error) {
                    SubmitBlockErrorResponse::Duplicate
                } else {
                    SubmitBlockErrorResponse::Rejected
                },
            ),
        ),
        (outcome is Undeserializable || outcome is UnknownError) ==> result == Ok::<
            SubmitBlockResponse,
            RpcError,
        >(SubmitBlockResponse::ErrorResponse(SubmitBlockErrorResponse::Rejected)),
{
    match outcome {
        SubmitBlockOutcome::Undeserializable => Ok(
            SubmitBlockResponse::ErrorResponse(SubmitBlockErrorResponse::Rejected),
        ),
        SubmitBlockOutcome::VerifierNotReady(message) => Err(
            server_error(SERVER_ERROR_CODE, message),
        ),
        // Currently, this returns `Accepted` for blocks committed to any chain,
        // but `Accepted` is only for blocks in the best chain.
        SubmitBlockOutcome::Committed(_block_hash) => Ok(SubmitBlockResponse::Accepted),
        SubmitBlockOutcome::ChainError(error) => {
            let response = match error {
                VerifyChainError::Checkpoint(VerifyCheckpointError::AlreadyVerified { .. })
                | VerifyChainError::Block(
                    VerifyBlockError::Block { source: BlockError::AlreadyInChain(..) },
                ) => SubmitBlockErrorResponse::Duplicate,
                // Currently, this returns `Rejected` for the older duplicate in a
                // queue, but queued duplicates should be `DuplicateInconclusive`.
                _ => SubmitBlockErrorResponse::Rejected,
            };
            Ok(SubmitBlockResponse::ErrorResponse(response))
        },
        // Unreachable for the current chain verifier, but errors of other types
        // are rejected.
        SubmitBlockOutcome::UnknownError => Ok(
            SubmitBlockResponse::ErrorResponse(SubmitBlockErrorResponse::Rejected),
        ),
    }
}

} // verus!
