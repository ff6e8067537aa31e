use zebra_rpc_core::chain::{BlockHash, Height};
use zebra_rpc_core::error::{BlockError, SubsidyError, TransactionError};
use zebra_rpc_core::get_block_template_rpcs::types::{
    MempoolRequest, MempoolResponse, SubmitBlockErrorResponse, SubmitBlockResponse,
    UnminedTx, UnminedTxId, VerifyBlockError, VerifyChainError,
    VerifyCheckpointError,
};
use zebra_rpc_core::get_block_template_rpcs::{
    best_chain_tip_height, get_block_count, get_block_hash_request, get_block_hash_response,
    get_block_template_request, get_block_template_response, submit_block_result,
    GetBlockHash, GetBlockTemplateRpcImpl, ReadRequest, ReadResponse, SubmitBlockOutcome,
};
use zebra_rpc_core::rpc_error::{
    server_error, RpcError, INVALID_PARAMS_CODE, MISSING_BLOCK_ERROR_CODE, SERVER_ERROR_CODE,
};

fn no_blocks() -> RpcError {
    RpcError { code: SERVER_ERROR_CODE, message: "No blocks in state".to_string() }
}

#[test]
fn block_count_is_tip_height() {
    assert_eq!(get_block_count(Some(Height(1234))), Ok(1234));
    assert_eq!(get_block_count(Some(Height(0))), Ok(0));
    assert_eq!(get_block_count(None), Err(no_blocks()));
    assert_eq!(best_chain_tip_height(Some(Height(5))), Ok(Height(5)));
    assert_eq!(best_chain_tip_height(None), Err(no_blocks()));
}

#[test]
fn server_error_keeps_code_and_message() {
    assert_eq!(
        server_error(-7, "boom".to_string()),
        RpcError { code: -7, message: "boom".to_string() }
    );
}

#[test]
fn block_hash_request_for_index() {
    assert_eq!(
        get_block_hash_request(-1, Some(Height(100))),
        Ok(ReadRequest::BestChainBlockHash(Height(100)))
    );
    assert_eq!(
        get_block_hash_request(42, Some(Height(100))),
        Ok(ReadRequest::BestChainBlockHash(Height(42)))
    );
    assert_eq!(get_block_hash_request(0, None), Err(no_blocks()));
    let error = get_block_hash_request(101, Some(Height(100))).unwrap_err();
    assert_eq!(error.code, INVALID_PARAMS_CODE);
    assert_eq!(error.code, -32602);
    assert_eq!(error.message, "Provided index is greater than the current tip");
}

#[test]
fn block_hash_request_with_a_tip_above_i32() {
    assert_eq!(
        get_block_hash_request(7, Some(Height(3_000_000_000))),
        Ok(ReadRequest::BestChainBlockHash(Height(7)))
    );
}

#[test]
fn last_block_hash_is_at_block_count() {
    for tip in [0u32, 1, 17, 2_000_000] {
        let count = get_block_count(Some(Height(tip))).unwrap();
        assert_eq!(
            get_block_hash_request(-1, Some(Height(tip))),
            Ok(ReadRequest::BestChainBlockHash(Height(count)))
        );
    }
}

#[test]
fn block_hash_response() {
    let hash = BlockHash([7u8; 32]);
    assert_eq!(
        get_block_hash_response(Ok(ReadResponse::BlockHash(Some(hash)))),
        Ok(GetBlockHash(hash))
    );
    assert_eq!(
        get_block_hash_response(Ok(ReadResponse::BlockHash(None))),
        Err(RpcError { code: MISSING_BLOCK_ERROR_CODE, message: "Block not found".to_string() })
    );
    assert_eq!(MISSING_BLOCK_ERROR_CODE, -8);
    assert_eq!(
        get_block_hash_response(Err("state is down".to_string())),
        Err(RpcError { code: SERVER_ERROR_CODE, message: "state is down".to_string() })
    );
}

#[test]
fn block_template_request_needs_a_tip() {
    assert_eq!(get_block_template_request(Some(Height(3))), Ok(MempoolRequest::FullTransactions));
    assert_eq!(get_block_template_request(None), Err(no_blocks()));
}

use sha2::Digest;

fn sha256d(left: &[u8; 32], right: &[u8; 32]) -> [u8; 32] {
    let mut data = left.to_vec();
    data.extend_from_slice(right);
    let once = sha2::Sha256::digest(&data);
    sha2::Sha256::digest(once).into()
}

fn auth_node(left: &[u8; 32], right: &[u8; 32]) -> [u8; 32] {
    let mut data = left.to_vec();
    data.extend_from_slice(right);
    let hash = blake2b_simd::Params::new()
        .hash_length(32)
        .personal(b"ZcashAuthDatHash")
        .hash(&data);
    hash.as_bytes().try_into().unwrap()
}

#[test]
fn block_template_without_transactions_has_zero_roots() {
    let template =
        get_block_template_response(Ok(MempoolResponse::FullTransactions(Vec::new())))
            .unwrap();
    assert_eq!(template.default_roots.merkle_root, [0u8; 32]);
    assert_eq!(template.default_roots.auth_data_root, [0u8; 32]);
    assert_eq!(template.default_roots.chain_history_root, [0u8; 32]);
    assert_eq!(template.default_roots.block_commitments_hash, [0u8; 32]);
    assert!(template.transactions.is_empty());
    assert!(template.capabilities.is_empty());
    assert!(template.mutable.is_empty());
    assert_eq!(template.version, 0);
    assert_eq!(template.previous_block_hash, GetBlockHash(BlockHash([0u8; 32])));
    assert_eq!(template.block_commitments_hash, [0u8; 32]);
    assert_eq!(template.light_client_root_hash, [0u8; 32]);
    assert_eq!(template.final_sapling_root_hash, [0u8; 32]);
    assert_eq!(template.target, "");
    assert_eq!(template.nonce_range, "");
    assert_eq!(template.bits, "");
    assert_eq!(
        (template.min_time, template.sigop_limit, template.size_limit, template.cur_time, template.height),
        (0, 0, 0, 0, 0)
    );
    let coinbase = template.coinbase_txn;
    assert!(coinbase.data.is_empty());
    assert_eq!(coinbase.hash, [0u8; 32]);
    assert_eq!(coinbase.auth_digest, [0u8; 32]);
    assert!(coinbase.depends.is_empty());
    assert_eq!((coinbase.fee, coinbase.sigops, coinbase.required), (0, 0, true));
}

#[test]
fn block_template_keeps_mempool_transactions_in_order() {
    let legacy = UnminedTx { id: UnminedTxId::Legacy([1; 32]), transaction: vec![1, 2, 3] };
    let witnessed = UnminedTx {
        id: UnminedTxId::Witnessed { id: [2; 32], auth_digest: [3; 32] },
        transaction: vec![4, 5],
    };
    let template = get_block_template_response(
        Ok(MempoolResponse::FullTransactions(vec![legacy, witnessed])),
    )
    .unwrap();
    assert_eq!(template.default_roots.merkle_root, sha256d(&[1; 32], &[2; 32]));
    assert_eq!(template.default_roots.auth_data_root, auth_node(&[0xff; 32], &[3; 32]));
    assert_eq!(template.default_roots.chain_history_root, [0u8; 32]);
    assert_eq!(template.transactions.len(), 2);
    let first = &template.transactions[0];
    assert_eq!(first.data, vec![1, 2, 3]);
    assert_eq!(first.hash, [1; 32]);
    assert_eq!(first.auth_digest, [0xff; 32]);
    assert!(first.depends.is_empty());
    assert_eq!((first.fee, first.sigops, first.required), (0, 0, false));
    let second = &template.transactions[1];
    assert_eq!(second.data, vec![4, 5]);
    assert_eq!(second.hash, [2; 32]);
    assert_eq!(second.auth_digest, [3; 32]);
    assert!(!second.required);
}

#[test]
fn block_template_roots_of_three_transactions() {
    let tx = |id: u8, digest: Option<u8>| UnminedTx {
        id: match digest {
            Some(digest) => UnminedTxId::Witnessed { id: [id; 32], auth_digest: [digest; 32] },
            None => UnminedTxId::Legacy([id; 32]),
        },
        transaction: vec![id],
    };
    let template = get_block_template_response(Ok(MempoolResponse::FullTransactions(vec![
        tx(1, Some(4)),
        tx(2, None),
        tx(3, Some(6)),
    ])))
    .unwrap();
    assert_eq!(
        template.default_roots.merkle_root,
        sha256d(&sha256d(&[1; 32], &[2; 32]), &sha256d(&[3; 32], &[3; 32]))
    );
    assert_eq!(
        template.default_roots.auth_data_root,
        auth_node(&auth_node(&[4; 32], &[0xff; 32]), &auth_node(&[6; 32], &[0; 32]))
    );
    let hashes: Vec<[u8; 32]> = template.transactions.iter().map(|t| t.hash).collect();
    assert_eq!(hashes, vec![[1; 32], [2; 32], [3; 32]]);
}

#[test]
fn block_template_mempool_failure() {
    assert_eq!(
        get_block_template_response(Err("mempool is down".to_string())),
        Err(RpcError { code: SERVER_ERROR_CODE, message: "mempool is down".to_string() })
    );
}

fn rejected() -> Result<SubmitBlockResponse, RpcError> {
    Ok(SubmitBlockResponse::ErrorResponse(SubmitBlockErrorResponse::Rejected))
}

fn duplicate() -> Result<SubmitBlockResponse, RpcError> {
    Ok(SubmitBlockResponse::ErrorResponse(SubmitBlockErrorResponse::Duplicate))
}

#[test]
fn submit_block_results() {
    assert_eq!(
        submit_block_result(SubmitBlockOutcome::Committed(BlockHash([9; 32]))),
        Ok(SubmitBlockResponse::Accepted)
    );
    assert_eq!(submit_block_result(SubmitBlockOutcome::Undeserializable), rejected());
    assert_eq!(submit_block_result(SubmitBlockOutcome::UnknownError), rejected());
    assert_eq!(
        submit_block_result(SubmitBlockOutcome::VerifierNotReady("overloaded".to_string())),
        Err(RpcError { code: SERVER_ERROR_CODE, message: "overloaded".to_string() })
    );
}

#[test]
fn submit_block_duplicates() {
    assert_eq!(
        submit_block_result(SubmitBlockOutcome::ChainError(VerifyChainError::Checkpoint(
            VerifyCheckpointError::AlreadyVerified { height: Height(5), hash: BlockHash([1; 32]) }
        ))),
        duplicate()
    );
    assert_eq!(
        submit_block_result(SubmitBlockOutcome::ChainError(VerifyChainError::Block(
            VerifyBlockError::Block { source: BlockError::AlreadyInChain(BlockHash([1; 32]), 3) }
        ))),
        duplicate()
    );
}

#[test]
fn submit_block_other_errors_are_rejected() {
    assert_eq!(
        submit_block_result(SubmitBlockOutcome::ChainError(VerifyChainError::Checkpoint(
            VerifyCheckpointError::Other
        ))),
        rejected()
    );
    assert_eq!(
        submit_block_result(SubmitBlockOutcome::ChainError(VerifyChainError::Block(
            VerifyBlockError::Other
        ))),
        rejected()
    );
    assert_eq!(
        submit_block_result(SubmitBlockOutcome::ChainError(VerifyChainError::Block(
            VerifyBlockError::Block { source: BlockError::NoTransactions }
        ))),
        rejected()
    );
    assert_eq!(
        submit_block_result(SubmitBlockOutcome::ChainError(VerifyChainError::Block(
            VerifyBlockError::Block {
                source: BlockError::Transaction(TransactionError::Subsidy(SubsidyError::NoCoinbase))
            }
        ))),
        rejected()
    );
}

#[test]
fn rpc_impl_holds_its_services() {
    let rpc = GetBlockTemplateRpcImpl::new(1u8, "state", 3u64, vec![4]);
    assert_eq!(*rpc.mempool(), 1u8);
    assert_eq!(*rpc.state(), "state");
    assert_eq!(*rpc.latest_chain_tip(), 3u64);
    assert_eq!(*rpc.chain_verifier(), vec![4]);
}
