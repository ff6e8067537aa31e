use sha2::Digest;
use zebra_rpc_core::get_block_template_rpcs::types::{UnminedTx, UnminedTxId};
use zebra_rpc_core::merkle::{
    auth_data_root, merkle_root, transactions_auth_data_root, transactions_merkle_root,
};

fn sha256d(left: &[u8; 32], right: &[u8; 32]) -> [u8; 32] {
    let mut data = left.to_vec();
    data.extend_from_slice(right);
    let once = sha2::Sha256::digest(&data);
    sha2::Sha256::digest(once).into()
}

fn auth_node(left: &[u8; 32], right: &[u8; 32]) -> [u8; 32] {
    let mut data = left.to_vec();
    data.extend_from_slice(right);
    let hash = blake2b_simd::Params::new()
        .hash_length(32)
        .personal(b"ZcashAuthDatHash")
        .hash(&data);
    hash.as_bytes().try_into().unwrap()
}

#[test]
fn merkle_root_of_one_hash_is_the_hash() {
    assert_eq!(merkle_root(vec![[5; 32]]), [5; 32]);
}

#[test]
fn merkle_root_of_two_hashes() {
    assert_eq!(merkle_root(vec![[1; 32], [2; 32]]), sha256d(&[1; 32], &[2; 32]));
}

#[test]
fn merkle_root_duplicates_an_unpaired_node() {
    let left = sha256d(&[1; 32], &[2; 32]);
    let right = sha256d(&[3; 32], &[3; 32]);
    assert_eq!(merkle_root(vec![[1; 32], [2; 32], [3; 32]]), sha256d(&left, &right));
    let five = vec![[1; 32], [2; 32], [3; 32], [4; 32], [5; 32]];
    let level1 = [
        sha256d(&[1; 32], &[2; 32]),
        sha256d(&[3; 32], &[4; 32]),
        sha256d(&[5; 32], &[5; 32]),
    ];
    let level2 = [sha256d(&level1[0], &level1[1]), sha256d(&level1[2], &level1[2])];
    assert_eq!(merkle_root(five), sha256d(&level2[0], &level2[1]));
}

#[test]
fn merkle_root_double_sha256_known_value() {
    // SHA-256d of 64 zero bytes.
    let expected = sha2::Sha256::digest(sha2::Sha256::digest([0u8; 64]));
    assert_eq!(merkle_root(vec![[0; 32], [0; 32]]).to_vec(), expected.to_vec());
}

#[test]
fn auth_data_root_pads_with_null_hashes() {
    assert_eq!(auth_data_root(vec![]), [0; 32]);
    assert_eq!(auth_data_root(vec![[7; 32]]), [7; 32]);
    assert_eq!(auth_data_root(vec![[7; 32], [8; 32]]), auth_node(&[7; 32], &[8; 32]));
    assert_eq!(
        auth_data_root(vec![[7; 32], [8; 32], [9; 32]]),
        auth_node(&auth_node(&[7; 32], &[8; 32]), &auth_node(&[9; 32], &[0; 32]))
    );
    let five = vec![[1; 32], [2; 32], [3; 32], [4; 32], [5; 32]];
    let level1 = [
        auth_node(&[1; 32], &[2; 32]),
        auth_node(&[3; 32], &[4; 32]),
        auth_node(&[5; 32], &[0; 32]),
        auth_node(&[0; 32], &[0; 32]),
    ];
    let level2 = [auth_node(&level1[0], &level1[1]), auth_node(&level1[2], &level1[3])];
    assert_eq!(auth_data_root(five), auth_node(&level2[0], &level2[1]));
}

#[test]
fn transaction_roots_use_mined_ids_and_placeholder_digests() {
    let transactions = vec![
        UnminedTx { id: UnminedTxId::Legacy([1; 32]), transaction: vec![] },
        UnminedTx {
            id: UnminedTxId::Witnessed { id: [2; 32], auth_digest: [3; 32] },
            transaction: vec![0xaa],
        },
    ];
    assert_eq!(transactions_merkle_root(&transactions), sha256d(&[1; 32], &[2; 32]));
    assert_eq!(transactions_auth_data_root(&transactions), auth_node(&[0xff; 32], &[3; 32]));
}
