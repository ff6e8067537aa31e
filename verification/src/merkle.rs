//! The roots that a block header commits to for the block's transactions: the
//! merkle root of their transaction ids (double SHA-256), and the root of the
//! tree of their authorizing data digests (ZIP-244, BLAKE2b-256 personalized
//! by `ZcashAuthDatHash`).
//!
//! These model the two roots that zebra-chain computes when a list of mempool
//! transactions is collected into a `block::merkle::Root` and into an
//! `AuthDataRoot`.

use sha2::Digest;
use vstd::prelude::*;

use crate::get_block_template_rpcs::types::{auth_digest_placeholder, UnminedTx, UnminedTxId};

verus! {

/// The SHA-256 digest of a byte string.
pub uninterp spec fn sha256_digest(data: Seq<u8>) -> Seq<u8>;

/// The 32-byte BLAKE2b digest of a byte string under a personalization.
pub uninterp spec fn blake2b_256_personal(personal: Seq<u8>, data: Seq<u8>) -> Seq<u8>;

/// Computes the SHA-256 digest of `data`.
///
/// Calls `sha2::Sha256::digest` (the `Digest` trait of digest 0.10.7, as sha2
/// 0.10.9 implements it) and converts its 32-byte output to an array. The
/// contract names the digest as a function of the input bytes alone.
#[verifier::external_body]
fn sha256(data: &[u8]) -> (digest: [u8; 32])
    ensures
        digest@ == sha256_digest(data@),
{
    sha2::Sha256::digest(data).into()
}

/// Computes the BLAKE2b digest of `data`, 32 bytes long, personalized by `personal`.
///
/// Calls `blake2b_simd::Params::new().hash_length(32).personal(personal).hash(data)`
/// (blake2b_simd 1.0.5) and copies the 32 bytes of the result to an array.
/// `personal` panics on a personalization longer than 16 bytes, which
/// `requires` leaves out. The contract names the digest as a function of the
/// personalization and the input bytes.
#[verifier::external_body]
fn blake2b_256(personal: &[u8], data: &[u8]) -> (digest: [u8; 32])
    requires
        personal@.len() <= 16,
    ensures
        digest@ == blake2b_256_personal(personal@, data@),
{
    let hash = blake2b_simd::Params::new().hash_length(32).personal(personal).hash(data);
    let mut digest = [0u8; 32];
    digest.copy_from_slice(hash.as_bytes());
    digest
}

/// The byte strings of a sequence of 32-byte hashes.
pub open spec fn hashes_view(hashes: Seq<[u8; 32]>) -> Seq<Seq<u8>> {
    hashes.map_values(|hash: [u8; 32]| hash@)
}

/// Returns the 64 bytes of `left` followed by `right`.
fn concat(left: &[u8; 32], right: &[u8; 32]) -> (bytes: Vec<u8>)
    ensures
        bytes@ == left@ + right@,
{
    let mut bytes: Vec<u8> = Vec::new();
    for i in 0..32
        invariant
            bytes@ == left@.subrange(0, i as int),
    {
        bytes.push(left[i]);
    }
    assert(left@.subrange(0, 32) =~= left@);
    for i in 0..32
        invariant
            bytes@ == left@ + right@.subrange(0, i as int),
    {
        bytes.push(right[i]);
        assert(left@ + right@.subrange(0, i + 1) =~= (left@ + right@.subrange(0, i as int)).push(
            right@[i as int],
        ));
    }
    assert(right@.subrange(0, 32) =~= right@);
    bytes
}

// ---------------------------------------------------------------------------
// Merkle root of transaction ids
// ---------------------------------------------------------------------------

/// The parent of two nodes of the transaction id merkle tree: the double SHA-256
/// of their concatenation.
pub open spec fn merkle_node(left: Seq<u8>, right: Seq<u8>) -> Seq<u8> {
    sha256_digest(sha256_digest(left + right))
}

/// The next level of the transaction id merkle tree: each pair of nodes is
/// replaced by its parent, and a last unpaired node is paired with itself.
pub open spec fn merkle_level(hashes: Seq<Seq<u8>>) -> Seq<Seq<u8>> {
    Seq::new(
        ((hashes.len() + 1) / 2) as nat,
        |i: int|
            if 2 * i + 1 < hashes.len() {
                merkle_node(hashes[2 * i], hashes[2 * i + 1])
            } else {
                merkle_node(hashes[2 * i], hashes[2 * i])
            },
    )
}

/// The merkle root of a non-empty sequence of hashes: the single node that
/// remains after replacing levels until one node is left.
pub open spec fn merkle_root_of(hashes: Seq<Seq<u8>>) -> Seq<u8>
    decreases hashes.len(),
{
    if hashes.len() <= 1 {
        hashes[0]
    } else {
        merkle_root_of(merkle_level(hashes))
    }
}

/// Returns the parent of two nodes of the transaction id merkle tree.
fn merkle_node_hash(left: &[u8; 32], right: &[u8; 32]) -> (node: [u8; 32])
    ensures
        node@ == merkle_node(left@, right@),
{
    let data = concat(left, right);
    let once = sha256(data.as_slice());
    sha256(once.as_slice())
}

/// Returns the next level of the transaction id merkle tree.
fn merkle_level_exec(hashes: &Vec<[u8; 32]>) -> (next: Vec<[u8; 32]>)
    ensures
        hashes_view(next@) == merkle_level(hashes_view(hashes@)),
{
    let ghost level = merkle_level(hashes_view(hashes@));
    let count: usize = hashes.len();
    let pairs: usize = count / 2 + count % 2;
    let mut next: Vec<[u8; 32]> = Vec::new();
    for j in 0..pairs
        invariant
            count == hashes@.len(),
            pairs == (count + 1) / 2,
            level == merkle_level(hashes_view(hashes@)),
            next@.len() == j,
            forall|k: int| 0 <= k < j ==> (#[trigger] next@[k])@ == level[k],
    {
        let i: usize = 2 * j;
        let node = if i + 1 < count {
            merkle_node_hash(&hashes[i], &hashes[i + 1])
        } else {
            merkle_node_hash(&hashes[i], &hashes[i])
        };
        next.push(node);
    }
    assert(hashes_view(next@) =~= level);
    next
}

/// Computes the merkle root of a non-empty list of hashes.
pub fn merkle_root(hashes: Vec<[u8; 32]>) -> (root: [u8; 32])
    requires
        hashes@.len() > 0,
    ensures
        root@ == merkle_root_of(hashes_view(hashes@)),
{
    let mut level = hashes;
    while level.len() > 1
        invariant
            level@.len() > 0,
            merkle_root_of(hashes_view(level@)) == merkle_root_of(hashes_view(hashes@)),
        decreases level@.len(),
    {
        let next = merkle_level_exec(&level);
        assert(hashes_view(next@).len() == next@.len());
        level = next;
    }
    level[0]
}

// ---------------------------------------------------------------------------
// Root of the authorizing data tree
// ---------------------------------------------------------------------------

/// The personalization of the nodes of the authorizing data tree: the ASCII
/// bytes of `ZcashAuthDatHash`.
pub open spec fn auth_data_personalization() -> Seq<u8> {
    seq![
        0x5au8, 0x63u8, 0x61u8, 0x73u8, 0x68u8, 0x41u8, 0x75u8, 0x74u8,
        0x68u8, 0x44u8, 0x61u8, 0x74u8, 0x48u8, 0x61u8, 0x73u8, 0x68u8,
    ]
}

/// The 32 zero bytes of the leaves that pad the authorizing data tree.
pub open spec fn null_hash() -> Seq<u8> {
    Seq::new(32, |_i: int| 0u8)
}

/// The parent of two nodes of the authorizing data tree.
pub open spec fn auth_data_node(left: Seq<u8>, right: Seq<u8>) -> Seq<u8> {
    blake2b_256_personal(auth_data_personalization(), left + right)
}

/// Whether `n` is a power of two.
pub open spec fn is_power_of_two(n: nat) -> bool
    decreases n,
{
    if n == 1 {
        true
    } else if n == 0 || n % 2 == 1 {
        false
    } else {
        is_power_of_two((n / 2) as nat)
    }
}

/// The smallest power of two, starting from `p` and doubling, that is at least `n`.
pub open spec fn power_of_two_at_least(n: nat, p: nat) -> nat
    decreases (if p >= n { 0 } else { n - p }),
{
    if p == 0 || p >= n {
        p
    } else {
        power_of_two_at_least(n, p * 2)
    }
}

/// The smallest power of two that is at least `n` (1 for 0).
pub open spec fn next_power_of_two(n: nat) -> nat {
    power_of_two_at_least(n, 1)
}

/// The leaves of the authorizing data tree: the digests, padded with null
/// hashes to a power of two.
pub open spec fn auth_data_leaves(digests: Seq<Seq<u8>>) -> Seq<Seq<u8>> {
    digests + Seq::new(
        (next_power_of_two(digests.len()) - digests.len()) as nat,
        |_i: int| null_hash(),
    )
}

/// The next level of the authorizing data tree: each pair of nodes is replaced
/// by its parent.
pub open spec fn auth_data_level(hashes: Seq<Seq<u8>>) -> Seq<Seq<u8>> {
    Seq::new(
        (hashes.len() / 2) as nat,
        |i: int| auth_data_node(hashes[2 * i], hashes[2 * i + 1]),
    )
}

/// The root of a tree whose leaves are `hashes`, a power of two of them.
pub open spec fn auth_data_tree_root(hashes: Seq<Seq<u8>>) -> Seq<u8>
    decreases hashes.len(),
{
    if hashes.len() <= 1 {
        hashes[0]
    } else {
        auth_data_tree_root(auth_data_level(hashes))
    }
}

/// The root of the authorizing data tree of the given digests.
pub open spec fn auth_data_root_of(digests: Seq<Seq<u8>>) -> Seq<u8> {
    auth_data_tree_root(auth_data_leaves(digests))
}

/// Returns the parent of two nodes of the authorizing data tree.
fn auth_data_node_hash(left: &[u8; 32], right: &[u8; 32]) -> (node: [u8; 32])
    ensures
        node@ == auth_data_node(left@, right@),
{
    let personal: [u8; 16] = [
        0x5a, 0x63, 0x61, 0x73, 0x68, 0x41, 0x75, 0x74, 0x68, 0x44, 0x61, 0x74, 0x48, 0x61, 0x73,
        0x68,
    ];
    assert(personal@ =~= auth_data_personalization());
    let data = concat(left, right);
    blake2b_256(personal.as_slice(), data.as_slice())
}

/// Returns the next level of the authorizing data tree, for an even number of nodes.
fn auth_data_level_exec(hashes: &Vec<[u8; 32]>) -> (next: Vec<[u8; 32]>)
    requires
        hashes@.len() % 2 == 0,
    ensures
        hashes_view(next@) == auth_data_level(hashes_view(hashes@)),
{
    let ghost level = auth_data_level(hashes_view(hashes@));
    let count: usize = hashes.len();
    let pairs: usize = count / 2;
    let mut next: Vec<[u8; 32]> = Vec::new();
    for j in 0..pairs
        invariant
            count == hashes@.len(),
            count % 2 == 0,
            pairs == count / 2,
            level == auth_data_level(hashes_view(hashes@)),
            next@.len() == j,
            forall|k: int| 0 <= k < j ==> (#[trigger] next@[k])@ == level[k],
    {
        let i: usize = 2 * j;
        next.push(auth_data_node_hash(&hashes[i], &hashes[i + 1]));
    }
    assert(hashes_view(next@) =~= level);
    next
}

/// Computes the root of the authorizing data tree of the given digests.
pub fn auth_data_root(digests: Vec<[u8; 32]>) -> (root: [u8; 32])
    requires
        digests@.len() <= usize::MAX / 2 + 1,
    ensures
        root@ == auth_data_root_of(hashes_view(digests@)),
{
    let count: usize = digests.len();
    let mut width: usize = 1;
    while width < count
        invariant
            count == digests@.len(),
            count <= usize::MAX / 2 + 1,
            1 <= width,
            width < count ==> width <= usize::MAX / 2,
            is_power_of_two(width as nat),
            power_of_two_at_least(count as nat, width as nat) == next_power_of_two(count as nat),
        decreases (if width >= count { 0 } else { count - width }),
    {
        width = width * 2;
    }
    assert(width == next_power_of_two(count as nat));

    let mut level = digests;
    let ghost leaves = auth_data_leaves(hashes_view(level@));
    while level.len() < width
        invariant
            count <= level@.len() <= width,
            width == next_power_of_two(count as nat),
            leaves == auth_data_leaves(hashes_view(digests@)),
            forall|k: int| 0 <= k < level@.len() ==> (#[trigger] level@[k])@ == leaves[k],
            leaves.len() == width,
            hashes_view(digests@).len() == count,
            leaves == hashes_view(digests@) + Seq::new(
                (width - count) as nat,
                |_i: int| null_hash(),
            ),
        decreases width - level@.len(),
    {
        let null: [u8; 32] = [0u8; 32];
        assert(null@ =~= null_hash());
        assert(leaves[level@.len() as int] == null_hash());
        level.push(null);
    }
    assert(hashes_view(level@) =~= leaves);

    while level.len() > 1
        invariant
            level@.len() > 0,
            is_power_of_two(level@.len() as nat),
            auth_data_tree_root(hashes_view(level@)) == auth_data_tree_root(leaves),
            leaves == auth_data_leaves(hashes_view(digests@)),
        decreases level@.len(),
    {
        let next = auth_data_level_exec(&level);
        assert(hashes_view(next@).len() == next@.len());
        level = next;
    }
    level[0]
}

/// A single transaction id is its own merkle root, and a single authorizing
/// data digest is its own tree root; no digests at all give the null hash.
pub proof fn lemma_roots_of_small_lists(id: Seq<u8>, digest: Seq<u8>)
    ensures
        merkle_root_of(seq![id]) == id,
        auth_data_root_of(seq![digest]) == digest,
        auth_data_root_of(Seq::<Seq<u8>>::empty()) == null_hash(),
{
    assert(next_power_of_two(1) == 1);
    assert(auth_data_leaves(seq![digest]) =~= seq![digest]);
    assert(power_of_two_at_least(0, 1) == 1);
    assert(auth_data_leaves(Seq::<Seq<u8>>::empty()) =~= seq![null_hash()]);
}

/// Whether `bytes` are 32 bytes that all equal `value`.
pub open spec fn is_filled_hash(bytes: Seq<u8>, value: u8) -> bool {
    &&& bytes.len() == 32
    &&& forall|j: int| 0 <= j < 32 ==> bytes[j] == value
}

/// The transaction id merkle tree: one hash is its own root; two hashes have
/// the double SHA-256 of their concatenation as root; and an unpaired last node
/// is paired with itself.
pub proof fn lemma_merkle_root_of_few_hashes(a: Seq<u8>, b: Seq<u8>, c: Seq<u8>)
    ensures
        merkle_root_of(seq![a]) == a,
        merkle_root_of(seq![a, b]) == sha256_digest(sha256_digest(a + b)),
        merkle_root_of(seq![a, b, c]) == sha256_digest(
            sha256_digest(
                sha256_digest(sha256_digest(a + b)) + sha256_digest(sha256_digest(c + c)),
            ),
        ),
{
    let two = seq![a, b];
    let ab = sha256_digest(sha256_digest(a + b));
    assert(merkle_level(two) =~= seq![ab]);
    assert(merkle_root_of(seq![ab]) == ab);
    assert(merkle_root_of(two) == merkle_root_of(seq![ab]));
    let three = seq![a, b, c];
    let cc = sha256_digest(sha256_digest(c + c));
    let root = sha256_digest(sha256_digest(ab + cc));
    assert(merkle_level(three) =~= seq![ab, cc]);
    assert(merkle_level(seq![ab, cc]) =~= seq![root]);
    assert(merkle_root_of(seq![root]) == root);
    assert(merkle_root_of(seq![ab, cc]) == merkle_root_of(seq![root]));
    assert(merkle_root_of(three) == merkle_root_of(seq![ab, cc]));
}

/// A level of the transaction id merkle tree with more than one node leads to
/// the same root as the next level, whose nodes are the double SHA-256 of each
/// pair of nodes, a last unpaired node being paired with itself.
pub proof fn lemma_merkle_root_step(hashes: Seq<Seq<u8>>)
    requires
        hashes.len() >= 2,
    ensures
        merkle_root_of(hashes) == merkle_root_of(
            Seq::new(
                ((hashes.len() + 1) / 2) as nat,
                |i: int|
                    if 2 * i + 1 < hashes.len() {
                        sha256_digest(sha256_digest(hashes[2 * i] + hashes[2 * i + 1]))
                    } else {
                        sha256_digest(sha256_digest(hashes[2 * i] + hashes[2 * i]))
                    },
            ),
        ),
{
    assert(merkle_level(hashes) =~= Seq::new(
        ((hashes.len() + 1) / 2) as nat,
        |i: int|
            if 2 * i + 1 < hashes.len() {
                sha256_digest(sha256_digest(hashes[2 * i] + hashes[2 * i + 1]))
            } else {
                sha256_digest(sha256_digest(hashes[2 * i] + hashes[2 * i]))
            },
    ));
}

/// The authorizing data tree: no digests give 32 zero bytes; one digest is its
/// own root; two digests have as root the BLAKE2b-256 of their concatenation
/// personalized by `ZcashAuthDatHash`; three digests are padded with a zero
/// leaf to four.
pub proof fn lemma_auth_data_root_of_few_digests(a: Seq<u8>, b: Seq<u8>, c: Seq<u8>)
    ensures
        is_filled_hash(auth_data_root_of(Seq::<Seq<u8>>::empty()), 0u8),
        auth_data_root_of(seq![a]) == a,
        auth_data_root_of(seq![a, b]) == blake2b_256_personal(
            "ZcashAuthDatHash"@.map_values(|ch: char| ch as u8),
            a + b,
        ),
        ({
            let personal = "ZcashAuthDatHash"@.map_values(|ch: char| ch as u8);
            let zero = Seq::new(32, |_j: int| 0u8);
            auth_data_root_of(seq![a, b, c]) == blake2b_256_personal(
                personal,
                blake2b_256_personal(personal, a + b) + blake2b_256_personal(personal, c + zero),
            )
        }),
{
    reveal_strlit("ZcashAuthDatHash");
    let personal = "ZcashAuthDatHash"@.map_values(|ch: char| ch as u8);
    assert(personal =~= auth_data_personalization());
    lemma_roots_of_small_lists(a, a);
    assert(power_of_two_at_least(0, 1) == 1);
    assert(auth_data_leaves(Seq::<Seq<u8>>::empty()) =~= seq![null_hash()]);
    assert(power_of_two_at_least(2, 2) == 2);
    assert(power_of_two_at_least(2, 1) == 2);
    let two = seq![a, b];
    assert(auth_data_leaves(two) =~= two);
    assert(auth_data_level(two) =~= seq![auth_data_node(a, b)]);
    assert(auth_data_tree_root(seq![auth_data_node(a, b)]) == auth_data_node(a, b));
    assert(auth_data_tree_root(two) == auth_data_node(a, b));
    assert(power_of_two_at_least(3, 4) == 4);
    assert(power_of_two_at_least(3, 2) == 4);
    assert(power_of_two_at_least(3, 1) == 4);
    let zero = Seq::new(32, |_j: int| 0u8);
    assert(zero =~= null_hash());
    let three = seq![a, b, c];
    let leaves = seq![a, b, c, zero];
    assert(auth_data_leaves(three) =~= leaves);
    let ab = auth_data_node(a, b);
    let cz = auth_data_node(c, zero);
    assert(auth_data_level(leaves) =~= seq![ab, cz]);
    let root = auth_data_node(ab, cz);
    assert(auth_data_level(seq![ab, cz]) =~= seq![root]);
    assert(auth_data_tree_root(seq![root]) == root);
    assert(auth_data_tree_root(seq![ab, cz]) == root);
    assert(auth_data_tree_root(leaves) == root);
}

// ---------------------------------------------------------------------------
// Roots of a list of mempool transactions
// ---------------------------------------------------------------------------

/// The mined ids of transactions, as byte strings.
pub open spec fn mined_ids(transactions: Seq<UnminedTx>) -> Seq<Seq<u8>> {
    transactions.map_values(|tx: UnminedTx| tx.id.spec_mined_id()@)
}

/// The placeholder authorizing data digest of a transaction older than v5:
/// 32 bytes of `0xff`.
pub open spec fn auth_digest_placeholder_bytes() -> Seq<u8> {
    Seq::new(32, |_i: int| 0xffu8)
}

/// The authorizing data digests that the authorizing data tree commits to for
/// transactions: the digest of each v5 transaction, and the placeholder for
/// each older one.
pub open spec fn auth_digests(transactions: Seq<UnminedTx>) -> Seq<Seq<u8>> {
    transactions.map_values(
        |tx: UnminedTx|
            match tx.id.spec_auth_digest() {
                Some(digest) => digest@,
                None => auth_digest_placeholder_bytes(),
            },
    )
}

/// Computes the merkle root of the mined ids of a non-empty list of transactions.
pub fn transactions_merkle_root(transactions: &Vec<UnminedTx>) -> (root: [u8; 32])
    requires
        transactions@.len() > 0,
    ensures
        root@ == merkle_root_of(mined_ids(transactions@)),
{
    let mut ids: Vec<[u8; 32]> = Vec::new();
    for i in 0..transactions.len()
        invariant
            ids@.len() == i,
            forall|k: int|
                0 <= k < i ==> (#[trigger] ids@[k]) == transactions@[k].id.spec_mined_id(),
    {
        ids.push(transactions[i].id.mined_id());
    }
    assert(hashes_view(ids@) =~= mined_ids(transactions@));
    merkle_root(ids)
}

/// Computes the root of the authorizing data tree of a list of transactions.
pub fn transactions_auth_data_root(transactions: &Vec<UnminedTx>) -> (root: [u8; 32])
    requires
        transactions@.len() <= usize::MAX / 2 + 1,
    ensures
        root@ == auth_data_root_of(auth_digests(transactions@)),
{
    let mut digests: Vec<[u8; 32]> = Vec::new();
    for i in 0..transactions.len()
        invariant
            digests@.len() == i,
            forall|k: int|
                0 <= k < i ==> (#[trigger] digests@[k])@ == auth_digests(transactions@)[k],
    {
        let digest = match transactions[i].id.auth_digest() {
            Some(digest) => digest,
            None => {
                let placeholder = auth_digest_placeholder();
                assert(placeholder@ =~= auth_digest_placeholder_bytes());
                placeholder
            },
        };
        digests.push(digest);
    }
    assert(hashes_view(digests@) =~= auth_digests(transactions@));
    auth_data_root(digests)
}

/// The leaves of the two trees are the transactions' own identifiers, in the
/// transactions' order and unchanged: the mined id of each transaction, and
/// the authorizing data digest of each v5 transaction or 32 bytes of `0xff`
/// for an older one.
pub proof fn lemma_tree_leaves_are_transaction_identifiers(transactions: Seq<UnminedTx>)
    ensures
        mined_ids(transactions).len() == transactions.len(),
        auth_digests(transactions).len() == transactions.len(),
        forall|k: int|
            0 <= k < transactions.len() ==> match (#[trigger] transactions[k]).id {
                UnminedTxId::Legacy(id) => {
                    &&& mined_ids(transactions)[k] == id@
                    &&& is_filled_hash(auth_digests(transactions)[k], 0xffu8)
                },
                UnminedTxId::Witnessed { id, auth_digest } => {
                    &&& mined_ids(transactions)[k] == id@
                    &&& auth_digests(transactions)[k] == auth_digest@
                },
            },
{
}

/// The roots of a single transaction are its own identifiers: its mined id
/// is the merkle root, and its authorizing data digest (or the `0xff`
/// placeholder) is the authorizing data root.
pub proof fn lemma_roots_of_one_transaction(tx: UnminedTx)
    ensures
        merkle_root_of(mined_ids(seq![tx])) == match tx.id {
            UnminedTxId::Legacy(id) => id@,
            UnminedTxId::Witnessed { id, .. } => id@,
        },
        match tx.id {
            UnminedTxId::Legacy(_) => is_filled_hash(auth_data_root_of(auth_digests(seq![tx])), 0xffu8),
            UnminedTxId::Witnessed { auth_digest, .. } => auth_data_root_of(auth_digests(seq![tx]))
                == auth_digest@,
        },
{
    lemma_tree_leaves_are_transaction_identifiers(seq![tx]);
    assert(mined_ids(seq![tx]) =~= seq![mined_ids(seq![tx])[0]]);
    assert(auth_digests(seq![tx]) =~= seq![auth_digests(seq![tx])[0]]);
    lemma_roots_of_small_lists(mined_ids(seq![tx])[0], auth_digests(seq![tx])[0]);
}

} // verus!
