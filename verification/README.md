# zebra_rpc_core

The decision logic of Zebra's mining RPC methods, verified with Verus.

- `src/get_block_template_rpcs.rs`: `getblockcount`, `getblockhash`,
  `getblocktemplate` and `submitblock` as functions from the answers of the
  services they call (chain tip, state, mempool, chain verifier) to their
  JSON-RPC results, with the reading of the block index argument and the
  laws that relate them.
- `src/get_block_template_rpcs/types.rs`: the requests, answers and results
  that these methods exchange.
- `src/merkle.rs`: the transaction merkle root and the authorizing data root
  of a block template, modelling zebra-chain's `block::merkle::Root` and
  `AuthDataRoot` collected from mempool transactions.
- `src/error.rs`: the consensus errors that `submitblock` reads.
- `src/chain.rs`, `src/rpc_error.rs`: heights, hashes and JSON-RPC errors.
- `app/`: the JSON-RPC delegate over tower services, and the serde and
  `thiserror` forms of the values above.
