//! Verified decision logic of Zebra's mining RPC methods (`getblockcount`,
//! `getblockhash`, `getblocktemplate`, `submitblock`) and the consensus error
//! types that `submitblock` reads.

pub mod chain;
pub mod error;
pub mod merkle;
pub mod get_block_template_rpcs;
pub mod rpc_error;
