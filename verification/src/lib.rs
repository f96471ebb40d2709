//! Tenure controller and block-production loop of a Nakamoto-style
//! proof-of-transfer miner, modelled over plain values.
//!
//! The worker's collaborators (sortition store, chain state, mempool,
//! signer network, peer-to-peer layer) answer queries; here every such
//! answer is a plain value handed to the deciding function, so the
//! decisions, the assembled blocks and the loop itself are verified for
//! every possible answer. A thin driver outside this crate performs the
//! actual reads, sleeps and sends.

pub mod types;
pub mod errors;
pub mod tx;
pub mod block;
pub mod globals;
pub mod env;
pub mod parent;
pub mod miner;
pub mod assembly;
pub mod signing;
pub mod run;
pub mod laws;
