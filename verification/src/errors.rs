//! The worker's error kinds and the loop policy each one carries.

use vstd::prelude::*;

verus! {

/// Failures surfaced by the chain-state layer while a block is assembled
/// or stored.
#[derive(Clone, Copy, Debug, PartialEq, Eq, Structural)]
pub enum ChainstateError {
    /// The miner was interrupted, or the block would come too soon after
    /// its parent; the loop sleeps and retries.
    MinerAborted,
    /// The assembled block would carry no transactions.
    NoTransactionsToMine,
    /// The signer-message store could not be reached.
    NetError,
    /// Any other failure of a store the worker reads or writes.
    DbError,
}

/// Why a signing-coordinator step could not run.
#[derive(Clone, Copy, Debug, PartialEq, Eq, Structural)]
pub enum CoordinatorFailure {
    /// A store the coordinator needs could not be opened.
    StateOpenFailed,
    /// The coordinator itself could not be constructed.
    InitFailed,
    /// No reward set is stored for the election's cycle yet.
    NoRewardSet,
    /// The cycle stored a reward set but selected no anchor block.
    NoSelectedAnchorBlock,
    /// Reading the reward set failed.
    RewardSetFetch,
    /// Pushing the signed block to the signer-message store failed.
    StackerDbPush,
}

/// Which configuration key was found missing.
#[derive(Clone, Copy, Debug, PartialEq, Eq, Structural)]
pub enum ConfigFailure {
    /// `miner.mining_key` is not set.
    NoMiningKey,
    /// `node.rpc_loopback` is not set.
    NoRpcLoopback,
}

/// The worker's error kinds. Errors that reflect a change of the
/// environment (`BurnchainTipChanged`, `StacksTipChanged`,
/// `NewParentDiscovered`) propagate out of the worker; transient local
/// failures cause an in-loop retry.
#[derive(Clone, Copy, Debug, PartialEq, Eq, Structural)]
pub enum NakamotoNodeError {
    /// A header the worker expected could not be found.
    ParentNotFound,
    /// The canonical burnchain tip moved away from the worker's view.
    BurnchainTipChanged,
    /// The canonical Stacks tip moved while signatures were gathered.
    StacksTipChanged,
    /// The Stacks tip is not the last known block of the parent tenure.
    NewParentDiscovered,
    /// Block assembly failed; the payload says how.
    MiningFailure(ChainstateError),
    /// The signing coordinator could not run or finish.
    SigningCoordinatorFailure(CoordinatorFailure),
    /// Persisting the mined block failed.
    AcceptFailure(ChainstateError),
    /// A configuration key the miner needs is missing.
    MinerConfigurationFailed(ConfigFailure),
    /// The eligibility proof could not be produced.
    BadVrfConstruction,
    /// Signing the assembled block failed.
    MinerSignatureError,
    /// A sortition index handle could not be opened.
    UnexpectedChainState,
    /// No epoch is recorded for the block after the burn tip.
    SnapshotNotFoundForChainTip,
}

} // verus!
