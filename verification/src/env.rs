//! What the worker's collaborators answered, as plain values.
//!
//! Each deciding function takes the answers it would otherwise read from
//! a store or a socket. The driver collects them; the functions here are
//! then verified for every possible answer.

use vstd::prelude::*;
use crate::types::{BlockSnapshot, ConsensusHash, MessageSignature, RewardSet, StacksBlockId, StacksEpochId, StacksHeaderInfo};
use crate::tx::StacksTransaction;
use crate::errors::NakamotoNodeError;

verus! {

/// The outcome of one store query that can also fail.
#[derive(Clone, Copy, Debug, PartialEq, Eq)]
pub enum DbQuery<T> {
    /// The store answered with a record.
    Found(T),
    /// The store answered: no such record.
    Absent,
    /// The query itself failed.
    Failed,
}

/// The canonical Stacks tip as the sortition store names it.
#[derive(Clone, Copy, Debug, PartialEq, Eq, Structural)]
pub struct StacksTipRef {
    pub consensus_hash: ConsensusHash,
    pub block_id: StacksBlockId,
}

/// The store answers the parent-selection step reads, beyond those the
/// caller already chose a tip header from.
#[derive(Clone, Copy, Debug, PartialEq, Eq)]
pub struct ParentLookupQueries {
    /// The canonical burnchain tip right now.
    pub canonical_burn_tip: BlockSnapshot,
    /// The header stored at the worker's parent-tenure id, if any.
    pub parent_tenure_header: Option<StacksHeaderInfo>,
    /// The highest block of the parent tenure reachable from the tip
    /// header being built on.
    pub highest_in_parent_tenure: DbQuery<StacksHeaderInfo>,
    /// The miner origin account's nonce at the tip; absent when the
    /// sortition index handle could not be opened.
    pub account_nonce: Option<u64>,
}

impl ParentLookupQueries {
    /// What any honest store satisfies: a block later in a tenure sits no
    /// lower than the tenure's start, tenure lengths fit the
    /// tenure-change record, and an account nonce has room to count one
    /// more transaction.
    pub open spec fn wf(self) -> bool {
        &&& match (self.parent_tenure_header, self.highest_in_parent_tenure) {
            (Some(p), DbQuery::Found(h)) => {
                &&& h.stacks_block_height >= p.stacks_block_height
                &&& h.stacks_block_height - p.stacks_block_height < u32::MAX
            },
            _ => true,
        }
        &&& match self.account_nonce {
            Some(n) => n < u64::MAX,
            None => true,
        }
    }
}

/// The store answers the parent-resolution step reads.
#[derive(Clone, Copy, Debug, PartialEq, Eq)]
pub struct ParentInfoQueries {
    /// The canonical Stacks tip; absent when the read failed.
    pub stacks_tip: Option<StacksTipRef>,
    /// The highest block of the worker's elected tenure reachable from
    /// the canonical tip.
    pub tenure_tip: DbQuery<StacksHeaderInfo>,
    /// The header stored at the worker's parent-tenure id, if any.
    pub parent_tenure_start: Option<StacksHeaderInfo>,
    /// The highest block of the parent tenure reachable from the
    /// canonical tip.
    pub parent_tenure_highest: DbQuery<StacksHeaderInfo>,
    /// The answers the final selection step reads.
    pub lookup: ParentLookupQueries,
}

impl ParentInfoQueries {
    /// Consistency among the answers: the parent-tenure header is one
    /// record however often it is read, the lookup's own answers are
    /// well formed, and any block that can become the parent leaves room
    /// for a child's height.
    pub open spec fn wf(self) -> bool {
        &&& self.lookup.wf()
        &&& self.parent_tenure_start == self.lookup.parent_tenure_header
        &&& match self.tenure_tip {
            DbQuery::Found(h) => h.stacks_block_height < u64::MAX,
            _ => true,
        }
        &&& match self.parent_tenure_highest {
            DbQuery::Found(h) => h.stacks_block_height < u64::MAX,
            _ => true,
        }
        &&& match self.parent_tenure_start {
            Some(h) => h.stacks_block_height < u64::MAX,
            None => true,
        }
    }
}

/// What loading the reward set for the election's cycle came to.
#[derive(Clone, Debug, PartialEq, Eq)]
pub enum RewardSetLoadOutcome {
    /// A store the load needs could not be opened.
    StateOpenFailed,
    /// The cycle is known; it selected the carried reward set, or none.
    Loaded { selected: Option<RewardSet> },
    /// No reward set is stored for the cycle yet.
    NoneStored,
    /// Reading the reward set failed.
    LoadFailed,
}

/// What the block builder made of the mempool.
#[derive(Clone, Debug, PartialEq, Eq)]
pub enum BuilderOutcome {
    /// Assembly succeeded; these mempool transactions were selected, in
    /// order.
    Built { mempool_txs: Vec<StacksTransaction> },
    /// The miner was interrupted while assembling.
    Aborted,
    /// The mempool offered nothing to mine.
    NoTransactions,
    /// Any other assembly failure.
    Failed,
}

impl BuilderOutcome {
    /// The builder takes tenure changes and coinbases only from the
    /// tenure-start record, never from the mempool.
    pub open spec fn wf(self) -> bool {
        match self {
            BuilderOutcome::Built { mempool_txs } => forall|i: int|
                0 <= i < mempool_txs@.len() ==> (#[trigger] mempool_txs@[i]).payload is Mempool,
            _ => true,
        }
    }
}

/// Everything one block-assembly step reads from its collaborators.
#[derive(Clone, Debug, PartialEq, Eq)]
pub struct MineBlockInput {
    /// What loading the reward set answered; read only while the cache
    /// is empty.
    pub reward_set_load: RewardSetLoadOutcome,
    /// The canonical burnchain tip when assembly starts.
    pub burn_tip_at_start: BlockSnapshot,
    /// The epoch of the block after the burn tip; absent when the read
    /// failed.
    pub target_epoch: Option<StacksEpochId>,
    /// The parent-resolution answers.
    pub parent: ParentInfoQueries,
    /// The length of the tenure being extended, counted at the parent
    /// block; read only under an extension, absent when the read failed.
    pub tenure_length_so_far: Option<u32>,
    /// The clock, in epoch seconds.
    pub now_secs: u64,
    /// What the block builder made of the mempool.
    pub builder: BuilderOutcome,
    /// The index hash the chain will know the new block under.
    pub assigned_block_id: StacksBlockId,
    /// The canonical burnchain tip when assembly ends.
    pub burn_tip_at_end: BlockSnapshot,
}

impl MineBlockInput {
    pub open spec fn wf(self) -> bool {
        &&& self.parent.wf()
        &&& self.builder.wf()
    }
}

/// Everything one signature-gathering step reads.
#[derive(Debug, PartialEq, Eq)]
pub struct SigningInput {
    /// Whether the sortition store opened.
    pub sort_db_open_ok: bool,
    /// What loading the reward set answered; read only while the cache
    /// is empty.
    pub reward_set_load: RewardSetLoadOutcome,
    /// Whether the coordinator could be constructed and its chain state
    /// opened.
    pub coordinator_setup_ok: bool,
    /// What driving the signer quorum came to: the threshold signatures,
    /// or the error the coordinator surfaced.
    pub run_sign: Result<Vec<MessageSignature>, NakamotoNodeError>,
}

/// Everything one persist-and-push step reads.
#[derive(Clone, Copy, Debug, PartialEq, Eq)]
pub struct BroadcastInput {
    /// Whether the test knob suppressing the whole persist-and-push path
    /// is set.
    pub skip_broadcast_knob: bool,
    /// Whether the sortition index handle and the staging transaction
    /// opened.
    pub staging_ok: bool,
    /// What `accept_block` answered: whether the block was newly stored;
    /// absent when the call itself failed.
    pub accept: Option<bool>,
    /// Whether the push to the signer-message store went through.
    pub stackerdb_push_ok: bool,
}

/// One inner mining attempt: the preflight answers a mock miner reads,
/// the assembly answers, and the header the after-build timestamp check
/// reads.
#[derive(Clone, Debug, PartialEq, Eq)]
pub struct AttemptInput {
    /// The canonical burnchain tip the mock preflight reads.
    pub preflight_burn_tip: BlockSnapshot,
    /// The parent-resolution answers the mock preflight reads.
    pub preflight_parent: ParentInfoQueries,
    /// The assembly answers.
    pub mine: MineBlockInput,
    /// The stored header of the built block's parent, for the
    /// after-build timestamp check; absent when missing.
    pub timestamp_parent: Option<StacksHeaderInfo>,
}

impl AttemptInput {
    pub open spec fn wf(self) -> bool {
        &&& self.preflight_parent.wf()
        &&& self.mine.wf()
    }
}

/// Everything one turn of the outer loop reads.
#[derive(Debug, PartialEq, Eq)]
pub struct IterationInput {
    /// The inner mining attempts, in order; the turn ends early when
    /// they run out.
    pub attempts: Vec<AttemptInput>,
    /// The signature-gathering answers.
    pub signing: SigningInput,
    /// The persist-and-push answers.
    pub broadcast: BroadcastInput,
    /// Whether the sortition store reopened for the interim wait.
    pub sort_db_reopen_ok: bool,
    /// The burnchain tips observed at each poll of the interim wait, in
    /// order.
    pub interim_polls: Vec<BlockSnapshot>,
}

impl IterationInput {
    pub open spec fn wf(self) -> bool {
        forall|i: int| 0 <= i < self.attempts@.len() ==> (#[trigger] self.attempts@[i]).wf()
    }
}

/// The prior worker a new one must stop first. `join_outcome` carries the
/// prior thread's own result; absent means joining it failed.
#[derive(Clone, Copy, Debug, PartialEq, Eq)]
pub struct PriorMiner {
    pub join_outcome: Option<Result<(), NakamotoNodeError>>,
}

/// Everything one whole run reads.
#[derive(Debug, PartialEq, Eq)]
pub struct RunInput {
    /// Whether the signer-message store connected at start.
    pub stackerdbs_ok: bool,
    /// The outer-loop turns, in order; the run ends when they run out.
    pub iterations: Vec<IterationInput>,
}

impl RunInput {
    pub open spec fn wf(self) -> bool {
        forall|i: int| 0 <= i < self.iterations@.len() ==> (#[trigger] self.iterations@[i]).wf()
    }
}

} // verus!
