//! The tenure worker: its state, its directives, and the small checks
//! and constructors the mining loop is built from.

use vstd::prelude::*;
use crate::types::{
    BlockSnapshot, Config, ConsensusHash, Keychain, MessageSignature, PrincipalData, RegisteredKey,
    RewardSet, StacksAddress, StacksBlockId, StacksEpochId, StacksHeaderInfo, VRFProof, EPOCH_2_1,
    VRF_MOCK_MINER_KEY,
};
use crate::tx::{
    StacksTransaction, TenureChangePayload, TransactionAnchorMode, TransactionPayload,
    TransactionVersion,
};
use crate::block::{timestamp_gap_ok, BlockModel, NakamotoBlock};
use crate::errors::NakamotoNodeError;
use crate::globals::{sat_inc, Counters, Globals};

verus! {

/// How long the loop sleeps before trying again after an interruption,
/// in milliseconds.
pub const ABORT_TRY_AGAIN_MS: u64 = 200;

/// What the relayer asks of the miner.
#[derive(Clone, Copy, Debug, PartialEq, Eq, Structural)]
pub enum MinerDirective {
    /// The miner won sortition, so it should begin a new tenure.
    BeginTenure { parent_tenure_start: StacksBlockId, burnchain_tip: BlockSnapshot },
    /// The miner should continue its tenure if it is the active miner.
    ContinueTenure { new_burn_view: ConsensusHash },
    /// The miner did not win sortition.
    StopTenure,
}

/// The reason a tenure worker was spawned.
#[derive(Clone, Copy, Debug, PartialEq, Eq, Structural)]
pub enum MinerReason {
    /// The worker begins a new tenure.
    BlockFound,
    /// The worker extends an existing tenure into the burn view last
    /// seen on the burnchain.
    Extended { burn_view_consensus_hash: ConsensusHash },
}

/// One tenure worker. It lives for a single tenure or extension: spawned
/// on a directive, it loops assembling, signing and broadcasting blocks
/// until the environment moves or the relayer stops it.
#[derive(Debug, PartialEq, Eq)]
pub struct BlockMinerThread {
    /// Configuration snapshot.
    pub config: Config,
    /// Handle to global state.
    pub globals: Globals,
    /// Copy of the node's keychain.
    pub keychain: Keychain,
    /// Last block mined and broadcast by this worker, if any.
    pub last_block_mined: Option<NakamotoBlock>,
    /// Copy of the node's registered VRF key.
    pub registered_key: RegisteredKey,
    /// Burnchain snapshot which elected this miner.
    pub burn_election_block: BlockSnapshot,
    /// The burnchain tip this worker believes in.
    pub burn_block: BlockSnapshot,
    /// The start of the parent tenure for this tenure.
    pub parent_tenure_id: StacksBlockId,
    /// Why this worker was spawned.
    pub reason: MinerReason,
    /// The reward set active at the election, once loaded.
    pub signer_set_cache: Option<RewardSet>,
}

/// The mathematical value of a worker: the same fields, with the mined
/// block and the cached reward set as their mathematical values. The
/// transition spec functions the contracts refer to all step over this
/// model.
pub struct WorkerModel {
    pub config: Config,
    pub globals: Globals,
    pub keychain: Keychain,
    pub last_block_mined: Option<BlockModel>,
    pub registered_key: RegisteredKey,
    pub burn_election_block: BlockSnapshot,
    pub burn_block: BlockSnapshot,
    pub parent_tenure_id: StacksBlockId,
    pub reason: MinerReason,
    pub signer_set_cache: Option<Seq<StacksAddress>>,
}

impl View for BlockMinerThread {
    type V = WorkerModel;

    open spec fn view(&self) -> WorkerModel {
        WorkerModel {
            config: self.config,
            globals: self.globals,
            keychain: self.keychain,
            last_block_mined: match self.last_block_mined {
                Option::Some(b) => Some(b@),
                Option::None => None,
            },
            registered_key: self.registered_key,
            burn_election_block: self.burn_election_block,
            burn_block: self.burn_block,
            parent_tenure_id: self.parent_tenure_id,
            reason: self.reason,
            signer_set_cache: match self.signer_set_cache {
                Option::Some(rs) => Some(rs@),
                Option::None => None,
            },
        }
    }
}

/// The worker after counting one more missed tenure.
pub open spec fn bump_missed_spec(s: WorkerModel) -> WorkerModel {
    WorkerModel {
        globals: Globals {
            counters: Counters {
                missed_tenures: sat_inc(s.globals.counters.missed_tenures),
                ..s.globals.counters
            },
            ..s.globals
        },
        ..s
    }
}

/// What checking the burnchain tip does: a tip under the believed
/// consensus hash passes; any other tip counts a missed tenure and stops
/// mining here.
pub open spec fn check_tip_spec(s: WorkerModel, cur_tip: BlockSnapshot) -> (
    WorkerModel,
    Result<(), NakamotoNodeError>,
) {
    if cur_tip.consensus_hash == s.burn_block.consensus_hash {
        (s, Ok(()))
    } else {
        (bump_missed_spec(s), Err(NakamotoNodeError::BurnchainTipChanged))
    }
}

/// A transaction as this worker signs it: stamped with the configured
/// chain and version, anchored on chain, on the given nonce.
pub open spec fn signed_tx_spec(
    config: Config,
    keychain: Keychain,
    nonce: u64,
    payload: TransactionPayload,
) -> StacksTransaction {
    StacksTransaction {
        version: if config.mainnet {
            TransactionVersion::Mainnet
        } else {
            TransactionVersion::Testnet
        },
        chain_id: config.chain_id,
        anchor_mode: TransactionAnchorMode::OnChainOnly,
        origin_nonce: nonce,
        origin_signature: MessageSignature(keychain.key_id),
        payload,
    }
}

/// The coinbase recipient the configuration names, honored only from
/// epoch 2.1 on.
pub open spec fn coinbase_recipient_spec(config: Config, epoch_id: StacksEpochId) -> Option<
    PrincipalData,
> {
    if epoch_id.0 < EPOCH_2_1 {
        None
    } else {
        config.miner.block_reward_recipient
    }
}

/// The eligibility proof this worker produces: under the mock key slot
/// when mock-mining, else under the registered key's target height,
/// always over the believed tip's sortition hash.
pub open spec fn vrf_proof_spec(
    config: Config,
    registered_key: RegisteredKey,
    burn_block: BlockSnapshot,
) -> VRFProof {
    VRFProof {
        key_target_height: if config.node.mock_mining {
            VRF_MOCK_MINER_KEY
        } else {
            registered_key.target_block_height
        },
        sortition_hash: burn_block.sortition_hash,
    }
}

impl BlockMinerThread {
    /// Instantiate a tenure worker. It starts with no block mined and an
    /// empty reward-set cache.
    pub fn new(
        config: Config,
        globals: Globals,
        keychain: Keychain,
        registered_key: RegisteredKey,
        burn_election_block: BlockSnapshot,
        burn_block: BlockSnapshot,
        parent_tenure_id: StacksBlockId,
        reason: MinerReason,
    ) -> (r: BlockMinerThread)
        ensures
            r == (BlockMinerThread {
                config,
                globals,
                keychain,
                last_block_mined: None::<NakamotoBlock>,
                registered_key,
                burn_election_block,
                burn_block,
                parent_tenure_id,
                reason,
                signer_set_cache: None::<RewardSet>,
            }),
    {
        BlockMinerThread {
            config,
            globals,
            keychain,
            last_block_mined: None,
            registered_key,
            burn_election_block,
            burn_block,
            parent_tenure_id,
            reason,
            signer_set_cache: None,
        }
    }

    /// Check whether the tenure needs to change: a canonical burnchain
    /// tip under a different consensus hash than the worker's believed
    /// tip means a new sortition happened, so mining here must stop. A
    /// detected change counts one missed tenure.
    pub fn check_burn_tip_changed(&mut self, cur_burn_chain_tip: &BlockSnapshot) -> (r: Result<
        (),
        NakamotoNodeError,
    >)
        ensures
            ({
                let (s_post, res) = check_tip_spec(old(self)@, *cur_burn_chain_tip);
                &&& final(self)@ == s_post
                &&& r == res
            }),
    {
        if cur_burn_chain_tip.consensus_hash != self.burn_block.consensus_hash {
            self.globals.counters.bump_missed_tenures();
            Err(NakamotoNodeError::BurnchainTipChanged)
        } else {
            Ok(())
        }
    }

    /// Generate the eligibility proof for the block about to be built.
    pub fn make_vrf_proof(&self) -> (r: Option<VRFProof>)
        ensures
            r == Some(vrf_proof_spec(self.config, self.registered_key, self.burn_block)),
    {
        let vrf_proof = if self.config.node.mock_mining {
            self.keychain.generate_proof(VRF_MOCK_MINER_KEY, self.burn_block.sortition_hash)
        } else {
            self.keychain.generate_proof(
                self.registered_key.target_block_height,
                self.burn_block.sortition_hash,
            )
        };
        Some(vrf_proof)
    }

    /// Whether a block stamped at `current_timestamp_secs` keeps the
    /// configured minimum distance from its parent's timestamp.
    pub fn validate_timestamp_info(
        &self,
        current_timestamp_secs: u64,
        stacks_parent_header: &StacksHeaderInfo,
    ) -> (r: bool)
        ensures
            r == timestamp_gap_ok(
                current_timestamp_secs,
                stacks_parent_header.spec_parent_timestamp(),
                self.config.miner.min_time_between_blocks_ms,
            ),
    {
        let parent_timestamp = stacks_parent_header.parent_timestamp();
        let time_since_parent_ms: u128 = (current_timestamp_secs.saturating_sub(parent_timestamp)
            as u128) * 1000;
        time_since_parent_ms >= self.config.miner.min_time_between_blocks_ms as u128
    }

    /// Check that a built block is not stamped too quickly after its
    /// parent, whose stored header is handed in; a missing header means
    /// the parent vanished from the chain state.
    pub fn validate_timestamp(
        &self,
        x: &NakamotoBlock,
        parent_header: &Option<StacksHeaderInfo>,
    ) -> (r: Result<bool, NakamotoNodeError>)
        ensures
            r == match *parent_header {
                Option::None => Err::<bool, _>(NakamotoNodeError::ParentNotFound),
                Option::Some(h) => Ok::<_, NakamotoNodeError>(
                    timestamp_gap_ok(
                        x.header.timestamp,
                        h.spec_parent_timestamp(),
                        self.config.miner.min_time_between_blocks_ms,
                    ),
                ),
            },
    {
        match parent_header {
            Option::None => Err(NakamotoNodeError::ParentNotFound),
            Option::Some(h) => Ok(self.validate_timestamp_info(x.header.timestamp, h)),
        }
    }

    /// The coinbase recipient, if configured and allowed in this epoch.
    pub fn get_coinbase_recipient(&self, epoch_id: StacksEpochId) -> (r: Option<PrincipalData>)
        ensures
            r == coinbase_recipient_spec(self.config, epoch_id),
    {
        if !epoch_id.at_least_2_1() && self.config.miner.block_reward_recipient.is_some() {
            None
        } else {
            self.config.miner.block_reward_recipient
        }
    }

    /// Wrap a tenure-change payload in a signed transaction on the given
    /// nonce.
    pub fn generate_tenure_change_tx(&self, nonce: u64, payload: TenureChangePayload) -> (r: Result<
        StacksTransaction,
        NakamotoNodeError,
    >)
        ensures
            r == Ok::<_, NakamotoNodeError>(
                signed_tx_spec(
                    self.config,
                    self.keychain,
                    nonce,
                    TransactionPayload::TenureChange(payload),
                ),
            ),
    {
        let version = if self.config.mainnet {
            TransactionVersion::Mainnet
        } else {
            TransactionVersion::Testnet
        };
        let origin_signature = self.keychain.sign_as_origin();
        Ok(
            StacksTransaction {
                version,
                chain_id: self.config.chain_id,
                anchor_mode: TransactionAnchorMode::OnChainOnly,
                origin_nonce: nonce,
                origin_signature,
                payload: TransactionPayload::TenureChange(payload),
            },
        )
    }

    /// Create a signed coinbase transaction carrying the eligibility
    /// proof and the recipient this epoch allows.
    pub fn generate_coinbase_tx(
        &self,
        nonce: u64,
        epoch_id: StacksEpochId,
        vrf_proof: VRFProof,
    ) -> (r: StacksTransaction)
        ensures
            r == signed_tx_spec(
                self.config,
                self.keychain,
                nonce,
                TransactionPayload::Coinbase {
                    recipient: coinbase_recipient_spec(self.config, epoch_id),
                    vrf_proof,
                },
            ),
    {
        let version = if self.config.mainnet {
            TransactionVersion::Mainnet
        } else {
            TransactionVersion::Testnet
        };
        let recipient_opt = self.get_coinbase_recipient(epoch_id);
        let origin_signature = self.keychain.sign_as_origin();
        StacksTransaction {
            version,
            chain_id: self.config.chain_id,
            anchor_mode: TransactionAnchorMode::OnChainOnly,
            origin_nonce: nonce,
            origin_signature,
            payload: TransactionPayload::Coinbase { recipient: recipient_opt, vrf_proof },
        }
    }
}

} // verus!
