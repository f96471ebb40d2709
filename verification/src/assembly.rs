//! Resolving the parent and assembling the candidate block.

use vstd::prelude::*;
use crate::types::{MessageSignature, StacksEpochId, StacksHeaderInfo, VRFProof};
use crate::tx::{
    NakamotoTenureInfo, StacksTransaction, TenureChangeCause, TenureChangePayload,
    TransactionPayload,
};
use crate::block::{timestamp_gap_ok, BlockModel, HeaderModel, NakamotoBlock, NakamotoBlockHeader};
use crate::errors::{ChainstateError, NakamotoNodeError};
use crate::env::{BuilderOutcome, DbQuery, MineBlockInput, ParentInfoQueries};
use crate::parent::{lookup_spec, ParentStacksBlockInfo, ParentTenureInfo};
use crate::miner::{
    bump_missed_spec, check_tip_spec, coinbase_recipient_spec, signed_tx_spec, vrf_proof_spec,
    BlockMinerThread, MinerReason, WorkerModel,
};
use crate::signing::load_signer_set_spec;

verus! {

/// Which stored header the next block builds on: the highest block of
/// the worker's elected tenure when that tenure already holds one on the
/// canonical fork; else the highest block of the parent tenure; else the
/// parent-tenure block itself, taken as a pre-Nakamoto block.
pub open spec fn choose_parent_header_spec(q: ParentInfoQueries) -> Result<
    StacksHeaderInfo,
    NakamotoNodeError,
> {
    if q.stacks_tip is None {
        Err(NakamotoNodeError::ParentNotFound)
    } else {
        match q.tenure_tip {
            DbQuery::Found(h) => Ok(h),
            DbQuery::Failed => Err(NakamotoNodeError::ParentNotFound),
            DbQuery::Absent => match q.parent_tenure_start {
                Option::None => Err(NakamotoNodeError::ParentNotFound),
                Option::Some(pth) => match q.parent_tenure_highest {
                    DbQuery::Found(h) => Ok(h),
                    DbQuery::Failed => Err(NakamotoNodeError::ParentNotFound),
                    DbQuery::Absent => Ok(pth),
                },
            },
        }
    }
}

/// What resolving the parent does to the worker: the parent is chosen,
/// then held against the current burnchain tip and the parent tenure; a
/// tip that moved counts one missed tenure.
pub open spec fn load_block_parent_info_spec(s: WorkerModel, q: ParentInfoQueries) -> (
    WorkerModel,
    Result<ParentStacksBlockInfo, NakamotoNodeError>,
) {
    match choose_parent_header_spec(q) {
        Result::Err(e) => (s, Err(e)),
        Result::Ok(tip_hdr) => {
            let looked = lookup_spec(q.lookup, s.burn_block, tip_hdr);
            if looked == Err::<ParentStacksBlockInfo, _>(NakamotoNodeError::BurnchainTipChanged) {
                (bump_missed_spec(s), looked)
            } else {
                (s, looked)
            }
        },
    }
}

/// The tenure-change payload that opens a new tenure on this worker's
/// election: the parent tenure ends at the chosen parent block.
pub open spec fn block_found_payload_spec(
    s: WorkerModel,
    parent_info: ParentStacksBlockInfo,
    pt: ParentTenureInfo,
) -> TenureChangePayload {
    TenureChangePayload {
        tenure_consensus_hash: s.burn_election_block.consensus_hash,
        prev_tenure_consensus_hash: pt.parent_tenure_consensus_hash,
        burn_view_consensus_hash: s.burn_election_block.consensus_hash,
        previous_tenure_end: parent_info.stacks_parent_header.index_block_hash,
        previous_tenure_blocks: pt.parent_tenure_blocks as u32,
        cause: TenureChangeCause::BlockFound,
        pubkey_hash: s.keychain.nakamoto_pkh,
    }
}

/// Which transactions open the next block: none at all when the chosen
/// parent does not close the parent tenure, or when this worker already
/// mined a block; a tenure change and a coinbase for a fresh tenure; a
/// tenure change alone, recording the extended tenure's length so far,
/// for an extension.
pub open spec fn tenure_start_info_spec(
    s: WorkerModel,
    parent_info: ParentStacksBlockInfo,
    vrf_proof: VRFProof,
    target_epoch_id: StacksEpochId,
    tenure_length_so_far: Option<u32>,
) -> Result<NakamotoTenureInfo, NakamotoNodeError> {
    match parent_info.parent_tenure {
        Option::None => Ok(
            NakamotoTenureInfo {
                coinbase_tx: None::<StacksTransaction>,
                tenure_change_tx: None::<StacksTransaction>,
            },
        ),
        Option::Some(pt) => {
            if s.last_block_mined is Some {
                Ok(
                    NakamotoTenureInfo {
                        coinbase_tx: None::<StacksTransaction>,
                        tenure_change_tx: None::<StacksTransaction>,
                    },
                )
            } else {
                let payload = block_found_payload_spec(s, parent_info, pt);
                match s.reason {
                    MinerReason::BlockFound => Ok(
                        NakamotoTenureInfo {
                            coinbase_tx: Some(
                                signed_tx_spec(
                                    s.config,
                                    s.keychain,
                                    (parent_info.coinbase_nonce + 1) as u64,
                                    TransactionPayload::Coinbase {
                                        recipient: coinbase_recipient_spec(
                                            s.config,
                                            target_epoch_id,
                                        ),
                                        vrf_proof,
                                    },
                                ),
                            ),
                            tenure_change_tx: Some(
                                signed_tx_spec(
                                    s.config,
                                    s.keychain,
                                    parent_info.coinbase_nonce,
                                    TransactionPayload::TenureChange(payload),
                                ),
                            ),
                        },
                    ),
                    MinerReason::Extended { burn_view_consensus_hash } => match
                        tenure_length_so_far {
                        Option::None => Err(
                            NakamotoNodeError::MiningFailure(ChainstateError::DbError),
                        ),
                        Option::Some(n) => Ok(
                            NakamotoTenureInfo {
                                coinbase_tx: None::<StacksTransaction>,
                                tenure_change_tx: Some(
                                    signed_tx_spec(
                                        s.config,
                                        s.keychain,
                                        parent_info.coinbase_nonce,
                                        TransactionPayload::TenureChange(
                                            TenureChangePayload {
                                                prev_tenure_consensus_hash:
                                                    payload.tenure_consensus_hash,
                                                burn_view_consensus_hash,
                                                previous_tenure_blocks: n,
                                                cause: TenureChangeCause::Extended,
                                                ..payload
                                            },
                                        ),
                                    ),
                                ),
                            },
                        ),
                    },
                }
            }
        },
    }
}

/// The signer bitvector's length: the reward set's size where it fits.
pub open spec fn bitvec_len_spec(rs_len: nat) -> u32 {
    if rs_len <= u32::MAX {
        rs_len as u32
    } else {
        0
    }
}

/// The tenure-opening transactions, in block order: the tenure change
/// first, then the coinbase.
pub open spec fn tenure_txs_seq(tsi: NakamotoTenureInfo) -> Seq<StacksTransaction> {
    (match tsi.tenure_change_tx {
        Option::Some(t) => seq![t],
        Option::None => Seq::<StacksTransaction>::empty(),
    }) + (match tsi.coinbase_tx {
        Option::Some(t) => seq![t],
        Option::None => Seq::<StacksTransaction>::empty(),
    })
}

/// The block this worker assembles on a chosen parent: one link higher,
/// in the elected tenure, stamped with the clock, miner-signed, with the
/// tenure-opening transactions ahead of the mempool's.
pub open spec fn assembled_block_spec(
    s: WorkerModel,
    input: MineBlockInput,
    parent_hdr: StacksHeaderInfo,
    tsi: NakamotoTenureInfo,
    rs_len: nat,
    mempool: Seq<StacksTransaction>,
) -> BlockModel {
    BlockModel {
        header: HeaderModel {
            chain_length: (parent_hdr.stacks_block_height + 1) as u64,
            consensus_hash: s.burn_election_block.consensus_hash,
            parent_block_id: parent_hdr.index_block_hash,
            timestamp: input.now_secs,
            miner_signature: MessageSignature(s.keychain.key_id),
            signer_signature: Seq::<MessageSignature>::empty(),
            signer_bitvec_len: bitvec_len_spec(rs_len),
            block_id: input.assigned_block_id,
        },
        txs: tenure_txs_seq(tsi) + mempool,
    }
}

/// What one block-assembly step does, answer by answer: the signer set
/// is loaded, the burnchain tip is checked, the parent resolved, the
/// tenure-opening transactions decided, the timestamp gap enforced, the
/// builder's selection appended, and the tip checked once more before
/// the block is handed out.
#[verifier::opaque]
pub open spec fn mine_block_spec(s: WorkerModel, input: MineBlockInput) -> (
    WorkerModel,
    Result<BlockModel, NakamotoNodeError>,
) {
    let (s1, rsr) = load_signer_set_spec(s, input.reward_set_load);
    match rsr {
        Result::Err(e) => (s1, Err(e)),
        Result::Ok(rs) => {
            let (s2, chk1) = check_tip_spec(s1, input.burn_tip_at_start);
            match chk1 {
                Result::Err(e) => (s2, Err(e)),
                Result::Ok(_) => match input.target_epoch {
                    Option::None => (s2, Err(NakamotoNodeError::SnapshotNotFoundForChainTip)),
                    Option::Some(epoch) => {
                        let (s3, pir) = load_block_parent_info_spec(s2, input.parent);
                        match pir {
                            Result::Err(e) => (s3, Err(e)),
                            Result::Ok(pi) => {
                                let vrf = vrf_proof_spec(s3.config, s3.registered_key, s3.burn_block);
                                if s3.last_block_mined is None && pi.parent_tenure is None {
                                    (s3, Err(NakamotoNodeError::ParentNotFound))
                                } else {
                                    match tenure_start_info_spec(
                                        s3,
                                        pi,
                                        vrf,
                                        epoch,
                                        input.tenure_length_so_far,
                                    ) {
                                        Result::Err(e) => (s3, Err(e)),
                                        Result::Ok(tsi) => {
                                            if !timestamp_gap_ok(
                                                input.now_secs,
                                                pi.stacks_parent_header.spec_parent_timestamp(),
                                                s3.config.miner.min_time_between_blocks_ms,
                                            ) {
                                                (
                                                    s3,
                                                    Err(
                                                        NakamotoNodeError::MiningFailure(
                                                            ChainstateError::MinerAborted,
                                                        ),
                                                    ),
                                                )
                                            } else {
                                                match input.builder {
                                                    BuilderOutcome::Aborted => (
                                                        s3,
                                                        Err(
                                                            NakamotoNodeError::MiningFailure(
                                                                ChainstateError::MinerAborted,
                                                            ),
                                                        ),
                                                    ),
                                                    BuilderOutcome::NoTransactions => (
                                                        s3,
                                                        Err(
                                                            NakamotoNodeError::MiningFailure(
                                                                ChainstateError::NoTransactionsToMine,
                                                            ),
                                                        ),
                                                    ),
                                                    BuilderOutcome::Failed => (
                                                        s3,
                                                        Err(
                                                            NakamotoNodeError::MiningFailure(
                                                                ChainstateError::DbError,
                                                            ),
                                                        ),
                                                    ),
                                                    BuilderOutcome::Built { mempool_txs } => {
                                                        let b = assembled_block_spec(
                                                            s3,
                                                            input,
                                                            pi.stacks_parent_header,
                                                            tsi,
                                                            rs.len(),
                                                            mempool_txs@,
                                                        );
                                                        if b.txs.len() == 0 {
                                                            (
                                                                s3,
                                                                Err(
                                                                    NakamotoNodeError::MiningFailure(
                                                                        ChainstateError::NoTransactionsToMine,
                                                                    ),
                                                                ),
                                                            )
                                                        } else {
                                                            let (s4, chk2) = check_tip_spec(
                                                                s3,
                                                                input.burn_tip_at_end,
                                                            );
                                                            match chk2 {
                                                                Result::Err(e) => (s4, Err(e)),
                                                                Result::Ok(_) => (s4, Ok(b)),
                                                            }
                                                        }
                                                    },
                                                }
                                            }
                                        },
                                    }
                                }
                            },
                        }
                    },
                },
            }
        },
    }
}

impl BlockMinerThread {
    /// Load up the parent block info for mining: choose the header to
    /// build on and resolve it against the burnchain tip and the parent
    /// tenure. A parent the store cannot produce is `ParentNotFound`.
    pub fn load_block_parent_info(&mut self, q: &ParentInfoQueries) -> (r: Result<
        ParentStacksBlockInfo,
        NakamotoNodeError,
    >)
        requires
            q.wf(),
        ensures
            ({
                let (s_post, res) = load_block_parent_info_spec(old(self)@, *q);
                &&& final(self)@ == s_post
                &&& r == res
            }),
    {
        if q.stacks_tip.is_none() {
            return Err(NakamotoNodeError::ParentNotFound);
        }
        let stacks_tip_header: StacksHeaderInfo = match q.tenure_tip {
            DbQuery::Found(h) => h,
            DbQuery::Failed => {
                return Err(NakamotoNodeError::ParentNotFound);
            },
            DbQuery::Absent => match q.parent_tenure_start {
                Option::None => {
                    return Err(NakamotoNodeError::ParentNotFound);
                },
                Option::Some(pth) => match q.parent_tenure_highest {
                    DbQuery::Found(h) => h,
                    DbQuery::Failed => {
                        return Err(NakamotoNodeError::ParentNotFound);
                    },
                    DbQuery::Absent => pth,
                },
            },
        };
        match ParentStacksBlockInfo::lookup(&q.lookup, &self.burn_block, stacks_tip_header) {
            Result::Ok(parent_info) => Ok(parent_info),
            Result::Err(NakamotoNodeError::BurnchainTipChanged) => {
                self.globals.counters.bump_missed_tenures();
                Err(NakamotoNodeError::BurnchainTipChanged)
            },
            Result::Err(e) => Err(e),
        }
    }

    /// Create the tenure-start record for the block about to be built.
    /// `tenure_length_so_far` carries what the chain state answered for
    /// the extended tenure's length; it is read only under an extension.
    pub fn make_tenure_start_info(
        &self,
        parent_block_info: &ParentStacksBlockInfo,
        vrf_proof: VRFProof,
        target_epoch_id: StacksEpochId,
        tenure_length_so_far: &Option<u32>,
    ) -> (r: Result<NakamotoTenureInfo, NakamotoNodeError>)
        requires
            parent_block_info.parent_tenure matches Some(pt) ==> pt.parent_tenure_blocks
                <= u32::MAX,
            parent_block_info.parent_tenure is Some && self.last_block_mined is None
                ==> parent_block_info.coinbase_nonce < u64::MAX,
        ensures
            r == tenure_start_info_spec(
                self@,
                *parent_block_info,
                vrf_proof,
                target_epoch_id,
                *tenure_length_so_far,
            ),
    {
        let current_miner_nonce = parent_block_info.coinbase_nonce;
        let parent_tenure_info = match &parent_block_info.parent_tenure {
            Option::None => {
                return Ok(NakamotoTenureInfo { coinbase_tx: None, tenure_change_tx: None });
            },
            Option::Some(pt) => pt,
        };
        if self.last_block_mined.is_some() {
            return Ok(NakamotoTenureInfo { coinbase_tx: None, tenure_change_tx: None });
        }

        let parent_block_id = parent_block_info.stacks_parent_header.index_block_hash;
        let payload = TenureChangePayload {
            tenure_consensus_hash: self.burn_election_block.consensus_hash,
            prev_tenure_consensus_hash: parent_tenure_info.parent_tenure_consensus_hash,
            burn_view_consensus_hash: self.burn_election_block.consensus_hash,
            previous_tenure_end: parent_block_id,
            previous_tenure_blocks: parent_tenure_info.parent_tenure_blocks as u32,
            cause: TenureChangeCause::BlockFound,
            pubkey_hash: self.keychain.get_nakamoto_pkh(),
        };

        match &self.reason {
            MinerReason::BlockFound => {
                let tenure_change_tx = self.generate_tenure_change_tx(current_miner_nonce, payload)?;
                let coinbase_tx = self.generate_coinbase_tx(
                    current_miner_nonce + 1,
                    target_epoch_id,
                    vrf_proof,
                );
                Ok(
                    NakamotoTenureInfo {
                        coinbase_tx: Some(coinbase_tx),
                        tenure_change_tx: Some(tenure_change_tx),
                    },
                )
            },
            MinerReason::Extended { burn_view_consensus_hash } => {
                let num_blocks_so_far = match tenure_length_so_far {
                    Option::None => {
                        return Err(NakamotoNodeError::MiningFailure(ChainstateError::DbError));
                    },
                    Option::Some(n) => *n,
                };
                let extended_payload = payload.extend(
                    *burn_view_consensus_hash,
                    parent_block_id,
                    num_blocks_so_far,
                );
                let tenure_change_tx = self.generate_tenure_change_tx(
                    current_miner_nonce,
                    extended_payload,
                )?;
                Ok(NakamotoTenureInfo { coinbase_tx: None, tenure_change_tx: Some(tenure_change_tx) })
            },
        }
    }

    /// Try to assemble a block on top of the resolved parent. On success
    /// the block links to that parent, keeps the configured distance from
    /// its timestamp, and opens the tenure exactly when this worker has
    /// not yet mined one.
    pub fn mine_block(&mut self, input: &MineBlockInput) -> (r: Result<
        NakamotoBlock,
        NakamotoNodeError,
    >)
        requires
            input.wf(),
        ensures
            ({
                let (s_post, res) = mine_block_spec(old(self)@, *input);
                &&& final(self)@ == s_post
                &&& match (r, res) {
                    (Ok(b), Ok(m)) => b@ == m,
                    (Err(e), Err(e2)) => e == e2,
                    _ => false,
                }
            }),
    {
        proof {
            reveal(mine_block_spec);
        }
        let reward_set = self.load_signer_set(&input.reward_set_load)?;
        self.check_burn_tip_changed(&input.burn_tip_at_start)?;
        let target_epoch_id = match input.target_epoch {
            Option::None => {
                return Err(NakamotoNodeError::SnapshotNotFoundForChainTip);
            },
            Option::Some(ep) => ep,
        };
        let parent_block_info = self.load_block_parent_info(&input.parent)?;
        let vrf_proof = match self.make_vrf_proof() {
            Option::None => {
                return Err(NakamotoNodeError::BadVrfConstruction);
            },
            Option::Some(p) => p,
        };
        if self.last_block_mined.is_none() && parent_block_info.parent_tenure.is_none() {
            return Err(NakamotoNodeError::ParentNotFound);
        }
        let tenure_start_info = self.make_tenure_start_info(
            &parent_block_info,
            vrf_proof,
            target_epoch_id,
            &input.tenure_length_so_far,
        )?;

        let signer_bitvec_len: u32 = if reward_set.rewarded_addresses.len() <= u32::MAX as usize {
            reward_set.rewarded_addresses.len() as u32
        } else {
            0
        };

        if !self.validate_timestamp_info(input.now_secs, &parent_block_info.stacks_parent_header) {
            return Err(NakamotoNodeError::MiningFailure(ChainstateError::MinerAborted));
        }

        let mempool_txs: &Vec<StacksTransaction> = match &input.builder {
            BuilderOutcome::Aborted => {
                return Err(NakamotoNodeError::MiningFailure(ChainstateError::MinerAborted));
            },
            BuilderOutcome::NoTransactions => {
                return Err(NakamotoNodeError::MiningFailure(ChainstateError::NoTransactionsToMine));
            },
            BuilderOutcome::Failed => {
                return Err(NakamotoNodeError::MiningFailure(ChainstateError::DbError));
            },
            BuilderOutcome::Built { mempool_txs } => mempool_txs,
        };

        let mut txs: Vec<StacksTransaction> = Vec::new();
        if let Some(tc) = tenure_start_info.tenure_change_tx {
            txs.push(tc);
        }
        if let Some(cb) = tenure_start_info.coinbase_tx {
            txs.push(cb);
        }
        proof {
            assert(txs@ =~= tenure_txs_seq(tenure_start_info));
        }
        let n = mempool_txs.len();
        let mut i: usize = 0;
        while i < n
            invariant
                i <= n,
                n == mempool_txs@.len(),
                txs@ == tenure_txs_seq(tenure_start_info) + mempool_txs@.subrange(0, i as int),
            decreases n - i,
        {
            txs.push(mempool_txs[i]);
            proof {
                assert(txs@ =~= tenure_txs_seq(tenure_start_info) + mempool_txs@.subrange(
                    0,
                    i + 1,
                ));
            }
            i = i + 1;
        }
        proof {
            assert(txs@ =~= tenure_txs_seq(tenure_start_info) + mempool_txs@);
        }

        if txs.len() == 0 {
            return Err(NakamotoNodeError::MiningFailure(ChainstateError::NoTransactionsToMine));
        }

        let miner_signature = MessageSignature(self.keychain.key_id);
        let block = NakamotoBlock {
            header: NakamotoBlockHeader {
                chain_length: parent_block_info.stacks_parent_header.stacks_block_height + 1,
                consensus_hash: self.burn_election_block.consensus_hash,
                parent_block_id: parent_block_info.stacks_parent_header.index_block_hash,
                timestamp: input.now_secs,
                miner_signature,
                signer_signature: Vec::new(),
                signer_bitvec_len,
                block_id: input.assigned_block_id,
            },
            txs,
        };

        self.check_burn_tip_changed(&input.burn_tip_at_end)?;
        Ok(block)
    }
}

} // verus!
