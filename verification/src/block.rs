//! The candidate block and the spec-level views the contracts speak of.

use vstd::prelude::*;
use crate::types::{AnchoredHeader, ConsensusHash, MessageSignature, StacksBlockId, StacksHeaderInfo};
use crate::tx::StacksTransaction;

verus! {

/// Header of an assembled Nakamoto block.
#[derive(Clone, Debug, PartialEq, Eq)]
pub struct NakamotoBlockHeader {
    /// One more than the parent's height.
    pub chain_length: u64,
    /// The tenure this block belongs to.
    pub consensus_hash: ConsensusHash,
    /// The block this one builds on.
    pub parent_block_id: StacksBlockId,
    /// Assembly time, in epoch seconds.
    pub timestamp: u64,
    /// The miner's signature over the header.
    pub miner_signature: MessageSignature,
    /// The threshold signatures gathered from the signer set.
    pub signer_signature: Vec<MessageSignature>,
    /// Length of the signer bitvector: the reward set's size.
    pub signer_bitvec_len: u32,
    /// The index hash the chain assigns this block once stored.
    pub block_id: StacksBlockId,
}

/// An assembled candidate block.
#[derive(Clone, Debug, PartialEq, Eq)]
pub struct NakamotoBlock {
    pub header: NakamotoBlockHeader,
    pub txs: Vec<StacksTransaction>,
}

/// The mathematical value of a header: the same fields with the signature
/// vector as a sequence.
pub struct HeaderModel {
    pub chain_length: u64,
    pub consensus_hash: ConsensusHash,
    pub parent_block_id: StacksBlockId,
    pub timestamp: u64,
    pub miner_signature: MessageSignature,
    pub signer_signature: Seq<MessageSignature>,
    pub signer_bitvec_len: u32,
    pub block_id: StacksBlockId,
}

/// The mathematical value of a block.
pub struct BlockModel {
    pub header: HeaderModel,
    pub txs: Seq<StacksTransaction>,
}

impl View for NakamotoBlockHeader {
    type V = HeaderModel;

    open spec fn view(&self) -> HeaderModel {
        HeaderModel {
            chain_length: self.chain_length,
            consensus_hash: self.consensus_hash,
            parent_block_id: self.parent_block_id,
            timestamp: self.timestamp,
            miner_signature: self.miner_signature,
            signer_signature: self.signer_signature@,
            signer_bitvec_len: self.signer_bitvec_len,
            block_id: self.block_id,
        }
    }
}

impl View for NakamotoBlock {
    type V = BlockModel;

    open spec fn view(&self) -> BlockModel {
        BlockModel { header: self.header@, txs: self.txs@ }
    }
}

/// How many of these transactions are tenure changes.
pub open spec fn count_tenure_changes(txs: Seq<StacksTransaction>) -> nat
    decreases txs.len(),
{
    if txs.len() == 0 {
        0
    } else {
        count_tenure_changes(txs.drop_last()) + if txs.last().is_tenure_change() {
            1nat
        } else {
            0nat
        }
    }
}

/// How many of these transactions are coinbases.
pub open spec fn count_coinbases(txs: Seq<StacksTransaction>) -> nat
    decreases txs.len(),
{
    if txs.len() == 0 {
        0
    } else {
        count_coinbases(txs.drop_last()) + if txs.last().is_coinbase() {
            1nat
        } else {
            0nat
        }
    }
}

/// The header record the chain state returns for this block once it is
/// accepted: the block under its assigned index hash, at its chain
/// length, carrying its own timestamp.
pub open spec fn header_of_block(b: BlockModel) -> StacksHeaderInfo {
    StacksHeaderInfo {
        consensus_hash: b.header.consensus_hash,
        index_block_hash: b.header.block_id,
        stacks_block_height: b.header.chain_length,
        burn_header_timestamp: b.header.timestamp,
        anchored_header: AnchoredHeader::Nakamoto { timestamp: b.header.timestamp },
    }
}

/// Milliseconds elapsed between a parent's timestamp and a later reading,
/// clamped at zero when the clock ran backwards.
pub open spec fn time_since_parent_ms(current_secs: u64, parent_secs: u64) -> int {
    if current_secs >= parent_secs {
        (current_secs - parent_secs) * 1000
    } else {
        0
    }
}

/// The minimum-gap rule: a block stamped at `current_secs` may follow a
/// parent stamped at `parent_secs` only when at least `min_ms`
/// milliseconds lie between them.
pub open spec fn timestamp_gap_ok(current_secs: u64, parent_secs: u64, min_ms: u64) -> bool {
    time_since_parent_ms(current_secs, parent_secs) >= min_ms
}

} // verus!
