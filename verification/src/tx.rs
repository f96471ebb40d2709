//! Tenure-change and coinbase transactions, modelled over plain values.

use vstd::prelude::*;
use crate::types::{ConsensusHash, StacksBlockId, Hash160, MessageSignature, PrincipalData, VRFProof};

verus! {

/// Why a tenure change is recorded.
#[derive(Clone, Copy, Debug, PartialEq, Eq, Structural)]
pub enum TenureChangeCause {
    /// A new tenure opens on a fresh sortition.
    BlockFound,
    /// The running tenure extends into a newer burn view.
    Extended,
}

/// The payload of a tenure-change transaction.
#[derive(Clone, Copy, Debug, PartialEq, Eq, Structural)]
pub struct TenureChangePayload {
    /// The tenure this payload opens or extends.
    pub tenure_consensus_hash: ConsensusHash,
    /// The tenure that came before it.
    pub prev_tenure_consensus_hash: ConsensusHash,
    /// The burn view the miner works under.
    pub burn_view_consensus_hash: ConsensusHash,
    /// The last block of the previous tenure.
    pub previous_tenure_end: StacksBlockId,
    /// How many blocks the previous tenure holds.
    pub previous_tenure_blocks: u32,
    pub cause: TenureChangeCause,
    /// Hash of the miner's Nakamoto public key.
    pub pubkey_hash: Hash160,
}

impl TenureChangePayload {
    /// Turn a block-found payload into an extension of the same tenure:
    /// the tenure keeps its hash and becomes its own predecessor, the burn
    /// view moves to the given hash, and the tenure's own last block and
    /// length so far are recorded.
    pub fn extend(
        &self,
        burn_view_consensus_hash: ConsensusHash,
        last_tenure_block_id: StacksBlockId,
        num_blocks_so_far: u32,
    ) -> (r: TenureChangePayload)
        ensures
            r == (TenureChangePayload {
                tenure_consensus_hash: self.tenure_consensus_hash,
                prev_tenure_consensus_hash: self.tenure_consensus_hash,
                burn_view_consensus_hash,
                previous_tenure_end: last_tenure_block_id,
                previous_tenure_blocks: num_blocks_so_far,
                cause: TenureChangeCause::Extended,
                pubkey_hash: self.pubkey_hash,
            }),
    {
        TenureChangePayload {
            tenure_consensus_hash: self.tenure_consensus_hash,
            prev_tenure_consensus_hash: self.tenure_consensus_hash,
            burn_view_consensus_hash,
            previous_tenure_end: last_tenure_block_id,
            previous_tenure_blocks: num_blocks_so_far,
            cause: TenureChangeCause::Extended,
            pubkey_hash: self.pubkey_hash,
        }
    }
}

#[derive(Clone, Copy, Debug, PartialEq, Eq, Structural)]
pub enum TransactionVersion {
    Mainnet,
    Testnet,
}

#[derive(Clone, Copy, Debug, PartialEq, Eq, Structural)]
pub enum TransactionAnchorMode {
    OnChainOnly,
    OffChainOnly,
    Any,
}

/// What a transaction does. Mempool transactions pass through the
/// assembler unread, so one opaque variant carries them.
#[derive(Clone, Copy, Debug, PartialEq, Eq, Structural)]
pub enum TransactionPayload {
    TenureChange(TenureChangePayload),
    Coinbase { recipient: Option<PrincipalData>, vrf_proof: VRFProof },
    /// A transaction selected from the mempool; the assembler does not
    /// look inside it.
    Mempool(u64),
}

/// A transaction as the assembler emits it: versioned, anchored, with the
/// origin's nonce and signature.
#[derive(Clone, Copy, Debug, PartialEq, Eq, Structural)]
pub struct StacksTransaction {
    pub version: TransactionVersion,
    pub chain_id: u32,
    pub anchor_mode: TransactionAnchorMode,
    pub origin_nonce: u64,
    pub origin_signature: MessageSignature,
    pub payload: TransactionPayload,
}

impl StacksTransaction {
    pub open spec fn is_tenure_change(self) -> bool {
        self.payload is TenureChange
    }

    pub open spec fn is_coinbase(self) -> bool {
        self.payload is Coinbase
    }
}

/// The transactions that open a tenure, when any do: a tenure change and,
/// for a fresh tenure, a coinbase.
#[derive(Clone, Copy, Debug, PartialEq, Eq, Structural)]
pub struct NakamotoTenureInfo {
    pub coinbase_tx: Option<StacksTransaction>,
    pub tenure_change_tx: Option<StacksTransaction>,
}

} // verus!
