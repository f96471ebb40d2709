//! Plain-value stand-ins for the chain's identifiers and records.
//!
//! The controller's decisions read only equality of digests and a few
//! scalar fields, so every digest is carried as an opaque 64-bit
//! identifier. The driver that talks to the real stores converts in both
//! directions.

use vstd::prelude::*;

verus! {

/// A short digest identifying a burnchain sortition; the tenure identifier.
#[derive(Clone, Copy, Debug, PartialEq, Eq, Structural)]
pub struct ConsensusHash(pub u64);

/// The index hash that identifies one Stacks block.
#[derive(Clone, Copy, Debug, PartialEq, Eq, Structural)]
pub struct StacksBlockId(pub u64);

/// Identifier of one sortition in the sortition store.
#[derive(Clone, Copy, Debug, PartialEq, Eq, Structural)]
pub struct SortitionId(pub u64);

/// Header hash of a burnchain block.
#[derive(Clone, Copy, Debug, PartialEq, Eq, Structural)]
pub struct BurnchainHeaderHash(pub u64);

/// The VRF seed drawn from a sortition.
#[derive(Clone, Copy, Debug, PartialEq, Eq, Structural)]
pub struct SortitionHash(pub u64);

/// A principal that may receive the coinbase.
#[derive(Clone, Copy, Debug, PartialEq, Eq, Structural)]
pub struct PrincipalData(pub u64);

/// An address of the reward set.
#[derive(Clone, Copy, Debug, PartialEq, Eq, Structural)]
pub struct StacksAddress(pub u64);

/// A signature token. The field records which key produced it; the
/// cryptography itself lives with the keychain and the signer set, both
/// outside this crate.
#[derive(Clone, Copy, Debug, PartialEq, Eq, Structural)]
pub struct MessageSignature(pub u64);

/// Hash of the miner's Nakamoto public key.
#[derive(Clone, Copy, Debug, PartialEq, Eq, Structural)]
pub struct Hash160(pub u64);

/// A Stacks epoch, as a number: the epoch that opens at 2.1 is
/// `EPOCH_2_1`, and later epochs compare greater.
#[derive(Clone, Copy, Debug, PartialEq, Eq, Structural)]
pub struct StacksEpochId(pub u32);

pub const EPOCH_2_1: u32 = 21;

impl StacksEpochId {
    /// Whether this epoch is at least 2.1, the first in which a coinbase
    /// may name an alternative recipient.
    pub fn at_least_2_1(&self) -> (r: bool)
        ensures
            r == (self.0 >= EPOCH_2_1),
    {
        self.0 >= EPOCH_2_1
    }
}

/// Immutable record of an anchor-chain block.
#[derive(Clone, Copy, Debug, PartialEq, Eq, Structural)]
pub struct BlockSnapshot {
    pub consensus_hash: ConsensusHash,
    pub sortition_id: SortitionId,
    pub burn_header_hash: BurnchainHeaderHash,
    pub block_height: u64,
    pub total_burn: u64,
    pub sortition_hash: SortitionHash,
}

/// What kind of anchored header a stored Stacks block carries.
#[derive(Clone, Copy, Debug, PartialEq, Eq, Structural)]
pub enum AnchoredHeader {
    /// A Nakamoto block, which records its own timestamp.
    Nakamoto { timestamp: u64 },
    /// A pre-Nakamoto block; only the burn header timestamp is known.
    Epoch2,
}

/// Header metadata of a stored Stacks block, as the chain state returns it.
#[derive(Clone, Copy, Debug, PartialEq, Eq, Structural)]
pub struct StacksHeaderInfo {
    pub consensus_hash: ConsensusHash,
    pub index_block_hash: StacksBlockId,
    pub stacks_block_height: u64,
    pub burn_header_timestamp: u64,
    pub anchored_header: AnchoredHeader,
}

impl StacksHeaderInfo {
    /// The timestamp a child block must keep its distance from: a Nakamoto
    /// parent's own timestamp, else the burn header timestamp.
    pub open spec fn spec_parent_timestamp(self) -> u64 {
        match self.anchored_header {
            AnchoredHeader::Nakamoto { timestamp } => timestamp,
            AnchoredHeader::Epoch2 => self.burn_header_timestamp,
        }
    }

    pub fn parent_timestamp(&self) -> (r: u64)
        ensures
            r == self.spec_parent_timestamp(),
    {
        match self.anchored_header {
            AnchoredHeader::Nakamoto { timestamp } => timestamp,
            AnchoredHeader::Epoch2 => self.burn_header_timestamp,
        }
    }

    pub fn is_nakamoto(&self) -> (r: bool)
        ensures
            r == (self.anchored_header is Nakamoto),
    {
        match self.anchored_header {
            AnchoredHeader::Nakamoto { .. } => true,
            AnchoredHeader::Epoch2 => false,
        }
    }
}

/// The set of addresses authorized to co-sign blocks in the current
/// reward cycle.
#[derive(Clone, Debug, PartialEq, Eq)]
pub struct RewardSet {
    pub rewarded_addresses: Vec<StacksAddress>,
}

impl View for RewardSet {
    type V = Seq<StacksAddress>;

    open spec fn view(&self) -> Seq<StacksAddress> {
        self.rewarded_addresses@
    }
}

/// The VRF key this miner registered on the burnchain.
#[derive(Clone, Copy, Debug, PartialEq, Eq, Structural)]
pub struct RegisteredKey {
    pub target_block_height: u64,
    pub vrf_public_key: u64,
}

/// A proof of eligibility over the sortition hash. The record keeps which
/// key height it was produced for and which seed it covers; the proof
/// bytes themselves belong to the keychain outside this crate.
#[derive(Clone, Copy, Debug, PartialEq, Eq, Structural)]
pub struct VRFProof {
    pub key_target_height: u64,
    pub sortition_hash: SortitionHash,
}

/// The miner's signing identity.
#[derive(Clone, Copy, Debug, PartialEq, Eq, Structural)]
pub struct Keychain {
    /// Identifies the origin key; signatures made as origin carry it.
    pub key_id: u64,
    /// Hash of the Nakamoto public key, stamped into tenure changes.
    pub nakamoto_pkh: Hash160,
}

impl Keychain {
    /// Produce the eligibility proof for the given key height over the
    /// given sortition seed.
    pub fn generate_proof(&self, target_block_height: u64, sortition_hash: SortitionHash) -> (r:
        VRFProof)
        ensures
            r == (VRFProof { key_target_height: target_block_height, sortition_hash }),
    {
        VRFProof { key_target_height: target_block_height, sortition_hash }
    }

    /// Sign as the origin account; the token records the signing key.
    pub fn sign_as_origin(&self) -> (r: MessageSignature)
        ensures
            r == MessageSignature(self.key_id),
    {
        MessageSignature(self.key_id)
    }

    pub fn get_nakamoto_pkh(&self) -> (r: Hash160)
        ensures
            r == self.nakamoto_pkh,
    {
        self.nakamoto_pkh
    }
}

/// The key slot a mock miner proves under, in place of a registered key.
pub const VRF_MOCK_MINER_KEY: u64 = 0;

/// Miner-side configuration.
#[derive(Clone, Copy, Debug, PartialEq, Eq, Structural)]
pub struct MinerConfig {
    /// The miner's private key slot; absent means the node cannot mine.
    pub mining_key: Option<u64>,
    /// Optional coinbase recipient, honored from epoch 2.1 on.
    pub block_reward_recipient: Option<PrincipalData>,
    /// How long to wait between successive blocks of one tenure, in ms.
    pub wait_on_interim_blocks_ms: u64,
    /// Lower bound between parent and child timestamps, in ms.
    pub min_time_between_blocks_ms: u64,
}

/// Node-side configuration.
#[derive(Clone, Copy, Debug, PartialEq, Eq, Structural)]
pub struct NodeConfig {
    /// Chance in [0, 100] that a fault-injection drop swallows a block
    /// push; values above 100 count as 100.
    pub fault_injection_block_push_fail_probability: Option<u8>,
    /// Skip the signer quorum and prove under the mock key.
    pub mock_mining: bool,
    /// The loopback socket the signer-bus session dials, if configured.
    pub rpc_loopback: Option<u64>,
}

/// The configuration snapshot a worker is constructed with.
#[derive(Clone, Copy, Debug, PartialEq, Eq, Structural)]
pub struct Config {
    pub miner: MinerConfig,
    pub node: NodeConfig,
    pub chain_id: u32,
    pub mainnet: bool,
}

} // verus!
