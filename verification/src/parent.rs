//! Selecting the block to build on, and the record that carries it.

use vstd::prelude::*;
use crate::types::{BlockSnapshot, ConsensusHash, StacksHeaderInfo};
use crate::errors::NakamotoNodeError;
use crate::env::{DbQuery, ParentLookupQueries};

verus! {

/// What a tenure change needs to know of the parent tenure. Present only
/// when the next block is the first of a new tenure.
#[derive(Clone, Copy, Debug, PartialEq, Eq, Structural)]
pub struct ParentTenureInfo {
    /// The number of blocks in the parent tenure.
    pub parent_tenure_blocks: u64,
    /// The consensus hash of the parent tenure.
    pub parent_tenure_consensus_hash: ConsensusHash,
}

/// The block to build upon, the origin account's nonce there, and the
/// parent-tenure record when a tenure change is due.
#[derive(Clone, Copy, Debug, PartialEq, Eq, Structural)]
pub struct ParentStacksBlockInfo {
    /// Header of the Stacks block the next block builds on.
    pub stacks_parent_header: StacksHeaderInfo,
    /// Nonce the origin account holds at that parent.
    pub coinbase_nonce: u64,
    /// Present exactly when the chosen parent closes the parent tenure,
    /// so that the next block opens a new one.
    pub parent_tenure: Option<ParentTenureInfo>,
}

/// What selecting a parent comes to, answer by answer.
///
/// The burnchain tip is read first: a tip that moved away from
/// `check_burn_block` stops mining. The parent-tenure header must exist.
/// When the tip header still belongs to the parent tenure, the next block
/// is the first of the new tenure: the parent tenure's length is counted
/// from its highest stored block, which must be the tip itself — any
/// other answer means a better parent appeared. A pre-Nakamoto parent
/// tenure counts as one block. Finally the origin account's nonce is
/// read at the tip.
pub open spec fn lookup_spec(
    q: ParentLookupQueries,
    check_burn_block: BlockSnapshot,
    stacks_tip_header: StacksHeaderInfo,
) -> Result<ParentStacksBlockInfo, NakamotoNodeError> {
    if q.canonical_burn_tip.consensus_hash != check_burn_block.consensus_hash {
        Err(NakamotoNodeError::BurnchainTipChanged)
    } else {
        match q.parent_tenure_header {
            Option::None => Err(NakamotoNodeError::ParentNotFound),
            Option::Some(parent_tenure_header) => {
                if stacks_tip_header.consensus_hash == parent_tenure_header.consensus_hash {
                    if parent_tenure_header.anchored_header is Nakamoto {
                        match q.highest_in_parent_tenure {
                            DbQuery::Found(last) => {
                                if last.index_block_hash != stacks_tip_header.index_block_hash {
                                    Err(NakamotoNodeError::NewParentDiscovered)
                                } else {
                                    lookup_finish_spec(
                                        q,
                                        stacks_tip_header,
                                        Some(ParentTenureInfo {
                                            parent_tenure_blocks: (1 + last.stacks_block_height
                                                - parent_tenure_header.stacks_block_height) as u64,
                                            parent_tenure_consensus_hash:
                                                parent_tenure_header.consensus_hash,
                                        }),
                                    )
                                }
                            },
                            _ => Err(NakamotoNodeError::ParentNotFound),
                        }
                    } else {
                        lookup_finish_spec(
                            q,
                            stacks_tip_header,
                            Some(ParentTenureInfo {
                                parent_tenure_blocks: 1,
                                parent_tenure_consensus_hash: parent_tenure_header.consensus_hash,
                            }),
                        )
                    }
                } else {
                    lookup_finish_spec(q, stacks_tip_header, None)
                }
            },
        }
    }
}

/// The last step of parent selection: read the origin account's nonce and
/// assemble the record.
pub open spec fn lookup_finish_spec(
    q: ParentLookupQueries,
    stacks_tip_header: StacksHeaderInfo,
    parent_tenure: Option<ParentTenureInfo>,
) -> Result<ParentStacksBlockInfo, NakamotoNodeError> {
    match q.account_nonce {
        Option::None => Err(NakamotoNodeError::UnexpectedChainState),
        Option::Some(nonce) => Ok(ParentStacksBlockInfo {
            stacks_parent_header: stacks_tip_header,
            coinbase_nonce: nonce,
            parent_tenure,
        }),
    }
}

impl ParentStacksBlockInfo {
    /// Decide where in the set of forks the next block goes.
    /// `stacks_tip_header` is the tip the caller chose to build on;
    /// `check_burn_block` is the sortition tip the worker believes in,
    /// re-checked here against the store's current answer so that a view
    /// gone stale stops mining rather than producing an invalid block.
    pub fn lookup(
        q: &ParentLookupQueries,
        check_burn_block: &BlockSnapshot,
        stacks_tip_header: StacksHeaderInfo,
    ) -> (r: Result<ParentStacksBlockInfo, NakamotoNodeError>)
        requires
            q.wf(),
        ensures
            r == lookup_spec(*q, *check_burn_block, stacks_tip_header),
    {
        if q.canonical_burn_tip.consensus_hash != check_burn_block.consensus_hash {
            return Err(NakamotoNodeError::BurnchainTipChanged);
        }
        let parent_tenure_header = match q.parent_tenure_header {
            Option::None => {
                return Err(NakamotoNodeError::ParentNotFound);
            },
            Option::Some(h) => h,
        };

        let parent_tenure_info: Option<ParentTenureInfo> = if stacks_tip_header.consensus_hash
            == parent_tenure_header.consensus_hash {
            let parent_tenure_blocks: u64 = if parent_tenure_header.is_nakamoto() {
                match q.highest_in_parent_tenure {
                    DbQuery::Found(last_parent_tenure_header) => {
                        if last_parent_tenure_header.index_block_hash
                            != stacks_tip_header.index_block_hash {
                            return Err(NakamotoNodeError::NewParentDiscovered);
                        }
                        last_parent_tenure_header.stacks_block_height
                            - parent_tenure_header.stacks_block_height + 1
                    },
                    _ => {
                        return Err(NakamotoNodeError::ParentNotFound);
                    },
                }
            } else {
                1
            };
            Some(ParentTenureInfo {
                parent_tenure_blocks,
                parent_tenure_consensus_hash: parent_tenure_header.consensus_hash,
            })
        } else {
            None
        };

        let coinbase_nonce = match q.account_nonce {
            Option::None => {
                return Err(NakamotoNodeError::UnexpectedChainState);
            },
            Option::Some(nonce) => nonce,
        };

        Ok(ParentStacksBlockInfo {
            stacks_parent_header: stacks_tip_header,
            coinbase_nonce,
            parent_tenure: parent_tenure_info,
        })
    }
}

} // verus!
