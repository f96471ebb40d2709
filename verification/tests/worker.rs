//! Unit tests for the worker's individual steps: parent selection,
//! timestamps, tenure-start transactions, the reward-set cache, and the
//! broadcast path.

use nakamoto_miner::types::{
    AnchoredHeader, BlockSnapshot, BurnchainHeaderHash, Config, ConsensusHash, Hash160, Keychain,
    MessageSignature, MinerConfig, NodeConfig, PrincipalData, RegisteredKey, RewardSet,
    SortitionHash, SortitionId, StacksAddress, StacksBlockId, StacksEpochId, StacksHeaderInfo,
};
use nakamoto_miner::errors::{
    ChainstateError, ConfigFailure, CoordinatorFailure, NakamotoNodeError,
};
use nakamoto_miner::env::{
    BroadcastInput, DbQuery, ParentLookupQueries, RewardSetLoadOutcome, SigningInput,
};
use nakamoto_miner::globals::{Counters, Globals};
use nakamoto_miner::miner::{BlockMinerThread, MinerReason};
use nakamoto_miner::parent::ParentStacksBlockInfo;
use nakamoto_miner::block::{NakamotoBlock, NakamotoBlockHeader};
use nakamoto_miner::tx::{TenureChangeCause, TenureChangePayload, TransactionPayload};

fn config() -> Config {
    Config {
        miner: MinerConfig {
            mining_key: Some(7),
            block_reward_recipient: None,
            wait_on_interim_blocks_ms: 1000,
            min_time_between_blocks_ms: 1000,
        },
        node: NodeConfig {
            fault_injection_block_push_fail_probability: None,
            mock_mining: false,
            rpc_loopback: Some(1),
        },
        chain_id: 2147483648,
        mainnet: false,
    }
}

fn globals() -> Globals {
    Globals {
        miner_blocked: false,
        should_keep_running: true,
        counters: Counters { naka_mined_blocks: 0, naka_mined_tenures: 0, missed_tenures: 0 },
        initiative_raised: false,
    }
}

fn keychain() -> Keychain {
    Keychain { key_id: 7, nakamoto_pkh: Hash160(77) }
}

fn snap(ch: u64, height: u64) -> BlockSnapshot {
    BlockSnapshot {
        consensus_hash: ConsensusHash(ch),
        sortition_id: SortitionId(ch),
        burn_header_hash: BurnchainHeaderHash(ch),
        block_height: height,
        total_burn: 0,
        sortition_hash: SortitionHash(ch),
    }
}

fn naka_header(ch: u64, id: u64, height: u64, timestamp: u64) -> StacksHeaderInfo {
    StacksHeaderInfo {
        consensus_hash: ConsensusHash(ch),
        index_block_hash: StacksBlockId(id),
        stacks_block_height: height,
        burn_header_timestamp: timestamp,
        anchored_header: AnchoredHeader::Nakamoto { timestamp },
    }
}

fn worker(reason: MinerReason, election_ch: u64, burn_ch: u64) -> BlockMinerThread {
    BlockMinerThread::new(
        config(),
        globals(),
        keychain(),
        RegisteredKey { target_block_height: 100, vrf_public_key: 9 },
        snap(election_ch, 50),
        snap(burn_ch, 51),
        StacksBlockId(10),
        reason,
    )
}

fn lookup_queries(burn_ch: u64) -> ParentLookupQueries {
    ParentLookupQueries {
        canonical_burn_tip: snap(burn_ch, 51),
        parent_tenure_header: Some(naka_header(1, 10, 10, 500)),
        highest_in_parent_tenure: DbQuery::Found(naka_header(1, 12, 12, 900)),
        account_nonce: Some(5),
    }
}

#[test]
fn lookup_counts_parent_tenure_blocks() {
    // Parent tenure runs from height 10 to height 12: three blocks.
    let q = lookup_queries(2);
    let tip = naka_header(1, 12, 12, 900);
    let info = ParentStacksBlockInfo::lookup(&q, &snap(2, 51), tip).unwrap();
    let pt = info.parent_tenure.unwrap();
    assert_eq!(pt.parent_tenure_blocks, 3);
    assert_eq!(pt.parent_tenure_consensus_hash, ConsensusHash(1));
    assert_eq!(info.coinbase_nonce, 5);
    assert_eq!(info.stacks_parent_header, tip);
}

#[test]
fn lookup_epoch2_parent_counts_one_block() {
    let mut q = lookup_queries(2);
    let start = StacksHeaderInfo {
        anchored_header: AnchoredHeader::Epoch2,
        ..naka_header(1, 10, 10, 500)
    };
    q.parent_tenure_header = Some(start);
    let tip = StacksHeaderInfo { anchored_header: AnchoredHeader::Epoch2, ..start };
    let info = ParentStacksBlockInfo::lookup(&q, &snap(2, 51), tip).unwrap();
    assert_eq!(info.parent_tenure.unwrap().parent_tenure_blocks, 1);
}

#[test]
fn lookup_rejects_stale_burn_view() {
    let q = lookup_queries(2);
    let tip = naka_header(1, 12, 12, 900);
    let r = ParentStacksBlockInfo::lookup(&q, &snap(3, 52), tip);
    assert_eq!(r, Err(NakamotoNodeError::BurnchainTipChanged));
}

#[test]
fn lookup_missing_parent_tenure_header() {
    let mut q = lookup_queries(2);
    q.parent_tenure_header = None;
    let tip = naka_header(1, 12, 12, 900);
    assert_eq!(
        ParentStacksBlockInfo::lookup(&q, &snap(2, 51), tip),
        Err(NakamotoNodeError::ParentNotFound)
    );
}

#[test]
fn lookup_new_parent_discovered() {
    // The parent tenure's highest block is not the tip we meant to build on.
    let mut q = lookup_queries(2);
    q.highest_in_parent_tenure = DbQuery::Found(naka_header(1, 13, 13, 950));
    let tip = naka_header(1, 12, 12, 900);
    assert_eq!(
        ParentStacksBlockInfo::lookup(&q, &snap(2, 51), tip),
        Err(NakamotoNodeError::NewParentDiscovered)
    );
}

#[test]
fn lookup_missing_account_nonce_is_unexpected_chain_state() {
    let mut q = lookup_queries(2);
    q.account_nonce = None;
    let tip = naka_header(1, 12, 12, 900);
    assert_eq!(
        ParentStacksBlockInfo::lookup(&q, &snap(2, 51), tip),
        Err(NakamotoNodeError::UnexpectedChainState)
    );
}

#[test]
fn lookup_outside_parent_tenure_carries_no_tenure_info() {
    // The tip already sits in another tenure: no tenure change is due.
    let q = lookup_queries(2);
    let tip = naka_header(4, 20, 20, 900);
    let info = ParentStacksBlockInfo::lookup(&q, &snap(2, 51), tip).unwrap();
    assert!(info.parent_tenure.is_none());
}

#[test]
fn timestamp_gap_exact_boundary() {
    let w = worker(MinerReason::BlockFound, 2, 2);
    let parent = naka_header(1, 12, 12, 1000);
    // Same second: gap 0 ms, below the configured 1000 ms.
    assert!(!w.validate_timestamp_info(1000, &parent));
    // One second later: gap exactly 1000 ms.
    assert!(w.validate_timestamp_info(1001, &parent));
    // Clock ran backwards: gap counts as zero.
    assert!(!w.validate_timestamp_info(999, &parent));
}

#[test]
fn timestamp_of_epoch2_parent_uses_burn_header_time() {
    let w = worker(MinerReason::BlockFound, 2, 2);
    let parent = StacksHeaderInfo {
        anchored_header: AnchoredHeader::Epoch2,
        burn_header_timestamp: 2000,
        ..naka_header(1, 12, 12, 0)
    };
    assert!(!w.validate_timestamp_info(2000, &parent));
    assert!(w.validate_timestamp_info(2001, &parent));
}

#[test]
fn validate_timestamp_missing_parent() {
    let w = worker(MinerReason::BlockFound, 2, 2);
    let block = NakamotoBlock {
        header: NakamotoBlockHeader {
            chain_length: 13,
            consensus_hash: ConsensusHash(2),
            parent_block_id: StacksBlockId(12),
            timestamp: 1001,
            miner_signature: MessageSignature(7),
            signer_signature: Vec::new(),
            signer_bitvec_len: 0,
            block_id: StacksBlockId(99),
        },
        txs: Vec::new(),
    };
    assert_eq!(
        w.validate_timestamp(&block, &None),
        Err(NakamotoNodeError::ParentNotFound)
    );
    assert_eq!(
        w.validate_timestamp(&block, &Some(naka_header(1, 12, 12, 1))),
        Ok(true)
    );
}

#[test]
fn coinbase_recipient_respects_epoch() {
    let mut w = worker(MinerReason::BlockFound, 2, 2);
    w.config.miner.block_reward_recipient = Some(PrincipalData(55));
    // Before epoch 2.1 the recipient is ignored.
    assert_eq!(w.get_coinbase_recipient(StacksEpochId(20)), None);
    assert_eq!(
        w.get_coinbase_recipient(StacksEpochId(21)),
        Some(PrincipalData(55))
    );
    assert_eq!(
        w.get_coinbase_recipient(StacksEpochId(30)),
        Some(PrincipalData(55))
    );
}

#[test]
fn tenure_change_tx_is_signed_and_anchored() {
    let w = worker(MinerReason::BlockFound, 2, 2);
    let payload = TenureChangePayload {
        tenure_consensus_hash: ConsensusHash(2),
        prev_tenure_consensus_hash: ConsensusHash(1),
        burn_view_consensus_hash: ConsensusHash(2),
        previous_tenure_end: StacksBlockId(12),
        previous_tenure_blocks: 3,
        cause: TenureChangeCause::BlockFound,
        pubkey_hash: Hash160(77),
    };
    let tx = w.generate_tenure_change_tx(5, payload).unwrap();
    assert_eq!(tx.origin_nonce, 5);
    assert_eq!(tx.chain_id, 2147483648);
    assert_eq!(tx.origin_signature, MessageSignature(7));
    assert_eq!(tx.payload, TransactionPayload::TenureChange(payload));
}

#[test]
fn extend_payload_records_burn_view_and_length() {
    let payload = TenureChangePayload {
        tenure_consensus_hash: ConsensusHash(2),
        prev_tenure_consensus_hash: ConsensusHash(1),
        burn_view_consensus_hash: ConsensusHash(2),
        previous_tenure_end: StacksBlockId(12),
        previous_tenure_blocks: 3,
        cause: TenureChangeCause::BlockFound,
        pubkey_hash: Hash160(77),
    };
    let ext = payload.extend(ConsensusHash(9), StacksBlockId(15), 5);
    assert_eq!(ext.cause, TenureChangeCause::Extended);
    assert_eq!(ext.burn_view_consensus_hash, ConsensusHash(9));
    assert_eq!(ext.previous_tenure_end, StacksBlockId(15));
    assert_eq!(ext.previous_tenure_blocks, 5);
    assert_eq!(ext.prev_tenure_consensus_hash, ConsensusHash(2));
    assert_eq!(ext.tenure_consensus_hash, ConsensusHash(2));
}

#[test]
fn signer_set_cache_is_stable() {
    let mut w = worker(MinerReason::BlockFound, 2, 2);
    let first = RewardSet { rewarded_addresses: vec![StacksAddress(1), StacksAddress(2)] };
    let second = RewardSet { rewarded_addresses: vec![StacksAddress(9)] };
    let got1 = w
        .load_signer_set(&RewardSetLoadOutcome::Loaded { selected: Some(first.clone()) })
        .unwrap();
    assert_eq!(got1, first);
    // Whatever the store would answer now, the cache holds.
    let got2 = w
        .load_signer_set(&RewardSetLoadOutcome::Loaded { selected: Some(second) })
        .unwrap();
    assert_eq!(got2, first);
    let got3 = w.load_signer_set(&RewardSetLoadOutcome::LoadFailed).unwrap();
    assert_eq!(got3, first);
}

#[test]
fn signer_set_load_failures() {
    let mut w = worker(MinerReason::BlockFound, 2, 2);
    assert_eq!(
        w.load_signer_set(&RewardSetLoadOutcome::StateOpenFailed),
        Err(NakamotoNodeError::SigningCoordinatorFailure(CoordinatorFailure::StateOpenFailed))
    );
    assert_eq!(
        w.load_signer_set(&RewardSetLoadOutcome::NoneStored),
        Err(NakamotoNodeError::SigningCoordinatorFailure(CoordinatorFailure::NoRewardSet))
    );
    assert_eq!(
        w.load_signer_set(&RewardSetLoadOutcome::LoadFailed),
        Err(NakamotoNodeError::SigningCoordinatorFailure(CoordinatorFailure::RewardSetFetch))
    );
    assert_eq!(
        w.load_signer_set(&RewardSetLoadOutcome::Loaded { selected: None }),
        Err(NakamotoNodeError::SigningCoordinatorFailure(
            CoordinatorFailure::NoSelectedAnchorBlock
        ))
    );
}

#[test]
fn gather_signatures_needs_mining_key() {
    let mut w = worker(MinerReason::BlockFound, 2, 2);
    w.config.miner.mining_key = None;
    let input = SigningInput {
        sort_db_open_ok: true,
        reward_set_load: RewardSetLoadOutcome::Loaded {
            selected: Some(RewardSet { rewarded_addresses: vec![StacksAddress(1)] }),
        },
        coordinator_setup_ok: true,
        run_sign: Ok(vec![MessageSignature(101)]),
    };
    assert_eq!(
        w.gather_signatures(&input),
        Err(NakamotoNodeError::MinerConfigurationFailed(ConfigFailure::NoMiningKey))
    );
}

#[test]
fn gather_signatures_mock_mode_short_circuits() {
    let mut w = worker(MinerReason::BlockFound, 2, 2);
    w.config.node.mock_mining = true;
    let rs = RewardSet { rewarded_addresses: vec![StacksAddress(1)] };
    let input = SigningInput {
        sort_db_open_ok: true,
        reward_set_load: RewardSetLoadOutcome::Loaded { selected: Some(rs.clone()) },
        coordinator_setup_ok: false,
        run_sign: Err(NakamotoNodeError::StacksTipChanged),
    };
    // Mock mining never consults the coordinator.
    let (got_rs, sigs) = w.gather_signatures(&input).unwrap();
    assert_eq!(got_rs, rs);
    assert!(sigs.is_empty());
}

#[test]
fn gather_signatures_setup_failures() {
    let rs = RewardSet { rewarded_addresses: vec![StacksAddress(1)] };
    let mut w = worker(MinerReason::BlockFound, 2, 2);
    let input = SigningInput {
        sort_db_open_ok: false,
        reward_set_load: RewardSetLoadOutcome::Loaded { selected: Some(rs.clone()) },
        coordinator_setup_ok: true,
        run_sign: Ok(vec![]),
    };
    assert_eq!(
        w.gather_signatures(&input),
        Err(NakamotoNodeError::SigningCoordinatorFailure(CoordinatorFailure::StateOpenFailed))
    );
    let mut w2 = worker(MinerReason::BlockFound, 2, 2);
    let input2 = SigningInput {
        sort_db_open_ok: true,
        reward_set_load: RewardSetLoadOutcome::Loaded { selected: Some(rs) },
        coordinator_setup_ok: false,
        run_sign: Ok(vec![]),
    };
    assert_eq!(
        w2.gather_signatures(&input2),
        Err(NakamotoNodeError::SigningCoordinatorFailure(CoordinatorFailure::InitFailed))
    );
}

fn test_block() -> NakamotoBlock {
    NakamotoBlock {
        header: NakamotoBlockHeader {
            chain_length: 13,
            consensus_hash: ConsensusHash(2),
            parent_block_id: StacksBlockId(12),
            timestamp: 1001,
            miner_signature: MessageSignature(7),
            signer_signature: vec![MessageSignature(101)],
            signer_bitvec_len: 1,
            block_id: StacksBlockId(99),
        },
        txs: Vec::new(),
    }
}

#[test]
fn broadcast_self_delivery_race_still_pushes() {
    // The store already holds our block (the signers' fan-out delivered
    // it first): no error, and the peer-to-peer push still goes out.
    let w = worker(MinerReason::BlockFound, 2, 2);
    let input = BroadcastInput {
        skip_broadcast_knob: false,
        staging_ok: true,
        accept: Some(false),
        stackerdb_push_ok: true,
    };
    let report = w.broadcast(test_block(), &input).unwrap();
    assert!(!report.accepted);
    assert!(report.persisted);
    assert!(report.pushed_p2p);
    assert!(report.pushed_stackerdb);
}

#[test]
fn broadcast_fault_injection_drops_push() {
    // Drop probability 100: the push never goes out; probability unset:
    // it always does.
    let mut w = worker(MinerReason::BlockFound, 2, 2);
    w.config.node.fault_injection_block_push_fail_probability = Some(100);
    let input = BroadcastInput {
        skip_broadcast_knob: false,
        staging_ok: true,
        accept: Some(true),
        stackerdb_push_ok: true,
    };
    for _ in 0..20 {
        let report = w.broadcast(test_block(), &input).unwrap();
        assert!(!report.pushed_p2p);
        assert!(report.accepted);
    }
    w.config.node.fault_injection_block_push_fail_probability = Some(255);
    for _ in 0..20 {
        assert!(!w.broadcast(test_block(), &input).unwrap().pushed_p2p);
    }
    w.config.node.fault_injection_block_push_fail_probability = None;
    for _ in 0..20 {
        assert!(w.broadcast(test_block(), &input).unwrap().pushed_p2p);
    }
    w.config.node.fault_injection_block_push_fail_probability = Some(0);
    for _ in 0..20 {
        assert!(w.broadcast(test_block(), &input).unwrap().pushed_p2p);
    }
}

#[test]
fn broadcast_skip_knob_suppresses_everything() {
    let w = worker(MinerReason::BlockFound, 2, 2);
    let input = BroadcastInput {
        skip_broadcast_knob: true,
        staging_ok: false,
        accept: None,
        stackerdb_push_ok: true,
    };
    let report = w.broadcast(test_block(), &input).unwrap();
    assert!(report.skipped);
    assert!(!report.persisted);
    assert!(!report.pushed_p2p);
    assert!(report.pushed_stackerdb);
}

#[test]
fn broadcast_failures() {
    let w = worker(MinerReason::BlockFound, 2, 2);
    let staging_failed = BroadcastInput {
        skip_broadcast_knob: false,
        staging_ok: false,
        accept: None,
        stackerdb_push_ok: true,
    };
    assert_eq!(
        w.broadcast(test_block(), &staging_failed),
        Err(NakamotoNodeError::AcceptFailure(ChainstateError::DbError))
    );
    let accept_failed = BroadcastInput {
        skip_broadcast_knob: false,
        staging_ok: true,
        accept: None,
        stackerdb_push_ok: true,
    };
    assert_eq!(
        w.broadcast(test_block(), &accept_failed),
        Err(NakamotoNodeError::AcceptFailure(ChainstateError::DbError))
    );
    let push_failed = BroadcastInput {
        skip_broadcast_knob: false,
        staging_ok: true,
        accept: Some(true),
        stackerdb_push_ok: false,
    };
    assert_eq!(
        w.broadcast(test_block(), &push_failed),
        Err(NakamotoNodeError::SigningCoordinatorFailure(CoordinatorFailure::StackerDbPush))
    );
    let mut w2 = worker(MinerReason::BlockFound, 2, 2);
    w2.config.node.rpc_loopback = None;
    let fine = BroadcastInput {
        skip_broadcast_knob: false,
        staging_ok: true,
        accept: Some(true),
        stackerdb_push_ok: true,
    };
    assert_eq!(
        w2.broadcast(test_block(), &fine),
        Err(NakamotoNodeError::MinerConfigurationFailed(ConfigFailure::NoRpcLoopback))
    );
    let mut w3 = worker(MinerReason::BlockFound, 2, 2);
    w3.config.miner.mining_key = None;
    assert_eq!(
        w3.broadcast(test_block(), &fine),
        Err(NakamotoNodeError::MinerConfigurationFailed(ConfigFailure::NoMiningKey))
    );
}

#[test]
fn stop_miner_joins_and_unblocks() {
    let mut g = globals();
    let r = BlockMinerThread::stop_miner(
        &mut g,
        nakamoto_miner::env::PriorMiner {
            join_outcome: Some(Err(NakamotoNodeError::BurnchainTipChanged)),
        },
    );
    // A prior worker that exited on a burnchain change is expected.
    assert_eq!(r, Ok(()));
    assert!(!g.miner_blocked);
}

#[test]
fn stop_miner_failed_join_leaves_mining_blocked() {
    let mut g = globals();
    let r = BlockMinerThread::stop_miner(
        &mut g,
        nakamoto_miner::env::PriorMiner { join_outcome: None },
    );
    assert_eq!(
        r,
        Err(NakamotoNodeError::MiningFailure(ChainstateError::MinerAborted))
    );
    assert!(g.miner_blocked);
}

#[test]
fn interim_wait_exits_on_first_changed_poll() {
    let mut w = worker(MinerReason::BlockFound, 2, 2);
    let polls = vec![snap(2, 51), snap(2, 51), snap(6, 52), snap(7, 53)];
    assert_eq!(
        w.wait_on_interim_blocks(&polls),
        Err(NakamotoNodeError::BurnchainTipChanged)
    );
    // The first divergent poll already ends the wait: one missed tenure.
    assert_eq!(w.globals.counters.missed_tenures, 1);
}

#[test]
fn interim_wait_runs_through_when_tip_holds() {
    let mut w = worker(MinerReason::BlockFound, 2, 2);
    let polls = vec![snap(2, 51), snap(2, 51)];
    assert_eq!(w.wait_on_interim_blocks(&polls), Ok(()));
    assert_eq!(w.globals.counters.missed_tenures, 0);
}

#[test]
fn check_burn_tip_counts_missed_tenures() {
    let mut w = worker(MinerReason::BlockFound, 2, 2);
    assert_eq!(w.check_burn_tip_changed(&snap(2, 51)), Ok(()));
    assert_eq!(
        w.check_burn_tip_changed(&snap(3, 52)),
        Err(NakamotoNodeError::BurnchainTipChanged)
    );
    assert_eq!(w.globals.counters.missed_tenures, 1);
}

#[test]
fn vrf_proof_uses_registered_key_height() {
    let w = worker(MinerReason::BlockFound, 2, 2);
    let proof_record = w.make_vrf_proof().unwrap();
    assert_eq!(proof_record.key_target_height, 100);
    assert_eq!(proof_record.sortition_hash, SortitionHash(2));
    let mut mock = worker(MinerReason::BlockFound, 2, 2);
    mock.config.node.mock_mining = true;
    assert_eq!(mock.make_vrf_proof().unwrap().key_target_height, 0);
}
