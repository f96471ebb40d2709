//! Whole-run scenarios: fresh tenures, extensions, empty mempools,
//! interrupted signing, too-fast blocks, and the stop protocol.

use nakamoto_miner::types::{
    AnchoredHeader, BlockSnapshot, BurnchainHeaderHash, Config, ConsensusHash, Hash160, Keychain,
    MessageSignature, MinerConfig, NodeConfig, RegisteredKey, RewardSet, SortitionHash,
    SortitionId, StacksAddress, StacksBlockId, StacksEpochId, StacksHeaderInfo,
};
use nakamoto_miner::errors::{ChainstateError, NakamotoNodeError};
use nakamoto_miner::env::{
    AttemptInput, BroadcastInput, BuilderOutcome, DbQuery, IterationInput, MineBlockInput,
    ParentInfoQueries, ParentLookupQueries, PriorMiner, RewardSetLoadOutcome, RunInput,
    SigningInput, StacksTipRef,
};
use nakamoto_miner::globals::{Counters, Globals};
use nakamoto_miner::miner::{BlockMinerThread, MinerDirective, MinerReason};
use nakamoto_miner::tx::{
    StacksTransaction, TenureChangeCause, TransactionAnchorMode, TransactionPayload,
    TransactionVersion,
};

fn config() -> Config {
    Config {
        miner: MinerConfig {
            mining_key: Some(7),
            block_reward_recipient: None,
            wait_on_interim_blocks_ms: 1000,
            min_time_between_blocks_ms: 1000,
        },
        node: NodeConfig {
            fault_injection_block_push_fail_probability: None,
            mock_mining: false,
            rpc_loopback: Some(1),
        },
        chain_id: 2147483648,
        mainnet: false,
    }
}

fn globals() -> Globals {
    Globals {
        miner_blocked: false,
        should_keep_running: true,
        counters: Counters { naka_mined_blocks: 0, naka_mined_tenures: 0, missed_tenures: 0 },
        initiative_raised: false,
    }
}

fn snap(ch: u64, height: u64) -> BlockSnapshot {
    BlockSnapshot {
        consensus_hash: ConsensusHash(ch),
        sortition_id: SortitionId(ch),
        burn_header_hash: BurnchainHeaderHash(ch),
        block_height: height,
        total_burn: 0,
        sortition_hash: SortitionHash(ch),
    }
}

fn naka_header(ch: u64, id: u64, height: u64, timestamp: u64) -> StacksHeaderInfo {
    StacksHeaderInfo {
        consensus_hash: ConsensusHash(ch),
        index_block_hash: StacksBlockId(id),
        stacks_block_height: height,
        burn_header_timestamp: timestamp,
        anchored_header: AnchoredHeader::Nakamoto { timestamp },
    }
}

fn reward_set() -> RewardSet {
    RewardSet {
        rewarded_addresses: vec![
            StacksAddress(31),
            StacksAddress(32),
            StacksAddress(33),
            StacksAddress(34),
        ],
    }
}

fn mempool_tx(id: u64) -> StacksTransaction {
    StacksTransaction {
        version: TransactionVersion::Testnet,
        chain_id: 2147483648,
        anchor_mode: TransactionAnchorMode::Any,
        origin_nonce: 0,
        origin_signature: MessageSignature(200),
        payload: TransactionPayload::Mempool(id),
    }
}

/// Queries answering: the elected tenure is still empty, the parent
/// tenure (consensus hash 1) runs from height 10 to 12, and its highest
/// block is the canonical Stacks tip we build on.
fn begin_tenure_queries(burn_ch: u64) -> ParentInfoQueries {
    let parent_start = naka_header(1, 10, 10, 500);
    let tip = naka_header(1, 12, 12, 900);
    ParentInfoQueries {
        stacks_tip: Some(StacksTipRef {
            consensus_hash: ConsensusHash(1),
            block_id: StacksBlockId(12),
        }),
        tenure_tip: DbQuery::Absent,
        parent_tenure_start: Some(parent_start),
        parent_tenure_highest: DbQuery::Found(tip),
        lookup: ParentLookupQueries {
            canonical_burn_tip: snap(burn_ch, 51),
            parent_tenure_header: Some(parent_start),
            highest_in_parent_tenure: DbQuery::Found(tip),
            account_nonce: Some(5),
        },
    }
}

fn mine_input(
    q: ParentInfoQueries,
    now_secs: u64,
    builder: BuilderOutcome,
    assigned: u64,
    burn_ch: u64,
) -> MineBlockInput {
    MineBlockInput {
        reward_set_load: RewardSetLoadOutcome::Loaded { selected: Some(reward_set()) },
        burn_tip_at_start: snap(burn_ch, 51),
        target_epoch: Some(StacksEpochId(30)),
        parent: q,
        tenure_length_so_far: None,
        now_secs,
        builder,
        assigned_block_id: StacksBlockId(assigned),
        burn_tip_at_end: snap(burn_ch, 51),
    }
}

fn attempt(mine: MineBlockInput, ts_parent: Option<StacksHeaderInfo>) -> AttemptInput {
    AttemptInput {
        preflight_burn_tip: mine.burn_tip_at_start,
        preflight_parent: mine.parent,
        mine,
        timestamp_parent: ts_parent,
    }
}

fn signing_ok() -> SigningInput {
    SigningInput {
        sort_db_open_ok: true,
        reward_set_load: RewardSetLoadOutcome::Loaded { selected: Some(reward_set()) },
        coordinator_setup_ok: true,
        run_sign: Ok(vec![MessageSignature(101), MessageSignature(102), MessageSignature(103)]),
    }
}

fn broadcast_ok() -> BroadcastInput {
    BroadcastInput {
        skip_broadcast_knob: false,
        staging_ok: true,
        accept: Some(true),
        stackerdb_push_ok: true,
    }
}

fn iteration(attempts: Vec<AttemptInput>) -> IterationInput {
    IterationInput {
        attempts,
        signing: signing_ok(),
        broadcast: broadcast_ok(),
        sort_db_reopen_ok: true,
        interim_polls: Vec::new(),
    }
}

/// A worker as the relayer would spawn it for the given directive.
fn spawn_for(directive: &MinerDirective) -> BlockMinerThread {
    match directive {
        MinerDirective::BeginTenure { parent_tenure_start, burnchain_tip } => {
            BlockMinerThread::new(
                config(),
                globals(),
                Keychain { key_id: 7, nakamoto_pkh: Hash160(77) },
                RegisteredKey { target_block_height: 100, vrf_public_key: 9 },
                *burnchain_tip,
                *burnchain_tip,
                *parent_tenure_start,
                MinerReason::BlockFound,
            )
        }
        MinerDirective::ContinueTenure { new_burn_view } => BlockMinerThread::new(
            config(),
            globals(),
            Keychain { key_id: 7, nakamoto_pkh: Hash160(77) },
            RegisteredKey { target_block_height: 100, vrf_public_key: 9 },
            snap(2, 50),
            snap(new_burn_view.0, 51),
            StacksBlockId(11),
            MinerReason::Extended { burn_view_consensus_hash: *new_burn_view },
        ),
        MinerDirective::StopTenure => panic!("no worker is spawned for a stop directive"),
    }
}

fn begin_tenure_worker() -> BlockMinerThread {
    spawn_for(&MinerDirective::BeginTenure {
        parent_tenure_start: StacksBlockId(10),
        burnchain_tip: snap(2, 51),
    })
}

#[test]
fn empty_mempool_waits_without_broadcast() {
    // The builder finds nothing to mine: no broadcast, counters
    // untouched, the turn falls through to the interim wait.
    let worker = begin_tenure_worker();
    let q = begin_tenure_queries(2);
    let it = iteration(vec![attempt(
        mine_input(q, 1001, BuilderOutcome::NoTransactions, 90, 2),
        Some(naka_header(1, 12, 12, 900)),
    )]);
    let run = worker.run_miner(None, &RunInput { stackerdbs_ok: true, iterations: vec![it] });
    assert_eq!(run.outcome, Ok(()));
    assert!(run.emitted.is_empty());
    assert_eq!(run.worker.globals.counters.naka_mined_blocks, 0);
    assert_eq!(run.worker.globals.counters.naka_mined_tenures, 0);
    assert!(run.worker.last_block_mined.is_none());
}

#[test]
fn happy_path_first_block() {
    // A fresh tenure on a parent tenure of length three: the block
    // carries exactly the tenure change and the coinbase, links to the
    // parent, and both counters move.
    let worker = begin_tenure_worker();
    let q = begin_tenure_queries(2);
    let it = iteration(vec![attempt(
        mine_input(q, 1901, BuilderOutcome::Built { mempool_txs: vec![] }, 90, 2),
        Some(naka_header(1, 12, 12, 900)),
    )]);
    let run = worker.run_miner(None, &RunInput { stackerdbs_ok: true, iterations: vec![it] });
    assert_eq!(run.outcome, Ok(()));
    assert_eq!(run.emitted.len(), 1);
    let b = &run.emitted[0];
    assert_eq!(b.txs.len(), 2);
    match &b.txs[0].payload {
        TransactionPayload::TenureChange(p) => {
            assert_eq!(p.cause, TenureChangeCause::BlockFound);
            assert_eq!(p.tenure_consensus_hash, ConsensusHash(2));
            assert_eq!(p.prev_tenure_consensus_hash, ConsensusHash(1));
            assert_eq!(p.previous_tenure_end, StacksBlockId(12));
            assert_eq!(p.previous_tenure_blocks, 3);
            assert_eq!(p.pubkey_hash, Hash160(77));
        }
        other => panic!("expected a tenure change, got {other:?}"),
    }
    assert_eq!(b.txs[0].origin_nonce, 5);
    match &b.txs[1].payload {
        TransactionPayload::Coinbase { recipient, vrf_proof } => {
            assert_eq!(*recipient, None);
            assert_eq!(vrf_proof.key_target_height, 100);
            assert_eq!(vrf_proof.sortition_hash, SortitionHash(2));
        }
        other => panic!("expected a coinbase, got {other:?}"),
    }
    assert_eq!(b.txs[1].origin_nonce, 6);
    assert_eq!(b.header.chain_length, 13);
    assert_eq!(b.header.parent_block_id, StacksBlockId(12));
    assert_eq!(b.header.consensus_hash, ConsensusHash(2));
    assert_eq!(b.header.timestamp, 1901);
    assert_eq!(b.header.block_id, StacksBlockId(90));
    assert_eq!(b.header.signer_bitvec_len, 4);
    assert_eq!(
        b.header.signer_signature,
        vec![MessageSignature(101), MessageSignature(102), MessageSignature(103)]
    );
    assert_eq!(run.worker.globals.counters.naka_mined_blocks, 1);
    assert_eq!(run.worker.globals.counters.naka_mined_tenures, 1);
    assert_eq!(run.worker.last_block_mined.as_ref().unwrap(), b);
}

#[test]
fn tip_change_mid_signing_exits_without_broadcast() {
    let worker = begin_tenure_worker();
    let q = begin_tenure_queries(2);
    let mut it = iteration(vec![attempt(
        mine_input(q, 1901, BuilderOutcome::Built { mempool_txs: vec![] }, 90, 2),
        Some(naka_header(1, 12, 12, 900)),
    )]);
    it.signing.run_sign = Err(NakamotoNodeError::BurnchainTipChanged);
    let run = worker.run_miner(None, &RunInput { stackerdbs_ok: true, iterations: vec![it] });
    assert_eq!(run.outcome, Err(NakamotoNodeError::BurnchainTipChanged));
    assert!(run.emitted.is_empty());
    assert_eq!(run.worker.globals.counters.naka_mined_blocks, 0);
    assert_eq!(run.worker.globals.counters.naka_mined_tenures, 0);
}

#[test]
fn stacks_tip_change_mid_signing_exits() {
    let worker = begin_tenure_worker();
    let q = begin_tenure_queries(2);
    let mut it = iteration(vec![attempt(
        mine_input(q, 1901, BuilderOutcome::Built { mempool_txs: vec![] }, 90, 2),
        Some(naka_header(1, 12, 12, 900)),
    )]);
    it.signing.run_sign = Err(NakamotoNodeError::StacksTipChanged);
    let run = worker.run_miner(None, &RunInput { stackerdbs_ok: true, iterations: vec![it] });
    assert_eq!(run.outcome, Err(NakamotoNodeError::StacksTipChanged));
    assert!(run.emitted.is_empty());
}

#[test]
fn other_signing_failure_retries_next_turn() {
    // A transient coordinator failure only starts the next turn; the
    // block of that turn is then emitted.
    let worker = begin_tenure_worker();
    let mut it1 = iteration(vec![attempt(
        mine_input(
            begin_tenure_queries(2),
            1901,
            BuilderOutcome::Built { mempool_txs: vec![] },
            90,
            2,
        ),
        Some(naka_header(1, 12, 12, 900)),
    )]);
    it1.signing.coordinator_setup_ok = false;
    let it2 = iteration(vec![attempt(
        mine_input(
            begin_tenure_queries(2),
            1902,
            BuilderOutcome::Built { mempool_txs: vec![] },
            91,
            2,
        ),
        Some(naka_header(1, 12, 12, 900)),
    )]);
    let run = worker.run_miner(
        None,
        &RunInput { stackerdbs_ok: true, iterations: vec![it1, it2] },
    );
    assert_eq!(run.outcome, Ok(()));
    assert_eq!(run.emitted.len(), 1);
    assert_eq!(run.emitted[0].header.block_id, StacksBlockId(91));
    assert_eq!(run.worker.globals.counters.naka_mined_blocks, 1);
}

#[test]
fn too_fast_block_retries_until_the_clock_moves() {
    // The parent is stamped at second 900 and the gap floor is 1000 ms:
    // an attempt at second 900 aborts softly, one at 901 succeeds.
    let worker = begin_tenure_worker();
    let a1 = attempt(
        mine_input(
            begin_tenure_queries(2),
            900,
            BuilderOutcome::Built { mempool_txs: vec![] },
            90,
            2,
        ),
        Some(naka_header(1, 12, 12, 900)),
    );
    let a2 = attempt(
        mine_input(
            begin_tenure_queries(2),
            901,
            BuilderOutcome::Built { mempool_txs: vec![] },
            90,
            2,
        ),
        Some(naka_header(1, 12, 12, 900)),
    );
    let it = iteration(vec![a1, a2]);
    let run = worker.run_miner(None, &RunInput { stackerdbs_ok: true, iterations: vec![it] });
    assert_eq!(run.outcome, Ok(()));
    assert_eq!(run.emitted.len(), 1);
    assert_eq!(run.emitted[0].header.timestamp, 901);
}

/// Queries for a worker extending its own tenure (consensus hash 2),
/// which already runs from height 11 to height 15: five blocks.
fn extension_queries(tip: StacksHeaderInfo) -> ParentInfoQueries {
    let tenure_start = naka_header(2, 11, 11, 600);
    ParentInfoQueries {
        stacks_tip: Some(StacksTipRef {
            consensus_hash: tip.consensus_hash,
            block_id: tip.index_block_hash,
        }),
        tenure_tip: DbQuery::Found(tip),
        parent_tenure_start: Some(tenure_start),
        parent_tenure_highest: DbQuery::Absent,
        lookup: ParentLookupQueries {
            canonical_burn_tip: snap(9, 52),
            parent_tenure_header: Some(tenure_start),
            highest_in_parent_tenure: DbQuery::Found(tip),
            account_nonce: Some(8),
        },
    }
}

#[test]
fn extension_emits_one_tenure_extend_and_no_coinbase() {
    // Continue-tenure directive into burn view 9, five blocks already in
    // the tenure: the first block carries exactly the tenure change
    // (cause extended, burn view 9, five previous blocks), later blocks
    // carry neither, and each links to the one before.
    let worker = spawn_for(&MinerDirective::ContinueTenure { new_burn_view: ConsensusHash(9) });
    let tip = naka_header(2, 15, 15, 800);
    let mut mi1 = mine_input(
        extension_queries(tip),
        1801,
        BuilderOutcome::Built { mempool_txs: vec![] },
        70,
        9,
    );
    mi1.tenure_length_so_far = Some(5);
    let it1 = iteration(vec![attempt(mi1, Some(tip))]);

    // The next turn builds on the block just emitted.
    let next_tip = StacksHeaderInfo {
        index_block_hash: StacksBlockId(70),
        ..naka_header(2, 16, 16, 1801)
    };
    let mi_next = mine_input(
        extension_queries(next_tip),
        2802,
        BuilderOutcome::Built { mempool_txs: vec![mempool_tx(42)] },
        71,
        9,
    );
    let it_next = iteration(vec![attempt(mi_next, Some(next_tip))]);

    let run = worker.run_miner(
        None,
        &RunInput { stackerdbs_ok: true, iterations: vec![it1, it_next] },
    );
    assert_eq!(run.outcome, Ok(()));
    assert_eq!(run.emitted.len(), 2);

    let b1 = &run.emitted[0];
    assert_eq!(b1.txs.len(), 1);
    match &b1.txs[0].payload {
        TransactionPayload::TenureChange(p) => {
            assert_eq!(p.cause, TenureChangeCause::Extended);
            assert_eq!(p.burn_view_consensus_hash, ConsensusHash(9));
            assert_eq!(p.previous_tenure_blocks, 5);
            assert_eq!(p.previous_tenure_end, StacksBlockId(15));
        }
        other => panic!("expected a tenure change, got {other:?}"),
    }
    assert_eq!(b1.header.chain_length, 16);
    assert_eq!(b1.header.parent_block_id, StacksBlockId(15));

    let b2 = &run.emitted[1];
    assert_eq!(b2.txs.len(), 1);
    assert_eq!(b2.txs[0].payload, TransactionPayload::Mempool(42));
    // Chain linkage: the second block builds on the first.
    assert_eq!(b2.header.parent_block_id, b1.header.block_id);
    assert_eq!(b2.header.chain_length, b1.header.chain_length + 1);

    // One tenure, two blocks.
    assert_eq!(run.worker.globals.counters.naka_mined_blocks, 2);
    assert_eq!(run.worker.globals.counters.naka_mined_tenures, 1);
}

#[test]
fn prior_miner_is_stopped_before_anything_runs() {
    // A prior worker whose join fails: the run ends at once, nothing is
    // mined, and mining stays blocked.
    let worker = begin_tenure_worker();
    let q = begin_tenure_queries(2);
    let it = iteration(vec![attempt(
        mine_input(q, 1901, BuilderOutcome::Built { mempool_txs: vec![] }, 90, 2),
        Some(naka_header(1, 12, 12, 900)),
    )]);
    let run = worker.run_miner(
        Some(PriorMiner { join_outcome: None }),
        &RunInput { stackerdbs_ok: true, iterations: vec![it] },
    );
    assert_eq!(
        run.outcome,
        Err(NakamotoNodeError::MiningFailure(ChainstateError::MinerAborted))
    );
    assert!(run.emitted.is_empty());
    assert!(run.worker.globals.miner_blocked);
    assert_eq!(run.worker.globals.counters.naka_mined_blocks, 0);
}

#[test]
fn prior_miner_result_is_swallowed() {
    // The prior worker exited on a burnchain change: expected; the new
    // worker proceeds and mining is unblocked again.
    let worker = begin_tenure_worker();
    let q = begin_tenure_queries(2);
    let it = iteration(vec![attempt(
        mine_input(q, 1901, BuilderOutcome::Built { mempool_txs: vec![] }, 90, 2),
        Some(naka_header(1, 12, 12, 900)),
    )]);
    let run = worker.run_miner(
        Some(PriorMiner { join_outcome: Some(Err(NakamotoNodeError::BurnchainTipChanged)) }),
        &RunInput { stackerdbs_ok: true, iterations: vec![it] },
    );
    assert_eq!(run.outcome, Ok(()));
    assert_eq!(run.emitted.len(), 1);
    assert!(!run.worker.globals.miner_blocked);
}

#[test]
fn stackerdb_connect_failure_is_fatal() {
    let worker = begin_tenure_worker();
    let run = worker.run_miner(None, &RunInput { stackerdbs_ok: false, iterations: vec![] });
    assert_eq!(
        run.outcome,
        Err(NakamotoNodeError::MiningFailure(ChainstateError::NetError))
    );
}

#[test]
fn burn_tip_flip_during_interim_wait_exits() {
    // The tenure's first block is emitted; during the interim wait the
    // burnchain tip flips to a new consensus hash: the worker exits with
    // a burnchain-tip change on that poll.
    let worker = begin_tenure_worker();
    let q = begin_tenure_queries(2);
    let mut it = iteration(vec![attempt(
        mine_input(q, 1901, BuilderOutcome::Built { mempool_txs: vec![] }, 90, 2),
        Some(naka_header(1, 12, 12, 900)),
    )]);
    it.interim_polls = vec![snap(2, 51), snap(6, 52)];
    let run = worker.run_miner(None, &RunInput { stackerdbs_ok: true, iterations: vec![it] });
    assert_eq!(run.outcome, Err(NakamotoNodeError::BurnchainTipChanged));
    // The block before the wait still made it out.
    assert_eq!(run.emitted.len(), 1);
    assert_eq!(run.worker.globals.counters.missed_tenures, 1);
}

#[test]
fn fatal_mining_failure_raises_initiative() {
    // The builder fails outright: the worker asks the relayer to
    // re-decide and exits as an aborted attempt.
    let worker = begin_tenure_worker();
    let q = begin_tenure_queries(2);
    let it = iteration(vec![attempt(
        mine_input(q, 1901, BuilderOutcome::Failed, 90, 2),
        Some(naka_header(1, 12, 12, 900)),
    )]);
    let run = worker.run_miner(None, &RunInput { stackerdbs_ok: true, iterations: vec![it] });
    assert_eq!(
        run.outcome,
        Err(NakamotoNodeError::MiningFailure(ChainstateError::MinerAborted))
    );
    assert!(run.worker.globals.initiative_raised);
}

#[test]
fn stale_burn_view_stops_assembly() {
    // The sortition store answers with a tip under another consensus
    // hash: assembly stops and the tenure counts as missed.
    let worker = begin_tenure_worker();
    let q = begin_tenure_queries(2);
    let mut mi = mine_input(q, 1901, BuilderOutcome::Built { mempool_txs: vec![] }, 90, 2);
    mi.burn_tip_at_start = snap(6, 52);
    let it = iteration(vec![attempt(mi, Some(naka_header(1, 12, 12, 900)))]);
    let run = worker.run_miner(None, &RunInput { stackerdbs_ok: true, iterations: vec![it] });
    assert_eq!(
        run.outcome,
        Err(NakamotoNodeError::MiningFailure(ChainstateError::MinerAborted))
    );
    assert_eq!(run.worker.globals.counters.missed_tenures, 1);
    assert!(run.emitted.is_empty());
}

#[test]
fn missing_epoch_is_fatal() {
    let mut worker = begin_tenure_worker();
    let mut mi = mine_input(
        begin_tenure_queries(2),
        1901,
        BuilderOutcome::Built { mempool_txs: vec![] },
        90,
        2,
    );
    mi.target_epoch = None;
    assert_eq!(
        worker.mine_block(&mi),
        Err(NakamotoNodeError::SnapshotNotFoundForChainTip)
    );
}

#[test]
fn extension_without_tenure_length_fails_as_db_error() {
    let mut worker =
        spawn_for(&MinerDirective::ContinueTenure { new_burn_view: ConsensusHash(9) });
    let tip = naka_header(2, 15, 15, 800);
    let mi = mine_input(
        extension_queries(tip),
        1801,
        BuilderOutcome::Built { mempool_txs: vec![] },
        70,
        9,
    );
    // The tenure-length query failed: the extension cannot be recorded.
    assert_eq!(
        worker.mine_block(&mi),
        Err(NakamotoNodeError::MiningFailure(ChainstateError::DbError))
    );
}

#[test]
fn mock_mining_preflight_retries_on_missing_parent() {
    // In mock mode a parent that is not processed yet only postpones the
    // attempt; the next attempt mines.
    let mut cfg = config();
    cfg.node.mock_mining = true;
    let worker = BlockMinerThread::new(
        cfg,
        globals(),
        Keychain { key_id: 7, nakamoto_pkh: Hash160(77) },
        RegisteredKey { target_block_height: 100, vrf_public_key: 9 },
        snap(2, 51),
        snap(2, 51),
        StacksBlockId(10),
        MinerReason::BlockFound,
    );
    let mut missing = begin_tenure_queries(2);
    missing.parent_tenure_start = None;
    missing.lookup.parent_tenure_header = None;
    let mut a1 = attempt(
        mine_input(
            begin_tenure_queries(2),
            1901,
            BuilderOutcome::Built { mempool_txs: vec![] },
            90,
            2,
        ),
        Some(naka_header(1, 12, 12, 900)),
    );
    a1.preflight_parent = missing;
    let a2 = attempt(
        mine_input(
            begin_tenure_queries(2),
            1902,
            BuilderOutcome::Built { mempool_txs: vec![] },
            91,
            2,
        ),
        Some(naka_header(1, 12, 12, 900)),
    );
    let mut it = iteration(vec![a1, a2]);
    // Mock mining skips the signer quorum.
    it.signing.run_sign = Ok(vec![]);
    let run = worker.run_miner(None, &RunInput { stackerdbs_ok: true, iterations: vec![it] });
    assert_eq!(run.outcome, Ok(()));
    assert_eq!(run.emitted.len(), 1);
    assert_eq!(run.emitted[0].header.block_id, StacksBlockId(91));
    assert!(run.emitted[0].header.signer_signature.is_empty());
}

#[test]
fn first_block_without_parent_tenure_info_fails() {
    // A fresh worker whose chosen parent does not close the parent
    // tenure cannot open one: the first block has nowhere to start.
    let mut worker = begin_tenure_worker();
    let mut q = begin_tenure_queries(2);
    // The canonical tip already sits in an unrelated tenure.
    q.tenure_tip = DbQuery::Found(naka_header(4, 20, 20, 900));
    let mi = mine_input(q, 1901, BuilderOutcome::Built { mempool_txs: vec![] }, 90, 2);
    assert_eq!(worker.mine_block(&mi), Err(NakamotoNodeError::ParentNotFound));
}
