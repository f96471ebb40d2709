//! The controller's guarantees, stated and proved over the transition
//! spec functions: stop-before-start, the tenure-opening discipline of
//! emitted blocks, chain linkage, the timestamp gap, signature
//! provenance, cache stability, and the tip-change exit.

use vstd::prelude::*;
use crate::types::{BlockSnapshot, StacksHeaderInfo};
use crate::tx::{StacksTransaction, TenureChangeCause};
use crate::block::{
    count_coinbases, count_tenure_changes, header_of_block, timestamp_gap_ok, BlockModel,
};
use crate::errors::{ChainstateError, NakamotoNodeError};
use crate::env::{AttemptInput, IterationInput, MineBlockInput, PriorMiner, RunInput, SigningInput};
use crate::globals::Globals;
use crate::miner::{BlockMinerThread, MinerReason, WorkerModel};
use crate::assembly::{choose_parent_header_spec, mine_block_spec, tenure_txs_seq};
use crate::run::{
    attempt_loop_spec, bump_mined_spec, interim_spec, iteration_spec, preflight_spec,
    run_loop_spec, run_spec, set_last_mined_spec, with_signatures, AttemptDecisionModel,
    PreflightDecision,
};

verus! {

/// The block carries no tenure change and no coinbase.
pub open spec fn no_tenure_txs(b: BlockModel) -> bool {
    &&& count_tenure_changes(b.txs) == 0
    &&& count_coinbases(b.txs) == 0
}

/// The block opens a tenure as the worker's reason demands: under a
/// fresh tenure, exactly one tenure change (cause block-found) leading
/// and exactly one coinbase right after it; under an extension, exactly
/// one tenure change (cause extended, naming the directive's burn view)
/// leading and no coinbase at all.
pub open spec fn opens_tenure(b: BlockModel, reason: MinerReason) -> bool {
    match reason {
        MinerReason::BlockFound => {
            &&& count_tenure_changes(b.txs) == 1
            &&& count_coinbases(b.txs) == 1
            &&& b.txs.len() >= 2
            &&& b.txs[0].payload matches crate::tx::TransactionPayload::TenureChange(p)
                && p.cause == TenureChangeCause::BlockFound
            &&& b.txs[1].is_coinbase()
        },
        MinerReason::Extended { burn_view_consensus_hash } => {
            &&& count_tenure_changes(b.txs) == 1
            &&& count_coinbases(b.txs) == 0
            &&& b.txs.len() >= 1
            &&& b.txs[0].payload matches crate::tx::TransactionPayload::TenureChange(p)
                && p.cause == TenureChangeCause::Extended && p.burn_view_consensus_hash
                == burn_view_consensus_hash
        },
    }
}

/// The block links to the parent header its assembly step chose: its
/// parent id is that header's index hash and it sits one link higher.
pub open spec fn links_to_chosen_parent(b: BlockModel, input: MineBlockInput) -> bool {
    choose_parent_header_spec(input.parent) matches Ok(ph) && b.header.parent_block_id
        == ph.index_block_hash && b.header.chain_length == ph.stacks_block_height + 1
}

/// The fields of a worker that no step of the loop ever writes.
pub open spec fn same_identity(a: WorkerModel, b: WorkerModel) -> bool {
    &&& a.config == b.config
    &&& a.keychain == b.keychain
    &&& a.reason == b.reason
    &&& a.burn_election_block == b.burn_election_block
    &&& a.burn_block == b.burn_block
    &&& a.registered_key == b.registered_key
    &&& a.parent_tenure_id == b.parent_tenure_id
}

/// Counting distributes over concatenation.
pub proof fn lemma_count_concat(a: Seq<StacksTransaction>, b: Seq<StacksTransaction>)
    ensures
        count_tenure_changes(a + b) == count_tenure_changes(a) + count_tenure_changes(b),
        count_coinbases(a + b) == count_coinbases(a) + count_coinbases(b),
    decreases b.len(),
{
    if b.len() == 0 {
        assert(a + b =~= a);
    } else {
        assert((a + b).drop_last() =~= a + b.drop_last());
        lemma_count_concat(a, b.drop_last());
        assert((a + b).last() == b.last());
    }
}

/// A selection of mempool transactions carries no tenure change and no
/// coinbase.
pub proof fn lemma_count_mempool(txs: Seq<StacksTransaction>)
    requires
        forall|i: int| 0 <= i < txs.len() ==> (#[trigger] txs[i]).payload is Mempool,
    ensures
        count_tenure_changes(txs) == 0,
        count_coinbases(txs) == 0,
    decreases txs.len(),
{
    if txs.len() > 0 {
        lemma_count_mempool(txs.drop_last());
    }
}

/// Counting a one-transaction sequence.
pub proof fn lemma_count_singleton(t: StacksTransaction)
    ensures
        count_tenure_changes(seq![t]) == if t.is_tenure_change() {
            1nat
        } else {
            0nat
        },
        count_coinbases(seq![t]) == if t.is_coinbase() {
            1nat
        } else {
            0nat
        },
{
    let s = seq![t];
    assert(s.len() == 1);
    assert(s.last() == t);
    assert(s.drop_last() =~= Seq::<StacksTransaction>::empty());
    assert(count_tenure_changes(s.drop_last()) == 0);
    assert(count_coinbases(s.drop_last()) == 0);
}

/// Assembling a block never touches the worker's identity, its mined
/// block, or a reward set already cached.
pub proof fn lemma_mine_block_frame(s: WorkerModel, input: MineBlockInput)
    ensures
        ({
            let (s2, _) = mine_block_spec(s, input);
            &&& same_identity(s2, s)
            &&& s2.last_block_mined == s.last_block_mined
            &&& (s.signer_set_cache matches Some(v) ==> s2.signer_set_cache == Some(v))
        }),
{
    reveal(mine_block_spec);
}

/// A block that assembly hands out links to the chosen parent, keeps the
/// configured distance from its timestamp, sits in the elected tenure,
/// and opens the tenure exactly when the worker has not yet mined.
pub proof fn lemma_mined_block_shape(s: WorkerModel, input: MineBlockInput)
    requires
        input.wf(),
        mine_block_spec(s, input).1 is Ok,
    ensures
        ({
            let b = mine_block_spec(s, input).1->Ok_0;
            &&& choose_parent_header_spec(input.parent) matches Ok(ph) && {
                &&& b.header.parent_block_id == ph.index_block_hash
                &&& b.header.chain_length == ph.stacks_block_height + 1
                &&& b.header.consensus_hash == s.burn_election_block.consensus_hash
                &&& b.header.timestamp == input.now_secs
                &&& timestamp_gap_ok(
                    b.header.timestamp,
                    ph.spec_parent_timestamp(),
                    s.config.miner.min_time_between_blocks_ms,
                )
            }
            &&& (s.last_block_mined is Some ==> no_tenure_txs(b))
            &&& (s.last_block_mined is None ==> opens_tenure(b, s.reason))
        }),
{
    reveal(mine_block_spec);
    let pi_res = crate::assembly::load_block_parent_info_spec(
        crate::miner::check_tip_spec(
            crate::signing::load_signer_set_spec(s, input.reward_set_load).0,
            input.burn_tip_at_start,
        ).0,
        input.parent,
    ).1;
    let pi = pi_res->Ok_0;
    let b = mine_block_spec(s, input).1->Ok_0;
    let mempool_txs = input.builder->Built_mempool_txs;
    let tsi = crate::assembly::tenure_start_info_spec(
        crate::assembly::load_block_parent_info_spec(
            crate::miner::check_tip_spec(
                crate::signing::load_signer_set_spec(s, input.reward_set_load).0,
                input.burn_tip_at_start,
            ).0,
            input.parent,
        ).0,
        pi,
        crate::miner::vrf_proof_spec(s.config, s.registered_key, s.burn_block),
        input.target_epoch->0,
        input.tenure_length_so_far,
    )->Ok_0;
    assert(b.txs == tenure_txs_seq(tsi) + mempool_txs@);
    lemma_count_concat(tenure_txs_seq(tsi), mempool_txs@);
    lemma_count_mempool(mempool_txs@);
    match tsi.tenure_change_tx {
        Option::Some(tc) => {
            match tsi.coinbase_tx {
                Option::Some(cb) => {
                    assert(tenure_txs_seq(tsi) =~= seq![tc] + seq![cb]);
                    lemma_count_concat(seq![tc], seq![cb]);
                    lemma_count_singleton(tc);
                    lemma_count_singleton(cb);
                    assert(b.txs[0] == tc);
                    assert(b.txs[1] == cb);
                },
                Option::None => {
                    assert(tenure_txs_seq(tsi) =~= seq![tc]);
                    lemma_count_singleton(tc);
                    assert(b.txs[0] == tc);
                },
            }
        },
        Option::None => {
            match tsi.coinbase_tx {
                Option::Some(cb) => {
                    assert(tenure_txs_seq(tsi) =~= seq![cb]);
                    lemma_count_singleton(cb);
                },
                Option::None => {
                    assert(tenure_txs_seq(tsi) =~= Seq::<StacksTransaction>::empty());
                },
            }
        },
    }
}


/// Gathering signatures never touches the worker's identity, its mined
/// block, or a reward set already cached.
pub proof fn lemma_gather_frame(s: WorkerModel, input: SigningInput)
    ensures
        ({
            let (s2, _) = BlockMinerThread::gather_signatures_spec(s, input);
            &&& same_identity(s2, s)
            &&& s2.last_block_mined == s.last_block_mined
            &&& (s.signer_set_cache matches Some(v) ==> s2.signer_set_cache == Some(v))
        }),
{
}

/// The interim wait touches only the counters.
pub proof fn lemma_interim_frame(s: WorkerModel, polls: Seq<BlockSnapshot>)
    ensures
        ({
            let (s1, _) = interim_spec(s, polls);
            &&& same_identity(s1, s)
            &&& s1.last_block_mined == s.last_block_mined
            &&& s1.signer_set_cache == s.signer_set_cache
        }),
    decreases polls.len(),
{
    if polls.len() > 0 {
        let (s1, c) = crate::miner::check_tip_spec(s, polls[0]);
        if c is Ok {
            lemma_interim_frame(s1, polls.drop_first());
        }
    }
}

/// Tip-change exit: the interim wait ends with `BurnchainTipChanged`
/// exactly when some poll shows the burnchain tip under a consensus hash
/// other than the worker's; the first such poll already ends it.
pub proof fn lemma_tip_change_exits(s: WorkerModel, polls: Seq<BlockSnapshot>)
    ensures
        ({
            let (_, r) = interim_spec(s, polls);
            &&& (r is Err <==> exists|i: int|
                0 <= i < polls.len() && (#[trigger] polls[i]).consensus_hash
                    != s.burn_block.consensus_hash)
            &&& (r is Err ==> r == Err::<(), _>(NakamotoNodeError::BurnchainTipChanged))
        }),
    decreases polls.len(),
{
    if polls.len() > 0 {
        let (s1, c) = crate::miner::check_tip_spec(s, polls[0]);
        if polls[0].consensus_hash != s.burn_block.consensus_hash {
            assert(polls[0].consensus_hash != s.burn_block.consensus_hash);
        } else {
            lemma_tip_change_exits(s1, polls.drop_first());
            let (_, r) = interim_spec(s, polls);
            if r is Err {
                let i2 = choose|i: int|
                    0 <= i < polls.drop_first().len() && (#[trigger] polls.drop_first()[i]).consensus_hash
                        != s1.burn_block.consensus_hash;
                assert(polls[i2 + 1].consensus_hash != s.burn_block.consensus_hash);
            }
            if exists|i: int|
                0 <= i < polls.len() && (#[trigger] polls[i]).consensus_hash
                    != s.burn_block.consensus_hash {
                let i0 = choose|i: int|
                    0 <= i < polls.len() && (#[trigger] polls[i]).consensus_hash
                        != s.burn_block.consensus_hash;
                assert(polls.drop_first()[i0 - 1] == polls[i0]);
                assert(r is Err);
            }
        }
    }
}

/// Stop before start: a worker given a prior miner whose join fails
/// never reaches block assembly — the run ends at once as an aborted
/// mining attempt, with nothing emitted and mining still blocked.
pub proof fn lemma_stop_before_start(s: WorkerModel, prior: PriorMiner, input: RunInput)
    requires
        prior.join_outcome is None,
    ensures
        ({
            let m = run_spec(s, Some(prior), input);
            &&& m.outcome == Err::<(), _>(
                NakamotoNodeError::MiningFailure(ChainstateError::MinerAborted),
            )
            &&& m.emitted.len() == 0
            &&& m.worker == (WorkerModel {
                globals: Globals { miner_blocked: true, ..s.globals },
                ..s
            })
        }),
{
}

/// Chain linkage: a block assembled in a step whose parent query answers
/// with the previously emitted block links to that block — its parent id
/// is the previous block's id and its chain length is one more.
pub proof fn lemma_chain_linkage(s: WorkerModel, input: MineBlockInput, prev: BlockModel)
    requires
        input.wf(),
        mine_block_spec(s, input).1 is Ok,
        choose_parent_header_spec(input.parent) == Ok::<StacksHeaderInfo, NakamotoNodeError>(
            header_of_block(prev),
        ),
    ensures
        ({
            let b = mine_block_spec(s, input).1->Ok_0;
            &&& b.header.parent_block_id == prev.header.block_id
            &&& b.header.chain_length == prev.header.chain_length + 1
        }),
{
    lemma_mined_block_shape(s, input);
}

/// Chain linkage for successive emitted blocks: a block whose assembly
/// step chose as parent the stored header of the previously emitted
/// block links to it — its parent id is the previous block's id and its
/// chain length is one more.
pub proof fn lemma_successive_blocks_link(
    b_prev: BlockModel,
    b_next: BlockModel,
    input: MineBlockInput,
)
    requires
        links_to_chosen_parent(b_next, input),
        choose_parent_header_spec(input.parent) == Ok::<StacksHeaderInfo, NakamotoNodeError>(
            header_of_block(b_prev),
        ),
    ensures
        b_next.header.parent_block_id == b_prev.header.block_id,
        b_next.header.chain_length == b_prev.header.chain_length + 1,
{
}

/// The inner mining loop never touches the worker's identity, its mined
/// block, or a cached reward set, and a block it hands out opens the
/// tenure exactly when the worker has not yet mined.
pub proof fn lemma_attempt_loop_shape(s: WorkerModel, attempts: Seq<AttemptInput>)
    requires
        forall|i: int| 0 <= i < attempts.len() ==> (#[trigger] attempts[i]).wf(),
    ensures
        ({
            let (s2, dec) = attempt_loop_spec(s, attempts);
            &&& same_identity(s2, s)
            &&& s2.last_block_mined == s.last_block_mined
            &&& (s.signer_set_cache matches Some(v) ==> s2.signer_set_cache == Some(v))
            &&& (dec matches AttemptDecisionModel::Mined(b) ==> {
                &&& (s.last_block_mined is Some ==> no_tenure_txs(b))
                &&& (s.last_block_mined is None ==> opens_tenure(b, s.reason))
                &&& exists|k: int|
                    0 <= k < attempts.len() && links_to_chosen_parent(
                        b,
                        (#[trigger] attempts[k]).mine,
                    )
            })
        }),
    decreases attempts.len(),
{
    if attempts.len() > 0 {
        let a = attempts[0];
        let (s1, pf) = preflight_spec(s, a);
        assert forall|i: int| 0 <= i < attempts.drop_first().len() implies (#[trigger] attempts.drop_first()[i]).wf() by {
            assert(attempts.drop_first()[i] == attempts[i + 1]);
        }
        match pf {
            PreflightDecision::Fatal(_) => {},
            PreflightDecision::Retry => {
                lemma_attempt_loop_shape(s1, attempts.drop_first());
                lemma_attempt_witness_shift(s, attempts, s1);
            },
            PreflightDecision::Proceed => {
                let (s2, mr) = mine_block_spec(s1, a.mine);
                lemma_mine_block_frame(s1, a.mine);
                match mr {
                    Result::Ok(b) => {
                        match a.timestamp_parent {
                            Option::None => {},
                            Option::Some(h) => {
                                if timestamp_gap_ok(
                                    b.header.timestamp,
                                    h.spec_parent_timestamp(),
                                    s2.config.miner.min_time_between_blocks_ms,
                                ) {
                                    lemma_mined_block_shape(s1, a.mine);
                                    assert(links_to_chosen_parent(b, attempts[0].mine));
                                } else {
                                    lemma_attempt_loop_shape(s2, attempts.drop_first());
                                    lemma_attempt_witness_shift(s, attempts, s2);
                                }
                            },
                        }
                    },
                    Result::Err(e) => {
                        if e == NakamotoNodeError::MiningFailure(ChainstateError::MinerAborted) {
                            lemma_attempt_loop_shape(s2, attempts.drop_first());
                            lemma_attempt_witness_shift(s, attempts, s2);
                        }
                    },
                }
            },
        }
    }
}

/// A linkage witness found among the later attempts is a witness among
/// all of them, one place further in.
proof fn lemma_attempt_witness_shift(s: WorkerModel, attempts: Seq<AttemptInput>, s_mid: WorkerModel)
    requires
        attempts.len() > 0,
        attempt_loop_spec(s_mid, attempts.drop_first()).1 matches AttemptDecisionModel::Mined(b)
            ==> exists|k: int|
            0 <= k < attempts.drop_first().len() && links_to_chosen_parent(
                b,
                (#[trigger] attempts.drop_first()[k]).mine,
            ),
    ensures
        attempt_loop_spec(s_mid, attempts.drop_first()).1 matches AttemptDecisionModel::Mined(b)
            ==> exists|k: int|
            0 <= k < attempts.len() && links_to_chosen_parent(b, (#[trigger] attempts[k]).mine),
{
    match attempt_loop_spec(s_mid, attempts.drop_first()).1 {
        AttemptDecisionModel::Mined(b) => {
            let k0 = choose|k: int|
                0 <= k < attempts.drop_first().len() && links_to_chosen_parent(
                    b,
                    (#[trigger] attempts.drop_first()[k]).mine,
                );
            assert(attempts.drop_first()[k0] == attempts[k0 + 1]);
            assert(links_to_chosen_parent(b, attempts[k0 + 1].mine));
        },
        _ => {},
    }
}

/// The block's signature vector is exactly what this turn's coordinator
/// returned.
pub open spec fn sig_from_turn(it: IterationInput, b: BlockModel) -> bool {
    it.signing.run_sign matches Ok(v) && b.header.signer_signature == v@
}

/// One turn of the outer loop emits at most one block; an emitted block
/// becomes the worker's remembered block, opens the tenure exactly when
/// the worker had not yet mined, and — outside mock mode — carries
/// exactly the signature vector the coordinator returned this turn.
pub proof fn lemma_iteration_shape(s: WorkerModel, it: IterationInput)
    requires
        it.wf(),
    ensures
        ({
            let (s1, em, stop) = iteration_spec(s, it);
            &&& same_identity(s1, s)
            &&& (s.signer_set_cache matches Some(v) ==> s1.signer_set_cache == Some(v))
            &&& em.len() <= 1
            &&& (em.len() == 0 ==> s1.last_block_mined == s.last_block_mined)
            &&& (em.len() == 1 ==> {
                &&& s1.last_block_mined == Some(em[0])
                &&& (s.last_block_mined is Some ==> no_tenure_txs(em[0]))
                &&& (s.last_block_mined is None ==> opens_tenure(em[0], s.reason))
                &&& (!s.config.node.mock_mining ==> sig_from_turn(it, em[0]))
                &&& exists|k: int|
                    0 <= k < it.attempts@.len() && links_to_chosen_parent(
                        em[0],
                        (#[trigger] it.attempts@[k]).mine,
                    )
            })
        }),
{
    let (sa, dec) = attempt_loop_spec(s, it.attempts@);
    lemma_attempt_loop_shape(s, it.attempts@);
    match dec {
        AttemptDecisionModel::Exit(_) => {},
        AttemptDecisionModel::Exhausted => {},
        AttemptDecisionModel::NoTransactions => {
            lemma_interim_frame(sa, it.interim_polls@);
        },
        AttemptDecisionModel::Mined(b) => {
            let (sb, g) = BlockMinerThread::gather_signatures_spec(sa, it.signing);
            lemma_gather_frame(sa, it.signing);
            match g {
                Result::Err(_) => {},
                Result::Ok((v, sigs)) => {
                    let signed = with_signatures(b, sigs);
                    assert(signed.txs == b.txs);
                    assert(count_tenure_changes(signed.txs) == count_tenure_changes(b.txs));
                    assert(count_coinbases(signed.txs) == count_coinbases(b.txs));
                    let k0 = choose|k: int|
                        0 <= k < it.attempts@.len() && links_to_chosen_parent(
                            b,
                            (#[trigger] it.attempts@[k]).mine,
                        );
                    assert(links_to_chosen_parent(signed, it.attempts@[k0].mine));
                    if crate::signing::broadcast_err_spec(sb, it.broadcast) is Some {
                    } else {
                        let s3 = set_last_mined_spec(bump_mined_spec(sb), signed);
                        lemma_interim_frame(s3, it.interim_polls@);
                    }
                },
            }
        },
    }
}

/// The tenure-opening discipline of a whole run, and the stability of
/// the reward-set cache across it: starting fresh, a worker spawned for
/// a new tenure emits the tenure change (cause block-found) and the
/// coinbase exactly once, both in its first emitted block; one spawned
/// for an extension emits the tenure change (cause extended, naming the
/// directive's burn view) exactly once, in its first emitted block, and
/// never a coinbase; every later block carries neither. Outside mock
/// mode every emitted block carries exactly a signature vector the
/// coordinator returned in some turn, and a reward set once cached is
/// never replaced.
pub proof fn lemma_run_emissions(s: WorkerModel, iters: Seq<IterationInput>)
    requires
        forall|i: int| 0 <= i < iters.len() ==> (#[trigger] iters[i]).wf(),
    ensures
        ({
            let m = run_loop_spec(s, iters);
            &&& same_identity(m.worker, s)
            &&& (s.signer_set_cache matches Some(v) ==> m.worker.signer_set_cache == Some(v))
            &&& (m.emitted.len() == 0 ==> m.worker.last_block_mined == s.last_block_mined)
            &&& (m.emitted.len() > 0 ==> m.worker.last_block_mined == Some(m.emitted.last()))
            &&& (s.last_block_mined is Some ==> forall|i: int|
                0 <= i < m.emitted.len() ==> no_tenure_txs(#[trigger] m.emitted[i]))
            &&& (s.last_block_mined is None ==> forall|i: int|
                1 <= i < m.emitted.len() ==> no_tenure_txs(#[trigger] m.emitted[i]))
            &&& (s.last_block_mined is None && m.emitted.len() > 0 ==> opens_tenure(
                m.emitted[0],
                s.reason,
            ))
            &&& (!s.config.node.mock_mining ==> forall|i: int|
                0 <= i < m.emitted.len() ==> exists|j: int|
                    0 <= j < iters.len() && sig_from_turn(iters[j], #[trigger] m.emitted[i]))
            &&& forall|i: int| 0 <= i < m.emitted.len() ==> exists|j: int, k: int|
                0 <= j < iters.len() && 0 <= k < iters[j].attempts@.len()
                    && links_to_chosen_parent(
                    #[trigger] m.emitted[i],
                    iters[j].attempts@[k].mine,
                )
        }),
    decreases iters.len(),
{
    if iters.len() > 0 {
        let it = iters[0];
        assert(it.wf());
        lemma_iteration_shape(s, it);
        let (s1, em, stop) = iteration_spec(s, it);
        let m = run_loop_spec(s, iters);
        match stop {
            Option::Some(_) => {
                if em.len() == 1 && !s.config.node.mock_mining {
                    assert forall|i: int| 0 <= i < m.emitted.len() implies exists|j: int|
                        0 <= j < iters.len() && sig_from_turn(iters[j], #[trigger] m.emitted[i]) by {
                        assert(sig_from_turn(iters[0], m.emitted[i]));
                    }
                }
                if em.len() == 1 {
                    assert forall|i: int| 0 <= i < m.emitted.len() implies exists|j: int, k: int|
                        0 <= j < iters.len() && 0 <= k < iters[j].attempts@.len()
                            && links_to_chosen_parent(
                            #[trigger] m.emitted[i],
                            iters[j].attempts@[k].mine,
                        ) by {
                        let k0 = choose|k: int|
                            0 <= k < it.attempts@.len() && links_to_chosen_parent(
                                em[0],
                                (#[trigger] it.attempts@[k]).mine,
                            );
                        assert(0 <= 0 < iters.len() && 0 <= k0 < iters[0].attempts@.len()
                            && links_to_chosen_parent(m.emitted[i], iters[0].attempts@[k0].mine));
                    }
                }
            },
            Option::None => {
                assert forall|i: int| 0 <= i < iters.drop_first().len() implies (
                #[trigger] iters.drop_first()[i]).wf() by {
                    assert(iters.drop_first()[i] == iters[i + 1]);
                }
                lemma_run_emissions(s1, iters.drop_first());
                let rest = run_loop_spec(s1, iters.drop_first());
                assert(m.emitted == em + rest.emitted);
                if em.len() == 0 {
                    assert(m.emitted =~= rest.emitted);
                    assert(s1.last_block_mined == s.last_block_mined);
                    assert forall|i: int| 0 <= i < m.emitted.len() implies exists|j: int, k: int|
                        0 <= j < iters.len() && 0 <= k < iters[j].attempts@.len()
                            && links_to_chosen_parent(
                            #[trigger] m.emitted[i],
                            iters[j].attempts@[k].mine,
                        ) by {
                        assert(rest.emitted[i] == m.emitted[i]);
                        let (j2, k2) = choose|j: int, k: int|
                            0 <= j < iters.drop_first().len() && 0 <= k
                                < iters.drop_first()[j].attempts@.len() && links_to_chosen_parent(
                                #[trigger] rest.emitted[i],
                                iters.drop_first()[j].attempts@[k].mine,
                            );
                        assert(iters.drop_first()[j2] == iters[j2 + 1]);
                        assert(0 <= j2 + 1 < iters.len() && 0 <= k2 < iters[j2
                            + 1].attempts@.len() && links_to_chosen_parent(
                            m.emitted[i],
                            iters[j2 + 1].attempts@[k2].mine,
                        ));
                    }
                    if !s.config.node.mock_mining {
                        assert forall|i: int| 0 <= i < m.emitted.len() implies exists|j: int|
                            0 <= j < iters.len() && sig_from_turn(iters[j], #[trigger] m.emitted[i]) by {
                            assert(rest.emitted[i] == m.emitted[i]);
                            let j2 = choose|j: int|
                                0 <= j < iters.drop_first().len() && sig_from_turn(
                                    #[trigger] iters.drop_first()[j],
                                    rest.emitted[i],
                                );
                            assert(iters.drop_first()[j2] == iters[j2 + 1]);
                            assert(sig_from_turn(iters[j2 + 1], m.emitted[i]));
                        }
                    }
                } else {
                    assert(em.len() == 1);
                    assert(m.emitted[0] == em[0]);
                    assert(s1.last_block_mined == Some(em[0]));
                    assert forall|i: int| 1 <= i < m.emitted.len() implies no_tenure_txs(
                        #[trigger] m.emitted[i],
                    ) by {
                        assert(m.emitted[i] == rest.emitted[i - 1]);
                    }
                    if rest.emitted.len() == 0 {
                        assert(m.emitted =~= em);
                        assert(m.emitted.last() == em[0]);
                    } else {
                        assert(m.emitted.last() == rest.emitted.last());
                    }
                    assert forall|i: int| 0 <= i < m.emitted.len() implies exists|j: int, k: int|
                        0 <= j < iters.len() && 0 <= k < iters[j].attempts@.len()
                            && links_to_chosen_parent(
                            #[trigger] m.emitted[i],
                            iters[j].attempts@[k].mine,
                        ) by {
                        if i == 0 {
                            let k0 = choose|k: int|
                                0 <= k < it.attempts@.len() && links_to_chosen_parent(
                                    em[0],
                                    (#[trigger] it.attempts@[k]).mine,
                                );
                            assert(0 <= 0 < iters.len() && 0 <= k0 < iters[0].attempts@.len()
                                && links_to_chosen_parent(
                                m.emitted[i],
                                iters[0].attempts@[k0].mine,
                            ));
                        } else {
                            assert(m.emitted[i] == rest.emitted[i - 1]);
                            let (j2, k2) = choose|j: int, k: int|
                                0 <= j < iters.drop_first().len() && 0 <= k
                                    < iters.drop_first()[j].attempts@.len()
                                    && links_to_chosen_parent(
                                    #[trigger] rest.emitted[i - 1],
                                    iters.drop_first()[j].attempts@[k].mine,
                                );
                            assert(iters.drop_first()[j2] == iters[j2 + 1]);
                            assert(0 <= j2 + 1 < iters.len() && 0 <= k2 < iters[j2
                                + 1].attempts@.len() && links_to_chosen_parent(
                                m.emitted[i],
                                iters[j2 + 1].attempts@[k2].mine,
                            ));
                        }
                    }
                    if !s.config.node.mock_mining {
                        assert forall|i: int| 0 <= i < m.emitted.len() implies exists|j: int|
                            0 <= j < iters.len() && sig_from_turn(iters[j], #[trigger] m.emitted[i]) by {
                            if i == 0 {
                                assert(sig_from_turn(iters[0], m.emitted[0]));
                            } else {
                                assert(m.emitted[i] == rest.emitted[i - 1]);
                                let j2 = choose|j: int|
                                    0 <= j < iters.drop_first().len() && sig_from_turn(
                                        #[trigger] iters.drop_first()[j],
                                        rest.emitted[i - 1],
                                    );
                                assert(iters.drop_first()[j2] == iters[j2 + 1]);
                                assert(sig_from_turn(iters[j2 + 1], m.emitted[i]));
                            }
                        }
                    }
                }
            },
        }
    }
}

} // verus!
