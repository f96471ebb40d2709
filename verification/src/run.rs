//! The worker's life: stop the prior worker, then loop — assemble,
//! gather signatures, broadcast, wait — until the environment moves or
//! the driver stops supplying turns.

use vstd::prelude::*;
use crate::types::{BlockSnapshot, MessageSignature};
use crate::tx::StacksTransaction;
use crate::block::{timestamp_gap_ok, BlockModel, HeaderModel, NakamotoBlock, NakamotoBlockHeader};
use crate::errors::{ChainstateError, NakamotoNodeError};
use crate::env::{AttemptInput, IterationInput, PriorMiner, RunInput};
use crate::globals::{sat_inc, Counters, Globals};
use crate::miner::{check_tip_spec, BlockMinerThread, WorkerModel};
use crate::assembly::{load_block_parent_info_spec, mine_block_spec};
use crate::signing::{broadcast_err_spec, duplicate_signatures};

verus! {

/// Copy a transaction vector.
pub(crate) fn duplicate_txs(v: &Vec<StacksTransaction>) -> (r: Vec<StacksTransaction>)
    ensures
        r@ == v@,
{
    let mut out: Vec<StacksTransaction> = Vec::new();
    let n = v.len();
    let mut i: usize = 0;
    while i < n
        invariant
            i <= n,
            n == v@.len(),
            out@ == v@.subrange(0, i as int),
        decreases n - i,
    {
        out.push(v[i]);
        proof {
            assert(out@ =~= v@.subrange(0, i + 1));
        }
        i = i + 1;
    }
    proof {
        assert(out@ =~= v@);
    }
    out
}

/// Copy a block; the copy has the same mathematical value.
pub(crate) fn clone_block(b: &NakamotoBlock) -> (r: NakamotoBlock)
    ensures
        r@ == b@,
{
    NakamotoBlock {
        header: NakamotoBlockHeader {
            chain_length: b.header.chain_length,
            consensus_hash: b.header.consensus_hash,
            parent_block_id: b.header.parent_block_id,
            timestamp: b.header.timestamp,
            miner_signature: b.header.miner_signature,
            signer_signature: duplicate_signatures(&b.header.signer_signature),
            signer_bitvec_len: b.header.signer_bitvec_len,
            block_id: b.header.block_id,
        },
        txs: duplicate_txs(&b.txs),
    }
}

/// The mathematical values of a vector of blocks.
pub open spec fn blocks_view(v: Seq<NakamotoBlock>) -> Seq<BlockModel> {
    v.map_values(|b: NakamotoBlock| b@)
}

/// The block with its signature vector replaced by the gathered one.
pub open spec fn with_signatures(b: BlockModel, sigs: Seq<MessageSignature>) -> BlockModel {
    BlockModel { header: HeaderModel { signer_signature: sigs, ..b.header }, ..b }
}

/// The worker after asking the relayer to re-decide.
pub open spec fn raise_initiative_spec(s: WorkerModel) -> WorkerModel {
    WorkerModel { globals: Globals { initiative_raised: true, ..s.globals }, ..s }
}

/// The worker after counting an emitted block: one more mined block,
/// and — when it is the first of this worker — one more mined tenure.
pub open spec fn bump_mined_spec(s: WorkerModel) -> WorkerModel {
    WorkerModel {
        globals: Globals {
            counters: Counters {
                naka_mined_blocks: sat_inc(s.globals.counters.naka_mined_blocks),
                naka_mined_tenures: if s.last_block_mined is None {
                    sat_inc(s.globals.counters.naka_mined_tenures)
                } else {
                    s.globals.counters.naka_mined_tenures
                },
                ..s.globals.counters
            },
            ..s.globals
        },
        ..s
    }
}

/// The worker remembering the block it just emitted.
pub open spec fn set_last_mined_spec(s: WorkerModel, b: BlockModel) -> WorkerModel {
    WorkerModel { last_block_mined: Some(b), ..s }
}

/// What stopping a prior worker does to the globals: mining is blocked,
/// the prior worker joined — its own result is noted and swallowed —
/// and mining unblocked again. A join that fails leaves mining blocked
/// and surfaces as an aborted mining attempt.
pub open spec fn stop_miner_spec(g: Globals, prior_miner: PriorMiner) -> (
    Globals,
    Result<(), NakamotoNodeError>,
) {
    match prior_miner.join_outcome {
        Option::None => (
            Globals { miner_blocked: true, ..g },
            Err(NakamotoNodeError::MiningFailure(ChainstateError::MinerAborted)),
        ),
        Option::Some(_) => (Globals { miner_blocked: false, ..g }, Ok(())),
    }
}

/// What the mock-mining preflight decides for one attempt: nothing at
/// all outside mock mode; in mock mode a moved burnchain tip or a
/// failed parent resolution is fatal, while a parent that is simply not
/// processed yet asks for another attempt after a pause.
pub enum PreflightDecision {
    Proceed,
    Retry,
    Fatal(NakamotoNodeError),
}

pub open spec fn preflight_spec(s: WorkerModel, a: AttemptInput) -> (
    WorkerModel,
    PreflightDecision,
) {
    if !s.config.node.mock_mining {
        (s, PreflightDecision::Proceed)
    } else {
        let (s1, c) = check_tip_spec(s, a.preflight_burn_tip);
        match c {
            Result::Err(e) => (s1, PreflightDecision::Fatal(e)),
            Result::Ok(_) => {
                let (s2, pr) = load_block_parent_info_spec(s1, a.preflight_parent);
                match pr {
                    Result::Ok(_) => (s2, PreflightDecision::Proceed),
                    Result::Err(e) => if e == NakamotoNodeError::ParentNotFound {
                        (s2, PreflightDecision::Retry)
                    } else {
                        (s2, PreflightDecision::Fatal(e))
                    },
                }
            },
        }
    }
}

/// What the inner mining loop ends with.
pub enum AttemptLoopOutcome {
    /// A block was assembled and its timestamp accepted.
    Mined(NakamotoBlock),
    /// The mempool offered nothing; the turn falls through to the
    /// interim wait.
    NoTransactions,
    /// The driver supplied no further attempts.
    Exhausted,
    /// The worker must exit with this error.
    Exit(NakamotoNodeError),
}

/// The mathematical value of an inner-loop outcome.
pub enum AttemptDecisionModel {
    Mined(BlockModel),
    NoTransactions,
    Exhausted,
    Exit(NakamotoNodeError),
}

impl AttemptLoopOutcome {
    pub open spec fn model(self) -> AttemptDecisionModel {
        match self {
            AttemptLoopOutcome::Mined(b) => AttemptDecisionModel::Mined(b@),
            AttemptLoopOutcome::NoTransactions => AttemptDecisionModel::NoTransactions,
            AttemptLoopOutcome::Exhausted => AttemptDecisionModel::Exhausted,
            AttemptLoopOutcome::Exit(e) => AttemptDecisionModel::Exit(e),
        }
    }
}

/// What the inner mining loop does, attempt by attempt: the preflight
/// may retry or stop the worker; an assembled block must also keep its
/// distance from the stored parent's timestamp, else the next attempt
/// runs; an interrupted assembly retries; an empty mempool falls
/// through; any other failure raises the relayer's initiative and stops
/// the worker as an aborted attempt.
pub open spec fn attempt_loop_spec(s: WorkerModel, attempts: Seq<AttemptInput>) -> (
    WorkerModel,
    AttemptDecisionModel,
)
    decreases attempts.len(),
{
    if attempts.len() == 0 {
        (s, AttemptDecisionModel::Exhausted)
    } else {
        let a = attempts[0];
        let (s1, pf) = preflight_spec(s, a);
        match pf {
            PreflightDecision::Fatal(e) => (s1, AttemptDecisionModel::Exit(e)),
            PreflightDecision::Retry => attempt_loop_spec(s1, attempts.drop_first()),
            PreflightDecision::Proceed => {
                let (s2, mr) = mine_block_spec(s1, a.mine);
                match mr {
                    Result::Ok(b) => match a.timestamp_parent {
                        Option::None => (s2, AttemptDecisionModel::Exit(NakamotoNodeError::ParentNotFound)),
                        Option::Some(h) => if !timestamp_gap_ok(
                            b.header.timestamp,
                            h.spec_parent_timestamp(),
                            s2.config.miner.min_time_between_blocks_ms,
                        ) {
                            attempt_loop_spec(s2, attempts.drop_first())
                        } else {
                            (s2, AttemptDecisionModel::Mined(b))
                        },
                    },
                    Result::Err(e) => if e == NakamotoNodeError::MiningFailure(
                        ChainstateError::MinerAborted,
                    ) {
                        attempt_loop_spec(s2, attempts.drop_first())
                    } else if e == NakamotoNodeError::MiningFailure(
                        ChainstateError::NoTransactionsToMine,
                    ) {
                        (s2, AttemptDecisionModel::NoTransactions)
                    } else {
                        (
                            raise_initiative_spec(s2),
                            AttemptDecisionModel::Exit(
                                NakamotoNodeError::MiningFailure(ChainstateError::MinerAborted),
                            ),
                        )
                    },
                }
            },
        }
    }
}

/// What the interim wait does, poll by poll: the first poll that shows
/// the burnchain tip under a new consensus hash stops the worker with
/// `BurnchainTipChanged`; until then the wait runs through.
pub open spec fn interim_spec(s: WorkerModel, polls: Seq<BlockSnapshot>) -> (
    WorkerModel,
    Result<(), NakamotoNodeError>,
)
    decreases polls.len(),
{
    if polls.len() == 0 {
        (s, Ok(()))
    } else {
        let (s1, c) = check_tip_spec(s, polls[0]);
        match c {
            Result::Err(_) => (s1, Err(NakamotoNodeError::BurnchainTipChanged)),
            Result::Ok(_) => interim_spec(s1, polls.drop_first()),
        }
    }
}

/// Finish one turn: reopen the sortition store — a failed reopen skips
/// the wait — then wait out the interim, polling the burnchain tip.
/// The third component says whether the run stops here, and how.
pub open spec fn iteration_tail_spec(
    s: WorkerModel,
    it: IterationInput,
    emitted_here: Seq<BlockModel>,
) -> (WorkerModel, Seq<BlockModel>, Option<Result<(), NakamotoNodeError>>) {
    if !it.sort_db_reopen_ok {
        (s, emitted_here, None)
    } else {
        let (s1, w) = interim_spec(s, it.interim_polls@);
        match w {
            Result::Err(e) => (s1, emitted_here, Some(Err(e))),
            Result::Ok(_) => (s1, emitted_here, None),
        }
    }
}

/// What one turn of the outer loop does: run the inner mining loop;
/// gather signatures for a mined block and broadcast it — a tip change
/// during gathering stops the run, any other signing or broadcast
/// failure merely starts the next turn; count and remember an emitted
/// block; then wait out the interim. The components are the worker
/// after the turn, the blocks emitted in it, and — if the run stops
/// here — its outcome.
pub open spec fn iteration_spec(s: WorkerModel, it: IterationInput) -> (
    WorkerModel,
    Seq<BlockModel>,
    Option<Result<(), NakamotoNodeError>>,
) {
    let (s1, dec) = attempt_loop_spec(s, it.attempts@);
    match dec {
        AttemptDecisionModel::Exit(e) => (s1, Seq::<BlockModel>::empty(), Some(Err(e))),
        AttemptDecisionModel::Exhausted => (s1, Seq::<BlockModel>::empty(), Some(Ok(()))),
        AttemptDecisionModel::NoTransactions => iteration_tail_spec(
            s1,
            it,
            Seq::<BlockModel>::empty(),
        ),
        AttemptDecisionModel::Mined(b) => {
            let (s2, g) = BlockMinerThread::gather_signatures_spec(s1, it.signing);
            match g {
                Result::Err(e) => if e is StacksTipChanged || e is BurnchainTipChanged {
                    (s2, Seq::<BlockModel>::empty(), Some(Err(e)))
                } else {
                    (s2, Seq::<BlockModel>::empty(), None)
                },
                Result::Ok((_rs, sigs)) => {
                    let signed = with_signatures(b, sigs);
                    if broadcast_err_spec(s2, it.broadcast) is Some {
                        (s2, Seq::<BlockModel>::empty(), None)
                    } else {
                        let s3 = set_last_mined_spec(bump_mined_spec(s2), signed);
                        iteration_tail_spec(s3, it, seq![signed])
                    }
                },
            }
        },
    }
}

/// The mathematical value of a finished run: the worker's final state,
/// the blocks it emitted in order, and how it ended. `Ok` records only
/// that the driver stopped supplying turns or attempts; the worker
/// itself only ever ends with an error.
pub struct RunModel {
    pub worker: WorkerModel,
    pub emitted: Seq<BlockModel>,
    pub outcome: Result<(), NakamotoNodeError>,
}

/// What one whole run of the loop does, turn by turn.
pub open spec fn run_loop_spec(s: WorkerModel, iters: Seq<IterationInput>) -> RunModel
    decreases iters.len(),
{
    if iters.len() == 0 {
        RunModel { worker: s, emitted: Seq::<BlockModel>::empty(), outcome: Ok(()) }
    } else {
        let (s1, em, stop) = iteration_spec(s, iters[0]);
        match stop {
            Option::Some(out) => RunModel { worker: s1, emitted: em, outcome: out },
            Option::None => {
                let rest = run_loop_spec(s1, iters.drop_first());
                RunModel {
                    worker: rest.worker,
                    emitted: em + rest.emitted,
                    outcome: rest.outcome,
                }
            },
        }
    }
}

/// What a whole run does: stop the prior worker first — a failed join
/// means nothing is mined at all — then connect the signer-message
/// store, then loop.
pub open spec fn run_spec(s: WorkerModel, prior: Option<PriorMiner>, input: RunInput) -> RunModel {
    let (g1, stopped) = match prior {
        Option::Some(p) => stop_miner_spec(s.globals, p),
        Option::None => (s.globals, Ok(())),
    };
    let s1 = WorkerModel { globals: g1, ..s };
    match stopped {
        Result::Err(e) => RunModel {
            worker: s1,
            emitted: Seq::<BlockModel>::empty(),
            outcome: Err(e),
        },
        Result::Ok(_) => if !input.stackerdbs_ok {
            RunModel {
                worker: s1,
                emitted: Seq::<BlockModel>::empty(),
                outcome: Err(NakamotoNodeError::MiningFailure(ChainstateError::NetError)),
            }
        } else {
            run_loop_spec(s1, input.iterations@)
        },
    }
}

/// What one turn of the outer loop handed back: a block to record as
/// emitted, and — when the run must stop here — its outcome.
pub struct IterationOutcome {
    pub emitted: Option<NakamotoBlock>,
    pub stop: Option<Result<(), NakamotoNodeError>>,
}

/// A finished run: the final worker, the blocks it emitted in order,
/// and how it ended.
pub struct MinerRun {
    pub worker: BlockMinerThread,
    pub emitted: Vec<NakamotoBlock>,
    pub outcome: Result<(), NakamotoNodeError>,
}

impl BlockMinerThread {
    /// Stop a prior tenure worker: block mining, join the worker's
    /// thread, note and swallow its own result — a prior worker that
    /// exited on a burnchain change is expected — and unblock mining.
    /// A join that fails leaves mining blocked.
    pub fn stop_miner(globals: &mut Globals, prior_miner: PriorMiner) -> (r: Result<
        (),
        NakamotoNodeError,
    >)
        ensures
            ({
                let (g_post, res) = stop_miner_spec(*old(globals), prior_miner);
                &&& *final(globals) == g_post
                &&& r == res
            }),
    {
        globals.block_miner();
        match prior_miner.join_outcome {
            Option::None => Err(NakamotoNodeError::MiningFailure(ChainstateError::MinerAborted)),
            Option::Some(_prior_result) => {
                globals.unblock_miner();
                Ok(())
            },
        }
    }

    /// Run the inner mining loop until a block stands, the mempool is
    /// empty, the worker must exit, or the attempts run out.
    pub fn mine_one(&mut self, attempts: &Vec<AttemptInput>) -> (r: AttemptLoopOutcome)
        requires
            forall|i: int| 0 <= i < attempts@.len() ==> (#[trigger] attempts@[i]).wf(),
        ensures
            ({
                let (s_post, dec) = attempt_loop_spec(old(self)@, attempts@);
                &&& final(self)@ == s_post
                &&& r.model() == dec
            }),
    {
        let n = attempts.len();
        let mut i: usize = 0;
        proof {
            assert(attempts@.skip(0) =~= attempts@);
        }
        while i < n
            invariant
                i <= n,
                n == attempts@.len(),
                forall|j: int| 0 <= j < attempts@.len() ==> (#[trigger] attempts@[j]).wf(),
                attempt_loop_spec(old(self)@, attempts@) == attempt_loop_spec(
                    self@,
                    attempts@.skip(i as int),
                ),
            decreases n - i,
        {
            proof {
                assert(attempts@.skip(i as int)[0] == attempts@[i as int]);
                assert(attempts@.skip(i as int).drop_first() =~= attempts@.skip(i as int + 1));
            }
            let a = &attempts[i];
            if self.config.node.mock_mining {
                match self.check_burn_tip_changed(&a.preflight_burn_tip) {
                    Result::Err(e) => {
                        return AttemptLoopOutcome::Exit(e);
                    },
                    Result::Ok(_) => {},
                }
                match self.load_block_parent_info(&a.preflight_parent) {
                    Result::Ok(_) => {},
                    Result::Err(NakamotoNodeError::ParentNotFound) => {
                        i = i + 1;
                        continue ;
                    },
                    Result::Err(e) => {
                        return AttemptLoopOutcome::Exit(e);
                    },
                }
            }
            match self.mine_block(&a.mine) {
                Result::Ok(x) => {
                    match self.validate_timestamp(&x, &a.timestamp_parent) {
                        Result::Err(e) => {
                            return AttemptLoopOutcome::Exit(e);
                        },
                        Result::Ok(false) => {
                            i = i + 1;
                            continue ;
                        },
                        Result::Ok(true) => {
                            return AttemptLoopOutcome::Mined(x);
                        },
                    }
                },
                Result::Err(NakamotoNodeError::MiningFailure(ChainstateError::MinerAborted)) => {
                    i = i + 1;
                    continue ;
                },
                Result::Err(
                    NakamotoNodeError::MiningFailure(ChainstateError::NoTransactionsToMine),
                ) => {
                    return AttemptLoopOutcome::NoTransactions;
                },
                Result::Err(_e) => {
                    self.globals.raise_initiative();
                    return AttemptLoopOutcome::Exit(
                        NakamotoNodeError::MiningFailure(ChainstateError::MinerAborted),
                    );
                },
            }
        }
        AttemptLoopOutcome::Exhausted
    }

    /// Wait out the interim between blocks, checking the burnchain tip
    /// at every poll; the first poll under a new consensus hash ends the
    /// worker with `BurnchainTipChanged`.
    pub fn wait_on_interim_blocks(&mut self, polls: &Vec<BlockSnapshot>) -> (r: Result<
        (),
        NakamotoNodeError,
    >)
        ensures
            ({
                let (s_post, res) = interim_spec(old(self)@, polls@);
                &&& final(self)@ == s_post
                &&& r == res
            }),
    {
        let n = polls.len();
        let mut i: usize = 0;
        proof {
            assert(polls@.skip(0) =~= polls@);
        }
        while i < n
            invariant
                i <= n,
                n == polls@.len(),
                interim_spec(old(self)@, polls@) == interim_spec(self@, polls@.skip(i as int)),
            decreases n - i,
        {
            proof {
                assert(polls@.skip(i as int)[0] == polls@[i as int]);
                assert(polls@.skip(i as int).drop_first() =~= polls@.skip(i as int + 1));
            }
            match self.check_burn_tip_changed(&polls[i]) {
                Result::Err(_) => {
                    return Err(NakamotoNodeError::BurnchainTipChanged);
                },
                Result::Ok(_) => {},
            }
            i = i + 1;
        }
        Ok(())
    }

    /// Run the tenure: stop the prior worker, connect the
    /// signer-message store, then loop over the driver's turns. Every
    /// emitted block went through assembly, signature gathering and a
    /// successful broadcast, in that order; the run ends with the first
    /// environment change or fatal failure, or when the driver stops.
    /// Run one turn of the outer loop: mine, gather, broadcast, count,
    /// remember, wait. The returned record carries the block this turn
    /// emitted, if any, and the run's outcome when it must stop here.
    #[verifier::rlimit(60)]
    pub fn run_iteration(&mut self, it: &IterationInput) -> (r: IterationOutcome)
        requires
            it.wf(),
        ensures
            ({
                let (s_post, em, stop) = iteration_spec(old(self)@, *it);
                &&& final(self)@ == s_post
                &&& match r.emitted {
                    Option::Some(b) => em == seq![b@],
                    Option::None => em == Seq::<BlockModel>::empty(),
                }
                &&& r.stop == stop
            }),
    {
        let dec = self.mine_one(&it.attempts);
        let mined = match dec {
            AttemptLoopOutcome::Exit(e) => {
                return IterationOutcome { emitted: None, stop: Some(Err(e)) };
            },
            AttemptLoopOutcome::Exhausted => {
                return IterationOutcome { emitted: None, stop: Some(Ok(())) };
            },
            AttemptLoopOutcome::NoTransactions => None,
            AttemptLoopOutcome::Mined(x) => Some(x),
        };
        let emitted_here: Option<NakamotoBlock> = match mined {
            Option::None => None,
            Option::Some(mut new_block) => {
                let sigs = match self.gather_signatures(&it.signing) {
                    Result::Err(NakamotoNodeError::StacksTipChanged) => {
                        return IterationOutcome {
                            emitted: None,
                            stop: Some(Err(NakamotoNodeError::StacksTipChanged)),
                        };
                    },
                    Result::Err(NakamotoNodeError::BurnchainTipChanged) => {
                        return IterationOutcome {
                            emitted: None,
                            stop: Some(Err(NakamotoNodeError::BurnchainTipChanged)),
                        };
                    },
                    Result::Err(_e) => {
                        return IterationOutcome { emitted: None, stop: None };
                    },
                    Result::Ok((_reward_set, sigs)) => sigs,
                };
                new_block.header.signer_signature = sigs;
                match self.broadcast(clone_block(&new_block), &it.broadcast) {
                    Result::Err(_e) => {
                        return IterationOutcome { emitted: None, stop: None };
                    },
                    Result::Ok(_report) => {},
                }
                self.globals.counters.bump_naka_mined_blocks();
                if self.last_block_mined.is_none() {
                    self.globals.counters.bump_naka_mined_tenures();
                }
                let block_copy = clone_block(&new_block);
                self.last_block_mined = Some(block_copy);
                Some(new_block)
            },
        };
        if !it.sort_db_reopen_ok {
            return IterationOutcome { emitted: emitted_here, stop: None };
        }
        match self.wait_on_interim_blocks(&it.interim_polls) {
            Result::Err(e) => IterationOutcome { emitted: emitted_here, stop: Some(Err(e)) },
            Result::Ok(_) => IterationOutcome { emitted: emitted_here, stop: None },
        }
    }

    /// Run the tenure: stop the prior worker, connect the
    /// signer-message store, then loop over the driver's turns. Every
    /// emitted block went through assembly, signature gathering and a
    /// successful broadcast, in that order; the run ends with the first
    /// environment change or fatal failure, or when the driver stops.
    #[verifier::rlimit(100)]
    #[verifier::loop_isolation(false)]
    pub fn run_miner(self, prior: Option<PriorMiner>, input: &RunInput) -> (r: MinerRun)
        requires
            input.wf(),
        ensures
            ({
                let m = run_spec(self@, prior, *input);
                &&& r.worker@ == m.worker
                &&& blocks_view(r.emitted@) == m.emitted
                &&& r.outcome == m.outcome
            }),
    {
        let mut worker = self;
        if let Some(p) = prior {
            match Self::stop_miner(&mut worker.globals, p) {
                Result::Err(e) => {
                    return MinerRun { worker, emitted: Vec::new(), outcome: Err(e) };
                },
                Result::Ok(_) => {},
            }
        }
        if !input.stackerdbs_ok {
            return MinerRun {
                worker,
                emitted: Vec::new(),
                outcome: Err(NakamotoNodeError::MiningFailure(ChainstateError::NetError)),
            };
        }

        let ghost s_start = worker@;
        let mut emitted: Vec<NakamotoBlock> = Vec::new();
        let n = input.iterations.len();
        let mut k: usize = 0;
        proof {
            assert(input.iterations@.skip(0) =~= input.iterations@);
            assert(blocks_view(emitted@) =~= Seq::<BlockModel>::empty());
        }
        while k < n
            invariant
                k <= n,
                n == input.iterations@.len(),
                input.wf(),
                ({
                    let total = run_loop_spec(s_start, input.iterations@);
                    let rest = run_loop_spec(worker@, input.iterations@.skip(k as int));
                    &&& total.worker == rest.worker
                    &&& total.outcome == rest.outcome
                    &&& total.emitted == blocks_view(emitted@) + rest.emitted
                }),
            decreases n - k,
        {
            proof {
                assert(input.iterations@.skip(k as int)[0] == input.iterations@[k as int]);
                assert(input.iterations@.skip(k as int).drop_first() =~= input.iterations@.skip(
                    k as int + 1,
                ));
                assert(input.iterations@[k as int].wf());
            }
            let ghost w_pre = worker@;
            let ghost emitted_pre = emitted@;
            let step = worker.run_iteration(&input.iterations[k]);
            proof {
                let (s1, em, stop) = iteration_spec(w_pre, input.iterations@[k as int]);
                let rest_pre = run_loop_spec(w_pre, input.iterations@.skip(k as int));
                match stop {
                    Option::Some(out) => {
                        assert(rest_pre == RunModel { worker: s1, emitted: em, outcome: out });
                    },
                    Option::None => {
                        let rest_next = run_loop_spec(s1, input.iterations@.skip(k as int + 1));
                        assert(rest_pre == RunModel {
                            worker: rest_next.worker,
                            emitted: em + rest_next.emitted,
                            outcome: rest_next.outcome,
                        });
                        assert(blocks_view(emitted_pre) + (em + rest_next.emitted) =~= (
                        blocks_view(emitted_pre) + em) + rest_next.emitted);
                    },
                }
            }
            if let Some(b) = step.emitted {
                let ghost emitted_before = emitted@;
                emitted.push(b);
                proof {
                    assert(blocks_view(emitted@) =~= blocks_view(emitted_before) + seq![
                        emitted@[emitted@.len() - 1]@,
                    ]);
                }
            } else {
                proof {
                    assert(blocks_view(emitted@) + Seq::<BlockModel>::empty() =~= blocks_view(
                        emitted@,
                    ));
                }
            }
            if let Some(out) = step.stop {
                return MinerRun { worker, emitted, outcome: out };
            }
            k = k + 1;
        }
        MinerRun { worker, emitted, outcome: Ok(()) }
    }
}

} // verus!
