//! Loading the signer set, driving the signature quorum, and pushing the
//! signed block out.

use vstd::prelude::*;
use crate::types::{MessageSignature, RewardSet, StacksAddress, Config};
use crate::block::NakamotoBlock;
use crate::errors::{ChainstateError, ConfigFailure, CoordinatorFailure, NakamotoNodeError};
use crate::env::{BroadcastInput, RewardSetLoadOutcome, SigningInput};
use crate::miner::{BlockMinerThread, WorkerModel};

verus! {

/// Copy a reward set; the copy holds the same addresses.
pub(crate) fn duplicate_reward_set(rs: &RewardSet) -> (r: RewardSet)
    ensures
        r@ == rs@,
{
    let mut addresses: Vec<StacksAddress> = Vec::new();
    let n = rs.rewarded_addresses.len();
    let mut i: usize = 0;
    while i < n
        invariant
            i <= n,
            n == rs.rewarded_addresses@.len(),
            addresses@ == rs.rewarded_addresses@.subrange(0, i as int),
        decreases n - i,
    {
        addresses.push(rs.rewarded_addresses[i]);
        proof {
            assert(addresses@ =~= rs.rewarded_addresses@.subrange(0, i + 1));
        }
        i = i + 1;
    }
    proof {
        assert(addresses@ =~= rs.rewarded_addresses@);
    }
    RewardSet { rewarded_addresses: addresses }
}

/// Copy a signature vector.
pub(crate) fn duplicate_signatures(v: &Vec<MessageSignature>) -> (r: Vec<MessageSignature>)
    ensures
        r@ == v@,
{
    let mut out: Vec<MessageSignature> = Vec::new();
    let n = v.len();
    let mut i: usize = 0;
    while i < n
        invariant
            i <= n,
            n == v@.len(),
            out@ == v@.subrange(0, i as int),
        decreases n - i,
    {
        out.push(v[i]);
        proof {
            assert(out@ =~= v@.subrange(0, i + 1));
        }
        i = i + 1;
    }
    proof {
        assert(out@ =~= v@);
    }
    out
}

/// What loading the signer set does to the worker: a filled cache
/// answers by itself, whatever the store would say now; an empty cache
/// takes the loaded set, when the load found a cycle that selected one.
pub open spec fn load_signer_set_spec(s: WorkerModel, load: RewardSetLoadOutcome) -> (
    WorkerModel,
    Result<Seq<StacksAddress>, NakamotoNodeError>,
) {
    match s.signer_set_cache {
        Option::Some(v) => (s, Ok(v)),
        Option::None => match load {
            RewardSetLoadOutcome::StateOpenFailed => (
                s,
                Err(
                    NakamotoNodeError::SigningCoordinatorFailure(
                        CoordinatorFailure::StateOpenFailed,
                    ),
                ),
            ),
            RewardSetLoadOutcome::NoneStored => (
                s,
                Err(NakamotoNodeError::SigningCoordinatorFailure(CoordinatorFailure::NoRewardSet)),
            ),
            RewardSetLoadOutcome::LoadFailed => (
                s,
                Err(
                    NakamotoNodeError::SigningCoordinatorFailure(CoordinatorFailure::RewardSetFetch),
                ),
            ),
            RewardSetLoadOutcome::Loaded { selected } => match selected {
                Option::Some(rs) => (
                    WorkerModel { signer_set_cache: Some(rs@), ..s },
                    Ok(rs@),
                ),
                Option::None => (
                    s,
                    Err(
                        NakamotoNodeError::SigningCoordinatorFailure(
                            CoordinatorFailure::NoSelectedAnchorBlock,
                        ),
                    ),
                ),
            },
        },
    }
}

/// The reward set is loaded once per worker: with the cache filled,
/// every later load answers with the cached set and leaves the worker
/// as it is, whatever the store would answer now.
pub proof fn lemma_signer_set_cache_stable(
    s: WorkerModel,
    load1: RewardSetLoadOutcome,
    load2: RewardSetLoadOutcome,
)
    requires
        load_signer_set_spec(s, load1).1 is Ok,
    ensures
        ({
            let (s1, r1) = load_signer_set_spec(s, load1);
            let (s2, r2) = load_signer_set_spec(s1, load2);
            r2 == r1 && s2 == s1
        }),
{
}

impl BlockMinerThread {
    /// Load the signer set active for this worker's blocks: the reward
    /// set at the worker's election snapshot. The first successful load
    /// fills the cache; afterwards the cache answers.
    pub fn load_signer_set(&mut self, load: &RewardSetLoadOutcome) -> (r: Result<
        RewardSet,
        NakamotoNodeError,
    >)
        ensures
            ({
                let (s_post, res) = load_signer_set_spec(old(self)@, *load);
                &&& final(self)@ == s_post
                &&& match (r, res) {
                    (Ok(rs), Ok(v)) => rs@ == v,
                    (Err(e), Err(e2)) => e == e2,
                    _ => false,
                }
            }),
    {
        if let Some(set) = &self.signer_set_cache {
            return Ok(duplicate_reward_set(set));
        }
        match load {
            RewardSetLoadOutcome::StateOpenFailed => Err(
                NakamotoNodeError::SigningCoordinatorFailure(CoordinatorFailure::StateOpenFailed),
            ),
            RewardSetLoadOutcome::NoneStored => Err(
                NakamotoNodeError::SigningCoordinatorFailure(CoordinatorFailure::NoRewardSet),
            ),
            RewardSetLoadOutcome::LoadFailed => Err(
                NakamotoNodeError::SigningCoordinatorFailure(CoordinatorFailure::RewardSetFetch),
            ),
            RewardSetLoadOutcome::Loaded { selected } => match selected {
                Option::None => Err(
                    NakamotoNodeError::SigningCoordinatorFailure(
                        CoordinatorFailure::NoSelectedAnchorBlock,
                    ),
                ),
                Option::Some(rs) => {
                    let kept = duplicate_reward_set(rs);
                    let returned = duplicate_reward_set(rs);
                    self.signer_set_cache = Some(kept);
                    Ok(returned)
                },
            },
        }
    }

    /// What gathering signatures does: without a mining key nothing can
    /// be signed; in mock mode the reward set alone comes back with an
    /// empty vector; else the coordinator's own answer decides.
    pub open spec fn gather_signatures_spec(s: WorkerModel, input: SigningInput) -> (
        WorkerModel,
        Result<(Seq<StacksAddress>, Seq<MessageSignature>), NakamotoNodeError>,
    ) {
        if s.config.miner.mining_key is None {
            (
                s,
                Err(NakamotoNodeError::MinerConfigurationFailed(ConfigFailure::NoMiningKey)),
            )
        } else if !input.sort_db_open_ok {
            (
                s,
                Err(
                    NakamotoNodeError::SigningCoordinatorFailure(
                        CoordinatorFailure::StateOpenFailed,
                    ),
                ),
            )
        } else {
            let (s1, rsr) = load_signer_set_spec(s, input.reward_set_load);
            match rsr {
                Result::Err(e) => (s1, Err(e)),
                Result::Ok(v) => if s1.config.node.mock_mining {
                    (s1, Ok((v, Seq::<MessageSignature>::empty())))
                } else if !input.coordinator_setup_ok {
                    (
                        s1,
                        Err(
                            NakamotoNodeError::SigningCoordinatorFailure(
                                CoordinatorFailure::InitFailed,
                            ),
                        ),
                    )
                } else {
                    match input.run_sign {
                        Result::Ok(sigs) => (s1, Ok((v, sigs@))),
                        Result::Err(e) => (s1, Err(e)),
                    }
                },
            }
        }
    }

    /// Gather the threshold signatures for an assembled block from the
    /// signer quorum; `input` carries what the coordinator and the
    /// stores answered.
    pub fn gather_signatures(&mut self, input: &SigningInput) -> (r: Result<
        (RewardSet, Vec<MessageSignature>),
        NakamotoNodeError,
    >)
        ensures
            ({
                let (s_post, res) = Self::gather_signatures_spec(old(self)@, *input);
                &&& final(self)@ == s_post
                &&& match (r, res) {
                    (Ok((rs, sigs)), Ok((v, sv))) => rs@ == v && sigs@ == sv,
                    (Err(e), Err(e2)) => e == e2,
                    _ => false,
                }
            }),
    {
        if self.config.miner.mining_key.is_none() {
            return Err(NakamotoNodeError::MinerConfigurationFailed(ConfigFailure::NoMiningKey));
        }
        if !input.sort_db_open_ok {
            return Err(
                NakamotoNodeError::SigningCoordinatorFailure(CoordinatorFailure::StateOpenFailed),
            );
        }
        let reward_set = self.load_signer_set(&input.reward_set_load)?;
        if self.config.node.mock_mining {
            return Ok((reward_set, Vec::new()));
        }
        if !input.coordinator_setup_ok {
            return Err(
                NakamotoNodeError::SigningCoordinatorFailure(CoordinatorFailure::InitFailed),
            );
        }
        match &input.run_sign {
            Result::Ok(sigs) => Ok((reward_set, duplicate_signatures(sigs))),
            Result::Err(e) => Err(*e),
        }
    }
}

/// The chance, in percent, that fault injection drops a block push:
/// the configured probability clamped to 100, zero when unset.
pub open spec fn effective_drop_prob(config: Config) -> u8 {
    match config.node.fault_injection_block_push_fail_probability {
        Option::Some(p) => if p > 100 {
            100
        } else {
            p
        },
        Option::None => 0,
    }
}

/// Relies on `rand::thread_rng` and `rand::Rng::gen_range`: a draw from
/// the half-open range `0..100` lies strictly below 100.
#[verifier::external_body]
fn draw_percent() -> (r: u8)
    ensures
        r < 100,
{
    rand::Rng::gen_range(&mut rand::thread_rng(), 0..100u8)
}

/// Whether a drawn percentile falls inside the drop window: fault
/// injection drops the push exactly when the window is open and the
/// throw lands below it.
pub fn will_drop_block(drop_prob: u8, throw: u8) -> (r: bool)
    ensures
        r == (drop_prob > 0 && throw < drop_prob),
{
    drop_prob > 0 && throw < drop_prob
}

/// A report of what one persist-and-push step did.
#[derive(Clone, Copy, Debug, PartialEq, Eq, Structural)]
pub struct BroadcastReport {
    /// The test knob suppressed the whole path.
    pub skipped: bool,
    /// The staging transaction committed.
    pub persisted: bool,
    /// The store took the block as new; false records the expected
    /// self-delivery race, where the signers' fan-out arrived first.
    pub accepted: bool,
    /// The block went out to the peer-to-peer network.
    pub pushed_p2p: bool,
    /// The block went out on the signer-message bus.
    pub pushed_stackerdb: bool,
}

/// The error one persist-and-push step ends with, if any; everything
/// but the fault-injection coin is decided by the answers alone.
pub open spec fn broadcast_err_spec(s: WorkerModel, input: BroadcastInput) -> Option<
    NakamotoNodeError,
> {
    if s.config.miner.mining_key is None {
        Some(NakamotoNodeError::MinerConfigurationFailed(ConfigFailure::NoMiningKey))
    } else if !input.skip_broadcast_knob && !input.staging_ok {
        Some(NakamotoNodeError::AcceptFailure(ChainstateError::DbError))
    } else if !input.skip_broadcast_knob && input.accept is None {
        Some(NakamotoNodeError::AcceptFailure(ChainstateError::DbError))
    } else if s.config.node.rpc_loopback is None {
        Some(NakamotoNodeError::MinerConfigurationFailed(ConfigFailure::NoRpcLoopback))
    } else if !input.stackerdb_push_ok {
        Some(NakamotoNodeError::SigningCoordinatorFailure(CoordinatorFailure::StackerDbPush))
    } else {
        None
    }
}

impl BlockMinerThread {
    /// Decide whether fault injection drops this block push.
    pub fn fault_injection_broadcast_fail(&self) -> (r: bool)
        ensures
            effective_drop_prob(self.config) == 0 ==> !r,
            effective_drop_prob(self.config) >= 100 ==> r,
    {
        let drop_prob: u8 = match self.config.node.fault_injection_block_push_fail_probability {
            Option::Some(p) => if p > 100 {
                100
            } else {
                p
            },
            Option::None => 0,
        };
        if drop_prob > 0 {
            let throw = draw_percent();
            will_drop_block(drop_prob, throw)
        } else {
            false
        }
    }

    /// Store the block to the chain state and, if the path is not
    /// suppressed, hand it to the peer-to-peer layer. A store that
    /// answers `false` already holds the block — the signers' own
    /// fan-out delivered it first — and the push still goes out.
    pub fn broadcast_p2p(&self, input: &BroadcastInput, _block: &NakamotoBlock) -> (r: Result<
        BroadcastReport,
        ChainstateError,
    >)
        ensures
            input.skip_broadcast_knob ==> r == Ok::<_, ChainstateError>(
                BroadcastReport {
                    skipped: true,
                    persisted: false,
                    accepted: false,
                    pushed_p2p: false,
                    pushed_stackerdb: false,
                },
            ),
            !input.skip_broadcast_knob && !input.staging_ok ==> r == Err::<BroadcastReport, _>(
                ChainstateError::DbError,
            ),
            !input.skip_broadcast_knob && input.staging_ok && input.accept is None ==> r == Err::<
                BroadcastReport,
                _,
            >(ChainstateError::DbError),
            (!input.skip_broadcast_knob && input.staging_ok && input.accept is Some) ==> (
            r matches Ok(rep) && rep.skipped == false && rep.persisted == true && Some(rep.accepted)
                == input.accept && rep.pushed_stackerdb == false && (effective_drop_prob(
                self.config,
            ) == 0 ==> rep.pushed_p2p) && (effective_drop_prob(self.config) >= 100
                ==> !rep.pushed_p2p)),
    {
        if input.skip_broadcast_knob {
            return Ok(
                BroadcastReport {
                    skipped: true,
                    persisted: false,
                    accepted: false,
                    pushed_p2p: false,
                    pushed_stackerdb: false,
                },
            );
        }
        if !input.staging_ok {
            return Err(ChainstateError::DbError);
        }
        let accepted = match input.accept {
            Option::None => {
                return Err(ChainstateError::DbError);
            },
            Option::Some(a) => a,
        };
        let pushed_p2p = !self.fault_injection_broadcast_fail();
        Ok(
            BroadcastReport {
                skipped: false,
                persisted: true,
                accepted,
                pushed_p2p,
                pushed_stackerdb: false,
            },
        )
    }

    /// Persist the signed block, push it to the peer-to-peer network,
    /// and push it on the signer-message bus to the miners' contract.
    pub fn broadcast(&self, block: NakamotoBlock, input: &BroadcastInput) -> (r: Result<
        BroadcastReport,
        NakamotoNodeError,
    >)
        ensures
            r is Err <==> broadcast_err_spec(self@, *input) is Some,
            r matches Err(e) ==> Some(e) == broadcast_err_spec(self@, *input),
            r matches Ok(rep) ==> {
                &&& broadcast_err_spec(self@, *input) is None
                &&& rep.skipped == input.skip_broadcast_knob
                &&& rep.pushed_stackerdb == true
                &&& !input.skip_broadcast_knob ==> (rep.persisted && input.accept == Some(
                    rep.accepted,
                ) && (effective_drop_prob(self.config) == 0 ==> rep.pushed_p2p) && (
                effective_drop_prob(self.config) >= 100 ==> !rep.pushed_p2p))
            },
    {
        if self.config.miner.mining_key.is_none() {
            return Err(NakamotoNodeError::MinerConfigurationFailed(ConfigFailure::NoMiningKey));
        }
        let report = match self.broadcast_p2p(input, &block) {
            Result::Ok(rep) => rep,
            Result::Err(e) => {
                return Err(NakamotoNodeError::AcceptFailure(e));
            },
        };
        if self.config.node.rpc_loopback.is_none() {
            return Err(
                NakamotoNodeError::MinerConfigurationFailed(ConfigFailure::NoRpcLoopback),
            );
        }
        if !input.stackerdb_push_ok {
            return Err(
                NakamotoNodeError::SigningCoordinatorFailure(CoordinatorFailure::StackerDbPush),
            );
        }
        Ok(BroadcastReport { pushed_stackerdb: true, ..report })
    }
}

} // verus!
