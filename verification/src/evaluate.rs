use vstd::prelude::*;

use crate::config::PoolConfig;
use crate::policy::HIGH_SATURATION_PERMYRIAD;
use crate::policy::OPTIMAL_SATURATION_PERMYRIAD;
use crate::policy::SATURATION_SCALE;
use crate::policy::ThresholdPolicy;
use crate::report::BlockProductionStatus;
use crate::report::HealthMetrics;
use crate::report::Issue;
use crate::report::SaturationStatus;
use crate::report::SyncStatus;
use crate::stake::StakeDistribution;
use crate::stake::get_pool_stake_from_distribution;
use crate::stake::get_total_stake;
use crate::stake::spec_cap_u64;
use crate::stake::spec_pool_stake;
use crate::stake::spec_total_stake;

verus! {

/// What one chain-tip query returned.
#[derive(Clone, Copy, Debug, PartialEq, Eq, Structural)]
pub struct TipInfo {
    pub slot: u64,
    pub epoch: u64,
}

/// Blocks produced by a pool in the current epoch, against the expectation.
#[derive(Clone, Copy, Debug, PartialEq, Eq, Structural)]
pub struct BlockCount {
    pub actual: u64,
    pub expected: u64,
}

/// Why an adapter call produced no data.  Every adapter error is recovered
/// into a classification, never propagated out of an evaluation.
#[derive(Clone, Copy, Debug, PartialEq, Eq, Structural)]
pub enum AdapterError {
    /// The data source could not be reached at all.
    Unreachable,
    /// The data source did not answer within the allowed window.
    Timeout,
    /// The data source answered with something that could not be read.
    Malformed,
}

/// The answers of the data sources for one pool in one evaluation cycle.
#[derive(Debug)]
pub struct Observation {
    pub tip: Result<TipInfo, AdapterError>,
    pub stake: Result<StakeDistribution, AdapterError>,
    pub blocks: Result<BlockCount, AdapterError>,
}

/// Sync classification: a successful tip query with a nonzero slot is taken
/// as evidence of a synchronised node; everything else is unknown.
pub open spec fn spec_sync_status(tip: Result<TipInfo, AdapterError>) -> SyncStatus {
    match tip {
        Ok(t) => if t.slot > 0 {
            SyncStatus::Synced
        } else {
            SyncStatus::Unknown
        },
        Err(_) => SyncStatus::Unknown,
    }
}

/// The measured saturation in permyriad, capped at the representable range;
/// zero total stake reads as zero saturation.
pub open spec fn spec_sat_permyriad(pool_stake: u64, total_stake: u64) -> u64 {
    if total_stake == 0 {
        0u64
    } else {
        spec_cap_u64(pool_stake * SATURATION_SCALE / total_stake as int)
    }
}

/// Saturation classification against the policy threshold and the fixed
/// high and optimal bounds, by exact rational comparison of
/// `pool_stake / total_stake` with each threshold.
pub open spec fn spec_classify_saturation(
    pool_stake: u64,
    total_stake: u64,
    policy: ThresholdPolicy,
) -> SaturationStatus {
    let permyriad = spec_sat_permyriad(pool_stake, total_stake);
    if total_stake == 0 {
        SaturationStatus::Low { permyriad: 0 }
    } else if pool_stake * SATURATION_SCALE > policy.saturation_threshold_permyriad
        * total_stake {
        SaturationStatus::Oversaturated { permyriad }
    } else if pool_stake * SATURATION_SCALE > HIGH_SATURATION_PERMYRIAD * total_stake {
        SaturationStatus::High { permyriad }
    } else if pool_stake * SATURATION_SCALE > OPTIMAL_SATURATION_PERMYRIAD * total_stake {
        SaturationStatus::Optimal { permyriad }
    } else {
        SaturationStatus::Low { permyriad }
    }
}

/// Saturation classification from a stake-distribution answer: resolve the
/// pool's stake and the total, then classify; a failed query is unknown.
pub open spec fn spec_saturation_status(
    stake: Result<StakeDistribution, AdapterError>,
    pool_id: Seq<char>,
    policy: ThresholdPolicy,
) -> SaturationStatus {
    match stake {
        Ok(d) => spec_classify_saturation(
            spec_pool_stake(d, pool_id),
            spec_total_stake(d),
            policy,
        ),
        Err(_) => SaturationStatus::Unknown,
    }
}

/// Block-production classification: no blocks at all although some were
/// expected is its own state; more than one block short of the expectation
/// is underperforming; a failed query is unknown.
pub open spec fn spec_block_status(blocks: Result<BlockCount, AdapterError>) -> BlockProductionStatus {
    match blocks {
        Ok(b) => if b.actual == 0 && b.expected > 0 {
            BlockProductionStatus::NoBlocks { expected: b.expected }
        } else if b.actual + 1 < b.expected {
            BlockProductionStatus::Underperforming {
                blocks_current_epoch: b.actual,
                expected: b.expected,
            }
        } else {
            BlockProductionStatus::Healthy {
                blocks_current_epoch: b.actual,
                expected: b.expected,
            }
        },
        Err(_) => BlockProductionStatus::Unknown,
    }
}

/// The findings a failed or adverse tip query contributes.
pub open spec fn spec_tip_issues(tip: Result<TipInfo, AdapterError>) -> Seq<Issue> {
    match tip {
        Ok(_) => Seq::<Issue>::empty(),
        Err(_) => seq![Issue::NodeUnreachable],
    }
}

/// The findings the saturation check contributes: an oversaturated pool and
/// an unanswerable query are each worth exactly one finding.
pub open spec fn spec_saturation_issues(
    stake: Result<StakeDistribution, AdapterError>,
    pool_id: Seq<char>,
    policy: ThresholdPolicy,
) -> Seq<Issue> {
    match stake {
        Ok(d) => match spec_classify_saturation(
            spec_pool_stake(d, pool_id),
            spec_total_stake(d),
            policy,
        ) {
            SaturationStatus::Oversaturated { permyriad } => seq![
                Issue::Oversaturated { permyriad },
            ],
            _ => Seq::<Issue>::empty(),
        },
        Err(_) => seq![Issue::SaturationUnknown],
    }
}

/// The findings the block-production check contributes.  A failed query
/// contributes none: block-count unavailability alone is deliberately not
/// treated as a failure condition, unlike the tip and saturation checks.
pub open spec fn spec_block_issues(blocks: Result<BlockCount, AdapterError>) -> Seq<Issue> {
    match blocks {
        Ok(b) => if b.actual == 0 && b.expected > 0 {
            seq![Issue::NoBlocksProduced]
        } else if b.actual + 1 < b.expected {
            seq![Issue::Underperforming]
        } else {
            Seq::<Issue>::empty()
        },
        Err(_) => Seq::<Issue>::empty(),
    }
}

/// Every finding of one evaluation cycle, in the order the checks run: tip,
/// saturation, block production.
pub open spec fn spec_issues(obs: Observation, pool_id: Seq<char>, policy: ThresholdPolicy) -> Seq<
    Issue,
> {
    spec_tip_issues(obs.tip) + spec_saturation_issues(obs.stake, pool_id, policy)
        + spec_block_issues(obs.blocks)
}

/// What it means for a report to be the evaluation of one pool against one
/// set of adapter answers: every classification field and the recorded
/// findings are determined by the answers and the policy, and the overall
/// flag says exactly that no finding was recorded.  The timestamp and the
/// measured latency are left free.
pub open spec fn spec_is_evaluation(
    r: HealthMetrics,
    pool: PoolConfig,
    obs: Observation,
    policy: ThresholdPolicy,
) -> bool {
    &&& r.pool_id == pool.pool_id
    &&& r.pool_name == pool.name
    &&& r.sync_status == spec_sync_status(obs.tip)
    &&& r.saturation_status == spec_saturation_status(obs.stake, pool.pool_id@, policy)
    &&& r.block_production == spec_block_status(obs.blocks)
    &&& r.issues@ == spec_issues(obs, pool.pool_id@, policy)
    &&& r.is_healthy == (spec_issues(obs, pool.pool_id@, policy).len() == 0)
}

/// Classify a tip answer.
pub fn classify_sync(tip: &Result<TipInfo, AdapterError>) -> (r: SyncStatus)
    ensures
        r == spec_sync_status(*tip),
{
    match tip {
        Ok(t) => if t.slot > 0 {
            SyncStatus::Synced
        } else {
            SyncStatus::Unknown
        },
        Err(_) => SyncStatus::Unknown,
    }
}

/// Classify a resolved saturation measurement against the policy.
pub fn classify_saturation(pool_stake: u64, total_stake: u64, policy: &ThresholdPolicy) -> (r:
    SaturationStatus)
    ensures
        r == spec_classify_saturation(pool_stake, total_stake, *policy),
{
    if total_stake == 0 {
        return SaturationStatus::Low { permyriad: 0 };
    }
    let p: u128 = pool_stake as u128;
    let t: u128 = total_stake as u128;
    proof {
        assert((policy.saturation_threshold_permyriad as int) * (t as int) < u128::MAX as int)
            by (nonlinear_arith)
            requires
                policy.saturation_threshold_permyriad as int <= u64::MAX as int,
                t as int <= u64::MAX as int,
        ;
        assert(7000 * (t as int) < u128::MAX as int);
        assert(100 * (t as int) < u128::MAX as int);
    }
    let scaled: u128 = p * 10000;
    let pm_wide: u128 = scaled / t;
    let permyriad: u64 = if pm_wide > u64::MAX as u128 {
        u64::MAX
    } else {
        pm_wide as u64
    };
    if scaled > (policy.saturation_threshold_permyriad as u128) * t {
        SaturationStatus::Oversaturated { permyriad }
    } else if scaled > 7000 * t {
        SaturationStatus::High { permyriad }
    } else if scaled > 100 * t {
        SaturationStatus::Optimal { permyriad }
    } else {
        SaturationStatus::Low { permyriad }
    }
}

/// Classify a block-count answer.
pub fn classify_block_production(blocks: &Result<BlockCount, AdapterError>) -> (r:
    BlockProductionStatus)
    ensures
        r == spec_block_status(*blocks),
{
    match blocks {
        Ok(b) => if b.actual == 0 && b.expected > 0 {
            BlockProductionStatus::NoBlocks { expected: b.expected }
        } else if b.expected > 1 && b.actual < b.expected - 1 {
            BlockProductionStatus::Underperforming {
                blocks_current_epoch: b.actual,
                expected: b.expected,
            }
        } else {
            BlockProductionStatus::Healthy {
                blocks_current_epoch: b.actual,
                expected: b.expected,
            }
        },
        Err(_) => BlockProductionStatus::Unknown,
    }
}

/// Produce one pool's health report from one set of adapter answers.  Never
/// fails: failed queries are classification inputs, not evaluation errors.
/// The caller supplies the timestamp of the cycle and the measured latency.
pub fn evaluate_observation(
    pool: &PoolConfig,
    obs: &Observation,
    policy: &ThresholdPolicy,
    timestamp: u64,
    response_time_ms: u64,
) -> (r: HealthMetrics)
    ensures
        spec_is_evaluation(r, *pool, *obs, *policy),
        r.timestamp == timestamp,
        r.response_time_ms == response_time_ms,
        r.wf(),
{
    let mut issues: Vec<Issue> = Vec::new();

    let sync_status = classify_sync(&obs.tip);
    if obs.tip.is_err() {
        issues.push(Issue::NodeUnreachable);
    }
    proof {
        assert(issues@ =~= spec_tip_issues(obs.tip));
    }

    let saturation_status = match &obs.stake {
        Ok(d) => {
            let pool_stake = get_pool_stake_from_distribution(d, &pool.pool_id);
            let total_stake = get_total_stake(d);
            let s = classify_saturation(pool_stake, total_stake, policy);
            if let SaturationStatus::Oversaturated { permyriad } = s {
                issues.push(Issue::Oversaturated { permyriad });
            }
            s
        },
        Err(_) => {
            issues.push(Issue::SaturationUnknown);
            SaturationStatus::Unknown
        },
    };
    proof {
        assert(issues@ =~= spec_tip_issues(obs.tip) + spec_saturation_issues(
            obs.stake,
            pool.pool_id@,
            *policy,
        ));
    }

    let block_production = match &obs.blocks {
        Ok(b) => {
            if b.actual == 0 && b.expected > 0 {
                issues.push(Issue::NoBlocksProduced);
            } else if b.expected > 1 && b.actual < b.expected - 1 {
                issues.push(Issue::Underperforming);
            }
            classify_block_production(&obs.blocks)
        },
        Err(_) => BlockProductionStatus::Unknown,
    };
    proof {
        assert(issues@ =~= spec_issues(*obs, pool.pool_id@, *policy));
    }

    let is_healthy = issues.len() == 0;
    HealthMetrics {
        timestamp,
        pool_id: pool.pool_id.clone(),
        pool_name: pool.name.clone(),
        is_healthy,
        sync_status,
        saturation_status,
        block_production,
        response_time_ms,
        issues,
    }
}

} // verus!
