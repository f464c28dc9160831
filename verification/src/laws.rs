use vstd::prelude::*;

use crate::config::PoolConfig;
use crate::evaluate::Observation;
use crate::evaluate::spec_block_issues;
use crate::evaluate::spec_classify_saturation;
use crate::evaluate::spec_is_evaluation;
use crate::evaluate::spec_tip_issues;
use crate::policy::SATURATION_SCALE;
use crate::policy::ThresholdPolicy;
use crate::report::HealthMetrics;
use crate::report::Issue;
use crate::report::SaturationStatus;
use crate::stake::spec_pool_stake;
use crate::stake::spec_total_stake;

verus! {

/// Law: a pool whose queries all succeeded and whose metrics all lie within
/// the policy bounds — the stake share does not exceed the alert threshold,
/// blocks were produced whenever some were expected, and production is at
/// most one block short — evaluates as healthy, with an empty issue list.
pub proof fn lemma_healthy_when_within_bounds(
    r: HealthMetrics,
    pool: PoolConfig,
    obs: Observation,
    policy: ThresholdPolicy,
)
    requires
        spec_is_evaluation(r, pool, obs, policy),
        obs.tip is Ok,
        obs.stake matches Ok(d) && (spec_total_stake(d) == 0 || spec_pool_stake(d, pool.pool_id@)
            * SATURATION_SCALE <= policy.saturation_threshold_permyriad * spec_total_stake(d)),
        obs.blocks matches Ok(b) && (b.actual > 0 || b.expected == 0) && b.actual + 1
            >= b.expected,
    ensures
        r.is_healthy,
        r.issues@.len() == 0,
{
    assert(spec_tip_issues(obs.tip) =~= Seq::<Issue>::empty());
    assert(spec_block_issues(obs.blocks) =~= Seq::<Issue>::empty());
}

/// An issue that concerns the saturation check.
pub open spec fn spec_is_saturation_issue(i: Issue) -> bool {
    i is SaturationUnknown || i is Oversaturated
}

/// Law: when the stake-distribution query failed, the saturation state of
/// the evaluation is unknown and its issue list holds exactly one
/// saturation-related entry.
pub proof fn lemma_stake_failure_reported(
    r: HealthMetrics,
    pool: PoolConfig,
    obs: Observation,
    policy: ThresholdPolicy,
)
    requires
        spec_is_evaluation(r, pool, obs, policy),
        obs.stake is Err,
    ensures
        r.saturation_status is Unknown,
        r.issues@.exactly_one(|i: Issue| spec_is_saturation_issue(i)),
{
    broadcast use Seq::filter_distributes_over_add;

    let pred = |i: Issue| spec_is_saturation_issue(i);
    let t = spec_tip_issues(obs.tip);
    let s = seq![Issue::SaturationUnknown];
    let b = spec_block_issues(obs.blocks);
    assert(r.issues@ == t + s + b);
    reveal_with_fuel(Seq::filter, 3);
    assert(s.drop_last() =~= Seq::<Issue>::empty());
    assert(s.filter(pred) =~= s);
    match obs.tip {
        Ok(_) => {
            assert(t =~= Seq::<Issue>::empty());
            assert(t.filter(pred) =~= Seq::<Issue>::empty());
        },
        Err(_) => {
            assert(t =~= seq![Issue::NodeUnreachable]);
            assert(t.drop_last() =~= Seq::<Issue>::empty());
            assert(t.filter(pred) =~= Seq::<Issue>::empty());
        },
    }
    match obs.blocks {
        Ok(bc) => {
            if bc.actual == 0 && bc.expected > 0 {
                assert(b =~= seq![Issue::NoBlocksProduced]);
                assert(b.drop_last() =~= Seq::<Issue>::empty());
                assert(b.filter(pred) =~= Seq::<Issue>::empty());
            } else if bc.actual + 1 < bc.expected {
                assert(b =~= seq![Issue::Underperforming]);
                assert(b.drop_last() =~= Seq::<Issue>::empty());
                assert(b.filter(pred) =~= Seq::<Issue>::empty());
            } else {
                assert(b =~= Seq::<Issue>::empty());
                assert(b.filter(pred) =~= Seq::<Issue>::empty());
            }
        },
        Err(_) => {
            assert(b =~= Seq::<Issue>::empty());
            assert(b.filter(pred) =~= Seq::<Issue>::empty());
        },
    }
    assert(r.issues@.filter(pred) =~= s);
}

/// Severity order of the saturation classes a classification can yield.
/// The classifier never yields `Unknown`, which is ranked with the lowest.
pub open spec fn spec_saturation_rank(s: SaturationStatus) -> int {
    match s {
        SaturationStatus::Low { .. } => 0,
        SaturationStatus::Unknown => 0,
        SaturationStatus::Optimal { .. } => 1,
        SaturationStatus::High { .. } => 2,
        SaturationStatus::Oversaturated { .. } => 3,
    }
}

proof fn lemma_exceeds_carries(p1: u64, t1: u64, p2: u64, t2: u64, thr: u64)
    requires
        t1 > 0,
        t2 > 0,
        p1 * t2 <= p2 * t1,
        p1 * SATURATION_SCALE > thr * t1,
    ensures
        p2 * SATURATION_SCALE > thr * t2,
{
    assert(p2 * SATURATION_SCALE * t1 > thr * t2 * t1) by (nonlinear_arith)
        requires
            t1 > 0,
            t2 > 0,
            p1 * t2 <= p2 * t1,
            p1 * SATURATION_SCALE > thr * t1,
    ;
    assert(p2 * SATURATION_SCALE > thr * t2) by (nonlinear_arith)
        requires
            t1 > 0,
            p2 * SATURATION_SCALE * t1 > thr * t2 * t1,
    ;
}

/// Law: the saturation classification is monotone in the measured share —
/// a pool holding at least as large a share of the network stake as
/// another never classifies below it under the same policy.  The shares
/// are compared as exact rationals, `p1 / t1 <= p2 / t2` written as
/// `p1 * t2 <= p2 * t1`.
pub proof fn lemma_saturation_monotonic_in_share(
    p1: u64,
    t1: u64,
    p2: u64,
    t2: u64,
    policy: ThresholdPolicy,
)
    requires
        t1 > 0,
        t2 > 0,
        p1 * t2 <= p2 * t1,
    ensures
        spec_saturation_rank(spec_classify_saturation(p1, t1, policy)) <= spec_saturation_rank(
            spec_classify_saturation(p2, t2, policy),
        ),
{
    let thr = policy.saturation_threshold_permyriad;
    if p1 * SATURATION_SCALE > thr * t1 {
        lemma_exceeds_carries(p1, t1, p2, t2, thr);
    } else if p1 * SATURATION_SCALE > 7000 * t1 {
        lemma_exceeds_carries(p1, t1, p2, t2, 7000);
    } else if p1 * SATURATION_SCALE > 100 * t1 {
        lemma_exceeds_carries(p1, t1, p2, t2, 100);
    }
}

/// Law: the saturation classification is antitone in the policy threshold —
/// raising the alert threshold never raises the classification of a fixed
/// measurement.
pub proof fn lemma_saturation_monotonic_in_threshold(
    p: u64,
    t: u64,
    lo: ThresholdPolicy,
    hi: ThresholdPolicy,
)
    requires
        lo.saturation_threshold_permyriad <= hi.saturation_threshold_permyriad,
    ensures
        spec_saturation_rank(spec_classify_saturation(p, t, hi)) <= spec_saturation_rank(
            spec_classify_saturation(p, t, lo),
        ),
{
    if t > 0 {
        assert(lo.saturation_threshold_permyriad * t <= hi.saturation_threshold_permyriad * t)
            by (nonlinear_arith)
            requires
                lo.saturation_threshold_permyriad <= hi.saturation_threshold_permyriad,
                t >= 0,
        ;
    }
}

/// Law: evaluation is idempotent — two reports evaluated from the same
/// pool, the same adapter answers and the same policy agree on every
/// classification field, on the issue list and on the health flag.  The
/// timestamp and the measured latency are the only fields left free.
pub proof fn lemma_evaluation_idempotent(
    r1: HealthMetrics,
    r2: HealthMetrics,
    pool: PoolConfig,
    obs: Observation,
    policy: ThresholdPolicy,
)
    requires
        spec_is_evaluation(r1, pool, obs, policy),
        spec_is_evaluation(r2, pool, obs, policy),
    ensures
        r1.sync_status == r2.sync_status,
        r1.saturation_status == r2.saturation_status,
        r1.block_production == r2.block_production,
        r1.issues@ == r2.issues@,
        r1.is_healthy == r2.is_healthy,
        r1.pool_id == r2.pool_id,
        r1.pool_name == r2.pool_name,
{
}

} // verus!
