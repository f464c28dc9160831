use vstd::prelude::*;

use crate::config::PoolConfig;
use crate::evaluate::AdapterError;
use crate::evaluate::BlockCount;
use crate::evaluate::Observation;
use crate::evaluate::TipInfo;
use crate::evaluate::evaluate_observation;
use crate::evaluate::spec_is_evaluation;
use crate::policy::ThresholdPolicy;
use crate::report::HealthMetrics;
use crate::report::Issue;
use crate::stake::StakeDistribution;

verus! {

/// A source that answers the monitor's queries.  Two interchangeable
/// implementations live outside the core — a local process query interface
/// and a remote indexing API — and each call independently succeeds or
/// fails.  The evaluator never branches on which implementation it holds,
/// only on the outcome of a call, so nothing is assumed of the answers.
pub trait DataSourceAdapter {
    /// The current chain tip, when the source can tell.
    fn query_tip(&mut self) -> Result<TipInfo, AdapterError>;

    /// The stake distribution over pools, when the source can tell.
    fn query_stake_distribution(&mut self) -> Result<StakeDistribution, AdapterError>;

    /// Blocks produced and expected for one pool in one epoch, when the
    /// source can tell.
    fn query_block_count(&mut self, pool_id: &String, epoch: u64) -> Result<
        BlockCount,
        AdapterError,
    >;
}

/// A source of wall-clock time in milliseconds since the epoch.  Nothing is
/// assumed of the values it returns; latencies are computed defensively.
pub trait Clock {
    fn now_millis(&mut self) -> u64;
}

/// Why a sink could not take a batch of reports.
#[derive(Clone, Copy, Debug, PartialEq, Eq, Structural)]
pub enum SinkError {
    /// An alert could not be delivered to its channel.
    DeliveryFailed,
    /// An export artifact could not be written.
    ExportFailed,
}

/// A consumer of one tick's batch of reports that performs an external side
/// effect (alerting, export, display).  A failure is reported through the
/// returned error and swallowed by the loop: it stops neither the other
/// sinks nor the monitoring itself.
pub trait Sink {
    fn handle(&mut self, reports: &Vec<HealthMetrics>) -> Result<(), SinkError>;
}

/// The report is the evaluation of the pool against some set of adapter
/// answers: all the constraints of `spec_is_evaluation` hold of it for an
/// observation that existed, even though the answers themselves are not
/// retained.
pub open spec fn spec_is_some_evaluation(
    r: HealthMetrics,
    pool: PoolConfig,
    policy: ThresholdPolicy,
) -> bool {
    exists|obs: Observation| spec_is_evaluation(r, pool, obs, policy)
}

/// Produce one pool's report by querying the adapter for the tip, the stake
/// distribution and the block count, and classifying the answers.  Never
/// fails, whatever the adapter answers: the report is an evaluation of some
/// observation, and its health flag says exactly that no issue was found.
pub fn evaluate_pool<A: DataSourceAdapter, C: Clock>(
    adapter: &mut A,
    clock: &mut C,
    pool: &PoolConfig,
    policy: &ThresholdPolicy,
) -> (r: HealthMetrics)
    ensures
        spec_is_some_evaluation(r, *pool, *policy),
        r.wf(),
        r.pool_id == pool.pool_id,
        r.pool_name == pool.name,
{
    let start = clock.now_millis();
    let tip = adapter.query_tip();
    let epoch = match &tip {
        Ok(t) => t.epoch,
        Err(_) => 0,
    };
    let stake = adapter.query_stake_distribution();
    let blocks = adapter.query_block_count(&pool.pool_id, epoch);
    let end = clock.now_millis();
    let response_time_ms = if end >= start {
        end - start
    } else {
        0
    };
    let obs = Observation { tip, stake, blocks };
    let r = evaluate_observation(pool, &obs, policy, start / 1000, response_time_ms);
    proof {
        assert(spec_is_evaluation(r, *pool, obs, *policy));
        assert(spec_is_some_evaluation(r, *pool, *policy));
    }
    r
}

/// Every report of a batch is the evaluation of the pool at its position:
/// reports come in pool-configuration order, each classified from some set
/// of adapter answers, each with its health flag tied to its issue list.
pub open spec fn spec_batch_ok(
    batch: Seq<HealthMetrics>,
    pools: Seq<PoolConfig>,
    policy: ThresholdPolicy,
) -> bool {
    &&& batch.len() == pools.len()
    &&& forall|j: int|
        0 <= j < batch.len() ==> spec_is_some_evaluation(#[trigger] batch[j], pools[j], policy)
    &&& forall|j: int| 0 <= j < batch.len() ==> (#[trigger] batch[j]).wf()
}

/// Hand one batch to every registered sink, in order.  The returned flags
/// say which sinks took the batch; a failure is isolated to its sink.
pub fn dispatch_batch<S: Sink>(sinks: &mut Vec<S>, reports: &Vec<HealthMetrics>) -> (delivered:
    Vec<bool>)
    ensures
        delivered@.len() == old(sinks)@.len(),
        final(sinks)@.len() == old(sinks)@.len(),
{
    let n = sinks.len();
    let mut delivered: Vec<bool> = Vec::new();
    let mut i: usize = 0;
    while i < n
        invariant
            0 <= i <= n,
            sinks@.len() == n,
            delivered@.len() == i,
        decreases n - i,
    {
        let outcome = sinks[i].handle(reports);
        delivered.push(outcome.is_ok());
        i = i + 1;
    }
    delivered
}

/// One monitoring tick, shared by the one-shot and the continuous mode:
/// evaluate every configured pool sequentially, in configuration order,
/// then hand the full batch to every sink.  A sink failure never stops the
/// tick.
pub fn monitor_tick<A: DataSourceAdapter, C: Clock, S: Sink>(
    adapter: &mut A,
    clock: &mut C,
    pools: &Vec<PoolConfig>,
    policy: &ThresholdPolicy,
    sinks: &mut Vec<S>,
) -> (batch: Vec<HealthMetrics>)
    ensures
        spec_batch_ok(batch@, pools@, *policy),
        forall|j: int|
            0 <= j < batch@.len() ==> (#[trigger] batch@[j]).pool_id == pools@[j].pool_id
                && batch@[j].pool_name == pools@[j].name,
        final(sinks)@.len() == old(sinks)@.len(),
{
    let n = pools.len();
    let mut batch: Vec<HealthMetrics> = Vec::new();
    let mut i: usize = 0;
    while i < n
        invariant
            0 <= i <= n,
            n == pools@.len(),
            batch@.len() == i,
            forall|j: int|
                0 <= j < i ==> spec_is_some_evaluation(#[trigger] batch@[j], pools@[j], *policy),
            forall|j: int| 0 <= j < i ==> (#[trigger] batch@[j]).wf(),
            forall|j: int|
                0 <= j < i ==> (#[trigger] batch@[j]).pool_id == pools@[j].pool_id
                    && batch@[j].pool_name == pools@[j].name,
        decreases n - i,
    {
        let r = evaluate_pool(adapter, clock, &pools[i], policy);
        batch.push(r);
        i = i + 1;
    }
    let _delivered = dispatch_batch(sinks, &batch);
    batch
}

/// Run the monitor for a fixed number of ticks over a fixed pool set: each
/// tick evaluates every pool and dispatches exactly one batch of
/// `pools.len()` reports, in pool-configuration order, to every sink.  The
/// guarantee holds for every sink implementation, so a sink that always
/// fails never halts the run short of its tick count.  The continuous mode
/// outside the core drives the same tick function until cancelled; the
/// one-shot mode is this run with a single tick.
pub fn run_ticks<A: DataSourceAdapter, C: Clock, S: Sink>(
    adapter: &mut A,
    clock: &mut C,
    pools: &Vec<PoolConfig>,
    policy: &ThresholdPolicy,
    sinks: &mut Vec<S>,
    ticks: usize,
) -> (batches: Vec<Vec<HealthMetrics>>)
    ensures
        batches@.len() == ticks,
        forall|k: int|
            0 <= k < ticks ==> spec_batch_ok((#[trigger] batches@[k])@, pools@, *policy),
        final(sinks)@.len() == old(sinks)@.len(),
{
    let mut batches: Vec<Vec<HealthMetrics>> = Vec::new();
    let mut t: usize = 0;
    while t < ticks
        invariant
            0 <= t <= ticks,
            batches@.len() == t,
            sinks@.len() == old(sinks)@.len(),
            forall|k: int|
                0 <= k < t ==> spec_batch_ok((#[trigger] batches@[k])@, pools@, *policy),
        decreases ticks - t,
    {
        let batch = monitor_tick(adapter, clock, pools, policy, sinks);
        batches.push(batch);
        t = t + 1;
    }
    batches
}

/// A structured alert for one unhealthy report: the pool's identity, the
/// findings, and the timestamp of the evaluation that raised it.
#[derive(Clone, Debug)]
pub struct Alert {
    pub pool_id: String,
    pub pool_name: String,
    pub timestamp: u64,
    pub issues: Vec<Issue>,
}

/// The alert carries exactly the identity, findings and timestamp of the
/// report that raised it.
pub open spec fn spec_alert_matches(a: Alert, r: HealthMetrics) -> bool {
    &&& a.pool_id == r.pool_id
    &&& a.pool_name == r.pool_name
    &&& a.timestamp == r.timestamp
    &&& a.issues@ == r.issues@
}

/// The unhealthy reports of a batch, in batch order.
pub open spec fn spec_unhealthy(batch: Seq<HealthMetrics>) -> Seq<HealthMetrics>
    decreases batch.len(),
{
    if batch.len() == 0 {
        Seq::<HealthMetrics>::empty()
    } else {
        let rest = spec_unhealthy(batch.drop_last());
        if batch.last().is_healthy {
            rest
        } else {
            rest.push(batch.last())
        }
    }
}

fn copy_issues(issues: &Vec<Issue>) -> (r: Vec<Issue>)
    ensures
        r@ == issues@,
{
    let n = issues.len();
    let mut r: Vec<Issue> = Vec::new();
    let mut i: usize = 0;
    while i < n
        invariant
            0 <= i <= n,
            n == issues@.len(),
            r@ =~= issues@.take(i as int),
        decreases n - i,
    {
        r.push(issues[i]);
        i = i + 1;
    }
    proof {
        assert(issues@.take(n as int) =~= issues@);
    }
    r
}

/// Partition a batch by health and build the structured alert for each
/// unhealthy report, in batch order.  Delivery of the alerts is a sink's
/// business and fire-and-forget for the loop.
pub fn alerts_for_batch(batch: &Vec<HealthMetrics>) -> (alerts: Vec<Alert>)
    ensures
        alerts@.len() == spec_unhealthy(batch@).len(),
        forall|m: int|
            0 <= m < alerts@.len() ==> spec_alert_matches(
                #[trigger] alerts@[m],
                spec_unhealthy(batch@)[m],
            ),
{
    let n = batch.len();
    let mut alerts: Vec<Alert> = Vec::new();
    let mut i: usize = 0;
    proof {
        assert(batch@.take(0) =~= Seq::<HealthMetrics>::empty());
    }
    while i < n
        invariant
            0 <= i <= n,
            n == batch@.len(),
            alerts@.len() == spec_unhealthy(batch@.take(i as int)).len(),
            forall|m: int|
                0 <= m < alerts@.len() ==> spec_alert_matches(
                    #[trigger] alerts@[m],
                    spec_unhealthy(batch@.take(i as int))[m],
                ),
        decreases n - i,
    {
        proof {
            assert(batch@.take(i as int + 1).drop_last() =~= batch@.take(i as int));
            assert(batch@.take(i as int + 1).last() == batch@[i as int]);
        }
        if !batch[i].is_healthy {
            let alert = Alert {
                pool_id: batch[i].pool_id.clone(),
                pool_name: batch[i].pool_name.clone(),
                timestamp: batch[i].timestamp,
                issues: copy_issues(&batch[i].issues),
            };
            alerts.push(alert);
        }
        i = i + 1;
    }
    proof {
        assert(batch@.take(n as int) =~= batch@);
    }
    alerts
}

} // verus!
