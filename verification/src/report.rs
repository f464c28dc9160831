use vstd::prelude::*;

verus! {

/// How far the queried node has synchronised, as one tip query shows it.
#[derive(Clone, Copy, Debug, PartialEq, Eq, Structural)]
pub enum SyncStatus {
    Synced,
    Syncing { blocks_behind: u64 },
    OutOfSync { blocks_behind: u64 },
    Unknown,
}

/// The share of the total network stake delegated to a pool, classified
/// against the threshold policy.  The payload carries the measured share in
/// permyriad (hundredths of a percent), so a share of one quarter of the
/// network reads 2500.
#[derive(Clone, Copy, Debug, PartialEq, Eq, Structural)]
pub enum SaturationStatus {
    Optimal { permyriad: u64 },
    High { permyriad: u64 },
    Oversaturated { permyriad: u64 },
    Low { permyriad: u64 },
    Unknown,
}

/// Blocks produced in the current epoch, held against the expected count.
#[derive(Clone, Copy, Debug, PartialEq, Eq, Structural)]
pub enum BlockProductionStatus {
    Healthy { blocks_current_epoch: u64, expected: u64 },
    Underperforming { blocks_current_epoch: u64, expected: u64 },
    NoBlocks { expected: u64 },
    Unknown,
}

/// One adverse finding recorded during an evaluation cycle.  The variants are
/// closed so that every consumer has to handle each finding; rendering to
/// text happens outside the core.
#[derive(Clone, Copy, Debug, PartialEq, Eq, Structural)]
pub enum Issue {
    /// The chain-tip query failed: the node could not be reached.
    NodeUnreachable,
    /// The pool holds more of the network stake than the policy allows.
    Oversaturated { permyriad: u64 },
    /// The stake-distribution query failed, so saturation is unknown.
    SaturationUnknown,
    /// The pool produced no block this epoch although blocks were expected.
    NoBlocksProduced,
    /// The pool produced noticeably fewer blocks than expected.
    Underperforming,
}

impl Issue {
    /// The fixed description of the finding, as reports and alerts show it.
    pub fn label(&self) -> (r: &'static str)
        ensures
            *self is NodeUnreachable ==> r@ == "Node unreachable"@,
            *self is Oversaturated ==> r@ == "Pool oversaturated"@,
            *self is SaturationUnknown ==> r@ == "Cannot determine saturation"@,
            *self is NoBlocksProduced ==> r@ == "No blocks produced this epoch"@,
            *self is Underperforming ==> r@ == "Underperforming block production"@,
    {
        match self {
            Issue::NodeUnreachable => "Node unreachable",
            Issue::Oversaturated { .. } => "Pool oversaturated",
            Issue::SaturationUnknown => "Cannot determine saturation",
            Issue::NoBlocksProduced => "No blocks produced this epoch",
            Issue::Underperforming => "Underperforming block production",
        }
    }
}

/// One pool's health for one evaluation cycle: an immutable snapshot of the
/// classified states, the findings they caused, and the measured evaluation
/// latency.
#[derive(Clone, Debug)]
pub struct HealthMetrics {
    /// Seconds since the epoch at which the evaluation was made.
    pub timestamp: u64,
    pub pool_id: String,
    pub pool_name: String,
    pub is_healthy: bool,
    pub sync_status: SyncStatus,
    pub saturation_status: SaturationStatus,
    pub block_production: BlockProductionStatus,
    pub response_time_ms: u64,
    pub issues: Vec<Issue>,
}

impl HealthMetrics {
    /// The report invariant: the overall flag says exactly that no finding
    /// was recorded.
    pub open spec fn wf(self) -> bool {
        self.is_healthy == (self.issues@.len() == 0)
    }
}

} // verus!
