use vstd::prelude::*;

use crate::policy::SATURATION_SCALE;

verus! {

/// The headline state of one pool in the status overview, derived from its
/// activity and its share of the network stake.
#[derive(Clone, Copy, Debug, PartialEq, Eq, Structural)]
pub enum PoolActivity {
    /// Active, holding more than ninety-five percent of a full pool's worth
    /// of stake.
    Oversaturated,
    /// Active, above seventy percent.
    HighSaturation,
    /// Active, above a tenth of a percent.
    Active,
    /// Active, but holding almost no stake.
    LowStake,
    /// Not active any more.
    Retired,
}

/// The overview classification: a retired pool stays retired whatever it
/// holds; an active pool is ranked by exact rational comparison of its
/// share against ninety-five percent, seventy percent and a tenth of a
/// percent.  A zero total reads as a zero share.
pub open spec fn spec_pool_activity(active: bool, pool_stake: u64, total_stake: u64) -> PoolActivity {
    if !active {
        PoolActivity::Retired
    } else if total_stake == 0 {
        PoolActivity::LowStake
    } else if pool_stake * SATURATION_SCALE > 9500 * total_stake {
        PoolActivity::Oversaturated
    } else if pool_stake * SATURATION_SCALE > 7000 * total_stake {
        PoolActivity::HighSaturation
    } else if pool_stake * SATURATION_SCALE > 10 * total_stake {
        PoolActivity::Active
    } else {
        PoolActivity::LowStake
    }
}

/// Classify one pool for the status overview.
pub fn classify_pool_activity(active: bool, pool_stake: u64, total_stake: u64) -> (r: PoolActivity)
    ensures
        r == spec_pool_activity(active, pool_stake, total_stake),
{
    if !active {
        return PoolActivity::Retired;
    }
    if total_stake == 0 {
        return PoolActivity::LowStake;
    }
    let scaled: u128 = (pool_stake as u128) * 10000;
    let t: u128 = total_stake as u128;
    if scaled > 9500 * t {
        PoolActivity::Oversaturated
    } else if scaled > 7000 * t {
        PoolActivity::HighSaturation
    } else if scaled > 10 * t {
        PoolActivity::Active
    } else {
        PoolActivity::LowStake
    }
}

} // verus!
