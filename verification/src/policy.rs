use vstd::prelude::*;

verus! {

/// Saturation shares are measured in permyriad: this many parts make the
/// whole network stake.
pub const SATURATION_SCALE: u64 = 10000;

/// Above this share the pool counts as highly saturated even when the policy
/// threshold is not yet reached (seven tenths of the network).
pub const HIGH_SATURATION_PERMYRIAD: u64 = 7000;

/// At or below this share the pool counts as low on stake (one hundredth of
/// the network).
pub const OPTIMAL_SATURATION_PERMYRIAD: u64 = 100;

/// Why a threshold policy could not be built.
#[derive(Clone, Copy, Debug, PartialEq, Eq, Structural)]
pub enum ConfigurationError {
    /// The saturation alert threshold must lie in (0, 1], that is in
    /// (0, SATURATION_SCALE] permyriad.
    InvalidSaturationThreshold,
    /// The monitoring poll interval must be positive.
    InvalidPollInterval,
}

/// The classification thresholds that an evaluation cycle consults, loaded
/// once at startup and read-only afterwards.
#[derive(Clone, Copy, Debug, PartialEq, Eq, Structural)]
pub struct ThresholdPolicy {
    /// Saturation alert threshold in permyriad of the total network stake.
    pub saturation_threshold_permyriad: u64,
    /// How many missed blocks are tolerated before alerting.
    pub missed_blocks_threshold: u64,
    /// Poll interval of the continuous monitoring loop, in seconds.
    pub check_interval_seconds: u64,
}

impl ThresholdPolicy {
    /// A valid policy: the saturation threshold is a fraction in (0, 1] and
    /// the poll interval is positive.
    pub open spec fn wf(self) -> bool {
        &&& 0 < self.saturation_threshold_permyriad <= SATURATION_SCALE
        &&& self.check_interval_seconds > 0
    }

    /// Build a policy, rejecting out-of-range thresholds.  Succeeds exactly
    /// when the saturation threshold lies in (0, 1] and the interval is
    /// positive; the missed-blocks threshold has no further constraint.
    pub fn new(
        saturation_threshold_permyriad: u64,
        missed_blocks_threshold: u64,
        check_interval_seconds: u64,
    ) -> (r: Result<ThresholdPolicy, ConfigurationError>)
        ensures
            r is Ok <==> (0 < saturation_threshold_permyriad <= SATURATION_SCALE
                && check_interval_seconds > 0),
            r matches Ok(p) ==> p == (ThresholdPolicy {
                saturation_threshold_permyriad,
                missed_blocks_threshold,
                check_interval_seconds,
            }),
            r matches Ok(p) ==> p.wf(),
            r matches Err(e) ==> (e is InvalidSaturationThreshold
                <==> !(0 < saturation_threshold_permyriad <= SATURATION_SCALE)),
    {
        if saturation_threshold_permyriad == 0
            || saturation_threshold_permyriad > SATURATION_SCALE {
            Err(ConfigurationError::InvalidSaturationThreshold)
        } else if check_interval_seconds == 0 {
            Err(ConfigurationError::InvalidPollInterval)
        } else {
            Ok(ThresholdPolicy {
                saturation_threshold_permyriad,
                missed_blocks_threshold,
                check_interval_seconds,
            })
        }
    }
}

impl Default for ThresholdPolicy {
    /// The policy the toolkit starts with: alert above four fifths of the
    /// network stake, tolerate two missed blocks, poll every thirty seconds.
    fn default() -> (r: Self)
        ensures
            r == (ThresholdPolicy {
                saturation_threshold_permyriad: 8000u64,
                missed_blocks_threshold: 2u64,
                check_interval_seconds: 30u64,
            }),
            r.wf(),
    {
        ThresholdPolicy {
            saturation_threshold_permyriad: 8000,
            missed_blocks_threshold: 2,
            check_interval_seconds: 30,
        }
    }
}

} // verus!
