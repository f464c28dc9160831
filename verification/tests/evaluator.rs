use cardano_validator::config::PoolConfig;
use cardano_validator::evaluate::AdapterError;
use cardano_validator::evaluate::BlockCount;
use cardano_validator::evaluate::Observation;
use cardano_validator::evaluate::TipInfo;
use cardano_validator::evaluate::evaluate_observation;
use cardano_validator::policy::ThresholdPolicy;
use cardano_validator::report::BlockProductionStatus;
use cardano_validator::report::Issue;
use cardano_validator::report::SaturationStatus;
use cardano_validator::report::SyncStatus;
use cardano_validator::stake::StakeDistribution;
use cardano_validator::stake::StakeEntry;
use cardano_validator::stake::get_pool_stake_from_distribution;
use cardano_validator::stake::get_total_stake;

fn pool() -> PoolConfig {
    PoolConfig {
        pool_id: "pool1abc".to_string(),
        name: "My Stake Pool".to_string(),
        ticker: "DEMO".to_string(),
        vrf_key_file: "vrf.vkey".to_string(),
        pledge_address: "addr1...".to_string(),
        reward_address: "stake1...".to_string(),
    }
}

fn entry(pool_id: &str, stake: u64) -> StakeEntry {
    StakeEntry { pool_id: pool_id.to_string(), stake }
}

fn distribution_with(pool_stake: u64, total: u64) -> StakeDistribution {
    StakeDistribution {
        pool_entries: Some(vec![entry("pool1abc", pool_stake)]),
        flat_entries: Vec::new(),
        total: Some(total),
        total_stake: None,
    }
}

fn good_observation() -> Observation {
    Observation {
        tip: Ok(TipInfo { slot: 45_123_456, epoch: 450 }),
        stake: Ok(distribution_with(420, 10_000)),
        blocks: Ok(BlockCount { actual: 3, expected: 4 }),
    }
}

#[test]
fn all_good_is_healthy_with_no_issues() {
    let obs = good_observation();
    let r = evaluate_observation(&pool(), &obs, &ThresholdPolicy::default(), 1_000, 25);
    assert!(r.is_healthy);
    assert!(r.issues.is_empty());
    assert_eq!(r.sync_status, SyncStatus::Synced);
    assert_eq!(r.saturation_status, SaturationStatus::Optimal { permyriad: 420 });
    assert_eq!(
        r.block_production,
        BlockProductionStatus::Healthy { blocks_current_epoch: 3, expected: 4 }
    );
    assert_eq!(r.pool_id, "pool1abc");
    assert_eq!(r.pool_name, "My Stake Pool");
    assert_eq!(r.timestamp, 1_000);
    assert_eq!(r.response_time_ms, 25);
}

#[test]
fn stake_query_failure_yields_unknown_and_one_saturation_issue() {
    let mut obs = good_observation();
    obs.stake = Err(AdapterError::Timeout);
    let r = evaluate_observation(&pool(), &obs, &ThresholdPolicy::default(), 0, 0);
    assert_eq!(r.saturation_status, SaturationStatus::Unknown);
    let saturation_issues = r
        .issues
        .iter()
        .filter(|i| matches!(i, Issue::SaturationUnknown | Issue::Oversaturated { .. }))
        .count();
    assert_eq!(saturation_issues, 1);
    assert_eq!(r.issues, vec![Issue::SaturationUnknown]);
    assert!(!r.is_healthy);
}

#[test]
fn tip_query_failure_records_node_unreachable() {
    let mut obs = good_observation();
    obs.tip = Err(AdapterError::Unreachable);
    let r = evaluate_observation(&pool(), &obs, &ThresholdPolicy::default(), 0, 0);
    assert_eq!(r.sync_status, SyncStatus::Unknown);
    assert_eq!(r.issues, vec![Issue::NodeUnreachable]);
    assert!(!r.is_healthy);
}

#[test]
fn block_query_failure_is_unknown_without_issue() {
    // Deliberate asymmetry against the tip and saturation checks: an
    // unavailable block count alone raises no issue.
    let mut obs = good_observation();
    obs.blocks = Err(AdapterError::Timeout);
    let r = evaluate_observation(&pool(), &obs, &ThresholdPolicy::default(), 0, 0);
    assert_eq!(r.block_production, BlockProductionStatus::Unknown);
    assert!(r.is_healthy);
    assert!(r.issues.is_empty());
}

#[test]
fn oversaturated_pool_records_issue_with_measurement() {
    let mut obs = good_observation();
    obs.stake = Ok(distribution_with(9_000, 10_000));
    let r = evaluate_observation(&pool(), &obs, &ThresholdPolicy::default(), 0, 0);
    assert_eq!(r.saturation_status, SaturationStatus::Oversaturated { permyriad: 9000 });
    assert_eq!(r.issues, vec![Issue::Oversaturated { permyriad: 9000 }]);
    assert!(!r.is_healthy);
}

#[test]
fn no_blocks_records_issue() {
    let mut obs = good_observation();
    obs.blocks = Ok(BlockCount { actual: 0, expected: 4 });
    let r = evaluate_observation(&pool(), &obs, &ThresholdPolicy::default(), 0, 0);
    assert_eq!(r.block_production, BlockProductionStatus::NoBlocks { expected: 4 });
    assert_eq!(r.issues, vec![Issue::NoBlocksProduced]);
    assert!(!r.is_healthy);
}

#[test]
fn underperformance_records_issue() {
    let mut obs = good_observation();
    obs.blocks = Ok(BlockCount { actual: 2, expected: 4 });
    let r = evaluate_observation(&pool(), &obs, &ThresholdPolicy::default(), 0, 0);
    assert_eq!(
        r.block_production,
        BlockProductionStatus::Underperforming { blocks_current_epoch: 2, expected: 4 }
    );
    assert_eq!(r.issues, vec![Issue::Underperforming]);
}

#[test]
fn zero_slot_tip_is_unknown_without_issue() {
    let mut obs = good_observation();
    obs.tip = Ok(TipInfo { slot: 0, epoch: 0 });
    let r = evaluate_observation(&pool(), &obs, &ThresholdPolicy::default(), 0, 0);
    assert_eq!(r.sync_status, SyncStatus::Unknown);
    assert!(r.is_healthy);
}

#[test]
fn evaluation_is_idempotent_up_to_timing() {
    let obs1 = Observation {
        tip: Err(AdapterError::Unreachable),
        stake: Ok(distribution_with(9_000, 10_000)),
        blocks: Ok(BlockCount { actual: 0, expected: 4 }),
    };
    let obs2 = Observation {
        tip: Err(AdapterError::Unreachable),
        stake: Ok(distribution_with(9_000, 10_000)),
        blocks: Ok(BlockCount { actual: 0, expected: 4 }),
    };
    let r1 = evaluate_observation(&pool(), &obs1, &ThresholdPolicy::default(), 10, 5);
    let r2 = evaluate_observation(&pool(), &obs2, &ThresholdPolicy::default(), 99, 7);
    assert_eq!(r1.sync_status, r2.sync_status);
    assert_eq!(r1.saturation_status, r2.saturation_status);
    assert_eq!(r1.block_production, r2.block_production);
    assert_eq!(r1.issues, r2.issues);
    assert_eq!(r1.is_healthy, r2.is_healthy);
    assert_ne!(r1.timestamp, r2.timestamp);
}

#[test]
fn issue_order_follows_the_checks() {
    let obs = Observation {
        tip: Err(AdapterError::Unreachable),
        stake: Err(AdapterError::Timeout),
        blocks: Ok(BlockCount { actual: 0, expected: 4 }),
    };
    let r = evaluate_observation(&pool(), &obs, &ThresholdPolicy::default(), 0, 0);
    assert_eq!(
        r.issues,
        vec![Issue::NodeUnreachable, Issue::SaturationUnknown, Issue::NoBlocksProduced]
    );
    assert!(!r.is_healthy);
}

#[test]
fn nested_pool_grouping_takes_precedence() {
    let d = StakeDistribution {
        pool_entries: Some(vec![entry("pool1abc", 111)]),
        flat_entries: vec![entry("pool1abc", 222)],
        total: Some(10_000),
        total_stake: None,
    };
    assert_eq!(get_pool_stake_from_distribution(&d, &"pool1abc".to_string()), 111);
}

#[test]
fn flat_entries_are_the_fallback() {
    let d = StakeDistribution {
        pool_entries: Some(vec![entry("pool1other", 111)]),
        flat_entries: vec![entry("pool1abc", 222)],
        total: Some(10_000),
        total_stake: None,
    };
    assert_eq!(get_pool_stake_from_distribution(&d, &"pool1abc".to_string()), 222);
}

#[test]
fn unlisted_pool_holds_zero_stake() {
    let d = StakeDistribution {
        pool_entries: Some(vec![entry("pool1other", 111)]),
        flat_entries: Vec::new(),
        total: Some(10_000),
        total_stake: None,
    };
    assert_eq!(get_pool_stake_from_distribution(&d, &"pool1abc".to_string()), 0);
}

#[test]
fn zero_stake_classifies_low_not_unknown() {
    let mut obs = good_observation();
    obs.stake = Ok(StakeDistribution {
        pool_entries: Some(vec![entry("pool1other", 10_000)]),
        flat_entries: Vec::new(),
        total: Some(10_000),
        total_stake: None,
    });
    let r = evaluate_observation(&pool(), &obs, &ThresholdPolicy::default(), 0, 0);
    assert_eq!(r.saturation_status, SaturationStatus::Low { permyriad: 0 });
    assert!(r.is_healthy);
}

#[test]
fn explicit_total_takes_precedence() {
    let d = StakeDistribution {
        pool_entries: Some(vec![entry("pool1abc", 100)]),
        flat_entries: Vec::new(),
        total: Some(1_000),
        total_stake: Some(2_000),
    };
    assert_eq!(get_total_stake(&d), 1_000);
}

#[test]
fn alternate_total_is_second_choice() {
    let d = StakeDistribution {
        pool_entries: Some(vec![entry("pool1abc", 100)]),
        flat_entries: Vec::new(),
        total: None,
        total_stake: Some(2_000),
    };
    assert_eq!(get_total_stake(&d), 2_000);
}

#[test]
fn total_falls_back_to_sum_of_pool_grouping() {
    let d = StakeDistribution {
        pool_entries: Some(vec![entry("pool1abc", 100), entry("pool1other", 250)]),
        flat_entries: vec![entry("pool1flat", 5_000)],
        total: None,
        total_stake: None,
    };
    assert_eq!(get_total_stake(&d), 350);
}

#[test]
fn total_without_any_source_is_zero() {
    let d = StakeDistribution {
        pool_entries: None,
        flat_entries: vec![entry("pool1abc", 100)],
        total: None,
        total_stake: None,
    };
    assert_eq!(get_total_stake(&d), 0);
}

#[test]
fn sum_of_stakes_saturates_instead_of_wrapping() {
    let d = StakeDistribution {
        pool_entries: Some(vec![entry("pool1a", u64::MAX), entry("pool1b", 7)]),
        flat_entries: Vec::new(),
        total: None,
        total_stake: None,
    };
    assert_eq!(get_total_stake(&d), u64::MAX);
}
