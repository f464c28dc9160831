use cardano_validator::config::validate_blockfrost_key;
use cardano_validator::config::validate_pool_id;
use cardano_validator::evaluate::AdapterError;
use cardano_validator::evaluate::TipInfo;
use cardano_validator::json::parse_stake_response;
use cardano_validator::json::parse_tip_response;
use cardano_validator::report::Issue;
use cardano_validator::stake::get_pool_stake_from_distribution;
use cardano_validator::stake::get_total_stake;
use cardano_validator::util::TimestampParts;
use cardano_validator::util::parse_u64;
use cardano_validator::util::timestamp_parts;
use cardano_validator::util::truncate_pool_id;

#[test]
fn parse_u64_reads_decimal_numbers() {
    assert_eq!(parse_u64("0"), Some(0));
    assert_eq!(parse_u64("123"), Some(123));
    assert_eq!(parse_u64("007"), Some(7));
    assert_eq!(parse_u64("1000000000000"), Some(1_000_000_000_000));
    assert_eq!(parse_u64("18446744073709551615"), Some(u64::MAX));
}

#[test]
fn parse_u64_rejects_non_numbers() {
    assert_eq!(parse_u64(""), None);
    assert_eq!(parse_u64("abc"), None);
    assert_eq!(parse_u64("12a"), None);
    assert_eq!(parse_u64("-5"), None);
    assert_eq!(parse_u64(" 5"), None);
    assert_eq!(parse_u64("18446744073709551616"), None);
    assert_eq!(parse_u64("99999999999999999999999"), None);
}

#[test]
fn tip_response_reads_slot_and_epoch() {
    let r = parse_tip_response("{\"slot\": 45123456, \"epoch\": 450, \"syncProgress\": \"100.00\"}");
    assert_eq!(r, Ok(TipInfo { slot: 45_123_456, epoch: 450 }));
}

#[test]
fn tip_response_missing_fields_read_as_zero() {
    let r = parse_tip_response("{}");
    assert_eq!(r, Ok(TipInfo { slot: 0, epoch: 0 }));
    let r = parse_tip_response("{\"slot\": \"not a number\"}");
    assert_eq!(r, Ok(TipInfo { slot: 0, epoch: 0 }));
}

#[test]
fn tip_response_rejects_malformed_text() {
    let r = parse_tip_response("not json at all");
    assert_eq!(r, Err(AdapterError::Malformed));
}

#[test]
fn stake_response_resolves_nested_grouping() {
    let raw = "{\"pools\": {\"pool1abc\": \"1000\", \"pool1def\": \"3000\"}, \"total\": \"10000\"}";
    let d = parse_stake_response(raw).unwrap();
    assert_eq!(get_pool_stake_from_distribution(&d, &"pool1abc".to_string()), 1_000);
    assert_eq!(get_pool_stake_from_distribution(&d, &"pool1def".to_string()), 3_000);
    assert_eq!(get_pool_stake_from_distribution(&d, &"pool1nope".to_string()), 0);
    assert_eq!(get_total_stake(&d), 10_000);
}

#[test]
fn stake_response_resolves_flat_lookup() {
    let raw = "{\"pool1abc\": \"2500\", \"totalStake\": \"10000\"}";
    let d = parse_stake_response(raw).unwrap();
    assert_eq!(get_pool_stake_from_distribution(&d, &"pool1abc".to_string()), 2_500);
    assert_eq!(get_total_stake(&d), 10_000);
}

#[test]
fn stake_response_sums_grouping_when_no_total_is_stated() {
    let raw = "{\"pools\": {\"pool1abc\": \"1000\", \"pool1def\": \"3000\"}}";
    let d = parse_stake_response(raw).unwrap();
    assert_eq!(get_total_stake(&d), 4_000);
}

#[test]
fn stake_response_reads_unparsable_stake_as_zero() {
    let raw = "{\"pools\": {\"pool1abc\": \"many\"}, \"total\": \"10000\"}";
    let d = parse_stake_response(raw).unwrap();
    assert_eq!(get_pool_stake_from_distribution(&d, &"pool1abc".to_string()), 0);
}

#[test]
fn stake_response_rejects_malformed_text() {
    let r = parse_stake_response("][");
    assert!(matches!(r, Err(AdapterError::Malformed)));
}

#[test]
fn timestamp_parts_decompose_exactly() {
    assert_eq!(
        timestamp_parts(90_061),
        TimestampParts { days: 1, hours: 1, minutes: 1, seconds: 1 }
    );
    assert_eq!(
        timestamp_parts(0),
        TimestampParts { days: 0, hours: 0, minutes: 0, seconds: 0 }
    );
    assert_eq!(
        timestamp_parts(86_399),
        TimestampParts { days: 0, hours: 23, minutes: 59, seconds: 59 }
    );
}

#[test]
fn truncate_shortens_long_identifiers() {
    let id = "pool1abcdefghijklmnopqrstuvwxyz0123456789abcdefghijklmno";
    assert_eq!(id.len(), 56);
    assert_eq!(truncate_pool_id(id), "pool1abc...lmno");
}

#[test]
fn truncate_keeps_short_identifiers() {
    assert_eq!(truncate_pool_id("pool1abc"), "pool1abc");
}

#[test]
fn pool_id_validation() {
    let good = "pool1abcdefghijklmnopqrstuvwxyz0123456789abcdefghijklmno";
    assert_eq!(good.len(), 56);
    assert!(validate_pool_id(good));
    assert!(!validate_pool_id("pool1tooshort"));
    let wrong_prefix = "stake1bcdefghijklmnopqrstuvwxyz0123456789abcdefghijklmno";
    assert_eq!(wrong_prefix.len(), 56);
    assert!(!validate_pool_id(wrong_prefix));
}

#[test]
fn blockfrost_key_validation() {
    assert!(validate_blockfrost_key("mainnetSECRETKEY123", "mainnet"));
    assert!(!validate_blockfrost_key("short", "mainnet"));
    assert!(!validate_blockfrost_key("testnetSECRETKEY123", "mainnet"));
}

#[test]
fn issue_labels_match_report_wording() {
    assert_eq!(Issue::NodeUnreachable.label(), "Node unreachable");
    assert_eq!(Issue::Oversaturated { permyriad: 9000 }.label(), "Pool oversaturated");
    assert_eq!(Issue::SaturationUnknown.label(), "Cannot determine saturation");
    assert_eq!(Issue::NoBlocksProduced.label(), "No blocks produced this epoch");
    assert_eq!(Issue::Underperforming.label(), "Underperforming block production");
}
