use vstd::prelude::*;

use crate::evaluate::AdapterError;
use crate::evaluate::TipInfo;
use crate::stake::StakeDistribution;
use crate::stake::StakeEntry;
use crate::util::parse_u64;

verus! {

#[verifier::external_type_specification]
#[verifier::external_body]
pub struct ExValue(serde_json::Value);

#[verifier::external_type_specification]
#[verifier::external_body]
pub struct ExJsonError(serde_json::Error);

/// Relies on serde_json::from_str: reads one JSON document from the text,
/// or fails on anything that is not well-formed JSON.  The document itself
/// is opaque here; verified readers take it apart field by field.
#[verifier::external_body]
fn parse_json(s: &str) -> (r: Result<serde_json::Value, serde_json::Error>) {
    serde_json::from_str(s)
}

/// Relies on serde_json::Value::get: the value under the key, when the
/// document is an object that has that key; nothing otherwise.
#[verifier::external_body]
fn json_get<'a>(v: &'a serde_json::Value, key: &str) -> (r: Option<&'a serde_json::Value>) {
    v.get(key)
}

/// Relies on serde_json::Value::as_u64: the number held by the value, when
/// it is an unsigned integer that fits; nothing otherwise.
#[verifier::external_body]
fn json_as_u64(v: &serde_json::Value) -> (r: Option<u64>) {
    v.as_u64()
}

/// Relies on serde_json::Value::as_str: the text held by the value, when it
/// is a string, copied out; nothing otherwise.
#[verifier::external_body]
fn json_as_string(v: &serde_json::Value) -> (r: Option<String>) {
    v.as_str().map(|s| s.to_string())
}

/// Relies on serde_json::Value::as_object: the fields of the value, when it
/// is an object, copied out as key-value pairs in the object's iteration
/// order; nothing otherwise.
#[verifier::external_body]
fn json_object_entries(v: &serde_json::Value) -> (r: Option<Vec<(String, serde_json::Value)>>) {
    v.as_object().map(|m| m.iter().map(|(k, val)| (k.clone(), val.clone())).collect())
}

/// The number held by a string field, read defensively: a field that is
/// missing, not a string, or not a decimal number reads as zero, as the
/// stake queries' answers are resolved.
fn u64_field_or_zero(v: &serde_json::Value, key: &str) -> u64 {
    match json_get(v, key) {
        Some(field) => match json_as_string(field) {
            Some(s) => match parse_u64(s.as_str()) {
                Some(n) => n,
                None => 0,
            },
            None => 0,
        },
        None => 0,
    }
}

/// Read the slot and the epoch out of a parsed tip answer; a field that is
/// missing or not a number reads as zero.
fn tip_from_json(v: &serde_json::Value) -> TipInfo {
    let slot = match json_get(v, "slot") {
        Some(field) => match json_as_u64(field) {
            Some(n) => n,
            None => 0,
        },
        None => 0,
    };
    let epoch = match json_get(v, "epoch") {
        Some(field) => match json_as_u64(field) {
            Some(n) => n,
            None => 0,
        },
        None => 0,
    };
    TipInfo { slot, epoch }
}

/// Keep the string-valued fields of an object as stake entries, reading
/// each stake defensively: an unparsable stake string counts as zero, and
/// a field holding anything but a string is no entry at all.
fn stake_entries_from(fields: &Vec<(String, serde_json::Value)>) -> Vec<StakeEntry> {
    let n = fields.len();
    let mut out: Vec<StakeEntry> = Vec::new();
    let mut i: usize = 0;
    while i < n
        invariant
            0 <= i <= n,
            n == fields@.len(),
        decreases n - i,
    {
        match json_as_string(&fields[i].1) {
            Some(s) => {
                let stake = match parse_u64(s.as_str()) {
                    Some(v) => v,
                    None => 0,
                };
                out.push(StakeEntry { pool_id: fields[i].0.clone(), stake });
            },
            None => {},
        }
        i = i + 1;
    }
    out
}

/// Shape a parsed stake-distribution answer into the resolver's model: the
/// dedicated pool grouping when the answer has one, the top-level entries,
/// and the totals under either of their two field names.
fn distribution_from_json(v: &serde_json::Value) -> StakeDistribution {
    let pool_entries = match json_get(v, "pools") {
        Some(pools) => match json_object_entries(pools) {
            Some(fields) => Some(stake_entries_from(&fields)),
            None => None,
        },
        None => None,
    };
    let flat_entries = match json_object_entries(v) {
        Some(fields) => stake_entries_from(&fields),
        None => Vec::new(),
    };
    let total = match json_get(v, "total") {
        Some(field) => match json_as_string(field) {
            Some(s) => Some(
                match parse_u64(s.as_str()) {
                    Some(n) => n,
                    None => 0,
                },
            ),
            None => None,
        },
        None => None,
    };
    let total_stake = match json_get(v, "totalStake") {
        Some(field) => match json_as_string(field) {
            Some(s) => Some(
                match parse_u64(s.as_str()) {
                    Some(n) => n,
                    None => 0,
                },
            ),
            None => None,
        },
        None => None,
    };
    StakeDistribution { pool_entries, flat_entries, total, total_stake }
}

/// Read a tip answer from the raw text a data source returned.  Fails only
/// on a document that is not well-formed JSON; fields that are missing or
/// not numbers read as zero.
pub fn parse_tip_response(raw: &str) -> (r: Result<TipInfo, AdapterError>)
    ensures
        r matches Err(e) ==> e == AdapterError::Malformed,
{
    match parse_json(raw) {
        Ok(v) => Ok(tip_from_json(&v)),
        Err(_) => Err(AdapterError::Malformed),
    }
}

/// Read a stake-distribution answer from the raw text a data source
/// returned.  Fails only on a document that is not well-formed JSON; the
/// groupings and totals are shaped for the stake resolvers, reading each
/// stake defensively.
pub fn parse_stake_response(raw: &str) -> (r: Result<StakeDistribution, AdapterError>)
    ensures
        r matches Err(e) ==> e == AdapterError::Malformed,
{
    match parse_json(raw) {
        Ok(v) => Ok(distribution_from_json(&v)),
        Err(_) => Err(AdapterError::Malformed),
    }
}

} // verus!
