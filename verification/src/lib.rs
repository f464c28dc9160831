//! Verified core of a stake-pool monitoring toolkit.
//!
//! The crate models the health of configured stake pools from the answers of
//! two independently failing data sources, classifies saturation, sync and
//! block production against a threshold policy, and drives batches of health
//! reports through reporting sinks on every monitoring tick.

pub mod config;
pub mod evaluate;
pub mod json;
pub mod laws;
pub mod monitor;
pub mod policy;
pub mod report;
pub mod stake;
pub mod status;
pub mod util;
