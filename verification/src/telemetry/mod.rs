//! Telemetry: what error reports may carry.

pub mod privacy;
