//! Application-layer logic of the VRCX desktop client: normalisation of
//! remote payloads, batch runners, print favourites and cleanup, telemetry
//! privacy filters and the decision parts of the runtime services.

pub mod text;
pub mod vrchat_ids;
pub mod json;
pub mod error;
pub mod wire;
pub mod social;
pub mod system;
pub mod telemetry;
pub mod numbers;
pub mod profile;
pub mod remote;
pub mod hashing;
