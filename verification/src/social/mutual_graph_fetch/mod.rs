//! The mutual-friends graph: the pages read from VRChat, their retries, and
//! the snapshot kept of them.

pub mod request;
pub mod types;
