//! Player moderations (blocks and mutes): the rows read from VRChat and the
//! local record kept of them.

pub mod service;
pub mod types;
