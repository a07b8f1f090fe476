//! Group requests and the batches that send many of them.

pub mod group_ban_import;
pub mod membership_batch;
pub mod permissions;
pub mod types;
pub mod user_groups_overview;
