//! Changes to the signed-in user's profile, badges and tags.

pub mod runtime;
pub mod types;
