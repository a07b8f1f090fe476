//! Print favourites and the automatic cleanup of old prints.

pub mod cleanup;
pub mod favorites;
