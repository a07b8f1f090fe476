//! System services: the database upgrade and the community themes.

pub mod community_theme;
pub mod community_theme_store;
pub mod database_upgrade;
