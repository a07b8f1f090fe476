//! Profile features: background image, service status, backups.

pub mod background_image;
pub mod profile_backup;
pub mod vrc_status;
