//! Social features: prints, note export, group batches, mutual graph and
//! moderation sync.

pub mod current_user_mutation;
pub mod group_calendar;
pub mod groups;
pub mod moderation_sync;
pub mod mutual_graph_fetch;
pub mod note_export;
pub mod social_baseline_refresh;
pub mod social_mutation;
pub mod user_dialog_tab_counts;
pub mod prints;
pub mod saved_group_favorites;
