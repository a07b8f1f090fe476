//! The inputs, states and snapshot records of the mutual graph.

use vstd::prelude::*;

verus! {

#[derive(Debug)]
pub struct MutualGraphFetchStartInput {
    pub owner_user_id: String,
    pub endpoint: String,
    pub friend_ids: Vec<String>,
}

#[derive(Debug)]
pub struct MutualGraphFetchCancelInput {
    pub owner_user_id: String,
}

#[derive(Clone, Debug)]
pub struct MutualGraphFetchStatus {
    pub run_id: u64,
    pub revision: u64,
    pub status: MutualGraphFetchState,
    pub owner_user_id: String,
    pub total_friends: usize,
    pub processed_friends: usize,
    pub current_friend_id: String,
    pub fetched_friends: usize,
    pub opted_out_friends: usize,
    pub failed_friends: usize,
    pub cancel_requested: bool,
    pub started_at: String,
    pub updated_at: String,
    pub finished_at: Option<String>,
    pub last_error: Option<String>,
}

#[derive(Clone, Copy, Debug, PartialEq, Eq, Structural)]
pub enum MutualGraphFetchState {
    Idle,
    Running,
    Cancelling,
    Completed,
    Cancelled,
    Error,
}

impl MutualGraphFetchState {
    /// A fetch is under way: running, or cancelling.
    pub fn is_active(self) -> (r: bool)
        ensures
            r == (self == MutualGraphFetchState::Running || self
                == MutualGraphFetchState::Cancelling),
    {
        match self {
            MutualGraphFetchState::Running => true,
            MutualGraphFetchState::Cancelling => true,
            _ => false,
        }
    }
}

#[derive(Clone, Debug)]
pub struct MutualGraphSnapshotEntryInput {
    pub friend_id: String,
    pub mutual_ids: Vec<String>,
}

#[derive(Clone, Debug)]
pub struct MutualGraphMetaInput {
    pub friend_id: String,
    pub last_fetched_at: String,
    pub opted_out: bool,
    pub total_count: Option<usize>,
}

#[derive(Clone, Debug)]
pub struct MutualGraphLinkOutput {
    pub friend_id: String,
    pub mutual_id: String,
}

#[derive(Clone, Debug)]
pub struct MutualGraphMetaOutput {
    pub friend_id: String,
    pub last_fetched_at: String,
    pub opted_out: bool,
    pub total_count: Option<usize>,
}

#[derive(Clone, Debug)]
pub struct MutualGraphSnapshotOutput {
    pub friend_ids: Vec<String>,
    pub links: Vec<MutualGraphLinkOutput>,
    pub meta: Vec<MutualGraphMetaOutput>,
}

#[derive(Clone, Debug)]
pub struct MutualGraphFriendRefreshInput {
    pub owner_user_id: String,
    pub friend_id: String,
}

#[derive(Clone, Copy, Debug, PartialEq, Eq, Structural)]
pub enum MutualGraphFriendRefreshStatus {
    Refreshed,
    OptedOut,
}

#[derive(Clone, Copy, Debug, PartialEq, Eq, Structural)]
pub struct MutualGraphFriendRefreshOutput {
    pub status: MutualGraphFriendRefreshStatus,
}

#[derive(Clone, Debug)]
pub struct UserMutualFriendsListInput {
    pub user_id: String,
}

} // verus!
