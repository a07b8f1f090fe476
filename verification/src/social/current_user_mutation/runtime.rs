//! What each current-user change sends, under which label, and whether the
//! cached current user is refreshed after it.

use vstd::prelude::*;

use crate::social::current_user_mutation::types::{
    CurrentUserProfileUpdateRequest, VrchatCurrentUserBadgeInput,
    VrchatCurrentUserProfileUpdateInput, VrchatCurrentUserTagsInput,
};

verus! {

/// The pause kept between two current-user changes, in milliseconds.
pub const CURRENT_USER_REMOTE_MUTATION_INTERVAL_MS: u64 = 250;

/// A current-user change, ready to send.
#[derive(Clone, Debug, PartialEq, Eq)]
pub enum CurrentUserMutationRequest {
    Profile(CurrentUserProfileUpdateRequest),
    Badge { badge_id: String, hidden: bool, showcased: bool },
    AddTags(Vec<String>),
    RemoveTags(Vec<String>),
}

/// A change with the label its errors carry and whether a success refreshes
/// the cached current user.
#[derive(Debug)]
pub struct CurrentUserMutationPlan {
    pub label: &'static str,
    pub request: CurrentUserMutationRequest,
    pub invalidate_user_query: bool,
}

pub fn update_profile_plan(input: VrchatCurrentUserProfileUpdateInput) -> (r: CurrentUserMutationPlan)
    ensures
        r.label@ == "Current-user profile mutation"@,
        r.request == CurrentUserMutationRequest::Profile(input.params),
        r.invalidate_user_query,
{
    CurrentUserMutationPlan {
        label: "Current-user profile mutation",
        request: CurrentUserMutationRequest::Profile(input.params),
        invalidate_user_query: true,
    }
}

pub fn update_badge_plan(input: VrchatCurrentUserBadgeInput) -> (r: CurrentUserMutationPlan)
    ensures
        r.label@ == "Current-user badge mutation"@,
        r.request == (CurrentUserMutationRequest::Badge {
            badge_id: input.badge_id,
            hidden: input.hidden,
            showcased: input.showcased,
        }),
        !r.invalidate_user_query,
{
    CurrentUserMutationPlan {
        label: "Current-user badge mutation",
        request: CurrentUserMutationRequest::Badge {
            badge_id: input.badge_id,
            hidden: input.hidden,
            showcased: input.showcased,
        },
        invalidate_user_query: false,
    }
}

pub fn add_tags_plan(input: VrchatCurrentUserTagsInput) -> (r: CurrentUserMutationPlan)
    ensures
        r.label@ == "Current-user tags mutation"@,
        r.request == CurrentUserMutationRequest::AddTags(input.tags),
        r.invalidate_user_query,
{
    CurrentUserMutationPlan {
        label: "Current-user tags mutation",
        request: CurrentUserMutationRequest::AddTags(input.tags),
        invalidate_user_query: true,
    }
}

pub fn remove_tags_plan(input: VrchatCurrentUserTagsInput) -> (r: CurrentUserMutationPlan)
    ensures
        r.label@ == "Current-user tags mutation"@,
        r.request == CurrentUserMutationRequest::RemoveTags(input.tags),
        r.invalidate_user_query,
{
    CurrentUserMutationPlan {
        label: "Current-user tags mutation",
        request: CurrentUserMutationRequest::RemoveTags(input.tags),
        invalidate_user_query: true,
    }
}

/// The cached current user is refreshed after a change that asks for it
/// and succeeded with a 2xx status.
pub fn should_invalidate_user_query(invalidate_user_query: bool, status: i32) -> (r: bool)
    ensures
        r == (invalidate_user_query && 200 <= status < 300),
{
    invalidate_user_query && 200 <= status && status < 300
}

} // verus!
