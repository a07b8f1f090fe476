//! Inputs of the group requests.

use vstd::prelude::*;

verus! {

#[derive(Clone, Copy, Debug, PartialEq, Eq, Structural)]
pub enum GroupMemberSort {
    JoinedAtAsc,
    JoinedAtDesc,
}

impl Default for GroupMemberSort {
    /// Newest members first.
    fn default() -> (r: Self)
        ensures
            r == GroupMemberSort::JoinedAtDesc,
    {
        GroupMemberSort::JoinedAtDesc
    }
}

#[derive(Clone, Copy, Debug, PartialEq, Eq, Structural)]
pub enum GroupPostVisibility {
    Group,
    Public,
}

#[derive(Clone, Debug, PartialEq, Eq)]
pub struct GroupPostMutation {
    pub title: String,
    pub text: String,
    pub send_notification: bool,
    pub visibility: GroupPostVisibility,
    pub role_ids: Vec<String>,
    pub image_id: Option<String>,
}

#[derive(Clone, Copy, Debug, PartialEq, Eq, Structural)]
pub enum GroupMemberVisibility {
    Friends,
    Hidden,
    Visible,
}

#[derive(Clone, Debug, Default, PartialEq, Eq)]
pub struct GroupMemberPatch {
    pub is_subscribed_to_announcements: Option<bool>,
    pub is_subscribed_to_event_announcements: Option<bool>,
    pub manager_notes: Option<String>,
    pub visibility: Option<GroupMemberVisibility>,
}

#[derive(Debug)]
pub struct VrchatGroupIdInput {
    pub group_id: String,
}

#[derive(Debug)]
pub struct VrchatGroupProfileInput {
    pub group_id: String,
    pub include_roles: bool,
}

#[derive(Debug)]
pub struct VrchatGroupUserGroupsInput {
    pub user_id: String,
}

#[derive(Debug)]
pub struct VrchatGroupPagedInput {
    pub group_id: String,
    pub n: i32,
    pub offset: i32,
}

#[derive(Debug)]
pub struct VrchatGroupMembersInput {
    pub group_id: String,
    pub n: i32,
    pub offset: i32,
    pub sort: GroupMemberSort,
    pub role_id: String,
}

#[derive(Debug)]
pub struct VrchatGroupMembersSearchInput {
    pub group_id: String,
    pub n: i32,
    pub offset: i32,
    pub query: String,
}

#[derive(Debug)]
pub struct VrchatGroupGalleryInput {
    pub group_id: String,
    pub gallery_id: String,
    pub n: i32,
    pub offset: i32,
}

#[derive(Debug)]
pub struct VrchatGroupJoinRequestsInput {
    pub group_id: String,
    pub n: i32,
    pub offset: i32,
    pub blocked: bool,
}

#[derive(Debug)]
pub struct VrchatGroupLogsInput {
    pub group_id: String,
    pub n: i32,
    pub offset: i32,
    pub event_types: String,
}

#[derive(Debug)]
pub struct VrchatGroupPostCreateInput {
    pub group_id: String,
    pub params: GroupPostMutation,
}

#[derive(Debug)]
pub struct VrchatGroupPostEditInput {
    pub group_id: String,
    pub post_id: String,
    pub params: GroupPostMutation,
}

#[derive(Debug)]
pub struct VrchatGroupPostDeleteInput {
    pub group_id: String,
    pub post_id: String,
}

#[derive(Debug)]
pub struct VrchatGroupUserInput {
    pub group_id: String,
    pub user_id: String,
}

#[derive(Debug)]
pub struct VrchatGroupMemberRoleInput {
    pub group_id: String,
    pub user_id: String,
    pub role_id: String,
}

#[derive(Debug)]
pub struct VrchatGroupRepresentationInput {
    pub group_id: String,
    pub is_representing: bool,
}

#[derive(Debug)]
pub struct VrchatGroupMemberPropsInput {
    pub group_id: String,
    pub user_id: String,
    pub params: GroupMemberPatch,
}

/// The value that an absent `includeRoles` decodes to.
pub fn default_true() -> (r: bool)
    ensures
        r,
{
    true
}

} // verus!
