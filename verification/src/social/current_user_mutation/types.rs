//! The inputs of current-user changes.

use vstd::prelude::*;

verus! {

#[derive(Clone, Copy, Debug, PartialEq, Eq, Structural)]
pub enum ContentFilter {
    Adult,
    Gore,
    Horror,
    Sex,
    Violence,
}

/// The profile background to set.
#[derive(Clone, Debug, PartialEq, Eq)]
pub enum CurrentUserProfileUpdateRequest {
    Default,
    Gradient { background_gradient_bottom: String, background_gradient_top: String },
    Texture { background_texture_id: String },
}

#[derive(Clone, Debug)]
pub struct VrchatCurrentUserProfileUpdateInput {
    pub params: CurrentUserProfileUpdateRequest,
}

#[derive(Clone, Debug)]
pub struct VrchatCurrentUserBadgeInput {
    pub badge_id: String,
    pub hidden: bool,
    pub showcased: bool,
}

#[derive(Clone, Debug)]
pub struct VrchatCurrentUserTagsInput {
    pub tags: Vec<String>,
}

} // verus!
