//! Inputs of the VRChat remote API, with the range checks that decoding
//! applies to their numbers.

use vstd::prelude::*;

use crate::numbers::{decimal_i32, decimal_text};
use crate::remote::worlds::{QueryOrder, ReleaseStatusFilter, WorldSearchSort};

verus! {

#[derive(Clone, Copy, Debug, PartialEq, Eq, Structural)]
pub enum AvatarListSort {
    Created,
    Updated,
    Order,
    CreatedAt,
    UpdatedAt,
}

#[derive(Clone, Copy, Debug, PartialEq, Eq, Structural)]
pub enum AvatarReleaseStatus {
    Public,
    Private,
}

#[derive(Clone, Debug, PartialEq, Eq)]
pub struct AvatarUpdateRequest {
    pub id: String,
    pub name: Option<String>,
    pub description: Option<String>,
    pub primary_style: Option<String>,
    pub secondary_style: Option<String>,
    pub tags: Option<Vec<String>>,
    pub release_status: Option<AvatarReleaseStatus>,
}

#[derive(Clone, Copy, Debug, PartialEq, Eq, Structural)]
pub enum UserSearchCustomField {
    Bio,
    DisplayName,
}

#[derive(Clone, Copy, Debug, PartialEq, Eq, Structural)]
pub enum UserSearchSort {
    CreatedAt,
    Created,
    LastLogin,
    NuisanceFactor,
    Relevance,
}

#[derive(Clone, Debug, Default, PartialEq, Eq)]
pub struct WorldSearchParams {
    pub featured: Option<bool>,
    pub sort: Option<WorldSearchSort>,
    pub user: Option<String>,
    pub user_id: Option<String>,
    pub n: Option<i32>,
    pub order: Option<QueryOrder>,
    pub offset: Option<i32>,
    pub search: Option<String>,
    pub tag: Option<String>,
    pub notag: Option<String>,
    pub release_status: Option<ReleaseStatusFilter>,
    pub max_unity_version: Option<String>,
    pub min_unity_version: Option<String>,
    pub platform: Option<String>,
    pub noplatform: Option<String>,
    pub fuzzy: Option<bool>,
    pub avatar_specific: Option<bool>,
}

#[derive(Clone, Debug, Default, PartialEq, Eq)]
pub struct UserSearchParams {
    pub search: Option<String>,
    pub developer_type: Option<String>,
    pub n: Option<i32>,
    pub offset: Option<i32>,
    pub is_internal_variant: Option<bool>,
    pub custom_fields: Option<UserSearchCustomField>,
    pub sort: Option<UserSearchSort>,
    pub order: Option<QueryOrder>,
}

#[derive(Clone, Debug, Default, PartialEq, Eq)]
pub struct GroupSearchParams {
    pub query: Option<String>,
    pub offset: Option<i32>,
    pub n: Option<i32>,
}

#[derive(Clone, Copy, Debug, PartialEq, Eq, Structural)]
pub enum InstanceCreateType {
    Friends,
    Group,
    Hidden,
    Private,
    Public,
}

#[derive(Clone, Copy, Debug, PartialEq, Eq, Structural)]
pub enum InstanceCreateRegion {
    Eu,
    Jp,
    Us,
    Use,
}

#[derive(Clone, Copy, Debug, PartialEq, Eq, Structural)]
pub enum InstanceCreateGroupAccessType {
    Members,
    Plus,
    Public,
}

#[derive(Clone, Copy, Debug, PartialEq, Eq, Structural)]
pub enum InstanceCreateMinimumAvatarPerformance {
    Poor,
    Medium,
    Good,
}

#[derive(Clone, Debug, PartialEq, Eq)]
pub struct InstanceCreateRequest {
    pub instance_type: InstanceCreateType,
    pub can_request_invite: bool,
    pub world_id: String,
    pub owner_id: Option<String>,
    pub region: InstanceCreateRegion,
    pub group_access_type: Option<InstanceCreateGroupAccessType>,
    pub queue_enabled: Option<bool>,
    pub role_ids: Option<Vec<String>>,
    pub age_gate: Option<bool>,
    pub display_name: Option<String>,
    pub minimum_avatar_performance: Option<InstanceCreateMinimumAvatarPerformance>,
}

#[derive(Clone, Copy, Debug, PartialEq, Eq, Structural)]
pub struct RequestInviteRequest {
    pub request_slot: Option<i32>,
}

#[derive(Clone, Copy, Debug, PartialEq, Eq, Structural)]
pub enum MediaFileTag {
    Gallery,
    AvatarGallery,
    Icon,
    Emoji,
    EmojiAnimated,
    Sticker,
}

#[derive(Clone, Copy, Debug, Default, PartialEq, Eq)]
pub struct MediaFileListParams {
    pub n: Option<i32>,
    pub offset: Option<i32>,
    pub tag: Option<MediaFileTag>,
}

#[derive(Clone, Copy, Debug, PartialEq, Eq, Structural)]
pub enum ImageAnimationStyle {
    Aura,
    Bats,
    Bees,
    Bounce,
    Cloud,
    Confetti,
    Crying,
    Dislike,
    Fire,
    Idea,
    Lasers,
    Like,
    Magnet,
    Mistletoe,
    Money,
    Noise,
    Orbit,
    Pizza,
    Rain,
    Rotate,
    Shake,
    Snow,
    Snowball,
    Spin,
    Splash,
    Stop,
    Zzz,
}

#[derive(Clone, Copy, Debug, PartialEq, Eq, Structural)]
pub enum ImageMaskTag {
    Square,
}

#[derive(Clone, Copy, Debug, PartialEq, Eq, Structural)]
pub enum EmojiLoopStyle {
    PingPong,
}

/// How an emoji image is animated.
#[derive(Clone, Copy, Debug, PartialEq, Eq, Structural)]
pub enum EmojiUploadParams {
    Emoji { animation_style: ImageAnimationStyle, mask_tag: ImageMaskTag },
    EmojiAnimated {
        animation_style: ImageAnimationStyle,
        mask_tag: ImageMaskTag,
        frames: i32,
        frames_over_time: i32,
        loop_style: Option<EmojiLoopStyle>,
    },
}

#[derive(Clone, Debug, PartialEq, Eq)]
pub struct PrintUploadParams {
    pub note: String,
    pub timestamp: String,
}

#[derive(Clone, Copy, Debug, PartialEq, Eq, Structural)]
pub enum InventoryOrder {
    Newest,
}

#[derive(Clone, Debug, Default, PartialEq, Eq)]
pub struct InventoryListParams {
    pub n: Option<i32>,
    pub offset: Option<i32>,
    pub holder_id: Option<String>,
    pub equip_slot: Option<String>,
    pub order: Option<InventoryOrder>,
    pub tags: Option<String>,
    pub types: Option<String>,
    pub flags: Option<String>,
    pub not_types: Option<String>,
    pub not_flags: Option<String>,
    pub archived: Option<bool>,
}

#[derive(Clone, Copy, Debug, PartialEq, Eq, Structural)]
pub enum ProfileDecorationEquipSlot {
    IconFrame,
    ProfileEffect,
    NameplateEffect,
}

/// An image to upload, by the kind of asset it becomes.
#[derive(Clone, Debug)]
pub enum MediaAssetUploadRequest {
    Gallery { image_data: String },
    Icons { image_data: String },
    Emojis { image_data: String, params: EmojiUploadParams },
    Stickers { image_data: String },
    Prints { image_data: String, crop_white_border: bool, params: PrintUploadParams },
}

#[derive(Clone, Copy, Debug, PartialEq, Eq, Structural)]
pub struct InventoryItemUpdateRequest {
    pub is_archived: bool,
}

#[derive(Clone, Debug, Default, PartialEq, Eq)]
pub struct CalendarListParams {
    pub n: Option<i32>,
    pub offset: Option<i32>,
    pub date: Option<String>,
}

#[derive(Clone, Copy, Debug, PartialEq, Eq, Structural)]
pub enum InviteMessageType {
    Message,
    Request,
    RequestResponse,
    Response,
}

/// The least and greatest frame count of an animated emoji.
pub const EMOJI_FRAMES_MIN: i32 = 2;

pub const EMOJI_FRAMES_MAX: i32 = 64;

/// The least and greatest frame rate of an animated emoji.
pub const EMOJI_FPS_MIN: i32 = 1;

pub const EMOJI_FPS_MAX: i32 = 64;

/// The message of a decoded number outside `minimum..=maximum`.
pub open spec fn bounded_message(field: Seq<char>, minimum: int, maximum: int) -> Seq<char> {
    field + " must be between "@ + decimal_text(minimum) + " and "@ + decimal_text(maximum)
}

/// A decoded number that must lie in `minimum..=maximum`.
pub fn check_bounded_i32(value: i32, minimum: i32, maximum: i32, field: &str) -> (r: Result<
    i32,
    String,
>)
    ensures
        minimum <= value <= maximum ==> r == Ok::<i32, String>(value),
        !(minimum <= value <= maximum) ==> (r matches Err(m) && m@ == bounded_message(
            field@,
            minimum as int,
            maximum as int,
        )),
{
    if minimum <= value && value <= maximum {
        return Ok(value);
    }
    let mut m = field.to_string();
    m.append(" must be between ");
    let lo = decimal_i32(minimum);
    m.append(lo.as_str());
    m.append(" and ");
    let hi = decimal_i32(maximum);
    m.append(hi.as_str());
    Err(m)
}

/// The frame count of an animated emoji, checked.
pub fn check_emoji_frame_count(value: i32) -> (r: Result<i32, String>)
    ensures
        EMOJI_FRAMES_MIN <= value <= EMOJI_FRAMES_MAX ==> r == Ok::<i32, String>(value),
        !(EMOJI_FRAMES_MIN <= value <= EMOJI_FRAMES_MAX) ==> (r matches Err(m) && m@
            == bounded_message("frames"@, EMOJI_FRAMES_MIN as int, EMOJI_FRAMES_MAX as int)),
{
    check_bounded_i32(value, EMOJI_FRAMES_MIN, EMOJI_FRAMES_MAX, "frames")
}

/// The frame rate of an animated emoji, checked.
pub fn check_emoji_frames_per_second(value: i32) -> (r: Result<i32, String>)
    ensures
        EMOJI_FPS_MIN <= value <= EMOJI_FPS_MAX ==> r == Ok::<i32, String>(value),
        !(EMOJI_FPS_MIN <= value <= EMOJI_FPS_MAX) ==> (r matches Err(m) && m@ == bounded_message(
            "framesOverTime"@,
            EMOJI_FPS_MIN as int,
            EMOJI_FPS_MAX as int,
        )),
{
    check_bounded_i32(value, EMOJI_FPS_MIN, EMOJI_FPS_MAX, "framesOverTime")
}

} // verus!
