//! The moderation records as the remote API and the local store hold them.

use vstd::prelude::*;

use crate::text::trim;

verus! {

/// A remote moderation, as the local store takes it.
#[derive(Clone, Debug)]
pub struct RemoteModerationInput {
    pub moderation_type: String,
    pub target_user_id: String,
    pub target_display_name: String,
    pub created: String,
}

/// A local block / mute record to write.
#[derive(Clone, Debug)]
pub struct LocalModerationInput {
    pub user_id: String,
    pub updated_at: String,
    pub display_name: String,
    pub block: bool,
    pub mute: bool,
}

/// A local block / mute record.
#[derive(Clone, Debug)]
pub struct LocalModerationOutput {
    pub user_id: String,
    pub updated_at: String,
    pub display_name: String,
    pub block: bool,
    pub mute: bool,
}

#[derive(Debug)]
pub struct ModerationSyncRefreshInput {
    pub user_id: String,
    pub endpoint: String,
}

/// The kind of a moderation change; kinds this client does not know keep
/// their (trimmed) name.
#[derive(Clone, Debug, PartialEq, Eq)]
pub enum ModerationMutationType {
    Block,
    Mute,
    InteractOff,
    MuteChat,
    Unknown(String),
}

impl ModerationMutationType {
    /// The wire name of the kind.
    pub open spec fn text(&self) -> Seq<char> {
        match self {
            ModerationMutationType::Block => "block"@,
            ModerationMutationType::Mute => "mute"@,
            ModerationMutationType::InteractOff => "interactOff"@,
            ModerationMutationType::MuteChat => "muteChat"@,
            ModerationMutationType::Unknown(v) => v@,
        }
    }

    /// The kind named by `value` once trimmed.
    pub open spec fn parsed_from(self, value: Seq<char>) -> bool {
        let v = trim(value);
        if v == "block"@ {
            self == ModerationMutationType::Block
        } else if v == "mute"@ {
            self == ModerationMutationType::Mute
        } else if v == "interactOff"@ {
            self == ModerationMutationType::InteractOff
        } else if v == "muteChat"@ {
            self == ModerationMutationType::MuteChat
        } else {
            self matches ModerationMutationType::Unknown(u) && u@ == v
        }
    }

    /// The kind named by `value`, trimmed first.
    pub fn from_text(value: &str) -> (r: ModerationMutationType)
        ensures
            r.parsed_from(value@),
    {
        let v = crate::text::trim_str(value);
        if crate::text::str_eq(v.as_str(), "block") {
            ModerationMutationType::Block
        } else if crate::text::str_eq(v.as_str(), "mute") {
            ModerationMutationType::Mute
        } else if crate::text::str_eq(v.as_str(), "interactOff") {
            ModerationMutationType::InteractOff
        } else if crate::text::str_eq(v.as_str(), "muteChat") {
            ModerationMutationType::MuteChat
        } else {
            ModerationMutationType::Unknown(v)
        }
    }

    pub fn as_str(&self) -> (r: &str)
        ensures
            r@ == self.text(),
    {
        match self {
            ModerationMutationType::Block => "block",
            ModerationMutationType::Mute => "mute",
            ModerationMutationType::InteractOff => "interactOff",
            ModerationMutationType::MuteChat => "muteChat",
            ModerationMutationType::Unknown(value) => value.as_str(),
        }
    }

    /// Whether the client may turn this kind of moderation on.
    pub fn is_supported_enable(&self) -> (r: bool)
        ensures
            r == !(self is Unknown),
    {
        match self {
            ModerationMutationType::Unknown(_) => false,
            _ => true,
        }
    }
}

#[derive(Debug)]
pub struct ModerationSyncMutationInput {
    pub target_user_id: String,
    pub target_display_name: String,
    pub moderation_type: ModerationMutationType,
    pub enabled: bool,
}

#[derive(Clone, Debug)]
pub struct ModerationSyncRefreshOutput {
    pub accepted: bool,
    pub user_id: String,
    pub remote_count: u32,
    pub local_count: u32,
    pub rows: Vec<RemoteModerationRow>,
}

/// A complete remote moderation row.
#[derive(Clone, Debug)]
pub struct RemoteModerationRow {
    pub id: String,
    pub moderation_type: String,
    pub source_user_id: String,
    pub source_display_name: String,
    pub target_user_id: String,
    pub target_display_name: String,
    pub created: String,
}

/// `(id, type, source_user_id, source_display_name, target_user_id,
/// target_display_name, created)`.
pub type RemoteModerationRowView = (
    Seq<char>,
    Seq<char>,
    Seq<char>,
    Seq<char>,
    Seq<char>,
    Seq<char>,
    Seq<char>,
);

impl View for RemoteModerationRow {
    type V = RemoteModerationRowView;

    open spec fn view(&self) -> RemoteModerationRowView {
        (
            self.id@,
            self.moderation_type@,
            self.source_user_id@,
            self.source_display_name@,
            self.target_user_id@,
            self.target_display_name@,
            self.created@,
        )
    }
}

impl RemoteModerationRow {
    /// The row as the local store takes it.
    pub fn to_local_input(&self) -> (r: RemoteModerationInput)
        ensures
            r.moderation_type@ == self.moderation_type@,
            r.target_user_id@ == self.target_user_id@,
            r.target_display_name@ == self.target_display_name@,
            r.created@ == self.created@,
    {
        RemoteModerationInput {
            moderation_type: self.moderation_type.clone(),
            target_user_id: self.target_user_id.clone(),
            target_display_name: self.target_display_name.clone(),
            created: self.created.clone(),
        }
    }
}

#[derive(Debug)]
pub struct ModerationSyncMutationOutput {
    pub owner_user_id: String,
    pub target_user_id: String,
    pub moderation_type: String,
    pub enabled: bool,
    pub local: Option<LocalModerationOutput>,
}

} // verus!
