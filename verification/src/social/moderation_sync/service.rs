//! The decisions of the moderation sync: which remote rows are kept, what a
//! change asks for, and the local record that a change leaves.

use vstd::prelude::*;

use crate::error::{custom_error, is_custom, Error};
use crate::json::{json_to_string, serialized_json, JsonValue};
use crate::social::moderation_sync::types::{
    LocalModerationOutput, ModerationMutationType, ModerationSyncMutationInput,
    ModerationSyncRefreshOutput, RemoteModerationRow, RemoteModerationRowView,
};
use crate::text::{trim, trim_str};
use crate::wire::{wire_count, wire_count_of};

verus! {

/// The pause kept between two moderation changes, in milliseconds.
pub const MODERATION_REMOTE_MUTATION_INTERVAL_MS: u64 = 250;

pub const UPDATE_INPUT_MESSAGE: &'static str =
    "ModerationSyncUpdate requires targetUserId and type.";

pub const UNSUPPORTED_ENABLE_MESSAGE: &'static str =
    "ModerationSyncUpdate does not support enabling this moderation type.";

/// The two kinds of moderation that the local record keeps.
#[derive(Clone, Copy, Debug, PartialEq, Eq, Structural)]
pub enum LocalPlayerModerationKind {
    Block,
    Mute,
}

impl LocalPlayerModerationKind {
    pub fn from_mutation_type(value: &ModerationMutationType) -> (r: Option<LocalPlayerModerationKind>)
        ensures
            r == match *value {
                ModerationMutationType::Block => Some(LocalPlayerModerationKind::Block),
                ModerationMutationType::Mute => Some(LocalPlayerModerationKind::Mute),
                _ => None::<LocalPlayerModerationKind>,
            },
    {
        match value {
            ModerationMutationType::Block => Some(LocalPlayerModerationKind::Block),
            ModerationMutationType::Mute => Some(LocalPlayerModerationKind::Mute),
            _ => None,
        }
    }
}

/// The `(block, mute)` bits after a change of one of them; the other bit is
/// kept from the existing record, and is off without one.
pub open spec fn local_state_after(
    existing: Option<(bool, bool)>,
    kind: LocalPlayerModerationKind,
    enabled: bool,
) -> (bool, bool) {
    match kind {
        LocalPlayerModerationKind::Block => (
            enabled,
            match existing {
                Some(e) => e.1,
                None => false,
            },
        ),
        LocalPlayerModerationKind::Mute => (
            match existing {
                Some(e) => e.0,
                None => false,
            },
            enabled,
        ),
    }
}

pub open spec fn bits_of(existing: Option<&LocalModerationOutput>) -> Option<(bool, bool)> {
    match existing {
        Some(e) => Some((e.block, e.mute)),
        None => None,
    }
}

pub fn resolve_local_moderation_state(
    existing: Option<&LocalModerationOutput>,
    kind: LocalPlayerModerationKind,
    enabled: bool,
) -> (r: (bool, bool))
    ensures
        r == local_state_after(bits_of(existing), kind, enabled),
        kind == LocalPlayerModerationKind::Block ==> r.0 == enabled && r.1 == (existing is Some
            && existing.unwrap().mute),
        kind == LocalPlayerModerationKind::Mute ==> r.1 == enabled && r.0 == (existing is Some
            && existing.unwrap().block),
{
    match kind {
        LocalPlayerModerationKind::Block => (
            enabled,
            match existing {
                Some(entry) => entry.mute,
                None => false,
            },
        ),
        LocalPlayerModerationKind::Mute => (
            match existing {
                Some(entry) => entry.block,
                None => false,
            },
            enabled,
        ),
    }
}

/// The text of a value, trimmed: a string as it stands, nothing for null or
/// absence, the JSON text of anything else.
pub open spec fn normalized_text_of(value: Option<JsonValue>) -> Seq<char> {
    match value {
        Some(JsonValue::String(s)) => trim(s@),
        Some(JsonValue::Null) => Seq::empty(),
        None => Seq::empty(),
        Some(v) => trim(serialized_json(v)),
    }
}

/// The string of a value; empty for anything but a string.
pub open spec fn string_or_empty(value: Option<JsonValue>) -> Seq<char> {
    match value {
        Some(JsonValue::String(s)) => s@,
        _ => Seq::empty(),
    }
}

pub open spec fn opt_json(value: Option<&JsonValue>) -> Option<JsonValue> {
    match value {
        Some(v) => Some(*v),
        None => None,
    }
}

pub fn value_as_normalized_text(value: Option<&JsonValue>) -> (r: String)
    ensures
        r@ == normalized_text_of(opt_json(value)),
{
    match value {
        Some(JsonValue::String(s)) => trim_str(s.as_str()),
        Some(JsonValue::Null) => String::new(),
        None => String::new(),
        Some(v) => {
            let text = json_to_string(v);
            trim_str(text.as_str())
        },
    }
}

pub fn value_as_string_or_empty(value: Option<&JsonValue>) -> (r: String)
    ensures
        r@ == string_or_empty(opt_json(value)),
{
    match value {
        Some(JsonValue::String(s)) => s.clone(),
        _ => String::new(),
    }
}

/// The row a remote moderation record gives, when it is an object with an
/// id, a type and a target.
pub open spec fn moderation_row_of(row: JsonValue) -> Option<RemoteModerationRowView> {
    if !row.is_object() {
        None
    } else {
        let id = normalized_text_of(row.field("id"@));
        let t = normalized_text_of(row.field("type"@));
        let source = normalized_text_of(row.field("sourceUserId"@));
        let target = normalized_text_of(row.field("targetUserId"@));
        if id.len() == 0 || t.len() == 0 || target.len() == 0 {
            None
        } else {
            Some(
                (
                    id,
                    t,
                    source,
                    string_or_empty(row.field("sourceDisplayName"@)),
                    target,
                    string_or_empty(row.field("targetDisplayName"@)),
                    string_or_empty(row.field("created"@)),
                ),
            )
        }
    }
}

/// The complete rows among remote records, in their order.
pub open spec fn moderation_rows_of(rows: Seq<JsonValue>) -> Seq<RemoteModerationRowView>
    decreases rows.len(),
{
    if rows.len() == 0 {
        Seq::empty()
    } else {
        let rest = moderation_rows_of(rows.drop_last());
        match moderation_row_of(rows.last()) {
            Some(r) => rest.push(r),
            None => rest,
        }
    }
}

pub open spec fn row_views(rows: Seq<RemoteModerationRow>) -> Seq<RemoteModerationRowView> {
    Seq::new(rows.len(), |i: int| rows[i]@)
}

pub fn normalize_remote_moderation_row(row: &JsonValue) -> (r: Option<RemoteModerationRow>)
    ensures
        match r {
            Some(x) => moderation_row_of(*row) == Some(x@),
            None => moderation_row_of(*row) is None,
        },
{
    if !(match row {
        JsonValue::Object(_) => true,
        _ => false,
    }) {
        return None;
    }
    let id = value_as_normalized_text(row.get("id"));
    let moderation_type = value_as_normalized_text(row.get("type"));
    let source_user_id = value_as_normalized_text(row.get("sourceUserId"));
    let target_user_id = value_as_normalized_text(row.get("targetUserId"));
    if id.as_str().is_empty() || moderation_type.as_str().is_empty()
        || target_user_id.as_str().is_empty() {
        return None;
    }
    Some(
        RemoteModerationRow {
            id,
            moderation_type,
            source_user_id,
            source_display_name: value_as_string_or_empty(row.get("sourceDisplayName")),
            target_user_id,
            target_display_name: value_as_string_or_empty(row.get("targetDisplayName")),
            created: value_as_string_or_empty(row.get("created")),
        },
    )
}

/// The complete rows of a remote moderation list; none where the document
/// is not a list.
pub fn normalize_remote_moderation_rows(json: &JsonValue) -> (r: Vec<RemoteModerationRow>)
    ensures
        row_views(r@) == match *json {
            JsonValue::Array(items) => moderation_rows_of(items@),
            _ => Seq::empty(),
        },
{
    let mut out: Vec<RemoteModerationRow> = Vec::new();
    match json {
        JsonValue::Array(items) => {
            let mut i: usize = 0;
            while i < items.len()
                invariant
                    i <= items.len(),
                    row_views(out@) == moderation_rows_of(items@.take(i as int)),
                decreases items.len() - i,
            {
                proof {
                    assert(items@.take(i as int + 1).drop_last() =~= items@.take(i as int));
                }
                let ghost before = out@;
                match normalize_remote_moderation_row(&items[i]) {
                    Some(row) => {
                        out.push(row);
                        proof {
                            assert(row_views(out@) =~= row_views(before).push(out@.last()@));
                        }
                    },
                    None => {},
                }
                i = i + 1;
            }
            proof {
                assert(items@.take(i as int) =~= items@);
            }
        },
        _ => {
            proof {
                assert(row_views(out@) =~= Seq::<RemoteModerationRowView>::empty());
            }
        },
    }
    out
}

/// How many records the remote list holds; none where it is not a list.
pub fn remote_count_of(json: &JsonValue) -> (n: usize)
    ensures
        n == match *json {
            JsonValue::Array(items) => items.len(),
            _ => 0,
        },
{
    match json {
        JsonValue::Array(items) => items.len(),
        _ => 0,
    }
}

/// The answer to a refresh for no user: nothing accepted, nothing read.
pub fn refresh_without_user(user_id: &str) -> (r: Option<ModerationSyncRefreshOutput>)
    ensures
        match r {
            Some(o) => trim(user_id@).len() == 0 && !o.accepted && o.user_id@ == trim(user_id@)
                && o.remote_count == 0 && o.local_count == 0 && o.rows.len() == 0,
            None => trim(user_id@).len() > 0,
        },
{
    let user_id = trim_str(user_id);
    if user_id.as_str().is_empty() {
        Some(
            ModerationSyncRefreshOutput {
                accepted: false,
                user_id,
                remote_count: 0,
                local_count: 0,
                rows: Vec::new(),
            },
        )
    } else {
        None
    }
}

/// The answer to a refresh that read the remote list.
pub fn refresh_output(
    accepted: bool,
    user_id: String,
    remote_count: usize,
    local_count: usize,
    rows: Vec<RemoteModerationRow>,
) -> (r: ModerationSyncRefreshOutput)
    ensures
        r.accepted == accepted,
        r.user_id@ == user_id@,
        r.remote_count == wire_count_of(remote_count as int),
        r.local_count == wire_count_of(if accepted { local_count as int } else { 0 }),
        r.rows@ == rows@,
{
    ModerationSyncRefreshOutput {
        accepted,
        user_id,
        remote_count: wire_count(remote_count),
        local_count: if accepted {
            wire_count(local_count)
        } else {
            0
        },
        rows,
    }
}

/// The target and the wire name of a change, checked: both must be
/// present, and only known kinds may be turned on.
pub fn check_update_input(input: &ModerationSyncMutationInput) -> (r: Result<(String, String), Error>)
    ensures
        match r {
            Ok((target, t)) => {
                &&& target@ == trim(input.target_user_id@) && target@.len() > 0
                &&& t@ == input.moderation_type.text() && t@.len() > 0
                &&& input.enabled ==> !(input.moderation_type is Unknown)
            },
            Err(e) => if trim(input.target_user_id@).len() == 0
                || input.moderation_type.text().len() == 0 {
                is_custom(e, UPDATE_INPUT_MESSAGE@)
            } else {
                input.enabled && input.moderation_type is Unknown && is_custom(
                    e,
                    UNSUPPORTED_ENABLE_MESSAGE@,
                )
            },
        },
{
    let target_user_id = trim_str(input.target_user_id.as_str());
    let moderation_type = input.moderation_type.as_str().to_string();
    if target_user_id.as_str().is_empty() || moderation_type.as_str().is_empty() {
        return Err(custom_error(UPDATE_INPUT_MESSAGE));
    }
    if input.enabled && !input.moderation_type.is_supported_enable() {
        return Err(custom_error(UNSUPPORTED_ENABLE_MESSAGE));
    }
    Ok((target_user_id, moderation_type))
}

/// The local record a change leaves for a block or mute, and whether it is
/// written (some bit on) or deleted (both off); `None` for other kinds.
pub fn local_after_update(
    existing: Option<&LocalModerationOutput>,
    moderation_type: &ModerationMutationType,
    enabled: bool,
    target_user_id: &str,
    display_name: &str,
    updated_at: &str,
) -> (r: Option<(LocalModerationOutput, bool)>)
    ensures
        match LocalPlayerModerationKind::from_spec(*moderation_type) {
            Some(kind) => r matches Some((out, write)) && {
                let bits = local_state_after(bits_of(existing), kind, enabled);
                &&& out.block == bits.0 && out.mute == bits.1
                &&& write == (bits.0 || bits.1)
                &&& out.user_id@ == target_user_id@ && out.display_name@ == display_name@
                &&& out.updated_at@ == updated_at@
            },
            None => r is None,
        },
{
    match LocalPlayerModerationKind::from_mutation_type(moderation_type) {
        Some(kind) => {
            let (block, mute) = resolve_local_moderation_state(existing, kind, enabled);
            let out = LocalModerationOutput {
                user_id: target_user_id.to_string(),
                updated_at: updated_at.to_string(),
                display_name: display_name.to_string(),
                block,
                mute,
            };
            Some((out, block || mute))
        },
        None => None,
    }
}

impl LocalPlayerModerationKind {
    pub open spec fn from_spec(value: ModerationMutationType) -> Option<LocalPlayerModerationKind> {
        match value {
            ModerationMutationType::Block => Some(LocalPlayerModerationKind::Block),
            ModerationMutationType::Mute => Some(LocalPlayerModerationKind::Mute),
            _ => None,
        }
    }
}

/// Changing one moderation bit keeps the other bit of the existing record.
pub proof fn law_update_keeps_other_bit(existing: (bool, bool), kind: LocalPlayerModerationKind, enabled: bool)
    ensures
        kind == LocalPlayerModerationKind::Block ==> local_state_after(Some(existing), kind, enabled)
            == (enabled, existing.1),
        kind == LocalPlayerModerationKind::Mute ==> local_state_after(Some(existing), kind, enabled)
            == (existing.0, enabled),
{
}

/// A change sets the bit it names to what was asked and leaves the other
/// bit as the existing record has it; without a record the other bit is
/// off, so a first block does not mute and a first mute does not block.
pub proof fn law_change_sets_only_the_named_bit(
    existing: Option<(bool, bool)>,
    kind: LocalPlayerModerationKind,
    enabled: bool,
)
    ensures
        local_state_after(None, kind, enabled) == if kind == LocalPlayerModerationKind::Block {
            (enabled, false)
        } else {
            (false, enabled)
        },
        kind == LocalPlayerModerationKind::Block ==> local_state_after(existing, kind, enabled).0
            == enabled && local_state_after(existing, kind, enabled).1 == (existing is Some
            && existing.unwrap().1),
        kind == LocalPlayerModerationKind::Mute ==> local_state_after(existing, kind, enabled).1
            == enabled && local_state_after(existing, kind, enabled).0 == (existing is Some
            && existing.unwrap().0),
{
}

} // verus!
