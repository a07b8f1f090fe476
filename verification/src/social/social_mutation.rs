//! Friend changes (unfriend, friend requests): their inputs and outcomes,
//! and how a VRChat reply to a change is judged.

use vstd::prelude::*;

use crate::error::{custom_error, is_custom, Error};
use crate::json::{parse_json, parsed_json, JsonValue};
use crate::numbers::{decimal_i32, decimal_text};
use crate::social::note_export::reply_message;
use crate::text::{trim, trim_str};

verus! {

pub const INVALID_JSON_MESSAGE: &'static str = "VRChat mutation returned invalid JSON.";

#[derive(Debug)]
pub struct SocialFriendMutationInput {
    pub target_user_id: String,
    pub target_display_name: String,
}

#[derive(Debug)]
pub struct SocialFriendRequestCancelInput {
    pub target_user_id: String,
    pub target_display_name: String,
    pub notification_id: String,
}

#[derive(Debug)]
pub struct SocialFriendRequestAcceptInput {
    pub notification_id: String,
    pub target_user_id: String,
    pub target_display_name: String,
}

#[derive(Clone, Copy, Debug, PartialEq, Eq, Structural)]
pub enum SocialFriendMutationStatus {
    Applied,
    RemoteOkLocalFailed,
}

/// How a friend change ended: applied, or done remotely while the local
/// record failed.
#[derive(Debug)]
pub struct SocialFriendMutationOutcome {
    pub status: SocialFriendMutationStatus,
    pub target_user_id: String,
    pub local_error: Option<String>,
}

#[derive(Clone, Copy, Debug, PartialEq, Eq, Structural)]
pub enum SocialFriendRequestNotificationAcceptStatus {
    Accepted,
    NotFound,
}

#[derive(Debug)]
pub struct SocialFriendRequestNotificationAcceptOutput {
    pub status: SocialFriendRequestNotificationAcceptStatus,
    pub outcome: Option<SocialFriendMutationOutcome>,
}

impl SocialFriendMutationOutcome {
    pub fn applied(target_user_id: &str) -> (r: Self)
        ensures
            r.status == SocialFriendMutationStatus::Applied,
            r.target_user_id@ == target_user_id@,
            r.local_error is None,
    {
        SocialFriendMutationOutcome {
            status: SocialFriendMutationStatus::Applied,
            target_user_id: target_user_id.to_string(),
            local_error: None,
        }
    }

    pub fn remote_ok_local_failed(target_user_id: &str, error: String) -> (r: Self)
        ensures
            r.status == SocialFriendMutationStatus::RemoteOkLocalFailed,
            r.target_user_id@ == target_user_id@,
            r.local_error matches Some(e) && e@ == error@,
    {
        SocialFriendMutationOutcome {
            status: SocialFriendMutationStatus::RemoteOkLocalFailed,
            target_user_id: target_user_id.to_string(),
            local_error: Some(error),
        }
    }
}

/// The message of a refused change: the reply's message, or one with the
/// status.
pub open spec fn refusal_message(status: int, json: JsonValue) -> Seq<char> {
    match reply_message(json) {
        Some(m) => m,
        None => "VRChat request failed with status "@ + decimal_text(status) + "."@,
    }
}

/// The message of a refused change whose body may not be JSON.
pub open spec fn refusal_text(status: int, doc: Option<JsonValue>) -> Seq<char> {
    match doc {
        Some(j) => refusal_message(status, j),
        None => "VRChat request failed with status "@ + decimal_text(status) + "."@,
    }
}

/// How a reply to a change is judged: a status outside 2xx, or a reply with
/// an `error` member, is a VRChat error with the status and this message
/// (`Err(Some(..))`); an empty body is null; a body that is not JSON is an
/// error of its own (`Err(None)`); else the document.
pub open spec fn mutation_response_of(status: int, data: Seq<char>) -> Result<JsonValue, Option<Seq<char>>> {
    let doc = parsed_json(data);
    if !(200 <= status < 300) {
        Err(Some(refusal_text(status, doc)))
    } else if trim(data).len() == 0 {
        Ok(JsonValue::Null)
    } else {
        match doc {
            None => Err(None),
            Some(j) => if j.field("error"@) is Some {
                Err(Some(refusal_message(status, j)))
            } else {
                Ok(j)
            },
        }
    }
}

fn refusal(status: i32, json: &JsonValue) -> (r: String)
    ensures
        r@ == refusal_message(status as int, *json),
{
    match crate::social::note_export::reply_text(json) {
        Some(m) => m,
        None => {
            let mut m = "VRChat request failed with status ".to_string();
            let code = decimal_i32(status);
            m.append(code.as_str());
            m.append(".");
            m
        },
    }
}

/// Judges a reply to a friend change.
pub fn validate_vrchat_mutation_response(status: i32, data: &str) -> (r: Result<JsonValue, Error>)
    ensures
        match r {
            Ok(j) => mutation_response_of(status as int, data@) == Ok::<JsonValue, Option<Seq<char>>>(j),
            Err(e) => match mutation_response_of(status as int, data@) {
                Err(Some(m)) => e matches Error::VrchatApi { status_code, message } && status_code
                    == status && message@ == m,
                Err(None) => is_custom(e, INVALID_JSON_MESSAGE@),
                Ok(_) => false,
            },
        },
{
    let doc = parse_json(data);
    if !(200 <= status && status < 300) {
        let message = match &doc {
            Some(j) => refusal(status, j),
            None => {
                let mut m = "VRChat request failed with status ".to_string();
                let code = decimal_i32(status);
                m.append(code.as_str());
                m.append(".");
                m
            },
        };
        return Err(Error::VrchatApi { status_code: status, message });
    }
    let trimmed = trim_str(data);
    if trimmed.as_str().is_empty() {
        return Ok(JsonValue::Null);
    }
    match doc {
        None => Err(custom_error(INVALID_JSON_MESSAGE)),
        Some(j) => {
            if j.get("error").is_some() {
                let message = refusal(status, &j);
                Err(Error::VrchatApi { status_code: status, message })
            } else {
                Ok(j)
            }
        },
    }
}

/// A friend request that VRChat no longer has: a VRChat error with status
/// 404, whatever its message.
pub fn is_not_found_error(error: &Error) -> (r: bool)
    ensures
        r == (error matches Error::VrchatApi { status_code, .. } && status_code == 404),
{
    match error {
        Error::VrchatApi { status_code, .. } => *status_code == 404,
        _ => false,
    }
}

} // verus!
