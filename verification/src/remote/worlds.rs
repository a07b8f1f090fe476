//! World requests: their inputs, and the checks made before one is sent.

use vstd::prelude::*;

use crate::error::{custom_error, is_custom, require_text, Error};
use crate::text::trim;

verus! {

/// The message of a negative count or offset.
pub const NONNEGATIVE_MESSAGE: &'static str = "value must be non-negative";

/// The pause kept between two world mutations, in milliseconds.
pub const WORLD_REMOTE_MUTATION_INTERVAL_MS: u64 = 250;

#[derive(Clone, Copy, Debug, PartialEq, Eq, Structural)]
pub enum QueryOrder {
    Ascending,
    Descending,
}

#[derive(Clone, Copy, Debug, PartialEq, Eq, Structural)]
pub enum ReleaseStatusFilter {
    All,
    Hidden,
    Private,
    Public,
}

#[derive(Clone, Copy, Debug, PartialEq, Eq, Structural)]
pub enum WorldSearchSort {
    CreatedAt,
    UpdatedAt,
    Created,
    Favorites,
    Heat,
    LabsPublicationDate,
    Magic,
    Name,
    Order,
    Popularity,
    PublicationDate,
    Random,
    Relevance,
    ReportCount,
    ReportScore,
    Shuffle,
    Trust,
    Updated,
}

/// The fields of a world that a save changes.
#[derive(Clone, Debug, PartialEq, Eq)]
pub struct WorldUpdateRequest {
    pub id: String,
    pub name: Option<String>,
    pub description: Option<String>,
    pub capacity: Option<i32>,
    pub recommended_capacity: Option<i32>,
    pub preview_youtube_id: Option<String>,
    pub tags: Option<Vec<String>>,
    pub url_list: Option<Vec<String>>,
    pub disabled_prop_abilities: Option<Vec<String>>,
}

/// A world request, checked and ready to send.
#[derive(Clone, Debug, PartialEq, Eq)]
pub enum WorldRemoteOperation {
    ListByUser {
        user_id: String,
        n: i32,
        offset: i32,
        sort: WorldSearchSort,
        order: QueryOrder,
        release_status: ReleaseStatusFilter,
    },
    PersistentDataExists { user_id: String, world_id: String },
    Save { world_id: String, params: WorldUpdateRequest },
    Delete { world_id: String },
    Publish { world_id: String },
    Unpublish { world_id: String },
    PersistentDataDelete { user_id: String, world_id: String },
}

/// Who a world request is sent as.
#[derive(Clone, Debug, PartialEq, Eq)]
pub enum WorldRemoteScope {
    Public,
    Authenticated { current_user_id: String, endpoint: String },
}

/// A decoded count that must not be negative.
pub fn deserialize_nonnegative_i32(value: i32) -> (r: Result<i32, String>)
    ensures
        value >= 0 ==> r == Ok::<i32, String>(value),
        value < 0 ==> (r matches Err(m) && m@ == NONNEGATIVE_MESSAGE@),
{
    if value < 0 {
        return Err(NONNEGATIVE_MESSAGE.to_string());
    }
    Ok(value)
}

/// A decoded optional count that must not be negative where present.
pub fn check_optional_nonnegative_i32(value: Option<i32>) -> (r: Result<Option<i32>, String>)
    ensures
        match value {
            Some(v) if v < 0 => r matches Err(m) && m@ == NONNEGATIVE_MESSAGE@,
            _ => r == Ok::<Option<i32>, String>(value),
        },
{
    match value {
        Some(v) => {
            if v < 0 {
                return Err(NONNEGATIVE_MESSAGE.to_string());
            }
        },
        None => {},
    }
    Ok(value)
}

/// Fails on a negative count or offset.
pub fn require_nonnegative(value: i32) -> (r: Result<(), Error>)
    ensures
        value >= 0 <==> r is Ok,
        r matches Err(e) ==> is_custom(e, NONNEGATIVE_MESSAGE@),
{
    if value < 0 {
        return Err(custom_error(NONNEGATIVE_MESSAGE));
    }
    Ok(())
}

impl WorldRemoteOperation {
    /// Whether the response of this operation updates the local world cache.
    pub open spec fn hydrates(&self) -> bool {
        self is Save || self is Publish || self is Unpublish
    }

    pub fn hydrates_response(&self) -> (r: bool)
        ensures
            r == self.hydrates(),
    {
        match self {
            WorldRemoteOperation::Save { .. } => true,
            WorldRemoteOperation::Publish { .. } => true,
            WorldRemoteOperation::Unpublish { .. } => true,
            _ => false,
        }
    }

    /// The request that lists the worlds of a user.
    pub fn list_by_user(
        user_id: &str,
        n: i32,
        offset: i32,
        sort: WorldSearchSort,
        order: QueryOrder,
        release_status: ReleaseStatusFilter,
    ) -> (r: Result<WorldRemoteOperation, Error>)
        ensures
            match r {
                Ok(op) => {
                    &&& trim(user_id@).len() > 0 && n >= 0 && offset >= 0
                    &&& op matches WorldRemoteOperation::ListByUser {
                        user_id: u, n: n2, offset: o2, sort: s2, order: d2, release_status: rs2 }
                    &&& u@ == trim(user_id@) && n2 == n && o2 == offset
                    &&& s2 == sort && d2 == order && rs2 == release_status
                },
                Err(e) => if trim(user_id@).len() == 0 {
                    is_custom(e, "VrchatWorldListByUserGet requires userId."@)
                } else {
                    (n < 0 || offset < 0) && is_custom(e, NONNEGATIVE_MESSAGE@)
                },
            },
    {
        let user_id = require_text(user_id, "VrchatWorldListByUserGet requires userId.")?;
        require_nonnegative(n)?;
        require_nonnegative(offset)?;
        Ok(WorldRemoteOperation::ListByUser { user_id, n, offset, sort, order, release_status })
    }

    /// The request that asks whether persistent data of a user exists in a world.
    pub fn persistent_data_exists(user_id: &str, world_id: &str) -> (r: Result<
        WorldRemoteOperation,
        Error,
    >)
        ensures
            match r {
                Ok(op) => {
                    &&& trim(user_id@).len() > 0 && trim(world_id@).len() > 0
                    &&& op matches WorldRemoteOperation::PersistentDataExists { user_id: u, world_id: w }
                    &&& u@ == trim(user_id@) && w@ == trim(world_id@)
                },
                Err(e) => if trim(user_id@).len() == 0 {
                    is_custom(e, "VrchatWorldPersistentDataExists requires userId."@)
                } else {
                    trim(world_id@).len() == 0 && is_custom(
                        e,
                        "VrchatWorldPersistentDataExists requires worldId."@,
                    )
                },
            },
    {
        let user_id = require_text(user_id, "VrchatWorldPersistentDataExists requires userId.")?;
        let world_id = require_text(world_id, "VrchatWorldPersistentDataExists requires worldId.")?;
        Ok(WorldRemoteOperation::PersistentDataExists { user_id, world_id })
    }

    /// The request that saves a world; `params.id` must name the same world.
    pub fn save(world_id: &str, params: WorldUpdateRequest) -> (r: Result<
        WorldRemoteOperation,
        Error,
    >)
        ensures
            match r {
                Ok(op) => {
                    &&& trim(world_id@).len() > 0 && params.id@ == trim(world_id@)
                    &&& op matches WorldRemoteOperation::Save { world_id: w, params: p }
                    &&& w@ == trim(world_id@) && p == params
                },
                Err(e) => if trim(world_id@).len() == 0 {
                    is_custom(e, "VrchatWorldSave requires worldId."@)
                } else {
                    params.id@ != trim(world_id@) && is_custom(
                        e,
                        "VrchatWorldSave params.id must match worldId."@,
                    )
                },
            },
    {
        let world_id = require_text(world_id, "VrchatWorldSave requires worldId.")?;
        if !crate::text::str_eq(params.id.as_str(), world_id.as_str()) {
            return Err(custom_error("VrchatWorldSave params.id must match worldId."));
        }
        Ok(WorldRemoteOperation::Save { world_id, params })
    }

    /// The request that deletes a world.
    pub fn delete(world_id: &str) -> (r: Result<WorldRemoteOperation, Error>)
        ensures
            match r {
                Ok(op) => trim(world_id@).len() > 0 && (op matches WorldRemoteOperation::Delete {
                    world_id: w } && w@ == trim(world_id@)),
                Err(e) => trim(world_id@).len() == 0 && is_custom(
                    e,
                    "VrchatWorldDelete requires worldId."@,
                ),
            },
    {
        let world_id = require_text(world_id, "VrchatWorldDelete requires worldId.")?;
        Ok(WorldRemoteOperation::Delete { world_id })
    }

    /// The request that publishes a world.
    pub fn publish(world_id: &str) -> (r: Result<WorldRemoteOperation, Error>)
        ensures
            match r {
                Ok(op) => trim(world_id@).len() > 0 && (op matches WorldRemoteOperation::Publish {
                    world_id: w } && w@ == trim(world_id@)),
                Err(e) => trim(world_id@).len() == 0 && is_custom(
                    e,
                    "VrchatWorldPublish requires worldId."@,
                ),
            },
    {
        let world_id = require_text(world_id, "VrchatWorldPublish requires worldId.")?;
        Ok(WorldRemoteOperation::Publish { world_id })
    }

    /// The request that unpublishes a world.
    pub fn unpublish(world_id: &str) -> (r: Result<WorldRemoteOperation, Error>)
        ensures
            match r {
                Ok(op) => trim(world_id@).len() > 0 && (op matches WorldRemoteOperation::Unpublish {
                    world_id: w } && w@ == trim(world_id@)),
                Err(e) => trim(world_id@).len() == 0 && is_custom(
                    e,
                    "VrchatWorldUnpublish requires worldId."@,
                ),
            },
    {
        let world_id = require_text(world_id, "VrchatWorldUnpublish requires worldId.")?;
        Ok(WorldRemoteOperation::Unpublish { world_id })
    }

    /// The request that deletes the persistent data of a user in a world.
    pub fn persistent_data_delete(user_id: &str, world_id: &str) -> (r: Result<
        WorldRemoteOperation,
        Error,
    >)
        ensures
            match r {
                Ok(op) => {
                    &&& trim(user_id@).len() > 0 && trim(world_id@).len() > 0
                    &&& op matches WorldRemoteOperation::PersistentDataDelete { user_id: u, world_id: w }
                    &&& u@ == trim(user_id@) && w@ == trim(world_id@)
                },
                Err(e) => if trim(user_id@).len() == 0 {
                    is_custom(e, "VrchatWorldPersistentDataDelete requires userId."@)
                } else {
                    trim(world_id@).len() == 0 && is_custom(
                        e,
                        "VrchatWorldPersistentDataDelete requires worldId."@,
                    )
                },
            },
    {
        let user_id = require_text(user_id, "VrchatWorldPersistentDataDelete requires userId.")?;
        let world_id = require_text(world_id, "VrchatWorldPersistentDataDelete requires worldId.")?;
        Ok(WorldRemoteOperation::PersistentDataDelete { user_id, world_id })
    }
}

} // verus!
