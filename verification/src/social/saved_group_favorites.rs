//! Saved group collections: the checks made before the store is touched,
//! and the runtime that makes them and then calls the store.

use vstd::prelude::*;

use crate::error::{custom_error, is_custom, Error};
use crate::text::{trim, trim_str};
use crate::vrchat_ids::{canonical_id, is_group_id};

verus! {

pub const SESSION_MESSAGE: &'static str = "Saved group favorites require an authenticated session.";

pub const NAME_MESSAGE: &'static str = "Saved group collection name is required.";

pub const GROUP_ID_MESSAGE: &'static str = "Saved group favorite requires a canonical group ID.";

/// The account whose collections are used: the session's, while one is
/// active.
pub fn require_owner(active: bool, current_user_id: &str) -> (r: Result<String, Error>)
    ensures
        match r {
            Ok(o) => active && o@ == current_user_id@,
            Err(e) => !active && is_custom(e, SESSION_MESSAGE@),
        },
{
    if !active {
        return Err(custom_error(SESSION_MESSAGE));
    }
    Ok(current_user_id.to_string())
}

/// The name of a new collection, trimmed; it must not be empty.
pub fn require_collection_name(name: &str) -> (r: Result<String, Error>)
    ensures
        match r {
            Ok(n) => n@ == trim(name@) && n@.len() > 0,
            Err(e) => trim(name@).len() == 0 && is_custom(e, NAME_MESSAGE@),
        },
{
    let n = trim_str(name);
    if n.as_str().is_empty() {
        return Err(custom_error(NAME_MESSAGE));
    }
    Ok(n)
}

/// A group to add or remove must be named by a canonical group id (the
/// trimmed text is checked; the input is kept as given).
pub fn check_group_id(group_id: &str) -> (r: Result<(), Error>)
    ensures
        r is Ok <==> canonical_id("grp_"@, trim(group_id@)),
        r matches Err(e) ==> is_custom(e, GROUP_ID_MESSAGE@),
{
    let t = trim_str(group_id);
    if !is_group_id(t.as_str()) {
        return Err(custom_error(GROUP_ID_MESSAGE));
    }
    Ok(())
}

#[derive(Clone, Debug)]
pub struct SavedGroupCollectionCreateInput {
    pub name: String,
}

#[derive(Clone, Debug)]
pub struct SavedGroupCollectionDeleteInput {
    pub collection_id: String,
}

#[derive(Clone, Debug)]
pub struct SavedGroupFavoriteAddInput {
    pub collection_id: String,
    pub group_id: String,
}

#[derive(Clone, Debug)]
pub struct SavedGroupFavoriteRemoveInput {
    pub group_id: String,
}

/// Where the collections are kept. Each call gives the number of rows it
/// changed; `favorites_changed` tells listeners to reload.
pub trait SavedGroupFavoritesPort {
    type Snapshot;

    fn snapshot(&self, owner: &str) -> Result<Self::Snapshot, Error>;

    fn create_collection(&self, owner: &str, collection_id: &str, name: &str) -> Result<i64, Error>;

    fn delete_collection(&self, owner: &str, collection_id: &str) -> Result<i64, Error>;

    fn add_group(&self, owner: &str, collection_id: &str, group_id: &str) -> Result<i64, Error>;

    fn remove_group(&self, owner: &str, group_id: &str) -> Result<i64, Error>;

    fn favorites_changed(&self);
}

/// The session as it stands when an operation begins.
pub trait SessionScope {
    /// Whether a session is active, and its account.
    fn current(&self) -> (bool, String);
}

/// Sixteen bytes from the system's random source, or the text of the
/// error it reported. Wrapper of `getrandom::fill`; nothing is claimed of
/// the bytes.
#[verifier::external_body]
fn random_uuid_bytes() -> (r: Result<[u8; 16], String>) {
    let mut bytes = [0u8; 16];
    getrandom::fill(&mut bytes).map(|_| bytes).map_err(|error| error.to_string())
}

/// The text of the version 4 UUID made from sixteen random bytes.
pub uninterp spec fn uuid_v4_text_of(bytes: Seq<u8>) -> Seq<char>;

/// Wrapper of `uuid::Builder::from_random_bytes`, written as text: the
/// text is only named.
#[verifier::external_body]
fn uuid_v4_text(bytes: [u8; 16]) -> (r: String)
    ensures
        r@ == uuid_v4_text_of(bytes@),
{
    uuid::Builder::from_random_bytes(bytes).into_uuid().to_string()
}

/// The message when no random bytes can be had for a collection id.
pub open spec fn random_failure_text(error: Seq<char>) -> Seq<char> {
    "could not retrieve random bytes for uuid: "@ + error
}

/// A fresh random collection id, or why none can be made.
fn new_collection_id() -> (r: Result<String, Error>)
    ensures
        r matches Err(e) ==> exists|m: Seq<char>| is_custom(e, #[trigger] random_failure_text(m)),
        r matches Ok(id) ==> exists|b: Seq<u8>| b.len() == 16 && id@ == #[trigger] uuid_v4_text_of(b),
{
    match random_uuid_bytes() {
        Ok(bytes) => {
            let id = uuid_v4_text(bytes);
            assert(id@ == uuid_v4_text_of(bytes@));
            Ok(id)
        },
        Err(message) => {
            let mut text = "could not retrieve random bytes for uuid: ".to_string();
            text.append(message.as_str());
            proof {
                reveal_strlit("could not retrieve random bytes for uuid: ");
            }
            assert(text@ == random_failure_text(message@));
            Err(Error::Custom(text))
        },
    }
}

pub struct SavedGroupFavoritesRuntime<P: SavedGroupFavoritesPort, S: SessionScope> {
    pub port: P,
    pub scope: S,
}

impl<P: SavedGroupFavoritesPort, S: SessionScope> SavedGroupFavoritesRuntime<P, S> {
    pub fn new(port: P, scope: S) -> (r: Self)
        ensures
            r.port == port,
            r.scope == scope,
    {
        SavedGroupFavoritesRuntime { port, scope }
    }

    fn owner(&self) -> (r: Result<String, Error>)
        ensures
            r matches Err(e) ==> is_custom(e, SESSION_MESSAGE@),
    {
        let (active, current_user_id) = self.scope.current();
        require_owner(active, current_user_id.as_str())
    }

    /// The collections of the session's account.
    pub fn snapshot(&self) -> (r: Result<P::Snapshot, Error>) {
        let owner = self.owner()?;
        self.port.snapshot(owner.as_str())
    }

    /// Creates a collection under a new random id with the trimmed name;
    /// a blank name is refused before the session or the store is asked.
    pub fn create_collection(&self, input: SavedGroupCollectionCreateInput) -> (r: Result<i64, Error>)
        ensures
            trim(input.name@).len() == 0 ==> (r matches Err(e) && is_custom(e, NAME_MESSAGE@)),
    {
        let name = require_collection_name(input.name.as_str())?;
        let owner = self.owner()?;
        let collection_id = new_collection_id()?;
        let affected = self.port.create_collection(owner.as_str(), collection_id.as_str(), name.as_str())?;
        self.port.favorites_changed();
        Ok(affected)
    }

    pub fn delete_collection(&self, input: SavedGroupCollectionDeleteInput) -> (r: Result<i64, Error>) {
        let owner = self.owner()?;
        let affected = self.port.delete_collection(owner.as_str(), input.collection_id.as_str())?;
        self.port.favorites_changed();
        Ok(affected)
    }

    /// Adds a group, named as given, to a collection; a group id that is
    /// not canonical once trimmed is refused before the session or the
    /// store is asked.
    pub fn add_group(&self, input: SavedGroupFavoriteAddInput) -> (r: Result<i64, Error>)
        ensures
            !canonical_id("grp_"@, trim(input.group_id@)) ==> (r matches Err(e) && is_custom(
                e,
                GROUP_ID_MESSAGE@,
            )),
    {
        check_group_id(input.group_id.as_str())?;
        let owner = self.owner()?;
        let affected = self.port.add_group(
            owner.as_str(),
            input.collection_id.as_str(),
            input.group_id.as_str(),
        )?;
        self.port.favorites_changed();
        Ok(affected)
    }

    pub fn remove_group(&self, input: SavedGroupFavoriteRemoveInput) -> (r: Result<i64, Error>)
        ensures
            !canonical_id("grp_"@, trim(input.group_id@)) ==> (r matches Err(e) && is_custom(
                e,
                GROUP_ID_MESSAGE@,
            )),
    {
        check_group_id(input.group_id.as_str())?;
        let owner = self.owner()?;
        let affected = self.port.remove_group(owner.as_str(), input.group_id.as_str())?;
        self.port.favorites_changed();
        Ok(affected)
    }
}

} // verus!
