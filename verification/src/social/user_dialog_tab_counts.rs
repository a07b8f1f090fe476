//! The counts shown on the tabs of the user dialog: the paging that counts
//! rows, the choice of the avatar search provider, and the summary of
//! sources that answered.

use vstd::prelude::*;

use crate::error::{custom_error, is_custom, Error};
use crate::json::JsonValue;
use crate::text::{contains_str, str_eq, trim, trim_str, views};
use crate::wire::{wire_count, wire_count_of};

verus! {

pub const MAX_PROFILE_PAGES: usize = 50;

pub const WORLD_PAGE_SIZE: usize = 100;

pub const WORLD_MAX_OFFSET: i32 = 4_900;

pub const FAVORITE_GROUP_PAGE_SIZE: usize = 50;

pub const FAVORITE_GROUP_FETCH_CONCURRENCY: usize = 8;

pub const FAVORITE_WORLD_PAGE_SIZE: usize = 300;

pub const FAVORITE_WORLD_MAX_OFFSET: i32 = 14_700;

pub const MY_AVATAR_PAGE_SIZE: usize = 50;

pub const MY_AVATAR_MAX_OFFSET: i32 = 5_000;

pub const DEFAULT_AVATAR_PROVIDER: &'static str = "https://api.avtrdb.com/v3/avatar/search/vrcx";

pub const RETIRED_AVATAR_PROVIDER: &'static str = "https://avtr.just-h.party/vrcx_search.php";

pub const AVTRDB_V1_PROVIDER: &'static str = "https://api.avtrdb.com/v1/avatar/search/vrcx";

pub const AVTRDB_V2_PROVIDER: &'static str = "https://api.avtrdb.com/v2/avatar/search/vrcx";

pub const MISSING_USER_MESSAGE: &'static str = "User dialog tab counts require a user id.";

/// How the avatar search is configured.
#[derive(Debug)]
pub struct AvatarProviderConfig {
    pub enabled: bool,
    pub providers: JsonValue,
    pub selected: String,
}

/// One page of a counted list: its rows, and how many of them count.
#[derive(Clone, Copy, Debug, PartialEq, Eq, Structural)]
pub struct UserDialogCountPage {
    pub row_count: usize,
    pub selected_count: usize,
}

/// One page of favorite groups: its rows, and the names of its world groups.
#[derive(Clone, Debug, PartialEq, Eq)]
pub struct UserDialogFavoriteGroupPage {
    pub row_count: usize,
    pub world_group_names: Vec<String>,
}

#[derive(Clone, Copy, Debug, PartialEq, Eq, Structural)]
pub enum AvatarReleaseStatus {
    All,
    Hidden,
    Private,
    Public,
}

impl AvatarReleaseStatus {
    pub open spec fn text(self) -> Seq<char> {
        match self {
            AvatarReleaseStatus::All => "all"@,
            AvatarReleaseStatus::Hidden => "hidden"@,
            AvatarReleaseStatus::Private => "private"@,
            AvatarReleaseStatus::Public => "public"@,
        }
    }

    /// The wire name of the status.
    pub fn as_str(self) -> (r: &'static str)
        ensures
            r@ == self.text(),
    {
        match self {
            AvatarReleaseStatus::All => "all",
            AvatarReleaseStatus::Hidden => "hidden",
            AvatarReleaseStatus::Private => "private",
            AvatarReleaseStatus::Public => "public",
        }
    }
}

#[derive(Clone, Debug)]
pub struct UserDialogTabCountsInput {
    pub user_id: String,
    pub avatar_release_status: AvatarReleaseStatus,
    pub include_mutual_friends: bool,
    pub force: bool,
}

/// The release status that an input without one asks for.
pub fn default_avatar_release_status() -> (r: AvatarReleaseStatus)
    ensures
        r == AvatarReleaseStatus::All,
{
    AvatarReleaseStatus::All
}

/// The counts of the tabs; a count is absent where its source failed.
#[derive(Clone, Copy, Debug, Default, PartialEq, Eq, Structural)]
pub struct UserDialogTabCountsOutput {
    pub mutual_friends: Option<u32>,
    pub groups: Option<u32>,
    pub worlds: Option<u32>,
    pub favorite_worlds: Option<u32>,
    pub avatars: Option<u32>,
}

impl UserDialogTabCountsOutput {
    /// Every count asked for is present.
    pub open spec fn complete(&self, include_mutual_friends: bool) -> bool {
        (!include_mutual_friends || self.mutual_friends is Some) && self.groups is Some
            && self.worlds is Some && self.favorite_worlds is Some && self.avatars is Some
    }

    pub fn is_complete(&self, include_mutual_friends: bool) -> (r: bool)
        ensures
            r == self.complete(include_mutual_friends),
    {
        (!include_mutual_friends || self.mutual_friends.is_some()) && self.groups.is_some()
            && self.worlds.is_some() && self.favorite_worlds.is_some() && self.avatars.is_some()
    }
}

/// The wire count of a source that answered; none for one that failed.
pub open spec fn count_of(result: Result<usize, Error>) -> Option<u32> {
    match result {
        Ok(n) => Some(wire_count_of(n as int)),
        Err(_) => None,
    }
}

pub fn resolved_count(result: Result<usize, Error>) -> (r: Option<u32>)
    ensures
        r == count_of(result),
{
    match result {
        Ok(count) => Some(wire_count(count)),
        Err(_) => None,
    }
}

/// The counts of the sources that answered; a failed source leaves only its
/// own count out.
pub fn counts_from_results(
    mutual_friends: Option<Result<usize, Error>>,
    groups: Result<usize, Error>,
    worlds: Result<usize, Error>,
    favorite_worlds: Result<usize, Error>,
    avatars: Result<usize, Error>,
) -> (r: UserDialogTabCountsOutput)
    ensures
        r.mutual_friends == match mutual_friends {
            Some(m) => count_of(m),
            None => None,
        },
        r.groups == count_of(groups),
        r.worlds == count_of(worlds),
        r.favorite_worlds == count_of(favorite_worlds),
        r.avatars == count_of(avatars),
{
    UserDialogTabCountsOutput {
        mutual_friends: match mutual_friends {
            Some(m) => resolved_count(m),
            None => None,
        },
        groups: resolved_count(groups),
        worlds: resolved_count(worlds),
        favorite_worlds: resolved_count(favorite_worlds),
        avatars: resolved_count(avatars),
    }
}

/// The trimmed id of the user whose tabs are counted.
pub fn require_target_user_id(user_id: &str) -> (r: Result<String, Error>)
    ensures
        match r {
            Ok(t) => t@ == trim(user_id@) && t@.len() > 0,
            Err(e) => trim(user_id@).len() == 0 && is_custom(e, MISSING_USER_MESSAGE@),
        },
{
    let t = trim_str(user_id);
    if t.as_str().is_empty() {
        return Err(custom_error(MISSING_USER_MESSAGE));
    }
    Ok(t)
}

/// The worlds counted for a user: all of one's own, the public ones of
/// others.
pub fn world_release_status(target_user_id: &str, current_user_id: &str) -> (r: AvatarReleaseStatus)
    ensures
        r == if target_user_id@ == current_user_id@ {
            AvatarReleaseStatus::All
        } else {
            AvatarReleaseStatus::Public
        },
{
    if str_eq(target_user_id, current_user_id) {
        AvatarReleaseStatus::All
    } else {
        AvatarReleaseStatus::Public
    }
}

/// Counts rows page after page: stops after a short page, or after the page
/// at the greatest offset.
#[derive(Debug)]
pub struct BoundedPageCounter {
    pub page_size: usize,
    pub max_offset: i32,
    pub count: usize,
    pub offset: i32,
}

impl BoundedPageCounter {
    /// The offset is that of a page still to count: at most the greatest
    /// offset, or the one page step past it that the last step can reach.
    pub open spec fn wf(&self) -> bool {
        &&& 0 <= self.offset
        &&& self.offset <= self.max_offset || self.offset < self.max_offset + self.page_size
        &&& self.page_size + self.max_offset <= i32::MAX
    }

    pub fn new(page_size: usize, max_offset: i32) -> (r: BoundedPageCounter)
        requires
            max_offset >= 0,
            page_size + max_offset <= i32::MAX,
        ensures
            r.wf(),
            r.count == 0,
            r.offset == 0,
            r.page_size == page_size,
            r.max_offset == max_offset,
    {
        BoundedPageCounter { page_size, max_offset, count: 0, offset: 0 }
    }

    /// Adds the page's count; `true` when counting is over.
    pub fn record(&mut self, page: UserDialogCountPage) -> (done: bool)
        requires
            old(self).wf(),
            old(self).count + page.selected_count <= usize::MAX,
        ensures
            final(self).count == old(self).count + page.selected_count,
            final(self).page_size == old(self).page_size,
            final(self).max_offset == old(self).max_offset,
            done == (page.row_count < old(self).page_size || old(self).offset >= old(self).max_offset),
            done ==> final(self).offset == old(self).offset,
            !done ==> final(self).offset == old(self).offset + old(self).page_size,
            final(self).wf(),
    {
        self.count = self.count + page.selected_count;
        if page.row_count < self.page_size || self.offset >= self.max_offset {
            return true;
        }
        self.offset = self.offset + self.page_size as i32;
        false
    }
}

/// The names of the world favorite groups, page after page, up to the page
/// limit.
#[derive(Debug)]
pub struct FavoriteGroupNames {
    pub names: Vec<String>,
    pub page_index: usize,
}

impl FavoriteGroupNames {
    pub fn new() -> (r: FavoriteGroupNames)
        ensures
            r.names@.len() == 0,
            r.page_index == 0,
    {
        FavoriteGroupNames { names: Vec::new(), page_index: 0 }
    }

    /// The offset of the next page.
    pub fn offset(&self) -> (o: i32)
        requires
            self.page_index < MAX_PROFILE_PAGES,
        ensures
            o == self.page_index * FAVORITE_GROUP_PAGE_SIZE,
    {
        (self.page_index * FAVORITE_GROUP_PAGE_SIZE) as i32
    }

    /// Takes in a page; `true` when the names are complete: the page was
    /// short, or it was the last page allowed.
    pub fn record(&mut self, page: UserDialogFavoriteGroupPage) -> (done: bool)
        requires
            old(self).page_index < MAX_PROFILE_PAGES,
        ensures
            final(self).names@ == old(self).names@ + page.world_group_names@,
            final(self).page_index == old(self).page_index + 1,
            done == (page.row_count < FAVORITE_GROUP_PAGE_SIZE || final(self).page_index
                == MAX_PROFILE_PAGES),
    {
        let mut names = page.world_group_names;
        self.names.append(&mut names);
        self.page_index = self.page_index + 1;
        page.row_count < FAVORITE_GROUP_PAGE_SIZE || self.page_index == MAX_PROFILE_PAGES
    }
}

/// An avatar search provider as configured: retired and empty ones are
/// dropped, older addresses of the default provider become the current one.
pub open spec fn normalized_provider(value: Seq<char>) -> Option<Seq<char>> {
    let v = trim(value);
    if v.len() == 0 || v == RETIRED_AVATAR_PROVIDER@ {
        None
    } else if v == AVTRDB_V1_PROVIDER@ || v == AVTRDB_V2_PROVIDER@ {
        Some(DEFAULT_AVATAR_PROVIDER@)
    } else {
        Some(v)
    }
}

pub fn normalize_avatar_provider(value: &str) -> (r: Option<String>)
    ensures
        match r {
            Some(p) => normalized_provider(value@) == Some(p@),
            None => normalized_provider(value@) is None,
        },
{
    let v = trim_str(value);
    if v.as_str().is_empty() || str_eq(v.as_str(), RETIRED_AVATAR_PROVIDER) {
        None
    } else if str_eq(v.as_str(), AVTRDB_V1_PROVIDER) || str_eq(v.as_str(), AVTRDB_V2_PROVIDER) {
        Some(DEFAULT_AVATAR_PROVIDER.to_string())
    } else {
        Some(v)
    }
}

/// The strings among configured provider values (non-strings are skipped).
pub open spec fn provider_strings(values: Seq<JsonValue>) -> Seq<Seq<char>>
    decreases values.len(),
{
    if values.len() == 0 {
        Seq::empty()
    } else {
        let rest = provider_strings(values.drop_last());
        match values.last().str_of() {
            Some(s) => rest.push(s),
            None => rest,
        }
    }
}

/// The providers in their order, normalised, each once.
pub open spec fn provider_list(values: Seq<Seq<char>>) -> Seq<Seq<char>>
    decreases values.len(),
{
    if values.len() == 0 {
        Seq::empty()
    } else {
        let rest = provider_list(values.drop_last());
        match normalized_provider(values.last()) {
            Some(p) => if rest.contains(p) {
                rest
            } else {
                rest.push(p)
            },
            None => rest,
        }
    }
}

/// The configured provider values: the list, or the default provider when
/// the setting is not a list; the selected provider is added where it is
/// not among them.
pub open spec fn configured_values(providers: JsonValue, selected: Seq<char>) -> Seq<Seq<char>> {
    let values = match providers {
        JsonValue::Array(a) => provider_strings(a@),
        _ => seq![DEFAULT_AVATAR_PROVIDER@],
    };
    if trim(selected).len() > 0 && !values.contains(trim(selected)) {
        values.push(trim(selected))
    } else {
        values
    }
}

/// The provider the avatar count asks: none when the search is off; the
/// selected one where it is among the providers, else the first provider.
pub open spec fn selected_provider(enabled: bool, providers: JsonValue, selected: Seq<char>) -> Option<
    Seq<char>,
> {
    if !enabled {
        None
    } else {
        let list = provider_list(configured_values(providers, selected));
        match normalized_provider(trim(selected)) {
            Some(p) if list.contains(p) => Some(p),
            _ => if list.len() > 0 {
                Some(list[0])
            } else {
                None
            },
        }
    }
}

fn strings_of_values(values: &Vec<JsonValue>) -> (r: Vec<String>)
    ensures
        views(r@) == provider_strings(values@),
{
    let mut out: Vec<String> = Vec::new();
    let mut i: usize = 0;
    while i < values.len()
        invariant
            i <= values.len(),
            views(out@) == provider_strings(values@.take(i as int)),
        decreases values.len() - i,
    {
        proof {
            assert(values@.take(i as int + 1).drop_last() =~= values@.take(i as int));
        }
        match values[i].as_str() {
            Some(s) => {
                let ghost before = out@;
                out.push(s.clone());
                proof {
                    assert(views(out@) =~= views(before).push(s@));
                }
            },
            None => {},
        }
        i = i + 1;
    }
    proof {
        assert(values@.take(i as int) =~= values@);
    }
    out
}

/// The provider that the avatar count of another user asks.
pub fn selected_avatar_provider(config: &AvatarProviderConfig) -> (r: Option<String>)
    ensures
        match r {
            Some(p) => selected_provider(config.enabled, config.providers, config.selected@) == Some(
                p@,
            ),
            None => selected_provider(config.enabled, config.providers, config.selected@) is None,
        },
{
    if !config.enabled {
        return None;
    }
    let mut values: Vec<String> = match &config.providers {
        JsonValue::Array(a) => strings_of_values(a),
        _ => {
            let v = vec![DEFAULT_AVATAR_PROVIDER.to_string()];
            proof {
                assert(views(v@) =~= seq![DEFAULT_AVATAR_PROVIDER@]);
            }
            v
        },
    };
    let selected = trim_str(config.selected.as_str());
    if !selected.as_str().is_empty() && !contains_str(values.as_slice(), selected.as_str()) {
        let ghost before = values@;
        values.push(selected.clone());
        proof {
            assert(views(values@) =~= views(before).push(selected@));
        }
    }
    let ghost cv = views(values@);
    assert(cv == configured_values(config.providers, config.selected@));
    let mut providers: Vec<String> = Vec::new();
    let mut i: usize = 0;
    while i < values.len()
        invariant
            i <= values.len(),
            cv == views(values@),
            views(providers@) == provider_list(cv.take(i as int)),
        decreases values.len() - i,
    {
        proof {
            assert(cv.take(i as int + 1).drop_last() =~= cv.take(i as int));
        }
        match normalize_avatar_provider(values[i].as_str()) {
            Some(p) => {
                if !contains_str(providers.as_slice(), p.as_str()) {
                    let ghost before = providers@;
                    let ghost pv = p@;
                    providers.push(p);
                    proof {
                        assert(views(providers@) =~= views(before).push(pv));
                    }
                }
            },
            None => {},
        }
        i = i + 1;
    }
    proof {
        assert(cv.take(i as int) =~= cv);
        crate::text::lemma_trim_idempotent(config.selected@);
    }
    match normalize_avatar_provider(selected.as_str()) {
        Some(p) => {
            if contains_str(providers.as_slice(), p.as_str()) {
                return Some(p);
            }
        },
        None => {},
    }
    if providers.len() > 0 {
        Some(providers[0].clone())
    } else {
        None
    }
}

/// The cache key part that names the avatar provider: the provider, or why
/// there is none.
pub fn avatar_provider_key(provider: &Result<Option<String>, Error>) -> (r: String)
    ensures
        r@ == match provider {
            Ok(Some(p)) => p@,
            Ok(None) => "disabled"@,
            Err(_) => "config-error"@,
        },
{
    match provider {
        Ok(Some(p)) => p.clone(),
        Ok(None) => "disabled".to_string(),
        Err(_) => "config-error".to_string(),
    }
}

/// The avatar providers are distinct, and the provider chosen is one of them.
pub proof fn law_selected_provider_is_listed(enabled: bool, providers: JsonValue, selected: Seq<char>)
    ensures
        provider_list(configured_values(providers, selected)).no_duplicates(),
        selected_provider(enabled, providers, selected) matches Some(p) ==> provider_list(
            configured_values(providers, selected),
        ).contains(p),
{
    lemma_provider_list_distinct(configured_values(providers, selected));
    let list = provider_list(configured_values(providers, selected));
    if list.len() > 0 {
        assert(list.contains(list[0]));
    }
}

proof fn lemma_provider_list_distinct(values: Seq<Seq<char>>)
    ensures
        provider_list(values).no_duplicates(),
    decreases values.len(),
{
    if values.len() > 0 {
        lemma_provider_list_distinct(values.drop_last());
    }
}

} // verus!
