//! Reading the mutual friends of a user page by page: which ids are kept,
//! when a page is retried, when paging stops, and what a failed friend keeps
//! of the cached snapshot.

use vstd::prelude::*;

use crate::error::{custom_error, is_custom, Error};
use crate::json::{json_error_text, parse_json_or_error, parsed_json, str_field_of, JsonValue};
use crate::numbers::{decimal_i32, decimal_text};
use crate::social::mutual_graph_fetch::types::{
    MutualGraphFriendRefreshStatus, MutualGraphLinkOutput, MutualGraphMetaInput,
    MutualGraphMetaOutput, MutualGraphSnapshotEntryInput, MutualGraphSnapshotOutput,
};
use crate::text::{contains_str, str_eq, trim, trim_str, views};

verus! {

pub const MUTUAL_GRAPH_PAGE_SIZE: i64 = 100;

pub const MUTUAL_GRAPH_REQUEST_INTERVAL_MS: u64 = 200;

pub const MUTUAL_GRAPH_MAX_RETRIES: usize = 4;

pub const MUTUAL_GRAPH_MAX_PAGES: usize = 50;

pub const MUTUAL_GRAPH_EMPTY_USER_ID: &'static str = "usr_00000000-0000-0000-0000-000000000000";

/// The id as given, trimmed.
pub fn normalize_id(value: &str) -> (r: String)
    ensures
        r@ == trim(value@),
{
    trim_str(value)
}

/// A user id that names somebody: not empty, not the all-zero id.
pub open spec fn names_user(id: Seq<char>) -> bool {
    id.len() > 0 && id != MUTUAL_GRAPH_EMPTY_USER_ID@
}

/// The user id of a mutual-friend record.
pub open spec fn mutual_id_of(row: JsonValue) -> Option<Seq<char>> {
    let id = match str_field_of(row, "id"@) {
        Some(s) => trim(s),
        None => Seq::<char>::empty(),
    };
    if names_user(id) {
        Some(id)
    } else {
        None
    }
}

pub fn mutual_id_from_value(value: &JsonValue) -> (r: Option<String>)
    ensures
        match r {
            Some(id) => mutual_id_of(*value) == Some(id@),
            None => mutual_id_of(*value) is None,
        },
{
    let id = match crate::json::str_field(value, "id") {
        Some(s) => normalize_id(s.as_str()),
        None => String::new(),
    };
    if id.as_str().is_empty() || str_eq(id.as_str(), MUTUAL_GRAPH_EMPTY_USER_ID) {
        None
    } else {
        Some(id)
    }
}

/// `acc` with `x` added at the end, unless it is there already.
pub open spec fn add_unique(acc: Seq<Seq<char>>, x: Seq<char>) -> Seq<Seq<char>> {
    if acc.contains(x) {
        acc
    } else {
        acc.push(x)
    }
}

/// The friend ids of a fetch: trimmed, naming somebody, each once, in their
/// first order.
pub open spec fn friend_ids_of(values: Seq<Seq<char>>) -> Seq<Seq<char>>
    decreases values.len(),
{
    if values.len() == 0 {
        Seq::empty()
    } else {
        let rest = friend_ids_of(values.drop_last());
        let id = trim(values.last());
        if names_user(id) {
            add_unique(rest, id)
        } else {
            rest
        }
    }
}

pub fn normalize_friend_ids(values: Vec<String>) -> (r: Vec<String>)
    ensures
        views(r@) == friend_ids_of(views(values@)),
{
    let ghost vs = views(values@);
    let mut out: Vec<String> = Vec::new();
    let mut i: usize = 0;
    while i < values.len()
        invariant
            i <= values.len(),
            vs == views(values@),
            views(out@) == friend_ids_of(vs.take(i as int)),
        decreases values.len() - i,
    {
        proof {
            assert(vs.take(i as int + 1).drop_last() =~= vs.take(i as int));
        }
        let id = normalize_id(values[i].as_str());
        if !id.as_str().is_empty() && !str_eq(id.as_str(), MUTUAL_GRAPH_EMPTY_USER_ID) {
            if !contains_str(out.as_slice(), id.as_str()) {
                let ghost before = out@;
                let ghost idv = id@;
                out.push(id);
                proof {
                    assert(views(out@) =~= views(before).push(idv));
                }
            }
        }
        i = i + 1;
    }
    proof {
        assert(vs.take(i as int) =~= vs);
    }
    out
}

/// The delay before retry number `attempt + 1`: 500 ms, doubled each time.
pub open spec fn backoff_ms(attempt: nat) -> int
    decreases attempt,
{
    if attempt == 0 {
        500
    } else {
        2 * backoff_ms((attempt - 1) as nat)
    }
}

pub fn backoff_delay_ms(attempt: usize) -> (ms: u64)
    requires
        attempt <= 55,
    ensures
        ms == backoff_ms(attempt as nat),
{
    let mut ms: u64 = 500;
    let mut k: usize = 0;
    while k < attempt
        invariant
            k <= attempt <= 55,
            ms == backoff_ms(k as nat),
            ms <= 500 * pow2_u64(k as nat),
        decreases attempt - k,
    {
        proof {
            lemma_pow2_bound(k as nat);
        }
        ms = ms * 2;
        k = k + 1;
    }
    ms
}

pub open spec fn pow2_u64(k: nat) -> int
    decreases k,
{
    if k == 0 {
        1
    } else {
        2 * pow2_u64((k - 1) as nat)
    }
}

proof fn lemma_pow2_bound(k: nat)
    requires
        k < 55,
    ensures
        1000 * pow2_u64(k) <= u64::MAX,
    decreases k,
{
    if k > 0 {
        lemma_pow2_bound((k - 1) as nat);
    } else {
    }
    assert(1000 * pow2_u64(k) <= 1000 * pow2_u64(54)) by {
        lemma_pow2_monotone(k, 54);
    }
    assert(pow2_u64(54) == 0x40000000000000) by {
        reveal_with_fuel(pow2_u64, 55);
    }
}

proof fn lemma_pow2_monotone(a: nat, b: nat)
    requires
        a <= b,
    ensures
        pow2_u64(a) <= pow2_u64(b),
        pow2_u64(a) >= 1,
    decreases b,
{
    if b > a {
        lemma_pow2_monotone(a, (b - 1) as nat);
    } else if a > 0 {
        lemma_pow2_monotone((a - 1) as nat, (a - 1) as nat);
    }
}

/// Statuses after which a page is asked for again.
pub open spec fn retryable(status: int) -> bool {
    status == 408 || status == 409 || status == 425 || status == 429 || (500 <= status <= 599)
}

pub fn is_retryable_status(status: i32) -> (r: bool)
    ensures
        r == retryable(status as int),
{
    status == 408 || status == 409 || status == 425 || status == 429 || (500 <= status
        && status <= 599)
}

/// What became of one page of mutual friends.
#[derive(Debug)]
pub enum PageFetchResult {
    Rows(Vec<JsonValue>),
    OptedOut,
    Cancelled,
    Failed(String),
}

/// What a mutual-friends request gave: a failure to reach VRChat, or a
/// reply.
#[derive(Debug)]
pub enum PageResponse {
    TransportError(String),
    Http { status: i32, data: String },
}

/// The next step of a page fetch: wait and ask again, or done with a
/// result.
#[derive(Debug)]
pub enum PageStep {
    Retry { delay_ms: u64 },
    Done(PageFetchResult),
}

/// The message of a page that failed with an HTTP status.
pub open spec fn page_failure_message(friend_id: Seq<char>, status: int) -> Seq<char> {
    "VRChat mutual friends request for "@ + friend_id + " failed with HTTP "@ + decimal_text(
        status,
    ) + "."@
}

/// The rows of a reply that parsed: its elements when it is a list.
pub open spec fn rows_of(value: JsonValue) -> Seq<JsonValue> {
    match value {
        JsonValue::Array(a) => a@,
        _ => Seq::empty(),
    }
}

/// Decides what a reply to attempt number `attempt` (from 0) of a page
/// means: a transport failure or a retryable status is retried while fewer
/// than `MUTUAL_GRAPH_MAX_RETRIES` retries were made; 403 and 404 mean the
/// friend opted out; a 2xx or 3xx reply gives its rows, unless it is not JSON
/// or carries an `error` member.
pub fn page_step(response: PageResponse, attempt: usize, friend_id: &str) -> (r: PageStep)
    requires
        attempt <= MUTUAL_GRAPH_MAX_RETRIES,
    ensures
        match response {
            PageResponse::TransportError(e) => if attempt < MUTUAL_GRAPH_MAX_RETRIES {
                r matches PageStep::Retry { delay_ms } && delay_ms == backoff_ms(attempt as nat)
            } else {
                r matches PageStep::Done(PageFetchResult::Failed(m)) && m@ == e@
            },
            PageResponse::Http { status, data } => if status == 403 || status == 404 {
                r matches PageStep::Done(PageFetchResult::OptedOut)
            } else if 200 <= status <= 399 {
                match parsed_json(data@) {
                    None => r matches PageStep::Done(PageFetchResult::Failed(m)) && m@
                        == json_error_text(data@),
                    Some(v) => if v.field("error"@) is Some {
                        r matches PageStep::Done(PageFetchResult::Failed(m)) && m@ == data@
                    } else {
                        r matches PageStep::Done(PageFetchResult::Rows(rows)) && rows@ == rows_of(
                            v,
                        )
                    },
                }
            } else if retryable(status as int) && attempt < MUTUAL_GRAPH_MAX_RETRIES {
                r matches PageStep::Retry { delay_ms } && delay_ms == backoff_ms(attempt as nat)
            } else {
                r matches PageStep::Done(PageFetchResult::Failed(m)) && m@ == page_failure_message(
                    friend_id@,
                    status as int,
                )
            },
        },
{
    match response {
        PageResponse::TransportError(e) => {
            if attempt < MUTUAL_GRAPH_MAX_RETRIES {
                return PageStep::Retry { delay_ms: backoff_delay_ms(attempt) };
            }
            PageStep::Done(PageFetchResult::Failed(e))
        },
        PageResponse::Http { status, data } => {
            if status == 403 || status == 404 {
                return PageStep::Done(PageFetchResult::OptedOut);
            }
            if 200 <= status && status <= 399 {
                let json = match parse_json_or_error(data.as_str()) {
                    Ok(v) => v,
                    Err(m) => {
                        return PageStep::Done(PageFetchResult::Failed(m));
                    },
                };
                if json.get("error").is_some() {
                    return PageStep::Done(PageFetchResult::Failed(data));
                }
                let rows = match json {
                    JsonValue::Array(a) => a,
                    _ => Vec::new(),
                };
                return PageStep::Done(PageFetchResult::Rows(rows));
            }
            if is_retryable_status(status) && attempt < MUTUAL_GRAPH_MAX_RETRIES {
                return PageStep::Retry { delay_ms: backoff_delay_ms(attempt) };
            }
            let mut m = "VRChat mutual friends request for ".to_string();
            m.append(friend_id);
            m.append(" failed with HTTP ");
            let code = decimal_i32(status);
            m.append(code.as_str());
            m.append(".");
            PageStep::Done(PageFetchResult::Failed(m))
        },
    }
}

/// The mutual ids collected from rows, added after `acc`, each once.
pub open spec fn collect_mutuals(acc: Seq<Seq<char>>, rows: Seq<JsonValue>) -> Seq<Seq<char>>
    decreases rows.len(),
{
    if rows.len() == 0 {
        acc
    } else {
        let rest = collect_mutuals(acc, rows.drop_last());
        match mutual_id_of(rows.last()) {
            Some(id) => add_unique(rest, id),
            None => rest,
        }
    }
}

/// The greatest offset a friend's paging reaches.
pub open spec fn paging_limit() -> int {
    MUTUAL_GRAPH_MAX_PAGES * MUTUAL_GRAPH_PAGE_SIZE
}

/// The mutual ids of one friend, page after page.
#[derive(Debug)]
pub struct FriendMutualsPager {
    pub collected: Vec<String>,
    pub offset: i64,
}

impl FriendMutualsPager {
    pub open spec fn wf(&self) -> bool {
        0 <= self.offset < paging_limit()
    }

    pub fn new() -> (r: FriendMutualsPager)
        ensures
            r.wf(),
            r.offset == 0,
            r.collected@.len() == 0,
    {
        FriendMutualsPager { collected: Vec::new(), offset: 0 }
    }

    /// Takes in one page of rows; `true` when paging is over: the page was
    /// short, or the page limit is reached.
    pub fn record_page(&mut self, rows: &Vec<JsonValue>) -> (done: bool)
        requires
            old(self).wf(),
            rows.len() <= i64::MAX - paging_limit(),
        ensures
            views(final(self).collected@) == collect_mutuals(views(old(self).collected@), rows@),
            done == (rows.len() < MUTUAL_GRAPH_PAGE_SIZE || (old(self).offset + rows.len())
                / (MUTUAL_GRAPH_PAGE_SIZE as int) >= MUTUAL_GRAPH_MAX_PAGES),
            final(self).offset == if rows.len() < MUTUAL_GRAPH_PAGE_SIZE {
                old(self).offset as int
            } else {
                old(self).offset + rows.len()
            },
            !done ==> final(self).wf(),
    {
        let ghost start = views(self.collected@);
        let mut i: usize = 0;
        while i < rows.len()
            invariant
                i <= rows.len(),
                views(self.collected@) == collect_mutuals(start, rows@.take(i as int)),
                self.offset == old(self).offset,
                0 <= self.offset < paging_limit(),
                rows.len() <= i64::MAX - paging_limit(),
            decreases rows.len() - i,
        {
            proof {
                assert(rows@.take(i as int + 1).drop_last() =~= rows@.take(i as int));
            }
            match mutual_id_from_value(&rows[i]) {
                Some(id) => {
                    if !contains_str(self.collected.as_slice(), id.as_str()) {
                        let ghost before = self.collected@;
                        let ghost idv = id@;
                        self.collected.push(id);
                        proof {
                            assert(views(self.collected@) =~= views(before).push(idv));
                        }
                    }
                },
                None => {},
            }
            i = i + 1;
        }
        proof {
            assert(rows@.take(i as int) =~= rows@);
        }
        let page_len = rows.len();
        if page_len < 100 {
            return true;
        }
        self.offset = self.offset + page_len as i64;
        self.offset / MUTUAL_GRAPH_PAGE_SIZE >= MUTUAL_GRAPH_MAX_PAGES as i64
    }
}

/// What follows one page of a friend's mutual ids: the next page, at
/// `offset`, or the end of the friend's fetch.
#[derive(Debug)]
pub enum FriendMutualsStep {
    Next { offset: i64 },
    Done(FriendFetchResult),
}

impl FriendMutualsPager {
    /// Takes in what became of one page. Rows are collected; paging goes on
    /// at the next offset unless it is over, and then the fetch ends with
    /// the ids collected. An opted-out, cancelled or failed page ends the
    /// fetch at once with that result, and the ids collected so far are
    /// dropped.
    pub fn step(&mut self, page: PageFetchResult) -> (r: FriendMutualsStep)
        requires
            old(self).wf(),
            page matches PageFetchResult::Rows(rows) ==> rows.len() <= i64::MAX - paging_limit(),
        ensures
            match page {
                PageFetchResult::Rows(rows) => {
                    let all = collect_mutuals(views(old(self).collected@), rows@);
                    let over = rows.len() < MUTUAL_GRAPH_PAGE_SIZE || (old(self).offset
                        + rows.len()) / (MUTUAL_GRAPH_PAGE_SIZE as int) >= MUTUAL_GRAPH_MAX_PAGES;
                    &&& over ==> (r matches FriendMutualsStep::Done(
                        FriendFetchResult::MutualIds(ids),
                    ) && views(ids@) == all)
                    &&& !over ==> (r matches FriendMutualsStep::Next { offset } && offset
                        == old(self).offset + rows.len() && final(self).offset == offset
                        && views(final(self).collected@) == all && final(self).wf())
                },
                PageFetchResult::OptedOut => r matches FriendMutualsStep::Done(
                    FriendFetchResult::OptedOut,
                ),
                PageFetchResult::Cancelled => r matches FriendMutualsStep::Done(
                    FriendFetchResult::Cancelled,
                ),
                PageFetchResult::Failed(m) => r matches FriendMutualsStep::Done(
                    FriendFetchResult::Failed(f),
                ) && f == m,
            },
    {
        match page {
            PageFetchResult::Rows(rows) => {
                if self.record_page(&rows) {
                    let mut ids: Vec<String> = Vec::new();
                    std::mem::swap(&mut ids, &mut self.collected);
                    FriendMutualsStep::Done(FriendFetchResult::MutualIds(ids))
                } else {
                    FriendMutualsStep::Next { offset: self.offset }
                }
            },
            PageFetchResult::OptedOut => FriendMutualsStep::Done(FriendFetchResult::OptedOut),
            PageFetchResult::Cancelled => FriendMutualsStep::Done(FriendFetchResult::Cancelled),
            PageFetchResult::Failed(m) => FriendMutualsStep::Done(FriendFetchResult::Failed(m)),
        }
    }
}

/// The rows of a mutual-friends list, page after page, up to the page
/// limit.
#[derive(Debug)]
pub struct MutualRowsPager {
    pub rows: Vec<JsonValue>,
    pub page: usize,
}

impl MutualRowsPager {
    pub fn new() -> (r: MutualRowsPager)
        ensures
            r.page == 0,
            r.rows@.len() == 0,
    {
        MutualRowsPager { rows: Vec::new(), page: 0 }
    }

    /// The offset of the next page.
    pub fn offset(&self) -> (o: i64)
        requires
            self.page < MUTUAL_GRAPH_MAX_PAGES,
        ensures
            o == self.page * MUTUAL_GRAPH_PAGE_SIZE,
    {
        self.page as i64 * MUTUAL_GRAPH_PAGE_SIZE
    }

    /// Takes in one page of rows; `true` when the list is complete: the page
    /// was short, or it was the last page allowed.
    pub fn record_page(&mut self, next_rows: Vec<JsonValue>) -> (done: bool)
        requires
            old(self).page < MUTUAL_GRAPH_MAX_PAGES,
        ensures
            final(self).rows@ == old(self).rows@ + next_rows@,
            final(self).page == old(self).page + 1,
            done == (next_rows.len() < MUTUAL_GRAPH_PAGE_SIZE || final(self).page
                == MUTUAL_GRAPH_MAX_PAGES),
    {
        let page_len = next_rows.len();
        let mut next_rows = next_rows;
        self.rows.append(&mut next_rows);
        self.page = self.page + 1;
        page_len < 100 || self.page == MUTUAL_GRAPH_MAX_PAGES
    }
}

/// The end of a friend's fetch.
#[derive(Debug)]
pub enum FriendFetchResult {
    MutualIds(Vec<String>),
    OptedOut,
    Cancelled,
    Failed(String),
}

pub const FRIEND_REFRESH_SCOPE_MESSAGE: &'static str =
    "Mutual graph friend refresh authentication scope changed.";

pub const LIST_UNAVAILABLE_MESSAGE: &'static str =
    "VRChat mutual friends request is unavailable (403 or 404).";

pub const LIST_SCOPE_MESSAGE: &'static str =
    "User mutual friends list authentication scope changed.";

/// What a friend refresh commits: its status, the mutual ids, and whether
/// the friend opted out; an error where the fetch was cancelled or failed.
pub fn friend_refresh_outcome(result: FriendFetchResult) -> (r: Result<
    (MutualGraphFriendRefreshStatus, Option<Vec<String>>, bool),
    Error,
>)
    ensures
        match result {
            FriendFetchResult::MutualIds(ids) => r matches Ok((s, Some(m), o)) && s
                == MutualGraphFriendRefreshStatus::Refreshed && m@ == ids@ && !o,
            FriendFetchResult::OptedOut => r matches Ok((s, None, o)) && s
                == MutualGraphFriendRefreshStatus::OptedOut && o,
            FriendFetchResult::Cancelled => r matches Err(e) && is_custom(
                e,
                FRIEND_REFRESH_SCOPE_MESSAGE@,
            ),
            FriendFetchResult::Failed(m) => r matches Err(e) && is_custom(e, m@),
        },
{
    match result {
        FriendFetchResult::MutualIds(ids) => Ok(
            (MutualGraphFriendRefreshStatus::Refreshed, Some(ids), false),
        ),
        FriendFetchResult::OptedOut => Ok((MutualGraphFriendRefreshStatus::OptedOut, None, true)),
        FriendFetchResult::Cancelled => Err(custom_error(FRIEND_REFRESH_SCOPE_MESSAGE)),
        FriendFetchResult::Failed(m) => Err(Error::Custom(m)),
    }
}

/// The error a mutual-friends list reports for a page that gave no rows.
pub fn list_page_error(result: PageFetchResult) -> (r: Option<Error>)
    ensures
        match result {
            PageFetchResult::Rows(_) => r is None,
            PageFetchResult::OptedOut => r matches Some(e) && is_custom(e, LIST_UNAVAILABLE_MESSAGE@),
            PageFetchResult::Cancelled => r matches Some(e) && is_custom(e, LIST_SCOPE_MESSAGE@),
            PageFetchResult::Failed(m) => r matches Some(e) && is_custom(e, m@),
        },
{
    match result {
        PageFetchResult::Rows(_) => None,
        PageFetchResult::OptedOut => Some(custom_error(LIST_UNAVAILABLE_MESSAGE)),
        PageFetchResult::Cancelled => Some(custom_error(LIST_SCOPE_MESSAGE)),
        PageFetchResult::Failed(m) => Some(Error::Custom(m)),
    }
}

pub const FETCH_OWNER_MESSAGE: &'static str = "MutualGraphFetchStart requires ownerUserId.";

pub const FETCH_SCOPE_MESSAGE: &'static str =
    "Mutual graph fetch requires the active authenticated user.";

/// The owner and endpoint of a fetch: the session's, where the session is
/// active and belongs to the (trimmed) owner asked for.
pub fn resolve_fetch_scope(
    owner_user_id: &str,
    scope_active: bool,
    scope_user_id: &str,
    scope_endpoint: &str,
) -> (r: Result<(String, String), Error>)
    ensures
        match r {
            Ok((owner, endpoint)) => trim(owner_user_id@).len() > 0 && scope_active && scope_user_id@
                == trim(owner_user_id@) && owner@ == scope_user_id@ && endpoint@
                == scope_endpoint@,
            Err(e) => if trim(owner_user_id@).len() == 0 {
                is_custom(e, FETCH_OWNER_MESSAGE@)
            } else {
                (!scope_active || scope_user_id@ != trim(owner_user_id@)) && is_custom(
                    e,
                    FETCH_SCOPE_MESSAGE@,
                )
            },
        },
{
    let owner = normalize_id(owner_user_id);
    if owner.as_str().is_empty() {
        return Err(custom_error(FETCH_OWNER_MESSAGE));
    }
    if !scope_active || !str_eq(scope_user_id, owner.as_str()) {
        return Err(custom_error(FETCH_SCOPE_MESSAGE));
    }
    Ok((scope_user_id.to_string(), scope_endpoint.to_string()))
}

pub const FRIEND_ID_MESSAGE: &'static str = "Mutual graph friend refresh requires a friend id.";

/// The friend a refresh is for: the id trimmed, refused when that leaves
/// nothing.
pub fn refresh_friend_id(friend_id: &str) -> (r: Result<String, Error>)
    ensures
        match r {
            Ok(id) => id@ == trim(friend_id@) && id@.len() > 0,
            Err(e) => trim(friend_id@).len() == 0 && is_custom(e, FRIEND_ID_MESSAGE@),
        },
{
    let id = normalize_id(friend_id);
    if id.as_str().is_empty() {
        return Err(custom_error(FRIEND_ID_MESSAGE));
    }
    Ok(id)
}

pub const LIST_USER_MESSAGE: &'static str = "User mutual friends list requires a user id.";

/// The user whose mutual friends are listed: the id trimmed, refused when
/// that leaves nothing.
pub fn list_user_id(user_id: &str) -> (r: Result<String, Error>)
    ensures
        match r {
            Ok(id) => id@ == trim(user_id@) && id@.len() > 0,
            Err(e) => trim(user_id@).len() == 0 && is_custom(e, LIST_USER_MESSAGE@),
        },
{
    let id = normalize_id(user_id);
    if id.as_str().is_empty() {
        return Err(custom_error(LIST_USER_MESSAGE));
    }
    Ok(id)
}

/// A fetch stops when it was cancelled or the session changed.
pub fn fetch_should_cancel(cancel_requested: bool, scope_matches: bool) -> (r: bool)
    ensures
        r == (cancel_requested || !scope_matches),
{
    cancel_requested || !scope_matches
}

/// The check made before each request of a page fetch: a fetch that was
/// cancelled, or whose session changed, ends `Cancelled` without another
/// request; otherwise it goes on.
pub fn page_cancel_check(cancel_requested: bool, scope_matches: bool) -> (r: Option<PageFetchResult>)
    ensures
        (cancel_requested || !scope_matches) ==> r matches Some(PageFetchResult::Cancelled),
        !(cancel_requested || !scope_matches) ==> r is None,
{
    if fetch_should_cancel(cancel_requested, scope_matches) {
        Some(PageFetchResult::Cancelled)
    } else {
        None
    }
}

/// How long to wait before the next request so that requests are at least
/// `MUTUAL_GRAPH_REQUEST_INTERVAL_MS` apart, given how long ago the last
/// one was sent (none yet: no wait).
pub fn rate_limit_wait_ms(since_last_request_ms: Option<u64>) -> (r: u64)
    ensures
        r == match since_last_request_ms {
            Some(e) => if e < MUTUAL_GRAPH_REQUEST_INTERVAL_MS {
                (MUTUAL_GRAPH_REQUEST_INTERVAL_MS - e) as u64
            } else {
                0
            },
            None => 0,
        },
{
    match since_last_request_ms {
        Some(e) => if e < MUTUAL_GRAPH_REQUEST_INTERVAL_MS {
            MUTUAL_GRAPH_REQUEST_INTERVAL_MS - e
        } else {
            0
        },
        None => 0,
    }
}

/// `(friend_id, mutual_id)` of each link.
pub open spec fn link_views(links: Seq<MutualGraphLinkOutput>) -> Seq<(Seq<char>, Seq<char>)> {
    Seq::new(links.len(), |i: int| (links[i].friend_id@, links[i].mutual_id@))
}

/// The mutual ids that the links give a friend, in their order.
pub open spec fn links_of(links: Seq<(Seq<char>, Seq<char>)>, friend: Seq<char>) -> Seq<Seq<char>>
    decreases links.len(),
{
    if links.len() == 0 {
        Seq::empty()
    } else {
        let rest = links_of(links.drop_last(), friend);
        if links.last().0 == friend {
            rest.push(links.last().1)
        } else {
            rest
        }
    }
}

/// The entries kept for failed friends: each failed friend of the cached
/// snapshot, in its order, with its cached mutual ids the first time it
/// occurs and none after.
pub open spec fn preserved_entries(
    friend_ids: Seq<Seq<char>>,
    links: Seq<(Seq<char>, Seq<char>)>,
    failed: Seq<Seq<char>>,
) -> Seq<(Seq<char>, Seq<Seq<char>>)>
    decreases friend_ids.len(),
{
    if friend_ids.len() == 0 {
        Seq::empty()
    } else {
        let rest = preserved_entries(friend_ids.drop_last(), links, failed);
        let f = friend_ids.last();
        if failed.contains(f) {
            rest.push(
                (
                    f,
                    if friend_ids.drop_last().contains(f) {
                        Seq::empty()
                    } else {
                        links_of(links, f)
                    },
                ),
            )
        } else {
            rest
        }
    }
}

pub open spec fn entry_views(entries: Seq<MutualGraphSnapshotEntryInput>) -> Seq<
    (Seq<char>, Seq<Seq<char>>),
> {
    Seq::new(entries.len(), |i: int| (entries[i].friend_id@, views(entries[i].mutual_ids@)))
}

/// `(friend_id, last_fetched_at, opted_out, total_count)` of a meta record.
pub type MetaView = (Seq<char>, Seq<char>, bool, Option<usize>);

pub open spec fn meta_input_views(meta: Seq<MutualGraphMetaInput>) -> Seq<MetaView> {
    Seq::new(
        meta.len(),
        |i: int| (meta[i].friend_id@, meta[i].last_fetched_at@, meta[i].opted_out, meta[i].total_count),
    )
}

pub open spec fn meta_output_views(meta: Seq<MutualGraphMetaOutput>) -> Seq<MetaView> {
    Seq::new(
        meta.len(),
        |i: int| (meta[i].friend_id@, meta[i].last_fetched_at@, meta[i].opted_out, meta[i].total_count),
    )
}

/// The meta records of failed friends, in their order.
pub open spec fn preserved_meta(meta: Seq<MetaView>, failed: Seq<Seq<char>>) -> Seq<MetaView>
    decreases meta.len(),
{
    if meta.len() == 0 {
        Seq::empty()
    } else {
        let rest = preserved_meta(meta.drop_last(), failed);
        if failed.contains(meta.last().0) {
            rest.push(meta.last())
        } else {
            rest
        }
    }
}

fn cached_links_of(links: &Vec<MutualGraphLinkOutput>, friend_id: &str) -> (r: Vec<String>)
    ensures
        views(r@) == links_of(link_views(links@), friend_id@),
{
    let ghost lv = link_views(links@);
    let mut out: Vec<String> = Vec::new();
    let mut i: usize = 0;
    while i < links.len()
        invariant
            i <= links.len(),
            lv == link_views(links@),
            views(out@) == links_of(lv.take(i as int), friend_id@),
        decreases links.len() - i,
    {
        proof {
            assert(lv.take(i as int + 1).drop_last() =~= lv.take(i as int));
        }
        if str_eq(links[i].friend_id.as_str(), friend_id) {
            let ghost before = out@;
            out.push(links[i].mutual_id.clone());
            proof {
                assert(views(out@) =~= views(before).push(links@[i as int].mutual_id@));
            }
        }
        i = i + 1;
    }
    proof {
        assert(lv.take(i as int) =~= lv);
    }
    out
}

fn occurs_before(ids: &Vec<String>, k: usize) -> (r: bool)
    requires
        k < ids.len(),
    ensures
        r == views(ids@).take(k as int).contains(ids@[k as int]@),
{
    let mut j: usize = 0;
    while j < k
        invariant
            j <= k < ids.len(),
            forall|m: int| 0 <= m < j ==> ids@[m]@ != ids@[k as int]@,
        decreases k - j,
    {
        if str_eq(ids[j].as_str(), ids[k].as_str()) {
            proof {
                assert(views(ids@).take(k as int)[j as int] == ids@[k as int]@);
            }
            return true;
        }
        j = j + 1;
    }
    proof {
        if views(ids@).take(k as int).contains(ids@[k as int]@) {
            let m = choose|m: int|
                0 <= m < k && views(ids@).take(k as int)[m] == ids@[k as int]@;
            assert(ids@[m]@ == ids@[k as int]@);
        }
    }
    false
}

/// Adds, for the friends whose fetch failed, what the cached snapshot held
/// of them, so that a failure does not erase it.
pub fn preserve_failed_friend_cache(
    entries: &mut Vec<MutualGraphSnapshotEntryInput>,
    meta_entries: &mut Vec<MutualGraphMetaInput>,
    failed_friend_ids: &Vec<String>,
    cached: MutualGraphSnapshotOutput,
)
    ensures
        entry_views(final(entries)@) == entry_views(old(entries)@) + preserved_entries(
            views(cached.friend_ids@),
            link_views(cached.links@),
            views(failed_friend_ids@),
        ),
        meta_input_views(final(meta_entries)@) == meta_input_views(old(meta_entries)@)
            + preserved_meta(meta_output_views(cached.meta@), views(failed_friend_ids@)),
{
    let ghost fv = views(cached.friend_ids@);
    let ghost lv = link_views(cached.links@);
    let ghost failed = views(failed_friend_ids@);
    let ghost start = entry_views(entries@);
    let mut k: usize = 0;
    while k < cached.friend_ids.len()
        invariant
            k <= cached.friend_ids.len(),
            fv == views(cached.friend_ids@),
            lv == link_views(cached.links@),
            failed == views(failed_friend_ids@),
            entry_views(entries@) == start + preserved_entries(fv.take(k as int), lv, failed),
        decreases cached.friend_ids.len() - k,
    {
        proof {
            assert(fv.take(k as int + 1).drop_last() =~= fv.take(k as int));
        }
        let friend_id = &cached.friend_ids[k];
        if contains_str(failed_friend_ids.as_slice(), friend_id.as_str()) {
            let mutual_ids = if occurs_before(&cached.friend_ids, k) {
                let v: Vec<String> = Vec::new();
                proof {
                    assert(views(v@) =~= Seq::<Seq<char>>::empty());
                }
                v
            } else {
                cached_links_of(&cached.links, friend_id.as_str())
            };
            let ghost before = entries@;
            let ghost mv = views(mutual_ids@);
            entries.push(MutualGraphSnapshotEntryInput { friend_id: friend_id.clone(), mutual_ids });
            proof {
                assert(entry_views(entries@) =~= entry_views(before).push((fv[k as int], mv)));
            }
        }
        k = k + 1;
    }
    proof {
        assert(fv.take(k as int) =~= fv);
    }
    let ghost mstart = meta_input_views(meta_entries@);
    let ghost mo = meta_output_views(cached.meta@);
    let mut j: usize = 0;
    while j < cached.meta.len()
        invariant
            j <= cached.meta.len(),
            mo == meta_output_views(cached.meta@),
            failed == views(failed_friend_ids@),
            meta_input_views(meta_entries@) == mstart + preserved_meta(mo.take(j as int), failed),
        decreases cached.meta.len() - j,
    {
        proof {
            assert(mo.take(j as int + 1).drop_last() =~= mo.take(j as int));
        }
        let meta = &cached.meta[j];
        if contains_str(failed_friend_ids.as_slice(), meta.friend_id.as_str()) {
            let ghost before = meta_entries@;
            meta_entries.push(
                MutualGraphMetaInput {
                    friend_id: meta.friend_id.clone(),
                    last_fetched_at: meta.last_fetched_at.clone(),
                    opted_out: meta.opted_out,
                    total_count: meta.total_count,
                },
            );
            proof {
                assert(meta_input_views(meta_entries@) =~= meta_input_views(before).push(
                    mo[j as int],
                ));
            }
        }
        j = j + 1;
    }
    proof {
        assert(mo.take(j as int) =~= mo);
    }
}

/// The friend ids of a fetch are distinct and each names somebody.
pub proof fn law_friend_ids_distinct(values: Seq<Seq<char>>)
    ensures
        friend_ids_of(values).no_duplicates(),
        forall|id: Seq<char>| #[trigger] friend_ids_of(values).contains(id) ==> names_user(id),
    decreases values.len(),
{
    if values.len() > 0 {
        law_friend_ids_distinct(values.drop_last());
        let rest = friend_ids_of(values.drop_last());
        let id = trim(values.last());
        assert forall|x: Seq<char>| #[trigger] friend_ids_of(values).contains(x) implies names_user(x) by {
            assert(rest.contains(x) ==> names_user(x));
            if names_user(id) && !rest.contains(id) {
                let t = rest.push(id);
                let k = choose|k: int| 0 <= k < t.len() && t[k] == x;
                if k < rest.len() {
                    assert(rest[k] == x);
                }
            }
        }
    }
}

/// The mutual ids collected for a friend stay distinct, page after page,
/// and keep those collected before in front.
pub proof fn law_collected_mutuals_distinct(acc: Seq<Seq<char>>, rows: Seq<JsonValue>)
    requires
        acc.no_duplicates(),
    ensures
        collect_mutuals(acc, rows).no_duplicates(),
        collect_mutuals(acc, rows).len() >= acc.len(),
        collect_mutuals(acc, rows).subrange(0, acc.len() as int) == acc,
    decreases rows.len(),
{
    if rows.len() > 0 {
        law_collected_mutuals_distinct(acc, rows.drop_last());
        let rest = collect_mutuals(acc, rows.drop_last());
        match mutual_id_of(rows.last()) {
            Some(id) => {
                if !rest.contains(id) {
                    assert(rest.push(id).subrange(0, acc.len() as int) =~= rest.subrange(
                        0,
                        acc.len() as int,
                    ));
                }
            },
            None => {},
        }
    }
}

} // verus!
