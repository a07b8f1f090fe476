//! Selection of the prints that the automatic cleanup deletes, and the
//! warning it raises when too many prints are favourites.

use vstd::prelude::*;

use crate::error::{custom_error, is_custom, Error};
use crate::json::{json_error_text, parse_json_or_error, parsed_json, JsonValue};
use crate::numbers::{decimal_i32, decimal_text};
use crate::text::{chars_of, compare_chars, contains_str, seq_lt, str_eq, trim, trim_str, views};
use crate::wire::{wire_count, wire_count_of};

verus! {

pub const PRINT_HARD_CAP: i64 = 64;

pub const PRINT_AUTO_DELETE_LIMIT_MIN: i64 = 30;

pub const PRINT_AUTO_DELETE_LIMIT_MAX: i64 = 60;

pub const PRINT_FAVORITE_LIMIT_BUFFER: usize = 5;

/// A print as the VRChat print list describes it.
#[derive(Clone, Debug, PartialEq, Eq)]
pub struct PrintListItem {
    pub id: String,
    pub created_at: String,
}

impl View for PrintListItem {
    /// `(id, created_at)`.
    type V = (Seq<char>, Seq<char>);

    open spec fn view(&self) -> (Seq<char>, Seq<char>) {
        (self.id@, self.created_at@)
    }
}

#[derive(Debug, PartialEq, Eq, Clone, Copy)]
pub enum CleanupWarningKind {
    TooManyFavorites,
}

/// More prints are favourites than the favourite limit allows.
#[derive(Debug, PartialEq, Eq, Clone, Copy)]
pub struct CleanupWarning {
    pub kind: CleanupWarningKind,
    pub favorites: u32,
    pub max: u32,
    pub over: u32,
}

#[derive(Clone, Debug, PartialEq, Eq)]
pub struct PrintCleanupSelection {
    pub to_delete: Vec<String>,
    pub remaining: usize,
    pub warning: Option<CleanupWarning>,
}

/// The print limit, clamped to the supported range.
pub open spec fn clamped_limit(limit: int) -> int {
    if limit < PRINT_AUTO_DELETE_LIMIT_MIN {
        PRINT_AUTO_DELETE_LIMIT_MIN as int
    } else if limit > PRINT_AUTO_DELETE_LIMIT_MAX {
        PRINT_AUTO_DELETE_LIMIT_MAX as int
    } else {
        limit
    }
}

/// The number of favourites allowed under a print limit.
pub open spec fn favorite_limit_of(limit: int) -> int {
    clamped_limit(limit) - PRINT_FAVORITE_LIMIT_BUFFER
}

pub fn clamp_print_limit(limit: i64) -> (r: usize)
    ensures
        r == clamped_limit(limit as int),
        PRINT_AUTO_DELETE_LIMIT_MIN <= r <= PRINT_AUTO_DELETE_LIMIT_MAX,
{
    if limit < PRINT_AUTO_DELETE_LIMIT_MIN {
        PRINT_AUTO_DELETE_LIMIT_MIN as usize
    } else if limit > PRINT_AUTO_DELETE_LIMIT_MAX {
        PRINT_AUTO_DELETE_LIMIT_MAX as usize
    } else {
        limit as usize
    }
}

pub fn favorite_limit_for_print_limit(limit: i64) -> (r: usize)
    ensures
        r == favorite_limit_of(limit as int),
{
    clamp_print_limit(limit) - PRINT_FAVORITE_LIMIT_BUFFER
}

/// The warning raised for `favorite_count` favourites under `limit`.
pub open spec fn warning_for(limit: int, favorite_count: int) -> Option<CleanupWarning> {
    let max = favorite_limit_of(limit);
    if favorite_count > max {
        Some(
            CleanupWarning {
                kind: CleanupWarningKind::TooManyFavorites,
                favorites: wire_count_of(favorite_count),
                max: wire_count_of(max),
                over: wire_count_of(favorite_count - max),
            },
        )
    } else {
        None
    }
}

pub fn cleanup_warning(limit: usize, favorite_count: usize) -> (r: Option<CleanupWarning>)
    requires
        limit <= i64::MAX,
    ensures
        r == warning_for(limit as int, favorite_count as int),
{
    let favorite_limit = favorite_limit_for_print_limit(limit as i64);
    if favorite_count > favorite_limit {
        return Some(
            CleanupWarning {
                kind: CleanupWarningKind::TooManyFavorites,
                favorites: wire_count(favorite_count),
                max: wire_count(favorite_limit),
                over: wire_count(favorite_count - favorite_limit),
            },
        );
    }
    None
}

/// The event name of a warning kind.
pub fn cleanup_warning_event_kind(kind: &CleanupWarningKind) -> (r: &'static str)
    ensures
        r@ == "too_many_favorites"@,
{
    match kind {
        CleanupWarningKind::TooManyFavorites => "too_many_favorites",
    }
}

/// The views of a list of prints.
pub open spec fn print_views(s: Seq<PrintListItem>) -> Seq<(Seq<char>, Seq<char>)> {
    s.map_values(|p: PrintListItem| p@)
}

/// Age order of prints: by creation time, then by id.
pub open spec fn older(a: (Seq<char>, Seq<char>), b: (Seq<char>, Seq<char>)) -> bool {
    seq_lt(a.1, b.1) || (a.1 == b.1 && seq_lt(a.0, b.0))
}

/// `s` with `x` inserted after every print that is not younger than `x`.
pub open spec fn insert_by_age(x: (Seq<char>, Seq<char>), s: Seq<(Seq<char>, Seq<char>)>) -> Seq<
    (Seq<char>, Seq<char>),
>
    decreases s.len(),
{
    if s.len() == 0 {
        seq![x]
    } else if older(x, s[0]) {
        seq![x] + s
    } else {
        seq![s[0]] + insert_by_age(x, s.drop_first())
    }
}

/// The stable sort of `s`, oldest first.
pub open spec fn sort_by_age(s: Seq<(Seq<char>, Seq<char>)>) -> Seq<(Seq<char>, Seq<char>)>
    decreases s.len(),
{
    if s.len() == 0 {
        s
    } else {
        insert_by_age(s.last(), sort_by_age(s.drop_last()))
    }
}

/// The prints whose id is not a favourite, in list order.
pub open spec fn deletable_prints(prints: Seq<(Seq<char>, Seq<char>)>, favorites: Seq<Seq<char>>) -> Seq<
    (Seq<char>, Seq<char>),
>
    decreases prints.len(),
{
    if prints.len() == 0 {
        prints
    } else {
        let rest = deletable_prints(prints.drop_last(), favorites);
        if favorites.contains(prints.last().0) {
            rest
        } else {
            rest.push(prints.last())
        }
    }
}

/// The number of favourites that name a listed print.
pub open spec fn favorites_present(favorites: Seq<Seq<char>>, prints: Seq<(Seq<char>, Seq<char>)>) -> nat
    decreases favorites.len(),
{
    if favorites.len() == 0 {
        0
    } else {
        let rest = favorites_present(favorites.drop_last(), prints);
        if exists|k: int| 0 <= k < prints.len() && prints[k].0 == favorites.last() {
            rest + 1
        } else {
            rest
        }
    }
}

/// The ids of a list of prints.
pub open spec fn ids_of(s: Seq<(Seq<char>, Seq<char>)>) -> Seq<Seq<char>> {
    s.map_values(|p: (Seq<char>, Seq<char>)| p.0)
}

/// The ids that the cleanup deletes: the oldest deletable prints, as many as
/// the list exceeds the limit by (or all deletable ones, when fewer).
pub open spec fn prints_to_delete(
    prints: Seq<(Seq<char>, Seq<char>)>,
    limit: int,
    favorites: Seq<Seq<char>>,
) -> Seq<Seq<char>> {
    let l = clamped_limit(limit);
    if prints.len() <= l {
        Seq::empty()
    } else {
        let sorted = sort_by_age(deletable_prints(prints, favorites));
        let n = if prints.len() - l < sorted.len() {
            prints.len() - l
        } else {
            sorted.len() as int
        };
        ids_of(sorted.take(n))
    }
}

proof fn lemma_insert_at(x: (Seq<char>, Seq<char>), s: Seq<(Seq<char>, Seq<char>)>, j: int)
    requires
        0 <= j <= s.len(),
        forall|k: int| 0 <= k < j ==> !older(x, #[trigger] s[k]),
        j == s.len() || older(x, s[j]),
    ensures
        insert_by_age(x, s) == s.take(j).push(x) + s.skip(j),
    decreases j,
{
    if j == 0 {
        if s.len() == 0 {
            assert(s.take(0).push(x) + s.skip(0) =~= seq![x]);
        } else {
            assert(s.take(0).push(x) + s.skip(0) =~= seq![x] + s);
        }
    } else {
        let t = s.drop_first();
        assert forall|k: int| 0 <= k < j - 1 implies !older(x, #[trigger] t[k]) by {
            assert(t[k] == s[k + 1]);
        }
        if j - 1 < t.len() {
            assert(t[j - 1] == s[j]);
        }
        lemma_insert_at(x, t, j - 1);
        assert(!older(x, s[0]));
        assert(seq![s[0]] + (t.take(j - 1).push(x) + t.skip(j - 1)) =~= s.take(j).push(x)
            + s.skip(j));
    }
}

/// Whether print `a` is older than print `b`.
fn is_older(a: &PrintListItem, b: &PrintListItem) -> (r: bool)
    ensures
        r == older(a@, b@),
{
    let ac = chars_of(a.created_at.as_str());
    let bc = chars_of(b.created_at.as_str());
    let c = compare_chars(ac.as_slice(), bc.as_slice());
    if c < 0 {
        true
    } else if c > 0 {
        proof {
            crate::text::lemma_seq_lt_asymmetric(b.created_at@, a.created_at@);
        }
        false
    } else {
        let ai = chars_of(a.id.as_str());
        let bi = chars_of(b.id.as_str());
        compare_chars(ai.as_slice(), bi.as_slice()) < 0
    }
}

/// The indices of `order` mapped to their prints' views.
pub open spec fn order_views(prints: Seq<PrintListItem>, order: Seq<usize>) -> Seq<(Seq<char>, Seq<char>)> {
    order.map_values(|j: usize| prints[j as int]@)
}

pub fn select_prints_to_delete(prints: &[PrintListItem], limit: i64, favorite_ids: &[String]) -> (r:
    PrintCleanupSelection)
    requires
        views(favorite_ids@).no_duplicates(),
    ensures
        views(r.to_delete@) == prints_to_delete(
            print_views(prints@),
            limit as int,
            views(favorite_ids@),
        ),
        r.remaining == prints.len() - r.to_delete.len(),
        r.warning == warning_for(
            limit as int,
            favorites_present(views(favorite_ids@), print_views(prints@)) as int,
        ),
{
    let ghost pv = print_views(prints@);
    let ghost favs = views(favorite_ids@);
    let limit = clamp_print_limit(limit);
    let mut favorite_count: usize = 0;
    let mut f: usize = 0;
    while f < favorite_ids.len()
        invariant
            f <= favorite_ids.len(),
            favorite_count <= f,
            pv == print_views(prints@),
            favs == views(favorite_ids@),
            favorite_count == favorites_present(favs.take(f as int), pv),
        decreases favorite_ids.len() - f,
    {
        let mut present = false;
        let mut k: usize = 0;
        while k < prints.len()
            invariant
                k <= prints.len(),
                f < favorite_ids.len(),
                pv == print_views(prints@),
                present == exists|m: int| 0 <= m < k && pv[m].0 == favorite_ids@[f as int]@,
            decreases prints.len() - k,
        {
            if crate::text::str_eq(prints[k].id.as_str(), favorite_ids[f].as_str()) {
                present = true;
            }
            proof {
                if present {
                    if !(exists|m: int| 0 <= m < k && pv[m].0 == favorite_ids@[f as int]@) {
                        assert(pv[k as int].0 == favorite_ids@[f as int]@);
                    }
                }
            }
            k += 1;
        }
        assert(favs.take(f + 1).drop_last() =~= favs.take(f as int));
        assert(favs.take(f + 1).last() == favorite_ids@[f as int]@);
        if present {
            favorite_count += 1;
        }
        f += 1;
    }
    assert(favs.take(favorite_ids.len() as int) =~= favs);
    let warning = cleanup_warning(limit, favorite_count);
    if prints.len() <= limit {
        return PrintCleanupSelection { to_delete: Vec::new(), remaining: prints.len(), warning };
    }
    let target = prints.len() - limit;
    // Indices of the deletable prints, kept in age order.
    let mut order: Vec<usize> = Vec::new();
    let mut i: usize = 0;
    while i < prints.len()
        invariant
            i <= prints.len(),
            pv == print_views(prints@),
            favs == views(favorite_ids@),
            forall|k: int| 0 <= k < order.len() ==> order@[k] < prints.len(),
            order_views(prints@, order@) == sort_by_age(deletable_prints(pv.take(i as int), favs)),
        decreases prints.len() - i,
    {
        assert(pv.take(i + 1).drop_last() =~= pv.take(i as int));
        assert(pv.take(i + 1).last() == prints@[i as int]@);
        let ghost d = deletable_prints(pv.take(i as int), favs);
        let ghost x = prints@[i as int]@;
        if !contains_str(favorite_ids, prints[i].id.as_str()) {
            assert(deletable_prints(pv.take(i + 1), favs) == d.push(x));
            assert(d.push(x).drop_last() =~= d);
            assert(sort_by_age(d.push(x)) == insert_by_age(x, sort_by_age(d)));
            let ghost s = order_views(prints@, order@);
            let mut j: usize = 0;
            while j < order.len() && !is_older(&prints[i], &prints[order[j]])
                invariant
                    j <= order.len(),
                    i < prints.len(),
                    forall|k: int| 0 <= k < order.len() ==> order@[k] < prints.len(),
                    s == order_views(prints@, order@),
                    forall|k: int| 0 <= k < j ==> !older(prints@[i as int]@, #[trigger] s[k]),
                decreases order.len() - j,
            {
                j += 1;
            }
            proof {
                lemma_insert_at(prints@[i as int]@, s, j as int);
            }
            let ghost old_order = order@;
            order.insert(j, i);
            assert(order_views(prints@, order@) =~= s.take(j as int).push(prints@[i as int]@)
                + s.skip(j as int)) by {
                assert forall|k: int| 0 <= k < order@.len() implies #[trigger] order_views(
                    prints@,
                    order@,
                )[k] == (s.take(j as int).push(prints@[i as int]@) + s.skip(j as int))[k] by {
                    if k < j {
                        assert(order@[k] == old_order[k]);
                    } else if k > j {
                        assert(order@[k] == old_order[k - 1]);
                    }
                }
            }
        } else {
            assert(deletable_prints(pv.take(i + 1), favs) == d);
        }
        i += 1;
    }
    assert(pv.take(prints.len() as int) =~= pv);
    let ghost sorted = order_views(prints@, order@);
    let n = if target < order.len() {
        target
    } else {
        order.len()
    };
    let mut to_delete: Vec<String> = Vec::new();
    let mut m: usize = 0;
    while m < n
        invariant
            m <= n <= order.len(),
            to_delete.len() == m,
            forall|k: int| 0 <= k < order.len() ==> order@[k] < prints.len(),
            sorted == order_views(prints@, order@),
            views(to_delete@) == ids_of(sorted.take(m as int)),
        decreases n - m,
    {
        let ghost old_td = to_delete@;
        let id = prints[order[m]].id.clone();
        to_delete.push(id);
        assert(sorted[m as int] == prints@[order@[m as int] as int]@);
        assert forall|k: int| 0 <= k < m + 1 implies #[trigger] views(to_delete@)[k] == ids_of(sorted.take(m + 1))[k] by {
            if k < m {
                assert(to_delete@[k] == old_td[k]);
                assert(views(old_td)[k] == ids_of(sorted.take(m as int))[k]);
            }
        }
        assert(views(to_delete@) =~= ids_of(sorted.take(m + 1)));
        m += 1;
    }
    let remaining = prints.len() - to_delete.len();
    PrintCleanupSelection { to_delete, remaining, warning }
}

/// `value.get(key)` read as a trimmed string, empty when absent or not a
/// string.
pub open spec fn trimmed_field(value: JsonValue, key: Seq<char>) -> Seq<char> {
    match value.field(key) {
        Some(JsonValue::String(s)) => trim(s@),
        _ => Seq::empty(),
    }
}

/// The print that a list entry describes, when it has an id.
pub open spec fn print_item_of(entry: JsonValue) -> Option<(Seq<char>, Seq<char>)> {
    let id = trimmed_field(entry, "id"@);
    let created = trimmed_field(entry, "createdAt"@);
    if id.len() == 0 {
        None
    } else if created.len() == 0 {
        Some((id, trimmed_field(entry, "timestamp"@)))
    } else {
        Some((id, created))
    }
}

/// The prints described by the entries, in order, skipping those without id.
pub open spec fn print_items(entries: Seq<JsonValue>) -> Seq<(Seq<char>, Seq<char>)>
    decreases entries.len(),
{
    if entries.len() == 0 {
        Seq::empty()
    } else {
        let rest = print_items(entries.drop_last());
        match print_item_of(entries.last()) {
            Some(p) => rest.push(p),
            None => rest,
        }
    }
}

fn trimmed_text_field(value: &JsonValue, key: &str) -> (r: String)
    ensures
        r@ == trimmed_field(*value, key@),
{
    match value.get(key) {
        Some(v) => match v.as_str() {
            Some(s) => trim_str(s.as_str()),
            None => String::new(),
        },
        None => String::new(),
    }
}

pub fn print_list_items_from_json(value: &JsonValue) -> (r: Vec<PrintListItem>)
    ensures
        print_views(r@) == match value {
            JsonValue::Array(entries) => print_items(entries@),
            _ => Seq::empty(),
        },
{
    let entries = match value.as_array() {
        Some(entries) => entries,
        None => {
            return Vec::new();
        },
    };
    let mut items: Vec<PrintListItem> = Vec::new();
    let mut i: usize = 0;
    while i < entries.len()
        invariant
            i <= entries.len(),
            *value == JsonValue::Array(*entries),
            print_views(items@) == print_items(entries@.take(i as int)),
        decreases entries.len() - i,
    {
        assert(entries@.take(i + 1).drop_last() =~= entries@.take(i as int));
        assert(entries@.take(i + 1).last() == entries@[i as int]);
        let id = trimmed_text_field(&entries[i], "id");
        if !id.as_str().is_empty() {
            let mut created_at = trimmed_text_field(&entries[i], "createdAt");
            if created_at.as_str().is_empty() {
                created_at = trimmed_text_field(&entries[i], "timestamp");
            }
            items.push(PrintListItem { id, created_at });
            assert(print_views(items@) =~= print_items(
                entries@.take(i + 1),
            ));
        } else {
            assert(id@.len() == 0);
        }
        i += 1;
    }
    assert(entries@.take(entries.len() as int) =~= entries@);
    items
}

/// The prints of a list reply: refused when the status is not a success,
/// refused with `serde_json`'s message when the body is not JSON, else the
/// prints that the body's entries describe.
pub fn print_list_from_reply(status: i32, data: &str) -> (r: Result<Vec<PrintListItem>, Error>)
    ensures
        !(200 <= status < 300) ==> (r matches Err(Error::Custom(m)) && m@
            == "print auto cleanup list failed with HTTP "@ + decimal_text(status as int)),
        200 <= status < 300 ==> match parsed_json(data@) {
            Some(v) => r matches Ok(items) && print_views(items@) == (match v {
                JsonValue::Array(entries) => print_items(entries@),
                _ => Seq::empty(),
            }),
            None => r matches Err(Error::Custom(m)) && m@ == json_error_text(data@),
        },
{
    if !(200 <= status && status < 300) {
        return Err(Error::Custom(list_failure_message(status)));
    }
    match parse_json_or_error(data) {
        Ok(value) => Ok(print_list_items_from_json(&value)),
        Err(message) => Err(Error::Custom(message)),
    }
}

/// The ids in their first occurrences, in order: each id once.
pub open spec fn first_occurrences(ids: Seq<Seq<char>>) -> Seq<Seq<char>>
    decreases ids.len(),
{
    if ids.len() == 0 {
        Seq::empty()
    } else {
        let rest = first_occurrences(ids.drop_last());
        if rest.contains(ids.last()) {
            rest
        } else {
            rest.push(ids.last())
        }
    }
}

/// The ids without repeats, each kept where it first occurs.
pub fn distinct_ids(ids: &[String]) -> (r: Vec<String>)
    ensures
        views(r@) == first_occurrences(views(ids@)),
        views(r@).no_duplicates(),
{
    let ghost all = views(ids@);
    let mut out: Vec<String> = Vec::new();
    let mut i: usize = 0;
    while i < ids.len()
        invariant
            i <= ids.len(),
            all == views(ids@),
            views(out@) == first_occurrences(all.take(i as int)),
            views(out@).no_duplicates(),
        decreases ids.len() - i,
    {
        proof {
            assert(all.take(i as int + 1).drop_last() =~= all.take(i as int));
            assert(all.take(i as int + 1).last() == ids@[i as int]@);
        }
        if !contains_str(out.as_slice(), ids[i].as_str()) {
            let ghost before = views(out@);
            out.push(ids[i].clone());
            proof {
                assert(views(out@) =~= before.push(ids@[i as int]@));
                assert forall|a: int, b: int|
                    0 <= a < views(out@).len() && 0 <= b < views(out@).len() && a != b implies
                    views(out@)[a] != views(out@)[b] by {
                    let x = ids@[i as int]@;
                    if a < before.len() && b < before.len() {
                    } else if a == before.len() {
                        if before[b] == x {
                            assert(before.contains(x));
                        }
                    } else {
                        if before[a] == x {
                            assert(before.contains(x));
                        }
                    }
                }
            }
        }
        i += 1;
    }
    proof {
        assert(all.take(i as int) =~= all);
    }
    out
}

/// How many prints a cleanup lists.
pub const PRINT_CLEANUP_LIST_COUNT: i32 = 100;

/// The pause kept between two deletions, in milliseconds.
pub const PRINT_REMOTE_MUTATION_INTERVAL_MS: u64 = 250;

/// How long a cleanup request waits for others to join it, in milliseconds.
pub const PRINT_CLEANUP_DEBOUNCE_MS: u64 = 2_500;

pub const PRINT_CLEANUP_SCOPE_MESSAGE: &'static str = "Print cleanup authentication scope changed.";

/// What a cleanup reports: how many prints it deleted, how many are left,
/// and its warning.
#[derive(Clone, Debug, PartialEq, Eq)]
pub struct PrintAutoCleanupEvent {
    pub deleted: u32,
    pub remaining: u32,
    pub warning: Option<String>,
}

/// The stored favourites that are still among the listed prints, in their
/// stored order.
pub open spec fn existing_favorites(stored: Seq<Seq<char>>, listed: Seq<Seq<char>>) -> Seq<Seq<char>>
    decreases stored.len(),
{
    if stored.len() == 0 {
        Seq::empty()
    } else {
        let rest = existing_favorites(stored.drop_last(), listed);
        if listed.contains(stored.last()) {
            rest.push(stored.last())
        } else {
            rest
        }
    }
}

pub fn existing_favorite_ids(stored: &Vec<String>, prints: &Vec<PrintListItem>) -> (r: Vec<String>)
    ensures
        views(r@) == existing_favorites(views(stored@), ids_of(print_views(prints@))),
{
    let mut listed: Vec<String> = Vec::new();
    let mut i: usize = 0;
    while i < prints.len()
        invariant
            i <= prints.len(),
            views(listed@) =~= ids_of(print_views(prints@)).take(i as int),
        decreases prints.len() - i,
    {
        let ghost before = listed@;
        listed.push(prints[i].id.clone());
        proof {
            assert(views(listed@) =~= views(before).push(prints@[i as int].id@));
        }
        i = i + 1;
    }
    proof {
        assert(ids_of(print_views(prints@)).take(i as int) =~= ids_of(print_views(prints@)));
    }
    let ghost sv = views(stored@);
    let mut out: Vec<String> = Vec::new();
    let mut j: usize = 0;
    while j < stored.len()
        invariant
            j <= stored.len(),
            sv == views(stored@),
            views(listed@) == ids_of(print_views(prints@)),
            views(out@) == existing_favorites(sv.take(j as int), views(listed@)),
        decreases stored.len() - j,
    {
        proof {
            assert(sv.take(j as int + 1).drop_last() =~= sv.take(j as int));
        }
        if contains_str(listed.as_slice(), stored[j].as_str()) {
            let ghost before = out@;
            out.push(stored[j].clone());
            proof {
                assert(views(out@) =~= views(before).push(stored@[j as int]@));
            }
        }
        j = j + 1;
    }
    proof {
        assert(sv.take(j as int) =~= sv);
    }
    out
}

/// The stored favourites that are still prints, and whether that list is
/// shorter than the stored one (so that it must be written back).
pub fn cleanup_favorites(stored: &Vec<String>, prints: &Vec<PrintListItem>) -> (r: (Vec<String>, bool))
    ensures
        views(r.0@) == existing_favorites(views(stored@), ids_of(print_views(prints@))),
        r.1 == (r.0.len() != stored.len()),
{
    let kept = existing_favorite_ids(stored, prints);
    let changed = kept.len() != stored.len();
    (kept, changed)
}

/// Whether a cleanup request goes ahead: not while auto-delete is off
/// (`Ok(false)`); refused when it was asked for another account or
/// endpoint than the session's (the endpoints compared as normalised by the
/// caller); `Ok(true)` otherwise.
pub fn print_cleanup_gate(
    enabled: bool,
    trigger_user_id: &str,
    trigger_endpoint: &str,
    scope_user_id: &str,
    scope_endpoint: &str,
) -> (r: Result<bool, Error>)
    ensures
        !enabled ==> r matches Ok(false),
        enabled ==> (r is Ok <==> trim(trigger_user_id@) == scope_user_id@ && trigger_endpoint@
            == scope_endpoint@),
        enabled && r is Ok ==> r matches Ok(true),
        r matches Err(e) ==> is_custom(e, PRINT_CLEANUP_SCOPE_MESSAGE@),
{
    if !enabled {
        return Ok(false);
    }
    let user = trim_str(trigger_user_id);
    if !str_eq(user.as_str(), scope_user_id) || !str_eq(trigger_endpoint, scope_endpoint) {
        return Err(custom_error(PRINT_CLEANUP_SCOPE_MESSAGE));
    }
    Ok(true)
}

/// The report of a cleanup that deleted `deleted` of `print_count` prints.
pub fn cleanup_event(deleted: usize, print_count: usize, warning: Option<&CleanupWarning>) -> (r:
    PrintAutoCleanupEvent)
    ensures
        r.deleted == wire_count_of(deleted as int),
        r.remaining == wire_count_of(if print_count >= deleted { print_count - deleted } else { 0 }),
        r.warning is Some <==> warning is Some,
        r.warning matches Some(w) ==> w@ == "too_many_favorites"@,
{
    let remaining = if print_count >= deleted {
        print_count - deleted
    } else {
        0
    };
    PrintAutoCleanupEvent {
        deleted: wire_count(deleted),
        remaining: wire_count(remaining),
        warning: match warning {
            Some(w) => Some(cleanup_warning_event_kind(&w.kind).to_string()),
            None => None,
        },
    }
}

/// The error of a print list that failed.
pub fn list_failure_message(status: i32) -> (r: String)
    ensures
        r@ == "print auto cleanup list failed with HTTP "@ + decimal_text(status as int),
{
    let mut m = "print auto cleanup list failed with HTTP ".to_string();
    let code = decimal_i32(status);
    m.append(code.as_str());
    m
}

/// The error of a print deletion that failed.
pub fn delete_failure_message(print_id: &str, status: i32) -> (r: String)
    ensures
        r@ == "print auto cleanup delete "@ + print_id@ + " failed with HTTP "@ + decimal_text(
            status as int,
        ),
{
    let mut m = "print auto cleanup delete ".to_string();
    m.append(print_id);
    m.append(" failed with HTTP ");
    let code = decimal_i32(status);
    m.append(code.as_str());
    m
}

proof fn lemma_insert_by_age_elems(x: (Seq<char>, Seq<char>), s: Seq<(Seq<char>, Seq<char>)>)
    ensures
        insert_by_age(x, s).len() == s.len() + 1,
        forall|y: (Seq<char>, Seq<char>)|
            #[trigger] insert_by_age(x, s).contains(y) ==> y == x || s.contains(y),
    decreases s.len(),
{
    if s.len() > 0 && !older(x, s[0]) {
        lemma_insert_by_age_elems(x, s.drop_first());
        assert forall|y: (Seq<char>, Seq<char>)| #[trigger] insert_by_age(x, s).contains(y) implies y
            == x || s.contains(y) by {
            let t = insert_by_age(x, s);
            let k = choose|k: int| 0 <= k < t.len() && t[k] == y;
            if k == 0 {
                assert(s[0] == y);
            } else {
                let rest = insert_by_age(x, s.drop_first());
                assert(rest[k - 1] == y);
                assert(rest.contains(y));
                if y != x {
                    let m = choose|m: int| 0 <= m < s.drop_first().len() && s.drop_first()[m] == y;
                    assert(s[m + 1] == y);
                }
            }
        }
    } else if s.len() > 0 {
        assert forall|y: (Seq<char>, Seq<char>)| #[trigger] insert_by_age(x, s).contains(y) implies y
            == x || s.contains(y) by {
            let t = insert_by_age(x, s);
            let k = choose|k: int| 0 <= k < t.len() && t[k] == y;
            if k > 0 {
                assert(s[k - 1] == y);
            }
        }
    } else {
        assert forall|y: (Seq<char>, Seq<char>)| #[trigger] insert_by_age(x, s).contains(y) implies y
            == x || s.contains(y) by {
            let t = insert_by_age(x, s);
            let k = choose|k: int| 0 <= k < t.len() && t[k] == y;
            assert(k == 0);
        }
    }
}

proof fn lemma_sort_by_age_elems(s: Seq<(Seq<char>, Seq<char>)>)
    ensures
        sort_by_age(s).len() == s.len(),
        forall|y: (Seq<char>, Seq<char>)| #[trigger] sort_by_age(s).contains(y) ==> s.contains(y),
    decreases s.len(),
{
    if s.len() > 0 {
        lemma_sort_by_age_elems(s.drop_last());
        lemma_insert_by_age_elems(s.last(), sort_by_age(s.drop_last()));
        assert forall|y: (Seq<char>, Seq<char>)| #[trigger] sort_by_age(s).contains(y) implies s.contains(
            y,
        ) by {
            if y == s.last() {
                assert(s[s.len() - 1] == y);
            } else {
                assert(sort_by_age(s.drop_last()).contains(y));
                let m = choose|m: int| 0 <= m < s.drop_last().len() && s.drop_last()[m] == y;
                assert(s[m] == y);
            }
        }
    }
}

proof fn lemma_deletable_spares_favorites(prints: Seq<(Seq<char>, Seq<char>)>, favorites: Seq<Seq<char>>)
    ensures
        deletable_prints(prints, favorites).len() <= prints.len(),
        forall|y: (Seq<char>, Seq<char>)|
            #[trigger] deletable_prints(prints, favorites).contains(y) ==> !favorites.contains(y.0),
    decreases prints.len(),
{
    if prints.len() > 0 {
        lemma_deletable_spares_favorites(prints.drop_last(), favorites);
        let rest = deletable_prints(prints.drop_last(), favorites);
        assert forall|y: (Seq<char>, Seq<char>)|
            #[trigger] deletable_prints(prints, favorites).contains(y) implies !favorites.contains(y.0) by {
            if !favorites.contains(prints.last().0) {
                let t = rest.push(prints.last());
                let k = choose|k: int| 0 <= k < t.len() && t[k] == y;
                if k < rest.len() {
                    assert(rest[k] == y);
                    assert(rest.contains(y));
                }
            } else {
                assert(rest.contains(y));
            }
        }
    }
}

/// The automatic cleanup never deletes a favourite print.
pub proof fn law_cleanup_spares_favorites(
    prints: Seq<(Seq<char>, Seq<char>)>,
    limit: int,
    favorites: Seq<Seq<char>>,
)
    ensures
        forall|id: Seq<char>|
            #[trigger] prints_to_delete(prints, limit, favorites).contains(id) ==> !favorites.contains(id),
{
    let l = clamped_limit(limit);
    if prints.len() > l {
        let d = deletable_prints(prints, favorites);
        let sorted = sort_by_age(d);
        lemma_deletable_spares_favorites(prints, favorites);
        lemma_sort_by_age_elems(d);
        let n = if prints.len() - l < sorted.len() {
            prints.len() - l
        } else {
            sorted.len() as int
        };
        assert forall|id: Seq<char>| #[trigger] prints_to_delete(prints, limit, favorites).contains(id)
            implies !favorites.contains(id) by {
            let out = ids_of(sorted.take(n));
            let k = choose|k: int| 0 <= k < out.len() && out[k] == id;
            let y = sorted.take(n)[k];
            assert(sorted[k] == y);
            assert(sorted.contains(y));
            assert(d.contains(y));
        }
    }
}

/// Where enough prints are not favourites, the cleanup leaves exactly the
/// print limit; it never deletes below it, and never more than the
/// deletable prints.
pub proof fn law_cleanup_keeps_the_limit(
    prints: Seq<(Seq<char>, Seq<char>)>,
    limit: int,
    favorites: Seq<Seq<char>>,
)
    ensures
        prints.len() - prints_to_delete(prints, limit, favorites).len() >= if prints.len() < clamped_limit(limit) {
            prints.len() as int
        } else {
            clamped_limit(limit)
        },
        prints_to_delete(prints, limit, favorites).len() <= deletable_prints(prints, favorites).len(),
        prints.len() > clamped_limit(limit) && deletable_prints(prints, favorites).len()
            >= prints.len() - clamped_limit(limit) ==> prints.len() - prints_to_delete(
            prints,
            limit,
            favorites,
        ).len() == clamped_limit(limit),
{
    lemma_deletable_spares_favorites(prints, favorites);
    lemma_sort_by_age_elems(deletable_prints(prints, favorites));
}

/// A larger print limit deletes a prefix of what a smaller one deletes: it
/// never deletes a print that the smaller limit keeps.
pub proof fn law_larger_limit_deletes_a_prefix(
    prints: Seq<(Seq<char>, Seq<char>)>,
    smaller: int,
    larger: int,
    favorites: Seq<Seq<char>>,
)
    requires
        clamped_limit(smaller) <= clamped_limit(larger),
    ensures
        prints_to_delete(prints, larger, favorites).len() <= prints_to_delete(
            prints,
            smaller,
            favorites,
        ).len(),
        prints_to_delete(prints, larger, favorites) == prints_to_delete(
            prints,
            smaller,
            favorites,
        ).take(prints_to_delete(prints, larger, favorites).len() as int),
{
    let sorted = sort_by_age(deletable_prints(prints, favorites));
    let a = prints_to_delete(prints, smaller, favorites);
    let b = prints_to_delete(prints, larger, favorites);
    if prints.len() <= clamped_limit(larger) {
        assert(b =~= a.take(0));
    } else {
        let n1 = if prints.len() - clamped_limit(smaller) < sorted.len() {
            prints.len() - clamped_limit(smaller)
        } else {
            sorted.len() as int
        };
        let n2 = if prints.len() - clamped_limit(larger) < sorted.len() {
            prints.len() - clamped_limit(larger)
        } else {
            sorted.len() as int
        };
        assert(a == ids_of(sorted.take(n1)));
        assert(b == ids_of(sorted.take(n2)));
        assert(ids_of(sorted.take(n2)) =~= ids_of(sorted.take(n1)).take(n2));
    }
}

} // verus!
