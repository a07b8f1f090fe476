//! Favourite prints: the stored id list, its limit and the guard that keeps
//! favourites from being deleted.

use vstd::prelude::*;
use vstd::string::StringExecFns;

use super::cleanup::{
    clamp_print_limit, clamped_limit, favorite_limit_for_print_limit, favorite_limit_of,
    warning_for, CleanupWarning, CleanupWarningKind, PRINT_AUTO_DELETE_LIMIT_MAX, PRINT_HARD_CAP,
};
use crate::error::Error;
use crate::json::JsonValue;
use crate::numbers::{parse_i64, parsed_i64};
use crate::text::{trim, trim_str, views};
use crate::wire::{wire_count, wire_count_of};

verus! {

pub const DEFAULT_AUTO_DELETE_PRINTS_LIMIT: i64 = 60;

/// Storage of the print favourite settings.
pub trait PrintFavoritesStore {
    fn auto_delete_enabled(&self) -> Result<bool, Error>;

    fn auto_delete_limit(&self) -> Result<String, Error>;

    fn favorite_ids(&self) -> Result<JsonValue, Error>;

    fn write_favorite_ids(&self, ids: &JsonValue) -> Result<(), Error>;
}

#[derive(Debug)]
pub struct PrintFavoriteState {
    pub favorite_ids: Vec<String>,
    pub max_favorites: u32,
    pub warning: Option<CleanupWarning>,
}

#[derive(Debug)]
pub struct PrintFavoriteBulkResult {
    pub state: PrintFavoriteState,
    pub applied: u32,
    pub skipped: u32,
}

/// One candidate added to the favourite list: trimmed, non-empty, new, and
/// only while the list is below the hard cap.
pub open spec fn add_candidate(acc: Seq<Seq<char>>, candidate: Option<Seq<char>>) -> Seq<Seq<char>> {
    if acc.len() >= PRINT_HARD_CAP {
        acc
    } else {
        match candidate {
            Some(s) => {
                let t = trim(s);
                if t.len() == 0 || acc.contains(t) {
                    acc
                } else {
                    acc.push(t)
                }
            },
            None => acc,
        }
    }
}

/// The favourite list that a sequence of candidates gives.
pub open spec fn collect_favorite_ids(candidates: Seq<Option<Seq<char>>>) -> Seq<Seq<char>>
    decreases candidates.len(),
{
    if candidates.len() == 0 {
        Seq::empty()
    } else {
        add_candidate(collect_favorite_ids(candidates.drop_last()), candidates.last())
    }
}

/// The string entries of a JSON array, as candidates.
pub open spec fn json_candidates(entries: Seq<JsonValue>) -> Seq<Option<Seq<char>>> {
    entries.map_values(|e: JsonValue| e.str_of())
}

/// Plain strings, as candidates.
pub open spec fn string_candidates(list: Seq<String>) -> Seq<Option<Seq<char>>> {
    list.map_values(|s: String| Some(s@))
}

/// The favourite list that a stored JSON value holds.
pub open spec fn favorite_ids_of(value: JsonValue) -> Seq<Seq<char>> {
    match value {
        JsonValue::Array(entries) => collect_favorite_ids(json_candidates(entries@)),
        _ => Seq::empty(),
    }
}

/// A well-formed favourite list: trimmed, non-empty, distinct ids, at most
/// the hard cap of them.
pub open spec fn favorite_list(ids: Seq<Seq<char>>) -> bool {
    &&& ids.len() <= PRINT_HARD_CAP
    &&& ids.no_duplicates()
    &&& forall|i: int| 0 <= i < ids.len() ==> #[trigger] ids[i].len() > 0 && trim(ids[i]) == ids[i]
}

/// Every favourite list that the normalisation gives is well formed.
pub proof fn lemma_collected_favorites_well_formed(candidates: Seq<Option<Seq<char>>>)
    ensures
        favorite_list(collect_favorite_ids(candidates)),
    decreases candidates.len(),
{
    if candidates.len() > 0 {
        let acc = collect_favorite_ids(candidates.drop_last());
        lemma_collected_favorites_well_formed(candidates.drop_last());
        let r = add_candidate(acc, candidates.last());
        if r != acc {
            let t = trim(candidates.last().unwrap());
            crate::text::lemma_trim_idempotent(candidates.last().unwrap());
            assert(r == acc.push(t));
            assert forall|i: int, j: int| 0 <= i < j < r.len() implies r[i] != r[j] by {
                if j == r.len() - 1 {
                    assert(r[j] == t);
                    assert(r[i] == acc[i]);
                }
            }
            assert forall|i: int| 0 <= i < r.len() implies #[trigger] r[i].len() > 0 && trim(r[i])
                == r[i] by {
                if i < acc.len() {
                    assert(r[i] == acc[i]);
                }
            }
        }
    }
}

/// Adds one candidate to `ids`, as `add_candidate` describes.
fn push_candidate(ids: &mut Vec<String>, candidate: &str)
    ensures
        views(final(ids)@) == add_candidate(views(old(ids)@), Some(candidate@)),
{
    if ids.len() >= PRINT_HARD_CAP as usize {
        return;
    }
    let t = trim_str(candidate);
    if t.as_str().is_empty() || crate::text::contains_str(ids.as_slice(), t.as_str()) {
        return;
    }
    ids.push(t);
    assert(views(ids@) =~= views(old(ids)@).push(trim(candidate@)));
}

pub fn favorite_ids_from_json(value: &JsonValue) -> (r: Vec<String>)
    ensures
        views(r@) == favorite_ids_of(*value),
{
    let mut ids: Vec<String> = Vec::new();
    let entries = match value.as_array() {
        Some(entries) => entries,
        None => {
            return ids;
        },
    };
    let ghost cands = json_candidates(entries@);
    let mut i: usize = 0;
    while i < entries.len()
        invariant
            i <= entries.len(),
            *value == JsonValue::Array(*entries),
            cands == json_candidates(entries@),
            views(ids@) == collect_favorite_ids(cands.take(i as int)),
        decreases entries.len() - i,
    {
        assert(cands.take(i + 1).drop_last() =~= cands.take(i as int));
        assert(cands.take(i + 1).last() == entries@[i as int].str_of());
        match entries[i].as_str() {
            Some(s) => push_candidate(&mut ids, s.as_str()),
            None => {},
        }
        if ids.len() >= PRINT_HARD_CAP as usize {
            // The list is full: later entries change nothing.
            proof {
                lemma_full_list_is_final(cands, i as int + 1);
            }
            assert(cands.take(entries.len() as int) =~= cands);
            return ids;
        }
        i += 1;
    }
    assert(cands.take(entries.len() as int) =~= cands);
    ids
}

proof fn lemma_full_list_is_final(cands: Seq<Option<Seq<char>>>, k: int)
    requires
        0 <= k <= cands.len(),
        collect_favorite_ids(cands.take(k)).len() >= PRINT_HARD_CAP,
    ensures
        collect_favorite_ids(cands) == collect_favorite_ids(cands.take(k)),
    decreases cands.len() - k,
{
    if k < cands.len() {
        assert(cands.take(k + 1).drop_last() =~= cands.take(k));
        lemma_full_list_is_final(cands, k + 1);
    } else {
        assert(cands.take(k) =~= cands);
    }
}

/// The ids of a favourite list after normalisation.
pub fn normalize_favorite_ids(current: &[String]) -> (r: Vec<String>)
    ensures
        views(r@) == collect_favorite_ids(string_candidates(current@)),
{
    let ghost cands = string_candidates(current@);
    let mut ids: Vec<String> = Vec::new();
    let mut i: usize = 0;
    while i < current.len()
        invariant
            i <= current.len(),
            cands == string_candidates(current@),
            views(ids@) == collect_favorite_ids(cands.take(i as int)),
        decreases current.len() - i,
    {
        assert(cands.take(i + 1).drop_last() =~= cands.take(i as int));
        assert(cands.take(i + 1).last() == Some(current@[i as int]@));
        push_candidate(&mut ids, current[i].as_str());
        i += 1;
    }
    assert(cands.take(current.len() as int) =~= cands);
    ids
}

/// `ids` without any entry equal to `p`.
pub open spec fn remove_id(ids: Seq<Seq<char>>, p: Seq<char>) -> Seq<Seq<char>>
    decreases ids.len(),
{
    if ids.len() == 0 {
        ids
    } else {
        let rest = remove_id(ids.drop_last(), p);
        if ids.last() == p {
            rest
        } else {
            rest.push(ids.last())
        }
    }
}

/// The favourite list after marking `print_id` as favourite or not.
pub open spec fn set_favorite_spec(
    current: Seq<Option<Seq<char>>>,
    print_id: Seq<char>,
    favorite: bool,
    max_favorites: int,
) -> Seq<Seq<char>> {
    let ids = collect_favorite_ids(current);
    let p = trim(print_id);
    if p.len() == 0 {
        ids
    } else if favorite {
        if !ids.contains(p) && ids.len() < max_favorites {
            ids.push(p)
        } else {
            ids
        }
    } else {
        remove_id(ids, p)
    }
}

pub fn set_favorite_id(current: &[String], print_id: &str, favorite: bool, max_favorites: usize) -> (r:
    Vec<String>)
    ensures
        views(r@) == set_favorite_spec(
            string_candidates(current@),
            print_id@,
            favorite,
            max_favorites as int,
        ),
{
    let mut ids = normalize_favorite_ids(current);
    let p = trim_str(print_id);
    if p.as_str().is_empty() {
        return ids;
    }
    if favorite {
        if !crate::text::contains_str(ids.as_slice(), p.as_str()) && ids.len() < max_favorites {
            ids.push(p);
            assert(views(ids@) =~= collect_favorite_ids(string_candidates(current@)).push(
                trim(print_id@),
            ));
        }
        ids
    } else {
        let ghost old_views = views(ids@);
        let mut kept: Vec<String> = Vec::new();
        let mut i: usize = 0;
        while i < ids.len()
            invariant
                i <= ids.len(),
                old_views == views(ids@),
                p@ == trim(print_id@),
                views(kept@) == remove_id(old_views.take(i as int), p@),
            decreases ids.len() - i,
        {
            assert(old_views.take(i + 1).drop_last() =~= old_views.take(i as int));
            assert(old_views.take(i + 1).last() == ids@[i as int]@);
            if !crate::text::str_eq(ids[i].as_str(), p.as_str()) {
                kept.push(ids[i].clone());
                assert(views(kept@) =~= remove_id(old_views.take(i as int), p@).push(
                    ids@[i as int]@,
                ));
            }
            i += 1;
        }
        assert(old_views.take(ids.len() as int) =~= old_views);
        kept
    }
}

/// The warning for `favorite_count` favourites under `limit`.
pub fn favorite_warning(favorite_count: usize, limit: i64) -> (r: Option<CleanupWarning>)
    ensures
        r == warning_for(limit as int, favorite_count as int),
{
    let max_favorites = favorite_limit_for_print_limit(limit);
    if favorite_count > max_favorites {
        return Some(
            CleanupWarning {
                kind: CleanupWarningKind::TooManyFavorites,
                favorites: wire_count(favorite_count),
                max: wire_count(max_favorites),
                over: wire_count(favorite_count - max_favorites),
            },
        );
    }
    None
}

/// The auto-delete limit that a stored setting gives: the trimmed text read
/// as an `i64` (60 when it is not one), clamped to the supported range.
pub open spec fn auto_delete_limit_of(raw: Seq<char>) -> int {
    match parsed_i64(trim(raw)) {
        Some(v) => clamped_limit(v as int),
        None => clamped_limit(DEFAULT_AUTO_DELETE_PRINTS_LIMIT as int),
    }
}

pub fn auto_delete_limit_from_text(raw: &str) -> (r: i64)
    ensures
        r == auto_delete_limit_of(raw@),
{
    let t = trim_str(raw);
    let parsed = match parse_i64(t.as_str()) {
        Some(v) => v,
        None => DEFAULT_AUTO_DELETE_PRINTS_LIMIT,
    };
    clamp_print_limit(parsed) as i64
}

pub fn read_auto_delete_old_prints_enabled(store: &dyn PrintFavoritesStore) -> (r: Result<bool, Error>) {
    store.auto_delete_enabled()
}

/// The stored limit that the store's text gives.
pub fn read_auto_delete_prints_limit(store: &dyn PrintFavoritesStore) -> (r: Result<i64, Error>)
    ensures
        r matches Ok(v) ==> 30 <= v <= 60 && exists|raw: Seq<char>| #[trigger] auto_delete_limit_of(raw) == v,
{
    let raw = store.auto_delete_limit()?;
    let v = auto_delete_limit_from_text(raw.as_str());
    assert(auto_delete_limit_of(raw@) == v);
    Ok(v)
}

/// A print limit that the settings can give: the largest limit while
/// auto-delete is off, else the stored limit.
pub open spec fn settings_limit(limit: int) -> bool {
    limit == PRINT_AUTO_DELETE_LIMIT_MAX || exists|raw: Seq<char>| #[trigger] auto_delete_limit_of(raw) == limit
}

/// The print limit in force: the stored one while auto-delete is on, else
/// the largest.
pub fn effective_favorite_limit(store: &dyn PrintFavoritesStore) -> (r: Result<i64, Error>)
    ensures
        r matches Ok(v) ==> 30 <= v <= 60 && settings_limit(v as int),
{
    if read_auto_delete_old_prints_enabled(store)? {
        read_auto_delete_prints_limit(store)
    } else {
        Ok(PRINT_AUTO_DELETE_LIMIT_MAX)
    }
}

/// The favourite list that the stored value gives.
pub fn read_favorite_ids(store: &dyn PrintFavoritesStore) -> (r: Result<Vec<String>, Error>)
    ensures
        r matches Ok(ids) ==> favorite_list(views(ids@)) && exists|v: JsonValue| #[trigger] favorite_ids_of(v)
            == views(ids@),
{
    let value = store.favorite_ids()?;
    let ids = favorite_ids_from_json(&value);
    proof {
        match value {
            JsonValue::Array(entries) => lemma_collected_favorites_well_formed(
                json_candidates(entries@),
            ),
            _ => {},
        }
        assert(favorite_ids_of(value) == views(ids@));
    }
    Ok(ids)
}

/// The string readings of JSON entries.
pub open spec fn entry_strs(entries: Seq<JsonValue>) -> Seq<Option<Seq<char>>> {
    entries.map_values(|e: JsonValue| e.str_of())
}

/// The JSON array of the given strings.
fn json_string_array(ids: &[String]) -> (r: JsonValue)
    ensures
        r matches JsonValue::Array(entries) && entry_strs(entries@) == string_candidates(ids@),
{
    let mut entries: Vec<JsonValue> = Vec::new();
    let mut i: usize = 0;
    while i < ids.len()
        invariant
            i <= ids.len(),
            entries.len() == i,
            entry_strs(entries@) == string_candidates(ids@).take(i as int),
        decreases ids.len() - i,
    {
        let ghost old_entries = entries@;
        entries.push(JsonValue::String(ids[i].clone()));
        assert forall|k: int| 0 <= k < i + 1 implies #[trigger] entry_strs(entries@)[k]
            == string_candidates(ids@).take(i + 1)[k] by {
            if k < i {
                assert(entries@[k] == old_entries[k]);
                assert(entry_strs(old_entries)[k] == string_candidates(ids@).take(i as int)[k]);
            }
        }
        assert(entry_strs(entries@) =~= string_candidates(ids@).take(i + 1));
        i += 1;
    }
    assert(string_candidates(ids@).take(ids.len() as int) =~= string_candidates(ids@));
    JsonValue::Array(entries)
}

pub fn write_favorite_ids(store: &dyn PrintFavoritesStore, ids: &[String]) -> (r: Result<(), Error>) {
    let ids = normalize_favorite_ids(ids);
    let value = json_string_array(ids.as_slice());
    store.write_favorite_ids(&value)
}

/// The warning that belongs to a favourite count under a favourite limit.
pub open spec fn warning_for_max(max: int, favorite_count: int) -> Option<CleanupWarning> {
    if favorite_count > max {
        Some(
            CleanupWarning {
                kind: CleanupWarningKind::TooManyFavorites,
                favorites: wire_count_of(favorite_count),
                max: wire_count_of(max),
                over: wire_count_of(favorite_count - max),
            },
        )
    } else {
        None
    }
}

/// A favourite state whose fields agree: a well-formed list, a favourite
/// limit of a supported print limit, and the warning that they call for.
pub open spec fn consistent_state(st: PrintFavoriteState) -> bool {
    &&& favorite_list(views(st.favorite_ids@))
    &&& 25 <= st.max_favorites <= 55
    &&& st.warning == warning_for_max(st.max_favorites as int, st.favorite_ids.len() as int)
}

/// What a favourite state shows of a favourite list under a print limit:
/// the list, the favourite limit and the warning they call for.
pub open spec fn state_shows(st: PrintFavoriteState, ids: Seq<Seq<char>>, limit: int) -> bool {
    &&& views(st.favorite_ids@) == ids
    &&& st.max_favorites == wire_count_of(favorite_limit_of(limit))
    &&& st.warning == warning_for(limit, ids.len() as int)
}

/// The favourite list as stored, under the print limit in force.
pub fn favorite_state(store: &dyn PrintFavoritesStore) -> (r: Result<PrintFavoriteState, Error>)
    ensures
        r matches Ok(st) ==> consistent_state(st) && exists|v: JsonValue, limit: int|
            settings_limit(limit) && #[trigger] state_shows(st, favorite_ids_of(v), limit),
{
    let favorite_ids = read_favorite_ids(store)?;
    let limit = effective_favorite_limit(store)?;
    let max_favorites = favorite_limit_for_print_limit(limit);
    let st = PrintFavoriteState {
        warning: favorite_warning(favorite_ids.len(), limit),
        favorite_ids,
        max_favorites: wire_count(max_favorites),
    };
    proof {
        let v = choose|v: JsonValue| #[trigger] favorite_ids_of(v) == views(st.favorite_ids@);
        assert(state_shows(st, favorite_ids_of(v), limit as int));
    }
    Ok(st)
}

/// A favourite change worked out from the stored list under a print limit:
/// the new state, and the list to write back to the store (always written,
/// and the state's list).
pub fn plan_print_favorite(current: &[String], limit: i64, print_id: &str, favorite: bool) -> (r: (
    PrintFavoriteState,
    Vec<String>,
))
    ensures
        state_shows(
            r.0,
            set_favorite_spec(
                string_candidates(current@),
                print_id@,
                favorite,
                favorite_limit_of(limit as int),
            ),
            limit as int,
        ),
        views(r.1@) == views(r.0.favorite_ids@),
        trim(print_id@).len() > 0 && !favorite ==> !views(r.0.favorite_ids@).contains(trim(print_id@)),
{
    let max_favorites = favorite_limit_for_print_limit(limit);
    let next = set_favorite_id(current, print_id, favorite, max_favorites);
    proof {
        if trim(print_id@).len() > 0 && !favorite {
            lemma_remove_id_removes(
                collect_favorite_ids(string_candidates(current@)),
                trim(print_id@),
            );
        }
    }
    let to_write = copy_strings(&next);
    let st = PrintFavoriteState {
        warning: favorite_warning(next.len(), limit),
        favorite_ids: next,
        max_favorites: wire_count(max_favorites),
    };
    (st, to_write)
}

pub fn set_print_favorite(store: &dyn PrintFavoritesStore, print_id: &str, favorite: bool) -> (r:
    Result<PrintFavoriteState, Error>)
    ensures
        r matches Ok(st) ==> {
            &&& 25 <= st.max_favorites <= 55
            &&& st.warning == warning_for_max(st.max_favorites as int, st.favorite_ids.len() as int)
            &&& trim(print_id@).len() > 0 && !favorite ==> !views(st.favorite_ids@).contains(
                trim(print_id@),
            )
            &&& exists|v: JsonValue, limit: int|
                settings_limit(limit) && #[trigger] state_shows(
                    st,
                    set_favorite_spec(
                        as_candidates(favorite_ids_of(v)),
                        print_id@,
                        favorite,
                        favorite_limit_of(limit),
                    ),
                    limit,
                )
        },
{
    let current = read_favorite_ids(store)?;
    let limit = effective_favorite_limit(store)?;
    let (st, to_write) = plan_print_favorite(current.as_slice(), limit, print_id, favorite);
    write_favorite_ids(store, to_write.as_slice())?;
    proof {
        let v = choose|v: JsonValue| #[trigger] favorite_ids_of(v) == views(current@);
        assert(string_candidates(current@) =~= as_candidates(favorite_ids_of(v)));
        assert(state_shows(
            st,
            set_favorite_spec(
                as_candidates(favorite_ids_of(v)),
                print_id@,
                favorite,
                favorite_limit_of(limit as int),
            ),
            limit as int,
        ));
    }
    Ok(st)
}

/// A favourite list as candidates.
pub open spec fn as_candidates(ids: Seq<Seq<char>>) -> Seq<Option<Seq<char>>> {
    ids.map_values(|s: Seq<char>| Some(s))
}

pub proof fn lemma_remove_id_removes(ids: Seq<Seq<char>>, p: Seq<char>)
    ensures
        !remove_id(ids, p).contains(p),
        forall|x: Seq<char>| x != p && ids.contains(x) ==> #[trigger] remove_id(ids, p).contains(
            x,
        ),
    decreases ids.len(),
{
    if ids.len() > 0 {
        lemma_remove_id_removes(ids.drop_last(), p);
        let rest = remove_id(ids.drop_last(), p);
        assert forall|x: Seq<char>| x != p && ids.contains(x) implies #[trigger] remove_id(
            ids,
            p,
        ).contains(x) by {
            let k = choose|k: int| 0 <= k < ids.len() && ids[k] == x;
            if k < ids.len() - 1 {
                assert(ids.drop_last()[k] == x);
                assert(ids.drop_last().contains(x));
                assert(rest.contains(x));
                let j = choose|j: int| 0 <= j < rest.len() && rest[j] == x;
                if ids.last() != p {
                    assert(rest.push(ids.last())[j] == x);
                }
            } else {
                assert(rest.push(ids.last())[rest.len() as int] == x);
            }
        }
        if ids.last() != p {
            assert forall|j: int| 0 <= j < rest.push(ids.last()).len() implies rest.push(
                ids.last(),
            )[j] != p by {
                if j < rest.len() {
                    assert(rest.push(ids.last())[j] == rest[j]);
                }
            }
        }
    }
}

/// One step of a bulk favourite change: the list, the applied count and
/// the skipped count after handling `print_id`.
pub open spec fn bulk_step(
    state: (Seq<Seq<char>>, nat, nat),
    print_id: Seq<char>,
    favorite: bool,
    max_favorites: int,
) -> (Seq<Seq<char>>, nat, nat) {
    let p = trim(print_id);
    if p.len() == 0 || state.0.contains(p) == favorite {
        state
    } else {
        let updated = set_favorite_spec(
            state.0.map_values(|s: Seq<char>| Some(s)),
            p,
            favorite,
            max_favorites,
        );
        if updated.len() == state.0.len() {
            (state.0, state.1, state.2 + 1)
        } else {
            (updated, state.1 + 1, state.2)
        }
    }
}

/// A whole bulk favourite change.
pub open spec fn bulk_spec(
    start: Seq<Seq<char>>,
    print_ids: Seq<Seq<char>>,
    favorite: bool,
    max_favorites: int,
) -> (Seq<Seq<char>>, nat, nat)
    decreases print_ids.len(),
{
    if print_ids.len() == 0 {
        (start, 0, 0)
    } else {
        bulk_step(
            bulk_spec(start, print_ids.drop_last(), favorite, max_favorites),
            print_ids.last(),
            favorite,
            max_favorites,
        )
    }
}

/// The list, applied count and skipped count of a bulk favourite change
/// starting from `current`.
pub fn apply_favorite_changes(
    current: Vec<String>,
    print_ids: &[String],
    favorite: bool,
    max_favorites: usize,
) -> (r: (Vec<String>, u32, u32))
    requires
        print_ids.len() <= u32::MAX,
    ensures
        (views(r.0@), r.1 as nat, r.2 as nat) == bulk_spec(
            views(current@),
            views(print_ids@),
            favorite,
            max_favorites as int,
        ),
{
    let ghost start = views(current@);
    let ghost pids = views(print_ids@);
    let mut next = current;
    let mut applied: u32 = 0;
    let mut skipped: u32 = 0;
    let mut i: usize = 0;
    while i < print_ids.len()
        invariant
            i <= print_ids.len() <= u32::MAX,
            applied + skipped <= i,
            pids == views(print_ids@),
            (views(next@), applied as nat, skipped as nat) == bulk_spec(
                start,
                pids.take(i as int),
                favorite,
                max_favorites as int,
            ),
        decreases print_ids.len() - i,
    {
        assert(pids.take(i + 1).drop_last() =~= pids.take(i as int));
        assert(pids.take(i + 1).last() == print_ids@[i as int]@);
        let p = trim_str(print_ids[i].as_str());
        if !p.as_str().is_empty() {
            let present = crate::text::contains_str(next.as_slice(), p.as_str());
            if present != favorite {
                let updated = set_favorite_id(next.as_slice(), p.as_str(), favorite, max_favorites);
                assert(string_candidates(next@) =~= views(next@).map_values(|s: Seq<char>| Some(s)));
                if updated.len() == next.len() {
                    skipped += 1;
                } else {
                    next = updated;
                    applied += 1;
                }
            }
        }
        i += 1;
    }
    assert(pids.take(print_ids.len() as int) =~= pids);
    (next, applied, skipped)
}

/// A bulk favourite change worked out from the stored list under a print
/// limit: its result, and the list to write back to the store, which is
/// there exactly when some change was applied and is the result's list.
pub fn plan_print_favorites(current: Vec<String>, limit: i64, print_ids: &[String], favorite: bool) -> (r:
    (PrintFavoriteBulkResult, Option<Vec<String>>))
    requires
        print_ids.len() <= u32::MAX,
    ensures
        bulk_spec(views(current@), views(print_ids@), favorite, favorite_limit_of(limit as int)) == (
            views(r.0.state.favorite_ids@),
            r.0.applied as nat,
            r.0.skipped as nat,
        ),
        state_shows(r.0.state, views(r.0.state.favorite_ids@), limit as int),
        r.1 is Some <==> r.0.applied > 0,
        r.1 matches Some(list) ==> views(list@) == views(r.0.state.favorite_ids@),
{
    let max_favorites = favorite_limit_for_print_limit(limit);
    let (next, applied, skipped) = apply_favorite_changes(current, print_ids, favorite, max_favorites);
    let to_write = if applied > 0 {
        Some(copy_strings(&next))
    } else {
        None
    };
    let res = PrintFavoriteBulkResult {
        state: PrintFavoriteState {
            warning: favorite_warning(next.len(), limit),
            favorite_ids: next,
            max_favorites: wire_count(max_favorites),
        },
        applied,
        skipped,
    };
    (res, to_write)
}

/// A copy of a list of strings.
fn copy_strings(v: &Vec<String>) -> (r: Vec<String>)
    ensures
        views(r@) == views(v@),
{
    let mut out: Vec<String> = Vec::new();
    let mut i: usize = 0;
    while i < v.len()
        invariant
            i <= v.len(),
            views(out@) == views(v@).take(i as int),
        decreases v.len() - i,
    {
        let ghost before = out@;
        out.push(v[i].clone());
        assert(views(out@) =~= views(before).push(v@[i as int]@));
        assert(views(v@).take(i + 1) =~= views(v@).take(i as int).push(v@[i as int]@));
        i += 1;
    }
    assert(views(v@).take(v.len() as int) =~= views(v@));
    out
}

pub fn set_print_favorites(store: &dyn PrintFavoritesStore, print_ids: &[String], favorite: bool) -> (r:
    Result<PrintFavoriteBulkResult, Error>)
    requires
        print_ids.len() <= u32::MAX,
    ensures
        r matches Ok(res) ==> {
            &&& 25 <= res.state.max_favorites <= 55
            &&& res.state.warning == warning_for_max(
                res.state.max_favorites as int,
                res.state.favorite_ids.len() as int,
            )
            &&& exists|v: JsonValue, limit: int|
                settings_limit(limit) && #[trigger] bulk_spec(
                    favorite_ids_of(v),
                    views(print_ids@),
                    favorite,
                    favorite_limit_of(limit),
                ) == (views(res.state.favorite_ids@), res.applied as nat, res.skipped as nat)
                    && state_shows(res.state, views(res.state.favorite_ids@), limit)
        },
{
    let limit = effective_favorite_limit(store)?;
    let current = read_favorite_ids(store)?;
    let ghost current_ids = current@;
    let (res, to_write) = plan_print_favorites(current, limit, print_ids, favorite);
    match to_write {
        Some(list) => write_favorite_ids(store, list.as_slice())?,
        None => {},
    }
    proof {
        let v = choose|v: JsonValue| #[trigger] favorite_ids_of(v) == views(current_ids);
        assert(bulk_spec(
            favorite_ids_of(v),
            views(print_ids@),
            favorite,
            favorite_limit_of(limit as int),
        ) == (views(res.state.favorite_ids@), res.applied as nat, res.skipped as nat));
    }
    Ok(res)
}

/// Whether deleting `print_id` is refused: its trimmed id is a favourite.
pub open spec fn deletion_refused(favorites: Seq<Seq<char>>, print_id: Seq<char>) -> bool {
    trim(print_id).len() > 0 && favorites.contains(trim(print_id))
}

/// The message of a refused deletion.
pub open spec fn favorited_text(print_id: Seq<char>) -> Seq<char> {
    "Print "@ + print_id + " is favorited and cannot be deleted."@
}

/// The deletion check against a known favourite list.
pub fn check_print_deletable(favorites: &[String], print_id: &str) -> (r: Result<(), Error>)
    ensures
        r is Err <==> deletion_refused(views(favorites@), print_id@),
        r matches Err(e) ==> e matches Error::Custom(m) && m@ == favorited_text(trim(print_id@)),
{
    let p = trim_str(print_id);
    if p.as_str().is_empty() {
        return Ok(());
    }
    if crate::text::contains_str(favorites, p.as_str()) {
        return Err(Error::Custom(favorited_message(p.as_str())));
    }
    Ok(())
}

/// `Print {id} is favorited and cannot be deleted.`
fn favorited_message(print_id: &str) -> (r: String)
    ensures
        r@ == favorited_text(print_id@),
{
    let mut m = String::new();
    m.append("Print ");
    m.append(print_id);
    m.append(" is favorited and cannot be deleted.");
    m
}

/// Refuses to delete a favourite print: the stored favourites are read
/// only for a non-blank id.
pub fn ensure_print_deletable(store: &dyn PrintFavoritesStore, print_id: &str) -> (r: Result<(), Error>)
    ensures
        trim(print_id@).len() == 0 ==> r is Ok,
        r matches Ok(_) ==> trim(print_id@).len() == 0 || exists|v: JsonValue|
            !deletion_refused(#[trigger] favorite_ids_of(v), print_id@),
        r is Err ==> trim(print_id@).len() > 0,
{
    let p = trim_str(print_id);
    if p.as_str().is_empty() {
        return Ok(());
    }
    let favorites = read_favorite_ids(store)?;
    let r = check_print_deletable(favorites.as_slice(), print_id);
    proof {
        if r is Ok {
            let v = choose|v: JsonValue| #[trigger] favorite_ids_of(v) == views(favorites@);
            assert(!deletion_refused(favorite_ids_of(v), print_id@));
        }
    }
    r
}

} // verus!
