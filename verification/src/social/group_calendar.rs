//! The group calendar: paging through the event lists, and reading group
//! and event ids out of event records.

use vstd::prelude::*;

use crate::error::{custom_error, is_custom, Error};
use crate::json::{str_field_of, JsonValue};
use crate::text::{contains_str, str_eq, trim, trim_str, views};

verus! {

pub const CALENDAR_PAGE_SIZE: i32 = 100;

pub const CALENDAR_MAX_PAGES: usize = 50;

pub const GROUP_PROFILE_CONCURRENCY: usize = 4;

pub const MISSING_DATE_MESSAGE: &'static str = "Group calendar snapshot requires a date.";

pub const PAGINATION_LIMIT_MESSAGE: &'static str =
    "Group calendar pagination exceeded the safety limit.";

#[derive(Clone, Copy, Debug, PartialEq, Eq, Structural)]
pub enum GroupCalendarPageKind {
    All,
    Following,
    Featured,
}

/// One page of an event list, and whether the remote says more follow.
#[derive(Debug)]
pub struct GroupCalendarPage {
    pub rows: Vec<JsonValue>,
    pub has_next: Option<bool>,
}

#[derive(Clone, Debug)]
pub struct GroupCalendarInput {
    pub date: String,
    pub include_featured: bool,
}

/// The date of a calendar request, trimmed.
pub fn require_calendar_date(date: &str) -> (r: Result<String, Error>)
    ensures
        match r {
            Ok(d) => d@ == trim(date@) && d@.len() > 0,
            Err(e) => trim(date@).len() == 0 && is_custom(e, MISSING_DATE_MESSAGE@),
        },
{
    let d = trim_str(date);
    if d.as_str().is_empty() {
        return Err(custom_error(MISSING_DATE_MESSAGE));
    }
    Ok(d)
}

/// A trimmed text that is not empty.
pub open spec fn nonempty_trimmed(s: Option<Seq<char>>) -> Option<Seq<char>> {
    match s {
        Some(t) => if trim(t).len() > 0 {
            Some(trim(t))
        } else {
            None
        },
        None => None,
    }
}

/// The group an event belongs to: `ownerId`, else `groupId`, else the id of
/// the embedded `group`.
pub open spec fn group_id_of(row: JsonValue) -> Option<Seq<char>> {
    let raw = match str_field_of(row, "ownerId"@) {
        Some(s) => Some(s),
        None => match str_field_of(row, "groupId"@) {
            Some(s) => Some(s),
            None => match row.field("group"@) {
                Some(g) => str_field_of(g, "id"@),
                None => None,
            },
        },
    };
    nonempty_trimmed(raw)
}

/// The id of an event: `eventId`, or `id` where there is no `eventId`.
pub open spec fn event_id_of(row: JsonValue) -> Option<Seq<char>> {
    let v = match row.field("eventId"@) {
        Some(v) => Some(v),
        None => row.field("id"@),
    };
    match v {
        Some(x) => nonempty_trimmed(x.str_of()),
        None => None,
    }
}

fn trimmed_nonempty(s: Option<&String>) -> (r: Option<String>)
    ensures
        match r {
            Some(t) => nonempty_trimmed(match s {
                Some(x) => Some(x@),
                None => None,
            }) == Some(t@),
            None => nonempty_trimmed(match s {
                Some(x) => Some(x@),
                None => None,
            }) is None,
        },
{
    match s {
        Some(x) => {
            let t = trim_str(x.as_str());
            if t.as_str().is_empty() {
                None
            } else {
                Some(t)
            }
        },
        None => None,
    }
}

pub fn group_id(row: &JsonValue) -> (r: Option<String>)
    ensures
        match r {
            Some(g) => group_id_of(*row) == Some(g@),
            None => group_id_of(*row) is None,
        },
{
    let raw: Option<&String> = match crate::json::str_field(row, "ownerId") {
        Some(s) => Some(s),
        None => match crate::json::str_field(row, "groupId") {
            Some(s) => Some(s),
            None => match row.get("group") {
                Some(g) => crate::json::str_field(g, "id"),
                None => None,
            },
        },
    };
    trimmed_nonempty(raw)
}

pub fn event_id(row: &JsonValue) -> (r: Option<String>)
    ensures
        match r {
            Some(e) => event_id_of(*row) == Some(e@),
            None => event_id_of(*row) is None,
        },
{
    let v: Option<&JsonValue> = match row.get("eventId") {
        Some(v) => Some(v),
        None => row.get("id"),
    };
    match v {
        Some(x) => trimmed_nonempty(x.as_str()),
        None => None,
    }
}

/// The event ids of a list, in order, skipping rows without one.
pub open spec fn event_ids_of(rows: Seq<JsonValue>) -> Seq<Seq<char>>
    decreases rows.len(),
{
    if rows.len() == 0 {
        Seq::empty()
    } else {
        let rest = event_ids_of(rows.drop_last());
        match event_id_of(rows.last()) {
            Some(e) => rest.push(e),
            None => rest,
        }
    }
}

pub fn following_event_ids(rows: &Vec<JsonValue>) -> (r: Vec<String>)
    ensures
        views(r@) == event_ids_of(rows@),
{
    let mut out: Vec<String> = Vec::new();
    let mut i: usize = 0;
    while i < rows.len()
        invariant
            i <= rows.len(),
            views(out@) == event_ids_of(rows@.take(i as int)),
        decreases rows.len() - i,
    {
        proof {
            assert(rows@.take(i as int + 1).drop_last() =~= rows@.take(i as int));
        }
        match event_id(&rows[i]) {
            Some(e) => {
                let ghost before = out@;
                let ghost ev = e@;
                out.push(e);
                proof {
                    assert(views(out@) =~= views(before).push(ev));
                }
            },
            None => {},
        }
        i = i + 1;
    }
    proof {
        assert(rows@.take(i as int) =~= rows@);
    }
    out
}

/// The groups of the events, each once, in their first order.
pub open spec fn group_ids_of(rows: Seq<JsonValue>) -> Seq<Seq<char>>
    decreases rows.len(),
{
    if rows.len() == 0 {
        Seq::empty()
    } else {
        let rest = group_ids_of(rows.drop_last());
        match group_id_of(rows.last()) {
            Some(g) => if rest.contains(g) {
                rest
            } else {
                rest.push(g)
            },
            None => rest,
        }
    }
}

pub fn collect_group_ids(rows: &Vec<&JsonValue>) -> (r: Vec<String>)
    ensures
        views(r@) == group_ids_of(Seq::new(rows@.len(), |i: int| *rows@[i])),
{
    let ghost all = Seq::new(rows@.len(), |i: int| *rows@[i]);
    let mut out: Vec<String> = Vec::new();
    let mut i: usize = 0;
    while i < rows.len()
        invariant
            i <= rows.len(),
            all == Seq::new(rows@.len(), |i: int| *rows@[i]),
            views(out@) == group_ids_of(all.take(i as int)),
        decreases rows.len() - i,
    {
        proof {
            assert(all.take(i as int + 1).drop_last() =~= all.take(i as int));
        }
        match group_id(rows[i]) {
            Some(g) => {
                if !contains_str(out.as_slice(), g.as_str()) {
                    let ghost before = out@;
                    let ghost gv = g@;
                    out.push(g);
                    proof {
                        assert(views(out@) =~= views(before).push(gv));
                    }
                }
            },
            None => {},
        }
        i = i + 1;
    }
    proof {
        assert(all.take(i as int) =~= all);
    }
    out
}

/// The row whose embedded `group` is the profile of each group id; a later
/// row replaces an earlier one.
pub open spec fn embedded_sources(rows: Seq<JsonValue>) -> Map<Seq<char>, int>
    decreases rows.len(),
{
    if rows.len() == 0 {
        Map::empty()
    } else {
        let rest = embedded_sources(rows.drop_last());
        match rows.last().field("group"@) {
            Some(g) => match str_field_of(g, "id"@) {
                Some(id) => rest.insert(id, rows.len() - 1),
                None => rest,
            },
            None => rest,
        }
    }
}

/// The map a list of unique keys and values gives.
pub open spec fn pairs_map(pairs: Seq<(Seq<char>, int)>) -> Map<Seq<char>, int> {
    Map::new(
        |k: Seq<char>| exists|i: int| 0 <= i < pairs.len() && pairs[i].0 == k,
        |k: Seq<char>| pairs[choose|i: int| 0 <= i < pairs.len() && pairs[i].0 == k].1,
    )
}

pub open spec fn source_views(pairs: Seq<(String, usize)>) -> Seq<(Seq<char>, int)> {
    Seq::new(pairs.len(), |i: int| (pairs[i].0@, pairs[i].1 as int))
}

pub open spec fn unique_keys(pairs: Seq<(Seq<char>, int)>) -> bool {
    forall|i: int, j: int| 0 <= i < j < pairs.len() ==> pairs[i].0 != pairs[j].0
}

/// For each group with a profile embedded in the events, the row that
/// holds it, the last one where several do.
pub fn embedded_group_profile_rows(rows: &Vec<&JsonValue>) -> (r: Vec<(String, usize)>)
    ensures
        unique_keys(source_views(r@)),
        forall|i: int| 0 <= i < r@.len() ==> (#[trigger] r@[i]).1 < rows@.len(),
        pairs_map(source_views(r@)) == embedded_sources(Seq::new(rows@.len(), |i: int| *rows@[i])),
{
    let ghost all = Seq::new(rows@.len(), |i: int| *rows@[i]);
    let mut out: Vec<(String, usize)> = Vec::new();
    let mut i: usize = 0;
    proof {
        assert(pairs_map(source_views(out@)) =~= embedded_sources(all.take(0)));
    }
    while i < rows.len()
        invariant
            i <= rows.len(),
            all == Seq::new(rows@.len(), |i: int| *rows@[i]),
            unique_keys(source_views(out@)),
            forall|k: int| 0 <= k < out@.len() ==> (#[trigger] out@[k]).1 < i,
            pairs_map(source_views(out@)) == embedded_sources(all.take(i as int)),
        decreases rows.len() - i,
    {
        proof {
            assert(all.take(i as int + 1).drop_last() =~= all.take(i as int));
        }
        let found: Option<String> = match rows[i].get("group") {
            Some(g) => match crate::json::str_field(g, "id") {
                Some(id) => Some(id.clone()),
                None => None,
            },
            None => None,
        };
        match found {
            Some(id) => {
                let ghost before = source_views(out@);
                let mut j: usize = 0;
                let mut at: Option<usize> = None;
                while j < out.len()
                    invariant
                        j <= out.len(),
                        at matches Some(k) ==> k < out.len() && out@[k as int].0@ == id@,
                        at is None ==> forall|k: int| 0 <= k < j ==> out@[k].0@ != id@,
                    decreases out.len() - j,
                {
                    if at.is_none() && str_eq(out[j].0.as_str(), id.as_str()) {
                        at = Some(j);
                    }
                    j = j + 1;
                }
                let ghost idv = id@;
                match at {
                    Some(k) => {
                        out.set(k, (id, i));
                        proof {
                            assert(source_views(out@) =~= before.update(k as int, (idv, i as int)));
                            assert forall|a: int| 0 <= a < before.len() implies #[trigger] source_views(out@)[a].0
                                == before[a].0 by {}
                            assert(unique_keys(source_views(out@)));
                            assert(pairs_map(source_views(out@)) =~= pairs_map(before).insert(
                                idv,
                                i as int,
                            )) by {
                                assert forall|key: Seq<char>| #![auto] pairs_map(source_views(out@)).dom().contains(key)
                                    <==> pairs_map(before).insert(idv, i as int).dom().contains(key) by {
                                    if key != idv && pairs_map(before).dom().contains(key) {
                                        let w = choose|w: int| 0 <= w < before.len() && before[w].0 == key;
                                        assert(source_views(out@)[w].0 == key);
                                    }
                                    if key == idv {
                                        assert(source_views(out@)[k as int].0 == key);
                                    }
                                }
                                assert forall|key: Seq<char>| #![auto] pairs_map(source_views(out@)).dom().contains(key)
                                    implies pairs_map(source_views(out@))[key] == pairs_map(before).insert(idv, i as int)[key] by {
                                    let sv = source_views(out@);
                                    let w = choose|w: int| 0 <= w < sv.len() && sv[w].0 == key;
                                    if key != idv {
                                        let w2 = choose|w: int| 0 <= w < before.len() && before[w].0 == key;
                                        assert(w == w2);
                                    } else {
                                        assert(sv[k as int].0 == idv);
                                        if w < k {
                                            assert(sv[w].0 != sv[k as int].0);
                                        } else if w > k {
                                            assert(sv[k as int].0 != sv[w].0);
                                        }
                                    }
                                }
                            }
                        }
                    },
                    None => {
                        out.push((id, i));
                        proof {
                            assert(source_views(out@) =~= before.push((idv, i as int)));
                            assert forall|a: int| 0 <= a < before.len() implies before[a].0 != idv by {
                                assert(before[a].0 == out@[a].0@);
                            }
                            assert(unique_keys(source_views(out@)));
                            assert(pairs_map(source_views(out@)) =~= pairs_map(before).insert(
                                idv,
                                i as int,
                            )) by {
                                let sv = source_views(out@);
                                assert forall|key: Seq<char>| #![auto] pairs_map(sv).dom().contains(key)
                                    <==> pairs_map(before).insert(idv, i as int).dom().contains(key) by {
                                    if key != idv && pairs_map(before).dom().contains(key) {
                                        let w = choose|w: int| 0 <= w < before.len() && before[w].0 == key;
                                        assert(sv[w].0 == key);
                                    }
                                    if key == idv {
                                        assert(sv[before.len() as int].0 == key);
                                    }
                                }
                                assert forall|key: Seq<char>| #![auto] pairs_map(sv).dom().contains(key)
                                    implies pairs_map(sv)[key] == pairs_map(before).insert(idv, i as int)[key] by {
                                    let w = choose|w: int| 0 <= w < sv.len() && sv[w].0 == key;
                                    if key != idv {
                                        let w2 = choose|w: int| 0 <= w < before.len() && before[w].0 == key;
                                        assert(w == w2);
                                    } else {
                                        assert(w == before.len());
                                    }
                                }
                            }
                        }
                    },
                }
            },
            None => {},
        }
        i = i + 1;
    }
    proof {
        assert(all.take(i as int) =~= all);
    }
    out
}

/// Collects the rows of one event list page by page; the page after the
/// last allowed one must be empty.
#[derive(Debug)]
pub struct CalendarPager {
    pub rows: Vec<JsonValue>,
    pub page_index: usize,
}

impl CalendarPager {
    pub fn new() -> (r: CalendarPager)
        ensures
            r.rows@.len() == 0,
            r.page_index == 0,
    {
        CalendarPager { rows: Vec::new(), page_index: 0 }
    }

    /// The offset of the next page.
    pub fn offset(&self) -> (o: i32)
        requires
            self.page_index <= CALENDAR_MAX_PAGES,
        ensures
            o == self.page_index * CALENDAR_PAGE_SIZE,
    {
        (self.page_index as i32) * CALENDAR_PAGE_SIZE
    }

    /// Takes in the next page: `Ok(true)` when the list is complete, `Ok(false)`
    /// when another page is needed, an error when the page past the limit
    /// still has rows.
    pub fn record(&mut self, page: GroupCalendarPage) -> (r: Result<bool, Error>)
        requires
            old(self).page_index <= CALENDAR_MAX_PAGES,
        ensures
            old(self).page_index == CALENDAR_MAX_PAGES ==> match r {
                Ok(done) => done && page.rows.len() == 0 && final(self).rows@ == old(self).rows@,
                Err(e) => page.rows.len() > 0 && is_custom(e, PAGINATION_LIMIT_MESSAGE@),
            },
            old(self).page_index < CALENDAR_MAX_PAGES ==> {
                &&& final(self).rows@ == old(self).rows@ + page.rows@
                &&& final(self).page_index == old(self).page_index + 1
                &&& r == Ok::<bool, Error>(
                    page.has_next == Some(false) || page.rows.len() < CALENDAR_PAGE_SIZE,
                )
            },
    {
        let count = page.rows.len();
        if self.page_index == CALENDAR_MAX_PAGES {
            if count == 0 {
                return Ok(true);
            }
            return Err(custom_error(PAGINATION_LIMIT_MESSAGE));
        }
        let mut rows = page.rows;
        self.rows.append(&mut rows);
        self.page_index = self.page_index + 1;
        Ok(page.has_next == Some(false) || count < 100)
    }
}

/// The name of a group: its profile's `name`, else its id.
pub open spec fn group_name_of(group_id: Seq<char>, profile: Option<JsonValue>) -> Seq<char> {
    match profile {
        Some(p) => match str_field_of(p, "name"@) {
            Some(n) => n,
            None => group_id,
        },
        None => group_id,
    }
}

pub fn group_name(group_id: &str, profile: Option<&JsonValue>) -> (r: String)
    ensures
        r@ == group_name_of(group_id@, match profile {
            Some(p) => Some(*p),
            None => None,
        }),
{
    match profile {
        Some(p) => match crate::json::str_field(p, "name") {
            Some(n) => n.clone(),
            None => group_id.to_string(),
        },
        None => group_id.to_string(),
    }
}

/// The group ids of a calendar are distinct, trimmed and not empty.
pub proof fn law_group_ids_distinct(rows: Seq<JsonValue>)
    ensures
        group_ids_of(rows).no_duplicates(),
        forall|g: Seq<char>| #[trigger] group_ids_of(rows).contains(g) ==> g.len() > 0,
    decreases rows.len(),
{
    if rows.len() > 0 {
        law_group_ids_distinct(rows.drop_last());
        let rest = group_ids_of(rows.drop_last());
        assert forall|x: Seq<char>| #[trigger] group_ids_of(rows).contains(x) implies x.len() > 0 by {
            assert(rest.contains(x) ==> x.len() > 0);
            match group_id_of(rows.last()) {
                Some(g) => {
                    if !rest.contains(g) {
                        let t = rest.push(g);
                        let k = choose|k: int| 0 <= k < t.len() && t[k] == x;
                        if k < rest.len() {
                            assert(rest[k] == x);
                        }
                    }
                },
                None => {},
            }
        }
    }
}

} // verus!
