//! The overview of the groups a user belongs to: one row per group, with
//! the permissions the user holds there, sorted by name.

use vstd::prelude::*;

use crate::error::{require_text, Error};
use crate::json::{scalar_text, text_of, JsonValue};
use crate::social::groups::permissions::{
    group_permissions, parse_permission_map, permission_map_of, permission_map_view,
    permissions_for_group,
};
use crate::text::{chars_of, compare_chars, lowercase_of, seq_lt, to_lowercase, trim, trim_str, views};

verus! {

#[derive(Debug)]
pub struct UserGroupsOverviewInput {
    pub current_user_id: String,
    pub endpoint: String,
}

/// One group of the overview.
#[derive(Clone, Debug)]
pub struct UserGroupsOverviewGroup {
    pub group_id: String,
    pub name: String,
    pub short_code: Option<String>,
    pub icon_url: Option<String>,
    pub member_count: Option<i64>,
    pub permissions: Vec<String>,
}

/// `(group_id, name, short_code, icon_url, member_count, permissions)`.
pub type OverviewGroupView = (
    Seq<char>,
    Seq<char>,
    Option<Seq<char>>,
    Option<Seq<char>>,
    Option<i64>,
    Seq<Seq<char>>,
);

pub open spec fn opt_text(o: Option<String>) -> Option<Seq<char>> {
    match o {
        Some(s) => Some(s@),
        None => None,
    }
}

impl View for UserGroupsOverviewGroup {
    type V = OverviewGroupView;

    open spec fn view(&self) -> OverviewGroupView {
        (
            self.group_id@,
            self.name@,
            opt_text(self.short_code),
            opt_text(self.icon_url),
            self.member_count,
            views(self.permissions@),
        )
    }
}

#[derive(Debug)]
pub struct UserGroupsOverviewOutput {
    pub current_user_id: String,
    pub groups: Vec<UserGroupsOverviewGroup>,
    /// The permission map could not be loaded, so each group's permissions
    /// come from its own `myMember` record alone.
    pub permissions_degraded: bool,
}

pub open spec fn group_views(groups: Seq<UserGroupsOverviewGroup>) -> Seq<OverviewGroupView> {
    groups.map_values(|g: UserGroupsOverviewGroup| g@)
}

/// The scalar text of the member `key`, trimmed.
pub open spec fn field_text(value: JsonValue, key: Seq<char>) -> Seq<char> {
    trim(scalar_text(value.field(key)))
}

/// `a` unless it is empty, else `b`.
pub open spec fn or_else(a: Seq<char>, b: Seq<char>) -> Seq<char> {
    if a.len() > 0 {
        a
    } else {
        b
    }
}

pub open spec fn non_empty(t: Seq<char>) -> Option<Seq<char>> {
    if t.len() > 0 {
        Some(t)
    } else {
        None
    }
}

/// The `memberCount` of a group, when it is an integer that fits in `i64`.
pub open spec fn member_count_of(group: JsonValue) -> Option<i64> {
    match group.field("memberCount"@) {
        Some(JsonValue::Number(n)) => n.as_i64,
        _ => None,
    }
}

/// The overview row of a group record: none without a group id (taken
/// from `groupId`, else `id`); the name falls back to the id.
pub open spec fn overview_group_of(group: JsonValue, map: Seq<(Seq<char>, Seq<Seq<char>>)>) -> Option<
    OverviewGroupView,
> {
    let id = or_else(field_text(group, "groupId"@), field_text(group, "id"@));
    if id.len() == 0 {
        None
    } else {
        let name = or_else(field_text(group, "name"@), field_text(group, "displayName"@));
        let short_code = or_else(field_text(group, "shortCode"@), field_text(group, "shortcode"@));
        let icon = or_else(
            field_text(group, "iconUrl"@),
            or_else(
                field_text(group, "imageUrl"@),
                or_else(field_text(group, "thumbnailImageUrl"@), field_text(group, "bannerUrl"@)),
            ),
        );
        Some(
            (
                id,
                or_else(name, id),
                non_empty(short_code),
                non_empty(icon),
                member_count_of(group),
                group_permissions(group, map, id),
            ),
        )
    }
}

/// The rows of the group records that have a group id, in record order.
pub open spec fn overview_groups_of(rows: Seq<JsonValue>, map: Seq<(Seq<char>, Seq<Seq<char>>)>) -> Seq<
    OverviewGroupView,
>
    decreases rows.len(),
{
    if rows.len() == 0 {
        Seq::empty()
    } else {
        let rest = overview_groups_of(rows.drop_last(), map);
        match overview_group_of(rows.last(), map) {
            Some(g) => rest.push(g),
            None => rest,
        }
    }
}

/// The key by which rows are sorted: the name in lower case.
pub open spec fn name_key(g: OverviewGroupView) -> Seq<char> {
    lowercase_of(g.1)
}

/// `s` with `x` placed after every row whose key is not greater.
pub open spec fn insert_by_name(x: OverviewGroupView, s: Seq<OverviewGroupView>) -> Seq<OverviewGroupView>
    decreases s.len(),
{
    if s.len() == 0 {
        seq![x]
    } else if seq_lt(name_key(x), name_key(s[0])) {
        seq![x] + s
    } else {
        seq![s[0]] + insert_by_name(x, s.drop_first())
    }
}

/// The stable sort of `s` by name key.
pub open spec fn sort_by_name(s: Seq<OverviewGroupView>) -> Seq<OverviewGroupView>
    decreases s.len(),
{
    if s.len() == 0 {
        s
    } else {
        insert_by_name(s.last(), sort_by_name(s.drop_last()))
    }
}

proof fn lemma_insert_by_name_at(x: OverviewGroupView, s: Seq<OverviewGroupView>, j: int)
    requires
        0 <= j <= s.len(),
        forall|k: int| 0 <= k < j ==> !seq_lt(name_key(x), name_key(#[trigger] s[k])),
        j == s.len() || seq_lt(name_key(x), name_key(s[j])),
    ensures
        insert_by_name(x, s) == s.take(j).push(x) + s.skip(j),
    decreases j,
{
    if j == 0 {
        if s.len() == 0 {
            assert(s.take(0).push(x) + s.skip(0) =~= seq![x]);
        } else {
            assert(s.take(0).push(x) + s.skip(0) =~= seq![x] + s);
        }
    } else {
        let t = s.drop_first();
        assert forall|k: int| 0 <= k < j - 1 implies !seq_lt(name_key(x), name_key(#[trigger] t[k])) by {
            assert(t[k] == s[k + 1]);
        }
        if j - 1 < t.len() {
            assert(t[j - 1] == s[j]);
        }
        lemma_insert_by_name_at(x, t, j - 1);
        assert(!seq_lt(name_key(x), name_key(s[0])));
        assert(seq![s[0]] + (t.take(j - 1).push(x) + t.skip(j - 1)) =~= s.take(j).push(x) + s.skip(
            j,
        ));
    }
}

/// `value.get(key)` as trimmed scalar text.
fn field_text_of(value: &JsonValue, key: &str) -> (r: String)
    ensures
        r@ == field_text(*value, key@),
{
    let t = text_of(value.get(key));
    trim_str(t.as_str())
}

/// `a` unless it is empty, else the text of `key` in `value`.
fn or_field(a: String, value: &JsonValue, key: &str) -> (r: String)
    ensures
        r@ == or_else(a@, field_text(*value, key@)),
{
    if a.as_str().is_empty() {
        field_text_of(value, key)
    } else {
        a
    }
}

fn non_empty_text(t: String) -> (r: Option<String>)
    ensures
        opt_text(r) == non_empty(t@),
{
    if t.as_str().is_empty() {
        None
    } else {
        Some(t)
    }
}

/// The overview row of one group record.
pub fn group_overview_from_value(group: &JsonValue, permission_map: &[(String, Vec<String>)]) -> (r:
    Option<UserGroupsOverviewGroup>)
    ensures
        match r {
            Some(g) => overview_group_of(*group, permission_map_view(permission_map@)) == Some(g@),
            None => overview_group_of(*group, permission_map_view(permission_map@)) is None,
        },
{
    let group_id = or_field(field_text_of(group, "groupId"), group, "id");
    if group_id.as_str().is_empty() {
        return None;
    }
    let name = or_field(field_text_of(group, "name"), group, "displayName");
    let short_code = or_field(field_text_of(group, "shortCode"), group, "shortcode");
    let icon_url = or_field(
        or_field(
            or_field(field_text_of(group, "iconUrl"), group, "imageUrl"),
            group,
            "thumbnailImageUrl",
        ),
        group,
        "bannerUrl",
    );
    proof {
        let g = *group;
        let a = field_text(g, "iconUrl"@);
        let b = field_text(g, "imageUrl"@);
        let c = field_text(g, "thumbnailImageUrl"@);
        let d = field_text(g, "bannerUrl"@);
        assert(or_else(or_else(or_else(a, b), c), d) == or_else(a, or_else(b, or_else(c, d))));
    }
    let member_count = match group.get("memberCount") {
        Some(JsonValue::Number(n)) => n.as_i64,
        _ => None,
    };
    let permissions = permissions_for_group(group, permission_map, group_id.as_str());
    let name = if name.as_str().is_empty() {
        group_id.clone()
    } else {
        name
    };
    Some(
        UserGroupsOverviewGroup {
            group_id,
            name,
            short_code: non_empty_text(short_code),
            icon_url: non_empty_text(icon_url),
            member_count,
            permissions,
        },
    )
}

/// The overview rows of the group records that have a group id, sorted by
/// name in lower case; rows with the same key keep their record order.
pub fn build_overview_groups(group_rows: &[JsonValue], permission_map: &[(String, Vec<String>)]) -> (r:
    Vec<UserGroupsOverviewGroup>)
    ensures
        group_views(r@) == sort_by_name(
            overview_groups_of(group_rows@, permission_map_view(permission_map@)),
        ),
{
    let ghost m = permission_map_view(permission_map@);
    let mut out: Vec<UserGroupsOverviewGroup> = Vec::new();
    let mut keys: Vec<String> = Vec::new();
    let mut i: usize = 0;
    while i < group_rows.len()
        invariant
            i <= group_rows.len(),
            m == permission_map_view(permission_map@),
            keys.len() == out.len(),
            forall|k: int| 0 <= k < keys.len() ==> #[trigger] keys@[k]@ == name_key(out@[k]@),
            group_views(out@) == sort_by_name(overview_groups_of(group_rows@.take(i as int), m)),
        decreases group_rows.len() - i,
    {
        assert(group_rows@.take(i + 1).drop_last() =~= group_rows@.take(i as int));
        assert(group_rows@.take(i + 1).last() == group_rows@[i as int]);
        match group_overview_from_value(&group_rows[i], permission_map) {
            Some(g) => {
                let ghost s = group_views(out@);
                let ghost x = g@;
                let ghost d = overview_groups_of(group_rows@.take(i as int), m);
                assert(overview_groups_of(group_rows@.take(i + 1), m) == d.push(x));
                assert(d.push(x).drop_last() =~= d);
                assert(sort_by_name(d.push(x)) == insert_by_name(x, sort_by_name(d)));
                let key = to_lowercase(g.name.as_str());
                let kc = chars_of(key.as_str());
                let mut j: usize = 0;
                while j < keys.len() && compare_chars(
                    kc.as_slice(),
                    chars_of(keys[j].as_str()).as_slice(),
                ) >= 0
                    invariant
                        j <= keys.len() == out.len(),
                        kc@ == name_key(x),
                        s == group_views(out@),
                        forall|k: int| 0 <= k < keys.len() ==> #[trigger] keys@[k]@ == name_key(out@[k]@),
                        forall|k: int| 0 <= k < j ==> !seq_lt(name_key(x), name_key(#[trigger] s[k])),
                    decreases keys.len() - j,
                {
                    assert(s[j as int] == out@[j as int]@);
                    assert(keys@[j as int]@ == name_key(out@[j as int]@));
                    j += 1;
                }
                if j < keys.len() {
                    assert(s[j as int] == out@[j as int]@);
                    assert(keys@[j as int]@ == name_key(out@[j as int]@));
                }
                proof {
                    lemma_insert_by_name_at(x, s, j as int);
                }
                let ghost old_out = out@;
                let ghost old_keys = keys@;
                out.insert(j, g);
                keys.insert(j, key);
                assert(group_views(out@) =~= s.take(j as int).push(x) + s.skip(j as int)) by {
                    assert forall|k: int| 0 <= k < out@.len() implies #[trigger] group_views(out@)[k]
                        == (s.take(j as int).push(x) + s.skip(j as int))[k] by {
                        if k < j {
                            assert(out@[k] == old_out[k]);
                        } else if k > j {
                            assert(out@[k] == old_out[k - 1]);
                        }
                    }
                }
                assert forall|k: int| 0 <= k < keys.len() implies #[trigger] keys@[k]@ == name_key(
                    out@[k]@,
                ) by {
                    if k < j {
                        assert(keys@[k] == old_keys[k]);
                        assert(out@[k] == old_out[k]);
                    } else if k > j {
                        assert(keys@[k] == old_keys[k - 1]);
                        assert(out@[k] == old_out[k - 1]);
                    }
                }
            },
            None => {
                assert(overview_groups_of(group_rows@.take(i + 1), m) == overview_groups_of(
                    group_rows@.take(i as int),
                    m,
                ));
            },
        }
        i += 1;
    }
    assert(group_rows@.take(group_rows.len() as int) =~= group_rows@);
    out
}

/// No row's key is below the key of a row before it.
pub open spec fn sorted_by_name(s: Seq<OverviewGroupView>) -> bool {
    forall|i: int, j: int| 0 <= i < j < s.len() ==> !seq_lt(name_key(#[trigger] s[j]), name_key(#[trigger] s[i]))
}

proof fn lemma_insert_by_name_contents(x: OverviewGroupView, s: Seq<OverviewGroupView>)
    ensures
        insert_by_name(x, s).len() == s.len() + 1,
        forall|y: OverviewGroupView| #[trigger] insert_by_name(x, s).contains(y) <==> (y == x || s.contains(y)),
    decreases s.len(),
{
    if s.len() == 0 {
        assert(insert_by_name(x, s) =~= seq![x]);
        assert forall|y: OverviewGroupView| #[trigger] insert_by_name(x, s).contains(y) <==> (y == x || s.contains(y)) by {
            if insert_by_name(x, s).contains(y) {
                assert(insert_by_name(x, s)[0] == x);
            }
            if y == x {
                assert(insert_by_name(x, s)[0] == y);
            }
        }
    } else if seq_lt(name_key(x), name_key(s[0])) {
        let r = seq![x] + s;
        assert forall|y: OverviewGroupView| #[trigger] r.contains(y) <==> (y == x || s.contains(y)) by {
            if r.contains(y) {
                let k = choose|k: int| 0 <= k < r.len() && r[k] == y;
                if k > 0 {
                    assert(s[k - 1] == y);
                }
            }
            if y == x {
                assert(r[0] == y);
            }
            if s.contains(y) {
                let k = choose|k: int| 0 <= k < s.len() && s[k] == y;
                assert(r[k + 1] == y);
            }
        }
    } else {
        let t = s.drop_first();
        lemma_insert_by_name_contents(x, t);
        let r = seq![s[0]] + insert_by_name(x, t);
        assert forall|y: OverviewGroupView| #[trigger] r.contains(y) <==> (y == x || s.contains(y)) by {
            if r.contains(y) {
                let k = choose|k: int| 0 <= k < r.len() && r[k] == y;
                if k == 0 {
                    assert(s[0] == y);
                } else {
                    assert(insert_by_name(x, t)[k - 1] == y);
                    assert(insert_by_name(x, t).contains(y));
                    if t.contains(y) {
                        let m = choose|m: int| 0 <= m < t.len() && t[m] == y;
                        assert(s[m + 1] == y);
                    }
                }
            }
            if y == x {
                assert(insert_by_name(x, t).contains(y));
                let m = choose|m: int| 0 <= m < insert_by_name(x, t).len() && insert_by_name(x, t)[m] == y;
                assert(r[m + 1] == y);
            }
            if s.contains(y) {
                let k = choose|k: int| 0 <= k < s.len() && s[k] == y;
                if k == 0 {
                    assert(r[0] == y);
                } else {
                    assert(t[k - 1] == y);
                    assert(insert_by_name(x, t).contains(y));
                    let m = choose|m: int| 0 <= m < insert_by_name(x, t).len() && insert_by_name(x, t)[m] == y;
                    assert(r[m + 1] == y);
                }
            }
        }
    }
}

/// `a`'s key is not below `b`'s: they are equal or `b`'s is below.
proof fn lemma_not_below(a: Seq<char>, b: Seq<char>, c: Seq<char>)
    requires
        !seq_lt(b, a),
        seq_lt(c, a),
    ensures
        seq_lt(c, b),
{
    crate::text::lemma_seq_lt_total(a, b);
    if a != b {
        crate::text::lemma_seq_lt_transitive(c, a, b);
    }
}

proof fn lemma_insert_by_name_sorted(x: OverviewGroupView, s: Seq<OverviewGroupView>)
    requires
        sorted_by_name(s),
    ensures
        sorted_by_name(insert_by_name(x, s)),
    decreases s.len(),
{
    lemma_insert_by_name_contents(x, s);
    if s.len() == 0 {
        assert(insert_by_name(x, s) =~= seq![x]);
    } else if seq_lt(name_key(x), name_key(s[0])) {
        let r = seq![x] + s;
        assert forall|i: int, j: int| 0 <= i < j < r.len() implies !seq_lt(name_key(#[trigger] r[j]), name_key(#[trigger] r[i])) by {
            if i == 0 {
                assert(r[j] == s[j - 1]);
                if j - 1 > 0 {
                    assert(!seq_lt(name_key(s[j - 1]), name_key(s[0])));
                    lemma_not_below(name_key(s[0]), name_key(s[j - 1]), name_key(x));
                } else {
                    assert(r[j] == s[0]);
                }
                crate::text::lemma_seq_lt_asymmetric(name_key(x), name_key(r[j]));
            } else {
                assert(r[i] == s[i - 1]);
                assert(r[j] == s[j - 1]);
            }
        }
    } else {
        let t = s.drop_first();
        assert(sorted_by_name(t)) by {
            assert forall|i: int, j: int| 0 <= i < j < t.len() implies !seq_lt(name_key(#[trigger] t[j]), name_key(#[trigger] t[i])) by {
                assert(t[i] == s[i + 1]);
                assert(t[j] == s[j + 1]);
            }
        }
        lemma_insert_by_name_sorted(x, t);
        lemma_insert_by_name_contents(x, t);
        let u = insert_by_name(x, t);
        let r = seq![s[0]] + u;
        assert forall|i: int, j: int| 0 <= i < j < r.len() implies !seq_lt(name_key(#[trigger] r[j]), name_key(#[trigger] r[i])) by {
            if i == 0 {
                let y = u[j - 1];
                assert(r[j] == y);
                assert(u.contains(y));
                if y != x {
                    let m = choose|m: int| 0 <= m < t.len() && t[m] == y;
                    assert(s[m + 1] == y);
                }
            } else {
                assert(r[i] == u[i - 1]);
                assert(r[j] == u[j - 1]);
            }
        }
    }
}

proof fn lemma_sort_by_name(s: Seq<OverviewGroupView>)
    ensures
        sorted_by_name(sort_by_name(s)),
        sort_by_name(s).len() == s.len(),
        forall|y: OverviewGroupView| #[trigger] sort_by_name(s).contains(y) <==> s.contains(y),
    decreases s.len(),
{
    if s.len() > 0 {
        let d = s.drop_last();
        lemma_sort_by_name(d);
        lemma_insert_by_name_sorted(s.last(), sort_by_name(d));
        lemma_insert_by_name_contents(s.last(), sort_by_name(d));
        assert forall|y: OverviewGroupView| #[trigger] sort_by_name(s).contains(y) <==> s.contains(y) by {
            if d.contains(y) {
                let k = choose|k: int| 0 <= k < d.len() && d[k] == y;
                assert(s[k] == y);
            }
            if s.contains(y) {
                let k = choose|k: int| 0 <= k < s.len() && s[k] == y;
                if k < s.len() - 1 {
                    assert(d[k] == y);
                }
            }
            if y == s.last() {
                assert(s[s.len() - 1] == y);
            }
        }
    }
}

proof fn lemma_overview_rows_have_ids(rows: Seq<JsonValue>, map: Seq<(Seq<char>, Seq<Seq<char>>)>)
    ensures
        forall|g: OverviewGroupView| #[trigger] overview_groups_of(rows, map).contains(g) ==> g.0.len() > 0,
    decreases rows.len(),
{
    if rows.len() > 0 {
        let rest = overview_groups_of(rows.drop_last(), map);
        lemma_overview_rows_have_ids(rows.drop_last(), map);
        assert forall|g: OverviewGroupView| #[trigger] overview_groups_of(rows, map).contains(g) implies g.0.len() > 0 by {
            let all = overview_groups_of(rows, map);
            let k = choose|k: int| 0 <= k < all.len() && all[k] == g;
            match overview_group_of(rows.last(), map) {
                Some(h) => {
                    assert(all == rest.push(h));
                    if k < rest.len() {
                        assert(rest[k] == g);
                        assert(rest.contains(g));
                    } else {
                        assert(all[k] == h);
                    }
                },
                None => {
                    assert(all == rest);
                    assert(rest[k] == g);
                    assert(rest.contains(g));
                },
            }
        }
    }
}

/// The overview lists its rows by name in lower case, and every row it
/// lists has a group id.
pub proof fn law_overview_sorted_by_name(rows: Seq<JsonValue>, map: Seq<(Seq<char>, Seq<Seq<char>>)>)
    ensures
        sorted_by_name(sort_by_name(overview_groups_of(rows, map))),
        forall|i: int|
            0 <= i < sort_by_name(overview_groups_of(rows, map)).len() ==> (#[trigger] sort_by_name(
                overview_groups_of(rows, map),
            )[i]).0.len() > 0,
{
    let s = overview_groups_of(rows, map);
    lemma_sort_by_name(s);
    lemma_overview_rows_have_ids(rows, map);
    assert forall|i: int| 0 <= i < sort_by_name(s).len() implies (#[trigger] sort_by_name(s)[i]).0.len() > 0 by {
        assert(sort_by_name(s).contains(sort_by_name(s)[i]));
    }
}

/// What a request for the overview does next.
#[derive(Debug)]
pub enum UserGroupsOverviewPlan {
    /// Nothing to fetch: the answer is known.
    Done(UserGroupsOverviewOutput),
    /// Fetch the groups and the permission map of this user.
    Fetch { current_user_id: String },
}

/// The first step of a request for the overview: a user id is required;
/// when the session belongs to another user or endpoint the overview is
/// empty and nothing is fetched.
pub fn plan_user_groups_overview(input: &UserGroupsOverviewInput, scope_matches: bool) -> (r: Result<
    UserGroupsOverviewPlan,
    Error,
>)
    ensures
        match r {
            Err(e) => trim(input.current_user_id@).len() == 0 && (e matches Error::Custom(m)
                && m@ == "User groups overview requires currentUserId."@),
            Ok(UserGroupsOverviewPlan::Done(out)) => trim(input.current_user_id@).len() > 0
                && !scope_matches && out.current_user_id@ == trim(input.current_user_id@)
                && out.groups.len() == 0 && !out.permissions_degraded,
            Ok(UserGroupsOverviewPlan::Fetch { current_user_id }) => trim(input.current_user_id@).len()
                > 0 && scope_matches && current_user_id@ == trim(input.current_user_id@),
        },
{
    let current_user_id = match require_text(
        input.current_user_id.as_str(),
        "User groups overview requires currentUserId.",
    ) {
        Ok(t) => t,
        Err(e) => {
            proof {
                reveal_strlit("User groups overview requires currentUserId.");
            }
            return Err(e);
        },
    };
    if !scope_matches {
        return Ok(
            UserGroupsOverviewPlan::Done(
                UserGroupsOverviewOutput {
                    current_user_id,
                    groups: Vec::new(),
                    permissions_degraded: false,
                },
            ),
        );
    }
    Ok(UserGroupsOverviewPlan::Fetch { current_user_id })
}

/// The overview built from what the two requests returned: the group
/// records, and the permission map reply (`None` when that request failed,
/// which degrades the permissions to those of each `myMember` record).
pub fn user_groups_overview_output(
    current_user_id: String,
    group_rows: &[JsonValue],
    permissions_reply: Option<&JsonValue>,
) -> (r: UserGroupsOverviewOutput)
    ensures
        r.current_user_id@ == current_user_id@,
        r.permissions_degraded == permissions_reply.is_none(),
        group_views(r.groups@) == sort_by_name(
            overview_groups_of(
                group_rows@,
                match permissions_reply {
                    Some(v) => permission_map_of(*v),
                    None => Seq::empty(),
                },
            ),
        ),
{
    let (permission_map, permissions_degraded) = match permissions_reply {
        Some(v) => (parse_permission_map(v), false),
        None => {
            let empty: Vec<(String, Vec<String>)> = Vec::new();
            assert(permission_map_view(empty@) =~= Seq::empty());
            (empty, true)
        },
    };
    UserGroupsOverviewOutput {
        current_user_id,
        groups: build_overview_groups(group_rows, permission_map.as_slice()),
        permissions_degraded,
    }
}

} // verus!
