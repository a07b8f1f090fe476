//! The permissions a member holds in a group: read from the permission map
//! that VRChat sends for a user, or from the group's own `myMember` record.
//!
//! A permission is kept as its wire text (`group-bans-manage`, ...); the
//! text `*` stands for every permission.

use vstd::prelude::*;

use crate::json::{scalar_text, text_of, JsonValue};
use crate::text::{chars_eq, chars_of, str_eq, trim, trim_str, views};

verus! {

/// The wire text of the permission that grants every permission.
pub open spec fn all_permissions_text() -> Seq<char> {
    seq!['*']
}

/// The permission texts of a list of JSON values: each scalar's text,
/// trimmed, with the empty ones left out.
pub open spec fn permission_texts(items: Seq<JsonValue>) -> Seq<Seq<char>>
    decreases items.len(),
{
    if items.len() == 0 {
        Seq::empty()
    } else {
        let rest = permission_texts(items.drop_last());
        let t = trim(scalar_text(Some(items.last())));
        if t.len() == 0 {
            rest
        } else {
            rest.push(t)
        }
    }
}

/// The permissions that a value lists: none unless it is an array.
pub open spec fn permissions_of(value: Option<JsonValue>) -> Seq<Seq<char>> {
    match value {
        Some(JsonValue::Array(items)) => permission_texts(items@),
        _ => Seq::empty(),
    }
}

/// The permissions listed by `value`.
pub fn parse_permissions(value: Option<&JsonValue>) -> (r: Vec<String>)
    ensures
        views(r@) == permissions_of(
            match value {
                Some(v) => Some(*v),
                None => None,
            },
        ),
{
    let items = match value {
        Some(JsonValue::Array(items)) => items,
        _ => {
            assert(views(Seq::<String>::empty()) =~= Seq::<Seq<char>>::empty());
            return Vec::new();
        },
    };
    let mut out: Vec<String> = Vec::new();
    let mut i: usize = 0;
    while i < items.len()
        invariant
            i <= items.len(),
            views(out@) == permission_texts(items@.take(i as int)),
        decreases items.len() - i,
    {
        assert(items@.take(i + 1).drop_last() =~= items@.take(i as int));
        assert(items@.take(i + 1).last() == items@[i as int]);
        let t = text_of(Some(&items[i]));
        let t = trim_str(t.as_str());
        if !t.as_str().is_empty() {
            let ghost before = out@;
            out.push(t);
            assert(views(out@) =~= views(before).push(t@));
        }
        i += 1;
    }
    assert(items@.take(items.len() as int) =~= items@);
    out
}

/// The view of a permission map: each group id with its permissions.
pub open spec fn permission_map_view(map: Seq<(String, Vec<String>)>) -> Seq<(Seq<char>, Seq<Seq<char>>)> {
    map.map_values(|e: (String, Vec<String>)| (e.0@, views(e.1@)))
}

/// The permission map that a reply describes: one entry per member of an
/// object, in order; nothing for any other value.
pub open spec fn permission_map_of(value: JsonValue) -> Seq<(Seq<char>, Seq<Seq<char>>)> {
    match value {
        JsonValue::Object(members) => members@.map_values(
            |m: (String, JsonValue)| (m.0@, permissions_of(Some(m.1))),
        ),
        _ => Seq::empty(),
    }
}

/// Reads the permission map of a reply (`{ groupId: [permission, ...] }`).
pub fn parse_permission_map(value: &JsonValue) -> (r: Vec<(String, Vec<String>)>)
    ensures
        permission_map_view(r@) == permission_map_of(*value),
{
    let members = match value {
        JsonValue::Object(members) => members,
        _ => {
            assert(permission_map_view(Seq::empty()) =~= permission_map_of(*value));
            return Vec::new();
        },
    };
    let mut out: Vec<(String, Vec<String>)> = Vec::new();
    let mut i: usize = 0;
    while i < members.len()
        invariant
            i <= members.len(),
            permission_map_view(out@) == permission_map_of(*value).take(i as int),
            permission_map_of(*value).len() == members.len(),
            forall|k: int|
                0 <= k < members.len() ==> #[trigger] permission_map_of(*value)[k] == (
                    members@[k].0@,
                    permissions_of(Some(members@[k].1)),
                ),
        decreases members.len() - i,
    {
        let ghost before = out@;
        let permissions = parse_permissions(Some(&members[i].1));
        out.push((members[i].0.clone(), permissions));
        assert(permission_map_view(out@) =~= permission_map_view(before).push(
            permission_map_of(*value)[i as int],
        ));
        assert(permission_map_of(*value).take(i + 1) =~= permission_map_of(*value).take(
            i as int,
        ).push(permission_map_of(*value)[i as int]));
        i += 1;
    }
    assert(permission_map_of(*value).take(members.len() as int) =~= permission_map_of(*value));
    out
}

/// The permissions stored for `group_id` in a map (its first entry).
pub open spec fn lookup_permissions(map: Seq<(Seq<char>, Seq<Seq<char>>)>, group_id: Seq<char>) -> Option<
    Seq<Seq<char>>,
>
    decreases map.len(),
{
    if map.len() == 0 {
        None
    } else if map[0].0 == group_id {
        Some(map[0].1)
    } else {
        lookup_permissions(map.drop_first(), group_id)
    }
}

/// The permissions of a group: those of the map where it names the group,
/// else those of the group's `myMember` record.
pub open spec fn group_permissions(
    group: JsonValue,
    map: Seq<(Seq<char>, Seq<Seq<char>>)>,
    group_id: Seq<char>,
) -> Seq<Seq<char>> {
    match lookup_permissions(map, group_id) {
        Some(p) => p,
        None => match group.field("myMember"@) {
            Some(member) => permissions_of(member.field("permissions"@)),
            None => Seq::empty(),
        },
    }
}

pub fn permissions_for_group(group: &JsonValue, permission_map: &[(String, Vec<String>)], group_id: &str) -> (r:
    Vec<String>)
    ensures
        views(r@) == group_permissions(*group, permission_map_view(permission_map@), group_id@),
{
    let ghost m = permission_map_view(permission_map@);
    let mut i: usize = 0;
    assert(m.skip(0) =~= m);
    while i < permission_map.len()
        invariant
            i <= permission_map.len(),
            m == permission_map_view(permission_map@),
            lookup_permissions(m, group_id@) == lookup_permissions(m.skip(i as int), group_id@),
        decreases permission_map.len() - i,
    {
        assert(m.skip(i as int)[0] == m[i as int]);
        if str_eq(permission_map[i].0.as_str(), group_id) {
            let out = permission_map[i].1.clone();
            proof {
                assert(out@ == permission_map@[i as int].1@);
            }
            return out;
        }
        assert(m.skip(i as int).drop_first() =~= m.skip(i + 1));
        i += 1;
    }
    match group.get("myMember") {
        Some(member) => parse_permissions(member.get("permissions")),
        None => {
            assert(views(Seq::<String>::empty()) =~= Seq::<Seq<char>>::empty());
            Vec::new()
        },
    }
}

/// Whether `text` is the permission that grants every permission.
fn is_all_permissions(text: &str) -> (r: bool)
    ensures
        r == (text@ == all_permissions_text()),
{
    let c = chars_of(text);
    let star: Vec<char> = vec!['*'];
    assert(star@ =~= all_permissions_text());
    chars_eq(c.as_slice(), star.as_slice())
}

/// The permissions grant `permission`: they hold it, or they hold `*`.
pub open spec fn grants(permissions: Seq<Seq<char>>, permission: Seq<char>) -> bool {
    exists|k: int|
        0 <= k < permissions.len() && (permissions[k] == all_permissions_text()
            || permissions[k] == permission)
}

pub fn has_permission(permissions: &[String], permission: &str) -> (r: bool)
    ensures
        r == grants(views(permissions@), permission@),
{
    let ghost p = views(permissions@);
    let mut i: usize = 0;
    while i < permissions.len()
        invariant
            i <= permissions.len(),
            p == views(permissions@),
            forall|k: int|
                0 <= k < i ==> !(#[trigger] p[k] == all_permissions_text() || p[k] == permission@),
        decreases permissions.len() - i,
    {
        if is_all_permissions(permissions[i].as_str()) || str_eq(permissions[i].as_str(), permission) {
            assert(p[i as int] == permissions@[i as int]@);
            return true;
        }
        assert(p[i as int] == permissions@[i as int]@);
        i += 1;
    }
    false
}

} // verus!
