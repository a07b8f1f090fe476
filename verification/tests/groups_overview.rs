use vrcx_application::error::Error;
use vrcx_application::json::{JsonNumber, JsonValue};
use vrcx_application::social::groups::permissions::{
    has_permission, parse_permission_map, parse_permissions, permissions_for_group,
};
use vrcx_application::social::groups::user_groups_overview::{
    build_overview_groups, plan_user_groups_overview, user_groups_overview_output,
    UserGroupsOverviewInput, UserGroupsOverviewPlan,
};

fn s(v: &str) -> JsonValue {
    JsonValue::String(v.to_string())
}

fn num(n: i64) -> JsonValue {
    JsonValue::Number(JsonNumber { text: n.to_string(), as_i64: Some(n), as_u64: u64::try_from(n).ok() })
}

fn arr(items: &[&str]) -> JsonValue {
    JsonValue::Array(items.iter().map(|v| s(v)).collect())
}

fn obj(members: Vec<(&str, JsonValue)>) -> JsonValue {
    JsonValue::Object(members.into_iter().map(|(k, v)| (k.to_string(), v)).collect())
}

fn strings(items: &[&str]) -> Vec<String> {
    items.iter().map(|v| v.to_string()).collect()
}

#[test]
fn permissions_for_group_prefers_permission_map_over_my_member() {
    let permission_map = parse_permission_map(&obj(vec![("grp_1", arr(&["group-bans-manage"]))]));
    let group = obj(vec![
        ("id", s("grp_1")),
        ("myMember", obj(vec![("permissions", arr(&["group-members-remove"]))])),
    ]);

    assert_eq!(
        permissions_for_group(&group, &permission_map, "grp_1"),
        strings(&["group-bans-manage"])
    );
}

#[test]
fn permissions_for_group_falls_back_to_my_member_when_missing_from_map() {
    let permission_map: Vec<(String, Vec<String>)> = Vec::new();
    let group = obj(vec![
        ("id", s("grp_1")),
        ("myMember", obj(vec![("permissions", arr(&["group-members-remove"]))])),
    ]);

    assert_eq!(
        permissions_for_group(&group, &permission_map, "grp_1"),
        strings(&["group-members-remove"])
    );
}

#[test]
fn permissions_for_group_returns_empty_when_both_sources_are_missing() {
    let group = obj(vec![("id", s("grp_1"))]);
    assert!(permissions_for_group(&group, &[], "grp_1").is_empty());
}

#[test]
fn has_permission_matches_wildcard_and_exact_values() {
    assert!(has_permission(&strings(&["*"]), "group-bans-manage"));
    assert!(has_permission(&strings(&["group-bans-manage"]), "group-bans-manage"));
    assert!(!has_permission(&strings(&["group-invites-manage"]), "group-bans-manage"));
}

#[test]
fn permission_lists_skip_blank_and_non_scalar_entries() {
    let value = JsonValue::Array(vec![s(" group-bans-manage "), s("  "), JsonValue::Null, num(7)]);
    assert_eq!(parse_permissions(Some(&value)), strings(&["group-bans-manage", "7"]));
    assert!(parse_permissions(Some(&s("group-bans-manage"))).is_empty());
    assert!(parse_permissions(None).is_empty());
    assert!(parse_permission_map(&arr(&["grp_1"])).is_empty());
}

#[test]
fn builds_rows_with_permission_map_override_and_my_member_fallback() {
    let group_rows = vec![
        obj(vec![
            ("id", s("grp_1")),
            ("name", s("Alpha")),
            ("shortCode", s("ALPHA")),
            ("iconUrl", s("https://example.com/a.png")),
            ("memberCount", num(12)),
            ("myMember", obj(vec![("permissions", arr(&["group-members-remove"]))])),
        ]),
        obj(vec![
            ("id", s("grp_2")),
            ("name", s("Beta")),
            ("myMember", obj(vec![("permissions", arr(&["group-bans-manage"]))])),
        ]),
    ];
    let permission_map = parse_permission_map(&obj(vec![("grp_1", arr(&["*"]))]));

    let groups = build_overview_groups(&group_rows, &permission_map);

    assert_eq!(groups.len(), 2);
    assert_eq!(groups[0].group_id, "grp_1");
    assert_eq!(groups[0].permissions, vec!["*".to_string()]);
    assert_eq!(groups[0].short_code.as_deref(), Some("ALPHA"));
    assert_eq!(groups[0].member_count, Some(12));
    assert_eq!(groups[1].group_id, "grp_2");
    assert_eq!(groups[1].permissions, vec!["group-bans-manage".to_string()]);
    assert_eq!(groups[1].short_code, None);
    assert_eq!(groups[1].member_count, None);
}

#[test]
fn prefers_group_id_over_membership_record_id() {
    let group_rows = vec![obj(vec![
        ("id", s("gmem_11111111-1111-1111-1111-111111111111")),
        ("groupId", s("grp_1")),
        ("name", s("Alpha")),
    ])];
    let permission_map =
        parse_permission_map(&obj(vec![("grp_1", arr(&["group-bans-manage"]))]));

    let groups = build_overview_groups(&group_rows, &permission_map);

    assert_eq!(groups[0].group_id, "grp_1");
    assert_eq!(groups[0].permissions, vec!["group-bans-manage".to_string()]);
}

#[test]
fn skips_rows_without_a_group_id() {
    let group_rows = vec![obj(vec![("name", s("No id"))])];
    let groups = build_overview_groups(&group_rows, &[]);
    assert!(groups.is_empty());
}

#[test]
fn falls_back_to_group_id_when_name_is_missing() {
    let group_rows = vec![obj(vec![("id", s("grp_1"))])];
    let groups = build_overview_groups(&group_rows, &[]);
    assert_eq!(groups[0].name, "grp_1");
    assert!(groups[0].permissions.is_empty());
}

#[test]
fn overview_rows_sort_by_lowercase_name_keeping_record_order_for_ties() {
    let group_rows = vec![
        obj(vec![("id", s("grp_c")), ("name", s("charlie"))]),
        obj(vec![("id", s("grp_b1")), ("name", s("Bravo"))]),
        obj(vec![("id", s("grp_a")), ("displayName", s("alpha")), ("imageUrl", s("i.png"))]),
        obj(vec![("id", s("grp_b2")), ("name", s("bravo"))]),
    ];
    let groups = build_overview_groups(&group_rows, &[]);
    let ids: Vec<&str> = groups.iter().map(|g| g.group_id.as_str()).collect();
    assert_eq!(ids, vec!["grp_a", "grp_b1", "grp_b2", "grp_c"]);
    assert_eq!(groups[0].name, "alpha");
    assert_eq!(groups[0].icon_url.as_deref(), Some("i.png"));
}

#[test]
fn overview_plan_requires_a_user_and_skips_a_foreign_scope() {
    let blank = UserGroupsOverviewInput { current_user_id: "  ".into(), endpoint: String::new() };
    match plan_user_groups_overview(&blank, true) {
        Err(Error::Custom(m)) => assert_eq!(m, "User groups overview requires currentUserId."),
        other => panic!("unexpected {other:?}"),
    }
    let input = UserGroupsOverviewInput { current_user_id: " usr_1 ".into(), endpoint: String::new() };
    match plan_user_groups_overview(&input, false) {
        Ok(UserGroupsOverviewPlan::Done(out)) => {
            assert_eq!(out.current_user_id, "usr_1");
            assert!(out.groups.is_empty());
            assert!(!out.permissions_degraded);
        }
        other => panic!("unexpected {other:?}"),
    }
    match plan_user_groups_overview(&input, true) {
        Ok(UserGroupsOverviewPlan::Fetch { current_user_id }) => assert_eq!(current_user_id, "usr_1"),
        other => panic!("unexpected {other:?}"),
    }
}

#[test]
fn failed_permission_request_degrades_to_my_member_permissions() {
    let rows = vec![obj(vec![
        ("id", s("grp_1")),
        ("myMember", obj(vec![("permissions", arr(&["group-members-remove"]))])),
    ])];
    let degraded = user_groups_overview_output("usr_1".into(), &rows, None);
    assert!(degraded.permissions_degraded);
    assert_eq!(degraded.groups[0].permissions, strings(&["group-members-remove"]));

    let map = obj(vec![("grp_1", arr(&["*"]))]);
    let full = user_groups_overview_output("usr_1".into(), &rows, Some(&map));
    assert!(!full.permissions_degraded);
    assert_eq!(full.current_user_id, "usr_1");
    assert_eq!(full.groups[0].permissions, strings(&["*"]));
}
