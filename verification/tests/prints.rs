use std::sync::Mutex;

use vrcx_application::error::Error;
use vrcx_application::json::{JsonNumber, JsonValue};
use vrcx_application::social::prints::cleanup::{
    cleanup_event, cleanup_favorites, clamp_print_limit, existing_favorite_ids, print_cleanup_gate, favorite_limit_for_print_limit,
    distinct_ids, print_list_from_reply, print_list_items_from_json, select_prints_to_delete, CleanupWarningKind, PrintListItem,
};
use vrcx_application::social::prints::favorites::{
    ensure_print_deletable, favorite_ids_from_json, favorite_warning, plan_print_favorite,
    plan_print_favorites, set_favorite_id, set_print_favorites, PrintFavoritesStore,
};

fn s(v: &str) -> JsonValue {
    JsonValue::String(v.to_string())
}

fn num(n: i64) -> JsonValue {
    JsonValue::Number(JsonNumber {
        text: n.to_string(),
        as_i64: Some(n),
        as_u64: if n >= 0 { Some(n as u64) } else { None },
    })
}

fn obj(members: &[(&str, JsonValue)]) -> JsonValue {
    JsonValue::Object(
        members
            .iter()
            .map(|(k, v)| (k.to_string(), clone_json(v)))
            .collect(),
    )
}

fn clone_json(v: &JsonValue) -> JsonValue {
    match v {
        JsonValue::Null => JsonValue::Null,
        JsonValue::Bool(b) => JsonValue::Bool(*b),
        JsonValue::Number(n) => JsonValue::Number(n.clone()),
        JsonValue::String(x) => JsonValue::String(x.clone()),
        JsonValue::Array(a) => JsonValue::Array(a.iter().map(clone_json).collect()),
        JsonValue::Object(m) => {
            JsonValue::Object(m.iter().map(|(k, v)| (k.clone(), clone_json(v))).collect())
        }
    }
}

fn item(id: &str, created_at: &str) -> PrintListItem {
    PrintListItem {
        id: id.to_string(),
        created_at: created_at.to_string(),
    }
}

fn favorite(ids: &[&str]) -> Vec<String> {
    ids.iter().map(|id| id.to_string()).collect()
}

#[test]
fn deletes_oldest_non_favorite_prints_until_limit() {
    let prints = (0..33)
        .map(|index| {
            item(
                &format!("prnt_{index:02}"),
                &format!("2026-06-29T01:{index:02}:00Z"),
            )
        })
        .collect::<Vec<_>>();

    let selection = select_prints_to_delete(&prints, 30, &[]);

    assert_eq!(selection.to_delete, vec!["prnt_00", "prnt_01", "prnt_02"]);
    assert_eq!(selection.remaining, 30);
    assert_eq!(selection.warning, None);
}

#[test]
fn skips_favorite_prints_even_when_they_are_oldest() {
    let mut prints = vec![item("prnt_favorite", "2026-06-29T00:00:00Z")];
    prints.extend((0..32).map(|index| {
        item(
            &format!("prnt_deletable_{index:02}"),
            &format!("2026-06-29T00:{index:02}:00Z"),
        )
    }));

    let selection = select_prints_to_delete(&prints, 30, &favorite(&["prnt_favorite"]));

    assert_eq!(
        selection.to_delete,
        vec![
            "prnt_deletable_00",
            "prnt_deletable_01",
            "prnt_deletable_02"
        ]
    );
    assert_eq!(selection.remaining, 30);
    assert_eq!(selection.warning, None);
}

#[test]
fn warns_when_favorite_count_exceeds_the_favorite_limit() {
    let prints = (0..27)
        .map(|index| item(&format!("prnt_{index:02}"), "2026-06-29T00:00:00Z"))
        .collect::<Vec<_>>();
    let favorite_ids = prints.iter().map(|print| print.id.clone()).collect::<Vec<_>>();

    let selection = select_prints_to_delete(&prints, 30, &favorite_ids);

    assert!(selection.to_delete.is_empty());
    assert_eq!(selection.remaining, 27);
    assert_eq!(
        selection.warning.map(|warning| warning.kind),
        Some(CleanupWarningKind::TooManyFavorites)
    );
}

#[test]
fn clamps_print_limit_to_the_supported_range() {
    assert_eq!(clamp_print_limit(1), 30);
    assert_eq!(clamp_print_limit(45), 45);
    assert_eq!(clamp_print_limit(64), 60);
    assert_eq!(favorite_limit_for_print_limit(60), 55);
}

#[test]
fn parses_print_list_items_from_vrchat_json() {
    let items = print_list_items_from_json(&JsonValue::Array(vec![
        obj(&[("id", s("prnt_a")), ("createdAt", s("2026-06-29T00:00:00Z"))]),
        obj(&[("id", s("prnt_b")), ("timestamp", s("2026-06-29T01:00:00Z"))]),
        obj(&[("id", s("")), ("createdAt", s("2026-06-29T02:00:00Z"))]),
        obj(&[("name", s("missing id"))]),
    ]));

    assert_eq!(
        items,
        vec![
            item("prnt_a", "2026-06-29T00:00:00Z"),
            item("prnt_b", "2026-06-29T01:00:00Z")
        ]
    );
}

#[test]
fn cleanup_never_deletes_a_favorite_even_below_the_limit_of_deletables() {
    let prints = (0..40)
        .map(|index| item(&format!("prnt_{index:02}"), &format!("2026-06-29T00:{index:02}:00Z")))
        .collect::<Vec<_>>();
    let favorites = (0..35).map(|index| format!("prnt_{index:02}")).collect::<Vec<_>>();
    let selection = select_prints_to_delete(&prints, 30, &favorites);
    assert_eq!(selection.to_delete, vec!["prnt_35", "prnt_36", "prnt_37", "prnt_38", "prnt_39"]);
    assert_eq!(selection.remaining, 35);
    let warning = selection.warning.unwrap();
    assert_eq!(warning.favorites, 35);
    assert_eq!(warning.max, 25);
    assert_eq!(warning.over, 10);
}

#[test]
fn cleanup_keeps_only_listed_favorites_and_reports_counts() {
    let prints = vec![item("prnt_a", "1"), item("prnt_b", "2")];
    let stored = vec!["prnt_gone".to_string(), "prnt_b".to_string()];
    assert_eq!(existing_favorite_ids(&stored, &prints), vec!["prnt_b"]);

    let event = cleanup_event(3, 40, None);
    assert_eq!(event.deleted, 3);
    assert_eq!(event.remaining, 37);
    assert_eq!(event.warning, None);
}

struct TestFavoritesStore {
    limit: i64,
    ids: Mutex<JsonValue>,
}

impl TestFavoritesStore {
    fn new(limit: i64, ids: &[&str]) -> Self {
        Self {
            limit,
            ids: Mutex::new(JsonValue::Array(ids.iter().map(|id| s(id)).collect())),
        }
    }

    fn ids(&self) -> Vec<String> {
        favorite_ids_from_json(&self.ids.lock().expect("favorite ids lock"))
    }
}

impl PrintFavoritesStore for TestFavoritesStore {
    fn auto_delete_enabled(&self) -> Result<bool, Error> {
        Ok(true)
    }

    fn auto_delete_limit(&self) -> Result<String, Error> {
        Ok(self.limit.to_string())
    }

    fn favorite_ids(&self) -> Result<JsonValue, Error> {
        Ok(clone_json(&self.ids.lock().expect("favorite ids lock")))
    }

    fn write_favorite_ids(&self, ids: &JsonValue) -> Result<(), Error> {
        *self.ids.lock().expect("favorite ids lock") = clone_json(ids);
        Ok(())
    }
}

#[test]
fn normalizes_favorite_ids_from_json() {
    let raw = JsonValue::Array(vec![
        s(" prnt_a "),
        s(""),
        s("prnt_b"),
        s("prnt_a"),
        num(42),
        s("prnt_c"),
    ]);

    let ids = favorite_ids_from_json(&raw);

    assert_eq!(ids, vec!["prnt_a", "prnt_b", "prnt_c"]);
}

#[test]
fn caps_favorite_ids_from_json_to_the_vrchat_hard_limit() {
    let raw = JsonValue::Array((0..80).map(|index| s(&format!("prnt_{index:02}"))).collect());

    let ids = favorite_ids_from_json(&raw);

    assert_eq!(ids.len(), 64);
    assert_eq!(ids.first().map(String::as_str), Some("prnt_00"));
    assert_eq!(ids.last().map(String::as_str), Some("prnt_63"));
}

#[test]
fn toggles_favorite_ids_without_duplicates() {
    let current = vec!["prnt_a".to_string(), "prnt_b".to_string()];

    assert_eq!(
        set_favorite_id(&current, " prnt_c ", true, 3),
        vec!["prnt_a", "prnt_b", "prnt_c"]
    );
    assert_eq!(
        set_favorite_id(&current, " prnt_c ", true, 2),
        vec!["prnt_a", "prnt_b"]
    );
    assert_eq!(set_favorite_id(&current, "prnt_a", false, 2), vec!["prnt_b"]);
    assert_eq!(set_favorite_id(&current, "prnt_b", true, 2), current);
}

#[test]
fn reports_favorite_warning_from_count_and_limit() {
    assert_eq!(
        favorite_warning(26, 30).map(|warning| warning.kind),
        Some(CleanupWarningKind::TooManyFavorites)
    );
    assert_eq!(favorite_warning(25, 30), None);
}

#[test]
fn bulk_favorite_stops_at_the_favorite_limit() {
    let existing = (0..24)
        .map(|index| format!("prnt_{index:02}"))
        .collect::<Vec<_>>();
    let store =
        TestFavoritesStore::new(30, &existing.iter().map(String::as_str).collect::<Vec<_>>());

    let result = set_print_favorites(
        &store,
        &[
            "prnt_new_a".to_string(),
            "prnt_new_b".to_string(),
            "prnt_new_c".to_string(),
        ],
        true,
    )
    .expect("bulk favorite");

    assert_eq!(result.applied, 1);
    assert_eq!(result.skipped, 2);
    assert_eq!(result.state.max_favorites, 25);
    assert_eq!(result.state.favorite_ids.len(), 25);
    assert_eq!(store.ids().len(), 25);
}

#[test]
fn bulk_favorite_ignores_ids_already_in_the_requested_state() {
    let store = TestFavoritesStore::new(30, &["prnt_a", "prnt_b"]);

    let result = set_print_favorites(
        &store,
        &[" prnt_a ".to_string(), "".to_string(), "prnt_c".to_string()],
        true,
    )
    .expect("bulk favorite");

    assert_eq!(result.applied, 1);
    assert_eq!(result.skipped, 0);
    assert_eq!(result.state.favorite_ids, vec!["prnt_a", "prnt_b", "prnt_c"]);
}

#[test]
fn bulk_unfavorite_removes_every_requested_id() {
    let store = TestFavoritesStore::new(30, &["prnt_a", "prnt_b", "prnt_c"]);

    let result = set_print_favorites(&store, &["prnt_a".to_string(), "prnt_c".to_string()], false)
        .expect("bulk unfavorite");

    assert_eq!(result.applied, 2);
    assert_eq!(result.state.favorite_ids, vec!["prnt_b"]);
    assert_eq!(store.ids(), vec!["prnt_b"]);
}

#[test]
fn favorited_prints_are_not_deletable() {
    let store = TestFavoritesStore::new(30, &["prnt_a"]);

    assert!(ensure_print_deletable(&store, " prnt_a ").is_err());
    assert!(ensure_print_deletable(&store, "prnt_b").is_ok());
    assert!(ensure_print_deletable(&store, "  ").is_ok());
}

#[test]
fn cleanup_gate_skips_when_disabled_and_refuses_a_changed_scope() {
    assert!(matches!(print_cleanup_gate(false, "usr_x", "a", "usr_y", "b"), Ok(false)));
    assert!(matches!(print_cleanup_gate(true, " usr_a ", "https://api", "usr_a", "https://api"), Ok(true)));
    match print_cleanup_gate(true, "usr_b", "https://api", "usr_a", "https://api") {
        Err(Error::Custom(m)) => assert_eq!(m, "Print cleanup authentication scope changed."),
        other => panic!("unexpected {other:?}"),
    }
    assert!(print_cleanup_gate(true, "usr_a", "https://other", "usr_a", "https://api").is_err());
}

#[test]
fn favourites_of_deleted_prints_are_dropped_and_flagged_for_rewrite() {
    let prints = vec![item("prn_a", "2024-01-01"), item("prn_b", "2024-01-02")];
    let (kept, changed) = cleanup_favorites(&vec!["prn_b".to_string(), "prn_gone".to_string()], &prints);
    assert_eq!(kept, vec!["prn_b".to_string()]);
    assert!(changed);
    let (kept, changed) = cleanup_favorites(&vec!["prn_a".to_string()], &prints);
    assert_eq!(kept, vec!["prn_a".to_string()]);
    assert!(!changed);
}

#[test]
fn planned_changes_are_written_back_only_when_applied() {
    let current = vec!["prnt_a".to_string(), "prnt_b".to_string()];
    let (result, to_write) =
        plan_print_favorites(current.clone(), 30, &["prnt_a".to_string(), " ".to_string()], true);
    assert_eq!(result.applied, 0);
    assert!(to_write.is_none());
    let (result, to_write) =
        plan_print_favorites(current.clone(), 30, &["prnt_c".to_string()], true);
    assert_eq!(result.applied, 1);
    assert_eq!(to_write, Some(vec!["prnt_a".to_string(), "prnt_b".to_string(), "prnt_c".to_string()]));
    assert_eq!(result.state.max_favorites, 25);

    let (state, to_write) = plan_print_favorite(&current, 60, " prnt_a ", false);
    assert_eq!(state.favorite_ids, vec!["prnt_b".to_string()]);
    assert_eq!(to_write, state.favorite_ids);
    assert_eq!(state.max_favorites, 55);
}

#[test]
fn a_larger_limit_deletes_a_prefix_of_what_a_smaller_one_deletes() {
    let prints: Vec<PrintListItem> = (0..40)
        .map(|index| item(&format!("prn_{index:02}"), &format!("2024-01-{:02}", index % 28 + 1)))
        .collect();
    let small = select_prints_to_delete(&prints, 30, &[]);
    let large = select_prints_to_delete(&prints, 35, &[]);
    assert_eq!(small.to_delete.len(), 10);
    assert_eq!(large.to_delete.len(), 5);
    assert_eq!(large.to_delete[..], small.to_delete[..5]);
}

#[test]
fn print_list_reply_is_refused_on_a_failed_status() {
    match print_list_from_reply(503, "[]") {
        Err(Error::Custom(m)) => assert_eq!(m, "print auto cleanup list failed with HTTP 503"),
        other => panic!("unexpected {other:?}"),
    }
    match print_list_from_reply(199, "[]") {
        Err(Error::Custom(m)) => assert_eq!(m, "print auto cleanup list failed with HTTP 199"),
        other => panic!("unexpected {other:?}"),
    }
}

#[test]
fn print_list_reply_that_is_not_json_gives_the_parser_message() {
    match print_list_from_reply(200, "not json") {
        Err(Error::Custom(m)) => assert!(!m.is_empty()),
        other => panic!("unexpected {other:?}"),
    }
}

#[test]
fn print_list_reply_gives_the_listed_prints() {
    let prints = print_list_from_reply(
        200,
        r#"[{"id":" prnt_a ","createdAt":"2024-01-02"},{"id":""},{"id":"prnt_b","timestamp":"2024-01-01"}]"#,
    )
    .unwrap();
    assert_eq!(
        prints,
        vec![
            PrintListItem { id: "prnt_a".into(), created_at: "2024-01-02".into() },
            PrintListItem { id: "prnt_b".into(), created_at: "2024-01-01".into() },
        ]
    );
    assert!(print_list_from_reply(204, r#"{"id":"prnt_a"}"#).unwrap().is_empty());
}

#[test]
fn distinct_ids_keep_each_first_occurrence() {
    let ids: Vec<String> = ["b", "a", "b", "c", "a"].iter().map(|s| s.to_string()).collect();
    assert_eq!(distinct_ids(&ids), vec!["b".to_string(), "a".into(), "c".into()]);
    assert!(distinct_ids(&[]).is_empty());
}
