use std::time::Duration;

use vrcx_application::json::{JsonNumber, JsonValue};
use vrcx_application::profile::background_image::{
    assert_selected_files_available, ensure_provider_status, file_name_from_path, files_source,
    folder_source,
    is_snapshot_fresh_at, mode_as_str, normalize_custom_source, normalize_custom_source_struct,
    normalize_mode, normalize_provider_snapshot, projection_update_is_current,
    random_custom_image_index, rotation_delay, source_hash_key, stable_hash,
    BackgroundImageCustomSource, BackgroundImageCustomSourceKind, BackgroundImageMode,
    BackgroundImageProviderId, BackgroundImageSnapshot, DEFAULT_ROTATION_INTERVAL_MINUTES,
};
use vrcx_application::profile::profile_backup::{OperationGuard, ProfileOperationGate};
use vrcx_application::profile::vrc_status::{
    has_status_issue, snapshot_from_status, summarize_components, ALL_SYSTEMS_OPERATIONAL,
    ISSUE_FALLBACK_STATUS, ISSUE_POLL_MS, OK_POLL_MS,
};

fn s(v: &str) -> JsonValue {
    JsonValue::String(v.to_string())
}

fn num(n: i64) -> JsonValue {
    JsonValue::Number(JsonNumber {
        text: n.to_string(),
        as_i64: Some(n),
        as_u64: if n >= 0 { Some(n as u64) } else { None },
    })
}

fn obj(members: Vec<(&str, JsonValue)>) -> JsonValue {
    JsonValue::Object(members.into_iter().map(|(k, v)| (k.to_string(), v)).collect())
}

fn files_custom_source(paths: &[&str]) -> BackgroundImageCustomSource {
    BackgroundImageCustomSource {
        kind: BackgroundImageCustomSourceKind::Files,
        paths: paths.iter().map(|p| p.to_string()).collect(),
        folder_path: String::new(),
        rotation_interval_minutes: DEFAULT_ROTATION_INTERVAL_MINUTES,
    }
}

fn custom_snapshot(image_path: &str) -> BackgroundImageSnapshot {
    BackgroundImageSnapshot {
        mode: BackgroundImageMode::Custom,
        provider_id: None,
        source_kind: Some(BackgroundImageCustomSourceKind::Files),
        image_url: String::new(),
        image_path: Some(image_path.into()),
        image_count: Some(3),
        title: String::new(),
        author: String::new(),
        license: String::new(),
        source: String::new(),
        resolved_at: String::new(),
        resolved_for_key: String::new(),
    }
}

#[test]
fn stable_hash_is_deterministic() {
    assert_eq!(stable_hash(""), 2166136261);
    assert_eq!(stable_hash("a"), 0xe40c292c);
    assert_eq!(stable_hash("files:C:\\img\\a.png:2026-07-30"), {
        let mut hash: u32 = 2166136261;
        for unit in "files:C:\\img\\a.png:2026-07-30".encode_utf16() {
            hash ^= unit as u32;
            hash = hash.wrapping_mul(16777619);
        }
        hash
    });
}

#[test]
fn custom_source_normalization_drops_empty_sources() {
    assert!(normalize_custom_source_struct(files_custom_source(&[])).is_none());
    assert!(normalize_custom_source_struct(BackgroundImageCustomSource {
        kind: BackgroundImageCustomSourceKind::Folder,
        paths: Vec::new(),
        folder_path: "  ".into(),
        rotation_interval_minutes: DEFAULT_ROTATION_INTERVAL_MINUTES,
    })
    .is_none());
    let normalized =
        normalize_custom_source_struct(files_custom_source(&["a.png", " a.png ", "", "b.png"]))
            .unwrap();
    assert_eq!(normalized.paths, vec!["a.png", "b.png"]);
}

#[test]
fn custom_source_wire_normalization_matches_config_shape() {
    let value = obj(vec![
        ("kind", s("folder")),
        ("paths", JsonValue::Array(vec![s("ignored.png")])),
        ("folderPath", s(" C:\\wallpapers ")),
        ("rotationIntervalMinutes", num(180)),
    ]);
    let source = normalize_custom_source(&value).unwrap();
    assert_eq!(source.kind, BackgroundImageCustomSourceKind::Folder);
    assert!(source.paths.is_empty());
    assert_eq!(source.folder_path, "C:\\wallpapers");
    assert_eq!(source.rotation_interval_minutes, 180);

    let invalid_interval = obj(vec![
        ("kind", s("folder")),
        ("folderPath", s("C:\\wallpapers")),
        ("rotationIntervalMinutes", num(1441)),
    ]);
    assert_eq!(
        normalize_custom_source(&invalid_interval)
            .unwrap()
            .rotation_interval_minutes,
        DEFAULT_ROTATION_INTERVAL_MINUTES
    );
}

#[test]
fn provider_snapshot_normalization_accepts_legacy_resolved_for_date() {
    let value = obj(vec![
        ("providerId", s("nasa-epic")),
        ("imageUrl", s("https://epic.gsfc.nasa.gov/a.jpg")),
        ("resolvedAt", s("2026-07-30T00:00:00.000Z")),
        ("resolvedForDate", s("2026-07-30")),
    ]);
    let snapshot =
        normalize_provider_snapshot(Some(&value), BackgroundImageProviderId::NasaEpic).unwrap();
    assert_eq!(snapshot.resolved_for_key, "2026-07-30");
    assert!(
        normalize_provider_snapshot(Some(&value), BackgroundImageProviderId::NasaApodSafe)
            .is_none()
    );
}

#[test]
fn snapshot_freshness_uses_24h_ttl() {
    let mut snapshot = BackgroundImageSnapshot {
        mode: BackgroundImageMode::Daily,
        provider_id: Some(BackgroundImageProviderId::NasaEpic),
        source_kind: None,
        image_url: "https://example.com/a.jpg".into(),
        image_path: None,
        image_count: None,
        title: String::new(),
        author: String::new(),
        license: String::new(),
        source: String::new(),
        resolved_at: "2026-07-30T00:00:00Z".into(),
        resolved_for_key: "2026-07-30".into(),
    };
    let resolved: i64 = 1_785_369_600_000_000_000;
    let hour: i64 = 3_600_000_000_000;
    assert!(is_snapshot_fresh_at(Some(&snapshot), resolved + 23 * hour));
    assert!(!is_snapshot_fresh_at(Some(&snapshot), resolved + 25 * hour));
    assert!(!is_snapshot_fresh_at(Some(&snapshot), resolved - hour));
    snapshot.resolved_at = String::new();
    assert!(!is_snapshot_fresh_at(Some(&snapshot), resolved));
    assert!(!is_snapshot_fresh_at(None, resolved));
}

#[test]
fn rotation_delay_uses_relative_minutes() {
    assert_eq!(rotation_delay(1), Duration::from_secs(60));
    assert_eq!(rotation_delay(180), Duration::from_secs(3 * 60 * 60));
    assert_eq!(rotation_delay(1440), Duration::from_secs(24 * 60 * 60));
}

#[test]
fn custom_image_rotation_randomly_excludes_the_current_image() {
    let source = files_custom_source(&["a.png", "b.png", "c.png"]);
    let files = source.paths.clone();
    for _ in 0..32 {
        let index = random_custom_image_index(&source, &files, Some(&custom_snapshot("B.PNG")));
        assert!(index < files.len());
        assert_ne!(index, 1);
    }
    assert!(
        random_custom_image_index(&source, &files, Some(&custom_snapshot("deleted.png")))
            < files.len()
    );
}

#[test]
fn first_custom_image_follows_the_source_hash() {
    let source = files_custom_source(&["a.png", "b.png", "c.png"]);
    let files = source.paths.clone();
    let key = source_hash_key(&source);
    assert_eq!(key, "files:a.png|b.png|c.png");
    let expected = (stable_hash(&key) as usize) % files.len();
    assert_eq!(random_custom_image_index(&source, &files, None), expected);
    assert_eq!(random_custom_image_index(&source, &files[..1].to_vec(), None), 0);
    let folder = folder_source(" C:\\pics ".into(), 5);
    assert_eq!(source_hash_key(&folder), "folder:C:\\pics");
    assert_eq!(files_source(vec![" x ".into(), "x".into()], 5).paths, vec!["x"]);
}

#[test]
fn selected_files_assertions_detect_missing_paths() {
    let source = files_custom_source(&["C:\\img\\A.png", "C:\\img\\b.png"]);
    let files = vec!["c:\\img\\a.png".to_string(), "C:\\img\\b.png".to_string()];
    assert!(assert_selected_files_available(&source, &files).is_ok());
    assert!(assert_selected_files_available(&source, &files[..1].to_vec()).is_err());
}

#[test]
fn automatic_refresh_cannot_overwrite_a_user_operation() {
    assert!(!projection_update_is_current(2, 1, 4, Some(4)));
    assert!(!projection_update_is_current(2, 2, 5, Some(4)));
    assert!(projection_update_is_current(2, 2, 4, Some(4)));
    assert!(projection_update_is_current(2, 2, 5, None));
}

#[test]
fn provider_status_and_modes_are_read_as_configured() {
    assert!(ensure_provider_status(204).is_ok());
    assert_eq!(
        ensure_provider_status(429).unwrap_err().message(),
        "Background Image provider rate limit reached."
    );
    assert_eq!(
        ensure_provider_status(503).unwrap_err().message(),
        "Failed to load Background Image provider: 503"
    );
    assert_eq!(normalize_mode(" daily "), BackgroundImageMode::Daily);
    assert_eq!(normalize_mode("custom"), BackgroundImageMode::Custom);
    assert_eq!(normalize_mode("weekly"), BackgroundImageMode::Off);
    assert_eq!(mode_as_str(BackgroundImageMode::Custom), "custom");
}

#[test]
fn summary_uses_strongest_component_indicator_and_names() {
    let issue = summarize_components(&obj(vec![(
        "components",
        JsonValue::Array(vec![
            obj(vec![("name", s("API")), ("status", s("degraded_performance"))]),
            obj(vec![("name", s("Realtime")), ("status", s("major_outage"))]),
            obj(vec![("name", s("Website")), ("status", s("operational"))]),
        ]),
    )]));

    assert_eq!(issue.indicator, "major");
    assert_eq!(issue.summary, "API, Realtime");
}

#[test]
fn operational_status_is_not_reported_as_an_issue() {
    assert!(!has_status_issue("none", ALL_SYSTEMS_OPERATIONAL));
    assert!(has_status_issue("minor", ALL_SYSTEMS_OPERATIONAL));
    assert!(has_status_issue("none", "Partial System Outage"));
}

#[test]
fn status_snapshot_reports_issues_with_the_fallback_text() {
    let status = obj(vec![
        (
            "status",
            obj(vec![("indicator", s("none")), ("description", s(ALL_SYSTEMS_OPERATIONAL))]),
        ),
        ("page", obj(vec![("updated_at", s("2026-08-28T00:00:00Z"))])),
    ]);
    let summary = obj(vec![(
        "components",
        JsonValue::Array(vec![obj(vec![("name", s("API")), ("status", s("partial_outage"))])]),
    )]);
    let snapshot = snapshot_from_status(&status, Some(&summary), "now".into());
    assert_eq!(snapshot.status, ISSUE_FALLBACK_STATUS);
    assert_eq!(snapshot.indicator, "minor");
    assert_eq!(snapshot.summary, "API");
    assert_eq!(snapshot.updated_at.as_deref(), Some("2026-08-28T00:00:00Z"));
    assert_eq!(snapshot.polling_interval_ms, ISSUE_POLL_MS);

    let quiet = snapshot_from_status(&status, None, "now".into());
    assert_eq!(quiet.status, "");
    assert_eq!(quiet.polling_interval_ms, OK_POLL_MS);
}

#[test]
fn operation_gate_admits_one_operation_at_a_time() {
    let gate = ProfileOperationGate::new();
    assert!(!gate.is_acquired());
    let guard = OperationGuard::try_acquire(&gate).expect("first operation");
    assert!(gate.is_acquired());
    assert!(OperationGuard::try_acquire(&gate).is_none());
    drop(guard);
    assert!(!gate.is_acquired());
    assert!(OperationGuard::try_acquire(&gate).is_some());
}

#[test]
fn file_names_split_at_either_separator() {
    assert_eq!(file_name_from_path("C:\\img\\a.png"), "a.png");
    assert_eq!(file_name_from_path("/home/u/b.jpg"), "b.jpg");
    assert_eq!(file_name_from_path("dir/sub/"), "sub");
    assert_eq!(file_name_from_path("dir/./c.png/."), "c.png");
    assert_eq!(file_name_from_path("dir/.."), "dir/..");
    assert_eq!(file_name_from_path("C:"), "C:");
    assert_eq!(file_name_from_path("C:\\"), "C:\\");
    assert_eq!(file_name_from_path(""), "");
    assert_eq!(file_name_from_path("plain"), "plain");
}
