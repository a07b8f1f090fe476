use vrcx_application::json::JsonValue;
use vrcx_application::system::community_theme::{
    build_install_record, check_override_size, ConfigureOperations, delete_target, enable_target,
    ensure_configure_operation, find_record, merge_install_record, override_enabled,
    projection_from_state, remove_theme, CommunityThemeInstallMetadata,
    CommunityThemeInstalledRecord, CommunityThemeManifest, CommunityThemeProjection,
    invalid_theme_id_error, KEY_OVERRIDE_CSS, KEY_OVERRIDE_ENABLED,
};
use vrcx_application::system::community_theme_store::{
    install_state_mutations, plan_theme_install, override_state_mutations, settle_persisted_state,
    stored_install_metadata, stored_install_records, ConfigMutation, StoredThemeRecord,
    StoredThemeState,
};
use vrcx_application::system::database_upgrade::{
    before_upgrade_failure, failed_run_result, failure_telemetry, preflight_decision, step_failure, success_result, upgrade_steps, DatabaseMaintenanceTask,
    DatabaseUpgradeRunStatus, DatabaseUpgradeStatus, PreflightDecision, UpgradeAction,
    UpgradeFailure, classify_preflight, failure_message, maintenance_operation, needs_legacy_migration,
    newer_schema_message, stage_label, DatabaseUpgradePreflightStatus, DatabaseUpgradeProgress,
    DatabaseUpgradeStage, PreviewStatus,
};

fn record(id: &str, css: &str) -> CommunityThemeInstalledRecord {
    CommunityThemeInstalledRecord {
        metadata: CommunityThemeInstallMetadata {
            theme_id: id.into(),
            theme_name: id.into(),
            version: "1".into(),
            source_url: String::new(),
            sha256: String::new(),
            installed_at: String::new(),
            updated_at: String::new(),
            dark_mode: true,
            accent_mode: false,
        },
        css_snapshot: css.into(),
    }
}

#[test]
fn preflight_classifies_schema_versions() {
    assert_eq!(
        classify_preflight(20, 18, PreviewStatus::Current, 5, 5),
        (DatabaseUpgradePreflightStatus::NewerSchema, 20, 18)
    );
    assert_eq!(
        classify_preflight(18, 18, PreviewStatus::NewerSchema, 9, 7),
        (DatabaseUpgradePreflightStatus::NewerSchema, 9, 7)
    );
    assert_eq!(
        classify_preflight(17, 18, PreviewStatus::Current, 5, 5),
        (DatabaseUpgradePreflightStatus::UpgradeRequired, 5, 5)
    );
    assert_eq!(
        classify_preflight(18, 18, PreviewStatus::Pending, 4, 5),
        (DatabaseUpgradePreflightStatus::UpgradeRequired, 4, 5)
    );
    assert_eq!(
        classify_preflight(18, 18, PreviewStatus::Current, 5, 5),
        (DatabaseUpgradePreflightStatus::Current, 5, 5)
    );
}

#[test]
fn upgrade_messages_and_labels_match_the_wire_names() {
    assert_eq!(stage_label(DatabaseUpgradeStage::CreateWorkCopy), "createWorkCopy");
    assert_eq!(stage_label(DatabaseUpgradeStage::Commit), "commit");
    assert_eq!(
        newer_schema_message(20, -1),
        "Database version 20 is newer than this application supports (-1)."
    );
    assert_eq!(
        failure_message("boom", Some("disk"), None),
        "boom Failed to preserve the database upgrade work copy: disk"
    );
    assert_eq!(maintenance_operation("Optimize"), "database_maintenance_run:Optimize");
    assert!(needs_legacy_migration(15));
    assert!(!needs_legacy_migration(16));
    assert_eq!(
        DatabaseUpgradeProgress::determinate(DatabaseUpgradeStage::CreateWorkCopy, 1, 2).total_units,
        Some(2)
    );
    assert_eq!(
        DatabaseUpgradeProgress::indeterminate(DatabaseUpgradeStage::Optimize).completed_units,
        None
    );
}

#[test]
fn install_disable_enable_and_delete_preserve_theme_lifecycle() {
    let mut records = vec![record("a", "x"), record("b", "y")];
    merge_install_record(&mut records, record("a", "z"));
    assert_eq!(records.len(), 2);
    assert_eq!(records[0].css_snapshot, "z");
    merge_install_record(&mut records, record("c", "w"));
    assert_eq!(records.len(), 3);

    assert_eq!(enable_target(Some(" b "), Some("a"), Some("c")).as_deref(), Some("b"));
    assert_eq!(enable_target(Some("  "), None, Some("c")).as_deref(), Some("c"));
    assert_eq!(enable_target(None, None, None), None);
    assert_eq!(delete_target(None, Some("a")).as_deref(), Some("a"));

    let records = remove_theme(records, "a");
    assert_eq!(records.len(), 2);
    assert_eq!(records[0].metadata.theme_id, "b");

    let projection = projection_from_state("https://catalog", &records, Some(&records[1]), "", false);
    assert!(projection.enabled);
    assert_eq!(projection.installed_css_snapshot, "w");
    assert_eq!(projection.installed_themes.len(), 2);
}

#[test]
fn override_css_persists_while_its_enabled_state_can_be_disabled() {
    let css = ":root { --accent: red; }";
    let mut settings: Vec<(String, String)> = Vec::new();

    // SetOverride: the stylesheet is written with its switch on.
    assert!(check_override_size(css.len(), 512 * 1024).is_ok());
    let set = override_state_mutations(css, override_enabled(css, None));
    apply_mutations(&mut settings, &set);
    let configured = override_projection(&settings);
    assert_eq!(configured.override_css, css);
    assert!(configured.override_css_enabled);

    // DisableOverride: only the switch is written, off.
    let off = override_state_mutations(css, false);
    apply_mutations(&mut settings, &off[1..]);
    let disabled = override_projection(&settings);
    assert_eq!(disabled.override_css, css);
    assert!(!disabled.override_css_enabled);

    // Initialising again reads the same settings back.
    let initialized = override_projection(&settings);
    assert_eq!(initialized.override_css, css);
    assert!(!initialized.override_css_enabled);
}

fn apply_mutations(settings: &mut Vec<(String, String)>, mutations: &[ConfigMutation]) {
    for mutation in mutations {
        match mutation {
            ConfigMutation::SetValue { key, value } => {
                settings.retain(|(k, _)| k != key);
                settings.push((key.clone(), value.clone()));
            }
            ConfigMutation::Remove { key } => settings.retain(|(k, _)| k != key),
        }
    }
}

fn setting(settings: &[(String, String)], key: &str) -> Option<String> {
    settings.iter().find(|(k, _)| k == key).map(|(_, v)| v.clone())
}

fn override_projection(settings: &[(String, String)]) -> CommunityThemeProjection {
    let override_css = setting(settings, KEY_OVERRIDE_CSS).unwrap_or_default();
    let state = settle_persisted_state(StoredThemeState {
        enabled: false,
        active_theme_id: String::new(),
        legacy_metadata: None,
        legacy_id_valid: false,
        legacy_current: false,
        legacy_css_snapshot: String::new(),
        records: Vec::new(),
        override_switch: if override_css.trim().is_empty() {
            None
        } else {
            setting(settings, KEY_OVERRIDE_ENABLED)
        },
        override_css,
    });
    projection_from_state(
        "https://catalog",
        &state.records,
        state.active_record.as_ref(),
        &state.override_css,
        state.override_css_enabled,
    )
}

#[test]
fn install_record_hashes_the_stylesheet_and_keeps_the_first_install_date() {
    let manifest = CommunityThemeManifest {
        id: "theme".into(),
        name: "Theme".into(),
        version: "2.0.0".into(),
        dark_mode: false,
        accent_mode: true,
    };
    let fresh = build_install_record(manifest.clone(), "https://cdn/theme.css".into(), String::new(), None, "2024-02-01T00:00:00Z".into());
    assert_eq!(
        fresh.metadata.sha256,
        "e3b0c44298fc1c149afbf4c8996fb92427ae41e4649b934ca495991b7852b855"
    );
    assert_eq!(fresh.metadata.installed_at, "2024-02-01T00:00:00Z");
    assert_eq!(fresh.metadata.updated_at, "2024-02-01T00:00:00Z");
    assert!(fresh.metadata.accent_mode && !fresh.metadata.dark_mode);

    let mut earlier = record("theme", "old");
    earlier.metadata.installed_at = "2023-01-01T00:00:00Z".into();
    let records = vec![record("other", "x"), earlier];
    let previous = find_record(&records, "theme");
    assert!(find_record(&records, "missing").is_none());
    let again = build_install_record(manifest, "https://cdn/theme.css".into(), "abc".into(), previous, "2024-03-01T00:00:00Z".into());
    assert_eq!(again.metadata.installed_at, "2023-01-01T00:00:00Z");
    assert_eq!(again.metadata.updated_at, "2024-03-01T00:00:00Z");
    assert_eq!(
        again.metadata.sha256,
        "ba7816bf8f01cfea414140de5dae2223b00361a396177a9cb410ff61f20015ad"
    );
    assert_eq!(again.css_snapshot, "abc");
}

#[test]
fn deleting_a_theme_removes_every_record_of_it() {
    let records = vec![record("a", "1"), record("b", "2"), record("a", "3")];
    let left = remove_theme(records, "a");
    assert_eq!(left.len(), 1);
    assert_eq!(left[0].metadata.theme_id, "b");
}

fn js(v: &str) -> JsonValue {
    JsonValue::String(v.to_string())
}

fn jobj(members: Vec<(&str, JsonValue)>) -> JsonValue {
    JsonValue::Object(members.into_iter().map(|(k, v)| (k.to_string(), v)).collect())
}

fn stored(id: &str, css: &str) -> JsonValue {
    jobj(vec![
        ("themeId", js(id)),
        ("themeName", js(" Name ")),
        ("version", js("1.0.0")),
        ("sourceUrl", js("https://cdn/x.css")),
        ("cssSnapshot", js(css)),
        ("accentMode", js("app")),
    ])
}

#[test]
fn stored_installs_need_an_id_a_name_a_version_and_a_stylesheet() {
    let value = JsonValue::Array(vec![
        stored("a", ":root{}"),
        stored("b", "   "),
        jobj(vec![("themeId", js("c")), ("version", js("1")), ("cssSnapshot", js("x"))]),
        js("not an object"),
        stored("d", "body{}"),
    ]);
    let records = stored_install_records(&value);
    let ids: Vec<&str> = records.iter().map(|r| r.metadata.theme_id.as_str()).collect();
    assert_eq!(ids, vec!["a", "d"]);
    assert_eq!(records[0].metadata.theme_name, "Name");
    assert!(records[0].metadata.dark_mode);
    assert!(records[0].metadata.accent_mode);
    assert!(stored_install_records(&js("[]")).is_empty());

    let dark_off = jobj(vec![
        ("themeId", js("a")),
        ("themeName", js("A")),
        ("version", JsonValue::Number(vrcx_application::json::JsonNumber { text: "2".into(), as_i64: Some(2), as_u64: Some(2) })),
        ("darkMode", JsonValue::Bool(false)),
        ("accentMode", JsonValue::Bool(false)),
    ]);
    let metadata = stored_install_metadata(&dark_off).unwrap();
    assert_eq!(metadata.version, "2");
    assert!(!metadata.dark_mode);
    assert!(!metadata.accent_mode);
}

fn flagged(id: &str, css: &str, id_valid: bool, current: bool) -> StoredThemeRecord {
    StoredThemeRecord { record: record(id, css), id_valid, current }
}

#[test]
fn stored_state_merges_the_legacy_install_and_drops_retired_and_stale_records() {
    let state = settle_persisted_state(StoredThemeState {
        enabled: true,
        active_theme_id: "missing".into(),
        legacy_metadata: Some(record("b", "").metadata),
        legacy_id_valid: true,
        legacy_current: true,
        legacy_css_snapshot: "legacy-css".into(),
        records: vec![
            flagged("a", "1", true, true),
            flagged("b", "2", true, false),
            flagged("bad", "3", false, true),
            flagged("nasa-apod-wallpaper", "4", true, true),
            flagged("stale", "5", true, false),
        ],
        override_css: " :root{} ".into(),
        override_switch: Some(" TRUE ".into()),
    });
    let ids: Vec<&str> = state.records.iter().map(|r| r.metadata.theme_id.as_str()).collect();
    assert_eq!(ids, vec!["a", "b"]);
    assert_eq!(state.records[1].css_snapshot, "legacy-css");
    let active = state.active_record.unwrap();
    assert_eq!(active.metadata.theme_id, "b");
    assert!(state.override_css_enabled);
    assert!(!state.legacy_apod_was_active);

    let retired = settle_persisted_state(StoredThemeState {
        enabled: true,
        active_theme_id: "nasa-apod-wallpaper".into(),
        legacy_metadata: None,
        legacy_id_valid: false,
        legacy_current: false,
        legacy_css_snapshot: String::new(),
        records: vec![flagged("nasa-apod-wallpaper", "4", true, true)],
        override_css: String::new(),
        override_switch: None,
    });
    assert!(retired.records.is_empty());
    assert!(retired.active_record.is_none());
    assert!(retired.legacy_apod_was_active);
    assert!(!retired.override_css_enabled);

    let disabled = settle_persisted_state(StoredThemeState {
        enabled: false,
        active_theme_id: "a".into(),
        legacy_metadata: None,
        legacy_id_valid: true,
        legacy_current: true,
        legacy_css_snapshot: String::new(),
        records: vec![flagged("a", "1", true, true)],
        override_css: "x".into(),
        override_switch: Some("off".into()),
    });
    assert_eq!(disabled.records.len(), 1);
    assert!(disabled.active_record.is_none());
    assert!(!disabled.override_css_enabled);
}

#[test]
fn state_mutations_write_or_clear_the_active_theme_keys() {
    let active = record("a", "css");
    let on = install_state_mutations(&[active.clone()], "[...]".into(), Some(&active), "{...}".into());
    assert_eq!(
        on,
        vec![
            ConfigMutation::SetValue { key: "VRCX_communityThemeEnabled".into(), value: "true".into() },
            ConfigMutation::SetValue { key: "VRCX_communityThemeInstalledThemes".into(), value: "[...]".into() },
            ConfigMutation::SetValue { key: "VRCX_communityThemeId".into(), value: "a".into() },
            ConfigMutation::SetValue { key: "VRCX_communityThemeVersion".into(), value: "1".into() },
            ConfigMutation::SetValue { key: "VRCX_communityThemeCssSnapshot".into(), value: "css".into() },
            ConfigMutation::SetValue { key: "VRCX_communityThemeInstallMetadata".into(), value: "{...}".into() },
        ]
    );
    let off = install_state_mutations(&[], String::new(), None, String::new());
    assert_eq!(off[0], ConfigMutation::SetValue { key: "VRCX_communityThemeEnabled".into(), value: "false".into() });
    assert_eq!(off[1], ConfigMutation::Remove { key: "VRCX_communityThemeInstalledThemes".into() });
    assert_eq!(off[5], ConfigMutation::Remove { key: "VRCX_communityThemeInstallMetadata".into() });
    assert_eq!(
        override_state_mutations("body{}", false),
        vec![
            ConfigMutation::SetValue { key: "VRCX_communityThemeOverrideCss".into(), value: "body{}".into() },
            ConfigMutation::SetValue { key: "VRCX_communityThemeOverrideEnabled".into(), value: "false".into() },
        ]
    );
}

#[test]
fn preflight_decides_whether_the_runner_upgrades() {
    let blocked = DatabaseUpgradeStatus {
        from_version: 14,
        to_version: 17,
        reason: Some("disk full".into()),
        app_version: None,
    };
    match preflight_decision(DatabaseUpgradePreflightStatus::Blocked, 0, 0, Some(blocked)) {
        PreflightDecision::Finish(result) => {
            assert_eq!(result.status, DatabaseUpgradeRunStatus::Blocked);
            assert_eq!((result.from_version, result.to_version), (14, 17));
            assert_eq!(result.error.as_deref(), Some("disk full"));
            assert!(result.failed_upgrade.is_some());
        }
        other => panic!("unexpected {other:?}"),
    }
    match preflight_decision(DatabaseUpgradePreflightStatus::Blocked, 0, 0, None) {
        PreflightDecision::Fail(message) => {
            assert_eq!(message, "Blocked database upgrade has no failure status.")
        }
        other => panic!("unexpected {other:?}"),
    }
    match preflight_decision(DatabaseUpgradePreflightStatus::NewerSchema, 20, 17, None) {
        PreflightDecision::Finish(result) => {
            assert_eq!(result.status, DatabaseUpgradeRunStatus::NewerSchema);
            assert_eq!(
                result.error.as_deref(),
                Some("Database version 20 is newer than this application supports (17).")
            );
        }
        other => panic!("unexpected {other:?}"),
    }
    assert!(matches!(
        preflight_decision(DatabaseUpgradePreflightStatus::Current, 17, 17, None),
        PreflightDecision::EnsureSchema
    ));
    assert!(matches!(
        preflight_decision(DatabaseUpgradePreflightStatus::UpgradeRequired, 15, 17, None),
        PreflightDecision::Upgrade
    ));
    match preflight_decision(DatabaseUpgradePreflightStatus::Running, 15, 17, None) {
        PreflightDecision::Fail(message) => assert_eq!(
            message,
            "Runtime-only database upgrade state reached the static runner."
        ),
        other => panic!("unexpected {other:?}"),
    }
}

#[test]
fn legacy_databases_run_the_legacy_tasks_before_the_indexes() {
    let legacy = upgrade_steps(15);
    assert_eq!(legacy.len(), 21);
    assert_eq!(legacy[0].action, UpgradeAction::BeginWorkCopy);
    assert_eq!(legacy[1].action, UpgradeAction::EnsureSchema);
    assert_eq!(
        legacy[2].action,
        UpgradeAction::RequiredTask(DatabaseMaintenanceTask::CleanLegendFromFriendLog)
    );
    assert_eq!(legacy[2].stage, DatabaseUpgradeStage::LegacySchemaMigration);
    assert!(legacy[2].reports);
    assert!(!legacy[3].reports);
    assert_eq!(
        legacy[13].action,
        UpgradeAction::RequiredTask(DatabaseMaintenanceTask::UpdateTableForAvatarHistory)
    );
    assert_eq!(legacy[20].action, UpgradeAction::Commit);

    let modern = upgrade_steps(16);
    let stages: Vec<DatabaseUpgradeStage> = modern.iter().map(|s| s.stage).collect();
    assert_eq!(
        stages,
        vec![
            DatabaseUpgradeStage::CreateWorkCopy,
            DatabaseUpgradeStage::InitializeSchema,
            DatabaseUpgradeStage::LegacyPerformanceIndexes,
            DatabaseUpgradeStage::GlobalPerformanceIndexes,
            DatabaseUpgradeStage::NotificationPerformanceIndexes,
            DatabaseUpgradeStage::SchemaMigrations,
            DatabaseUpgradeStage::Optimize,
            DatabaseUpgradeStage::WriteVersion,
            DatabaseUpgradeStage::Commit,
        ]
    );
    assert_eq!(
        modern[6].action,
        UpgradeAction::OptionalTask(DatabaseMaintenanceTask::Optimize)
    );
}

#[test]
fn failed_runs_report_the_stage_and_every_recovery_problem() {
    let failure = UpgradeFailure {
        from_version: 15,
        stage: DatabaseUpgradeStage::SchemaMigrations,
        operation: "run_schema_migrations".into(),
        error: "boom".into(),
        upgrade_started: true,
    };
    let result = failed_run_result(&failure, Some("locked"), Err("gone".into()), 17);
    assert_eq!(result.status, DatabaseUpgradeRunStatus::Failed);
    assert_eq!(result.failed_stage, Some(DatabaseUpgradeStage::SchemaMigrations));
    assert_eq!(result.to_version, 17);
    assert_eq!(
        result.error.as_deref(),
        Some("boom Failed to preserve the database upgrade work copy: locked Failed to read database upgrade status: gone")
    );
    assert!(result.failed_upgrade.is_none());

    let plain = failed_run_result(&failure, None, Ok(None), 17);
    assert_eq!(plain.error.as_deref(), Some("boom"));

    let ok = success_result(DatabaseUpgradeRunStatus::Upgraded, 15, 17);
    assert_eq!((ok.from_version, ok.to_version), (15, 17));
    assert!(ok.error.is_none());
}

#[test]
fn step_failures_keep_the_work_copy_once_it_exists_and_ignore_optimize() {
    let steps = upgrade_steps(16);
    let begin = step_failure(steps[0], 15, "begin_upgrade_with_progress", "x").unwrap();
    assert!(!begin.upgrade_started);
    assert_eq!(begin.stage, DatabaseUpgradeStage::CreateWorkCopy);
    let schema = step_failure(steps[5], 15, "run_schema_migrations", "boom").unwrap();
    assert!(schema.upgrade_started);
    assert_eq!(schema.stage, DatabaseUpgradeStage::SchemaMigrations);
    assert_eq!(schema.error, "boom");
    assert!(step_failure(steps[6], 15, "database_maintenance_run:optimize", "x").is_none());
    let pre = before_upgrade_failure(DatabaseUpgradeStage::Preflight, 0, "database_upgrade_preflight", "e");
    assert!(!pre.upgrade_started);
}

#[test]
fn failure_telemetry_prefers_the_kept_upgrade_once_started() {
    let kept = DatabaseUpgradeStatus {
        from_version: 12,
        to_version: 17,
        reason: None,
        app_version: Some("1.2.3".into()),
    };
    let started = step_failure(upgrade_steps(16)[1], 15, "ensure_required_database_schema", "e").unwrap();
    assert_eq!(
        failure_telemetry(&started, Some(&kept), "9.9.9", 18),
        ("1.2.3".to_string(), 12, 17)
    );
    let blank = DatabaseUpgradeStatus { app_version: Some(String::new()), ..kept.clone() };
    assert_eq!(failure_telemetry(&started, Some(&blank), "9.9.9", 18).0, "9.9.9");
    let early = before_upgrade_failure(DatabaseUpgradeStage::Preflight, 15, "p", "e");
    assert_eq!(failure_telemetry(&early, Some(&kept), "9.9.9", 18), ("9.9.9".to_string(), 15, 18));
}

#[test]
fn late_install_cannot_reverse_a_newer_disable_request() {
    let mut operations = ConfigureOperations::default();
    let install = operations.begin();
    assert!(operations.ensure(install).is_ok());
    let disable = operations.begin();
    match operations.ensure(install) {
        Err(vrcx_application::error::Error::Custom(m)) => assert!(m.contains("superseded")),
        other => panic!("unexpected {other:?}"),
    }
    assert!(operations.ensure(disable).is_ok());
    let mut edge = ConfigureOperations { generation: u64::MAX };
    assert_eq!(edge.begin(), u64::MAX);
    assert_eq!(edge.generation, 0);
}

#[test]
fn override_switch_reads_true_in_several_forms() {
    assert!(override_enabled(":root { --accent: red; }", None));
    assert!(override_enabled(":root {}", Some(" TRUE ")));
    assert!(override_enabled(":root {}", Some("\"true\"")));
    assert!(override_enabled(":root {}", Some("1")));
    assert!(!override_enabled(":root {}", Some("false")));
    assert!(!override_enabled("   ", Some("true")));
    assert!(check_override_size(10, 5).is_err());
    assert!(check_override_size(5, 5).is_ok());
}

#[test]
fn configure_operation_goes_on_only_as_the_newest() {
    assert!(ensure_configure_operation(3, 2).is_err());
    assert!(ensure_configure_operation(3, 3).is_ok());
}

fn theme_manifest() -> CommunityThemeManifest {
    CommunityThemeManifest {
        id: "delayed-theme".into(),
        name: "Delayed".into(),
        version: "3.1.0".into(),
        dark_mode: true,
        accent_mode: true,
    }
}

#[test]
fn superseded_install_builds_nothing_and_the_newest_install_merges() {
    let mut operations = ConfigureOperations::default();
    let install = operations.begin();
    let disable = operations.begin();
    let mut earlier = record("delayed-theme", "old");
    earlier.metadata.installed_at = "2023-05-01T00:00:00Z".into();
    let records = vec![record("first", "a"), earlier];

    match plan_theme_install(
        &operations,
        install,
        records.clone(),
        "delayed-theme",
        theme_manifest(),
        "https://cdn/delayed-theme/theme.css".into(),
        "body {}".into(),
        "2024-06-01T00:00:00Z".into(),
    ) {
        Err(vrcx_application::error::Error::Custom(m)) => {
            assert_eq!(m, "Community theme operation was superseded by a newer request.")
        }
        Err(other) => panic!("unexpected {other:?}"),
        Ok(_) => panic!("a superseded install went on"),
    }

    let plan = match plan_theme_install(
        &operations,
        disable,
        records,
        "delayed-theme",
        theme_manifest(),
        "https://cdn/delayed-theme/theme.css".into(),
        "body {}".into(),
        "2024-06-01T00:00:00Z".into(),
    ) {
        Ok(plan) => plan,
        Err(error) => panic!("unexpected {error:?}"),
    };
    assert_eq!(plan.records.len(), 2);
    assert_eq!(plan.records[0].metadata.theme_id, "first");
    assert_eq!(plan.records[1].metadata.theme_id, "delayed-theme");
    assert_eq!(plan.records[1].css_snapshot, "body {}");
    assert_eq!(plan.active_record.metadata.installed_at, "2023-05-01T00:00:00Z");
    assert_eq!(plan.active_record.metadata.updated_at, "2024-06-01T00:00:00Z");
    assert_eq!(plan.active_record.metadata.version, "3.1.0");
    assert_eq!(plan.active_record.metadata.source_url, "https://cdn/delayed-theme/theme.css");
}

#[test]
fn invalid_theme_id_is_named_in_the_error() {
    match invalid_theme_id_error("bad id") {
        vrcx_application::error::Error::Custom(m) => {
            assert_eq!(m, "Invalid community theme id: bad id.")
        }
        other => panic!("unexpected {other:?}"),
    }
}

#[test]
fn json_document_is_read_or_refused_with_the_parser_message() {
    match vrcx_application::json::parse_json_document(r#"{"a":[1,"x"]}"#) {
        Ok(JsonValue::Object(members)) => {
            assert_eq!(members.len(), 1);
            assert_eq!(members[0].0, "a");
        }
        other => panic!("unexpected {other:?}"),
    }
    assert!(vrcx_application::json::parse_json_document("{").is_err());
}
