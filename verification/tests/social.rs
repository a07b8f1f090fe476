use vrcx_application::social::social_baseline_refresh::baseline_outcome;
use vrcx_application::error::Error;
use vrcx_application::json::{JsonNumber, JsonValue};
use vrcx_application::social::group_calendar::{
    collect_group_ids, embedded_group_profile_rows, event_id, following_event_ids, group_name,
    require_calendar_date, CalendarPager, GroupCalendarPage,
};
use vrcx_application::social::groups::group_ban_import::{
    prepare_group_ban_import, GroupBanImportStartInput,
};
use vrcx_application::social::groups::membership_batch::{
    check_batch_scope, prepare_input, GroupMembershipBatchAction, GroupMembershipBatchCoordinator,
    GroupMembershipBatchInput, GroupMembershipBatchItemState, GroupMembershipBatchRun,
    GroupMembershipOperation, GroupMembershipRemoteOutcome, SCOPE_CHANGED_MESSAGE,
};
use vrcx_application::social::groups::types::GroupMemberVisibility;
use vrcx_application::social::moderation_sync::service::{
    check_update_input, local_after_update, normalize_remote_moderation_rows,
    refresh_without_user, resolve_local_moderation_state, LocalPlayerModerationKind,
};
use vrcx_application::social::moderation_sync::types::{
    LocalModerationOutput, ModerationMutationType, ModerationSyncMutationInput,
};
use vrcx_application::social::mutual_graph_fetch::request::{
    backoff_delay_ms, fetch_should_cancel, is_retryable_status, mutual_id_from_value,
    normalize_friend_ids, page_cancel_check, page_step, preserve_failed_friend_cache,
    rate_limit_wait_ms, resolve_fetch_scope,
    list_user_id, refresh_friend_id, FriendFetchResult, FriendMutualsPager, FriendMutualsStep,
    PageFetchResult, PageResponse,
    PageStep,
};
use vrcx_application::social::mutual_graph_fetch::types::{
    MutualGraphFetchState, MutualGraphLinkOutput, MutualGraphMetaInput, MutualGraphMetaOutput,
    MutualGraphSnapshotEntryInput, MutualGraphSnapshotOutput,
};
use vrcx_application::social::note_export::{
    note_export_run_id, note_save_response_error, prepare_note_export, NoteExportItemInput, NoteExportItemState,
    NoteExportRun, NoteExportRuntimeInner, NoteExportStartInput, NoteExportState,
    NoteExportStatus,
};
use vrcx_application::social::social_mutation::{
    is_not_found_error, validate_vrchat_mutation_response,
};
use vrcx_application::social::user_dialog_tab_counts::{
    avatar_provider_key, counts_from_results, default_avatar_release_status,
    normalize_avatar_provider, selected_avatar_provider, AvatarProviderConfig, AvatarReleaseStatus,
    BoundedPageCounter, UserDialogCountPage, UserDialogTabCountsOutput, DEFAULT_AVATAR_PROVIDER,
};

fn s(v: &str) -> JsonValue {
    JsonValue::String(v.to_string())
}

fn obj(members: Vec<(&str, JsonValue)>) -> JsonValue {
    JsonValue::Object(members.into_iter().map(|(k, v)| (k.to_string(), v)).collect())
}

fn batch_input(action: GroupMembershipBatchAction, group_ids: &[&str]) -> GroupMembershipBatchInput {
    GroupMembershipBatchInput {
        expected_owner_user_id: "usr_self".into(),
        expected_endpoint: String::new(),
        action,
        group_ids: group_ids.iter().map(|value| (*value).to_string()).collect(),
    }
}

fn run_batch(
    action: GroupMembershipBatchAction,
    group_ids: &[&str],
    mut outcomes: Vec<Result<GroupMembershipRemoteOutcome, String>>,
    calls: &mut Vec<String>,
    progress: &mut Vec<(u32, u32)>,
) -> vrcx_application::social::groups::membership_batch::GroupMembershipBatchResult {
    let prepared = prepare_input(batch_input(action, group_ids)).unwrap();
    let mut run = GroupMembershipBatchRun::start("usr_self", "", prepared);
    outcomes.reverse();
    while let Some(operation) = run.next_operation() {
        calls.push(match operation {
            GroupMembershipOperation::Leave { group_id } => format!("leave:{group_id}"),
            GroupMembershipOperation::SetVisibility { group_id, user_id, visibility } => {
                format!("visibility:{group_id}:{user_id}:{visibility:?}")
            }
        });
        let outcome = outcomes.pop().unwrap_or(Ok(GroupMembershipRemoteOutcome::Applied));
        let p = run.record(outcome);
        progress.push((p.completed, p.total));
    }
    let (last, result) = run.finish();
    if let Some(p) = last {
        progress.push((p.completed, p.total));
    }
    result
}

#[test]
fn leave_batch_continues_after_item_failure_without_rollback() {
    let mut calls = Vec::new();
    let mut progress = Vec::new();
    let result = run_batch(
        GroupMembershipBatchAction::Leave,
        &["grp_a", "grp_b", "grp_c"],
        vec![
            Ok(GroupMembershipRemoteOutcome::Applied),
            Err("denied".into()),
            Ok(GroupMembershipRemoteOutcome::Applied),
        ],
        &mut calls,
        &mut progress,
    );

    assert_eq!(result.succeeded, 2);
    assert_eq!(result.failed, 1);
    assert_eq!(
        result.items.iter().map(|item| item.state).collect::<Vec<_>>(),
        vec![
            GroupMembershipBatchItemState::Applied,
            GroupMembershipBatchItemState::Failed,
            GroupMembershipBatchItemState::Applied,
        ]
    );
    assert_eq!(calls, vec!["leave:grp_a", "leave:grp_b", "leave:grp_c"]);
    assert_eq!(progress, vec![(1, 3), (2, 3), (3, 3)]);
    assert_eq!(result.last_error.as_deref(), Some("denied"));
}

#[test]
fn visibility_batch_targets_the_authenticated_member() {
    let mut calls = Vec::new();
    let mut progress = Vec::new();
    let result = run_batch(
        GroupMembershipBatchAction::SetVisibility {
            visibility: GroupMemberVisibility::Hidden,
        },
        &["grp_a", "grp_b"],
        Vec::new(),
        &mut calls,
        &mut progress,
    );

    assert_eq!(result.succeeded, 2);
    assert_eq!(
        calls,
        vec![
            "visibility:grp_a:usr_self:Hidden",
            "visibility:grp_b:usr_self:Hidden"
        ]
    );
}

#[test]
fn scope_change_stops_the_batch_and_marks_remaining_groups() {
    let mut calls = Vec::new();
    let mut progress = Vec::new();
    let result = run_batch(
        GroupMembershipBatchAction::Leave,
        &["grp_a", "grp_b", "grp_c"],
        vec![
            Ok(GroupMembershipRemoteOutcome::Applied),
            Ok(GroupMembershipRemoteOutcome::AppliedScopeChanged),
        ],
        &mut calls,
        &mut progress,
    );

    assert_eq!(calls.len(), 2);
    assert_eq!(result.succeeded, 2);
    assert_eq!(result.items[2].state, GroupMembershipBatchItemState::NotAttempted);
    assert_eq!(result.items[2].message, SCOPE_CHANGED_MESSAGE);
    assert_eq!(result.last_error.as_deref(), Some(SCOPE_CHANGED_MESSAGE));
    assert_eq!(progress, vec![(1, 3), (2, 3), (3, 3)]);
}

#[test]
fn scope_lost_before_the_first_group_attempts_nothing() {
    let prepared = prepare_input(batch_input(GroupMembershipBatchAction::Leave, &["grp_a", "grp_b"])).unwrap();
    let mut run = GroupMembershipBatchRun::start("usr_self", "", prepared);
    run.stop_for_scope_change();
    assert!(run.next_operation().is_none());
    let (last, result) = run.finish();
    let last = last.unwrap();
    assert_eq!((last.completed, last.total), (2, 2));
    assert_eq!(result.succeeded, 0);
    assert_eq!(result.failed, 2);
    assert!(result.items.iter().all(|item| item.message == SCOPE_CHANGED_MESSAGE));
}

#[test]
fn prepare_input_deduplicates_groups_and_rejects_invalid_ids() {
    let prepared = prepare_input(batch_input(
        GroupMembershipBatchAction::Leave,
        &["grp_a", " grp_a ", "grp_b"],
    ))
    .unwrap();
    assert_eq!(prepared.group_ids, vec!["grp_a", "grp_b"]);

    assert!(prepare_input(batch_input(GroupMembershipBatchAction::Leave, &["usr_a"])).is_err());
    assert!(prepare_input(batch_input(GroupMembershipBatchAction::Leave, &[])).is_err());
    let many = (0..251).map(|i| format!("grp_{i}")).collect::<Vec<_>>();
    let refs = many.iter().map(String::as_str).collect::<Vec<_>>();
    assert_eq!(
        prepare_input(batch_input(GroupMembershipBatchAction::Leave, &refs))
            .unwrap_err()
            .message(),
        "Group membership batch cannot exceed 250 groups."
    );
}

#[test]
fn one_batch_runs_per_account_and_stale_inputs_are_refused() {
    let mut coordinator = GroupMembershipBatchCoordinator::new();
    let key = coordinator.try_begin("usr_self").unwrap();
    assert!(coordinator.try_begin("usr_self").is_err());
    assert!(coordinator.try_begin("usr_other").is_ok());
    coordinator.end(&key);
    assert!(coordinator.try_begin("usr_self").is_ok());

    let input = batch_input(GroupMembershipBatchAction::Leave, &["grp_a"]);
    assert!(check_batch_scope(&input, "usr_self", "").is_ok());
    assert!(check_batch_scope(&input, "usr_other", "").is_err());
}

fn note_item(user_id: &str) -> NoteExportItemInput {
    NoteExportItemInput {
        user_id: user_id.into(),
        display_name: user_id.into(),
        note: format!("note-{user_id}"),
    }
}

fn drive_export(items: Vec<NoteExportItemInput>, fail: Option<&str>, cancel_after: Option<usize>) -> (Vec<String>, vrcx_application::social::note_export::NoteExportResult) {
    let mut run = NoteExportRun::new(&items);
    let mut attempts = Vec::new();
    while !run.is_done() {
        if cancel_after == Some(run.next) {
            run.cancel();
            break;
        }
        let item = &items[run.next];
        attempts.push(item.user_id.clone());
        let outcome = if Some(item.user_id.as_str()) == fail {
            Err("save failed".to_string())
        } else {
            Ok(())
        };
        run.record(outcome);
    }
    (attempts, run.result)
}

#[test]
fn stops_at_first_failure_without_attempting_later_items() {
    let (attempts, result) = drive_export(
        vec![note_item("usr_1"), note_item("usr_2"), note_item("usr_3")],
        Some("usr_2"),
        None,
    );
    assert_eq!(attempts, vec!["usr_1", "usr_2"]);
    assert_eq!(result.succeeded, 1);
    assert_eq!(result.failed, 1);
    assert_eq!(result.items[2].state, NoteExportItemState::NotAttempted);
}

#[test]
fn successful_items_remain_successful_after_a_later_failure() {
    let (_, result) = drive_export(vec![note_item("usr_1"), note_item("usr_2")], Some("usr_2"), None);
    assert_eq!(result.items[0].state, NoteExportItemState::Succeeded);
    assert_eq!(result.items[1].state, NoteExportItemState::Failed);
    assert_eq!(result.processed, 2);
    assert_eq!(result.succeeded, 1);
    assert_eq!(result.failed, 1);
    assert_eq!(result.last_error.as_deref(), Some("save failed"));
}

#[test]
fn cancellation_marks_remaining_items_terminal_without_rollback() {
    let (_, result) = drive_export(vec![note_item("usr_1"), note_item("usr_2")], None, Some(1));
    assert!(result.cancelled);
    assert_eq!(result.items[0].state, NoteExportItemState::Succeeded);
    assert_eq!(result.items[1].state, NoteExportItemState::Cancelled);
}

#[test]
fn note_save_accepts_redirect_status_without_error_payload() {
    assert_eq!(note_save_response_error(302, "{}"), None);
}

#[test]
fn note_save_rejects_error_payload_on_success_status() {
    assert_eq!(
        note_save_response_error(200, r#"{"error":{"message":"denied"}}"#),
        Some("denied".into())
    );
    assert_eq!(
        note_save_response_error(500, "  "),
        Some("Saving user note failed with status 500.".into())
    );
    assert_eq!(
        note_save_response_error(403, " plain refusal "),
        Some("plain refusal".into())
    );
}

#[test]
fn note_export_preparation_normalizes_items() {
    let items = prepare_note_export(NoteExportStartInput {
        items: vec![NoteExportItemInput {
            user_id: " usr_1 ".into(),
            display_name: "  ".into(),
            note: format!("a\r\nb{}", "x".repeat(300)),
        }],
    })
    .unwrap();
    assert_eq!(items[0].user_id, "usr_1");
    assert_eq!(items[0].display_name, "usr_1");
    assert_eq!(items[0].note.chars().count(), 256);
    assert!(items[0].note.starts_with("a  b"));

    assert_eq!(
        prepare_note_export(NoteExportStartInput { items: vec![] }).unwrap_err().message(),
        "Note export requires at least one item."
    );
    assert_eq!(
        prepare_note_export(NoteExportStartInput {
            items: vec![note_item("usr_1"), note_item(" usr_1")],
        })
        .unwrap_err()
        .message(),
        "Note export contains duplicate user usr_1."
    );
    assert_eq!(
        prepare_note_export(NoteExportStartInput { items: vec![note_item("grp_1")] })
            .unwrap_err()
            .message(),
        "Note export contains an invalid user id."
    );
}

#[test]
fn scope_change_marks_active_export_cancelling() {
    let mut inner = NoteExportRuntimeInner {
        status: NoteExportStatus {
            run_id: "run-1".into(),
            status: NoteExportState::Running,
            ..Default::default()
        },
        cancel: Some(false),
        auth_generation: 1,
    };

    assert!(inner.mark_cancelling_if_scope_mismatch(2));
    assert_eq!(inner.status.status, NoteExportState::Cancelling);
    assert_eq!(inner.cancel, Some(true));
}

#[test]
fn runtime_status_follows_the_run_lifecycle() {
    let mut inner = NoteExportRuntimeInner::default();
    let items = vec![note_item("usr_1")];
    let started = inner.start(&items, "run-7".into(), "t0".into(), 3).unwrap();
    assert_eq!(started.status, NoteExportState::Running);
    assert!(inner.start(&items, "run-8".into(), "t1".into(), 3).is_err());
    let (_, result) = drive_export(items, None, None);
    assert!(inner.finish("run-other", result.clone(), "t2".into()).is_none());
    let finished = inner.finish("run-7", result, "t2".into()).unwrap();
    assert_eq!(finished.status, NoteExportState::Completed);
    assert_eq!(inner.cancel, None);
}

#[test]
fn local_moderation_update_preserves_other_bit_when_not_supplied() {
    let existing = LocalModerationOutput {
        user_id: "usr_target".into(),
        updated_at: String::new(),
        display_name: String::new(),
        block: true,
        mute: true,
    };

    assert_eq!(
        resolve_local_moderation_state(Some(&existing), LocalPlayerModerationKind::Block, false),
        (false, true)
    );
    assert_eq!(
        resolve_local_moderation_state(Some(&existing), LocalPlayerModerationKind::Mute, false),
        (true, false)
    );
    assert_eq!(
        resolve_local_moderation_state(Some(&existing), LocalPlayerModerationKind::Block, true),
        (true, true)
    );
    let (out, write) = local_after_update(None, &ModerationMutationType::Mute, false, "usr_t", "T", "now").unwrap();
    assert!(!write);
    assert!(!out.block && !out.mute);
    assert!(local_after_update(None, &ModerationMutationType::MuteChat, true, "usr_t", "T", "now").is_none());
}

#[test]
fn moderation_mutation_types_close_enables_but_preserve_unknown_deletes() {
    let known = ModerationMutationType::from_text("interactOff");
    assert!(known.is_supported_enable());
    assert_eq!(known.as_str(), "interactOff");

    let unknown = ModerationMutationType::from_text("futureModeration");
    assert!(!unknown.is_supported_enable());
    assert_eq!(unknown.as_str(), "futureModeration");

    let enable_unknown = ModerationSyncMutationInput {
        target_user_id: "usr_t".into(),
        target_display_name: String::new(),
        moderation_type: unknown,
        enabled: true,
    };
    assert_eq!(
        check_update_input(&enable_unknown).unwrap_err().message(),
        "ModerationSyncUpdate does not support enabling this moderation type."
    );
    assert!(refresh_without_user("  ").is_some());
    assert!(refresh_without_user("usr_a").is_none());
}

#[test]
fn normalizes_only_complete_remote_moderation_rows() {
    let rows = normalize_remote_moderation_rows(&JsonValue::Array(vec![
        obj(vec![
            ("id", s(" mod_1 ")),
            ("type", s(" block ")),
            ("targetUserId", s(" usr_target ")),
            ("targetDisplayName", s("Target")),
            ("created", s("2026-05-16T00:00:00.000Z")),
        ]),
        obj(vec![
            ("id", s("mod_2")),
            ("type", s("mute")),
            ("targetDisplayName", s("Missing target")),
        ]),
        obj(vec![("type", s("block")), ("targetUserId", s("usr_missing_id"))]),
    ]));

    assert_eq!(rows.len(), 1);
    assert_eq!(rows[0].moderation_type, "block");
    assert_eq!(rows[0].target_user_id, "usr_target");
    assert_eq!(rows[0].target_display_name, "Target");
    assert_eq!(rows[0].created, "2026-05-16T00:00:00.000Z");
}

#[test]
fn fetch_scope_uses_the_authenticated_owner_and_endpoint() {
    let (owner, endpoint) =
        resolve_fetch_scope("usr_owner", true, "usr_owner", "https://api.example.test/api/1").unwrap();
    assert_eq!(owner, "usr_owner");
    assert_eq!(endpoint, "https://api.example.test/api/1");
}

#[test]
fn fetch_scope_rejects_a_different_owner() {
    assert!(resolve_fetch_scope("usr_other", true, "usr_owner", "").is_err());
    assert!(resolve_fetch_scope("  ", true, "usr_owner", "").is_err());
    assert!(fetch_should_cancel(false, false));
    assert!(!fetch_should_cancel(false, true));
}

#[test]
fn failed_friends_keep_their_cached_snapshot_entries() {
    let mut entries = vec![MutualGraphSnapshotEntryInput {
        friend_id: "usr_ok".into(),
        mutual_ids: vec!["usr_mutual_new".into()],
    }];
    let mut meta_entries = vec![MutualGraphMetaInput {
        friend_id: "usr_ok".into(),
        last_fetched_at: "new".into(),
        opted_out: false,
        total_count: None,
    }];
    let failed_friend_ids = vec!["usr_failed".to_string()];
    let cached = MutualGraphSnapshotOutput {
        friend_ids: vec!["usr_failed".into(), "usr_removed".into()],
        links: vec![
            MutualGraphLinkOutput {
                friend_id: "usr_failed".into(),
                mutual_id: "usr_mutual_old".into(),
            },
            MutualGraphLinkOutput {
                friend_id: "usr_removed".into(),
                mutual_id: "usr_removed_mutual".into(),
            },
        ],
        meta: vec![
            MutualGraphMetaOutput {
                friend_id: "usr_failed".into(),
                last_fetched_at: "old".into(),
                opted_out: false,
                total_count: None,
            },
            MutualGraphMetaOutput {
                friend_id: "usr_removed".into(),
                last_fetched_at: "removed".into(),
                opted_out: false,
                total_count: None,
            },
        ],
    };

    preserve_failed_friend_cache(&mut entries, &mut meta_entries, &failed_friend_ids, cached);

    assert_eq!(entries.len(), 2);
    assert_eq!(entries[1].friend_id, "usr_failed");
    assert_eq!(entries[1].mutual_ids, vec!["usr_mutual_old"]);
    assert_eq!(meta_entries.len(), 2);
    assert_eq!(meta_entries[1].friend_id, "usr_failed");
    assert_eq!(meta_entries[1].last_fetched_at, "old");
}

#[test]
fn mutual_pages_retry_back_off_and_collect_distinct_ids() {
    assert_eq!(backoff_delay_ms(0), 500);
    assert_eq!(backoff_delay_ms(3), 4000);
    assert!(is_retryable_status(429) && is_retryable_status(503) && !is_retryable_status(404));
    assert!(matches!(
        page_step(PageResponse::Http { status: 500, data: String::new() }, 0, "usr_f"),
        PageStep::Retry { delay_ms: 500 }
    ));
    match page_step(PageResponse::Http { status: 500, data: String::new() }, 4, "usr_f") {
        PageStep::Done(PageFetchResult::Failed(m)) => {
            assert_eq!(m, "VRChat mutual friends request for usr_f failed with HTTP 500.")
        }
        _ => panic!("expected a failure"),
    }
    assert!(matches!(
        page_step(PageResponse::Http { status: 404, data: String::new() }, 0, "usr_f"),
        PageStep::Done(PageFetchResult::OptedOut)
    ));
    match page_step(
        PageResponse::Http { status: 200, data: r#"[{"id":" usr_a "},{"id":"usr_a"},{"id":"usr_00000000-0000-0000-0000-000000000000"}]"#.into() },
        0,
        "usr_f",
    ) {
        PageStep::Done(PageFetchResult::Rows(rows)) => {
            assert_eq!(rows.len(), 3);
            let mut pager = FriendMutualsPager::new();
            assert!(pager.record_page(&rows));
            assert_eq!(pager.collected, vec!["usr_a"]);
            assert_eq!(mutual_id_from_value(&rows[2]), None);
        }
        _ => panic!("expected rows"),
    }
    assert_eq!(
        normalize_friend_ids(vec![" usr_b ".into(), "usr_b".into(), "".into(), "usr_c".into()]),
        vec!["usr_b", "usr_c"]
    );
    assert!(MutualGraphFetchState::Cancelling.is_active());
    assert!(!MutualGraphFetchState::Completed.is_active());
}

#[test]
fn group_ids_are_deduplicated_across_event_shapes() {
    let rows = [
        obj(vec![("ownerId", s("grp_1"))]),
        obj(vec![("group", obj(vec![("id", s("grp_1")), ("name", s("One"))]))]),
        obj(vec![("group", obj(vec![("id", s("grp_2"))]))]),
    ];
    let refs = rows.iter().collect::<Vec<_>>();
    assert_eq!(collect_group_ids(&refs), vec!["grp_1", "grp_2"]);
    let sources = embedded_group_profile_rows(&refs);
    assert_eq!(sources, vec![("grp_1".to_string(), 1), ("grp_2".to_string(), 2)]);
    assert_eq!(group_name("grp_1", rows[1].get("group")), "One");
    assert_eq!(group_name("grp_2", None), "grp_2");
}

#[test]
fn calendar_pages_stop_on_short_pages_and_guard_the_limit() {
    assert!(require_calendar_date("  ").is_err());
    assert_eq!(require_calendar_date(" 2026-08-28 ").unwrap(), "2026-08-28");
    let mut pager = CalendarPager::new();
    assert_eq!(pager.offset(), 0);
    let done = pager
        .record(GroupCalendarPage { rows: vec![obj(vec![("eventId", s("evt_1"))])], has_next: Some(true) })
        .unwrap();
    assert!(done);
    assert_eq!(pager.rows.len(), 1);
    assert_eq!(event_id(&pager.rows[0]).as_deref(), Some("evt_1"));
    assert_eq!(following_event_ids(&vec![obj(vec![("id", s(" evt_2 "))])]), vec!["evt_2"]);

    let mut full = CalendarPager::new();
    for _ in 0..50 {
        let page = GroupCalendarPage { rows: (0..100).map(|_| JsonValue::Null).collect(), has_next: None };
        assert!(!full.record(page).unwrap());
    }
    assert_eq!(full.offset(), 5000);
    assert!(full.record(GroupCalendarPage { rows: vec![JsonValue::Null], has_next: None }).is_err());
}

#[test]
fn mutation_response_requires_2xx_and_strict_non_empty_json() {
    assert!(validate_vrchat_mutation_response(302, "{}").is_err());
    assert!(validate_vrchat_mutation_response(200, "not-json").is_err());
    assert!(matches!(validate_vrchat_mutation_response(204, "").unwrap(), JsonValue::Null));
    assert!(validate_vrchat_mutation_response(200, r#"{"error":{"message":"denied"}}"#).is_err());
}

#[test]
fn mutation_response_returns_typed_not_found_failure() {
    let error = validate_vrchat_mutation_response(
        404,
        r#"{"error":{"message":"The specified friend request was not found."}}"#,
    )
    .unwrap_err();

    assert!(matches!(
        error,
        Error::VrchatApi {
            status_code: 404,
            message
        } if message == "The specified friend request was not found."
    ));
}

#[test]
fn friend_request_accept_only_treats_status_404_as_not_found() {
    assert!(is_not_found_error(&Error::VrchatApi {
        status_code: 404,
        message: "opaque not found response".into(),
    }));
    assert!(!is_not_found_error(&Error::VrchatApi {
        status_code: 500,
        message: "The specified friend request was not found. (404)".into(),
    }));
    assert!(!is_not_found_error(&Error::Custom(
        "The specified friend request was not found. (404)".into(),
    )));
}

const GROUP_ID: &str = "grp_00000000-0000-0000-0000-000000000001";
const USER_1: &str = "usr_00000000-0000-0000-0000-000000000001";
const USER_2: &str = "usr_00000000-0000-0000-0000-000000000002";

#[test]
fn prepare_trims_deduplicates_and_rejects_invalid_ids() {
    let prepared = prepare_group_ban_import(GroupBanImportStartInput {
        group_id: format!(" {GROUP_ID} "),
        user_ids: vec![
            format!(" {USER_1} "),
            USER_1.into(),
            "usr_not-a-valid-id".into(),
            USER_2.into(),
        ],
    })
    .unwrap();

    assert_eq!(prepared.group_id, GROUP_ID);
    assert_eq!(prepared.user_ids, vec![USER_1, USER_2]);
}

#[test]
fn prepare_rejects_missing_group_and_empty_id_lists() {
    assert!(prepare_group_ban_import(GroupBanImportStartInput {
        group_id: String::new(),
        user_ids: vec![USER_1.into()],
    })
    .is_err());
    assert!(prepare_group_ban_import(GroupBanImportStartInput {
        group_id: GROUP_ID.into(),
        user_ids: vec!["usr_bad".into()],
    })
    .is_err());
}

#[test]
fn keeps_successful_counts_when_one_source_fails() {
    let counts = counts_from_results(
        Some(Ok(7)),
        Ok(12),
        Err(Error::Custom("worlds failed".into())),
        Ok(34),
        Ok(56),
    );

    assert_eq!(
        counts,
        UserDialogTabCountsOutput {
            mutual_friends: Some(7),
            groups: Some(12),
            worlds: None,
            favorite_worlds: Some(34),
            avatars: Some(56),
        }
    );
    assert!(!counts.is_complete(false));
}

#[test]
fn page_counter_stops_on_a_short_page_and_uses_monotonic_offsets() {
    let mut counter = BoundedPageCounter::new(2, 100);
    let mut offsets = vec![counter.offset];
    assert!(!counter.record(UserDialogCountPage { row_count: 2, selected_count: 2 }));
    offsets.push(counter.offset);
    assert!(counter.record(UserDialogCountPage { row_count: 1, selected_count: 1 }));
    assert_eq!(counter.count, 3);
    assert_eq!(offsets, vec![0, 2]);
}

#[test]
fn bounded_page_counter_includes_the_page_at_the_maximum_offset() {
    let mut counter = BoundedPageCounter::new(2, 4);
    let mut offsets = Vec::new();
    loop {
        offsets.push(counter.offset);
        if counter.record(UserDialogCountPage { row_count: 2, selected_count: 2 }) {
            break;
        }
    }
    assert_eq!(counter.count, 6);
    assert_eq!(offsets, vec![0, 2, 4]);
}

#[test]
fn avatar_provider_selection_normalizes_and_prefers_the_selected_one() {
    assert_eq!(
        normalize_avatar_provider(" https://api.avtrdb.com/v2/avatar/search/vrcx ").as_deref(),
        Some(DEFAULT_AVATAR_PROVIDER)
    );
    assert_eq!(normalize_avatar_provider("https://avtr.just-h.party/vrcx_search.php"), None);
    let config = AvatarProviderConfig {
        enabled: true,
        providers: JsonValue::Array(vec![s("https://a.test"), s("https://b.test")]),
        selected: " https://b.test ".into(),
    };
    assert_eq!(selected_avatar_provider(&config).as_deref(), Some("https://b.test"));
    let fallback = AvatarProviderConfig {
        enabled: true,
        providers: JsonValue::Null,
        selected: String::new(),
    };
    assert_eq!(selected_avatar_provider(&fallback).as_deref(), Some(DEFAULT_AVATAR_PROVIDER));
    let off = AvatarProviderConfig { enabled: false, providers: JsonValue::Null, selected: String::new() };
    assert_eq!(selected_avatar_provider(&off), None);
    assert_eq!(avatar_provider_key(&Ok(None)), "disabled");
    assert_eq!(avatar_provider_key(&Err(Error::Custom("x".into()))), "config-error");
    assert_eq!(default_avatar_release_status(), AvatarReleaseStatus::All);
    assert_eq!(AvatarReleaseStatus::Public.as_str(), "public");
}

#[test]
fn a_refused_start_leaves_the_running_export_untouched() {
    let mut inner = NoteExportRuntimeInner::default();
    let items = vec![note_item("usr_1"), note_item("usr_2")];
    let started = inner.start(&items, "run-1".into(), "t0".into(), 5).unwrap();
    assert_eq!(started.total, 2);
    assert_eq!((started.processed, started.succeeded, started.failed), (0, 0, 0));
    assert_eq!(started.started_at.as_deref(), Some("t0"));
    assert!(started.finished_at.is_none());
    assert_eq!(started.items, inner.status.items);
    let refused = inner.start(&[note_item("usr_3")].to_vec(), "run-2".into(), "t1".into(), 6);
    match refused {
        Err(Error::Custom(m)) => assert_eq!(m, "Another note export is already active."),
        other => panic!("unexpected {other:?}"),
    }
    assert_eq!(inner.status.run_id, "run-1");
    assert_eq!(inner.status.items.len(), 2);
    assert_eq!(inner.status.total, 2);
    assert_eq!(inner.auth_generation, 5);
}

#[test]
fn baseline_is_stale_without_a_roster_and_announces_only_real_changes() {
    assert_eq!(baseline_outcome(false, true), (true, false));
    assert_eq!(baseline_outcome(true, true), (false, true));
    assert_eq!(baseline_outcome(true, false), (false, false));
}

#[test]
fn page_fetch_ends_cancelled_when_cancelled_or_the_session_changed() {
    assert!(matches!(page_cancel_check(true, true), Some(PageFetchResult::Cancelled)));
    assert!(matches!(page_cancel_check(false, false), Some(PageFetchResult::Cancelled)));
    assert!(page_cancel_check(false, true).is_none());
    assert_eq!(rate_limit_wait_ms(None), 0);
    assert_eq!(rate_limit_wait_ms(Some(50)), 150);
    assert_eq!(rate_limit_wait_ms(Some(200)), 0);
    assert_eq!(rate_limit_wait_ms(Some(1_000)), 0);
}

fn mutual_row(id: &str) -> JsonValue {
    JsonValue::Object(vec![("id".to_string(), JsonValue::String(id.to_string()))])
}

#[test]
fn friend_mutuals_page_through_until_a_short_page() {
    let mut pager = FriendMutualsPager::new();
    let mut full: Vec<JsonValue> = (0..100).map(|i| mutual_row(&format!("usr_{i}"))).collect();
    full.push(mutual_row("usr_0"));
    full.truncate(100);
    match pager.step(PageFetchResult::Rows(full)) {
        FriendMutualsStep::Next { offset } => assert_eq!(offset, 100),
        other => panic!("unexpected {other:?}"),
    }
    let short = vec![mutual_row("usr_5"), mutual_row("usr_new"), mutual_row("usr_00000000-0000-0000-0000-000000000000")];
    match pager.step(PageFetchResult::Rows(short)) {
        FriendMutualsStep::Done(FriendFetchResult::MutualIds(ids)) => {
            assert_eq!(ids.len(), 101);
            assert_eq!(ids[0], "usr_0");
            assert_eq!(ids[100], "usr_new");
        }
        other => panic!("unexpected {other:?}"),
    }
}

#[test]
fn friend_mutuals_stop_at_once_on_an_opted_out_cancelled_or_failed_page() {
    let mut pager = FriendMutualsPager::new();
    let full: Vec<JsonValue> = (0..100).map(|i| mutual_row(&format!("usr_{i}"))).collect();
    assert!(matches!(pager.step(PageFetchResult::Rows(full)), FriendMutualsStep::Next { offset: 100 }));
    assert!(matches!(
        pager.step(PageFetchResult::OptedOut),
        FriendMutualsStep::Done(FriendFetchResult::OptedOut)
    ));
    let mut pager = FriendMutualsPager::new();
    assert!(matches!(
        pager.step(PageFetchResult::Cancelled),
        FriendMutualsStep::Done(FriendFetchResult::Cancelled)
    ));
    let mut pager = FriendMutualsPager::new();
    match pager.step(PageFetchResult::Failed("boom".into())) {
        FriendMutualsStep::Done(FriendFetchResult::Failed(m)) => assert_eq!(m, "boom"),
        other => panic!("unexpected {other:?}"),
    }
}

#[test]
fn friend_mutuals_stop_at_the_page_limit() {
    let mut pager = FriendMutualsPager::new();
    for page in 0..50 {
        let rows: Vec<JsonValue> = (0..100).map(|i| mutual_row(&format!("usr_{page}_{i}"))).collect();
        match pager.step(PageFetchResult::Rows(rows)) {
            FriendMutualsStep::Next { offset } => assert_eq!(offset, (page + 1) * 100),
            FriendMutualsStep::Done(FriendFetchResult::MutualIds(ids)) => {
                assert_eq!(page, 49);
                assert_eq!(ids.len(), 5000);
                return;
            }
            other => panic!("unexpected {other:?}"),
        }
    }
    panic!("paging went past the limit");
}

#[test]
fn note_export_begins_only_when_idle_and_counts_started_runs() {
    assert_eq!(note_export_run_id(1700000000123, 7), "note-export-1700000000123-7");
    assert_eq!(note_export_run_id(-5, u64::MAX), "note-export--5-18446744073709551615");
    let items = vec![NoteExportItemInput {
        user_id: "usr_a".into(),
        display_name: "A".into(),
        note: "hi".into(),
    }];
    let mut inner = NoteExportRuntimeInner::default();
    let mut count = 4u64;
    let status = inner
        .begin(&mut count, &items, 1000, "2024-01-01T00:00:00Z".into(), 9)
        .unwrap();
    assert_eq!(count, 5);
    assert_eq!(status.run_id, "note-export-1000-5");
    assert_eq!(status.status, NoteExportState::Running);
    assert_eq!(inner.auth_generation, 9);
    assert!(inner
        .begin(&mut count, &items, 2000, "2024-01-01T00:00:01Z".into(), 9)
        .is_err());
    assert_eq!(count, 5);
    assert_eq!(inner.status.run_id, "note-export-1000-5");
}

#[test]
fn friend_and_list_ids_are_trimmed_and_required() {
    assert_eq!(refresh_friend_id("  usr_a ").unwrap(), "usr_a");
    match refresh_friend_id("   ") {
        Err(Error::Custom(m)) => assert_eq!(m, "Mutual graph friend refresh requires a friend id."),
        other => panic!("unexpected {other:?}"),
    }
    assert_eq!(list_user_id("usr_b").unwrap(), "usr_b");
    match list_user_id("") {
        Err(Error::Custom(m)) => assert_eq!(m, "User mutual friends list requires a user id."),
        other => panic!("unexpected {other:?}"),
    }
}
