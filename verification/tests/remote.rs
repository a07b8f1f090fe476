use vrcx_application::remote::input::{
    check_bounded_i32, check_emoji_frame_count, check_emoji_frames_per_second,
    InstanceCreateRegion, InstanceCreateRequest, InstanceCreateType, MediaFileListParams,
};
use vrcx_application::remote::worlds::{
    check_optional_nonnegative_i32, deserialize_nonnegative_i32, require_nonnegative,
    QueryOrder, ReleaseStatusFilter, WorldRemoteOperation, WorldSearchSort, WorldUpdateRequest,
};

fn update(id: &str) -> WorldUpdateRequest {
    WorldUpdateRequest {
        id: id.into(),
        name: None,
        description: None,
        capacity: None,
        recommended_capacity: None,
        preview_youtube_id: None,
        tags: None,
        url_list: None,
        disabled_prop_abilities: None,
    }
}

#[test]
fn remote_inputs_reject_invalid_pagination_and_unknown_fields() {
    assert!(check_optional_nonnegative_i32(Some(-1)).is_err());
    assert_eq!(check_optional_nonnegative_i32(Some(0)), Ok(Some(0)));
    assert_eq!(check_optional_nonnegative_i32(None), Ok(None));
    assert_eq!(deserialize_nonnegative_i32(-5).unwrap_err(), "value must be non-negative");
    let params = MediaFileListParams::default();
    assert_eq!(params.n, None);
}

#[test]
fn emoji_frames_are_bounded() {
    assert_eq!(check_emoji_frame_count(2), Ok(2));
    assert_eq!(check_emoji_frame_count(65).unwrap_err(), "frames must be between 2 and 64");
    assert_eq!(
        check_emoji_frames_per_second(0).unwrap_err(),
        "framesOverTime must be between 1 and 64"
    );
    assert_eq!(check_bounded_i32(-3, -5, -1, "x"), Ok(-3));
    assert_eq!(check_bounded_i32(0, -5, -1, "x").unwrap_err(), "x must be between -5 and -1");
}

#[test]
fn instance_create_request_keeps_its_fields() {
    let input = InstanceCreateRequest {
        instance_type: InstanceCreateType::Public,
        can_request_invite: false,
        world_id: "wrld_test".into(),
        owner_id: None,
        region: InstanceCreateRegion::Jp,
        group_access_type: None,
        queue_enabled: None,
        role_ids: None,
        age_gate: None,
        display_name: None,
        minimum_avatar_performance: None,
    };
    assert_eq!(input.clone(), input);
}

#[test]
fn read_delegates_semantic_input_without_authenticated_scope() {
    let op = WorldRemoteOperation::list_by_user(
        " usr_test ",
        50,
        100,
        WorldSearchSort::Updated,
        QueryOrder::Descending,
        ReleaseStatusFilter::Public,
    )
    .unwrap();
    assert_eq!(
        op,
        WorldRemoteOperation::ListByUser {
            user_id: "usr_test".into(),
            n: 50,
            offset: 100,
            sort: WorldSearchSort::Updated,
            order: QueryOrder::Descending,
            release_status: ReleaseStatusFilter::Public,
        }
    );
    assert!(!op.hydrates_response());
    assert_eq!(
        WorldRemoteOperation::list_by_user(
            "usr",
            -1,
            0,
            WorldSearchSort::Updated,
            QueryOrder::Descending,
            ReleaseStatusFilter::Public,
        )
        .unwrap_err()
        .message(),
        "value must be non-negative"
    );
    assert!(require_nonnegative(0).is_ok());
}

#[test]
fn mutation_passes_captured_identity_to_the_port() {
    let op = WorldRemoteOperation::save(" wrld_test ", update("wrld_test")).unwrap();
    assert!(op.hydrates_response());
    assert_eq!(
        WorldRemoteOperation::save("wrld_test", update("wrld_other")).unwrap_err().message(),
        "VrchatWorldSave params.id must match worldId."
    );
    assert_eq!(
        WorldRemoteOperation::delete("  ").unwrap_err().message(),
        "VrchatWorldDelete requires worldId."
    );
    assert_eq!(
        WorldRemoteOperation::publish(" wrld_x ").unwrap(),
        WorldRemoteOperation::Publish { world_id: "wrld_x".into() }
    );
    assert_eq!(
        WorldRemoteOperation::persistent_data_delete("usr_a", "").unwrap_err().message(),
        "VrchatWorldPersistentDataDelete requires worldId."
    );
}
