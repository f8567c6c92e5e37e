use project_balloon_api::contests::ContestRow;
use project_balloon_api::contests::{extension_audit_text, extension_outcome, transition_audit_text};
use project_balloon_api::auth::{
    AWARD_MANAGE, AuthUser, BALLOON_MANAGE, CLARIFICATION_MANAGE, CONTEST_MANAGE, LIVE_MANAGE,
    PRINTING_MANAGE, RESOLVER_MANAGE, SCREEN_MANAGE, UserType,
};
use project_balloon_api::contests::{
    can_read_all, deletion_check, format_rfc3339, list_scope, manage_scope,
    map_contest_write_error, map_extension_error, map_transition_error, overlap_check_needed,
    overlap_outcome, plan_transition, resolve_update_schedule, schedule_values, scope_outcome,
    transition_readiness, update_outcome, validate_complete_schedule, validate_name,
    ContestCloneRequest, ContestExtensionError, ContestListQuery, ContestSchedule,
    ContestScheduleError, ContestStatus, ContestTransitionError, ContestVisibility,
    CreateContestRequest, ReadAccess, ScopeStep, Timestamp, UpdateContestRequest,
    default_page_size,
};

fn user_for_test(user_type: UserType, permissions: &[&str]) -> AuthUser {
    AuthUser {
        id: 1,
        username: "test-user".to_owned(),
        display_name: "Test User".to_owned(),
        user_type,
        permissions: permissions.iter().map(|p| (*p).to_owned()).collect(),
        password_reset_required: false,
    }
}

fn at(seconds: i128) -> Timestamp {
    Timestamp { unix_nanos: seconds * 1_000_000_000 }
}

const HOUR: i128 = 3600;

#[test]
fn every_operational_manage_permission_grants_read_all() {
    for permission in [
        CLARIFICATION_MANAGE,
        PRINTING_MANAGE,
        BALLOON_MANAGE,
        RESOLVER_MANAGE,
        AWARD_MANAGE,
        SCREEN_MANAGE,
        LIVE_MANAGE,
    ] {
        let user = user_for_test(UserType::Staff, &[permission]);
        assert!(can_read_all(&user), "{permission} must grant read-all");
    }
}

#[test]
fn contest_manage_alone_scopes_but_does_not_grant_read_all() {
    let user = user_for_test(UserType::Staff, &[CONTEST_MANAGE]);
    assert!(!can_read_all(&user));
    let access = ReadAccess::for_user(Some(&user));
    assert!(!access.read_all);
    assert_eq!(access.contest_manager_id, Some(1));
}

#[test]
fn super_admins_read_everything_without_manager_scope() {
    let user = user_for_test(UserType::SuperAdmin, &[]);
    let access = ReadAccess::for_user(Some(&user));
    assert!(access.super_admin);
    assert!(access.read_all);
    assert_eq!(access.contest_manager_id, None);
}

#[test]
fn team_users_get_team_scope_only() {
    let user = user_for_test(UserType::Team, &[]);
    let access = ReadAccess::for_user(Some(&user));
    assert!(!access.read_all);
    assert_eq!(access.team_user_id, Some(1));
}

#[test]
fn anonymous_requests_have_no_access() {
    let access = ReadAccess::for_user(None);
    assert!(!access.super_admin);
    assert!(!access.read_all);
    assert_eq!(access.contest_manager_id, None);
    assert_eq!(access.team_user_id, None);
}

#[test]
fn transition_and_extension_errors_map_to_distinct_codes() {
    let transition = |error| map_transition_error(error).code().to_owned();
    assert_eq!(
        transition(ContestTransitionError::Invalid {
            from: ContestStatus::Running,
            to: ContestStatus::Draft
        }),
        "CONTEST_TRANSITION_INVALID"
    );
    assert_eq!(transition(ContestTransitionError::ScheduleRequired), "VALIDATION_FAILED");
    let invalid_schedule =
        transition(ContestTransitionError::InvalidSchedule(ContestScheduleError::StartAfterFreeze));
    assert_eq!(invalid_schedule, "VALIDATION_FAILED");

    let extension = |error| map_extension_error(error).code().to_owned();
    assert_eq!(
        extension(ContestExtensionError::InvalidState(ContestStatus::Draft)),
        "CONTEST_EXTENSION_STATUS_INVALID"
    );
    assert_eq!(extension(ContestExtensionError::EndTimeNotSet), "CONTEST_END_TIME_NOT_SET");
    assert_eq!(extension(ContestExtensionError::Stale), "CONTEST_EXTENSION_STALE");
    assert_eq!(extension(ContestExtensionError::NotLater), "CONTEST_EXTENSION_NOT_LATER");
}

#[test]
fn schedule_values_and_timestamp_formatting_cover_edge_inputs() {
    assert_eq!(schedule_values(None), (None, None, None));
    let schedule = ContestSchedule {
        start_at: at(1_784_707_200),
        freeze_at: at(1_784_721_600),
        end_at: at(1_784_736_000),
    };
    assert_eq!(
        schedule_values(Some(schedule)),
        (Some(schedule.start_at), Some(schedule.freeze_at), Some(schedule.end_at))
    );
    assert_eq!(format_rfc3339(at(1_784_707_200)).expect("format"), "2026-07-22T08:00:00Z");
    assert_eq!(format_rfc3339(at(0)).expect("epoch"), "1970-01-01T00:00:00Z");
    assert_eq!(
        format_rfc3339(Timestamp { unix_nanos: i128::MAX }).unwrap_err().code,
        "INTERNAL_ERROR"
    );
}

#[test]
fn complete_schedule_is_required_on_create() {
    let request = CreateContestRequest {
        name: "Cup".to_owned(),
        visibility: ContestVisibility::Private,
        start_at: Some(at(0)),
        freeze_at: None,
        end_at: None,
    };
    assert!(request.validate().is_err());
}

#[test]
fn schedule_order_is_validated() {
    let schedule = ContestSchedule { start_at: at(HOUR), freeze_at: at(0), end_at: at(2 * HOUR) };
    assert!(schedule.validate().is_err());
}

#[test]
fn sort_is_allow_listed() {
    assert!(
        ContestListQuery {
            page: 0,
            size: 50,
            sort: Some("evil,asc".to_owned()),
            include_deleted: false,
            manageable_only: false,
        }
        .validate()
        .is_err()
    );
}

#[test]
fn manageable_only_is_preserved_for_service_filtering() {
    let query = ContestListQuery {
        page: 0,
        size: 50,
        sort: None,
        include_deleted: false,
        manageable_only: true,
    }
    .validate()
    .expect("manageable contest query must validate");
    assert!(query.manageable_only);
}

#[test]
fn only_pre_running_statuses_can_reschedule() {
    assert!(ContestStatus::Draft.can_reschedule());
    assert!(ContestStatus::FrozenConfig.can_reschedule());
    assert!(!ContestStatus::Running.can_reschedule());
}

#[test]
fn list_queries_order_and_page() {
    let query = ContestListQuery {
        page: 3,
        size: 20,
        sort: Some("startAt,desc".to_owned()),
        include_deleted: true,
        manageable_only: false,
    }
    .validate()
    .expect("valid");
    assert_eq!(query.offset, 60);
    assert_eq!(query.order_by, "start_at DESC NULLS LAST, id DESC");
    let default = ContestListQuery {
        page: 0,
        size: default_page_size(),
        sort: None,
        include_deleted: false,
        manageable_only: false,
    }
    .validate()
    .expect("default");
    assert_eq!(default.order_by, "updated_at DESC, id DESC");
    assert_eq!(default.size, 50);
    let too_big =
        ContestListQuery { page: 0, size: 501, sort: None, include_deleted: false, manageable_only: false };
    assert_eq!(too_big.validate().unwrap_err().field, "size");
    let zero = ContestListQuery { page: 0, size: 0, sort: None, include_deleted: false, manageable_only: false };
    assert_eq!(zero.validate().unwrap_err().field, "size");
    let last = ContestListQuery {
        page: u32::MAX,
        size: 500,
        sort: None,
        include_deleted: false,
        manageable_only: false,
    }
    .validate()
    .expect("largest page");
    assert_eq!(last.offset, i64::from(u32::MAX) * 500);
}

#[test]
fn listing_scope_is_limited_by_role() {
    let staff = ReadAccess::for_user(Some(&user_for_test(UserType::Staff, &[])));
    let manager = ReadAccess::for_user(Some(&user_for_test(UserType::Staff, &[CONTEST_MANAGE])));
    let admin = ReadAccess::for_user(Some(&user_for_test(UserType::SuperAdmin, &[])));
    let manageable = ContestListQuery { page: 0, size: 10, sort: None, include_deleted: false, manageable_only: true }
        .validate()
        .unwrap();
    assert_eq!(list_scope(&manageable, &staff).unwrap_err().code, "FORBIDDEN");
    assert_eq!(list_scope(&manageable, &manager), Ok(false));
    let deleted = ContestListQuery { page: 0, size: 10, sort: None, include_deleted: true, manageable_only: false }
        .validate()
        .unwrap();
    assert_eq!(
        list_scope(&deleted, &manager).unwrap_err().message,
        "Only super administrators may include deleted contests"
    );
    assert_eq!(list_scope(&deleted, &admin), Ok(true));
    assert_eq!(manage_scope(&user_for_test(UserType::SuperAdmin, &[])), ScopeStep::Granted);
    assert_eq!(manage_scope(&user_for_test(UserType::Staff, &[])), ScopeStep::Hidden);
    assert_eq!(manage_scope(&user_for_test(UserType::Staff, &[CONTEST_MANAGE])), ScopeStep::CheckAssignment);
    assert!(scope_outcome(true).is_ok());
    assert_eq!(scope_outcome(false).unwrap_err().code, "CONTEST_NOT_FOUND");
}

#[test]
fn names_and_schedules_are_validated() {
    assert_eq!(validate_name("  Cup  ".to_owned()).unwrap(), "Cup");
    assert!(validate_name(" ".to_owned()).is_err());
    assert!(validate_name("x".repeat(256)).is_err());
    assert!(validate_name("x".repeat(255)).is_ok());
    assert_eq!(validate_complete_schedule(None, None, None), Ok(None));
    assert_eq!(
        validate_complete_schedule(Some(at(0)), Some(at(HOUR)), None).unwrap_err().field,
        "schedule"
    );
    assert_eq!(
        validate_complete_schedule(Some(at(0)), Some(at(2 * HOUR)), Some(at(HOUR))).unwrap_err().field,
        "freezeAt"
    );
    let clone = ContestCloneRequest {
        name: "x".repeat(121),
        visibility: ContestVisibility::Public,
        start_at: None,
        end_at: None,
        freeze_at: None,
        copy_teams: true,
    };
    assert_eq!(clone.validate().unwrap_err().message, "must contain between 1 and 120 characters");
    let update = UpdateContestRequest {
        name: None,
        visibility: None,
        start_at: None,
        end_at: None,
        freeze_at: None,
        expected_version: Some(1),
    };
    assert_eq!(update.validate().unwrap_err().message, "must include at least one change");
}

#[test]
fn schedule_changes_stop_once_a_contest_runs() {
    let update = UpdateContestRequest {
        name: None,
        visibility: None,
        start_at: Some(at(HOUR)),
        end_at: None,
        freeze_at: None,
        expected_version: None,
    }
    .validate()
    .expect("valid");
    assert!(update.changes_schedule());
    assert_eq!(
        resolve_update_schedule(&update, ContestStatus::Running, Some(at(0)), Some(at(2 * HOUR)), Some(at(3 * HOUR)))
            .unwrap_err()
            .code,
        "CONTEST_SCHEDULE_LOCKED"
    );
    let resolved = resolve_update_schedule(
        &update,
        ContestStatus::Draft,
        Some(at(0)),
        Some(at(2 * HOUR)),
        Some(at(3 * HOUR)),
    )
    .expect("merged schedule")
    .expect("complete");
    assert_eq!(resolved.start_at, at(HOUR));
    assert_eq!(resolved.end_at, at(3 * HOUR));
    assert_eq!(
        resolve_update_schedule(&update, ContestStatus::Draft, None, None, None).unwrap_err().field,
        "freezeAt"
    );
    let rename = UpdateContestRequest {
        name: Some("New".to_owned()),
        visibility: None,
        start_at: None,
        end_at: None,
        freeze_at: None,
        expected_version: None,
    }
    .validate()
    .expect("rename");
    assert_eq!(
        resolve_update_schedule(&rename, ContestStatus::Ended, Some(at(0)), None, Some(at(HOUR))),
        Ok(None)
    );
    assert!(update_outcome(true).is_ok());
    assert_eq!(update_outcome(false).unwrap_err().code, "CONTEST_UPDATE_STALE");
}

#[test]
fn transitions_need_a_ready_contest() {
    assert_eq!(
        transition_readiness(ContestStatus::FrozenConfig, 0, 0, false).unwrap_err().field,
        "problems"
    );
    assert_eq!(
        transition_readiness(ContestStatus::FrozenConfig, 3, 1, false).unwrap_err().field,
        "problemColors"
    );
    assert_eq!(
        transition_readiness(ContestStatus::Archived, 0, 0, true).unwrap_err().code,
        "CONTEST_ARCHIVE_BUSY"
    );
    assert!(transition_readiness(ContestStatus::Running, 0, 0, true).is_ok());
    assert_eq!(
        plan_transition(Err(ContestTransitionError::ScheduleRequired), ContestStatus::FrozenConfig, 1, 0, false)
            .unwrap_err()
            .field,
        "schedule"
    );
    assert!(plan_transition(Ok(()), ContestStatus::FrozenConfig, 1, 0, false).is_ok());
    assert_eq!(deletion_check(true).unwrap_err().code, "CONTEST_HAS_ACTIVE_TEAMS");
    assert!(deletion_check(false).is_ok());
    assert_eq!(map_contest_write_error(Some("idx_contests_active_name_unique")).code, "CONTEST_NAME_TAKEN");
    assert_eq!(map_contest_write_error(Some("other")).code, "INTERNAL_ERROR");
    assert!(overlap_check_needed(true, Some(at(0)), Some(at(1))));
    assert!(!overlap_check_needed(false, Some(at(0)), Some(at(1))));
    assert!(!overlap_check_needed(true, None, Some(at(1))));
    assert_eq!(overlap_outcome(true).unwrap_err().code, "COMPETITION_SCHEDULE_OVERLAP");
}

#[test]
fn stored_contests_read_back_with_known_names_only() {
    let row = |status: &str, visibility: &str| ContestRow {
        id: 5,
        name: "Cup".to_owned(),
        status: status.to_owned(),
        visibility: visibility.to_owned(),
        start_at: Some(at(0)),
        end_at: None,
        freeze_at: None,
        version: 3,
        created_at: at(1),
        updated_at: at(2),
        deleted_at: None,
    };
    let response = row("RUNNING", "PUBLIC").response().expect("known names");
    assert_eq!(response.status, ContestStatus::Running);
    assert_eq!(response.visibility, ContestVisibility::Public);
    assert_eq!((response.id, response.version, response.start_at), (5, 3, Some(at(0))));
    assert_eq!(row("LIVE", "PUBLIC").response().unwrap_err().message, "invalid contests.status");
    assert_eq!(row("DRAFT", "HIDDEN").response().unwrap_err().message, "invalid contests.visibility");
}

#[test]
fn audit_texts_record_the_change() {
    assert_eq!(transition_audit_text(ContestStatus::FrozenConfig, ContestStatus::Running), "FROZEN_CONFIG->RUNNING");
    assert_eq!(extension_audit_text(1_784_736_000, 1_784_739_600), "1784736000->1784739600");
    assert_eq!(extension_audit_text(-5, 0), "-5->0");
    assert_eq!(extension_outcome(Ok(at(7))), Ok(at(7)));
    assert_eq!(extension_outcome(Err(ContestExtensionError::Stale)).unwrap_err().code, "CONTEST_EXTENSION_STALE");
}

#[test]
fn stored_names_parse_through_from_str() {
    assert_eq!("PAUSED".parse::<ContestStatus>(), Ok(ContestStatus::Paused));
    assert_eq!("paused".parse::<ContestStatus>().unwrap_err().message, "invalid contests.status");
    assert_eq!("PUBLIC".parse::<ContestVisibility>(), Ok(ContestVisibility::Public));
    assert_eq!(ContestStatus::FrozenConfig.as_str(), "FROZEN_CONFIG");
    assert_eq!(ContestVisibility::Private.as_str(), "PRIVATE");
}

#[test]
fn calendar_range_spans_four_hundred_billion_seconds_each_way() {
    assert!(at(0).in_calendar_range());
    assert!(at(400_000_000_000).in_calendar_range());
    assert!(at(-400_000_000_000).in_calendar_range());
    assert!(!Timestamp { unix_nanos: 400_000_000_000 * 1_000_000_000 + 1 }.in_calendar_range());
    assert!(!Timestamp { unix_nanos: i128::MIN }.in_calendar_range());
}
