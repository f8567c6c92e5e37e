use project_balloon_api::orchestration::group_name_available;
use project_balloon_api::orchestration::{group_update_check, locked_group, map_group_write_error, playlist_delete_check, playlist_name_available, playlist_update_check};
use project_balloon_api::orchestration::group_members;
use project_balloon_api::contests::Timestamp;
use project_balloon_api::orchestration::{
    GroupAction, GroupControlRequest, GroupPlayback, GroupRequest, PlaybackStatus,
    PlaylistItemRequest, PlaylistRequest, check_members, item_display_order, normalized_name,
    plan_group_control, require_version, validate_group, validate_playlist,
};

fn at(seconds: i128) -> Timestamp {
    Timestamp { unix_nanos: seconds * 1_000_000_000 }
}

fn item(view: &str, seconds: i32) -> PlaylistItemRequest {
    PlaylistItemRequest { target_view: view.to_owned(), duration_seconds: seconds }
}

fn control(action: &str, playlist: Option<i64>, target: Option<&str>) -> GroupControlRequest {
    GroupControlRequest {
        action: action.to_owned(),
        playlist_id: playlist,
        target_view: target.map(str::to_owned),
        expected_version: Some(1),
    }
}

fn stopped() -> GroupPlayback {
    GroupPlayback {
        status: PlaybackStatus::Stopped,
        playlist_id: None,
        started_at: None,
        paused_elapsed_seconds: 0,
        locked_view: None,
    }
}

#[test]
fn playlists_are_normalized_in_place() {
    let mut request = PlaylistRequest {
        name: "  Main loop ".to_owned(),
        loop_enabled: true,
        items: vec![item(" scoreboard ", 30), item("awards", 3600)],
        expected_version: Some(2),
    };
    validate_playlist(&mut request).expect("valid playlist");
    assert_eq!(request.name, "Main loop");
    assert_eq!(request.items[0].target_view, "SCOREBOARD");
    assert_eq!(request.items[1].target_view, "AWARDS");
    assert_eq!(request.items[1].duration_seconds, 3600);
}

#[test]
fn playlist_errors_come_from_the_first_bad_step() {
    let mut request = PlaylistRequest {
        name: "Loop".to_owned(),
        loop_enabled: false,
        items: vec![item("balloons", 4), item("nowhere", 10)],
        expected_version: None,
    };
    assert_eq!(validate_playlist(&mut request).unwrap_err().field, "durationSeconds");
    assert_eq!(request.items[0].target_view, "BALLOONS");
    assert_eq!(request.items[1].target_view, "nowhere");
    let mut empty = PlaylistRequest { name: "Loop".to_owned(), loop_enabled: false, items: vec![], expected_version: None };
    assert_eq!(validate_playlist(&mut empty).unwrap_err().field, "items");
    let mut unnamed = PlaylistRequest { name: "  ".to_owned(), loop_enabled: false, items: vec![item("awards", 5)], expected_version: None };
    assert_eq!(validate_playlist(&mut unnamed).unwrap_err().field, "name");
    let mut bad_view = PlaylistRequest { name: "x".to_owned(), loop_enabled: false, items: vec![item("nowhere", 5)], expected_version: None };
    assert_eq!(validate_playlist(&mut bad_view).unwrap_err().field, "targetView");
    let mut too_many = PlaylistRequest {
        name: "x".to_owned(),
        loop_enabled: false,
        items: (0..21).map(|_| item("awards", 5)).collect(),
        expected_version: None,
    };
    assert_eq!(validate_playlist(&mut too_many).unwrap_err().field, "items");
}

#[test]
fn groups_keep_the_first_occurrence_of_each_instance() {
    let mut request = GroupRequest { name: " Wall ".to_owned(), instance_ids: vec![3, 1, 3, 2, 1], expected_version: None };
    validate_group(&mut request).expect("valid group");
    assert_eq!(request.name, "Wall");
    assert_eq!(request.instance_ids, vec![3, 1, 2]);
    let mut invalid = GroupRequest { name: "Wall".to_owned(), instance_ids: vec![1, 0], expected_version: None };
    assert_eq!(validate_group(&mut invalid).unwrap_err().field, "instanceIds");
    let mut crowded = GroupRequest { name: "Wall".to_owned(), instance_ids: (1..=101).collect(), expected_version: None };
    assert!(validate_group(&mut crowded).is_err());
    let mut repeated = GroupRequest {
        name: "Wall".to_owned(),
        instance_ids: (1..=100).chain(1..=100).collect(),
        expected_version: None,
    };
    assert!(validate_group(&mut repeated).is_ok());
    assert_eq!(repeated.instance_ids.len(), 100);
}

#[test]
fn versions_names_and_members_are_checked() {
    assert_eq!(require_version(Some(4)), Ok(4));
    assert_eq!(require_version(None).unwrap_err().code, "SCREEN_VERSION_REQUIRED");
    assert_eq!(normalized_name("  a b "), "a b");
    assert_eq!(item_display_order(0), 1);
    assert_eq!(item_display_order(usize::MAX), i32::MAX);
    assert!(check_members(2, 2, false).is_ok());
    assert_eq!(check_members(1, 2, false).unwrap_err().message, "SCREEN_GROUP_INSTANCE_INVALID");
    assert_eq!(check_members(2, 2, true).unwrap_err().code, "SCREEN_INSTANCE_ALREADY_GROUPED");
}

#[test]
fn commands_parse_case_insensitively() {
    assert_eq!(GroupAction::parse(" play "), Some(GroupAction::Play));
    assert_eq!(GroupAction::parse("Unlock"), Some(GroupAction::Unlock));
    assert_eq!(GroupAction::parse("rewind"), None);
    assert_eq!(PlaybackStatus::from_name("PAUSED"), Some(PlaybackStatus::Paused));
    assert_eq!(PlaybackStatus::Playing.as_str(), "PLAYING");
}

#[test]
fn pause_and_resume_keep_the_playlist_position() {
    let played = plan_group_control(&control("PLAY", Some(9), None), 1, 1, &stopped(), true, at(1_000)).expect("play").playback;
    assert_eq!(played.status, PlaybackStatus::Playing);
    assert_eq!(played.started_at, Some(at(1_000)));
    let paused_at = Timestamp { unix_nanos: at(1_042).unix_nanos + 600_000_000 };
    let paused = plan_group_control(&control("pause", None, None), 1, 1, &played, false, paused_at).expect("pause").playback;
    assert_eq!(paused.status, PlaybackStatus::Paused);
    assert_eq!(paused.paused_elapsed_seconds, 43);
    let resumed = plan_group_control(&control("RESUME", None, None), 1, 1, &paused, false, at(5_000)).expect("resume").playback;
    assert_eq!(resumed.status, PlaybackStatus::Playing);
    assert_eq!(resumed.started_at, Some(at(5_000 - 43)));
    assert_eq!(resumed.playlist_id, Some(9));
}

#[test]
fn commands_are_refused_in_the_wrong_state() {
    let refused = plan_group_control(&control("PLAY", Some(9), None), 1, 2, &stopped(), true, at(0));
    assert_eq!(refused.unwrap_err().code, "SCREEN_GROUP_VERSION_CONFLICT");
    assert_eq!(
        plan_group_control(&control("PLAY", None, None), 1, 1, &stopped(), true, at(0)).unwrap_err().message,
        "SCREEN_PLAYLIST_REQUIRED"
    );
    assert_eq!(
        plan_group_control(&control("PLAY", Some(9), None), 1, 1, &stopped(), false, at(0)).unwrap_err().code,
        "SCREEN_PLAYLIST_NOT_FOUND"
    );
    assert_eq!(
        plan_group_control(&control("PAUSE", None, None), 1, 1, &stopped(), false, at(0)).unwrap_err().code,
        "SCREEN_GROUP_NOT_PLAYING"
    );
    assert_eq!(
        plan_group_control(&control("RESUME", None, None), 1, 1, &stopped(), false, at(0)).unwrap_err().code,
        "SCREEN_GROUP_NOT_PAUSED"
    );
    assert_eq!(
        plan_group_control(&control("LOCK", None, None), 1, 1, &stopped(), false, at(0)).unwrap_err().message,
        "SCREEN_TARGET_REQUIRED"
    );
    assert_eq!(
        plan_group_control(&control("LOCK", None, Some("nowhere")), 1, 1, &stopped(), false, at(0)).unwrap_err().field,
        "targetView"
    );
    assert_eq!(
        plan_group_control(&control("REWIND", None, None), 1, 1, &stopped(), false, at(0)).unwrap_err().field,
        "action"
    );
}

#[test]
fn locks_and_stops_keep_what_they_do_not_touch() {
    let locked = plan_group_control(&control("lock", None, Some(" statistics ")), 1, 1, &stopped(), false, at(0)).expect("lock").playback;
    assert_eq!(locked.locked_view.as_deref(), Some("STATISTICS"));
    let playing = plan_group_control(&control("PLAY", Some(2), None), 1, 1, &locked, true, at(10)).expect("play").playback;
    assert_eq!(playing.locked_view, None);
    let relocked = plan_group_control(&control("LOCK", None, Some("AWARDS")), 1, 1, &playing, false, at(20)).expect("lock").playback;
    let stopped_again = plan_group_control(&control("STOP", None, None), 1, 1, &relocked, false, at(30)).expect("stop").playback;
    assert_eq!(stopped_again.status, PlaybackStatus::Stopped);
    assert_eq!(stopped_again.playlist_id, None);
    assert_eq!(stopped_again.locked_view.as_deref(), Some("AWARDS"));
    let unlocked = plan_group_control(&control("UNLOCK", None, None), 1, 1, &stopped_again, false, at(40)).expect("unlock").playback;
    assert_eq!(unlocked.locked_view, None);
}

#[test]
fn group_members_follow_the_row_order() {
    let rows = vec![(1, 10), (2, 20), (1, 11), (3, 30), (1, 12)];
    let members = group_members(&vec![1, 2, 4, 1], &rows);
    assert_eq!(members, vec![vec![10, 11, 12], vec![20], vec![], vec![]]);
}


#[test]
fn playlist_and_group_changes_respect_versions_and_names() {
    assert_eq!(playlist_update_check(None, 1, false, false).unwrap_err().code, "SCREEN_PLAYLIST_NOT_FOUND");
    assert_eq!(playlist_update_check(Some((4, 2)), 1, false, false).unwrap_err().code, "SCREEN_PLAYLIST_VERSION_CONFLICT");
    assert_eq!(playlist_update_check(Some((4, 1)), 1, true, false).unwrap_err().code, "SCREEN_PLAYLIST_IN_USE");
    assert_eq!(playlist_update_check(Some((4, 1)), 1, false, true).unwrap_err().code, "SCREEN_PLAYLIST_NAME_TAKEN");
    assert_eq!(playlist_update_check(Some((4, 1)), 1, false, false), Ok(4));
    assert_eq!(playlist_delete_check(false, false).unwrap_err().code, "SCREEN_PLAYLIST_NOT_FOUND");
    assert_eq!(playlist_delete_check(true, true).unwrap_err().code, "SCREEN_PLAYLIST_IN_USE");
    assert!(playlist_delete_check(true, false).is_ok());
    assert!(playlist_name_available(true).is_err());
    assert_eq!(group_name_available(true).unwrap_err().code, "SCREEN_GROUP_NAME_TAKEN");
    assert!(group_name_available(false).is_ok());
    assert_eq!(locked_group(None).unwrap_err().code, "SCREEN_GROUP_NOT_FOUND");
    assert_eq!(locked_group(Some((1, 2))), Ok((1, 2)));
    assert_eq!(group_update_check(1, 2, false).unwrap_err().code, "SCREEN_GROUP_VERSION_CONFLICT");
    assert_eq!(group_update_check(2, 2, true).unwrap_err().code, "SCREEN_GROUP_NAME_TAKEN");
    assert!(group_update_check(2, 2, false).is_ok());
    assert_eq!(map_group_write_error(Some("screen_groups_contest_id_name_key")).code, "SCREEN_GROUP_NAME_TAKEN");
    assert_eq!(map_group_write_error(None).message, "create screen group");
}

#[test]
fn accepted_commands_bump_the_group_version() {
    let controlled = plan_group_control(&control("STOP", None, None), 6, 6, &stopped(), false, at(0)).expect("stop");
    assert_eq!(controlled.version, 7);
    let capped = plan_group_control(&control("STOP", None, None), i64::MAX, i64::MAX, &stopped(), false, at(0));
    assert_eq!(capped.unwrap_err().message, "version screen group");
    let refused = plan_group_control(&control("PAUSE", None, None), i64::MAX, i64::MAX, &stopped(), false, at(0));
    assert_eq!(refused.unwrap_err().code, "SCREEN_GROUP_NOT_PLAYING");
}
