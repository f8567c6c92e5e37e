use vstd::prelude::*;

use crate::contests::{NANOS_PER_SECOND, Timestamp, in_calendar_range};
use crate::error::{AppError, ErrorKind, coded_error, validation_error};
use crate::presentation::{normalized_upper, screen_view, unsupported_view_error, validate_view};
use crate::text::{chars_of, owned, trim, trimmed, trimmed_upper, str_eq};

verus! {

pub const MAX_NAME_CHARS: usize = 120;

pub const MAX_PLAYLIST_ITEMS: usize = 20;

pub const MAX_GROUP_INSTANCES: usize = 100;

pub const MIN_ITEM_SECONDS: i32 = 5;

pub const MAX_ITEM_SECONDS: i32 = 3600;

/// One step of a playlist as a client submits it.
#[derive(Debug)]
pub struct PlaylistItemRequest {
    pub target_view: String,
    pub duration_seconds: i32,
}

/// A playlist as a client submits it.
#[derive(Debug)]
pub struct PlaylistRequest {
    pub name: String,
    pub loop_enabled: bool,
    pub items: Vec<PlaylistItemRequest>,
    pub expected_version: Option<i64>,
}

/// One stored step of a playlist.
#[derive(Debug)]
pub struct PlaylistItemResponse {
    pub id: i64,
    pub target_view: String,
    pub duration_seconds: i32,
    pub display_order: i32,
}

/// A screen group as a client submits it.
#[derive(Debug)]
pub struct GroupRequest {
    pub name: String,
    pub instance_ids: Vec<i64>,
    pub expected_version: Option<i64>,
}

/// A playback command for a screen group.
#[derive(Debug)]
pub struct GroupControlRequest {
    pub action: String,
    pub playlist_id: Option<i64>,
    pub target_view: Option<String>,
    pub expected_version: Option<i64>,
}

pub open spec fn version_required_error() -> AppError {
    coded_error(ErrorKind::Conflict, "SCREEN_VERSION_REQUIRED", "Expected version is required")
}

pub open spec fn name_length_error() -> AppError {
    validation_error("name", "must contain 1 to 120 characters")
}

pub open spec fn item_count_error() -> AppError {
    validation_error("items", "must contain 1 to 20 items")
}

pub open spec fn item_duration_error() -> AppError {
    validation_error("durationSeconds", "must be between 5 and 3600")
}

pub open spec fn instance_ids_error() -> AppError {
    validation_error("instanceIds", "must contain up to 100 valid instance ids")
}

/// A conflict with the stored state of a playlist or group.
pub fn conflict(code: &'static str, message: &'static str) -> (e: AppError)
    ensures
        e == coded_error(ErrorKind::Conflict, code, message),
{
    AppError::conflict(code, message)
}

/// Changes to playlists and groups must name the version they were based on.
pub fn require_version(value: Option<i64>) -> (r: Result<i64, AppError>)
    ensures
        r == match value {
            Some(v) => Ok(v),
            None => Err(version_required_error()),
        },
{
    match value {
        Some(v) => Ok(v),
        None => Err(conflict("SCREEN_VERSION_REQUIRED", "Expected version is required")),
    }
}

/// A playlist or group name as stored: without surrounding white space.
pub fn normalized_name(value: &str) -> (r: String)
    ensures
        r@ == trim(value@),
{
    trimmed(value)
}

pub open spec fn name_is_valid(name: Seq<char>) -> bool {
    0 < name.len() <= MAX_NAME_CHARS
}

/// How one playlist step is judged: the view it shows, or its error.
pub open spec fn item_check(item: PlaylistItemRequest) -> Result<&'static str, AppError> {
    match screen_view(normalized_upper(item.target_view@)) {
        None => Err(unsupported_view_error()),
        Some(v) => if MIN_ITEM_SECONDS <= item.duration_seconds <= MAX_ITEM_SECONDS {
            Ok(v)
        } else {
            Err(item_duration_error())
        },
    }
}

/// The first error among the steps from index `i` on, in order.
pub open spec fn items_check_from(items: Seq<PlaylistItemRequest>, i: int) -> Result<(), AppError>
    decreases items.len() - i,
{
    if i < 0 || i >= items.len() {
        Ok(())
    } else {
        match item_check(items[i]) {
            Ok(_) => items_check_from(items, i + 1),
            Err(e) => Err(e),
        }
    }
}

/// How many steps, from index `i` on, get their view rewritten before the
/// check stops: every step that passes, and the failing one if only its
/// duration is wrong.
pub open spec fn views_written_from(items: Seq<PlaylistItemRequest>, i: int) -> int
    decreases items.len() - i,
{
    if i < 0 || i >= items.len() {
        items.len() as int
    } else {
        match item_check(items[i]) {
            Ok(_) => views_written_from(items, i + 1),
            Err(_) => if screen_view(normalized_upper(items[i].target_view@)) is Some {
                i + 1
            } else {
                i
            },
        }
    }
}

/// How a playlist is judged, given its trimmed name and its steps.
pub open spec fn playlist_check(name: Seq<char>, items: Seq<PlaylistItemRequest>) -> Result<(), AppError> {
    if !name_is_valid(name) {
        Err(name_length_error())
    } else if items.len() == 0 || items.len() > MAX_PLAYLIST_ITEMS {
        Err(item_count_error())
    } else {
        items_check_from(items, 0)
    }
}

/// How many steps a playlist check rewrites.
pub open spec fn playlist_views_written(name: Seq<char>, items: Seq<PlaylistItemRequest>) -> int {
    if !name_is_valid(name) || items.len() == 0 || items.len() > MAX_PLAYLIST_ITEMS {
        0
    } else {
        views_written_from(items, 0)
    }
}

/// A step with its view rewritten to the canonical name it denotes.
pub open spec fn canonical_view(item: PlaylistItemRequest) -> Seq<char> {
    match screen_view(normalized_upper(item.target_view@)) {
        Some(v) => v@,
        None => item.target_view@,
    }
}

/// Validates a playlist in place: the name is trimmed, and each step's view
/// is rewritten to its canonical name as the steps are checked in order.
pub fn validate_playlist(request: &mut PlaylistRequest) -> (r: Result<(), AppError>)
    ensures
        r == playlist_check(trim(old(request).name@), old(request).items@),
        final(request).name@ == trim(old(request).name@),
        final(request).loop_enabled == old(request).loop_enabled,
        final(request).expected_version == old(request).expected_version,
        final(request).items.len() == old(request).items.len(),
        forall|i: int|
            0 <= i < old(request).items.len() ==> {
                &&& (#[trigger] final(request).items@[i]).duration_seconds
                    == old(request).items@[i].duration_seconds
                &&& final(request).items@[i].target_view@ == if i < playlist_views_written(
                    trim(old(request).name@),
                    old(request).items@,
                ) {
                    canonical_view(old(request).items@[i])
                } else {
                    old(request).items@[i].target_view@
                }
            },
{
    let ghost original = old(request).items@;
    request.name = normalized_name(request.name.as_str());
    let name_chars = chars_of(request.name.as_str());
    if name_chars.len() == 0 || name_chars.len() > MAX_NAME_CHARS {
        return Err(AppError::validation("name", "must contain 1 to 120 characters"));
    }
    if request.items.len() == 0 || request.items.len() > MAX_PLAYLIST_ITEMS {
        return Err(AppError::validation("items", "must contain 1 to 20 items"));
    }
    let n = request.items.len();
    let mut k: usize = 0;
    while k < n
        invariant
            original == old(request).items@,
            n == request.items.len() == original.len(),
            k <= n,
            request.name@ == trim(old(request).name@),
            request.loop_enabled == old(request).loop_enabled,
            request.expected_version == old(request).expected_version,
            name_is_valid(request.name@),
            0 < n <= MAX_PLAYLIST_ITEMS,
            items_check_from(original, 0) == items_check_from(original, k as int),
            views_written_from(original, 0) == views_written_from(original, k as int),
            forall|j: int| 0 <= j < k ==> item_check(#[trigger] original[j]) is Ok,
            forall|j: int|
                0 <= j < n ==> {
                    &&& (#[trigger] request.items@[j]).duration_seconds == original[j].duration_seconds
                    &&& request.items@[j].target_view@ == if j < k {
                        canonical_view(original[j])
                    } else {
                        original[j].target_view@
                    }
                },
        decreases n - k,
    {
        let view = validate_view(request.items[k].target_view.as_str());
        match view {
            Err(e) => {
                assert(items_check_from(original, k as int) == Err::<(), AppError>(e));
                return Err(e);
            },
            Ok(v) => {
                let duration = request.items[k].duration_seconds;
                request.items[k].target_view = owned(v);
                if duration < MIN_ITEM_SECONDS || duration > MAX_ITEM_SECONDS {
                    return Err(AppError::validation("durationSeconds", "must be between 5 and 3600"));
                }
            },
        }
        k += 1;
    }
    Ok(())
}

/// The sequence with every repeated element removed, keeping the first
/// occurrence of each in its place.
pub open spec fn first_occurrences(s: Seq<i64>) -> Seq<i64>
    decreases s.len(),
{
    if s.len() == 0 {
        Seq::empty()
    } else {
        let kept = first_occurrences(s.drop_last());
        if kept.contains(s.last()) {
            kept
        } else {
            kept.push(s.last())
        }
    }
}

/// Deduplication keeps exactly the members of the sequence, each once.
pub proof fn first_occurrences_are_distinct_and_complete(s: Seq<i64>)
    ensures
        first_occurrences(s).no_duplicates(),
        forall|x: i64| #[trigger] first_occurrences(s).contains(x) <==> s.contains(x),
        first_occurrences(s).len() <= s.len(),
    decreases s.len(),
{
    if s.len() > 0 {
        let rest = s.drop_last();
        first_occurrences_are_distinct_and_complete(rest);
        assert forall|x: i64| #[trigger] first_occurrences(s).contains(x) <==> s.contains(x) by {
            if s.contains(x) && x != s.last() {
                let i = choose|i: int| 0 <= i < s.len() && s[i] == x;
                assert(rest[i] == x);
            }
            if rest.contains(x) {
                let i = choose|i: int| 0 <= i < rest.len() && rest[i] == x;
                assert(s[i] == x);
            }
            if first_occurrences(rest).contains(x) && !first_occurrences(rest).contains(s.last()) {
                let i = choose|i: int| 0 <= i < first_occurrences(rest).len() && first_occurrences(rest)[i] == x;
                assert(first_occurrences(s)[i] == x);
            }
            if !first_occurrences(rest).contains(s.last()) && x == s.last() {
                assert(first_occurrences(s)[first_occurrences(rest).len() as int] == x);
            }
        }
    }
}

/// How a group is judged, given its trimmed name and its submitted members.
pub open spec fn group_check(name: Seq<char>, ids: Seq<i64>) -> Result<(), AppError> {
    if !name_is_valid(name) {
        Err(name_length_error())
    } else if first_occurrences(ids).len() > MAX_GROUP_INSTANCES || exists|i: int|
        0 <= i < ids.len() && #[trigger] ids[i] <= 0 {
        Err(instance_ids_error())
    } else {
        Ok(())
    }
}

/// Validates a group in place: the name is trimmed and, once the name is
/// accepted, repeated instance ids are dropped, keeping first occurrences.
pub fn validate_group(request: &mut GroupRequest) -> (r: Result<(), AppError>)
    ensures
        r == group_check(trim(old(request).name@), old(request).instance_ids@),
        final(request).name@ == trim(old(request).name@),
        final(request).expected_version == old(request).expected_version,
        final(request).instance_ids@ == if name_is_valid(trim(old(request).name@)) {
            first_occurrences(old(request).instance_ids@)
        } else {
            old(request).instance_ids@
        },
{
    broadcast use vstd::std_specs::hash::group_hash_axioms;

    request.name = normalized_name(request.name.as_str());
    let name_chars = chars_of(request.name.as_str());
    if name_chars.len() == 0 || name_chars.len() > MAX_NAME_CHARS {
        return Err(AppError::validation("name", "must contain 1 to 120 characters"));
    }
    let ids = &request.instance_ids;
    let mut seen: std::collections::HashSet<i64> = std::collections::HashSet::new();
    let mut kept: Vec<i64> = Vec::new();
    let mut any_invalid = false;
    let mut k: usize = 0;
    while k < ids.len()
        invariant
            k <= ids.len(),
            kept@ == first_occurrences(ids@.subrange(0, k as int)),
            forall|x: i64| seen@.contains(x) <==> kept@.contains(x),
            any_invalid <==> exists|i: int| 0 <= i < k && #[trigger] ids@[i] <= 0,
        decreases ids.len() - k,
    {
        let id = ids[k];
        assert(ids@.subrange(0, k + 1).drop_last() =~= ids@.subrange(0, k as int));
        let ghost before = kept@;
        if seen.insert(id) {
            kept.push(id);
            assert(forall|x: i64| kept@.contains(x) <==> (before.contains(x) || x == id)) by {
                assert(kept@[before.len() as int] == id);
                assert forall|x: i64| before.contains(x) implies kept@.contains(x) by {
                    let i = choose|i: int| 0 <= i < before.len() && before[i] == x;
                    assert(kept@[i] == x);
                }
            }
        }
        if id <= 0 {
            any_invalid = true;
        }
        k += 1;
    }
    assert(ids@.subrange(0, ids.len() as int) =~= ids@);
    request.instance_ids = kept;
    if request.instance_ids.len() > MAX_GROUP_INSTANCES || any_invalid {
        return Err(AppError::validation("instanceIds", "must contain up to 100 valid instance ids"));
    }
    Ok(())
}

/// The position that a stored playlist step takes: its index counted from 1,
/// or the largest `i32` where that does not fit.
pub fn item_display_order(index: usize) -> (order: i32)
    ensures
        order == if index + 1 <= i32::MAX { (index + 1) as int } else { i32::MAX as int },
{
    if index < (i32::MAX as usize) {
        (index + 1) as i32
    } else {
        i32::MAX
    }
}

pub open spec fn member_count_error() -> AppError {
    validation_error("instanceIds", "SCREEN_GROUP_INSTANCE_INVALID")
}

pub open spec fn already_grouped_error() -> AppError {
    coded_error(
        ErrorKind::Conflict,
        "SCREEN_INSTANCE_ALREADY_GROUPED",
        "Screen instance already belongs to another group",
    )
}

/// Whether a group's members may be replaced: every requested instance must
/// be a live instance of the contest (`valid_count` of them were found), and
/// none may belong to another group.
pub fn check_members(valid_count: i64, requested: usize, grouped_elsewhere: bool) -> (r: Result<(), AppError>)
    ensures
        r == if valid_count != requested {
            Err(member_count_error())
        } else if grouped_elsewhere {
            Err(already_grouped_error())
        } else {
            Ok(())
        },
{
    if valid_count < 0 || (valid_count as u64) != (requested as u64) {
        return Err(AppError::validation("instanceIds", "SCREEN_GROUP_INSTANCE_INVALID"));
    }
    if grouped_elsewhere {
        return Err(conflict(
            "SCREEN_INSTANCE_ALREADY_GROUPED",
            "Screen instance already belongs to another group",
        ));
    }
    Ok(())
}

/// The playback state of a screen group.
#[derive(Debug, Clone, Copy, PartialEq, Eq, Structural)]
pub enum PlaybackStatus {
    Stopped,
    Playing,
    Paused,
}

pub open spec fn playback_status_name(status: PlaybackStatus) -> &'static str {
    match status {
        PlaybackStatus::Stopped => "STOPPED",
        PlaybackStatus::Playing => "PLAYING",
        PlaybackStatus::Paused => "PAUSED",
    }
}

impl PlaybackStatus {
    pub fn as_str(self) -> (s: &'static str)
        ensures
            s == playback_status_name(self),
    {
        match self {
            PlaybackStatus::Stopped => "STOPPED",
            PlaybackStatus::Playing => "PLAYING",
            PlaybackStatus::Paused => "PAUSED",
        }
    }

    /// Reads a stored playback status.
    pub fn from_name(value: &str) -> (r: Option<PlaybackStatus>)
        ensures
            r == if value@ == "STOPPED"@ {
                Some(PlaybackStatus::Stopped)
            } else if value@ == "PLAYING"@ {
                Some(PlaybackStatus::Playing)
            } else if value@ == "PAUSED"@ {
                Some(PlaybackStatus::Paused)
            } else {
                None::<PlaybackStatus>
            },
    {
        if str_eq(value, "STOPPED") {
            Some(PlaybackStatus::Stopped)
        } else if str_eq(value, "PLAYING") {
            Some(PlaybackStatus::Playing)
        } else if str_eq(value, "PAUSED") {
            Some(PlaybackStatus::Paused)
        } else {
            None
        }
    }
}

/// The stored playback state of a screen group.
#[derive(Debug)]
pub struct GroupPlayback {
    pub status: PlaybackStatus,
    pub playlist_id: Option<i64>,
    pub started_at: Option<Timestamp>,
    pub paused_elapsed_seconds: i64,
    pub locked_view: Option<String>,
}

/// The playback state as plain values.
pub struct PlaybackModel {
    pub status: PlaybackStatus,
    pub playlist_id: Option<i64>,
    pub started_at: Option<Timestamp>,
    pub paused_elapsed_seconds: i64,
    pub locked_view: Option<Seq<char>>,
}

impl View for GroupPlayback {
    type V = PlaybackModel;

    open spec fn view(&self) -> PlaybackModel {
        PlaybackModel {
            status: self.status,
            playlist_id: self.playlist_id,
            started_at: self.started_at,
            paused_elapsed_seconds: self.paused_elapsed_seconds,
            locked_view: match self.locked_view {
                Some(v) => Some(v@),
                None => None,
            },
        }
    }
}

/// A consistent playback state: a stopped group has no playlist and no
/// clock; a playing group has both; a paused group keeps both and a
/// non-negative elapsed time.
pub open spec fn playback_well_formed(p: PlaybackModel) -> bool {
    match p.status {
        PlaybackStatus::Stopped => p.playlist_id is None && p.started_at is None
            && p.paused_elapsed_seconds == 0,
        PlaybackStatus::Playing => p.playlist_id is Some && p.started_at is Some,
        PlaybackStatus::Paused => p.playlist_id is Some && p.started_at is Some
            && p.paused_elapsed_seconds >= 0,
    }
}

/// Whether the stored instants of a state lie in the calendar range.
pub open spec fn playback_in_range(p: PlaybackModel) -> bool {
    match p.started_at {
        Some(t) => in_calendar_range(t),
        None => true,
    }
}

/// A command for a screen group.
#[derive(Debug, Clone, Copy, PartialEq, Eq, Structural)]
pub enum GroupAction {
    Play,
    Pause,
    Resume,
    Stop,
    Lock,
    Unlock,
}

/// The command named `name`, if any.
pub open spec fn group_action(name: Seq<char>) -> Option<GroupAction> {
    if name == "PLAY"@ {
        Some(GroupAction::Play)
    } else if name == "PAUSE"@ {
        Some(GroupAction::Pause)
    } else if name == "RESUME"@ {
        Some(GroupAction::Resume)
    } else if name == "STOP"@ {
        Some(GroupAction::Stop)
    } else if name == "LOCK"@ {
        Some(GroupAction::Lock)
    } else if name == "UNLOCK"@ {
        Some(GroupAction::Unlock)
    } else {
        None
    }
}

impl GroupAction {
    /// Reads a command, ignoring surrounding white space and ASCII case.
    pub fn parse(action: &str) -> (r: Option<GroupAction>)
        ensures
            r == group_action(normalized_upper(action@)),
    {
        let name = trimmed_upper(action);
        let name = name.as_str();
        if str_eq(name, "PLAY") {
            Some(GroupAction::Play)
        } else if str_eq(name, "PAUSE") {
            Some(GroupAction::Pause)
        } else if str_eq(name, "RESUME") {
            Some(GroupAction::Resume)
        } else if str_eq(name, "STOP") {
            Some(GroupAction::Stop)
        } else if str_eq(name, "LOCK") {
            Some(GroupAction::Lock)
        } else if str_eq(name, "UNLOCK") {
            Some(GroupAction::Unlock)
        } else {
            None
        }
    }
}

pub open spec fn group_version_conflict_error() -> AppError {
    coded_error(ErrorKind::Conflict, "SCREEN_GROUP_VERSION_CONFLICT", "Screen group was changed")
}

pub open spec fn playlist_required_error() -> AppError {
    validation_error("playlistId", "SCREEN_PLAYLIST_REQUIRED")
}

pub open spec fn playlist_unusable_error() -> AppError {
    coded_error(ErrorKind::NotFound, "SCREEN_PLAYLIST_NOT_FOUND", "Screen playlist was not found or empty")
}

pub open spec fn not_playing_error() -> AppError {
    coded_error(ErrorKind::Conflict, "SCREEN_GROUP_NOT_PLAYING", "Screen group is not playing")
}

pub open spec fn not_paused_error() -> AppError {
    coded_error(ErrorKind::Conflict, "SCREEN_GROUP_NOT_PAUSED", "Screen group is not paused")
}

pub open spec fn target_required_error() -> AppError {
    validation_error("targetView", "SCREEN_TARGET_REQUIRED")
}

pub open spec fn unknown_action_error() -> AppError {
    validation_error("action", "must be PLAY, PAUSE, RESUME, STOP, LOCK or UNLOCK")
}

/// Whole seconds from `started` to `now`, rounded to the nearest second
/// (halves away from zero) and never negative.
pub open spec fn elapsed_seconds(started: Timestamp, now: Timestamp) -> int {
    let d = now.unix_nanos - started.unix_nanos;
    if d <= 0 {
        0
    } else {
        (d + 500_000_000) / 1_000_000_000
    }
}

/// The state a group reaches under a command, or the error that refuses it.
/// `playlist_usable` says whether the requested playlist belongs to the
/// group's contest and has at least one step.
pub open spec fn control_outcome(
    action: Option<GroupAction>,
    playlist_id: Option<i64>,
    target_view: Option<Seq<char>>,
    state: PlaybackModel,
    playlist_usable: bool,
    now: Timestamp,
) -> Result<PlaybackModel, AppError> {
    match action {
        Some(GroupAction::Play) => match playlist_id {
            None => Err(playlist_required_error()),
            Some(p) => if !playlist_usable {
                Err(playlist_unusable_error())
            } else {
                Ok(PlaybackModel {
                    status: PlaybackStatus::Playing,
                    playlist_id: Some(p),
                    started_at: Some(now),
                    paused_elapsed_seconds: 0,
                    locked_view: None,
                })
            },
        },
        Some(GroupAction::Pause) => match state.started_at {
            Some(started) => if state.status == PlaybackStatus::Playing {
                Ok(PlaybackModel {
                    status: PlaybackStatus::Paused,
                    paused_elapsed_seconds: elapsed_seconds(started, now) as i64,
                    ..state
                })
            } else {
                Err(not_playing_error())
            },
            None => Err(not_playing_error()),
        },
        Some(GroupAction::Resume) => if state.status == PlaybackStatus::Paused
            && state.playlist_id is Some {
            Ok(PlaybackModel {
                status: PlaybackStatus::Playing,
                started_at: Some(
                    Timestamp {
                        unix_nanos: (now.unix_nanos - state.paused_elapsed_seconds
                            * NANOS_PER_SECOND) as i128,
                    },
                ),
                ..state
            })
        } else {
            Err(not_paused_error())
        },
        Some(GroupAction::Stop) => Ok(PlaybackModel {
            status: PlaybackStatus::Stopped,
            playlist_id: None,
            started_at: None,
            paused_elapsed_seconds: 0,
            ..state
        }),
        Some(GroupAction::Lock) => match target_view {
            None => Err(target_required_error()),
            Some(t) => match screen_view(normalized_upper(t)) {
                None => Err(unsupported_view_error()),
                Some(v) => Ok(PlaybackModel { locked_view: Some(v@), ..state }),
            },
        },
        Some(GroupAction::Unlock) => Ok(PlaybackModel { locked_view: None, ..state }),
        None => Err(unknown_action_error()),
    }
}

pub open spec fn optional_view(value: Option<String>) -> Option<Seq<char>> {
    match value {
        Some(v) => Some(v@),
        None => None,
    }
}

/// A group after an accepted command: its playback state and its new version.
#[derive(Debug)]
pub struct ControlledGroup {
    pub playback: GroupPlayback,
    pub version: i64,
}

pub open spec fn version_bump_error() -> AppError {
    coded_error(ErrorKind::Internal, "INTERNAL_ERROR", "version screen group")
}

/// Decides a playback command for a group whose stored version is
/// `current_version`: a command based on another version is refused;
/// otherwise the command moves the stored state as `control_outcome` says,
/// and the group's version goes up by one (a version that cannot go up is an
/// internal error of the store).
pub fn plan_group_control(
    request: &GroupControlRequest,
    expected_version: i64,
    current_version: i64,
    state: &GroupPlayback,
    playlist_usable: bool,
    now: Timestamp,
) -> (r: Result<ControlledGroup, AppError>)
    requires
        in_calendar_range(now),
        playback_in_range(state@),
    ensures
        current_version != expected_version ==> r == Err::<ControlledGroup, AppError>(
            group_version_conflict_error(),
        ),
        current_version == expected_version ==> match control_outcome(
            group_action(normalized_upper(request.action@)),
            request.playlist_id,
            optional_view(request.target_view),
            state@,
            playlist_usable,
            now,
        ) {
            Ok(next) => if current_version == i64::MAX {
                r == Err::<ControlledGroup, AppError>(version_bump_error())
            } else {
                r is Ok && r.unwrap().playback@ == next && r.unwrap().version == current_version + 1
            },
            Err(e) => r == Err::<ControlledGroup, AppError>(e),
        },
{
    if current_version != expected_version {
        return Err(conflict("SCREEN_GROUP_VERSION_CONFLICT", "Screen group was changed"));
    }
    let playback = apply_group_action(request, state, playlist_usable, now)?;
    if current_version == i64::MAX {
        return Err(AppError::internal("version screen group"));
    }
    Ok(ControlledGroup { playback, version: current_version + 1 })
}

/// The state a group reaches under a command, as `control_outcome` says.
fn apply_group_action(
    request: &GroupControlRequest,
    state: &GroupPlayback,
    playlist_usable: bool,
    now: Timestamp,
) -> (r: Result<GroupPlayback, AppError>)
    requires
        in_calendar_range(now),
        playback_in_range(state@),
    ensures
        match control_outcome(
            group_action(normalized_upper(request.action@)),
            request.playlist_id,
            optional_view(request.target_view),
            state@,
            playlist_usable,
            now,
        ) {
            Ok(next) => r is Ok && r.unwrap()@ == next,
            Err(e) => r == Err::<GroupPlayback, AppError>(e),
        },
{
    let kept_view = match &state.locked_view {
        Some(v) => Some(owned(v.as_str())),
        None => None,
    };
    match GroupAction::parse(request.action.as_str()) {
        Some(GroupAction::Play) => match request.playlist_id {
            None => Err(AppError::validation("playlistId", "SCREEN_PLAYLIST_REQUIRED")),
            Some(p) => {
                if !playlist_usable {
                    return Err(AppError::not_found(
                        "SCREEN_PLAYLIST_NOT_FOUND",
                        "Screen playlist was not found or empty",
                    ));
                }
                Ok(GroupPlayback {
                    status: PlaybackStatus::Playing,
                    playlist_id: Some(p),
                    started_at: Some(now),
                    paused_elapsed_seconds: 0,
                    locked_view: None,
                })
            },
        },
        Some(GroupAction::Pause) => match state.started_at {
            Some(started) => {
                if state.status != PlaybackStatus::Playing {
                    return Err(conflict("SCREEN_GROUP_NOT_PLAYING", "Screen group is not playing"));
                }
                let d: i128 = now.unix_nanos - started.unix_nanos;
                let elapsed: i64 = if d <= 0 {
                    0
                } else {
                    ((d + NANOS_PER_SECOND / 2) / NANOS_PER_SECOND) as i64
                };
                Ok(GroupPlayback {
                    status: PlaybackStatus::Paused,
                    playlist_id: state.playlist_id,
                    started_at: state.started_at,
                    paused_elapsed_seconds: elapsed,
                    locked_view: kept_view,
                })
            },
            None => Err(conflict("SCREEN_GROUP_NOT_PLAYING", "Screen group is not playing")),
        },
        Some(GroupAction::Resume) => {
            if state.status != PlaybackStatus::Paused || state.playlist_id.is_none() {
                return Err(conflict("SCREEN_GROUP_NOT_PAUSED", "Screen group is not paused"));
            }
            let offset: i128 = (state.paused_elapsed_seconds as i128) * NANOS_PER_SECOND;
            Ok(GroupPlayback {
                status: PlaybackStatus::Playing,
                playlist_id: state.playlist_id,
                started_at: Some(Timestamp { unix_nanos: now.unix_nanos - offset }),
                paused_elapsed_seconds: state.paused_elapsed_seconds,
                locked_view: kept_view,
            })
        },
        Some(GroupAction::Stop) => Ok(GroupPlayback {
            status: PlaybackStatus::Stopped,
            playlist_id: None,
            started_at: None,
            paused_elapsed_seconds: 0,
            locked_view: kept_view,
        }),
        Some(GroupAction::Lock) => match &request.target_view {
            None => Err(AppError::validation("targetView", "SCREEN_TARGET_REQUIRED")),
            Some(t) => match validate_view(t.as_str()) {
                Err(e) => Err(e),
                Ok(v) => Ok(GroupPlayback {
                    status: state.status,
                    playlist_id: state.playlist_id,
                    started_at: state.started_at,
                    paused_elapsed_seconds: state.paused_elapsed_seconds,
                    locked_view: Some(owned(v)),
                }),
            },
        },
        Some(GroupAction::Unlock) => Ok(GroupPlayback {
            status: state.status,
            playlist_id: state.playlist_id,
            started_at: state.started_at,
            paused_elapsed_seconds: state.paused_elapsed_seconds,
            locked_view: None,
        }),
        None => Err(AppError::validation("action", "must be PLAY, PAUSE, RESUME, STOP, LOCK or UNLOCK")),
    }
}

/// How far into its playlist a group is at `now`, in nanoseconds: the time
/// since its clock started while playing, the stored elapsed time while
/// paused, and nothing while stopped.
pub open spec fn playback_position(p: PlaybackModel, now: Timestamp) -> int {
    match p.status {
        PlaybackStatus::Playing => match p.started_at {
            Some(s) => now.unix_nanos - s.unix_nanos,
            None => 0,
        },
        PlaybackStatus::Paused => p.paused_elapsed_seconds * NANOS_PER_SECOND,
        PlaybackStatus::Stopped => 0,
    }
}

/// Pausing a playing group keeps its position to the nearest second, and
/// resuming it later continues from exactly the position it was paused at.
pub proof fn pause_then_resume_keeps_position(
    state: PlaybackModel,
    paused_at: Timestamp,
    resumed_at: Timestamp,
)
    requires
        playback_well_formed(state),
        state.status == PlaybackStatus::Playing,
        playback_in_range(state),
        in_calendar_range(paused_at),
        in_calendar_range(resumed_at),
        state.started_at.unwrap().unix_nanos <= paused_at.unix_nanos,
    ensures
        ({
            let paused = control_outcome(Some(GroupAction::Pause), None, None, state, false, paused_at);
            &&& paused is Ok
            &&& paused.unwrap().status == PlaybackStatus::Paused
            &&& playback_position(state, paused_at) - NANOS_PER_SECOND / 2 < playback_position(
                paused.unwrap(),
                paused_at,
            ) <= playback_position(state, paused_at) + NANOS_PER_SECOND / 2
            &&& ({
                let resumed = control_outcome(
                    Some(GroupAction::Resume),
                    None,
                    None,
                    paused.unwrap(),
                    false,
                    resumed_at,
                );
                &&& resumed is Ok
                &&& resumed.unwrap().status == PlaybackStatus::Playing
                &&& playback_position(resumed.unwrap(), resumed_at) == playback_position(
                    paused.unwrap(),
                    resumed_at,
                )
            })
        }),
{
    let s = state.started_at.unwrap();
    let d = paused_at.unix_nanos - s.unix_nanos;
    let e = elapsed_seconds(s, paused_at);
    if d > 0 {
        assert(e * 1_000_000_000 <= d + 500_000_000 < e * 1_000_000_000 + 1_000_000_000) by (nonlinear_arith)
            requires
                e == (d + 500_000_000) / 1_000_000_000,
                d > 0,
        ;
    }
    assert(0 <= e <= 800_000_000_001);
}

/// PAUSE is accepted only from PLAYING and RESUME only from PAUSED: from any
/// other state they are refused (SCREEN_GROUP_NOT_PLAYING and
/// SCREEN_GROUP_NOT_PAUSED) and no new state comes out. An accepted PAUSE
/// leaves the group paused on the same playlist, clock and locked view; an
/// accepted RESUME leaves it playing on the same playlist and locked view.
pub proof fn pause_and_resume_need_their_states(
    playlist_id: Option<i64>,
    target_view: Option<Seq<char>>,
    state: PlaybackModel,
    playlist_usable: bool,
    now: Timestamp,
)
    ensures
        state.status != PlaybackStatus::Playing ==> control_outcome(
            Some(GroupAction::Pause),
            playlist_id,
            target_view,
            state,
            playlist_usable,
            now,
        ) == Err::<PlaybackModel, AppError>(not_playing_error()),
        state.status != PlaybackStatus::Paused ==> control_outcome(
            Some(GroupAction::Resume),
            playlist_id,
            target_view,
            state,
            playlist_usable,
            now,
        ) == Err::<PlaybackModel, AppError>(not_paused_error()),
        playback_well_formed(state) && state.status == PlaybackStatus::Playing ==> (control_outcome(
            Some(GroupAction::Pause),
            playlist_id,
            target_view,
            state,
            playlist_usable,
            now,
        ) matches Ok(next) && next.status == PlaybackStatus::Paused && next.playlist_id
            == state.playlist_id && next.started_at == state.started_at && next.locked_view
            == state.locked_view),
        playback_well_formed(state) && state.status == PlaybackStatus::Paused ==> (control_outcome(
            Some(GroupAction::Resume),
            playlist_id,
            target_view,
            state,
            playlist_usable,
            now,
        ) matches Ok(next) && next.status == PlaybackStatus::Playing && next.playlist_id
            == state.playlist_id && next.locked_view == state.locked_view),
{
}

/// The other commands: PLAY starts the requested playlist from the
/// beginning now and needs a playlist that is usable; STOP always stops the
/// group, dropping its playlist and clock; LOCK pins the group to a screen
/// view it names and UNLOCK frees it, both leaving playback as it was; an
/// unknown command is refused.
pub proof fn play_stop_lock_and_unlock(
    playlist_id: Option<i64>,
    target_view: Option<Seq<char>>,
    state: PlaybackModel,
    playlist_usable: bool,
    now: Timestamp,
)
    ensures
        (control_outcome(Some(GroupAction::Play), playlist_id, target_view, state, playlist_usable, now)
            is Ok) <==> (playlist_id is Some && playlist_usable),
        playlist_id is None ==> control_outcome(
            Some(GroupAction::Play),
            playlist_id,
            target_view,
            state,
            playlist_usable,
            now,
        ) == Err::<PlaybackModel, AppError>(playlist_required_error()),
        control_outcome(Some(GroupAction::Play), playlist_id, target_view, state, playlist_usable, now)
            matches Ok(next) ==> next.status == PlaybackStatus::Playing && next.playlist_id
            == playlist_id && next.started_at == Some(now) && playback_position(next, now) == 0
            && next.locked_view is None,
        (control_outcome(Some(GroupAction::Stop), playlist_id, target_view, state, playlist_usable, now)
            matches Ok(next) && next.status == PlaybackStatus::Stopped && next.playlist_id is None
            && next.started_at is None && next.locked_view == state.locked_view),
        (control_outcome(Some(GroupAction::Unlock), playlist_id, target_view, state, playlist_usable, now)
            matches Ok(next) && next.locked_view is None && next.status == state.status
            && next.playlist_id == state.playlist_id && next.started_at == state.started_at
            && next.paused_elapsed_seconds == state.paused_elapsed_seconds),
        control_outcome(Some(GroupAction::Lock), playlist_id, target_view, state, playlist_usable, now)
            matches Ok(next) ==> target_view is Some && next.locked_view == Some(
            screen_view(normalized_upper(target_view->0))->0@,
        ) && next.status == state.status && next.playlist_id == state.playlist_id
            && next.started_at == state.started_at && next.paused_elapsed_seconds
            == state.paused_elapsed_seconds,
        target_view is None ==> control_outcome(
            Some(GroupAction::Lock),
            playlist_id,
            target_view,
            state,
            playlist_usable,
            now,
        ) == Err::<PlaybackModel, AppError>(target_required_error()),
        control_outcome(None, playlist_id, target_view, state, playlist_usable, now) == Err::<
            PlaybackModel,
            AppError,
        >(unknown_action_error()),
{
}

/// Every accepted command keeps a consistent playback state consistent.
pub proof fn control_keeps_playback_well_formed(
    action: Option<GroupAction>,
    playlist_id: Option<i64>,
    target_view: Option<Seq<char>>,
    state: PlaybackModel,
    playlist_usable: bool,
    now: Timestamp,
)
    requires
        playback_well_formed(state),
        playback_in_range(state),
        in_calendar_range(now),
    ensures
        control_outcome(action, playlist_id, target_view, state, playlist_usable, now) is Ok
            ==> playback_well_formed(
            control_outcome(action, playlist_id, target_view, state, playlist_usable, now).unwrap(),
        ),
{
}

/// The member instances of group `group`, in the order of `rows`, each row
/// being a `(group, instance)` pair.
pub open spec fn members_of(rows: Seq<(i64, i64)>, group: i64) -> Seq<i64>
    decreases rows.len(),
{
    if rows.len() == 0 {
        Seq::empty()
    } else {
        let rest = members_of(rows.drop_last(), group);
        if rows.last().0 == group {
            rest.push(rows.last().1)
        } else {
            rest
        }
    }
}

/// The members of each listed group: the rows of the group, in order; a
/// group listed twice gets its members only the first time.
pub fn group_members(group_ids: &Vec<i64>, rows: &Vec<(i64, i64)>) -> (r: Vec<Vec<i64>>)
    ensures
        r.len() == group_ids.len(),
        forall|i: int|
            0 <= i < group_ids.len() ==> (#[trigger] r@[i])@ == if exists|j: int|
                0 <= j < i && group_ids@[j] == group_ids@[i] {
                Seq::<i64>::empty()
            } else {
                members_of(rows@, group_ids@[i])
            },
{
    let mut out: Vec<Vec<i64>> = Vec::new();
    let mut i: usize = 0;
    while i < group_ids.len()
        invariant
            i <= group_ids.len(),
            out.len() == i,
            forall|k: int|
                0 <= k < i ==> (#[trigger] out@[k])@ == if exists|j: int|
                    0 <= j < k && group_ids@[j] == group_ids@[k] {
                    Seq::<i64>::empty()
                } else {
                    members_of(rows@, group_ids@[k])
                },
        decreases group_ids.len() - i,
    {
        let id = group_ids[i];
        let mut seen_before = false;
        let mut j: usize = 0;
        while j < i
            invariant
                j <= i < group_ids.len(),
                id == group_ids@[i as int],
                seen_before <==> exists|m: int| 0 <= m < j && group_ids@[m] == id,
            decreases i - j,
        {
            if group_ids[j] == id {
                seen_before = true;
            }
            j += 1;
        }
        let mut members: Vec<i64> = Vec::new();
        if !seen_before {
            let mut k: usize = 0;
            while k < rows.len()
                invariant
                    k <= rows.len(),
                    members@ == members_of(rows@.subrange(0, k as int), id),
                decreases rows.len() - k,
            {
                assert(rows@.subrange(0, k + 1).drop_last() =~= rows@.subrange(0, k as int));
                let (g, instance) = rows[k];
                if g == id {
                    members.push(instance);
                }
                k += 1;
            }
            assert(rows@.subrange(0, rows.len() as int) =~= rows@);
        }
        out.push(members);
        i += 1;
    }
    out
}

pub open spec fn playlist_not_found_error() -> AppError {
    coded_error(ErrorKind::NotFound, "SCREEN_PLAYLIST_NOT_FOUND", "Screen playlist was not found")
}

pub open spec fn playlist_version_conflict_error() -> AppError {
    coded_error(ErrorKind::Conflict, "SCREEN_PLAYLIST_VERSION_CONFLICT", "Screen playlist was changed")
}

pub open spec fn playlist_in_use_error() -> AppError {
    coded_error(ErrorKind::Conflict, "SCREEN_PLAYLIST_IN_USE", "Screen playlist is in use")
}

pub open spec fn playlist_name_taken_error() -> AppError {
    coded_error(ErrorKind::Conflict, "SCREEN_PLAYLIST_NAME_TAKEN", "Screen playlist name is already used")
}

pub open spec fn group_not_found_error() -> AppError {
    coded_error(ErrorKind::NotFound, "SCREEN_GROUP_NOT_FOUND", "Screen group was not found")
}

pub open spec fn group_name_taken_error() -> AppError {
    coded_error(ErrorKind::Conflict, "SCREEN_GROUP_NAME_TAKEN", "Screen group name is already used")
}

/// A new playlist needs a name not yet used in its contest.
pub fn playlist_name_available(taken: bool) -> (r: Result<(), AppError>)
    ensures
        r == if taken {
            Err(playlist_name_taken_error())
        } else {
            Ok::<(), AppError>(())
        },
{
    if taken {
        Err(conflict("SCREEN_PLAYLIST_NAME_TAKEN", "Screen playlist name is already used"))
    } else {
        Ok(())
    }
}

/// Whether a stored playlist (`current` holds its contest and version) may
/// be replaced: it must exist in a live contest, still be at the version
/// the change was based on, not be played by any group, and its new name
/// must be free in the contest. On success, the playlist's contest.
pub fn playlist_update_check(
    current: Option<(i64, i64)>,
    expected_version: i64,
    in_use: bool,
    name_taken: bool,
) -> (r: Result<i64, AppError>)
    ensures
        r == match current {
            None => Err(playlist_not_found_error()),
            Some((contest, version)) => if version != expected_version {
                Err(playlist_version_conflict_error())
            } else if in_use {
                Err(playlist_in_use_error())
            } else if name_taken {
                Err(playlist_name_taken_error())
            } else {
                Ok(contest)
            },
        },
{
    match current {
        None => Err(AppError::not_found("SCREEN_PLAYLIST_NOT_FOUND", "Screen playlist was not found")),
        Some((contest, version)) => {
            if version != expected_version {
                return Err(conflict("SCREEN_PLAYLIST_VERSION_CONFLICT", "Screen playlist was changed"));
            }
            if in_use {
                return Err(conflict("SCREEN_PLAYLIST_IN_USE", "Screen playlist is in use"));
            }
            if name_taken {
                return Err(conflict("SCREEN_PLAYLIST_NAME_TAKEN", "Screen playlist name is already used"));
            }
            Ok(contest)
        },
    }
}

/// A playlist can be deleted when it exists and no group plays it.
pub fn playlist_delete_check(playlist_exists: bool, in_use: bool) -> (r: Result<(), AppError>)
    ensures
        r == if !playlist_exists {
            Err(playlist_not_found_error())
        } else if in_use {
            Err(playlist_in_use_error())
        } else {
            Ok::<(), AppError>(())
        },
{
    if !playlist_exists {
        return Err(AppError::not_found("SCREEN_PLAYLIST_NOT_FOUND", "Screen playlist was not found"));
    }
    if in_use {
        return Err(conflict("SCREEN_PLAYLIST_IN_USE", "Screen playlist is in use"));
    }
    Ok(())
}

/// A stored group, locked for change: its contest and version, or not found.
pub fn locked_group(current: Option<(i64, i64)>) -> (r: Result<(i64, i64), AppError>)
    ensures
        r == match current {
            Some(row) => Ok::<(i64, i64), AppError>(row),
            None => Err(group_not_found_error()),
        },
{
    match current {
        Some(row) => Ok(row),
        None => Err(AppError::not_found("SCREEN_GROUP_NOT_FOUND", "Screen group was not found")),
    }
}

/// Whether a stored group may be changed: it must be at the version the
/// change was based on, and its new name must be free in the contest.
pub fn group_update_check(current_version: i64, expected_version: i64, name_taken: bool) -> (r: Result<(), AppError>)
    ensures
        r == if current_version != expected_version {
            Err(group_version_conflict_error())
        } else if name_taken {
            Err(group_name_taken_error())
        } else {
            Ok::<(), AppError>(())
        },
{
    if current_version != expected_version {
        return Err(conflict("SCREEN_GROUP_VERSION_CONFLICT", "Screen group was changed"));
    }
    if name_taken {
        return Err(conflict("SCREEN_GROUP_NAME_TAKEN", "Screen group name is already used"));
    }
    Ok(())
}

/// The answer to a failed group insert, given the constraint it broke.
pub fn map_group_write_error(constraint: Option<&str>) -> (e: AppError)
    ensures
        e == match constraint {
            Some(c) => if c@ == "screen_groups_contest_id_name_key"@ {
                group_name_taken_error()
            } else {
                coded_error(ErrorKind::Internal, "INTERNAL_ERROR", "create screen group")
            },
            None => coded_error(ErrorKind::Internal, "INTERNAL_ERROR", "create screen group"),
        },
{
    match constraint {
        Some(c) => if str_eq(c, "screen_groups_contest_id_name_key") {
            conflict("SCREEN_GROUP_NAME_TAKEN", "Screen group name is already used")
        } else {
            AppError::internal("create screen group")
        },
        None => AppError::internal("create screen group"),
    }
}

proof fn lemma_items_check_suffix(items: Seq<PlaylistItemRequest>, k: int)
    requires
        0 <= k <= items.len(),
        items_check_from(items, k) is Ok,
    ensures
        forall|i: int| k <= i < items.len() ==> item_check(#[trigger] items[i]) is Ok,
        views_written_from(items, k) == items.len(),
    decreases items.len() - k,
{
    if k < items.len() {
        lemma_items_check_suffix(items, k + 1);
    }
}

/// An accepted playlist has a name of 1 to 120 characters and 1 to 20
/// steps, each showing a screen view for 5 to 3600 seconds, and every step
/// is rewritten to its view's canonical name.
pub proof fn accepted_playlists_are_well_formed(name: Seq<char>, items: Seq<PlaylistItemRequest>)
    requires
        playlist_check(name, items) is Ok,
    ensures
        name_is_valid(name),
        1 <= items.len() <= MAX_PLAYLIST_ITEMS,
        forall|i: int|
            0 <= i < items.len() ==> screen_view(normalized_upper((#[trigger] items[i]).target_view@)) is Some
                && MIN_ITEM_SECONDS <= items[i].duration_seconds <= MAX_ITEM_SECONDS,
        playlist_views_written(name, items) == items.len(),
{
    lemma_items_check_suffix(items, 0);
    assert forall|i: int| 0 <= i < items.len() implies screen_view(
        normalized_upper((#[trigger] items[i]).target_view@),
    ) is Some && MIN_ITEM_SECONDS <= items[i].duration_seconds <= MAX_ITEM_SECONDS by {
        assert(item_check(items[i]) is Ok);
    }
}

/// An accepted group keeps at most 100 distinct, positive instance ids:
/// exactly the distinct ids it was given.
pub proof fn accepted_groups_are_well_formed(name: Seq<char>, ids: Seq<i64>)
    requires
        group_check(name, ids) is Ok,
    ensures
        name_is_valid(name),
        first_occurrences(ids).len() <= MAX_GROUP_INSTANCES,
        first_occurrences(ids).no_duplicates(),
        forall|i: int| 0 <= i < first_occurrences(ids).len() ==> #[trigger] first_occurrences(ids)[i] > 0,
        forall|x: i64| #[trigger] first_occurrences(ids).contains(x) <==> ids.contains(x),
{
    first_occurrences_are_distinct_and_complete(ids);
    assert forall|i: int| 0 <= i < first_occurrences(ids).len() implies #[trigger] first_occurrences(ids)[i] > 0 by {
        let x = first_occurrences(ids)[i];
        assert(first_occurrences(ids).contains(x));
        assert(ids.contains(x));
        let j = choose|j: int| 0 <= j < ids.len() && ids[j] == x;
        assert(!(ids[j] <= 0));
    }
}

/// A group's name must be free in its contest.
pub fn group_name_available(taken: bool) -> (r: Result<(), AppError>)
    ensures
        r == if taken {
            Err(group_name_taken_error())
        } else {
            Ok::<(), AppError>(())
        },
{
    if taken {
        Err(conflict("SCREEN_GROUP_NAME_TAKEN", "Screen group name is already used"))
    } else {
        Ok(())
    }
}

} // verus!
