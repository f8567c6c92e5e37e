use vstd::prelude::*;

use crate::auth::{
    AWARD_MANAGE, AuthUser, BALLOON_MANAGE, CLARIFICATION_MANAGE, CONTEST_MANAGE, LIVE_MANAGE,
    PRINTING_MANAGE, RESOLVER_MANAGE, SCREEN_MANAGE, UserType,
};
use crate::error::{AppError, ErrorKind, coded_error, validation_error};
use crate::text::{append_str, chars_of, decimal_text, push_decimal, str_eq, trim, trimmed};

verus! {

pub const DEFAULT_PAGE_SIZE: u32 = 50;

pub const MAX_PAGE_SIZE: u32 = 500;

/// An instant, as nanoseconds since the Unix epoch.
#[derive(Debug, Clone, Copy, PartialEq, Eq, Structural)]
pub struct Timestamp {
    pub unix_nanos: i128,
}

/// Nanoseconds in a second.
pub const NANOS_PER_SECOND: i128 = 1_000_000_000;

/// The calendar range of stored instants: within 400 billion seconds (about
/// 12,700 years) of the epoch, wider than the years -9999 to 9999 that the
/// platform's date type holds.
pub open spec fn in_calendar_range(t: Timestamp) -> bool {
    -400_000_000_000 * NANOS_PER_SECOND <= t.unix_nanos <= 400_000_000_000 * NANOS_PER_SECOND
}

impl Timestamp {
    /// Whether the instant lies in the calendar range of stored instants.
    pub fn in_calendar_range(self) -> (b: bool)
        ensures
            b == in_calendar_range(self),
    {
        -400_000_000_000 * NANOS_PER_SECOND <= self.unix_nanos
            && self.unix_nanos <= 400_000_000_000 * NANOS_PER_SECOND
    }
}

/// The lifecycle state of a contest.
#[derive(Debug, Clone, Copy, PartialEq, Eq, Structural)]
pub enum ContestStatus {
    Draft,
    FrozenConfig,
    Running,
    Paused,
    Ended,
    Archived,
}

/// The stored name of each contest status.
pub open spec fn status_name(status: ContestStatus) -> &'static str {
    match status {
        ContestStatus::Draft => "DRAFT",
        ContestStatus::FrozenConfig => "FROZEN_CONFIG",
        ContestStatus::Running => "RUNNING",
        ContestStatus::Paused => "PAUSED",
        ContestStatus::Ended => "ENDED",
        ContestStatus::Archived => "ARCHIVED",
    }
}

/// The status whose stored name is `name`, if any.
pub open spec fn status_named(name: Seq<char>) -> Option<ContestStatus> {
    if name == "DRAFT"@ {
        Some(ContestStatus::Draft)
    } else if name == "FROZEN_CONFIG"@ {
        Some(ContestStatus::FrozenConfig)
    } else if name == "RUNNING"@ {
        Some(ContestStatus::Running)
    } else if name == "PAUSED"@ {
        Some(ContestStatus::Paused)
    } else if name == "ENDED"@ {
        Some(ContestStatus::Ended)
    } else if name == "ARCHIVED"@ {
        Some(ContestStatus::Archived)
    } else {
        None
    }
}

impl ContestStatus {
    /// The schedule may change only before the contest runs.
    pub fn can_reschedule(self) -> (b: bool)
        ensures
            b == (self == ContestStatus::Draft || self == ContestStatus::FrozenConfig),
    {
        matches!(self, ContestStatus::Draft | ContestStatus::FrozenConfig)
    }

    pub fn as_str(self) -> (s: &'static str)
        ensures
            s == status_name(self),
    {
        match self {
            ContestStatus::Draft => "DRAFT",
            ContestStatus::FrozenConfig => "FROZEN_CONFIG",
            ContestStatus::Running => "RUNNING",
            ContestStatus::Paused => "PAUSED",
            ContestStatus::Ended => "ENDED",
            ContestStatus::Archived => "ARCHIVED",
        }
    }

    /// Reads a stored status; an unknown name is an internal error.
    pub fn from_name(value: &str) -> (r: Result<ContestStatus, AppError>)
        ensures
            r == match status_named(value@) {
                Some(status) => Ok(status),
                None => Err(coded_error(ErrorKind::Internal, "INTERNAL_ERROR", "invalid contests.status")),
            },
    {
        if str_eq(value, "DRAFT") {
            Ok(ContestStatus::Draft)
        } else if str_eq(value, "FROZEN_CONFIG") {
            Ok(ContestStatus::FrozenConfig)
        } else if str_eq(value, "RUNNING") {
            Ok(ContestStatus::Running)
        } else if str_eq(value, "PAUSED") {
            Ok(ContestStatus::Paused)
        } else if str_eq(value, "ENDED") {
            Ok(ContestStatus::Ended)
        } else if str_eq(value, "ARCHIVED") {
            Ok(ContestStatus::Archived)
        } else {
            Err(AppError::internal("invalid contests.status"))
        }
    }
}

/// Who may see a contest that is not otherwise readable.
#[derive(Debug, Clone, Copy, PartialEq, Eq, Structural)]
pub enum ContestVisibility {
    Private,
    Public,
}

pub open spec fn visibility_name(visibility: ContestVisibility) -> &'static str {
    match visibility {
        ContestVisibility::Private => "PRIVATE",
        ContestVisibility::Public => "PUBLIC",
    }
}

impl ContestVisibility {
    pub fn as_str(self) -> (s: &'static str)
        ensures
            s == visibility_name(self),
    {
        match self {
            ContestVisibility::Private => "PRIVATE",
            ContestVisibility::Public => "PUBLIC",
        }
    }

    /// Reads a stored visibility; an unknown name is an internal error.
    pub fn from_name(value: &str) -> (r: Result<ContestVisibility, AppError>)
        ensures
            r == if value@ == "PRIVATE"@ {
                Ok(ContestVisibility::Private)
            } else if value@ == "PUBLIC"@ {
                Ok(ContestVisibility::Public)
            } else {
                Err(coded_error(ErrorKind::Internal, "INTERNAL_ERROR", "invalid contests.visibility"))
            },
    {
        if str_eq(value, "PRIVATE") {
            Ok(ContestVisibility::Private)
        } else if str_eq(value, "PUBLIC") {
            Ok(ContestVisibility::Public)
        } else {
            Err(AppError::internal("invalid contests.visibility"))
        }
    }
}

/// Whether a user reads every contest: super administrators and holders of an
/// operational management permission do.
pub open spec fn reads_all(user: &AuthUser) -> bool {
    user.super_admin() || user.holds(CLARIFICATION_MANAGE@) || user.holds(PRINTING_MANAGE@)
        || user.holds(BALLOON_MANAGE@) || user.holds(RESOLVER_MANAGE@) || user.holds(
        AWARD_MANAGE@,
    ) || user.holds(SCREEN_MANAGE@) || user.holds(LIVE_MANAGE@)
}

pub fn can_read_all(user: &AuthUser) -> (b: bool)
    ensures
        b == reads_all(user),
{
    user.is_super_admin() || user.has_permission(CLARIFICATION_MANAGE) || user.has_permission(
        PRINTING_MANAGE,
    ) || user.has_permission(BALLOON_MANAGE) || user.has_permission(RESOLVER_MANAGE)
        || user.has_permission(AWARD_MANAGE) || user.has_permission(SCREEN_MANAGE)
        || user.has_permission(LIVE_MANAGE)
}

/// What a requester may read among contests: everything, the contests it
/// manages, or the contests its team takes part in.
#[derive(Debug)]
pub struct ReadAccess {
    pub super_admin: bool,
    pub read_all: bool,
    pub contest_manager_id: Option<i64>,
    pub team_user_id: Option<i64>,
}

impl ReadAccess {
    /// The read scope of a requester; an anonymous one gets none.
    pub fn for_user(user: Option<&AuthUser>) -> (a: ReadAccess)
        ensures
            match user {
                None => a.super_admin == false && a.read_all == false && a.contest_manager_id
                    == None::<i64> && a.team_user_id == None::<i64>,
                Some(u) => {
                    &&& a.super_admin == u.super_admin()
                    &&& a.read_all == reads_all(u)
                    &&& a.contest_manager_id == if !u.super_admin() && u.holds(CONTEST_MANAGE@) {
                        Some(u.id)
                    } else {
                        None
                    }
                    &&& a.team_user_id == if u.user_type == UserType::Team {
                        Some(u.id)
                    } else {
                        None
                    }
                },
            },
    {
        match user {
            None => ReadAccess {
                super_admin: false,
                read_all: false,
                contest_manager_id: None,
                team_user_id: None,
            },
            Some(u) => {
                let super_admin = u.is_super_admin();
                ReadAccess {
                    super_admin,
                    read_all: can_read_all(u),
                    contest_manager_id: if !super_admin && u.has_permission(CONTEST_MANAGE) {
                        Some(u.id)
                    } else {
                        None
                    },
                    team_user_id: if u.user_type == UserType::Team {
                        Some(u.id)
                    } else {
                        None
                    },
                }
            },
        }
    }
}

pub open spec fn contest_not_found_error() -> AppError {
    coded_error(ErrorKind::NotFound, "CONTEST_NOT_FOUND", "Contest was not found")
}

/// A contest that does not exist, or that the requester may not see.
pub fn contest_not_found() -> (e: AppError)
    ensures
        e == contest_not_found_error(),
{
    AppError::not_found("CONTEST_NOT_FOUND", "Contest was not found")
}

/// What a scope check needs next.
#[derive(Debug, Clone, Copy, PartialEq, Eq, Structural)]
pub enum ScopeStep {
    /// The requester passes.
    Granted,
    /// The requester is refused as if the contest did not exist.
    Hidden,
    /// The requester passes only if it is assigned to manage the contest.
    CheckAssignment,
    /// The requester passes only if its team is on the contest's roster.
    CheckRoster,
}

/// Who may change a contest: super administrators, and contest managers
/// assigned to it.
pub fn manage_scope(actor: &AuthUser) -> (s: ScopeStep)
    ensures
        s == if actor.super_admin() {
            ScopeStep::Granted
        } else if !actor.holds(CONTEST_MANAGE@) {
            ScopeStep::Hidden
        } else {
            ScopeStep::CheckAssignment
        },
{
    if actor.is_super_admin() {
        ScopeStep::Granted
    } else if !actor.has_permission(CONTEST_MANAGE) {
        ScopeStep::Hidden
    } else {
        ScopeStep::CheckAssignment
    }
}

/// The answer of a scope check once the assignment or roster is known.
pub fn scope_outcome(found: bool) -> (r: Result<(), AppError>)
    ensures
        r == if found {
            Ok::<(), AppError>(())
        } else {
            Err(contest_not_found_error())
        },
{
    if found {
        Ok(())
    } else {
        Err(contest_not_found())
    }
}

/// The default number of contests on a page.
pub fn default_page_size() -> (n: u32)
    ensures
        n == DEFAULT_PAGE_SIZE,
{
    DEFAULT_PAGE_SIZE
}

/// A request for a page of contests.
pub struct ContestListQuery {
    pub page: u32,
    pub size: u32,
    pub sort: Option<String>,
    pub include_deleted: bool,
    pub manageable_only: bool,
}

/// A page request that passed validation, with its SQL ordering.
#[derive(Debug)]
pub struct ValidatedContestListQuery {
    pub page: u32,
    pub size: u32,
    pub offset: i64,
    pub include_deleted: bool,
    pub manageable_only: bool,
    pub order_by: &'static str,
}

/// The ordering that an allowed sort key names, if any.
pub open spec fn contest_order(sort: Seq<char>) -> Option<&'static str> {
    if sort == "name,asc"@ {
        Some("name ASC, id ASC")
    } else if sort == "name,desc"@ {
        Some("name DESC, id DESC")
    } else if sort == "createdAt,asc"@ {
        Some("created_at ASC, id ASC")
    } else if sort == "createdAt,desc"@ {
        Some("created_at DESC, id DESC")
    } else if sort == "updatedAt,asc"@ {
        Some("updated_at ASC, id ASC")
    } else if sort == "updatedAt,desc"@ {
        Some("updated_at DESC, id DESC")
    } else if sort == "status,asc"@ {
        Some("status ASC, id ASC")
    } else if sort == "status,desc"@ {
        Some("status DESC, id DESC")
    } else if sort == "startAt,asc"@ {
        Some("start_at ASC NULLS LAST, id ASC")
    } else if sort == "startAt,desc"@ {
        Some("start_at DESC NULLS LAST, id DESC")
    } else {
        None
    }
}

/// The column that an allowed sort field orders contests by.
pub open spec fn sort_column(field: Seq<char>) -> Option<Seq<char>> {
    if field == "name"@ {
        Some("name"@)
    } else if field == "createdAt"@ {
        Some("created_at"@)
    } else if field == "updatedAt"@ {
        Some("updated_at"@)
    } else if field == "status"@ {
        Some("status"@)
    } else if field == "startAt"@ {
        Some("start_at"@)
    } else {
        None
    }
}

/// The SQL direction that a sort direction names.
pub open spec fn sql_direction(dir: Seq<char>) -> Option<Seq<char>> {
    if dir == "asc"@ {
        Some("ASC"@)
    } else if dir == "desc"@ {
        Some("DESC"@)
    } else {
        None
    }
}

/// The ordering a sort key `field,dir` asks for: the field's column in the
/// direction, contests without a start time last, then the id in the same
/// direction.
pub open spec fn ordering_clause(field: Seq<char>, dir: Seq<char>) -> Seq<char> {
    let column = sort_column(field)->0;
    let direction = sql_direction(dir)->0;
    let nulls = if field == "startAt"@ {
        " NULLS LAST"@
    } else {
        Seq::<char>::empty()
    };
    column + " "@ + direction + nulls + ", id "@ + direction
}

/// Every allowed sort key `field,dir` orders contests by the field's column
/// in direction `dir`, ties broken by id in the same direction.
#[verifier::rlimit(50)]
pub proof fn contest_orders_follow_the_sort_key(field: Seq<char>, dir: Seq<char>)
    requires
        sort_column(field) is Some,
        sql_direction(dir) is Some,
    ensures
        contest_order(field + ","@ + dir) matches Some(o) && o@ == ordering_clause(field, dir),
{
        if field == "name"@ && dir == "asc"@ {
            reveal_strlit(" NULLS LAST");
            reveal_strlit("ASC");
            reveal_strlit("DESC");
            reveal_strlit("asc");
            reveal_strlit("createdAt");
            reveal_strlit("created_at");
            reveal_strlit("desc");
            reveal_strlit("name");
            reveal_strlit("startAt");
            reveal_strlit("start_at");
            reveal_strlit("status");
            reveal_strlit("updatedAt");
            reveal_strlit("updated_at");
            reveal_strlit(" ");
            reveal_strlit(",");
            reveal_strlit(", id ");
            reveal_strlit("ASC");
            reveal_strlit("asc");
            reveal_strlit("createdAt,asc");
            reveal_strlit("createdAt,desc");
            reveal_strlit("name");
            reveal_strlit("name ASC, id ASC");
            reveal_strlit("name,asc");
            reveal_strlit("name,desc");
            reveal_strlit("startAt,asc");
            reveal_strlit("startAt,desc");
            reveal_strlit("status,asc");
            reveal_strlit("status,desc");
            reveal_strlit("updatedAt,asc");
            reveal_strlit("updatedAt,desc");
            assert(field + ","@ + dir =~= "name,asc"@);
            assert(ordering_clause(field, dir) =~= "name ASC, id ASC"@);
        }
        if field == "name"@ && dir == "desc"@ {
            reveal_strlit(" NULLS LAST");
            reveal_strlit("ASC");
            reveal_strlit("DESC");
            reveal_strlit("asc");
            reveal_strlit("createdAt");
            reveal_strlit("created_at");
            reveal_strlit("desc");
            reveal_strlit("name");
            reveal_strlit("startAt");
            reveal_strlit("start_at");
            reveal_strlit("status");
            reveal_strlit("updatedAt");
            reveal_strlit("updated_at");
            reveal_strlit(" ");
            reveal_strlit(",");
            reveal_strlit(", id ");
            reveal_strlit("DESC");
            reveal_strlit("createdAt,asc");
            reveal_strlit("createdAt,desc");
            reveal_strlit("desc");
            reveal_strlit("name");
            reveal_strlit("name DESC, id DESC");
            reveal_strlit("name,asc");
            reveal_strlit("name,desc");
            reveal_strlit("startAt,asc");
            reveal_strlit("startAt,desc");
            reveal_strlit("status,asc");
            reveal_strlit("status,desc");
            reveal_strlit("updatedAt,asc");
            reveal_strlit("updatedAt,desc");
            assert(field + ","@ + dir =~= "name,desc"@);
            assert(ordering_clause(field, dir) =~= "name DESC, id DESC"@);
        }
        if field == "createdAt"@ && dir == "asc"@ {
            reveal_strlit(" NULLS LAST");
            reveal_strlit("ASC");
            reveal_strlit("DESC");
            reveal_strlit("asc");
            reveal_strlit("createdAt");
            reveal_strlit("created_at");
            reveal_strlit("desc");
            reveal_strlit("name");
            reveal_strlit("startAt");
            reveal_strlit("start_at");
            reveal_strlit("status");
            reveal_strlit("updatedAt");
            reveal_strlit("updated_at");
            reveal_strlit(" ");
            reveal_strlit(",");
            reveal_strlit(", id ");
            reveal_strlit("ASC");
            reveal_strlit("asc");
            reveal_strlit("createdAt");
            reveal_strlit("createdAt,asc");
            reveal_strlit("createdAt,desc");
            reveal_strlit("created_at");
            reveal_strlit("created_at ASC, id ASC");
            reveal_strlit("name,asc");
            reveal_strlit("name,desc");
            reveal_strlit("startAt,asc");
            reveal_strlit("startAt,desc");
            reveal_strlit("status,asc");
            reveal_strlit("status,desc");
            reveal_strlit("updatedAt,asc");
            reveal_strlit("updatedAt,desc");
            assert(field + ","@ + dir =~= "createdAt,asc"@);
            assert(ordering_clause(field, dir) =~= "created_at ASC, id ASC"@);
        }
        if field == "createdAt"@ && dir == "desc"@ {
            reveal_strlit(" NULLS LAST");
            reveal_strlit("ASC");
            reveal_strlit("DESC");
            reveal_strlit("asc");
            reveal_strlit("createdAt");
            reveal_strlit("created_at");
            reveal_strlit("desc");
            reveal_strlit("name");
            reveal_strlit("startAt");
            reveal_strlit("start_at");
            reveal_strlit("status");
            reveal_strlit("updatedAt");
            reveal_strlit("updated_at");
            reveal_strlit(" ");
            reveal_strlit(",");
            reveal_strlit(", id ");
            reveal_strlit("DESC");
            reveal_strlit("createdAt");
            reveal_strlit("createdAt,asc");
            reveal_strlit("createdAt,desc");
            reveal_strlit("created_at");
            reveal_strlit("created_at DESC, id DESC");
            reveal_strlit("desc");
            reveal_strlit("name,asc");
            reveal_strlit("name,desc");
            reveal_strlit("startAt,asc");
            reveal_strlit("startAt,desc");
            reveal_strlit("status,asc");
            reveal_strlit("status,desc");
            reveal_strlit("updatedAt,asc");
            reveal_strlit("updatedAt,desc");
            assert(field + ","@ + dir =~= "createdAt,desc"@);
            assert(ordering_clause(field, dir) =~= "created_at DESC, id DESC"@);
        }
        if field == "updatedAt"@ && dir == "asc"@ {
            reveal_strlit(" NULLS LAST");
            reveal_strlit("ASC");
            reveal_strlit("DESC");
            reveal_strlit("asc");
            reveal_strlit("createdAt");
            reveal_strlit("created_at");
            reveal_strlit("desc");
            reveal_strlit("name");
            reveal_strlit("startAt");
            reveal_strlit("start_at");
            reveal_strlit("status");
            reveal_strlit("updatedAt");
            reveal_strlit("updated_at");
            reveal_strlit(" ");
            reveal_strlit(",");
            reveal_strlit(", id ");
            reveal_strlit("ASC");
            reveal_strlit("asc");
            reveal_strlit("createdAt,asc");
            reveal_strlit("createdAt,desc");
            reveal_strlit("name,asc");
            reveal_strlit("name,desc");
            reveal_strlit("startAt,asc");
            reveal_strlit("startAt,desc");
            reveal_strlit("status,asc");
            reveal_strlit("status,desc");
            reveal_strlit("updatedAt");
            reveal_strlit("updatedAt,asc");
            reveal_strlit("updatedAt,desc");
            reveal_strlit("updated_at");
            reveal_strlit("updated_at ASC, id ASC");
            assert("updatedAt"@[0] != "createdAt"@[0]);
            assert("updatedAt,asc"@[0] != "createdAt,asc"@[0]);
            assert(field + ","@ + dir =~= "updatedAt,asc"@);
            assert(ordering_clause(field, dir) =~= "updated_at ASC, id ASC"@);
        }
        if field == "updatedAt"@ && dir == "desc"@ {
            reveal_strlit(" NULLS LAST");
            reveal_strlit("ASC");
            reveal_strlit("DESC");
            reveal_strlit("asc");
            reveal_strlit("createdAt");
            reveal_strlit("created_at");
            reveal_strlit("desc");
            reveal_strlit("name");
            reveal_strlit("startAt");
            reveal_strlit("start_at");
            reveal_strlit("status");
            reveal_strlit("updatedAt");
            reveal_strlit("updated_at");
            reveal_strlit(" ");
            reveal_strlit(",");
            reveal_strlit(", id ");
            reveal_strlit("DESC");
            reveal_strlit("createdAt,asc");
            reveal_strlit("createdAt,desc");
            reveal_strlit("desc");
            reveal_strlit("name,asc");
            reveal_strlit("name,desc");
            reveal_strlit("startAt,asc");
            reveal_strlit("startAt,desc");
            reveal_strlit("status,asc");
            reveal_strlit("status,desc");
            reveal_strlit("updatedAt");
            reveal_strlit("updatedAt,asc");
            reveal_strlit("updatedAt,desc");
            reveal_strlit("updated_at");
            reveal_strlit("updated_at DESC, id DESC");
            assert("updatedAt"@[0] != "createdAt"@[0]);
            assert("updatedAt,desc"@[0] != "createdAt,desc"@[0]);
            assert(field + ","@ + dir =~= "updatedAt,desc"@);
            assert(ordering_clause(field, dir) =~= "updated_at DESC, id DESC"@);
        }
        if field == "status"@ && dir == "asc"@ {
            reveal_strlit(" NULLS LAST");
            reveal_strlit("ASC");
            reveal_strlit("DESC");
            reveal_strlit("asc");
            reveal_strlit("createdAt");
            reveal_strlit("created_at");
            reveal_strlit("desc");
            reveal_strlit("name");
            reveal_strlit("startAt");
            reveal_strlit("start_at");
            reveal_strlit("status");
            reveal_strlit("updatedAt");
            reveal_strlit("updated_at");
            reveal_strlit(" ");
            reveal_strlit(",");
            reveal_strlit(", id ");
            reveal_strlit("ASC");
            reveal_strlit("asc");
            reveal_strlit("createdAt,asc");
            reveal_strlit("createdAt,desc");
            reveal_strlit("name,asc");
            reveal_strlit("name,desc");
            reveal_strlit("startAt,asc");
            reveal_strlit("startAt,desc");
            reveal_strlit("status");
            reveal_strlit("status ASC, id ASC");
            reveal_strlit("status,asc");
            reveal_strlit("status,desc");
            reveal_strlit("updatedAt,asc");
            reveal_strlit("updatedAt,desc");
            assert(field + ","@ + dir =~= "status,asc"@);
            assert(ordering_clause(field, dir) =~= "status ASC, id ASC"@);
        }
        if field == "status"@ && dir == "desc"@ {
            reveal_strlit(" NULLS LAST");
            reveal_strlit("ASC");
            reveal_strlit("DESC");
            reveal_strlit("asc");
            reveal_strlit("createdAt");
            reveal_strlit("created_at");
            reveal_strlit("desc");
            reveal_strlit("name");
            reveal_strlit("startAt");
            reveal_strlit("start_at");
            reveal_strlit("status");
            reveal_strlit("updatedAt");
            reveal_strlit("updated_at");
            reveal_strlit(" ");
            reveal_strlit(",");
            reveal_strlit(", id ");
            reveal_strlit("DESC");
            reveal_strlit("createdAt,asc");
            reveal_strlit("createdAt,desc");
            reveal_strlit("desc");
            reveal_strlit("name,asc");
            reveal_strlit("name,desc");
            reveal_strlit("startAt,asc");
            reveal_strlit("startAt,desc");
            reveal_strlit("status");
            reveal_strlit("status DESC, id DESC");
            reveal_strlit("status,asc");
            reveal_strlit("status,desc");
            reveal_strlit("updatedAt,asc");
            reveal_strlit("updatedAt,desc");
            assert(field + ","@ + dir =~= "status,desc"@);
            assert(ordering_clause(field, dir) =~= "status DESC, id DESC"@);
        }
        if field == "startAt"@ && dir == "asc"@ {
            reveal_strlit(" NULLS LAST");
            reveal_strlit("ASC");
            reveal_strlit("DESC");
            reveal_strlit("asc");
            reveal_strlit("createdAt");
            reveal_strlit("created_at");
            reveal_strlit("desc");
            reveal_strlit("name");
            reveal_strlit("startAt");
            reveal_strlit("start_at");
            reveal_strlit("status");
            reveal_strlit("updatedAt");
            reveal_strlit("updated_at");
            reveal_strlit(" ");
            reveal_strlit(" NULLS LAST");
            reveal_strlit(",");
            reveal_strlit(", id ");
            reveal_strlit("ASC");
            reveal_strlit("asc");
            reveal_strlit("createdAt,asc");
            reveal_strlit("createdAt,desc");
            reveal_strlit("name,asc");
            reveal_strlit("name,desc");
            reveal_strlit("startAt");
            reveal_strlit("startAt,asc");
            reveal_strlit("startAt,desc");
            reveal_strlit("start_at");
            reveal_strlit("start_at ASC NULLS LAST, id ASC");
            reveal_strlit("status,asc");
            reveal_strlit("status,desc");
            reveal_strlit("updatedAt,asc");
            reveal_strlit("updatedAt,desc");
            assert("startAt,asc"@[3] != "status,desc"@[3]);
            assert(field + ","@ + dir =~= "startAt,asc"@);
            assert(ordering_clause(field, dir) =~= "start_at ASC NULLS LAST, id ASC"@);
        }
        if field == "startAt"@ && dir == "desc"@ {
            reveal_strlit(" NULLS LAST");
            reveal_strlit("ASC");
            reveal_strlit("DESC");
            reveal_strlit("asc");
            reveal_strlit("createdAt");
            reveal_strlit("created_at");
            reveal_strlit("desc");
            reveal_strlit("name");
            reveal_strlit("startAt");
            reveal_strlit("start_at");
            reveal_strlit("status");
            reveal_strlit("updatedAt");
            reveal_strlit("updated_at");
            reveal_strlit(" ");
            reveal_strlit(" NULLS LAST");
            reveal_strlit(",");
            reveal_strlit(", id ");
            reveal_strlit("DESC");
            reveal_strlit("createdAt,asc");
            reveal_strlit("createdAt,desc");
            reveal_strlit("desc");
            reveal_strlit("name,asc");
            reveal_strlit("name,desc");
            reveal_strlit("startAt");
            reveal_strlit("startAt,asc");
            reveal_strlit("startAt,desc");
            reveal_strlit("start_at");
            reveal_strlit("start_at DESC NULLS LAST, id DESC");
            reveal_strlit("status,asc");
            reveal_strlit("status,desc");
            reveal_strlit("updatedAt,asc");
            reveal_strlit("updatedAt,desc");
            assert(field + ","@ + dir =~= "startAt,desc"@);
            assert(ordering_clause(field, dir) =~= "start_at DESC NULLS LAST, id DESC"@);
        }
}

/// Only keys of the form `field,dir`, with an allowed field and direction,
/// are accepted as a contest ordering.
pub proof fn contest_orders_take_only_field_and_direction(sort: Seq<char>)
    requires
        contest_order(sort) is Some,
    ensures
        exists|field: Seq<char>, dir: Seq<char>|
            #![trigger sort_column(field), sql_direction(dir)]
            sort_column(field) is Some && sql_direction(dir) is Some && sort == field + ","@ + dir,
{
    if sort == "name,asc"@ {
        reveal_strlit("name,asc");
        reveal_strlit("name");
        reveal_strlit(",");
        reveal_strlit("asc");
        assert(sort =~= "name"@ + ","@ + "asc"@);
        assert(sort_column("name"@) is Some && sql_direction("asc"@) is Some);
    }
    if sort == "name,desc"@ {
        reveal_strlit("name,desc");
        reveal_strlit("name");
        reveal_strlit(",");
        reveal_strlit("desc");
        assert(sort =~= "name"@ + ","@ + "desc"@);
        assert(sort_column("name"@) is Some && sql_direction("desc"@) is Some);
    }
    if sort == "createdAt,asc"@ {
        reveal_strlit("createdAt,asc");
        reveal_strlit("createdAt");
        reveal_strlit(",");
        reveal_strlit("asc");
        assert(sort =~= "createdAt"@ + ","@ + "asc"@);
        assert(sort_column("createdAt"@) is Some && sql_direction("asc"@) is Some);
    }
    if sort == "createdAt,desc"@ {
        reveal_strlit("createdAt,desc");
        reveal_strlit("createdAt");
        reveal_strlit(",");
        reveal_strlit("desc");
        assert(sort =~= "createdAt"@ + ","@ + "desc"@);
        assert(sort_column("createdAt"@) is Some && sql_direction("desc"@) is Some);
    }
    if sort == "updatedAt,asc"@ {
        reveal_strlit("updatedAt,asc");
        reveal_strlit("updatedAt");
        reveal_strlit(",");
        reveal_strlit("asc");
        assert(sort =~= "updatedAt"@ + ","@ + "asc"@);
        assert(sort_column("updatedAt"@) is Some && sql_direction("asc"@) is Some);
    }
    if sort == "updatedAt,desc"@ {
        reveal_strlit("updatedAt,desc");
        reveal_strlit("updatedAt");
        reveal_strlit(",");
        reveal_strlit("desc");
        assert(sort =~= "updatedAt"@ + ","@ + "desc"@);
        assert(sort_column("updatedAt"@) is Some && sql_direction("desc"@) is Some);
    }
    if sort == "status,asc"@ {
        reveal_strlit("status,asc");
        reveal_strlit("status");
        reveal_strlit(",");
        reveal_strlit("asc");
        assert(sort =~= "status"@ + ","@ + "asc"@);
        assert(sort_column("status"@) is Some && sql_direction("asc"@) is Some);
    }
    if sort == "status,desc"@ {
        reveal_strlit("status,desc");
        reveal_strlit("status");
        reveal_strlit(",");
        reveal_strlit("desc");
        assert(sort =~= "status"@ + ","@ + "desc"@);
        assert(sort_column("status"@) is Some && sql_direction("desc"@) is Some);
    }
    if sort == "startAt,asc"@ {
        reveal_strlit("startAt,asc");
        reveal_strlit("startAt");
        reveal_strlit(",");
        reveal_strlit("asc");
        assert(sort =~= "startAt"@ + ","@ + "asc"@);
        assert(sort_column("startAt"@) is Some && sql_direction("asc"@) is Some);
    }
    if sort == "startAt,desc"@ {
        reveal_strlit("startAt,desc");
        reveal_strlit("startAt");
        reveal_strlit(",");
        reveal_strlit("desc");
        assert(sort =~= "startAt"@ + ","@ + "desc"@);
        assert(sort_column("startAt"@) is Some && sql_direction("desc"@) is Some);
    }
}

fn contest_order_of(sort: &str) -> (r: Option<&'static str>)
    ensures
        r == contest_order(sort@),
{
    if str_eq(sort, "name,asc") {
        Some("name ASC, id ASC")
    } else if str_eq(sort, "name,desc") {
        Some("name DESC, id DESC")
    } else if str_eq(sort, "createdAt,asc") {
        Some("created_at ASC, id ASC")
    } else if str_eq(sort, "createdAt,desc") {
        Some("created_at DESC, id DESC")
    } else if str_eq(sort, "updatedAt,asc") {
        Some("updated_at ASC, id ASC")
    } else if str_eq(sort, "updatedAt,desc") {
        Some("updated_at DESC, id DESC")
    } else if str_eq(sort, "status,asc") {
        Some("status ASC, id ASC")
    } else if str_eq(sort, "status,desc") {
        Some("status DESC, id DESC")
    } else if str_eq(sort, "startAt,asc") {
        Some("start_at ASC NULLS LAST, id ASC")
    } else if str_eq(sort, "startAt,desc") {
        Some("start_at DESC NULLS LAST, id DESC")
    } else {
        None
    }
}

pub open spec fn page_size_error() -> AppError {
    validation_error("size", "must contain a value between 1 and 500")
}

pub open spec fn sort_error() -> AppError {
    validation_error("sort", "must use an allowed contest field and direction")
}

/// The sort key a query asks for; recently updated contests come first
/// when it names none.
pub open spec fn requested_sort(sort: Option<String>) -> Seq<char> {
    match sort {
        Some(s) => s@,
        None => "updatedAt,desc"@,
    }
}

impl ContestListQuery {
    /// A page holds 1 to 500 contests and is sorted by an allowed key; the
    /// offset is the number of contests on the pages before it.
    pub fn validate(self) -> (r: Result<ValidatedContestListQuery, AppError>)
        ensures
            !(1 <= self.size <= MAX_PAGE_SIZE) ==> r == Err::<ValidatedContestListQuery, AppError>(
                page_size_error(),
            ),
            1 <= self.size <= MAX_PAGE_SIZE ==> match contest_order(requested_sort(self.sort)) {
                None => r == Err::<ValidatedContestListQuery, AppError>(sort_error()),
                Some(order) => r matches Ok(q) && q.page == self.page && q.size == self.size
                    && q.offset == self.page * self.size && q.include_deleted == self.include_deleted
                    && q.manageable_only == self.manageable_only && q.order_by == order,
            },
    {
        if self.size < 1 || self.size > MAX_PAGE_SIZE {
            return Err(AppError::validation("size", "must contain a value between 1 and 500"));
        }
        let order = match &self.sort {
            Some(s) => contest_order_of(s.as_str()),
            None => contest_order_of("updatedAt,desc"),
        };
        match order {
            None => Err(AppError::validation("sort", "must use an allowed contest field and direction")),
            Some(order_by) => {
                assert(0 <= self.page * self.size <= 4_294_967_295 * 500) by (nonlinear_arith)
                    requires
                        self.size <= 500,
                ;
                let offset: i64 = (self.page as i64) * (self.size as i64);
                Ok(ValidatedContestListQuery {
                    page: self.page,
                    size: self.size,
                    offset,
                    include_deleted: self.include_deleted,
                    manageable_only: self.manageable_only,
                    order_by,
                })
            },
        }
    }
}

pub open spec fn manageable_forbidden_error() -> AppError {
    coded_error(ErrorKind::Forbidden, "FORBIDDEN", "Only contest managers may list manageable contests")
}

pub open spec fn deleted_forbidden_error() -> AppError {
    coded_error(ErrorKind::Forbidden, "FORBIDDEN", "Only super administrators may include deleted contests")
}

/// Whether a listing may run: only contest managers ask for manageable
/// contests, and only super administrators see deleted ones. On success,
/// whether deleted contests are included.
pub fn list_scope(query: &ValidatedContestListQuery, access: &ReadAccess) -> (r: Result<bool, AppError>)
    ensures
        r == if query.manageable_only && !access.super_admin && access.contest_manager_id is None {
            Err(manageable_forbidden_error())
        } else if query.include_deleted && !access.super_admin {
            Err(deleted_forbidden_error())
        } else {
            Ok(query.include_deleted && access.super_admin)
        },
{
    if query.manageable_only && !access.super_admin && access.contest_manager_id.is_none() {
        return Err(AppError::forbidden("FORBIDDEN", "Only contest managers may list manageable contests"));
    }
    if query.include_deleted && !access.super_admin {
        return Err(AppError::forbidden("FORBIDDEN", "Only super administrators may include deleted contests"));
    }
    Ok(query.include_deleted && access.super_admin)
}

pub open spec fn name_error(limit: nat) -> AppError {
    if limit == 120 {
        validation_error("name", "must contain between 1 and 120 characters")
    } else {
        validation_error("name", "must contain between 1 and 255 characters")
    }
}

/// A contest name: trimmed, 1 to 255 characters.
pub fn validate_name(value: String) -> (r: Result<String, AppError>)
    ensures
        0 < trim(value@).len() <= 255 ==> (r matches Ok(n) && n@ == trim(value@)),
        !(0 < trim(value@).len() <= 255) ==> r == Err::<String, AppError>(name_error(255)),
{
    let name = trimmed(value.as_str());
    let count = chars_of(name.as_str()).len();
    if count == 0 || count > 255 {
        return Err(AppError::validation("name", "must contain between 1 and 255 characters"));
    }
    Ok(name)
}

/// The three instants of a contest's schedule.
#[derive(Debug, Clone, Copy, PartialEq, Eq, Structural)]
pub struct ContestSchedule {
    pub start_at: Timestamp,
    pub freeze_at: Timestamp,
    pub end_at: Timestamp,
}

pub open spec fn start_after_freeze_error() -> AppError {
    validation_error("startAt", "must not be after freezeAt")
}

pub open spec fn freeze_after_end_error() -> AppError {
    validation_error("freezeAt", "must not be after endAt")
}

/// How a schedule is judged: it starts no later than the scoreboard freezes,
/// which is no later than its end.
pub open spec fn schedule_check(s: ContestSchedule) -> Result<ContestSchedule, AppError> {
    if s.start_at.unix_nanos > s.freeze_at.unix_nanos {
        Err(start_after_freeze_error())
    } else if s.freeze_at.unix_nanos > s.end_at.unix_nanos {
        Err(freeze_after_end_error())
    } else {
        Ok(s)
    }
}

impl ContestSchedule {
    pub fn validate(self) -> (r: Result<ContestSchedule, AppError>)
        ensures
            r == schedule_check(self),
    {
        if self.start_at.unix_nanos > self.freeze_at.unix_nanos {
            return Err(AppError::validation("startAt", "must not be after freezeAt"));
        }
        if self.freeze_at.unix_nanos > self.end_at.unix_nanos {
            return Err(AppError::validation("freezeAt", "must not be after endAt"));
        }
        Ok(self)
    }
}

pub open spec fn incomplete_schedule_error() -> AppError {
    validation_error("schedule", "startAt, freezeAt, and endAt must be supplied together")
}

/// A schedule is given whole or not at all.
pub open spec fn complete_schedule_check(
    start_at: Option<Timestamp>,
    freeze_at: Option<Timestamp>,
    end_at: Option<Timestamp>,
) -> Result<Option<ContestSchedule>, AppError> {
    match (start_at, freeze_at, end_at) {
        (None, None, None) => Ok(None),
        (Some(s), Some(f), Some(e)) => match schedule_check(
            ContestSchedule { start_at: s, freeze_at: f, end_at: e },
        ) {
            Ok(v) => Ok(Some(v)),
            Err(err) => Err(err),
        },
        _ => Err(incomplete_schedule_error()),
    }
}

pub fn validate_complete_schedule(
    start_at: Option<Timestamp>,
    freeze_at: Option<Timestamp>,
    end_at: Option<Timestamp>,
) -> (r: Result<Option<ContestSchedule>, AppError>)
    ensures
        r == complete_schedule_check(start_at, freeze_at, end_at),
{
    match (start_at, freeze_at, end_at) {
        (None, None, None) => Ok(None),
        (Some(s), Some(f), Some(e)) => {
            match (ContestSchedule { start_at: s, freeze_at: f, end_at: e }).validate() {
                Ok(v) => Ok(Some(v)),
                Err(err) => Err(err),
            }
        },
        _ => Err(AppError::validation("schedule", "startAt, freezeAt, and endAt must be supplied together")),
    }
}

/// A new contest as a client submits it.
pub struct CreateContestRequest {
    pub name: String,
    pub visibility: ContestVisibility,
    pub start_at: Option<Timestamp>,
    pub end_at: Option<Timestamp>,
    pub freeze_at: Option<Timestamp>,
}

#[derive(Debug)]
pub struct ValidatedCreateContest {
    pub name: String,
    pub visibility: ContestVisibility,
    pub schedule: Option<ContestSchedule>,
}

impl CreateContestRequest {
    /// The name is checked first, then the schedule.
    pub fn validate(self) -> (r: Result<ValidatedCreateContest, AppError>)
        ensures
            !(0 < trim(self.name@).len() <= 255) ==> r == Err::<ValidatedCreateContest, AppError>(
                name_error(255),
            ),
            0 < trim(self.name@).len() <= 255 ==> match complete_schedule_check(
                self.start_at,
                self.freeze_at,
                self.end_at,
            ) {
                Err(e) => r == Err::<ValidatedCreateContest, AppError>(e),
                Ok(schedule) => r matches Ok(v) && v.name@ == trim(self.name@) && v.visibility
                    == self.visibility && v.schedule == schedule,
            },
    {
        let name = validate_name(self.name)?;
        let schedule = validate_complete_schedule(self.start_at, self.freeze_at, self.end_at)?;
        Ok(ValidatedCreateContest { name, visibility: self.visibility, schedule })
    }
}

/// A copy of a contest as a client requests it.
pub struct ContestCloneRequest {
    pub name: String,
    pub visibility: ContestVisibility,
    pub start_at: Option<Timestamp>,
    pub end_at: Option<Timestamp>,
    pub freeze_at: Option<Timestamp>,
    pub copy_teams: bool,
}

#[derive(Debug)]
pub struct ValidatedContestClone {
    pub name: String,
    pub visibility: ContestVisibility,
    pub schedule: Option<ContestSchedule>,
    pub copy_teams: bool,
}

impl ContestCloneRequest {
    /// The copy's name is trimmed and holds 1 to 120 characters.
    pub fn validate(self) -> (r: Result<ValidatedContestClone, AppError>)
        ensures
            !(0 < trim(self.name@).len() <= 120) ==> r == Err::<ValidatedContestClone, AppError>(
                name_error(120),
            ),
            0 < trim(self.name@).len() <= 120 ==> match complete_schedule_check(
                self.start_at,
                self.freeze_at,
                self.end_at,
            ) {
                Err(e) => r == Err::<ValidatedContestClone, AppError>(e),
                Ok(schedule) => r matches Ok(v) && v.name@ == trim(self.name@) && v.visibility
                    == self.visibility && v.schedule == schedule && v.copy_teams == self.copy_teams,
            },
    {
        let name = trimmed(self.name.as_str());
        let count = chars_of(name.as_str()).len();
        if count == 0 || count > 120 {
            return Err(AppError::validation("name", "must contain between 1 and 120 characters"));
        }
        let schedule = validate_complete_schedule(self.start_at, self.freeze_at, self.end_at)?;
        Ok(ValidatedContestClone {
            name,
            visibility: self.visibility,
            schedule,
            copy_teams: self.copy_teams,
        })
    }
}

/// Changes to a contest as a client submits them.
pub struct UpdateContestRequest {
    pub name: Option<String>,
    pub visibility: Option<ContestVisibility>,
    pub start_at: Option<Timestamp>,
    pub end_at: Option<Timestamp>,
    pub freeze_at: Option<Timestamp>,
    pub expected_version: Option<i64>,
}

#[derive(Debug)]
pub struct ValidatedUpdateContest {
    pub name: Option<String>,
    pub visibility: Option<ContestVisibility>,
    pub start_at: Option<Timestamp>,
    pub end_at: Option<Timestamp>,
    pub freeze_at: Option<Timestamp>,
    pub expected_version: Option<i64>,
}

impl ValidatedUpdateContest {
    pub open spec fn touches_schedule(&self) -> bool {
        self.start_at is Some || self.freeze_at is Some || self.end_at is Some
    }

    pub fn changes_schedule(&self) -> (b: bool)
        ensures
            b == self.touches_schedule(),
    {
        self.start_at.is_some() || self.freeze_at.is_some() || self.end_at.is_some()
    }
}

pub open spec fn no_change_error() -> AppError {
    validation_error("request", "must include at least one change")
}

impl UpdateContestRequest {
    /// A given name is validated first; a request must change something.
    pub fn validate(self) -> (r: Result<ValidatedUpdateContest, AppError>)
        ensures
            match self.name {
                Some(n) => if !(0 < trim(n@).len() <= 255) {
                    r == Err::<ValidatedUpdateContest, AppError>(name_error(255))
                } else {
                    r matches Ok(v) && v.name matches Some(m) && m@ == trim(n@) && v.visibility
                        == self.visibility && v.start_at == self.start_at && v.end_at
                        == self.end_at && v.freeze_at == self.freeze_at && v.expected_version
                        == self.expected_version
                },
                None => if self.visibility is None && self.start_at is None && self.end_at is None
                    && self.freeze_at is None {
                    r == Err::<ValidatedUpdateContest, AppError>(no_change_error())
                } else {
                    r matches Ok(v) && v.name is None && v.visibility == self.visibility
                        && v.start_at == self.start_at && v.end_at == self.end_at && v.freeze_at
                        == self.freeze_at && v.expected_version == self.expected_version
                },
            },
    {
        let name = match self.name {
            Some(n) => Some(validate_name(n)?),
            None => None,
        };
        if name.is_none() && self.visibility.is_none() && self.start_at.is_none()
            && self.end_at.is_none() && self.freeze_at.is_none() {
            return Err(AppError::validation("request", "must include at least one change"));
        }
        Ok(ValidatedUpdateContest {
            name,
            visibility: self.visibility,
            start_at: self.start_at,
            end_at: self.end_at,
            freeze_at: self.freeze_at,
            expected_version: self.expected_version,
        })
    }
}

/// A request to move a contest to another lifecycle state.
pub struct LifecycleTransitionRequest {
    pub to: ContestStatus,
}

/// The three instants of an optional schedule, each absent without one.
pub fn schedule_values(schedule: Option<ContestSchedule>) -> (r: (
    Option<Timestamp>,
    Option<Timestamp>,
    Option<Timestamp>,
))
    ensures
        r == match schedule {
            None => (None, None, None),
            Some(s) => (Some(s.start_at), Some(s.freeze_at), Some(s.end_at)),
        },
{
    match schedule {
        None => (None, None, None),
        Some(s) => (Some(s.start_at), Some(s.freeze_at), Some(s.end_at)),
    }
}

/// The schedule as stored: complete, or absent.
pub open spec fn stored_schedule(
    start_at: Option<Timestamp>,
    freeze_at: Option<Timestamp>,
    end_at: Option<Timestamp>,
) -> Option<ContestSchedule> {
    match (start_at, freeze_at, end_at) {
        (Some(s), Some(f), Some(e)) => Some(ContestSchedule { start_at: s, freeze_at: f, end_at: e }),
        _ => None,
    }
}

pub open spec fn schedule_locked_error() -> AppError {
    coded_error(
        ErrorKind::Conflict,
        "CONTEST_SCHEDULE_LOCKED",
        "Contest schedule cannot be changed after the contest starts",
    )
}

pub open spec fn missing_instant_error(field: &'static str) -> AppError {
    validation_error(field, "is required to configure the schedule")
}

/// The first of two optional instants that is present.
pub open spec fn either(a: Option<Timestamp>, b: Option<Timestamp>) -> Option<Timestamp> {
    match a {
        Some(t) => Some(t),
        None => b,
    }
}

/// The schedule a contest has after an update. An update that touches the
/// schedule is refused once the contest runs; each instant it leaves out is
/// taken from the stored one, all three must then be known, and they must be
/// in order. An update that leaves the schedule alone keeps the stored one.
pub open spec fn updated_schedule(
    request: &ValidatedUpdateContest,
    status: ContestStatus,
    start_at: Option<Timestamp>,
    freeze_at: Option<Timestamp>,
    end_at: Option<Timestamp>,
) -> Result<Option<ContestSchedule>, AppError> {
    if !request.touches_schedule() {
        Ok(stored_schedule(start_at, freeze_at, end_at))
    } else if !(status == ContestStatus::Draft || status == ContestStatus::FrozenConfig) {
        Err(schedule_locked_error())
    } else {
        match either(request.start_at, start_at) {
            None => Err(missing_instant_error("startAt")),
            Some(s) => match either(request.freeze_at, freeze_at) {
                None => Err(missing_instant_error("freezeAt")),
                Some(f) => match either(request.end_at, end_at) {
                    None => Err(missing_instant_error("endAt")),
                    Some(e) => match schedule_check(
                        ContestSchedule { start_at: s, freeze_at: f, end_at: e },
                    ) {
                        Ok(v) => Ok(Some(v)),
                        Err(err) => Err(err),
                    },
                },
            },
        }
    }
}

fn first_of(a: Option<Timestamp>, b: Option<Timestamp>) -> (r: Option<Timestamp>)
    ensures
        r == either(a, b),
{
    match a {
        Some(t) => Some(t),
        None => b,
    }
}

/// Resolves the schedule of a contest update against the stored instants.
pub fn resolve_update_schedule(
    request: &ValidatedUpdateContest,
    status: ContestStatus,
    start_at: Option<Timestamp>,
    freeze_at: Option<Timestamp>,
    end_at: Option<Timestamp>,
) -> (r: Result<Option<ContestSchedule>, AppError>)
    ensures
        r == updated_schedule(request, status, start_at, freeze_at, end_at),
{
    if !request.changes_schedule() {
        return match (start_at, freeze_at, end_at) {
            (Some(s), Some(f), Some(e)) => Ok(Some(ContestSchedule { start_at: s, freeze_at: f, end_at: e })),
            _ => Ok(None),
        };
    }
    if !status.can_reschedule() {
        return Err(AppError::conflict(
            "CONTEST_SCHEDULE_LOCKED",
            "Contest schedule cannot be changed after the contest starts",
        ));
    }
    let s = match first_of(request.start_at, start_at) {
        Some(t) => t,
        None => {
            return Err(AppError::validation("startAt", "is required to configure the schedule"));
        },
    };
    let f = match first_of(request.freeze_at, freeze_at) {
        Some(t) => t,
        None => {
            return Err(AppError::validation("freezeAt", "is required to configure the schedule"));
        },
    };
    let e = match first_of(request.end_at, end_at) {
        Some(t) => t,
        None => {
            return Err(AppError::validation("endAt", "is required to configure the schedule"));
        },
    };
    match (ContestSchedule { start_at: s, freeze_at: f, end_at: e }).validate() {
        Ok(v) => Ok(Some(v)),
        Err(err) => Err(err),
    }
}

/// An accepted update leaves a contest that runs or has run with the
/// schedule it had.
pub proof fn running_contests_keep_their_schedule(
    request: &ValidatedUpdateContest,
    status: ContestStatus,
    start_at: Option<Timestamp>,
    freeze_at: Option<Timestamp>,
    end_at: Option<Timestamp>,
)
    requires
        !(status == ContestStatus::Draft || status == ContestStatus::FrozenConfig),
        updated_schedule(request, status, start_at, freeze_at, end_at) is Ok,
    ensures
        updated_schedule(request, status, start_at, freeze_at, end_at).unwrap() == stored_schedule(
            start_at,
            freeze_at,
            end_at,
        ),
{
}

/// An accepted update that names an instant (start, freeze or end) leaves
/// the contest with that instant; a stored instant stands only where the
/// request leaves it out.
pub proof fn updates_take_the_requested_instants(
    request: &ValidatedUpdateContest,
    status: ContestStatus,
    start_at: Option<Timestamp>,
    freeze_at: Option<Timestamp>,
    end_at: Option<Timestamp>,
)
    requires
        request.touches_schedule(),
        updated_schedule(request, status, start_at, freeze_at, end_at) is Ok,
    ensures
        updated_schedule(request, status, start_at, freeze_at, end_at) matches Ok(Some(s)) && {
            &&& request.start_at is Some ==> s.start_at == request.start_at->0
            &&& request.freeze_at is Some ==> s.freeze_at == request.freeze_at->0
            &&& request.end_at is Some ==> s.end_at == request.end_at->0
            &&& request.start_at is None ==> start_at == Some(s.start_at)
            &&& request.freeze_at is None ==> freeze_at == Some(s.freeze_at)
            &&& request.end_at is None ==> end_at == Some(s.end_at)
        },
{
}

/// Before a contest runs (DRAFT or FROZEN_CONFIG), an update that touches
/// the schedule is accepted exactly when, with the stored instants filling
/// what it leaves out, all three instants are known and start <= freeze <=
/// end; once the contest runs, such an update is refused as locked.
pub proof fn schedule_updates_accepted_exactly_when_complete_and_ordered(
    request: &ValidatedUpdateContest,
    status: ContestStatus,
    start_at: Option<Timestamp>,
    freeze_at: Option<Timestamp>,
    end_at: Option<Timestamp>,
)
    requires
        request.touches_schedule(),
    ensures
        !(status == ContestStatus::Draft || status == ContestStatus::FrozenConfig) ==> updated_schedule(
            request,
            status,
            start_at,
            freeze_at,
            end_at,
        ) == Err::<Option<ContestSchedule>, AppError>(schedule_locked_error()),
        (status == ContestStatus::Draft || status == ContestStatus::FrozenConfig) ==> ({
            let s = if request.start_at is Some { request.start_at } else { start_at };
            let f = if request.freeze_at is Some { request.freeze_at } else { freeze_at };
            let e = if request.end_at is Some { request.end_at } else { end_at };
            updated_schedule(request, status, start_at, freeze_at, end_at) is Ok <==> (s is Some
                && f is Some && e is Some && s->0.unix_nanos <= f->0.unix_nanos && f->0.unix_nanos
                <= e->0.unix_nanos)
        }),
{
}

/// Every schedule an update produces is in order.
pub proof fn updated_schedules_are_ordered(
    request: &ValidatedUpdateContest,
    status: ContestStatus,
    start_at: Option<Timestamp>,
    freeze_at: Option<Timestamp>,
    end_at: Option<Timestamp>,
)
    requires
        request.touches_schedule(),
        updated_schedule(request, status, start_at, freeze_at, end_at) is Ok,
    ensures
        updated_schedule(request, status, start_at, freeze_at, end_at) matches Ok(Some(s))
            && s.start_at.unix_nanos <= s.freeze_at.unix_nanos <= s.end_at.unix_nanos,
{
}

pub open spec fn update_stale_error() -> AppError {
    coded_error(
        ErrorKind::Conflict,
        "CONTEST_UPDATE_STALE",
        "Contest was modified by another administrator; reload and retry",
    )
}

/// An update that matched no row lost a race with another change.
pub fn update_outcome(row_updated: bool) -> (r: Result<(), AppError>)
    ensures
        r == if row_updated {
            Ok::<(), AppError>(())
        } else {
            Err(update_stale_error())
        },
{
    if row_updated {
        Ok(())
    } else {
        Err(AppError::conflict(
            "CONTEST_UPDATE_STALE",
            "Contest was modified by another administrator; reload and retry",
        ))
    }
}

pub open spec fn overlap_error() -> AppError {
    coded_error(
        ErrorKind::Conflict,
        "COMPETITION_SCHEDULE_OVERLAP",
        "Contest schedules must not overlap in competition mode",
    )
}

/// Whether a schedule must be checked against the other contests: only in
/// competition mode, and only when it has both a start and an end.
pub fn overlap_check_needed(
    competition_mode: bool,
    start_at: Option<Timestamp>,
    end_at: Option<Timestamp>,
) -> (b: bool)
    ensures
        b == (competition_mode && start_at is Some && end_at is Some),
{
    competition_mode && start_at.is_some() && end_at.is_some()
}

/// The answer of the overlap check.
pub fn overlap_outcome(overlaps: bool) -> (r: Result<(), AppError>)
    ensures
        r == if overlaps {
            Err(overlap_error())
        } else {
            Ok::<(), AppError>(())
        },
{
    if overlaps {
        Err(AppError::conflict("COMPETITION_SCHEDULE_OVERLAP", "Contest schedules must not overlap in competition mode"))
    } else {
        Ok(())
    }
}

/// Why the ordering of a schedule is wrong.
#[derive(Debug, Clone, Copy, PartialEq, Eq, Structural)]
pub enum ContestScheduleError {
    StartAfterFreeze,
    FreezeAfterEnd,
}

/// Why the lifecycle rules refuse a transition.
#[derive(Debug, Clone, Copy, PartialEq, Eq, Structural)]
pub enum ContestTransitionError {
    Invalid { from: ContestStatus, to: ContestStatus },
    ScheduleRequired,
    InvalidSchedule(ContestScheduleError),
}

/// Why the lifecycle rules refuse an extension of the end time.
#[derive(Debug, Clone, Copy, PartialEq, Eq, Structural)]
pub enum ContestExtensionError {
    InvalidState(ContestStatus),
    EndTimeNotSet,
    Stale,
    NotLater,
}

pub open spec fn transition_error(error: ContestTransitionError) -> AppError {
    match error {
        ContestTransitionError::Invalid { .. } => coded_error(
            ErrorKind::Conflict,
            "CONTEST_TRANSITION_INVALID",
            "The requested contest lifecycle transition is not allowed",
        ),
        ContestTransitionError::ScheduleRequired => validation_error(
            "schedule",
            "must be configured before freezing contest configuration",
        ),
        ContestTransitionError::InvalidSchedule(_) => validation_error(
            "schedule",
            "must be ordered before freezing configuration",
        ),
    }
}

pub fn map_transition_error(error: ContestTransitionError) -> (e: AppError)
    ensures
        e == transition_error(error),
{
    match error {
        ContestTransitionError::Invalid { .. } => AppError::conflict(
            "CONTEST_TRANSITION_INVALID",
            "The requested contest lifecycle transition is not allowed",
        ),
        ContestTransitionError::ScheduleRequired => AppError::validation(
            "schedule",
            "must be configured before freezing contest configuration",
        ),
        ContestTransitionError::InvalidSchedule(_) => AppError::validation(
            "schedule",
            "must be ordered before freezing configuration",
        ),
    }
}

pub open spec fn extension_error(error: ContestExtensionError) -> AppError {
    match error {
        ContestExtensionError::InvalidState(_) => coded_error(
            ErrorKind::Conflict,
            "CONTEST_EXTENSION_STATUS_INVALID",
            "Contest can be extended only while running or paused",
        ),
        ContestExtensionError::EndTimeNotSet => coded_error(
            ErrorKind::Conflict,
            "CONTEST_END_TIME_NOT_SET",
            "Contest end time is not configured",
        ),
        ContestExtensionError::Stale => coded_error(
            ErrorKind::Conflict,
            "CONTEST_EXTENSION_STALE",
            "Contest end time changed; reload before extending",
        ),
        ContestExtensionError::NotLater => coded_error(
            ErrorKind::Conflict,
            "CONTEST_EXTENSION_NOT_LATER",
            "New contest end time must be later than the current end time",
        ),
    }
}

pub fn map_extension_error(error: ContestExtensionError) -> (e: AppError)
    ensures
        e == extension_error(error),
{
    match error {
        ContestExtensionError::InvalidState(_) => AppError::conflict(
            "CONTEST_EXTENSION_STATUS_INVALID",
            "Contest can be extended only while running or paused",
        ),
        ContestExtensionError::EndTimeNotSet => AppError::conflict(
            "CONTEST_END_TIME_NOT_SET",
            "Contest end time is not configured",
        ),
        ContestExtensionError::Stale => AppError::conflict(
            "CONTEST_EXTENSION_STALE",
            "Contest end time changed; reload before extending",
        ),
        ContestExtensionError::NotLater => AppError::conflict(
            "CONTEST_EXTENSION_NOT_LATER",
            "New contest end time must be later than the current end time",
        ),
    }
}

/// Each kind of refused extension answers with a code of its own; a refused
/// transition is a conflict when the lifecycle forbids it and a validation
/// failure when the schedule is missing or out of order.
pub proof fn transition_and_extension_errors_map_to_distinct_codes(
    a: ContestExtensionError,
    b: ContestExtensionError,
    from: ContestStatus,
    to: ContestStatus,
    schedule: ContestScheduleError,
)
    ensures
        extension_error(a).code == extension_error(b).code ==> (a is InvalidState && b is InvalidState)
            || a == b,
        transition_error(ContestTransitionError::Invalid { from, to }).kind == ErrorKind::Conflict,
        transition_error(ContestTransitionError::ScheduleRequired).code == "VALIDATION_FAILED",
        transition_error(ContestTransitionError::InvalidSchedule(schedule)).code == "VALIDATION_FAILED",
        transition_error(ContestTransitionError::Invalid { from, to }).code != "VALIDATION_FAILED",
{
    reveal_strlit("CONTEST_EXTENSION_STATUS_INVALID");
    reveal_strlit("CONTEST_END_TIME_NOT_SET");
    reveal_strlit("CONTEST_EXTENSION_STALE");
    reveal_strlit("CONTEST_EXTENSION_NOT_LATER");
    reveal_strlit("CONTEST_TRANSITION_INVALID");
    reveal_strlit("VALIDATION_FAILED");
}

pub open spec fn no_problems_error() -> AppError {
    validation_error("problems", "must contain at least one assigned problem before configuration freeze")
}

pub open spec fn missing_colors_error() -> AppError {
    validation_error(
        "problemColors",
        "every assigned problem must have a balloon color before configuration freeze",
    )
}

pub open spec fn archive_busy_error() -> AppError {
    coded_error(
        ErrorKind::Conflict,
        "CONTEST_ARCHIVE_BUSY",
        "Contest still has active judging, delivery, presentation, or ceremony work",
    )
}

/// Whether a contest is ready for a transition the lifecycle rules allow: its
/// configuration freezes only with at least one problem, each with a balloon
/// colour; it is archived only when no judging, delivery, presentation or
/// ceremony work is active (`busy`).
pub fn transition_readiness(
    to: ContestStatus,
    problem_count: i64,
    missing_colors: i64,
    busy: bool,
) -> (r: Result<(), AppError>)
    ensures
        r == if to == ContestStatus::FrozenConfig && problem_count == 0 {
            Err(no_problems_error())
        } else if to == ContestStatus::FrozenConfig && missing_colors > 0 {
            Err(missing_colors_error())
        } else if to == ContestStatus::Archived && busy {
            Err(archive_busy_error())
        } else {
            Ok::<(), AppError>(())
        },
{
    if to == ContestStatus::FrozenConfig {
        if problem_count == 0 {
            return Err(AppError::validation(
                "problems",
                "must contain at least one assigned problem before configuration freeze",
            ));
        }
        if missing_colors > 0 {
            return Err(AppError::validation(
                "problemColors",
                "every assigned problem must have a balloon color before configuration freeze",
            ));
        }
    }
    if to == ContestStatus::Archived && busy {
        return Err(AppError::conflict(
            "CONTEST_ARCHIVE_BUSY",
            "Contest still has active judging, delivery, presentation, or ceremony work",
        ));
    }
    Ok(())
}

/// Decides a lifecycle transition, given the verdict of the lifecycle rules
/// on it and the readiness facts of the contest.
pub fn plan_transition(
    rules: Result<(), ContestTransitionError>,
    to: ContestStatus,
    problem_count: i64,
    missing_colors: i64,
    busy: bool,
) -> (r: Result<(), AppError>)
    ensures
        r == match rules {
            Err(e) => Err(transition_error(e)),
            Ok(_) => if to == ContestStatus::FrozenConfig && problem_count == 0 {
                Err(no_problems_error())
            } else if to == ContestStatus::FrozenConfig && missing_colors > 0 {
                Err(missing_colors_error())
            } else if to == ContestStatus::Archived && busy {
                Err(archive_busy_error())
            } else {
                Ok::<(), AppError>(())
            },
        },
{
    match rules {
        Err(e) => Err(map_transition_error(e)),
        Ok(_) => transition_readiness(to, problem_count, missing_colors, busy),
    }
}

pub open spec fn has_teams_error() -> AppError {
    coded_error(ErrorKind::Conflict, "CONTEST_HAS_ACTIVE_TEAMS", "Contest with assigned teams cannot be deleted")
}

/// A contest with assigned teams cannot be deleted.
pub fn deletion_check(has_teams: bool) -> (r: Result<(), AppError>)
    ensures
        r == if has_teams {
            Err(has_teams_error())
        } else {
            Ok::<(), AppError>(())
        },
{
    if has_teams {
        Err(AppError::conflict("CONTEST_HAS_ACTIVE_TEAMS", "Contest with assigned teams cannot be deleted"))
    } else {
        Ok(())
    }
}

pub open spec fn name_taken_error() -> AppError {
    coded_error(ErrorKind::Conflict, "CONTEST_NAME_TAKEN", "Contest name is already in use")
}

/// The answer to a failed contest write, given the database constraint it
/// broke, if any.
pub fn map_contest_write_error(constraint: Option<&str>) -> (e: AppError)
    ensures
        e == match constraint {
            Some(c) => if c@ == "idx_contests_active_name_unique"@ {
                name_taken_error()
            } else {
                coded_error(ErrorKind::Internal, "INTERNAL_ERROR", "write contest")
            },
            None => coded_error(ErrorKind::Internal, "INTERNAL_ERROR", "write contest"),
        },
{
    match constraint {
        Some(c) => if str_eq(c, "idx_contests_active_name_unique") {
            AppError::conflict("CONTEST_NAME_TAKEN", "Contest name is already in use")
        } else {
            AppError::internal("write contest")
        },
        None => AppError::internal("write contest"),
    }
}

/// The RFC 3339 text of the UTC instant `unix_nanos` nanoseconds after the
/// epoch, where the format can express it.
pub uninterp spec fn rfc3339_text(unix_nanos: int) -> Option<Seq<char>>;

/// Formats an instant with `time::OffsetDateTime::from_unix_timestamp_nanos`
/// and `format(&Rfc3339)`; `None` where either refuses it. The text is
/// named, not stated.
#[verifier::external_body]
fn format_instant(unix_nanos: i128) -> (r: Option<String>)
    ensures
        match r {
            Some(s) => rfc3339_text(unix_nanos as int) == Some(s@),
            None => rfc3339_text(unix_nanos as int) is None,
        },
{
    match time::OffsetDateTime::from_unix_timestamp_nanos(unix_nanos) {
        Ok(t) => t.format(&time::format_description::well_known::Rfc3339).ok(),
        Err(_) => None,
    }
}

/// An instant as RFC 3339 text for event payloads.
pub fn format_rfc3339(value: Timestamp) -> (r: Result<String, AppError>)
    ensures
        match rfc3339_text(value.unix_nanos as int) {
            Some(t) => r matches Ok(s) && s@ == t,
            None => r == Err::<String, AppError>(
                coded_error(ErrorKind::Internal, "INTERNAL_ERROR", "format realtime event timestamp"),
            ),
        },
{
    match format_instant(value.unix_nanos) {
        Some(s) => Ok(s),
        None => Err(AppError::internal("format realtime event timestamp")),
    }
}

/// The audit record of a lifecycle transition: `FROM->TO`.
pub fn transition_audit_text(from: ContestStatus, to: ContestStatus) -> (s: String)
    ensures
        s@ == status_name(from)@ + "->"@ + status_name(to)@,
{
    let mut s = String::new();
    append_str(&mut s, from.as_str());
    append_str(&mut s, "->");
    append_str(&mut s, to.as_str());
    s
}

/// The audit record of an end-time extension: the old and new end as Unix
/// seconds, `OLD->NEW`.
pub fn extension_audit_text(previous_end_unix: i64, new_end_unix: i64) -> (s: String)
    ensures
        s@ == decimal_text(previous_end_unix as int) + "->"@ + decimal_text(new_end_unix as int),
{
    let mut s = String::new();
    push_decimal(&mut s, previous_end_unix);
    append_str(&mut s, "->");
    push_decimal(&mut s, new_end_unix);
    s
}

/// The answer to an end-time extension, given the verdict of the lifecycle
/// rules: the previous end time, or the refusal.
pub fn extension_outcome(rules: Result<Timestamp, ContestExtensionError>) -> (r: Result<Timestamp, AppError>)
    ensures
        r == match rules {
            Ok(previous) => Ok::<Timestamp, AppError>(previous),
            Err(e) => Err(extension_error(e)),
        },
{
    match rules {
        Ok(previous) => Ok(previous),
        Err(e) => Err(map_extension_error(e)),
    }
}

/// A stored contest as the database returns it.
#[derive(Debug)]
pub struct ContestRow {
    pub id: i64,
    pub name: String,
    pub status: String,
    pub visibility: String,
    pub start_at: Option<Timestamp>,
    pub end_at: Option<Timestamp>,
    pub freeze_at: Option<Timestamp>,
    pub version: i64,
    pub created_at: Timestamp,
    pub updated_at: Timestamp,
    pub deleted_at: Option<Timestamp>,
}

/// A contest as the API returns it.
#[derive(Debug)]
pub struct ContestResponse {
    pub id: i64,
    pub name: String,
    pub status: ContestStatus,
    pub visibility: ContestVisibility,
    pub start_at: Option<Timestamp>,
    pub end_at: Option<Timestamp>,
    pub freeze_at: Option<Timestamp>,
    pub version: i64,
    pub created_at: Timestamp,
    pub updated_at: Timestamp,
    pub deleted_at: Option<Timestamp>,
}

/// The stored visibility named `name`, if any.
pub open spec fn visibility_named(name: Seq<char>) -> Option<ContestVisibility> {
    if name == "PRIVATE"@ {
        Some(ContestVisibility::Private)
    } else if name == "PUBLIC"@ {
        Some(ContestVisibility::Public)
    } else {
        None
    }
}

impl ContestRow {
    /// The API form of a stored contest; a status or visibility the
    /// platform does not know is an internal error, the status checked first.
    pub fn response(self) -> (r: Result<ContestResponse, AppError>)
        ensures
            status_named(self.status@) is None ==> r == Err::<ContestResponse, AppError>(
                coded_error(ErrorKind::Internal, "INTERNAL_ERROR", "invalid contests.status"),
            ),
            status_named(self.status@) is Some && visibility_named(self.visibility@) is None ==> r
                == Err::<ContestResponse, AppError>(
                coded_error(ErrorKind::Internal, "INTERNAL_ERROR", "invalid contests.visibility"),
            ),
            match (status_named(self.status@), visibility_named(self.visibility@)) {
                (Some(status), Some(visibility)) => r matches Ok(c) && c.id == self.id && c.name
                    == self.name && c.status == status && c.visibility == visibility && c.start_at
                    == self.start_at && c.end_at == self.end_at && c.freeze_at == self.freeze_at
                    && c.version == self.version && c.created_at == self.created_at && c.updated_at
                    == self.updated_at && c.deleted_at == self.deleted_at,
                _ => true,
            },
    {
        let status = ContestStatus::from_name(self.status.as_str())?;
        let visibility = ContestVisibility::from_name(self.visibility.as_str())?;
        Ok(ContestResponse {
            id: self.id,
            name: self.name,
            status,
            visibility,
            start_at: self.start_at,
            end_at: self.end_at,
            freeze_at: self.freeze_at,
            version: self.version,
            created_at: self.created_at,
            updated_at: self.updated_at,
            deleted_at: self.deleted_at,
        })
    }
}

impl core::str::FromStr for ContestStatus {
    type Err = AppError;

    fn from_str(value: &str) -> (r: Result<ContestStatus, AppError>)
        ensures
            r == match status_named(value@) {
                Some(status) => Ok(status),
                None => Err(coded_error(ErrorKind::Internal, "INTERNAL_ERROR", "invalid contests.status")),
            },
    {
        ContestStatus::from_name(value)
    }
}

impl core::str::FromStr for ContestVisibility {
    type Err = AppError;

    fn from_str(value: &str) -> (r: Result<ContestVisibility, AppError>)
        ensures
            r == match visibility_named(value@) {
                Some(visibility) => Ok(visibility),
                None => Err(coded_error(ErrorKind::Internal, "INTERNAL_ERROR", "invalid contests.visibility")),
            },
    {
        ContestVisibility::from_name(value)
    }
}

} // verus!
