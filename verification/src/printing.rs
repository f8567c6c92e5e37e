use vstd::prelude::*;

use crate::auth::{AuthUser, PRINTING_MANAGE, UserType};
use crate::backoff::{backoff_exponent, doubling, doubling_of, exponent_of, lemma_backoff_exponent_monotonic, lemma_doubling_monotonic};
use crate::contests::{Timestamp, in_calendar_range};
use crate::error::{AppError, ErrorKind, coded_error, validation_error};
use crate::digest::{hex_lower, sha256_digest, sha256_hex};
use crate::text::{chars_eq, is_white_space, join_with_spaces, join_words, lines, lines_of, nested_view, words, words_of, chars_of, seq_ascii_upper, str_eq, string_of_range, trim, trim_bounds, trimmed_upper};

verus! {

pub const MAX_CONTENT_BYTES: usize = 20480;

pub const MAX_PAGES: usize = 5;

pub const LINES_PER_PAGE: usize = 50;

pub const COLUMNS_PER_LINE: usize = 100;

pub const DELIVERY_LEASE_SECONDS: i32 = 10;

pub const MONITOR_DELAY_SECONDS: i32 = 5;

pub const UNKNOWN_JOB_GRACE_MINUTES: i32 = 30;

pub const MAX_DELIVERY_ATTEMPTS: i32 = 3;

/// The state of a print request.
#[derive(Debug, Clone, Copy, PartialEq, Eq, Structural)]
pub enum PrintStatus {
    Requested,
    Queued,
    Printing,
    Completed,
    Failed,
    Cancelled,
    Rejected,
}

pub open spec fn print_status_name(status: PrintStatus) -> &'static str {
    match status {
        PrintStatus::Requested => "REQUESTED",
        PrintStatus::Queued => "QUEUED",
        PrintStatus::Printing => "PRINTING",
        PrintStatus::Completed => "COMPLETED",
        PrintStatus::Failed => "FAILED",
        PrintStatus::Cancelled => "CANCELLED",
        PrintStatus::Rejected => "REJECTED",
    }
}

/// The status whose stored name is `name`, if any.
pub open spec fn print_status_named(name: Seq<char>) -> Option<PrintStatus> {
    if name == "REQUESTED"@ {
        Some(PrintStatus::Requested)
    } else if name == "QUEUED"@ {
        Some(PrintStatus::Queued)
    } else if name == "PRINTING"@ {
        Some(PrintStatus::Printing)
    } else if name == "COMPLETED"@ {
        Some(PrintStatus::Completed)
    } else if name == "FAILED"@ {
        Some(PrintStatus::Failed)
    } else if name == "CANCELLED"@ {
        Some(PrintStatus::Cancelled)
    } else if name == "REJECTED"@ {
        Some(PrintStatus::Rejected)
    } else {
        None
    }
}

impl PrintStatus {
    pub fn as_str(self) -> (s: &'static str)
        ensures
            s == print_status_name(self),
    {
        match self {
            PrintStatus::Requested => "REQUESTED",
            PrintStatus::Queued => "QUEUED",
            PrintStatus::Printing => "PRINTING",
            PrintStatus::Completed => "COMPLETED",
            PrintStatus::Failed => "FAILED",
            PrintStatus::Cancelled => "CANCELLED",
            PrintStatus::Rejected => "REJECTED",
        }
    }

    pub fn from_name(value: &str) -> (r: Option<PrintStatus>)
        ensures
            r == print_status_named(value@),
    {
        if str_eq(value, "REQUESTED") {
            Some(PrintStatus::Requested)
        } else if str_eq(value, "QUEUED") {
            Some(PrintStatus::Queued)
        } else if str_eq(value, "PRINTING") {
            Some(PrintStatus::Printing)
        } else if str_eq(value, "COMPLETED") {
            Some(PrintStatus::Completed)
        } else if str_eq(value, "FAILED") {
            Some(PrintStatus::Failed)
        } else if str_eq(value, "CANCELLED") {
            Some(PrintStatus::Cancelled)
        } else if str_eq(value, "REJECTED") {
            Some(PrintStatus::Rejected)
        } else {
            None
        }
    }

    /// A request in one of these states never changes again.
    pub open spec fn is_final(self) -> bool {
        self == PrintStatus::Completed || self == PrintStatus::Cancelled || self == PrintStatus::Rejected
    }
}

/// What an operator asks of a print request.
#[derive(Debug, Clone, Copy, PartialEq, Eq, Structural)]
pub enum PrintAction {
    Retry,
    Cancel,
    Reject,
}

/// The outcome of an operator action: the new status and the stored reason.
#[derive(Debug, Clone, PartialEq, Eq)]
pub struct PrintTransition {
    pub next: PrintStatus,
    pub failed_reason: Option<String>,
}

pub open spec fn delivery_in_progress_error() -> AppError {
    coded_error(
        ErrorKind::Conflict,
        "PRINTING_DELIVERY_IN_PROGRESS",
        "Print request is being submitted to CUPS; retry cancellation shortly",
    )
}

pub open spec fn state_changed_error() -> AppError {
    coded_error(ErrorKind::Conflict, "PRINTING_STATE_CHANGED", "Print request cannot perform this transition")
}

/// Whether `action` is allowed from `status` (before the reason is checked).
pub open spec fn action_allowed(action: PrintAction, status: PrintStatus) -> bool {
    match action {
        PrintAction::Retry => status == PrintStatus::Failed || status == PrintStatus::Queued,
        PrintAction::Cancel => !status.is_final(),
        PrintAction::Reject => status == PrintStatus::Requested || status == PrintStatus::Queued,
    }
}

pub open spec fn action_target(action: PrintAction) -> PrintStatus {
    match action {
        PrintAction::Retry => PrintStatus::Queued,
        PrintAction::Cancel => PrintStatus::Cancelled,
        PrintAction::Reject => PrintStatus::Rejected,
    }
}

/// `c` with carriage returns and line feeds turned into spaces.
pub open spec fn flatten_line_break(c: char) -> char {
    if c == '\r' || c == '\n' {
        ' '
    } else {
        c
    }
}

pub open spec fn flatten_line_breaks(s: Seq<char>) -> Seq<char> {
    s.map_values(|c: char| flatten_line_break(c))
}

/// The first `n` characters of `s` (all of them when it is shorter).
pub open spec fn take_chars(s: Seq<char>, n: nat) -> Seq<char> {
    if s.len() <= n {
        s
    } else {
        s.take(n as int)
    }
}

/// The stored form of an operator's rejection reason: line breaks become
/// spaces, the result is trimmed and cut to 255 characters.
pub open spec fn sanitized_reason(reason: Seq<char>) -> Seq<char> {
    take_chars(trim(flatten_line_breaks(reason)), 255)
}

pub open spec fn empty_reason_error() -> AppError {
    validation_error("reason", "must not be empty")
}

/// The text of an optional reason; an absent one is empty.
pub open spec fn reason_text(reason: Option<String>) -> Seq<char> {
    match reason {
        Some(s) => s@,
        None => Seq::<char>::empty(),
    }
}

/// Normalises a rejection reason; an absent or blank one is refused.
pub fn sanitize_reason(reason: Option<String>) -> (r: Result<String, AppError>)
    ensures
        sanitized_reason(reason_text(reason)).len() == 0 ==> r == Err::<String, AppError>(
            empty_reason_error(),
        ),
        sanitized_reason(reason_text(reason)).len() > 0 ==> r is Ok && r->Ok_0@ == sanitized_reason(
            reason_text(reason),
        ),
{
    let raw = match reason {
        Some(s) => s,
        None => String::new(),
    };
    let chars = crate::text::chars_of(raw.as_str());
    let mut flat: Vec<char> = Vec::new();
    let mut k: usize = 0;
    while k < chars.len()
        invariant
            k <= chars.len(),
            flat@ == flatten_line_breaks(chars@.take(k as int)),
        decreases chars.len() - k,
    {
        let c = chars[k];
        let f = if c == '\r' || c == '\n' {
            ' '
        } else {
            c
        };
        flat.push(f);
        assert(flatten_line_breaks(chars@.take(k + 1)) =~= flatten_line_breaks(chars@.take(k as int)).push(f));
        k += 1;
    }
    assert(chars@.take(chars.len() as int) =~= chars@);
    let (i, j) = crate::text::trim_bounds(&flat);
    let end = if j - i > 255 {
        i + 255
    } else {
        j
    };
    let out = crate::text::string_of_range(&flat, i, end);
    assert(out@ == sanitized_reason(raw@)) by {
        assert(flat@.subrange(i as int, end as int) =~= take_chars(flat@.subrange(i as int, j as int), 255));
    }
    if end == i {
        Err(AppError::validation("reason", "must not be empty"))
    } else {
        Ok(out)
    }
}

/// Decides an operator action on a print request in `status`.
///
/// Cancelling a queued request that is being handed to CUPS is refused;
/// retry applies to failed or queued requests, cancel to any request that is
/// not completed, cancelled or rejected, and reject to requested or queued
/// ones, with a non-blank reason.
pub fn plan_print_transition(
    action: PrintAction,
    status: PrintStatus,
    delivery_in_progress: bool,
    reason: Option<String>,
) -> (r: Result<PrintTransition, AppError>)
    ensures
        ({
            let raw = reason_text(reason);
            if action == PrintAction::Cancel && status == PrintStatus::Queued && delivery_in_progress {
                r == Err::<PrintTransition, AppError>(delivery_in_progress_error())
            } else if !action_allowed(action, status) {
                r == Err::<PrintTransition, AppError>(state_changed_error())
            } else if action == PrintAction::Reject {
                if sanitized_reason(raw).len() == 0 {
                    r == Err::<PrintTransition, AppError>(empty_reason_error())
                } else {
                    r is Ok && r->Ok_0.next == PrintStatus::Rejected && r->Ok_0.failed_reason is Some
                        && r->Ok_0.failed_reason->Some_0@ == sanitized_reason(raw)
                }
            } else {
                r is Ok && r->Ok_0.next == action_target(action) && r->Ok_0.failed_reason is None
            }
        }),
        action == PrintAction::Retry && (status == PrintStatus::Failed || status == PrintStatus::Queued)
            ==> r == Ok::<PrintTransition, AppError>(PrintTransition { next: PrintStatus::Queued, failed_reason: None }),
        action == PrintAction::Retry && !(status == PrintStatus::Failed || status == PrintStatus::Queued)
            ==> r == Err::<PrintTransition, AppError>(state_changed_error()),
{
    if action == PrintAction::Cancel && status == PrintStatus::Queued && delivery_in_progress {
        return Err(AppError::conflict(
            "PRINTING_DELIVERY_IN_PROGRESS",
            "Print request is being submitted to CUPS; retry cancellation shortly",
        ));
    }
    match action {
        PrintAction::Retry => {
            if status == PrintStatus::Failed || status == PrintStatus::Queued {
                return Ok(PrintTransition { next: PrintStatus::Queued, failed_reason: None });
            }
        },
        PrintAction::Cancel => {
            if !(status == PrintStatus::Completed || status == PrintStatus::Cancelled || status
                == PrintStatus::Rejected) {
                return Ok(PrintTransition { next: PrintStatus::Cancelled, failed_reason: None });
            }
        },
        PrintAction::Reject => {
            if status == PrintStatus::Requested || status == PrintStatus::Queued {
                let reason = sanitize_reason(reason)?;
                return Ok(PrintTransition { next: PrintStatus::Rejected, failed_reason: Some(reason) });
            }
        },
    }
    Err(AppError::conflict("PRINTING_STATE_CHANGED", "Print request cannot perform this transition"))
}

/// Each operator action applies from its own states: retry puts a FAILED
/// or QUEUED request back in the queue; reject takes a REQUESTED or QUEUED
/// one; cancel any that is requested, queued, printing or failed. Every
/// other state refuses the action.
pub proof fn operator_actions_apply_from_their_states(status: PrintStatus)
    ensures
        action_allowed(PrintAction::Retry, status) <==> (status == PrintStatus::Failed || status
            == PrintStatus::Queued),
        action_target(PrintAction::Retry) == PrintStatus::Queued,
        action_allowed(PrintAction::Reject, status) <==> (status == PrintStatus::Requested || status
            == PrintStatus::Queued),
        action_target(PrintAction::Reject) == PrintStatus::Rejected,
        action_allowed(PrintAction::Cancel, status) <==> (status == PrintStatus::Requested || status
            == PrintStatus::Queued || status == PrintStatus::Printing || status == PrintStatus::Failed),
        action_target(PrintAction::Cancel) == PrintStatus::Cancelled,
{
}

/// A print request that is completed, cancelled or rejected refuses every
/// operator action.
pub proof fn final_requests_refuse_every_action(action: PrintAction, status: PrintStatus)
    requires
        status.is_final(),
    ensures
        !action_allowed(action, status),
{
}

/// Every accepted operator action leaves the request queued, cancelled or
/// rejected, never in a delivery state.
pub proof fn accepted_actions_reach_operator_states(action: PrintAction, status: PrintStatus)
    requires
        action_allowed(action, status),
    ensures
        action_target(action) == PrintStatus::Queued || action_target(action) == PrintStatus::Cancelled
            || action_target(action) == PrintStatus::Rejected,
{
}

/// The pause before the next delivery attempt: five seconds doubled per
/// earlier attempt (at most six times), capped at five minutes.
pub open spec fn delivery_delay_seconds(attempts: i32) -> int {
    let d: int = 5 * (doubling(backoff_exponent(attempts)) as int);
    if d > 300 {
        300
    } else {
        d
    }
}

pub fn delivery_retry_delay(attempts: i32) -> (d: i32)
    ensures
        d == delivery_delay_seconds(attempts),
{
    let e = exponent_of(attempts);
    let factor = doubling_of(e);
    let d: u64 = 5 * factor;
    if d > 300 {
        300
    } else {
        d as i32
    }
}

/// Delivery pauses never shrink as attempts accumulate, and stay between five
/// seconds and five minutes.
pub proof fn delivery_delay_is_monotonic_and_bounded(a: i32, b: i32)
    requires
        a <= b,
    ensures
        5 <= delivery_delay_seconds(a) <= delivery_delay_seconds(b) <= 300,
{
    lemma_backoff_exponent_monotonic(a, b);
    lemma_doubling_monotonic(backoff_exponent(a), backoff_exponent(b));
}

/// What the delivery runner does with a claimed request.
#[derive(Debug, Clone, Copy, PartialEq, Eq, Structural)]
pub enum DeliveryStep {
    /// Cancel the request's CUPS job.
    CancelJob,
    /// Submit the archived PDF to CUPS.
    Submit,
    /// Ask CUPS how the submitted job is doing.
    Monitor,
    /// Nothing to do.
    Skip,
}

pub fn delivery_step(cancellation_pending: bool, status: PrintStatus) -> (step: DeliveryStep)
    ensures
        step == if cancellation_pending {
            DeliveryStep::CancelJob
        } else if status == PrintStatus::Queued {
            DeliveryStep::Submit
        } else if status == PrintStatus::Printing {
            DeliveryStep::Monitor
        } else {
            DeliveryStep::Skip
        },
{
    if cancellation_pending {
        DeliveryStep::CancelJob
    } else if status == PrintStatus::Queued {
        DeliveryStep::Submit
    } else if status == PrintStatus::Printing {
        DeliveryStep::Monitor
    } else {
        DeliveryStep::Skip
    }
}

/// How a failed submission is recorded.
#[derive(Debug, Clone, Copy, PartialEq, Eq, Structural)]
pub struct DeliveryFailure {
    /// The request gives up and ends FAILED.
    pub terminal: bool,
    pub next: PrintStatus,
    /// The pause before the next attempt, when there is one.
    pub retry_delay_seconds: i32,
}

/// A failed submission ends the request after the third attempt; earlier
/// failures requeue it behind a growing pause.
pub fn delivery_failure(attempts: i32) -> (f: DeliveryFailure)
    ensures
        f.terminal == (attempts >= MAX_DELIVERY_ATTEMPTS),
        f.next == if attempts >= MAX_DELIVERY_ATTEMPTS {
            PrintStatus::Failed
        } else {
            PrintStatus::Queued
        },
        f.retry_delay_seconds == delivery_delay_seconds(attempts),
{
    let terminal = attempts >= MAX_DELIVERY_ATTEMPTS;
    DeliveryFailure {
        terminal,
        next: if terminal {
            PrintStatus::Failed
        } else {
            PrintStatus::Queued
        },
        retry_delay_seconds: delivery_retry_delay(attempts),
    }
}

/// What CUPS reports of a submitted job.
#[derive(Debug, Clone, Copy, PartialEq, Eq, Structural)]
pub enum CupsJobStatus {
    Pending,
    Completed,
    Unknown,
}

/// What the runner does after asking CUPS about a printing request.
#[derive(Debug, Clone, Copy, PartialEq, Eq, Structural)]
pub enum MonitorOutcome {
    /// Ask again later.
    Defer,
    /// Record the request as completed.
    Complete,
    /// The job vanished; record the request as failed.
    Fail,
}

pub const NANOS_PER_MINUTE: i128 = 60_000_000_000;

/// A job CUPS no longer knows counts as lost once thirty minutes have passed
/// since its submission; until then it is only temporarily unknown.
pub fn monitor_outcome(status: CupsJobStatus, submitted_at: Option<Timestamp>, now: Timestamp) -> (o: MonitorOutcome)
    requires
        in_calendar_range(now),
        submitted_at is Some ==> in_calendar_range(submitted_at->Some_0),
    ensures
        o == match status {
            CupsJobStatus::Pending => MonitorOutcome::Defer,
            CupsJobStatus::Completed => MonitorOutcome::Complete,
            CupsJobStatus::Unknown => if submitted_at is Some && now.unix_nanos - submitted_at->Some_0.unix_nanos
                >= UNKNOWN_JOB_GRACE_MINUTES * NANOS_PER_MINUTE {
                MonitorOutcome::Fail
            } else {
                MonitorOutcome::Defer
            },
        },
{
    match status {
        CupsJobStatus::Pending => MonitorOutcome::Defer,
        CupsJobStatus::Completed => MonitorOutcome::Complete,
        CupsJobStatus::Unknown => {
            let expired = match submitted_at {
                Some(submitted) => now.unix_nanos - submitted.unix_nanos >= 30 * NANOS_PER_MINUTE,
                None => false,
            };
            if expired {
                MonitorOutcome::Fail
            } else {
                MonitorOutcome::Defer
            }
        },
    }
}

pub open spec fn rate_limited_error() -> AppError {
    coded_error(ErrorKind::TooManyRequests, "PRINTING_RATE_LIMITED", "A team may print once every ten minutes")
}

pub open spec fn quota_exceeded_error() -> AppError {
    coded_error(ErrorKind::Conflict, "PRINTING_QUOTA_EXCEEDED", "A team may print at most 20 times per contest")
}

/// A team prints at most once per ten minutes and twenty times per contest.
pub fn check_print_quota(recent: bool, total: i64) -> (r: Result<(), AppError>)
    ensures
        r == if recent {
            Err::<(), AppError>(rate_limited_error())
        } else if total >= 20 {
            Err(quota_exceeded_error())
        } else {
            Ok(())
        },
{
    if recent {
        return Err(AppError::too_many_requests(
            "PRINTING_RATE_LIMITED",
            "A team may print once every ten minutes",
        ));
    }
    if total >= 20 {
        return Err(AppError::conflict(
            "PRINTING_QUOTA_EXCEEDED",
            "A team may print at most 20 times per contest",
        ));
    }
    Ok(())
}

pub open spec fn operator_required_error() -> AppError {
    coded_error(ErrorKind::Forbidden, "PRINTING_PERMISSION_REQUIRED", "Printing management permission is required")
}

/// Print operators are super administrators and holders of the printing
/// permission.
pub fn require_operator(actor: &AuthUser) -> (r: Result<(), AppError>)
    ensures
        r == if actor.super_admin() || actor.holds(PRINTING_MANAGE@) {
            Ok::<(), AppError>(())
        } else {
            Err(operator_required_error())
        },
{
    if actor.is_super_admin() || actor.has_permission(PRINTING_MANAGE) {
        Ok(())
    } else {
        Err(AppError::forbidden("PRINTING_PERMISSION_REQUIRED", "Printing management permission is required"))
    }
}

/// Only team accounts print and see their own print requests.
pub fn require_team_account(actor: &AuthUser, message: &'static str) -> (r: Result<(), AppError>)
    ensures
        r == if actor.user_type == UserType::Team {
            Ok::<(), AppError>(())
        } else {
            Err(coded_error(ErrorKind::Forbidden, "TEAM_ACCOUNT_REQUIRED", message))
        },
{
    if actor.user_type == UserType::Team {
        Ok(())
    } else {
        Err(AppError::forbidden("TEAM_ACCOUNT_REQUIRED", message))
    }
}

pub open spec fn print_not_found_error() -> AppError {
    coded_error(ErrorKind::NotFound, "PRINT_REQUEST_NOT_FOUND", "Print request was not found")
}

pub fn print_not_found() -> (e: AppError)
    ensures
        e == print_not_found_error(),
{
    AppError::not_found("PRINT_REQUEST_NOT_FOUND", "Print request was not found")
}

/// The filter of the print queue listing.
pub struct ListQuery {
    pub status: Option<String>,
}

pub open spec fn unsupported_status_error() -> AppError {
    validation_error("status", "contains an unsupported print status")
}

impl ListQuery {
    /// A status filter is trimmed, upper-cased and must name a print status.
    pub fn validate(self) -> (r: Result<Option<String>, AppError>)
        ensures
            match self.status {
                None => r == Ok::<Option<String>, AppError>(None),
                Some(s) => if print_status_named(seq_ascii_upper(trim(s@))) is Some {
                    r is Ok && r->Ok_0 is Some && r->Ok_0->Some_0@ == seq_ascii_upper(trim(s@))
                } else {
                    r == Err::<Option<String>, AppError>(unsupported_status_error())
                },
            },
    {
        match self.status {
            None => Ok(None),
            Some(s) => {
                let value = trimmed_upper(s.as_str());
                match PrintStatus::from_name(value.as_str()) {
                    Some(_) => Ok(Some(value)),
                    None => Err(AppError::validation("status", "contains an unsupported print status")),
                }
            },
        }
    }
}

/// The width of a character in the page estimate: a tab counts four columns.
pub open spec fn char_columns(c: char) -> nat {
    if c == '\t' {
        4
    } else {
        1
    }
}

/// The printed rows a line of `columns` columns takes: at least one, and one
/// more for every further hundred columns.
pub open spec fn rows_for(columns: nat) -> nat {
    if columns == 0 {
        1
    } else {
        ((columns + 99) / 100) as nat
    }
}

/// The rows taken by `s`, whose current line already holds `columns`
/// columns; every line break starts a new line.
pub open spec fn rows_from(s: Seq<char>, columns: nat) -> nat
    decreases s.len(),
{
    if s.len() == 0 {
        rows_for(columns)
    } else if s[0] == '\n' {
        rows_for(columns) + rows_from(s.drop_first(), 0)
    } else {
        rows_from(s.drop_first(), columns + char_columns(s[0]))
    }
}

/// The estimated A4 pages of a text: fifty rows per page, at least one page.
pub open spec fn estimated_pages(s: Seq<char>) -> nat {
    let rows = rows_from(s, 0);
    if rows == 0 {
        1
    } else {
        ((rows + 49) / 50) as nat
    }
}

pub proof fn lemma_rows_for_bound(columns: nat)
    ensures
        1 <= rows_for(columns) <= columns + 1,
{
}

/// The estimated pages of `content`.
pub fn estimate_pages(content: &str) -> (pages: usize)
    requires
        content@.len() <= usize::MAX / 8,
    ensures
        pages == estimated_pages(content@),
{
    let v = chars_of(content);
    let n = v.len();
    let mut total: usize = 0;
    let mut columns: usize = 0;
    let mut k: usize = 0;
    assert(v@.subrange(0, n as int) =~= v@);
    while k < n
        invariant
            k <= n == v.len(),
            v@ == content@,
            n <= usize::MAX / 8,
            total + columns <= 4 * k,
            rows_from(v@, 0) == total + rows_from(v@.subrange(k as int, n as int), columns as nat),
        decreases n - k,
    {
        let c = v[k];
        let ghost rest = v@.subrange(k as int, n as int);
        assert(rest.drop_first() =~= v@.subrange(k + 1, n as int));
        proof {
            lemma_rows_for_bound(columns as nat);
        }
        if c == '\n' {
            let rows: usize = if columns == 0 {
                1
            } else {
                (columns + 99) / 100
            };
            total = total + rows;
            columns = 0;
        } else {
            columns = columns + if c == '\t' {
                4
            } else {
                1
            };
        }
        k += 1;
    }
    assert(v@.subrange(n as int, n as int).len() == 0);
    proof {
        lemma_rows_for_bound(columns as nat);
    }
    let last: usize = if columns == 0 {
        1
    } else {
        (columns + 99) / 100
    };
    let rows = total + last;
    (rows + 49) / 50
}

/// Line endings normalised: CR LF and lone CR both become LF.
pub open spec fn normalize_newlines(s: Seq<char>) -> Seq<char>
    decreases s.len(),
{
    if s.len() == 0 {
        s
    } else if s[0] == '\r' && s.len() > 1 && s[1] == '\n' {
        seq!['\n'] + normalize_newlines(s.skip(2))
    } else if s[0] == '\r' {
        seq!['\n'] + normalize_newlines(s.drop_first())
    } else {
        seq![s[0]] + normalize_newlines(s.drop_first())
    }
}

/// The Unicode control characters (general category Cc), as
/// `char::is_control` recognises them.
pub open spec fn is_control(c: char) -> bool {
    (c as u32) <= 0x1F || (0x7F <= (c as u32) && (c as u32) <= 0x9F)
}

/// Control characters other than line feed and tab, which print requests
/// must not hold.
pub open spec fn unprintable(c: char) -> bool {
    is_control(c) && c != '\n' && c != '\t'
}

fn normalized_chars(s: &str) -> (r: Vec<char>)
    ensures
        r@ == normalize_newlines(s@),
{
    let v = chars_of(s);
    let n = v.len();
    let mut out: Vec<char> = Vec::new();
    let mut k: usize = 0;
    assert(v@.subrange(0, n as int) =~= v@);
    assert(out@ + v@ =~= v@);
    while k < n
        invariant
            k <= n == v.len(),
            v@ == s@,
            out@ + normalize_newlines(v@.subrange(k as int, n as int)) == normalize_newlines(v@),
        decreases n - k,
    {
        let ghost rest = v@.subrange(k as int, n as int);
        if v[k] == '\r' && k + 1 < n && v[k + 1] == '\n' {
            assert(rest.skip(2) =~= v@.subrange(k + 2, n as int));
            out.push('\n');
            assert(out@ + normalize_newlines(v@.subrange(k + 2, n as int)) =~= normalize_newlines(v@));
            k += 2;
        } else {
            assert(rest.drop_first() =~= v@.subrange(k + 1, n as int));
            let c = if v[k] == '\r' {
                '\n'
            } else {
                v[k]
            };
            out.push(c);
            assert(out@ + normalize_newlines(v@.subrange(k + 1, n as int)) =~= normalize_newlines(v@));
            k += 1;
        }
    }
    assert(v@.subrange(n as int, n as int) =~= Seq::<char>::empty());
    assert(out@ =~= normalize_newlines(v@));
    out
}

pub proof fn lemma_normalize_len(s: Seq<char>)
    ensures
        normalize_newlines(s).len() <= s.len(),
    decreases s.len(),
{
    if s.len() > 0 {
        if s[0] == '\r' && s.len() > 1 && s[1] == '\n' {
            lemma_normalize_len(s.skip(2));
        } else {
            lemma_normalize_len(s.drop_first());
        }
    }
}

/// The text of a print request.
pub struct CreateRequest {
    pub content: String,
}

/// An accepted print text with its estimated pages and its content hash.
pub struct ValidatedContent {
    pub content: String,
    pub page_count: i32,
    pub hash: String,
}

pub open spec fn content_size_error() -> AppError {
    validation_error("content", "must contain 1 byte to 20 KiB")
}

pub open spec fn content_control_error() -> AppError {
    validation_error("content", "contains unsupported control characters")
}

pub open spec fn content_pages_error() -> AppError {
    validation_error("content", "must fit within 5 estimated A4 pages")
}

impl CreateRequest {
    /// Normalises line endings, then requires non-blank text of at most
    /// 20 KiB of UTF-8, no control characters but line feed and tab, and at
    /// most five estimated pages; the hash is the hexadecimal SHA-256 digest
    /// of the normalised text.
    pub fn validate(self) -> (r: Result<ValidatedContent, AppError>)
        ensures
            ({
                let n = normalize_newlines(self.content@);
                if trim(n).len() == 0 || vstd::utf8::encode_utf8(n).len() > MAX_CONTENT_BYTES {
                    r == Err::<ValidatedContent, AppError>(content_size_error())
                } else if exists|i: int| 0 <= i < n.len() && unprintable(#[trigger] n[i]) {
                    r == Err::<ValidatedContent, AppError>(content_control_error())
                } else if estimated_pages(n) > MAX_PAGES {
                    r == Err::<ValidatedContent, AppError>(content_pages_error())
                } else {
                    r is Ok && r->Ok_0.content@ == n && r->Ok_0.page_count == estimated_pages(n)
                        && r->Ok_0.hash@ == hex_lower(sha256_digest(vstd::utf8::encode_utf8(n)))
                }
            }),
    {
        let v = normalized_chars(self.content.as_str());
        let content = string_of_range(&v, 0, v.len());
        assert(v@.subrange(0, v.len() as int) =~= v@);
        let (i, j) = trim_bounds(&v);
        let bytes = content.as_str().as_bytes().len();
        if i == j || bytes > MAX_CONTENT_BYTES {
            return Err(AppError::validation("content", "must contain 1 byte to 20 KiB"));
        }
        proof {
            vstd::utf8::encode_utf8_first_scalar(v@);
            lemma_utf8_len_bound(v@);
        }
        let mut k: usize = 0;
        while k < v.len()
            invariant
                k <= v.len(),
                v@ == normalize_newlines(self.content@),
                content@ == v@,
                trim(v@).len() > 0,
                vstd::utf8::encode_utf8(v@).len() <= MAX_CONTENT_BYTES,
                v@.len() <= MAX_CONTENT_BYTES,
                forall|m: int| 0 <= m < k ==> !unprintable(#[trigger] v@[m]),
            decreases v.len() - k,
        {
            let c = v[k];
            let code = c as u32;
            if (code <= 0x1F || (0x7F <= code && code <= 0x9F)) && c != '\n' && c != '\t' {
                assert(unprintable(v@[k as int]));
                return Err(AppError::validation("content", "contains unsupported control characters"));
            }
            k += 1;
        }
        let pages = estimate_pages(content.as_str());
        if pages > MAX_PAGES {
            return Err(AppError::validation("content", "must fit within 5 estimated A4 pages"));
        }
        let hash = sha256_hex(content.as_str());
        Ok(ValidatedContent { content, page_count: pages as i32, hash })
    }
}

/// Every character takes at least one UTF-8 byte.
pub proof fn lemma_utf8_len_bound(s: Seq<char>)
    ensures
        s.len() <= vstd::utf8::encode_utf8(s).len(),
    decreases s.len(),
{
    if s.len() > 0 {
        vstd::utf8::encode_utf8_first_scalar(s);
        lemma_utf8_len_bound(s.drop_first());
    }
}

/// A gateway failure flattened for storage: no control characters,
/// single-spaced, at most 255 characters. Control characters, line breaks
/// among them, become spaces, runs of white space become single spaces, and
/// the text is cut to 255 characters.
#[derive(Debug, Clone, PartialEq, Eq)]
pub struct SanitizedError(String);

/// `c`, or a space where `c` is a control character.
pub open spec fn flatten_control(c: char) -> char {
    if is_control(c) {
        ' '
    } else {
        c
    }
}

pub open spec fn flatten_controls(s: Seq<char>) -> Seq<char> {
    s.map_values(|c: char| flatten_control(c))
}

/// The stored form of a gateway failure message.
pub open spec fn sanitized_text(raw: Seq<char>) -> Seq<char> {
    take_chars(join_words(words(flatten_controls(raw))), 255)
}

impl View for SanitizedError {
    type V = Seq<char>;

    closed spec fn view(&self) -> Seq<char> {
        self.0@
    }
}

impl SanitizedError {
    pub fn sanitize(raw: &str) -> (e: SanitizedError)
        ensures
            e@ == sanitized_text(raw@),
    {
        let chars = chars_of(raw);
        let mut flat: Vec<char> = Vec::new();
        let mut k: usize = 0;
        while k < chars.len()
            invariant
                k <= chars.len(),
                flat@ == flatten_controls(chars@.take(k as int)),
            decreases chars.len() - k,
        {
            let c = chars[k];
            let code = c as u32;
            let f = if code <= 0x1F || (0x7F <= code && code <= 0x9F) {
                ' '
            } else {
                c
            };
            flat.push(f);
            assert(flatten_controls(chars@.take(k + 1)) =~= flatten_controls(chars@.take(k as int)).push(f));
            k += 1;
        }
        assert(chars@.take(chars.len() as int) =~= chars@);
        let ws = words_of(&flat);
        let joined = join_with_spaces(&ws);
        let end = if joined.len() > 255 {
            255
        } else {
            joined.len()
        };
        let out = string_of_range(&joined, 0, end);
        assert(out@ =~= take_chars(joined@, 255));
        SanitizedError(out)
    }

    pub fn as_str(&self) -> (s: &str)
        ensures
            s@ == self@,
    {
        self.0.as_str()
    }
}

/// Joining words keeps their characters and adds only single spaces: with
/// non-empty words free of white space, the text neither starts nor ends with
/// a space and holds no two spaces in a row.
pub proof fn lemma_join_words_chars(ws: Seq<Seq<char>>, p: spec_fn(char) -> bool)
    requires
        forall|k: int, i: int| 0 <= k < ws.len() && 0 <= i < ws[k].len() ==> p(#[trigger] ws[k][i]),
        forall|k: int, i: int| 0 <= k < ws.len() && 0 <= i < ws[k].len() ==> !is_white_space(#[trigger] ws[k][i]),
        forall|k: int| 0 <= k < ws.len() ==> #[trigger] ws[k].len() > 0,
    ensures
        forall|i: int| 0 <= i < join_words(ws).len() ==> #[trigger] join_words(ws)[i] == ' ' || (p(
            join_words(ws)[i],
        ) && !is_white_space(join_words(ws)[i])),
        join_words(ws).len() > 0 ==> join_words(ws)[0] != ' ' && join_words(ws).last() != ' ',
        forall|i: int| 0 <= i < join_words(ws).len() - 1 ==> !(#[trigger] join_words(ws)[i] == ' ' && join_words(ws)[i + 1] == ' '),
    decreases ws.len(),
{
    let j = join_words(ws);
    if ws.len() > 1 {
        let init = ws.drop_last();
        assert forall|k: int, i: int| 0 <= k < init.len() && 0 <= i < init[k].len() implies p(#[trigger] init[k][i]) && !is_white_space(init[k][i]) by {
            assert(init[k] == ws[k]);
        }
        assert forall|k: int| 0 <= k < init.len() implies #[trigger] init[k].len() > 0 by {
            assert(init[k] == ws[k]);
        }
        lemma_join_words_chars(init, p);
        let left = join_words(init);
        let last = ws.last();
        assert(last == ws[ws.len() - 1]);
        assert(last.len() > 0);
        assert(j == left + seq![' '] + last);
        assert(left.len() > 0) by {
            assert(init[0] == ws[0]);
            if init.len() == 1 {
                assert(left == init[0]);
            }
        }
        assert(!is_white_space(last[0]));
        assert(!is_white_space(last[last.len() - 1]));
        assert forall|i: int| 0 <= i < j.len() implies #[trigger] j[i] == ' ' || (p(j[i]) && !is_white_space(j[i])) by {
            if i < left.len() {
                assert(j[i] == left[i]);
            } else if i == left.len() {
            } else {
                assert(j[i] == last[i - left.len() - 1]);
            }
        }
        assert(j[0] == left[0]);
        assert(j.last() == last[last.len() - 1]);
        assert forall|i: int| 0 <= i < j.len() - 1 implies !(#[trigger] j[i] == ' ' && j[i + 1] == ' ') by {
            if i < left.len() - 1 {
                assert(j[i] == left[i] && j[i + 1] == left[i + 1]);
            } else if i == left.len() - 1 {
                assert(j[i] == left.last());
            } else if i == left.len() {
                assert(j[i + 1] == last[0]);
            } else {
                assert(j[i] == last[i - left.len() - 1]);
            }
        }
    } else if ws.len() == 1 {
        assert(j == ws[0]);
        assert forall|i: int| 0 <= i < j.len() implies #[trigger] j[i] == ' ' || (p(j[i]) && !is_white_space(j[i])) by {
            assert(j[i] == ws[0][i]);
        }
        assert(!is_white_space(ws[0][0]));
        assert(!is_white_space(ws[0][ws[0].len() - 1]));
        assert forall|i: int| 0 <= i < j.len() - 1 implies !(#[trigger] j[i] == ' ' && j[i + 1] == ' ') by {
            assert(j[i] == ws[0][i]);
        }
    } else {
        assert(j.len() == 0);
    }
}

/// A stored gateway failure holds no control characters, is single-spaced
/// (no leading space, never two spaces in a row, its only white space being
/// spaces) and is at most 255 characters long.
pub proof fn sanitized_text_is_flat_and_bounded(raw: Seq<char>)
    ensures
        sanitized_text(raw).len() <= 255,
        forall|i: int| 0 <= i < sanitized_text(raw).len() ==> !is_control(#[trigger] sanitized_text(raw)[i]),
        forall|i: int| 0 <= i < sanitized_text(raw).len() ==> #[trigger] sanitized_text(raw)[i] == ' ' || !is_white_space(
            sanitized_text(raw)[i],
        ),
        sanitized_text(raw).len() > 0 ==> sanitized_text(raw)[0] != ' ',
        forall|i: int|
            0 <= i < sanitized_text(raw).len() - 1 ==> !(#[trigger] sanitized_text(raw)[i] == ' '
                && sanitized_text(raw)[i + 1] == ' '),
{
    let flat = flatten_controls(raw);
    let p = |c: char| !is_control(c);
    assert forall|i: int| 0 <= i < flat.len() && !is_white_space(#[trigger] flat[i]) implies p(flat[i]) by {
        assert(flat[i] == flatten_control(raw[i]));
    }
    crate::text::lemma_words_have_no_white_space(flat, Seq::empty());
    crate::text::lemma_words_keep(flat, Seq::empty(), p);
    lemma_join_words_chars(words(flat), p);
    let j = join_words(words(flat));
    let t = sanitized_text(raw);
    assert forall|i: int| 0 <= i < t.len() implies t[i] == j[i] by {}
    assert forall|i: int| 0 <= i < t.len() implies !is_control(#[trigger] t[i]) by {
        assert(t[i] == j[i]);
        assert(j[i] == ' ' || p(j[i]));
    }
    assert forall|i: int| 0 <= i < t.len() - 1 implies !(#[trigger] t[i] == ' ' && t[i + 1] == ' ') by {
        assert(t[i] == j[i] && t[i + 1] == j[i + 1]);
    }
}

/// The command-line CUPS client of one printer.
pub struct CommandLineCupsGateway {
    printer: String,
    timeout: core::time::Duration,
}

impl CommandLineCupsGateway {
    pub fn new(printer: String, timeout: core::time::Duration) -> (g: CommandLineCupsGateway)
        ensures
            g.printer_name() == printer@,
            g.timeout() == timeout,
    {
        CommandLineCupsGateway { printer, timeout }
    }

    pub closed spec fn printer_name(&self) -> Seq<char> {
        self.printer@
    }

    pub closed spec fn timeout(&self) -> core::time::Duration {
        self.timeout
    }

    pub fn printer(&self) -> (p: &str)
        ensures
            p@ == self.printer_name(),
    {
        self.printer.as_str()
    }

    pub fn command_timeout(&self) -> (t: core::time::Duration)
        ensures
            t == self.timeout(),
    {
        self.timeout
    }
}

pub open spec fn is_ascii_alphanumeric(c: char) -> bool {
    crate::text::is_ascii_digit(c) || crate::text::is_ascii_lower(c) || crate::text::is_ascii_upper(c)
}

/// Characters that may stand at either end of a CUPS job identifier.
pub open spec fn is_job_char(c: char) -> bool {
    is_ascii_alphanumeric(c) || c == '-' || c == '_'
}

/// A word of `lp` output that names a job of the printer: the printer name,
/// a hyphen, then only ASCII digits.
pub open spec fn is_job_token(t: Seq<char>, prefix: Seq<char>) -> bool {
    &&& prefix.len() <= t.len()
    &&& t.take(prefix.len() as int) == prefix
    &&& forall|i: int| prefix.len() <= i < t.len() ==> crate::text::is_ascii_digit(#[trigger] t[i])
}

/// The first job token among `ws`.
pub open spec fn first_job_token(ws: Seq<Seq<char>>, prefix: Seq<char>) -> Option<Seq<char>>
    decreases ws.len(),
{
    if ws.len() == 0 {
        None
    } else if is_job_token(ws[0], prefix) {
        Some(ws[0])
    } else {
        first_job_token(ws.drop_first(), prefix)
    }
}

pub open spec fn strip_job_start(s: Seq<char>) -> Seq<char>
    decreases s.len(),
{
    if s.len() > 0 && !is_job_char(s[0]) {
        strip_job_start(s.drop_first())
    } else {
        s
    }
}

pub open spec fn strip_job_end(s: Seq<char>) -> Seq<char>
    decreases s.len(),
{
    if s.len() > 0 && !is_job_char(s.last()) {
        strip_job_end(s.drop_last())
    } else {
        s
    }
}

/// The job identifier in `lp` output: the first word naming a job of the
/// printer, without surrounding characters that cannot belong to an
/// identifier.
pub open spec fn parsed_job_id(output: Seq<char>, printer: Seq<char>) -> Option<Seq<char>> {
    match first_job_token(words(output), printer.push('-')) {
        Some(t) => Some(strip_job_end(strip_job_start(t))),
        None => None,
    }
}

fn is_job_char_exec(c: char) -> (b: bool)
    ensures
        b == is_job_char(c),
{
    ('0' <= c && c <= '9') || ('a' <= c && c <= 'z') || ('A' <= c && c <= 'Z') || c == '-' || c == '_'
}

fn is_job_token_exec(t: &Vec<char>, prefix: &Vec<char>) -> (b: bool)
    ensures
        b == is_job_token(t@, prefix@),
{
    if t.len() < prefix.len() {
        return false;
    }
    let mut k: usize = 0;
    while k < prefix.len()
        invariant
            prefix.len() <= t.len(),
            k <= prefix.len(),
            forall|m: int| 0 <= m < k ==> t@[m] == prefix@[m],
        decreases prefix.len() - k,
    {
        if t[k] != prefix[k] {
            assert(t@.take(prefix.len() as int)[k as int] != prefix@[k as int]);
            return false;
        }
        k += 1;
    }
    assert(t@.take(prefix.len() as int) =~= prefix@);
    let mut j: usize = prefix.len();
    while j < t.len()
        invariant
            prefix.len() <= j <= t.len(),
            t@.take(prefix.len() as int) == prefix@,
            forall|m: int| prefix.len() <= m < j ==> crate::text::is_ascii_digit(#[trigger] t@[m]),
        decreases t.len() - j,
    {
        if !('0' <= t[j] && t[j] <= '9') {
            return false;
        }
        j += 1;
    }
    true
}

/// Reads the job identifier from the output of `lp`.
pub fn parse_job_id(output: &str, printer: &str) -> (r: Option<String>)
    ensures
        match parsed_job_id(output@, printer@) {
            Some(id) => r is Some && r->Some_0@ == id,
            None => r is None,
        },
{
    let mut prefix = chars_of(printer);
    prefix.push('-');
    let text = chars_of(output);
    let ws = words_of(&text);
    let ghost all = nested_view(ws@);
    let mut i: usize = 0;
    assert(all.skip(0) =~= all);
    while i < ws.len()
        invariant
            i <= ws.len(),
            prefix@ == printer@.push('-'),
            all == nested_view(ws@),
            all == words(output@),
            first_job_token(all, prefix@) == first_job_token(all.skip(i as int), prefix@),
        decreases ws.len() - i,
    {
        assert(all.skip(i as int).drop_first() =~= all.skip(i + 1));
        assert(all.skip(i as int)[0] == ws@[i as int]@);
        if is_job_token_exec(&ws[i], &prefix) {
            let t = &ws[i];
            let n = t.len();
            let mut a: usize = 0;
            assert(t@.subrange(0, n as int) =~= t@);
            while a < n && !is_job_char_exec(t[a])
                invariant
                    a <= n == t.len(),
                    strip_job_start(t@) == strip_job_start(t@.subrange(a as int, n as int)),
                decreases n - a,
            {
                assert(t@.subrange(a as int, n as int).drop_first() =~= t@.subrange(a + 1, n as int));
                a += 1;
            }
            let mut b: usize = n;
            while b > a && !is_job_char_exec(t[b - 1])
                invariant
                    a <= b <= n == t.len(),
                    strip_job_end(t@.subrange(a as int, n as int)) == strip_job_end(t@.subrange(a as int, b as int)),
                decreases b,
            {
                assert(t@.subrange(a as int, b as int).drop_last() =~= t@.subrange(a as int, b - 1));
                b -= 1;
            }
            return Some(string_of_range(t, a, b));
        }
        i += 1;
    }
    assert(all.skip(ws.len() as int) =~= Seq::<Seq<char>>::empty());
    None
}

/// Whether some line of `ls` starts with the word `job`.
pub open spec fn some_line_headed_by(ls: Seq<Seq<char>>, job: Seq<char>) -> bool {
    exists|k: int| 0 <= k < ls.len() && words(#[trigger] ls[k]).len() > 0 && words(ls[k])[0] == job
}

/// The text `String::from_utf8_lossy` makes of `bytes`: a function of the
/// bytes alone.
pub uninterp spec fn utf8_lossy_text(bytes: Seq<u8>) -> Seq<char>;

/// `String::from_utf8_lossy`: its text is named `utf8_lossy_text`; valid
/// UTF-8 is decoded unchanged, while how invalid sequences become U+FFFD is
/// not restated.
#[verifier::external_body]
fn utf8_lossy(bytes: &[u8]) -> (s: String)
    ensures
        s@ == utf8_lossy_text(bytes@),
        vstd::utf8::valid_utf8(bytes@) ==> s@ == vstd::utf8::decode_utf8(bytes@),
{
    String::from_utf8_lossy(bytes).into_owned()
}

/// Whether `lpstat` output lists the job: some line of its lossily decoded
/// text has the job identifier as its first word.
pub fn contains_job(output: &[u8], job_id: &str) -> (b: bool)
    ensures
        b == some_line_headed_by(lines(utf8_lossy_text(output@)), job_id@),
        vstd::utf8::valid_utf8(output@) ==> b == some_line_headed_by(
            lines(vstd::utf8::decode_utf8(output@)),
            job_id@,
        ),
{
    let text = utf8_lossy(output);
    let chars = chars_of(text.as_str());
    let job = chars_of(job_id);
    let ls = lines_of(&chars);
    let ghost all = nested_view(ls@);
    let mut k: usize = 0;
    while k < ls.len()
        invariant
            k <= ls.len(),
            all == nested_view(ls@),
            all == lines(text@),
            text@ == utf8_lossy_text(output@),
            vstd::utf8::valid_utf8(output@) ==> text@ == vstd::utf8::decode_utf8(output@),
            job@ == job_id@,
            forall|m: int| 0 <= m < k ==> !(words(#[trigger] all[m]).len() > 0 && words(all[m])[0] == job_id@),
        decreases ls.len() - k,
    {
        let ws = words_of(&ls[k]);
        assert(all[k as int] == ls@[k as int]@);
        if ws.len() > 0 {
            assert(nested_view(ws@)[0] == ws@[0]@);
            if chars_eq(&ws[0], &job) {
                assert(words(all[k as int]).len() > 0 && words(all[k as int])[0] == job_id@);
                return true;
            }
        }
        k += 1;
    }
    false
}

/// An operator's rejection of a print request.
#[derive(Debug)]
pub struct RejectRequest {
    pub reason: String,
}

impl RejectRequest {
    /// The stored rejection reason; a blank one is refused.
    pub fn sanitized_reason(self) -> (r: Result<String, AppError>)
        ensures
            sanitized_reason(self.reason@).len() == 0 ==> r == Err::<String, AppError>(empty_reason_error()),
            sanitized_reason(self.reason@).len() > 0 ==> (r matches Ok(s) && s@ == sanitized_reason(
                self.reason@,
            )),
    {
        sanitize_reason(Some(self.reason))
    }
}

pub open spec fn pdf_not_ready_error() -> AppError {
    coded_error(ErrorKind::Conflict, "PRINTING_PDF_NOT_READY", "Print PDF is not ready")
}

/// Whether reading a print PDF needs the reader to own the request: print
/// operators read every PDF, everyone else only their team's.
pub fn pdf_ownership_required(actor: &AuthUser) -> (b: bool)
    ensures
        b == !(actor.super_admin() || actor.holds(PRINTING_MANAGE@)),
{
    !(actor.is_super_admin() || actor.has_permission(PRINTING_MANAGE))
}

/// Where a print PDF is stored, once it has been rendered: its bucket and
/// object key.
pub fn pdf_location(bucket: Option<String>, key: Option<String>) -> (r: Result<(String, String), AppError>)
    ensures
        match (bucket, key) {
            (Some(b), Some(k)) => r matches Ok((rb, rk)) && rb@ == b@ && rk@ == k@,
            _ => r == Err::<(String, String), AppError>(pdf_not_ready_error()),
        },
{
    match (bucket, key) {
        (Some(b), Some(k)) => Ok((b, k)),
        _ => Err(AppError::conflict("PRINTING_PDF_NOT_READY", "Print PDF is not ready")),
    }
}

pub open spec fn storage_unavailable_error() -> AppError {
    coded_error(ErrorKind::ServiceUnavailable, "OBJECT_STORAGE_UNAVAILABLE", "Object storage is not configured")
}

/// The configured object storage, which printing cannot work without.
pub fn storage<T>(handle: Option<&T>) -> (r: Result<&T, AppError>)
    ensures
        r == match handle {
            Some(h) => Ok::<&T, AppError>(h),
            None => Err(storage_unavailable_error()),
        },
{
    match handle {
        Some(h) => Ok(h),
        None => Err(AppError::service_unavailable("OBJECT_STORAGE_UNAVAILABLE", "Object storage is not configured")),
    }
}

} // verus!
