use vstd::prelude::*;

use crate::backoff::{
    backoff_exponent, doubling, doubling_of, exponent_of, lemma_backoff_exponent_monotonic,
    lemma_doubling_monotonic,
};
use crate::digest::hex_lower;
use crate::printing::take_chars;
use crate::text::{append_str, chars_of, decimal_text, push_decimal, str_eq, string_of_range};

verus! {

/// The largest `std::time::Duration`, in nanoseconds.
pub const DURATION_MAX_NANOS: u128 = 18_446_744_073_709_551_615_999_999_999;

/// Processing attempts of one judge result before it is dead-lettered.
pub const MAX_RESULT_PROCESSING_RETRIES: i32 = 20;

/// The longest error text kept on an outbox row.
pub const MAX_OUTBOX_ERROR_CHARS: usize = 1000;

pub const TASKS_QUEUE: &'static str = "judge.tasks";

pub const RETRY_QUEUE: &'static str = "judge.retry";

pub const DEAD_QUEUE: &'static str = "judge.dead";

pub const RESULTS_QUEUE: &'static str = "judge.results";

pub const HEARTBEATS_QUEUE: &'static str = "judge.heartbeats";

pub const TASKS_EXCHANGE: &'static str = "judge.tasks.exchange";

pub const RETRY_EXCHANGE: &'static str = "judge.retry.exchange";

pub const DEAD_EXCHANGE: &'static str = "judge.dead.exchange";

pub const TASK_ROUTING_KEY: &'static str = "task";

pub const RETRY_ROUTING_KEY: &'static str = "retry";

pub const DEAD_ROUTING_KEY: &'static str = "dead";

pub const RESULT_ROUTING_KEY: &'static str = "result";

pub const RETRY_TTL_MILLISECONDS: i32 = 10_000;

pub const HEARTBEAT_TTL_MILLISECONDS: i32 = 60_000;

pub const HEARTBEAT_MAX_LENGTH: i32 = 10_000;

/// The settings of the submission outbox dispatcher.
#[derive(Clone, Copy)]
pub struct SubmissionOutboxDispatcherConfig {
    pub poll_interval: core::time::Duration,
    pub lease: core::time::Duration,
    pub retry_base: core::time::Duration,
    pub batch_size: i64,
    pub max_attempts: i32,
}

/// The wait before publishing a judge task again after `attempts` tries:
/// the base doubled once per earlier try, at most six times, and never
/// beyond the largest duration.
pub open spec fn retry_delay_nanos(base_nanos: nat, attempts: i32) -> nat {
    let d = base_nanos * doubling(backoff_exponent(attempts));
    if d > DURATION_MAX_NANOS {
        DURATION_MAX_NANOS as nat
    } else {
        d
    }
}

/// The retry delay, in nanoseconds, of a base delay of `base_nanos`.
pub fn retry_delay(base_nanos: u128, attempts: i32) -> (d: u128)
    requires
        base_nanos <= DURATION_MAX_NANOS,
    ensures
        d == retry_delay_nanos(base_nanos as nat, attempts),
{
    let factor = doubling_of(exponent_of(attempts));
    proof {
        lemma_doubling_monotonic(backoff_exponent(attempts), 6);
        reveal_with_fuel(doubling, 7);
        assert(base_nanos * factor <= DURATION_MAX_NANOS * 64) by (nonlinear_arith)
            requires
                base_nanos <= DURATION_MAX_NANOS,
                factor <= 64,
        ;
    }
    let d: u128 = base_nanos * (factor as u128);
    if d > DURATION_MAX_NANOS {
        DURATION_MAX_NANOS
    } else {
        d
    }
}

/// Retry delays never shrink as attempts accumulate, start at the base, and
/// stop growing at 64 times the base.
pub proof fn retry_delay_grows_and_is_capped(base_nanos: nat, a: i32, b: i32)
    requires
        base_nanos <= DURATION_MAX_NANOS,
        a <= b,
    ensures
        retry_delay_nanos(base_nanos, a) <= retry_delay_nanos(base_nanos, b),
        retry_delay_nanos(base_nanos, b) <= 64 * base_nanos,
        a <= 1 ==> retry_delay_nanos(base_nanos, a) == base_nanos,
        b >= 7 ==> retry_delay_nanos(base_nanos, b) == retry_delay_nanos(base_nanos, 7),
{
    lemma_backoff_exponent_monotonic(a, b);
    lemma_doubling_monotonic(backoff_exponent(a), backoff_exponent(b));
    lemma_doubling_monotonic(backoff_exponent(b), 6);
    reveal_with_fuel(doubling, 7);
    let da = doubling(backoff_exponent(a));
    let db = doubling(backoff_exponent(b));
    assert(base_nanos * da <= base_nanos * db) by (nonlinear_arith)
        requires
            da <= db,
    ;
    assert(base_nanos * db <= base_nanos * 64) by (nonlinear_arith)
        requires
            db <= 64,
    ;
    if a <= 1 {
        assert(doubling(backoff_exponent(a)) == 1);
        assert(base_nanos * 1 == base_nanos);
    }
}

/// What happens to an outbox row whose publish failed.
pub struct PublishFailurePlan {
    /// Milliseconds until the row may be published again.
    pub delay_milliseconds: i64,
    /// The error text kept on the row.
    pub last_error: String,
    /// Whether the submission gives up with a system error.
    pub terminal: bool,
}

/// Plans the handling of a failed publish: the row waits out the retry
/// delay (in whole milliseconds, at most `i64::MAX`), keeps the first 1000
/// characters of the error, and ends the submission once `max_attempts`
/// tries are spent.
pub fn publish_failure_plan(
    retry_base_nanos: u128,
    attempts: i32,
    max_attempts: i32,
    message: &str,
) -> (p: PublishFailurePlan)
    requires
        retry_base_nanos <= DURATION_MAX_NANOS,
    ensures
        p.delay_milliseconds == if retry_delay_nanos(retry_base_nanos as nat, attempts) / 1_000_000
            > i64::MAX {
            i64::MAX as int
        } else {
            (retry_delay_nanos(retry_base_nanos as nat, attempts) / 1_000_000) as int
        },
        p.last_error@ == take_chars(message@, MAX_OUTBOX_ERROR_CHARS as nat),
        p.terminal == (attempts >= max_attempts),
{
    let delay = retry_delay(retry_base_nanos, attempts);
    let millis: u128 = delay / 1_000_000;
    let delay_milliseconds: i64 = if millis > (i64::MAX as u128) {
        i64::MAX
    } else {
        millis as i64
    };
    let chars = chars_of(message);
    let end: usize = if chars.len() <= MAX_OUTBOX_ERROR_CHARS {
        chars.len()
    } else {
        MAX_OUTBOX_ERROR_CHARS
    };
    let last_error = string_of_range(&chars, 0, end);
    assert(chars@.subrange(0, end as int) =~= take_chars(message@, MAX_OUTBOX_ERROR_CHARS as nat));
    PublishFailurePlan { delay_milliseconds, last_error, terminal: attempts >= max_attempts }
}

/// The lease of a claimed row in whole seconds, at most `i32::MAX`.
pub fn lease_seconds(secs: u64) -> (s: i32)
    ensures
        s == if secs > i32::MAX { i32::MAX as int } else { secs as int },
{
    if secs > (i32::MAX as u64) {
        i32::MAX
    } else {
        secs as i32
    }
}

/// The big-endian bytes of a 128-bit value.
pub open spec fn be_bytes(v: u128) -> Seq<u8> {
    Seq::new(16, |k: int| ((v >> ((8 * (15 - k)) as u128)) & 0xff) as u8)
}

/// The hyphenated lower-case text of a UUID: 8-4-4-4-12 hexadecimal digits.
pub open spec fn uuid_text(v: u128) -> Seq<char> {
    let h = hex_lower(be_bytes(v));
    h.subrange(0, 8) + seq!['-'] + h.subrange(8, 12) + seq!['-'] + h.subrange(12, 16) + seq!['-']
        + h.subrange(16, 20) + seq!['-'] + h.subrange(20, 32)
}

/// `uuid::Uuid::from_u128(v).to_string()`: the value's big-endian bytes as
/// hyphenated lower-case hexadecimal, which the crate's `Display` writes.
#[verifier::external_body]
fn uuid_string(v: u128) -> (s: String)
    ensures
        s@ == uuid_text(v),
{
    uuid::Uuid::from_u128(v).to_string()
}

/// The value of a UUID's text as `uuid::Uuid::parse_str` reads it, if it
/// reads one.
pub uninterp spec fn uuid_parsed(text: Seq<char>) -> Option<u128>;

/// `uuid::Uuid::parse_str(text)`, as a 128-bit value; what it accepts is
/// named, not stated.
#[verifier::external_body]
fn parse_uuid(text: &str) -> (r: Option<u128>)
    ensures
        r == uuid_parsed(text@),
{
    uuid::Uuid::parse_str(text).ok().map(|u| u.as_u128())
}

/// Whether a delivery's `message_id` property contradicts the message id in
/// its payload; an absent property is no contradiction.
pub fn message_id_mismatch(property_id: Option<&str>, payload_message_id: u128) -> (b: bool)
    ensures
        b == match property_id {
            Some(p) => p@ != uuid_text(payload_message_id),
            None => false,
        },
{
    match property_id {
        Some(p) => {
            let text = uuid_string(payload_message_id);
            !str_eq(p, text.as_str())
        },
        None => false,
    }
}

/// The text of the JSON string member `key` of the object that `data` holds,
/// as `serde_json` reads it, if there is one.
pub uninterp spec fn json_member_text(data: Seq<u8>, key: Seq<char>) -> Option<Seq<char>>;

/// The JSON member `key` of the object that `data` holds, as an `i64`, if
/// `serde_json` reads one.
pub uninterp spec fn json_member_i64(data: Seq<u8>, key: Seq<char>) -> Option<i64>;

/// `serde_json::from_slice::<serde_json::Value>` and then
/// `value.get(key).and_then(Value::as_str)`.
#[verifier::external_body]
fn json_text_member(data: &[u8], key: &str) -> (r: Option<String>)
    ensures
        match r {
            Some(s) => json_member_text(data@, key@) == Some(s@),
            None => json_member_text(data@, key@) is None,
        },
{
    serde_json::from_slice::<serde_json::Value>(data).ok()?.get(key)?.as_str().map(|s| s.to_owned())
}

/// `serde_json::from_slice::<serde_json::Value>` and then
/// `value.get(key).and_then(Value::as_i64)`.
#[verifier::external_body]
fn json_i64_member(data: &[u8], key: &str) -> (r: Option<i64>)
    ensures
        r == json_member_i64(data@, key@),
{
    serde_json::from_slice::<serde_json::Value>(data).ok()?.get(key)?.as_i64()
}

/// The judgement and submission a dead letter belongs to: a dead judge task
/// and a dead judge result both carry a `judgementId` UUID and a positive
/// `submissionId`.
pub open spec fn dead_letter_ids(data: Seq<u8>) -> Option<(u128, i64)> {
    match json_member_text(data, "judgementId"@) {
        None => None,
        Some(t) => match uuid_parsed(t) {
            None => None,
            Some(j) => match json_member_i64(data, "submissionId"@) {
                None => None,
                Some(s) => if s <= 0 {
                    None
                } else {
                    Some((j, s))
                },
            },
        },
    }
}

pub fn parse_dead_letter(data: &[u8]) -> (r: Option<(u128, i64)>)
    ensures
        r == dead_letter_ids(data@),
{
    let text = match json_text_member(data, "judgementId") {
        Some(t) => t,
        None => {
            return None;
        },
    };
    let judgement_id = match parse_uuid(text.as_str()) {
        Some(j) => j,
        None => {
            return None;
        },
    };
    let submission_id = match json_i64_member(data, "submissionId") {
        Some(s) => s,
        None => {
            return None;
        },
    };
    if submission_id <= 0 {
        return None;
    }
    Some((judgement_id, submission_id))
}

/// How applying a judge result ended.
#[derive(Debug, Clone, Copy, PartialEq, Eq, Structural)]
pub enum ApplyResultOutcome {
    Applied,
    Duplicate,
    Superseded,
}

/// Why a judge result was not applied.
#[derive(Debug)]
pub enum ApplyResultError {
    Invalid(String),
    Conflict(String),
    Database(String),
}

impl ApplyResultError {
    /// Invalid and conflicting results never succeed on a retry.
    pub fn is_permanent(&self) -> (b: bool)
        ensures
            b == !(self is Database),
    {
        match self {
            ApplyResultError::Invalid(_) => true,
            ApplyResultError::Conflict(_) => true,
            ApplyResultError::Database(_) => false,
        }
    }
}

/// The stored judgement and submission a judge result is applied to.
pub struct ResultContext {
    pub submission_id: i64,
    pub result_message_id: Option<u128>,
    pub completed: bool,
    pub superseded: bool,
    pub status: String,
    pub submission_scope: String,
    pub contest_id: Option<i64>,
    pub team_id: Option<i64>,
}

/// What the result gate lets happen.
#[derive(Debug, Clone, Copy, PartialEq, Eq, Structural)]
pub enum ResultGate {
    /// The result is new and the submission waits for it.
    Apply,
    /// Nothing changes; the delivery ends with this outcome.
    Settled(ApplyResultOutcome),
}

pub open spec fn unknown_judgement_text(judgement_id: u128) -> Seq<char> {
    "unknown judgement "@ + uuid_text(judgement_id)
}

pub open spec fn foreign_judgement_text(stored: i64, claimed: i64) -> Seq<char> {
    "judgement belongs to submission "@ + decimal_text(stored as int) + ", not "@ + decimal_text(
        claimed as int,
    )
}

pub open spec fn different_result_text(judgement_id: u128) -> Seq<char> {
    "judgement "@ + uuid_text(judgement_id) + " already has a different final result"@
}

pub open spec fn unknown_status_text(submission_id: i64, status: Seq<char>) -> Seq<char> {
    "submission "@ + decimal_text(submission_id as int) + " has unknown status "@ + status
}

pub open spec fn ended_status_text(submission_id: i64, status: Seq<char>) -> Seq<char> {
    "submission "@ + decimal_text(submission_id as int) + " already ended as "@ + status
}

/// The conflict text of an error, if it is a conflict.
pub open spec fn conflict_text(e: ApplyResultError) -> Option<Seq<char>> {
    match e {
        ApplyResultError::Conflict(s) => Some(s@),
        _ => None,
    }
}

/// Which judge results may be applied. `status_terminal` tells whether the
/// submission's stored status is a final one, or `None` for a status the
/// platform does not know.
pub open spec fn result_gate_spec(
    context: Option<ResultContext>,
    judgement_id: u128,
    submission_id: i64,
    message_id: u128,
    status_terminal: Option<bool>,
) -> Result<ResultGate, Seq<char>> {
    match context {
        None => Err(unknown_judgement_text(judgement_id)),
        Some(c) => if c.submission_id != submission_id {
            Err(foreign_judgement_text(c.submission_id, submission_id))
        } else if c.superseded {
            Ok(ResultGate::Settled(ApplyResultOutcome::Superseded))
        } else if c.completed || c.result_message_id is Some {
            if c.result_message_id == Some(message_id) {
                Ok(ResultGate::Settled(ApplyResultOutcome::Duplicate))
            } else {
                Err(different_result_text(judgement_id))
            }
        } else {
            match status_terminal {
                None => Err(unknown_status_text(c.submission_id, c.status@)),
                Some(true) => Err(ended_status_text(c.submission_id, c.status@)),
                Some(false) => Ok(ResultGate::Apply),
            }
        },
    }
}

fn text_of(parts: &str) -> (s: String)
    ensures
        s@ == parts@,
{
    let mut s = String::new();
    append_str(&mut s, parts);
    s
}

/// Decides whether a judge result may be applied to the stored judgement:
/// an unknown judgement, a judgement of another submission, a second
/// different result and a submission that already ended are conflicts; a
/// superseded judgement and a repeated delivery of the applied result change
/// nothing.
pub fn result_gate(
    context: Option<&ResultContext>,
    judgement_id: u128,
    submission_id: i64,
    message_id: u128,
    status_terminal: Option<bool>,
) -> (r: Result<ResultGate, ApplyResultError>)
    ensures
        match result_gate_spec(
            match context {
                Some(c) => Some(*c),
                None => None,
            },
            judgement_id,
            submission_id,
            message_id,
            status_terminal,
        ) {
            Ok(g) => r == Ok::<ResultGate, ApplyResultError>(g),
            Err(t) => r matches Err(e) && conflict_text(e) == Some(t),
        },
{
    match context {
        None => {
            let mut s = text_of("unknown judgement ");
            let id = uuid_string(judgement_id);
            append_str(&mut s, id.as_str());
            proof {
                reveal_strlit("unknown judgement ");
            }
            Err(ApplyResultError::Conflict(s))
        },
        Some(c) => {
            if c.submission_id != submission_id {
                let mut s = text_of("judgement belongs to submission ");
                push_decimal(&mut s, c.submission_id);
                append_str(&mut s, ", not ");
                push_decimal(&mut s, submission_id);
                return Err(ApplyResultError::Conflict(s));
            }
            if c.superseded {
                return Ok(ResultGate::Settled(ApplyResultOutcome::Superseded));
            }
            if c.completed || c.result_message_id.is_some() {
                if c.result_message_id == Some(message_id) {
                    return Ok(ResultGate::Settled(ApplyResultOutcome::Duplicate));
                }
                let mut s = text_of("judgement ");
                let id = uuid_string(judgement_id);
                append_str(&mut s, id.as_str());
                append_str(&mut s, " already has a different final result");
                return Err(ApplyResultError::Conflict(s));
            }
            match status_terminal {
                None => {
                    let mut s = text_of("submission ");
                    push_decimal(&mut s, c.submission_id);
                    append_str(&mut s, " has unknown status ");
                    append_str(&mut s, c.status.as_str());
                    Err(ApplyResultError::Conflict(s))
                },
                Some(true) => {
                    let mut s = text_of("submission ");
                    push_decimal(&mut s, c.submission_id);
                    append_str(&mut s, " already ended as ");
                    append_str(&mut s, c.status.as_str());
                    Err(ApplyResultError::Conflict(s))
                },
                Some(false) => Ok(ResultGate::Apply),
            }
        },
    }
}

/// A result applies at most once: once a judgement holds a result, the same
/// message is a duplicate and any other message is refused.
pub proof fn applied_results_are_never_overwritten(
    context: ResultContext,
    judgement_id: u128,
    message_id: u128,
    status_terminal: Option<bool>,
)
    requires
        !context.superseded,
        context.result_message_id is Some,
    ensures
        result_gate_spec(Some(context), judgement_id, context.submission_id, message_id, status_terminal)
            !is Ok || result_gate_spec(
            Some(context),
            judgement_id,
            context.submission_id,
            message_id,
            status_terminal,
        ) == Ok::<ResultGate, Seq<char>>(ResultGate::Settled(ApplyResultOutcome::Duplicate)),
        (result_gate_spec(Some(context), judgement_id, context.submission_id, message_id, status_terminal)
            is Ok) <==> context.result_message_id == Some(message_id),
{
}

/// The score of a practice judgement: full marks (100 000 milli-points) when
/// accepted, nothing otherwise.
pub fn practice_score(accepted: bool) -> (s: i32)
    ensures
        s == if accepted { 100_000int } else { 0int },
{
    if accepted {
        100_000
    } else {
        0
    }
}

/// Where a result's effects go: a contest's team, or a practising user.
#[derive(Debug, Clone, Copy, PartialEq, Eq, Structural)]
pub enum ResultScope {
    Contest { contest_id: i64, team_id: i64 },
    Practice,
}

/// The scope of a submission from its stored scope name; a contest
/// submission must name its contest and team.
pub open spec fn result_scope_spec(scope: Seq<char>, contest_id: Option<i64>, team_id: Option<i64>) -> Result<ResultScope, Seq<char>> {
    if scope == "CONTEST"@ {
        match contest_id {
            None => Err("contest submission has no contest"@),
            Some(c) => match team_id {
                None => Err("contest submission has no team"@),
                Some(t) => Ok(ResultScope::Contest { contest_id: c, team_id: t }),
            },
        }
    } else if scope == "PRACTICE"@ {
        Ok(ResultScope::Practice)
    } else {
        Err("unknown submission scope "@ + scope)
    }
}

pub fn result_scope(scope: &str, contest_id: Option<i64>, team_id: Option<i64>) -> (r: Result<ResultScope, ApplyResultError>)
    ensures
        match result_scope_spec(scope@, contest_id, team_id) {
            Ok(s) => r == Ok::<ResultScope, ApplyResultError>(s),
            Err(t) => r matches Err(e) && conflict_text(e) == Some(t),
        },
{
    if str_eq(scope, "CONTEST") {
        match contest_id {
            None => Err(ApplyResultError::Conflict(text_of("contest submission has no contest"))),
            Some(c) => match team_id {
                None => Err(ApplyResultError::Conflict(text_of("contest submission has no team"))),
                Some(t) => Ok(ResultScope::Contest { contest_id: c, team_id: t }),
            },
        }
    } else if str_eq(scope, "PRACTICE") {
        Ok(ResultScope::Practice)
    } else {
        let mut s = text_of("unknown submission scope ");
        append_str(&mut s, scope);
        Err(ApplyResultError::Conflict(s))
    }
}

/// Milliseconds since the epoch of an instant given in nanoseconds,
/// truncated toward zero.
pub fn unix_millis(unix_nanos: i128) -> (m: i64)
    requires
        i64::MIN * 1_000_000 <= unix_nanos <= i64::MAX * 1_000_000,
    ensures
        m as int == if unix_nanos >= 0 {
            unix_nanos as int / 1_000_000
        } else {
            -((-unix_nanos) as int / 1_000_000)
        },
{
    if unix_nanos >= 0 {
        (unix_nanos / 1_000_000) as i64
    } else {
        let magnitude: i128 = (0i128 - unix_nanos) / 1_000_000;
        (0i128 - magnitude) as i64
    }
}

/// The `x-retry-count` header of a delivery, as the broker typed it.
#[derive(Debug, Clone, Copy, PartialEq, Eq, Structural)]
pub enum RetryHeader {
    Absent,
    ShortInt(i16),
    LongInt(i32),
    LongLongInt(i64),
    Other,
}

/// The processing attempts a delivery has already had.
pub fn result_retry_count(header: RetryHeader) -> (n: i32)
    ensures
        n == match header {
            RetryHeader::ShortInt(v) => v as int,
            RetryHeader::LongInt(v) => v as int,
            RetryHeader::LongLongInt(v) => if i32::MIN <= v <= i32::MAX { v as int } else { i32::MAX as int },
            _ => 0,
        },
{
    match header {
        RetryHeader::ShortInt(v) => v as i32,
        RetryHeader::LongInt(v) => v,
        RetryHeader::LongLongInt(v) => if v >= (i32::MIN as i64) && v <= (i32::MAX as i64) {
            v as i32
        } else {
            i32::MAX
        },
        _ => 0,
    }
}

/// What becomes of a result delivery.
#[derive(Debug, Clone, Copy, PartialEq, Eq, Structural)]
pub enum ResultDeliveryAction {
    /// Acknowledge: the result was handled.
    Acknowledge,
    /// Reject without requeueing; the broker dead-letters it.
    RejectPermanently,
    /// Republish to the retry queue with this attempt count, then acknowledge.
    Defer(i32),
}

/// How the processing of a result delivery went.
#[derive(Debug, Clone, Copy, PartialEq, Eq, Structural)]
pub enum ResultProcessing {
    /// The payload is not a judge result.
    Malformed,
    /// The `message_id` property contradicts the payload.
    MismatchedId,
    /// The result was applied, or changed nothing.
    Done,
    /// Applying it failed for good.
    PermanentFailure,
    /// Applying it failed for now.
    TransientFailure,
}

/// Decides what becomes of a result delivery: malformed, contradictory and
/// permanently failing results are dead-lettered, as are transient failures
/// once `MAX_RESULT_PROCESSING_RETRIES` attempts are spent; other transient
/// failures are deferred with one more attempt counted.
pub open spec fn delivery_action(processing: ResultProcessing, retry_count: i32) -> ResultDeliveryAction {
    match processing {
        ResultProcessing::Done => ResultDeliveryAction::Acknowledge,
        ResultProcessing::TransientFailure => if retry_count >= MAX_RESULT_PROCESSING_RETRIES {
            ResultDeliveryAction::RejectPermanently
        } else {
            ResultDeliveryAction::Defer((retry_count + 1) as i32)
        },
        _ => ResultDeliveryAction::RejectPermanently,
    }
}

pub fn result_delivery_action(processing: ResultProcessing, retry_count: i32) -> (a: ResultDeliveryAction)
    ensures
        a == delivery_action(processing, retry_count),
        a == match processing {
            ResultProcessing::Done => ResultDeliveryAction::Acknowledge,
            ResultProcessing::TransientFailure => if retry_count >= MAX_RESULT_PROCESSING_RETRIES {
                ResultDeliveryAction::RejectPermanently
            } else {
                ResultDeliveryAction::Defer((retry_count + 1) as i32)
            },
            _ => ResultDeliveryAction::RejectPermanently,
        },
{
    match processing {
        ResultProcessing::Done => ResultDeliveryAction::Acknowledge,
        ResultProcessing::TransientFailure => if retry_count >= MAX_RESULT_PROCESSING_RETRIES {
            ResultDeliveryAction::RejectPermanently
        } else {
            ResultDeliveryAction::Defer(retry_count + 1)
        },
        _ => ResultDeliveryAction::RejectPermanently,
    }
}

/// A result is deferred at most `MAX_RESULT_PROCESSING_RETRIES` times: each
/// deferral counts one more attempt, and a delivery that has used them all
/// is never deferred again.
pub proof fn result_retries_are_bounded(retry_count: i32)
    ensures
        delivery_action(ResultProcessing::TransientFailure, retry_count) matches ResultDeliveryAction::Defer(n)
            ==> n == retry_count + 1 && n <= MAX_RESULT_PROCESSING_RETRIES,
        retry_count >= MAX_RESULT_PROCESSING_RETRIES ==> delivery_action(
            ResultProcessing::TransientFailure,
            retry_count,
        ) == ResultDeliveryAction::RejectPermanently,
{
}

/// Why a dead letter could not be recovered.
#[derive(Debug)]
pub enum DeadLetterError {
    Permanent(String),
    Database(String),
}

impl DeadLetterError {
    pub fn is_permanent(&self) -> (b: bool)
        ensures
            b == (self is Permanent),
    {
        match self {
            DeadLetterError::Permanent(_) => true,
            DeadLetterError::Database(_) => false,
        }
    }
}

/// The stored judgement and submission a dead letter names.
pub struct DeadLetterContext {
    pub submission_id: i64,
    pub completed: bool,
    pub superseded: bool,
    pub submission_scope: String,
    pub contest_id: Option<i64>,
    pub team_id: Option<i64>,
}

/// What recovering a dead letter does.
#[derive(Debug, Clone, Copy, PartialEq, Eq, Structural)]
pub enum DeadLetterStep {
    /// Nothing is stuck: the judgement has a result, was superseded, or the
    /// submission already ended.
    NothingStuck,
    /// Mark the judgement and submission as a system error.
    MarkSystemError,
    /// Mark them as a system error and tell the contest team.
    MarkSystemErrorAndNotify { contest_id: i64, team_id: i64 },
}

pub open spec fn dead_letter_text(e: DeadLetterError) -> Option<Seq<char>> {
    match e {
        DeadLetterError::Permanent(s) => Some(s@),
        _ => None,
    }
}

/// How a dead letter is recovered. `status_terminal` tells whether the
/// submission's stored status is known and final.
pub open spec fn dead_letter_spec(
    context: Option<DeadLetterContext>,
    judgement_id: u128,
    submission_id: i64,
    status_terminal: bool,
) -> Result<DeadLetterStep, Seq<char>> {
    match context {
        None => Err(unknown_judgement_text(judgement_id)),
        Some(c) => if c.submission_id != submission_id {
            Err(foreign_judgement_text(c.submission_id, submission_id))
        } else if c.completed || c.superseded || status_terminal {
            Ok(DeadLetterStep::NothingStuck)
        } else if c.submission_scope@ == "CONTEST"@ {
            match c.contest_id {
                None => Err("contest submission has no contest"@),
                Some(contest) => match c.team_id {
                    None => Err("contest submission has no team"@),
                    Some(team) => Ok(DeadLetterStep::MarkSystemErrorAndNotify { contest_id: contest, team_id: team }),
                },
            }
        } else {
            Ok(DeadLetterStep::MarkSystemError)
        },
    }
}

/// Decides how a dead-lettered judge task or result is recovered.
pub fn plan_dead_letter_recovery(
    context: Option<&DeadLetterContext>,
    judgement_id: u128,
    submission_id: i64,
    status_terminal: bool,
) -> (r: Result<DeadLetterStep, DeadLetterError>)
    ensures
        match dead_letter_spec(
            match context {
                Some(c) => Some(*c),
                None => None,
            },
            judgement_id,
            submission_id,
            status_terminal,
        ) {
            Ok(s) => r == Ok::<DeadLetterStep, DeadLetterError>(s),
            Err(t) => r matches Err(e) && dead_letter_text(e) == Some(t),
        },
{
    match context {
        None => {
            let mut s = text_of("unknown judgement ");
            let id = uuid_string(judgement_id);
            append_str(&mut s, id.as_str());
            Err(DeadLetterError::Permanent(s))
        },
        Some(c) => {
            if c.submission_id != submission_id {
                let mut s = text_of("judgement belongs to submission ");
                push_decimal(&mut s, c.submission_id);
                append_str(&mut s, ", not ");
                push_decimal(&mut s, submission_id);
                return Err(DeadLetterError::Permanent(s));
            }
            if c.completed || c.superseded || status_terminal {
                return Ok(DeadLetterStep::NothingStuck);
            }
            if str_eq(c.submission_scope.as_str(), "CONTEST") {
                match c.contest_id {
                    None => Err(DeadLetterError::Permanent(text_of("contest submission has no contest"))),
                    Some(contest) => match c.team_id {
                        None => Err(DeadLetterError::Permanent(text_of("contest submission has no team"))),
                        Some(team) => Ok(DeadLetterStep::MarkSystemErrorAndNotify { contest_id: contest, team_id: team }),
                    },
                }
            } else {
                Ok(DeadLetterStep::MarkSystemError)
            }
        },
    }
}

/// What becomes of a dead-letter delivery: unreadable letters and
/// recoveries that succeeded or can never succeed are acknowledged; a
/// transient failure puts the letter back on the queue.
pub fn dead_letter_acknowledged(parsed: bool, recovery_failed_transiently: bool) -> (ack: bool)
    ensures
        ack == (!parsed || !recovery_failed_transiently),
{
    !parsed || !recovery_failed_transiently
}

/// The reading of a heartbeat count that must fit a database `smallint`.
pub fn smallint(value: i64) -> (r: Option<i16>)
    ensures
        r == if i16::MIN <= value <= i16::MAX { Some(value as i16) } else { None::<i16> },
{
    if value >= (i16::MIN as i64) && value <= (i16::MAX as i64) {
        Some(value as i16)
    } else {
        None
    }
}

/// Queue depths reported by the broker probe.
pub struct RabbitJudgeProbe {
    pub queued_tasks: u32,
    pub queued_results: u32,
    pub dead_tasks: u32,
}

/// A queue argument value as the broker takes it.
#[derive(Debug, Clone, Copy, PartialEq, Eq)]
pub enum QueueArgument {
    Text(&'static str),
    Int(i32),
}

/// One argument of a queue declaration.
#[derive(Debug, Clone, Copy, PartialEq, Eq)]
pub struct QueueOption {
    pub key: &'static str,
    pub value: QueueArgument,
}

/// How an exchange routes its messages.
#[derive(Debug, Clone, Copy, PartialEq, Eq, Structural)]
pub enum ExchangeKind {
    Direct,
    Fanout,
    Topic,
    Headers,
}

/// An exchange to declare: its name, its kind, and whether it survives a
/// broker restart.
#[derive(Debug, Clone, Copy, PartialEq, Eq)]
pub struct ExchangeDeclaration {
    pub name: &'static str,
    pub kind: ExchangeKind,
    pub durable: bool,
}

/// A queue to declare: its name, whether it survives a broker restart, and
/// its arguments.
#[derive(Debug)]
pub struct QueueDeclaration {
    pub name: &'static str,
    pub durable: bool,
    pub arguments: Vec<QueueOption>,
}

/// A queue bound to a direct exchange under a routing key.
#[derive(Debug, Clone, Copy, PartialEq, Eq)]
pub struct QueueBinding {
    pub queue: &'static str,
    pub exchange: &'static str,
    pub routing_key: &'static str,
}

/// The broker objects of judge dispatch, declared in this order: durable
/// direct exchanges, durable queues, then bindings.
#[derive(Debug)]
pub struct JudgeTopology {
    pub exchanges: Vec<ExchangeDeclaration>,
    pub queues: Vec<QueueDeclaration>,
    pub bindings: Vec<QueueBinding>,
}

/// A durable direct exchange named `name`.
pub open spec fn durable_direct(name: &'static str) -> ExchangeDeclaration {
    ExchangeDeclaration { name, kind: ExchangeKind::Direct, durable: true }
}

pub open spec fn dead_letter_to(exchange: &'static str, routing_key: &'static str) -> Seq<QueueOption> {
    seq![
        QueueOption { key: "x-dead-letter-exchange", value: QueueArgument::Text(exchange) },
        QueueOption { key: "x-dead-letter-routing-key", value: QueueArgument::Text(routing_key) },
    ]
}

/// The judge dispatch topology. Tasks that a worker rejects dead-letter to
/// the retry queue, which after its time to live sends them back to the
/// tasks exchange; results the API rejects dead-letter to the dead queue;
/// heartbeats expire and are capped in number, and never dead-letter.
/// `results_exchange`, `heartbeats_exchange` and `heartbeat_routing_key`
/// are the names the shared judge contract gives.
pub fn judge_topology(
    results_exchange: &'static str,
    heartbeats_exchange: &'static str,
    heartbeat_routing_key: &'static str,
) -> (t: JudgeTopology)
    ensures
        t.exchanges@ == seq![
            durable_direct(TASKS_EXCHANGE),
            durable_direct(RETRY_EXCHANGE),
            durable_direct(DEAD_EXCHANGE),
            durable_direct(results_exchange),
            durable_direct(heartbeats_exchange),
        ],
        t.queues.len() == 5,
        forall|i: int| 0 <= i < 5 ==> (#[trigger] t.queues@[i]).durable,
        t.queues@[0].name == TASKS_QUEUE && t.queues@[0].arguments@ == dead_letter_to(
            RETRY_EXCHANGE,
            RETRY_ROUTING_KEY,
        ),
        t.queues@[1].name == HEARTBEATS_QUEUE && t.queues@[1].arguments@ == seq![
            QueueOption { key: "x-message-ttl", value: QueueArgument::Int(HEARTBEAT_TTL_MILLISECONDS) },
            QueueOption { key: "x-max-length", value: QueueArgument::Int(HEARTBEAT_MAX_LENGTH) },
            QueueOption { key: "x-overflow", value: QueueArgument::Text("drop-head") },
        ],
        t.queues@[2].name == RETRY_QUEUE && t.queues@[2].arguments@ == seq![
            QueueOption { key: "x-message-ttl", value: QueueArgument::Int(RETRY_TTL_MILLISECONDS) },
        ] + dead_letter_to(TASKS_EXCHANGE, TASK_ROUTING_KEY),
        t.queues@[3].name == DEAD_QUEUE && t.queues@[3].arguments@ == Seq::<QueueOption>::empty(),
        t.queues@[4].name == RESULTS_QUEUE && t.queues@[4].arguments@ == dead_letter_to(
            DEAD_EXCHANGE,
            DEAD_ROUTING_KEY,
        ),
        t.bindings@ == seq![
            QueueBinding { queue: TASKS_QUEUE, exchange: TASKS_EXCHANGE, routing_key: TASK_ROUTING_KEY },
            QueueBinding { queue: RETRY_QUEUE, exchange: RETRY_EXCHANGE, routing_key: RETRY_ROUTING_KEY },
            QueueBinding { queue: DEAD_QUEUE, exchange: DEAD_EXCHANGE, routing_key: DEAD_ROUTING_KEY },
            QueueBinding { queue: RESULTS_QUEUE, exchange: results_exchange, routing_key: RESULT_ROUTING_KEY },
            QueueBinding { queue: HEARTBEATS_QUEUE, exchange: heartbeats_exchange, routing_key: heartbeat_routing_key },
        ],
{
    let exchanges = vec![
        ExchangeDeclaration { name: TASKS_EXCHANGE, kind: ExchangeKind::Direct, durable: true },
        ExchangeDeclaration { name: RETRY_EXCHANGE, kind: ExchangeKind::Direct, durable: true },
        ExchangeDeclaration { name: DEAD_EXCHANGE, kind: ExchangeKind::Direct, durable: true },
        ExchangeDeclaration { name: results_exchange, kind: ExchangeKind::Direct, durable: true },
        ExchangeDeclaration { name: heartbeats_exchange, kind: ExchangeKind::Direct, durable: true },
    ];
    let tasks = QueueDeclaration {
        name: TASKS_QUEUE,
        durable: true,
        arguments: vec![
            QueueOption { key: "x-dead-letter-exchange", value: QueueArgument::Text(RETRY_EXCHANGE) },
            QueueOption { key: "x-dead-letter-routing-key", value: QueueArgument::Text(RETRY_ROUTING_KEY) },
        ],
    };
    let heartbeats = QueueDeclaration {
        name: HEARTBEATS_QUEUE,
        durable: true,
        arguments: vec![
            QueueOption { key: "x-message-ttl", value: QueueArgument::Int(HEARTBEAT_TTL_MILLISECONDS) },
            QueueOption { key: "x-max-length", value: QueueArgument::Int(HEARTBEAT_MAX_LENGTH) },
            QueueOption { key: "x-overflow", value: QueueArgument::Text("drop-head") },
        ],
    };
    let retry = QueueDeclaration {
        name: RETRY_QUEUE,
        durable: true,
        arguments: vec![
            QueueOption { key: "x-message-ttl", value: QueueArgument::Int(RETRY_TTL_MILLISECONDS) },
            QueueOption { key: "x-dead-letter-exchange", value: QueueArgument::Text(TASKS_EXCHANGE) },
            QueueOption { key: "x-dead-letter-routing-key", value: QueueArgument::Text(TASK_ROUTING_KEY) },
        ],
    };
    let dead = QueueDeclaration { name: DEAD_QUEUE, durable: true, arguments: Vec::new() };
    let results = QueueDeclaration {
        name: RESULTS_QUEUE,
        durable: true,
        arguments: vec![
            QueueOption { key: "x-dead-letter-exchange", value: QueueArgument::Text(DEAD_EXCHANGE) },
            QueueOption { key: "x-dead-letter-routing-key", value: QueueArgument::Text(DEAD_ROUTING_KEY) },
        ],
    };
    let bindings = vec![
        QueueBinding { queue: TASKS_QUEUE, exchange: TASKS_EXCHANGE, routing_key: TASK_ROUTING_KEY },
        QueueBinding { queue: RETRY_QUEUE, exchange: RETRY_EXCHANGE, routing_key: RETRY_ROUTING_KEY },
        QueueBinding { queue: DEAD_QUEUE, exchange: DEAD_EXCHANGE, routing_key: DEAD_ROUTING_KEY },
        QueueBinding { queue: RESULTS_QUEUE, exchange: results_exchange, routing_key: RESULT_ROUTING_KEY },
        QueueBinding { queue: HEARTBEATS_QUEUE, exchange: heartbeats_exchange, routing_key: heartbeat_routing_key },
    ];
    let t = JudgeTopology { exchanges, queues: vec![tasks, heartbeats, retry, dead, results], bindings };
    assert(t.queues@[2].arguments@ =~= seq![
        QueueOption { key: "x-message-ttl", value: QueueArgument::Int(RETRY_TTL_MILLISECONDS) },
    ] + dead_letter_to(TASKS_EXCHANGE, TASK_ROUTING_KEY));
    t
}

/// The practice progress a judged practice submission records: its score
/// out of 100 and the problem's training status.
pub fn practice_progress(accepted: bool) -> (r: (i32, &'static str))
    ensures
        r == if accepted { (100i32, "SOLVED") } else { (0i32, "IN_PROGRESS") },
{
    if accepted {
        (100, "SOLVED")
    } else {
        (0, "IN_PROGRESS")
    }
}

/// A superseded judgement never takes a result, whatever it carries.
pub proof fn superseded_judgements_cannot_apply_a_result(
    context: ResultContext,
    judgement_id: u128,
    message_id: u128,
    status_terminal: Option<bool>,
)
    requires
        context.superseded,
    ensures
        result_gate_spec(Some(context), judgement_id, context.submission_id, message_id, status_terminal)
            == Ok::<ResultGate, Seq<char>>(ResultGate::Settled(ApplyResultOutcome::Superseded)),
{
}

/// Recovering a dead letter leaves a judgement alone once it has a result,
/// was superseded, or its submission already ended.
pub proof fn settled_dead_letters_change_nothing(
    context: DeadLetterContext,
    judgement_id: u128,
    status_terminal: bool,
)
    requires
        context.completed || context.superseded || status_terminal,
    ensures
        dead_letter_spec(Some(context), judgement_id, context.submission_id, status_terminal)
            == Ok::<DeadLetterStep, Seq<char>>(DeadLetterStep::NothingStuck),
{
}

/// How the handling of a worker heartbeat delivery went.
#[derive(Debug, Clone, Copy, PartialEq, Eq, Structural)]
pub enum HeartbeatProcessing {
    /// The payload is not a heartbeat.
    Malformed,
    /// The heartbeat breaks the heartbeat contract.
    Invalid,
    /// The `message_id` property contradicts the payload.
    MismatchedId,
    /// The heartbeat was recorded.
    Recorded,
    /// Recording it failed for now.
    StoreFailed,
}

/// What becomes of a heartbeat delivery.
#[derive(Debug, Clone, Copy, PartialEq, Eq, Structural)]
pub enum HeartbeatDeliveryAction {
    Acknowledge,
    /// Reject without requeueing; heartbeats never dead-letter.
    Reject,
    /// Put it back on the queue.
    Requeue,
}

/// Bad heartbeats are rejected for good, recorded ones acknowledged, and
/// ones the store could not take are put back.
pub fn heartbeat_delivery_action(processing: HeartbeatProcessing) -> (a: HeartbeatDeliveryAction)
    ensures
        a == match processing {
            HeartbeatProcessing::Recorded => HeartbeatDeliveryAction::Acknowledge,
            HeartbeatProcessing::StoreFailed => HeartbeatDeliveryAction::Requeue,
            _ => HeartbeatDeliveryAction::Reject,
        },
{
    match processing {
        HeartbeatProcessing::Recorded => HeartbeatDeliveryAction::Acknowledge,
        HeartbeatProcessing::StoreFailed => HeartbeatDeliveryAction::Requeue,
        _ => HeartbeatDeliveryAction::Reject,
    }
}

/// A judge task counts as published only when the broker acknowledged it
/// and routed it to a queue.
pub fn task_published(acknowledged: bool, returned: bool) -> (b: bool)
    ensures
        b == (acknowledged && !returned),
{
    acknowledged && !returned
}

/// Recovering a stuck submission marks it as a system error (telling the
/// contest team when it is a contest submission), and recovering it again
/// afterwards, once its judgement is completed, changes nothing.
pub proof fn dead_letter_recovery_is_idempotent(
    context: DeadLetterContext,
    judgement_id: u128,
    status_terminal: bool,
)
    requires
        !context.completed,
        !context.superseded,
        !status_terminal,
    ensures
        context.submission_scope@ == "CONTEST"@ && context.contest_id is Some && context.team_id is Some
            ==> dead_letter_spec(Some(context), judgement_id, context.submission_id, status_terminal)
            == Ok::<DeadLetterStep, Seq<char>>(
            DeadLetterStep::MarkSystemErrorAndNotify {
                contest_id: context.contest_id.unwrap(),
                team_id: context.team_id.unwrap(),
            },
        ),
        context.submission_scope@ != "CONTEST"@ ==> dead_letter_spec(
            Some(context),
            judgement_id,
            context.submission_id,
            status_terminal,
        ) == Ok::<DeadLetterStep, Seq<char>>(DeadLetterStep::MarkSystemError),
        forall|terminal_after: bool|
            dead_letter_spec(
                Some(DeadLetterContext { completed: true, ..context }),
                judgement_id,
                context.submission_id,
                terminal_after,
            ) == Ok::<DeadLetterStep, Seq<char>>(DeadLetterStep::NothingStuck),
{
}

} // verus!
