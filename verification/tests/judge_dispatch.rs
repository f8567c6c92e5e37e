use project_balloon_api::judge_dispatch::ExchangeKind;
use project_balloon_api::judge_dispatch::{HeartbeatDeliveryAction, HeartbeatProcessing, heartbeat_delivery_action, task_published};
use project_balloon_api::judge_dispatch::{QueueArgument, judge_topology};
use project_balloon_api::judge_dispatch::practice_progress;
use std::time::Duration;

use project_balloon_api::judge_dispatch::{
    ApplyResultError, ApplyResultOutcome, DEAD_EXCHANGE, DEAD_QUEUE, DEAD_ROUTING_KEY,
    DeadLetterContext, DeadLetterError, DeadLetterStep, HEARTBEATS_QUEUE, RESULTS_QUEUE,
    RETRY_EXCHANGE, RETRY_QUEUE, RETRY_ROUTING_KEY, ResultContext, ResultDeliveryAction,
    ResultGate, ResultProcessing, ResultScope, RetryHeader, TASKS_EXCHANGE, TASKS_QUEUE,
    TASK_ROUTING_KEY, dead_letter_acknowledged, lease_seconds, message_id_mismatch,
    parse_dead_letter, plan_dead_letter_recovery, practice_score, publish_failure_plan,
    result_delivery_action, result_gate, result_retry_count, result_scope, retry_delay,
    smallint, unix_millis,
};
use uuid::Uuid;

fn delay(base: Duration, attempts: i32) -> Duration {
    let nanos = retry_delay(base.as_nanos(), attempts);
    Duration::new((nanos / 1_000_000_000) as u64, (nanos % 1_000_000_000) as u32)
}

#[test]
fn retry_delay_is_exponential_and_capped() {
    let base = Duration::from_millis(500);
    assert_eq!(delay(base, 1), Duration::from_millis(500));
    assert_eq!(delay(base, 4), Duration::from_secs(4));
    assert_eq!(delay(base, 99), Duration::from_secs(32));
}

#[test]
fn retry_delay_saturates_at_the_largest_duration() {
    assert_eq!(delay(Duration::MAX, 5), Duration::MAX);
    assert_eq!(delay(Duration::from_millis(500), 0), Duration::from_millis(500));
    assert_eq!(delay(Duration::from_millis(500), -3), Duration::from_millis(500));
}

#[test]
fn publish_failures_keep_a_bounded_error_and_end_at_the_limit() {
    let plan = publish_failure_plan(Duration::from_millis(500).as_nanos(), 2, 5, &"e".repeat(1500));
    assert_eq!(plan.delay_milliseconds, 1000);
    assert_eq!(plan.last_error.chars().count(), 1000);
    assert!(!plan.terminal);
    let last = publish_failure_plan(Duration::from_secs(1).as_nanos(), 5, 5, "broker gone");
    assert!(last.terminal);
    assert_eq!(last.last_error, "broker gone");
    assert_eq!(last.delay_milliseconds, 16_000);
    let huge = publish_failure_plan(Duration::MAX.as_nanos(), 1, 5, "");
    assert_eq!(huge.delay_milliseconds, i64::MAX);
    assert_eq!(lease_seconds(30), 30);
    assert_eq!(lease_seconds(u64::MAX), i32::MAX);
}

#[test]
fn message_id_gate_rejects_only_a_present_and_mismatched_property() {
    let message_id = Uuid::new_v4();
    assert!(!message_id_mismatch(None, message_id.as_u128()), "absent property must stay accepted");
    assert!(
        !message_id_mismatch(Some(message_id.to_string().as_str()), message_id.as_u128()),
        "matching property must stay accepted"
    );
    assert!(
        message_id_mismatch(Some(Uuid::new_v4().to_string().as_str()), message_id.as_u128()),
        "mismatched property must be rejected"
    );
}

#[test]
fn message_ids_compare_as_hyphenated_lower_case_text() {
    let id = 0xa1a2a3a4b1b2c1c2d1d2d3d4d5d6d7d8u128;
    assert!(!message_id_mismatch(Some("a1a2a3a4-b1b2-c1c2-d1d2-d3d4d5d6d7d8"), id));
    assert!(message_id_mismatch(Some("A1A2A3A4-B1B2-C1C2-D1D2-D3D4D5D6D7D8"), id));
    assert!(message_id_mismatch(Some("a1a2a3a4b1b2c1c2d1d2d3d4d5d6d7d8"), id));
}

#[test]
fn dead_letter_parser_recovers_ids_from_invalid_payloads() {
    let judgement_id = Uuid::new_v4();
    let payload = format!(
        r#"{{"judgementId":"{judgement_id}","submissionId":42,"verdict":"NOT_A_VERDICT"}}"#
    );
    assert_eq!(parse_dead_letter(payload.as_bytes()), Some((judgement_id.as_u128(), 42)));
}

#[test]
fn dead_letter_parser_refuses_incomplete_payloads() {
    let judgement_id = Uuid::new_v4();
    assert_eq!(parse_dead_letter(b"{not-json"), None);
    assert_eq!(parse_dead_letter(format!(r#"{{"judgementId":"{judgement_id}"}}"#).as_bytes()), None);
    assert_eq!(
        parse_dead_letter(format!(r#"{{"judgementId":"{judgement_id}","submissionId":0}}"#).as_bytes()),
        None
    );
    assert_eq!(parse_dead_letter(br#"{"judgementId":"nope","submissionId":3}"#), None);
}

#[test]
fn topology_names_match_the_reviewed_java_contract() {
    assert_eq!(
        (TASKS_QUEUE, TASKS_EXCHANGE, TASK_ROUTING_KEY),
        ("judge.tasks", "judge.tasks.exchange", "task")
    );
    assert_eq!(
        (RETRY_QUEUE, RETRY_EXCHANGE, RETRY_ROUTING_KEY),
        ("judge.retry", "judge.retry.exchange", "retry")
    );
    assert_eq!((DEAD_QUEUE, DEAD_EXCHANGE, DEAD_ROUTING_KEY), ("judge.dead", "judge.dead.exchange", "dead"));
    assert_eq!(RESULTS_QUEUE, "judge.results");
    assert_eq!(HEARTBEATS_QUEUE, "judge.heartbeats");
}

fn context(submission_id: i64) -> ResultContext {
    ResultContext {
        submission_id,
        result_message_id: None,
        completed: false,
        superseded: false,
        status: "JUDGING".to_owned(),
        submission_scope: "CONTEST".to_owned(),
        contest_id: Some(4),
        team_id: Some(5),
    }
}

fn conflict_text(error: ApplyResultError) -> String {
    match error {
        ApplyResultError::Conflict(text) => text,
        other => panic!("expected a conflict, got {other:?}"),
    }
}

#[test]
fn results_apply_once_and_never_over_a_different_result() {
    let judgement = 0x0102u128;
    let message = 77u128;
    assert!(matches!(result_gate(Some(&context(9)), judgement, 9, message, Some(false)), Ok(ResultGate::Apply)));
    let mut applied = context(9);
    applied.result_message_id = Some(message);
    applied.completed = true;
    assert!(matches!(
        result_gate(Some(&applied), judgement, 9, message, Some(false)),
        Ok(ResultGate::Settled(ApplyResultOutcome::Duplicate))
    ));
    let refused = result_gate(Some(&applied), judgement, 9, 78, Some(false)).unwrap_err();
    assert!(refused.is_permanent());
    assert_eq!(
        conflict_text(refused),
        "judgement 00000000-0000-0000-0000-000000000102 already has a different final result"
    );
    let mut superseded = context(9);
    superseded.superseded = true;
    assert!(matches!(
        result_gate(Some(&superseded), judgement, 9, message, Some(true)),
        Ok(ResultGate::Settled(ApplyResultOutcome::Superseded))
    ));
    assert_eq!(
        conflict_text(result_gate(None, judgement, 9, message, Some(false)).unwrap_err()),
        "unknown judgement 00000000-0000-0000-0000-000000000102"
    );
    assert_eq!(
        conflict_text(result_gate(Some(&context(-12)), judgement, 9, message, Some(false)).unwrap_err()),
        "judgement belongs to submission -12, not 9"
    );
    assert_eq!(
        conflict_text(result_gate(Some(&context(9)), judgement, 9, message, None).unwrap_err()),
        "submission 9 has unknown status JUDGING"
    );
    assert_eq!(
        conflict_text(result_gate(Some(&context(9)), judgement, 9, message, Some(true)).unwrap_err()),
        "submission 9 already ended as JUDGING"
    );
    assert!(!ApplyResultError::Database("down".into()).is_permanent());
    assert!(ApplyResultError::Invalid("bad".into()).is_permanent());
}

#[test]
fn scopes_and_scores_follow_the_submission_kind() {
    assert_eq!(practice_score(true), 100_000);
    assert_eq!(practice_score(false), 0);
    assert!(matches!(result_scope("CONTEST", Some(1), Some(2)), Ok(ResultScope::Contest { contest_id: 1, team_id: 2 })));
    assert!(matches!(result_scope("PRACTICE", None, None), Ok(ResultScope::Practice)));
    assert_eq!(conflict_text(result_scope("CONTEST", None, Some(2)).unwrap_err()), "contest submission has no contest");
    assert_eq!(conflict_text(result_scope("CONTEST", Some(1), None).unwrap_err()), "contest submission has no team");
    assert_eq!(conflict_text(result_scope("TRAINING", None, None).unwrap_err()), "unknown submission scope TRAINING");
    assert_eq!(unix_millis(1_500_999_999), 1_500);
    assert_eq!(unix_millis(-1_500_999_999), -1_500);
}

#[test]
fn result_deliveries_are_deferred_a_bounded_number_of_times() {
    assert_eq!(result_retry_count(RetryHeader::Absent), 0);
    assert_eq!(result_retry_count(RetryHeader::ShortInt(3)), 3);
    assert_eq!(result_retry_count(RetryHeader::LongInt(7)), 7);
    assert_eq!(result_retry_count(RetryHeader::LongLongInt(1 << 40)), i32::MAX);
    assert_eq!(result_retry_count(RetryHeader::Other), 0);
    assert_eq!(result_delivery_action(ResultProcessing::Done, 0), ResultDeliveryAction::Acknowledge);
    assert_eq!(result_delivery_action(ResultProcessing::Malformed, 0), ResultDeliveryAction::RejectPermanently);
    assert_eq!(result_delivery_action(ResultProcessing::MismatchedId, 0), ResultDeliveryAction::RejectPermanently);
    assert_eq!(result_delivery_action(ResultProcessing::PermanentFailure, 0), ResultDeliveryAction::RejectPermanently);
    assert_eq!(result_delivery_action(ResultProcessing::TransientFailure, 19), ResultDeliveryAction::Defer(20));
    assert_eq!(result_delivery_action(ResultProcessing::TransientFailure, 20), ResultDeliveryAction::RejectPermanently);
}

#[test]
fn dead_letters_mark_only_stuck_submissions() {
    let stuck = DeadLetterContext {
        submission_id: 3,
        completed: false,
        superseded: false,
        submission_scope: "CONTEST".to_owned(),
        contest_id: Some(10),
        team_id: Some(11),
    };
    assert_eq!(
        plan_dead_letter_recovery(Some(&stuck), 1, 3, false).unwrap(),
        DeadLetterStep::MarkSystemErrorAndNotify { contest_id: 10, team_id: 11 }
    );
    assert_eq!(plan_dead_letter_recovery(Some(&stuck), 1, 3, true).unwrap(), DeadLetterStep::NothingStuck);
    let practice = DeadLetterContext { submission_scope: "PRACTICE".to_owned(), contest_id: None, team_id: None, ..stuck };
    assert_eq!(plan_dead_letter_recovery(Some(&practice), 1, 3, false).unwrap(), DeadLetterStep::MarkSystemError);
    let unknown = plan_dead_letter_recovery(None, 1, 3, false).unwrap_err();
    assert!(unknown.is_permanent());
    match unknown {
        DeadLetterError::Permanent(text) => {
            assert_eq!(text, "unknown judgement 00000000-0000-0000-0000-000000000001")
        }
        DeadLetterError::Database(_) => panic!("expected a permanent error"),
    }
    assert!(!DeadLetterError::Database("down".into()).is_permanent());
    assert!(dead_letter_acknowledged(false, true));
    assert!(dead_letter_acknowledged(true, false));
    assert!(!dead_letter_acknowledged(true, true));
    assert_eq!(smallint(32_767), Some(32_767));
    assert_eq!(smallint(32_768), None);
}

#[test]
fn topology_routes_dead_letters_through_retry_and_dead_queues() {
    let topology = judge_topology("judge.results.exchange", "judge.heartbeats.exchange", "heartbeat");
    assert_eq!(topology.exchanges.len(), 5);
    assert!(topology.exchanges.iter().all(|e| e.durable && e.kind == ExchangeKind::Direct));
    assert_eq!(topology.exchanges[3].name, "judge.results.exchange");
    assert!(topology.queues.iter().all(|q| q.durable));
    assert_eq!(topology.queues.len(), 5);
    let tasks = &topology.queues[0];
    assert_eq!(tasks.name, "judge.tasks");
    assert_eq!(tasks.arguments[0].value, QueueArgument::Text("judge.retry.exchange"));
    let retry = &topology.queues[2];
    assert_eq!(retry.arguments[0].value, QueueArgument::Int(10_000));
    assert_eq!(retry.arguments[1].value, QueueArgument::Text("judge.tasks.exchange"));
    assert!(topology.queues[1].arguments.iter().all(|a| a.key != "x-dead-letter-exchange"));
    assert_eq!(topology.bindings[3].exchange, "judge.results.exchange");
    assert_eq!(topology.bindings[4].routing_key, "heartbeat");
}

#[test]
fn practice_progress_counts_solved_problems() {
    assert_eq!(practice_progress(true), (100, "SOLVED"));
    assert_eq!(practice_progress(false), (0, "IN_PROGRESS"));
}

#[test]
fn heartbeat_deliveries_and_publishes_are_settled() {
    assert_eq!(heartbeat_delivery_action(HeartbeatProcessing::Recorded), HeartbeatDeliveryAction::Acknowledge);
    assert_eq!(heartbeat_delivery_action(HeartbeatProcessing::StoreFailed), HeartbeatDeliveryAction::Requeue);
    assert_eq!(heartbeat_delivery_action(HeartbeatProcessing::Invalid), HeartbeatDeliveryAction::Reject);
    assert_eq!(heartbeat_delivery_action(HeartbeatProcessing::Malformed), HeartbeatDeliveryAction::Reject);
    assert_eq!(heartbeat_delivery_action(HeartbeatProcessing::MismatchedId), HeartbeatDeliveryAction::Reject);
    assert!(task_published(true, false));
    assert!(!task_published(true, true));
    assert!(!task_published(false, false));
}
