use project_balloon_api::contest_problems::ContestProblemDetailRow;
use project_balloon_api::contests::Timestamp;
use project_balloon_api::contest_problems::assigned_problem_exists;
use project_balloon_api::contest_problems::decode_languages;
use project_balloon_api::contest_problems::{
    AssignProblemRequest, ContestProblemListQuery, ReorderEntry, UpdateContestProblemRequest,
    ValidatedReorderEntry, configurable_contest, map_assignment_write_error,
    problem_manage_scope, problem_read_scope, removal_outcome, reorder_covers_assignment,
    require_ids, require_positive_contest_id, validate_alias, validate_color,
    validate_lang_code, validate_order, validate_reorder,
};
use project_balloon_api::auth::{AuthUser, UserType, SCREEN_MANAGE};
use project_balloon_api::contests::ScopeStep;
use project_balloon_api::error::ErrorKind;

fn user(user_type: UserType, permissions: &[&str]) -> AuthUser {
    AuthUser {
        id: 1,
        username: "user".to_owned(),
        display_name: "User".to_owned(),
        user_type,
        permissions: permissions.iter().map(|p| (*p).to_owned()).collect(),
        password_reset_required: false,
    }
}

#[test]
fn assignment_is_normalized() {
    let value = AssignProblemRequest {
        problem_id: 1,
        alias: " a1 ".into(),
        display_order: 1,
        color: Some(" red ".into()),
    }
    .validate()
    .expect("valid assignment");
    assert_eq!(value.alias, "A1");
    assert_eq!(value.color.as_deref(), Some("red"));
}

#[test]
fn invalid_or_empty_changes_are_rejected() {
    assert!(
        AssignProblemRequest { problem_id: 1, alias: "A-1".into(), display_order: 1, color: None }
            .validate()
            .is_err()
    );
    assert!(
        UpdateContestProblemRequest { alias: None, display_order: None, color: None }
            .validate()
            .is_err()
    );
}

#[test]
fn reorder_rejects_duplicate_ids_and_orders() {
    assert!(
        validate_reorder(vec![
            ReorderEntry { problem_id: 1, display_order: 1 },
            ReorderEntry { problem_id: 1, display_order: 2 },
        ])
        .is_err()
    );
    assert!(
        validate_reorder(vec![
            ReorderEntry { problem_id: 1, display_order: 1 },
            ReorderEntry { problem_id: 2, display_order: 1 },
        ])
        .is_err()
    );
}

#[test]
fn reorder_errors_name_the_first_failing_entry() {
    let dup_id = validate_reorder(vec![
        ReorderEntry { problem_id: 1, display_order: 1 },
        ReorderEntry { problem_id: 1, display_order: 1 },
    ])
    .unwrap_err();
    assert_eq!(dup_id.field, "problemId");
    assert_eq!(dup_id.message, "must not contain duplicates");
    let dup_order = validate_reorder(vec![
        ReorderEntry { problem_id: 1, display_order: 3 },
        ReorderEntry { problem_id: 2, display_order: 3 },
    ])
    .unwrap_err();
    assert_eq!(dup_order.field, "displayOrder");
    let bad_id = validate_reorder(vec![ReorderEntry { problem_id: 0, display_order: 1 }]).unwrap_err();
    assert_eq!(bad_id.message, "must be positive");
    let bad_order =
        validate_reorder(vec![ReorderEntry { problem_id: 5, display_order: 1001 }]).unwrap_err();
    assert_eq!(bad_order.field, "displayOrder");
    let empty = validate_reorder(vec![]).unwrap_err();
    assert_eq!(empty.field, "request");
    let too_many: Vec<ReorderEntry> =
        (1..=1001).map(|i| ReorderEntry { problem_id: i, display_order: 1 }).collect();
    assert_eq!(validate_reorder(too_many).unwrap_err().field, "request");
}

#[test]
fn accepted_reorder_keeps_entries_in_order() {
    let accepted = validate_reorder(vec![
        ReorderEntry { problem_id: 7, display_order: 2 },
        ReorderEntry { problem_id: 3, display_order: 1 },
    ])
    .expect("valid reorder");
    assert_eq!(accepted.len(), 2);
    assert_eq!((accepted[0].problem_id, accepted[0].display_order), (7, 2));
    assert_eq!((accepted[1].problem_id, accepted[1].display_order), (3, 1));
}

#[test]
fn aliases_orders_colors_and_languages_are_bounded() {
    assert_eq!(validate_alias(" ab12 ".into()).unwrap(), "AB12");
    assert!(validate_alias("ABCDEFGHI".into()).is_err());
    assert!(validate_alias("  ".into()).is_err());
    assert!(validate_alias("é".into()).is_err());
    assert_eq!(validate_order(1000).unwrap(), 1000);
    assert!(validate_order(0).is_err());
    assert!(validate_order(1001).is_err());
    assert_eq!(validate_color("  #ff0000 ".into()).unwrap(), "#ff0000");
    assert!(validate_color("x".repeat(17)).is_err());
    assert!(validate_color("   ".into()).is_err());
    assert_eq!(validate_lang_code("en".into()).unwrap(), "en");
    assert_eq!(validate_lang_code("zh-CN".into()).unwrap(), "zh-CN");
    assert!(validate_lang_code("EN".into()).is_err());
    assert!(validate_lang_code("zh_CN".into()).is_err());
    assert!(validate_lang_code("zh-cn".into()).is_err());
    assert_eq!(ContestProblemListQuery { lang: None }.validate().unwrap(), None);
    assert_eq!(
        ContestProblemListQuery { lang: Some("fr".into()) }.validate().unwrap().as_deref(),
        Some("fr")
    );
    assert_eq!(ContestProblemListQuery { lang: Some("x".into()) }.validate().unwrap_err().field, "lang");
}

#[test]
fn update_checks_each_given_field() {
    let v = UpdateContestProblemRequest { alias: None, display_order: Some(3), color: None }
        .validate()
        .expect("order only");
    assert_eq!(v.display_order, Some(3));
    assert!(v.alias.is_none() && v.color.is_none());
    let e = UpdateContestProblemRequest { alias: Some("b".into()), display_order: Some(0), color: None }
        .validate()
        .unwrap_err();
    assert_eq!(e.field, "displayOrder");
    let e = AssignProblemRequest { problem_id: 0, alias: "A".into(), display_order: 1, color: None }
        .validate()
        .unwrap_err();
    assert_eq!(e.field, "problemId");
}

#[test]
fn reorder_must_cover_the_assigned_problems() {
    let entries = vec![
        ValidatedReorderEntry { problem_id: 2, display_order: 1 },
        ValidatedReorderEntry { problem_id: 1, display_order: 2 },
    ];
    assert!(reorder_covers_assignment(&entries, &vec![1, 2]).is_ok());
    assert_eq!(
        reorder_covers_assignment(&entries, &vec![1, 2, 3]).unwrap_err().code,
        "CONTEST_PROBLEM_REORDER_SET_MISMATCH"
    );
    assert!(reorder_covers_assignment(&entries, &vec![1]).is_err());
}

#[test]
fn ids_and_write_errors_map_to_codes() {
    assert!(require_positive_contest_id(1).is_ok());
    assert_eq!(require_positive_contest_id(0).unwrap_err().field, "contestId");
    assert_eq!(require_ids(1, -1).unwrap_err().field, "problemId");
    assert_eq!(require_ids(-1, -1).unwrap_err().field, "contestId");
    assert_eq!(map_assignment_write_error(Some("contest_problems_pkey")).code, "PROBLEM_ALREADY_ASSIGNED");
    assert_eq!(
        map_assignment_write_error(Some("contest_problems_contest_id_alias_key")).code,
        "CONTEST_PROBLEM_ALIAS_TAKEN"
    );
    assert_eq!(
        map_assignment_write_error(Some("contest_problems_contest_id_display_order_key")).code,
        "CONTEST_PROBLEM_ORDER_TAKEN"
    );
    assert_eq!(map_assignment_write_error(None).kind, ErrorKind::Internal);
    assert_eq!(removal_outcome(true, 1).unwrap_err().code, "CONTEST_PROBLEM_HAS_SUBMISSIONS");
    assert_eq!(removal_outcome(false, 0).unwrap_err().code, "CONTEST_PROBLEM_NOT_FOUND");
    assert!(removal_outcome(false, 1).is_ok());
}

#[test]
fn configuration_is_changeable_only_in_draft_by_managers() {
    assert_eq!(configurable_contest(None, true).unwrap_err().code, "CONTEST_NOT_FOUND");
    assert_eq!(configurable_contest(Some("DRAFT"), false).unwrap_err().code, "CONTEST_NOT_FOUND");
    assert_eq!(
        configurable_contest(Some("FROZEN_CONFIG"), true).unwrap_err().code,
        "CONTEST_PROBLEM_CONFIG_FROZEN"
    );
    assert!(configurable_contest(Some("DRAFT"), true).is_ok());
    assert_eq!(problem_manage_scope(&user(UserType::SuperAdmin, &[])), ScopeStep::Granted);
    assert_eq!(problem_manage_scope(&user(UserType::Staff, &[])), ScopeStep::CheckAssignment);
}

#[test]
fn teams_read_problems_only_of_started_contests() {
    let team = user(UserType::Team, &[]);
    assert_eq!(problem_read_scope("DRAFT", &team), ScopeStep::Hidden);
    assert_eq!(problem_read_scope("FROZEN_CONFIG", &team), ScopeStep::Hidden);
    assert_eq!(problem_read_scope("RUNNING", &team), ScopeStep::CheckRoster);
    assert_eq!(problem_read_scope("ARCHIVED", &team), ScopeStep::CheckRoster);
    assert_eq!(problem_read_scope("DRAFT", &user(UserType::Staff, &[SCREEN_MANAGE])), ScopeStep::Granted);
    assert_eq!(problem_read_scope("DRAFT", &user(UserType::Staff, &[])), ScopeStep::CheckAssignment);
}

#[test]
fn stored_languages_and_statements_decode() {
    assert_eq!(decode_languages(r#"["cpp","java"]"#).unwrap(), vec!["cpp".to_owned(), "java".to_owned()]);
    assert_eq!(decode_languages("[]").unwrap(), Vec::<String>::new());
    assert_eq!(decode_languages("{").unwrap_err().message, "decode contest problem languages");
}


#[test]
fn only_existing_problems_are_assigned() {
    assert!(assigned_problem_exists(true).is_ok());
    assert_eq!(assigned_problem_exists(false).unwrap_err().code, "PROBLEM_NOT_FOUND");
}

fn detail_row(languages: &str, statement: (Option<&str>, Option<&str>, Option<i128>)) -> ContestProblemDetailRow {
    ContestProblemDetailRow {
        contest_id: 3,
        problem_id: 11,
        alias: "A".to_owned(),
        display_order: 1,
        color: Some("#ff0000".to_owned()),
        slug: "two-sum".to_owned(),
        title: "Two Sum".to_owned(),
        time_limit_ms: 1000,
        memory_limit_mb: 256,
        output_limit_kb: 64,
        languages: languages.to_owned(),
        statement_lang_code: statement.0.map(str::to_owned),
        statement_body: statement.1.map(str::to_owned),
        statement_updated_at: statement.2.map(|unix_nanos| Timestamp { unix_nanos }),
    }
}

#[test]
fn detail_rows_become_responses_with_their_statement() {
    let row = detail_row(r#"["cpp","rust"]"#, (Some("en"), Some("# Two Sum"), Some(1_700_000_000_000_000_000)));
    let response = row.response("<h1>Two Sum</h1>".to_owned()).unwrap();
    assert_eq!(response.contest_id, 3);
    assert_eq!(response.problem_id, 11);
    assert_eq!(response.alias, "A");
    assert_eq!(response.color.as_deref(), Some("#ff0000"));
    assert_eq!(response.slug, "two-sum");
    assert_eq!(response.time_limit_ms, 1000);
    assert_eq!(response.languages, vec!["cpp".to_owned(), "rust".to_owned()]);
    let statement = response.statement.unwrap();
    assert_eq!(statement.lang_code, "en");
    assert_eq!(statement.rendered_html, "<h1>Two Sum</h1>");
    assert_eq!(statement.updated_at, Timestamp { unix_nanos: 1_700_000_000_000_000_000 });

    let bare = detail_row("[]", (None, None, None)).response(String::new()).unwrap();
    assert!(bare.statement.is_none());
    assert!(bare.languages.is_empty());
}

#[test]
fn detail_rows_with_broken_columns_are_internal_errors() {
    let partial = detail_row(r#"["cpp"]"#, (Some("en"), None, Some(0))).response(String::new());
    assert_eq!(partial.unwrap_err().message, "decode contest problem statement");
    let both = detail_row("not json", (Some("en"), None, None)).response(String::new());
    let error = both.unwrap_err();
    assert_eq!(error.kind, ErrorKind::Internal);
    assert_eq!(error.message, "decode contest problem languages");
}
