use project_balloon_api::auth::{AuthUser, PRINTING_MANAGE, UserType};
use project_balloon_api::printing::{pdf_location, pdf_ownership_required, storage};
use project_balloon_api::printing::RejectRequest;
use project_balloon_api::printing::{
    CommandLineCupsGateway, CreateRequest, ListQuery, SanitizedError, contains_job,
    estimate_pages, parse_job_id, print_not_found,
};

#[test]
fn print_content_size_controls_and_page_estimate_are_closed() {
    assert_eq!(estimate_pages("hello"), 1);
    assert_eq!(estimate_pages(&"line\n".repeat(50)), 2);
    assert!(CreateRequest { content: "ok".into() }.validate().is_ok());
    assert!(CreateRequest { content: "\0".into() }.validate().is_err());
    assert!(CreateRequest { content: "x".repeat(20 * 1024 + 1) }.validate().is_err());
}

#[test]
fn cups_output_is_parsed_without_accepting_ambiguous_jobs() {
    assert_eq!(parse_job_id("request id is xcpc-42 (1 file(s))", "xcpc").as_deref(), Some("xcpc-42"));
    assert_eq!(parse_job_id("request id is other-42", "xcpc"), None);
    assert!(contains_job(b"xcpc-42 user 10\n", "xcpc-42"));
    assert!(!contains_job(b"xcpc-420 user 10\n", "xcpc-42"));
    assert!(!SanitizedError::sanitize(&"x\n".repeat(300)).as_str().contains('\n'));
    assert!(SanitizedError::sanitize(&"x".repeat(300)).as_str().len() <= 255);
    let gateway = CommandLineCupsGateway::new("xcpc".to_owned(), std::time::Duration::from_secs(1));
    assert_eq!(gateway.printer(), "xcpc");
}

#[test]
fn status_filters_are_normalized() {
    assert_eq!(ListQuery { status: Some(" queued ".into()) }.validate().unwrap().as_deref(), Some("QUEUED"));
    assert_eq!(ListQuery { status: Some("LOST".into()) }.validate().unwrap_err().field, "status");
    assert_eq!(ListQuery { status: None }.validate().unwrap(), None);
    assert_eq!(print_not_found().code, "PRINT_REQUEST_NOT_FOUND");
}

#[test]
fn rejection_reasons_are_flattened_and_required() {
    assert_eq!(RejectRequest { reason: " paper\njam ".to_owned() }.sanitized_reason().unwrap(), "paper jam");
    assert_eq!(RejectRequest { reason: " \n ".to_owned() }.sanitized_reason().unwrap_err().field, "reason");
}


#[test]
fn pdfs_are_served_once_rendered_and_only_to_their_readers() {
    let member = AuthUser {
        id: 3,
        username: "team".to_owned(),
        display_name: "Team".to_owned(),
        user_type: UserType::Team,
        permissions: vec![],
        password_reset_required: false,
    };
    assert!(pdf_ownership_required(&member));
    let operator = AuthUser { permissions: vec![PRINTING_MANAGE.to_owned()], user_type: UserType::Staff, ..member };
    assert!(!pdf_ownership_required(&operator));
    assert_eq!(pdf_location(Some("b".into()), Some("k".into())).unwrap(), ("b".to_owned(), "k".to_owned()));
    assert_eq!(pdf_location(Some("b".into()), None).unwrap_err().code, "PRINTING_PDF_NOT_READY");
    assert_eq!(storage::<u8>(None).unwrap_err().code, "OBJECT_STORAGE_UNAVAILABLE");
    assert_eq!(storage(Some(&7u8)), Ok(&7u8));
}

#[test]
fn sanitized_errors_hold_no_control_characters() {
    assert_eq!(SanitizedError::sanitize("a\u{0}b").as_str(), "a b");
    assert_eq!(SanitizedError::sanitize("  lp:\u{7}\u{1b}[31m  failed \r\n now ").as_str(), "lp: [31m failed now");
    assert_eq!(SanitizedError::sanitize("\u{85}x\u{9f}").as_str(), "x");
    let long = SanitizedError::sanitize(&"é ".repeat(300));
    assert_eq!(long.as_str().chars().count(), 255);
    assert!(!long.as_str().starts_with(' '));
    assert!(!long.as_str().contains("  "));
    assert!(!long.as_str().chars().any(char::is_control));
}

#[test]
fn job_lookup_reads_lossily_decoded_output() {
    assert!(contains_job(b"\xffjunk\nxcpc-7 user 3\n", "xcpc-7"));
    assert!(!contains_job(b"xcpc-7\xff user\n", "xcpc-7"));
}
