use project_balloon_api::digest::{new_secret_token, secret_token_from};
use project_balloon_api::presentation::{default_density, default_font, default_true};
use project_balloon_api::presentation::{broadcast_token_revoked, custom_template_exists, live_program_saved, screen_instance_found, template_found};
use project_balloon_api::presentation::{
    CommandRequest, HeartbeatRequest, ModeQuery, PublishedQuery, RegisterRequest,
    broadcast_token_outcome, published_access, resolver_run_check,
};
use project_balloon_api::auth::{AuthUser, LIVE_MANAGE, SCREEN_MANAGE, UserType};
use project_balloon_api::presentation::{
    LiveProgram, LiveProgramRequest, hex_color, live_scenes, normalize_title_card,
    public_resolver_run, require_live_operator, require_mode_operator,
    require_presentation_operator, require_screen_operator, supplied_token, token_hash,
    validate_mode, validate_program_request, validate_scene, validate_template, validate_view,
};

fn request(scene: &str, expected_version: i64) -> LiveProgramRequest {
    LiveProgramRequest {
        current_scene: scene.to_owned(),
        resolver_run_id: None,
        transition_milliseconds: 800,
        show_clock: true,
        ticker_enabled: true,
        title_card_text: None,
        expected_version,
    }
}

fn staff(permissions: &[&str]) -> AuthUser {
    AuthUser {
        id: 7,
        username: "op".to_owned(),
        display_name: "Operator".to_owned(),
        user_type: UserType::Staff,
        permissions: permissions.iter().map(|p| (*p).to_owned()).collect(),
        password_reset_required: false,
    }
}

#[test]
fn presentation_domains_are_closed() {
    assert_eq!(validate_mode("screen").expect("screen"), "SCREEN");
    assert!(validate_mode("OBS").is_err());
    assert_eq!(validate_view("awards").expect("awards"), "AWARDS");
    assert!(validate_view("javascript:").is_err());
    assert_eq!(validate_template(" CINEMATIC ").expect("template"), "CINEMATIC");
    assert!(validate_template("CUSTOM_HTML").is_err());
}

#[test]
fn scenes_are_a_closed_superset_of_screen_views() {
    let scenes = live_scenes();
    for scene in &scenes {
        validate_scene(scene).expect("supported scene");
    }
    assert_eq!(scenes.len(), 8);
    for invalid in ["", "UNKNOWN", "resolver-run"] {
        assert!(validate_scene(invalid).is_err());
    }
    assert_eq!(validate_scene("resolver").expect("normalized"), "RESOLVER");
}

#[test]
fn transition_window_is_bounded() {
    let mut base = request("SCOREBOARD", 0);
    for invalid in [99, 5001, -1] {
        base.transition_milliseconds = invalid;
        assert!(validate_program_request(&base).is_err());
    }
    for valid in [100, 800, 5000] {
        base.transition_milliseconds = valid;
        assert!(validate_program_request(&base).is_ok());
    }
}

#[test]
fn title_card_text_is_bounded() {
    let mut base = request("TITLE_CARD", 0);
    base.title_card_text = Some("x".repeat(241));
    assert!(validate_program_request(&base).is_err());
    base.title_card_text = Some("  欢迎观看  ".repeat(2));
    assert!(validate_program_request(&base).is_ok());
}

#[test]
fn title_cards_are_trimmed_and_blank_ones_dropped() {
    assert_eq!(normalize_title_card(Some("  Finals  ".to_owned())).as_deref(), Some("Finals"));
    assert_eq!(normalize_title_card(Some("   ".to_owned())), None);
    assert_eq!(normalize_title_card(None), None);
    let program = LiveProgram::default_for(3);
    assert_eq!(program.current_scene, "SCOREBOARD");
    assert_eq!(program.transition_milliseconds, 800);
    assert_eq!(program.version, 0);
}

#[test]
fn tokens_hash_to_sha256_hex() {
    assert_eq!(token_hash("abc"), "ba7816bf8f01cfea414140de5dae2223b00361a396177a9cb410ff61f20015ad");
    assert_eq!(token_hash("").len(), 64);
    assert_eq!(supplied_token(Some("  ")), None);
    assert_eq!(supplied_token(Some("t0k")), Some("t0k"));
    assert_eq!(supplied_token(None), None);
}

#[test]
fn operators_need_the_matching_permission() {
    assert!(require_screen_operator(&staff(&[SCREEN_MANAGE])).is_ok());
    assert_eq!(require_screen_operator(&staff(&[LIVE_MANAGE])).unwrap_err().code, "SCREEN_PERMISSION_REQUIRED");
    assert!(require_live_operator(&staff(&[LIVE_MANAGE])).is_ok());
    assert_eq!(require_live_operator(&staff(&[])).unwrap_err().code, "LIVE_PERMISSION_REQUIRED");
    assert!(require_presentation_operator(&staff(&[LIVE_MANAGE])).is_ok());
    assert!(require_presentation_operator(&staff(&[])).is_err());
    assert!(require_mode_operator(&staff(&[SCREEN_MANAGE]), "SCREEN").is_ok());
    assert!(require_mode_operator(&staff(&[SCREEN_MANAGE]), "LIVE").is_err());
}

#[test]
fn colors_and_resolver_runs() {
    assert!(hex_color("#22c55e"));
    assert!(!hex_color("22c55e"));
    assert!(!hex_color("#22c55g"));
    assert_eq!(public_resolver_run(Some(4), true, Some(9)), Some(4));
}

#[test]
fn requests_of_screens_and_viewers_are_checked() {
    assert_eq!(RegisterRequest { contest_id: 1, name: " Hall A ".to_owned() }.validate().unwrap(), "Hall A");
    assert_eq!(RegisterRequest { contest_id: 0, name: "Hall".to_owned() }.validate().unwrap_err().field, "screen");
    assert_eq!(
        HeartbeatRequest { client_token: "t".to_owned(), current_view: "balloons".to_owned() }.validate(),
        Ok("BALLOONS")
    );
    assert_eq!(
        HeartbeatRequest { client_token: String::new(), current_view: "balloons".to_owned() }.validate().unwrap_err().code,
        "SCREEN_TOKEN_INVALID"
    );
    assert_eq!(
        HeartbeatRequest { client_token: "x".repeat(257), current_view: "AWARDS".to_owned() }.validate().unwrap_err().code,
        "SCREEN_TOKEN_INVALID"
    );
    assert_eq!(CommandRequest { target_view: "resolver".to_owned() }.validate(), Ok("RESOLVER"));
    assert_eq!(ModeQuery { mode: " live ".to_owned() }.validate(), Ok("LIVE"));
    assert!(PublishedQuery { mode: "tv".to_owned() }.validate().is_err());
    assert_eq!(published_access("SCREEN", false, None).unwrap_err().code, "PRESENTATION_NOT_PUBLISHED");
    assert_eq!(published_access("live", true, None).unwrap_err().code, "BROADCAST_TOKEN_INVALID");
    assert_eq!(published_access(" screen ", true, None), Ok(None));
    assert_eq!(published_access("tv", true, None).unwrap_err().field, "mode");
    assert_eq!(published_access("tv", false, None).unwrap_err().field, "mode");
    assert_eq!(published_access("SCREEN", true, None), Ok(None));
    assert_eq!(published_access("LIVE", true, Some("  ")).unwrap_err().code, "BROADCAST_TOKEN_INVALID");
    assert_eq!(published_access("LIVE", true, None).unwrap_err().code, "BROADCAST_TOKEN_INVALID");
    assert_eq!(published_access("LIVE", true, Some("abc")), Ok(Some(token_hash("abc"))));
    assert!(broadcast_token_outcome(1).is_ok());
    assert!(broadcast_token_outcome(0).is_err());
    assert!(resolver_run_check(None, false).is_ok());
    assert!(resolver_run_check(Some(3), true).is_ok());
    assert_eq!(resolver_run_check(Some(3), false).unwrap_err().field, "resolverRunId");
}


#[test]
fn stored_rows_decide_not_found_and_conflicts() {
    assert!(live_program_saved(true).is_ok());
    assert_eq!(live_program_saved(false).unwrap_err().code, "LIVE_PROGRAM_VERSION_CONFLICT");
    assert!(screen_instance_found(1).is_ok());
    assert_eq!(screen_instance_found(0).unwrap_err().code, "SCREEN_INSTANCE_NOT_FOUND");
    assert_eq!(broadcast_token_revoked(2).unwrap_err().code, "BROADCAST_TOKEN_NOT_FOUND");
    assert_eq!(custom_template_exists(false).unwrap_err().message, "Custom template not found");
    assert_eq!(template_found(false).unwrap_err().message, "Template not found");
}

#[test]
fn broadcast_token_is_accepted_only_from_a_header() {
    let header: Option<&str> = Some("header-token");
    assert_eq!(supplied_token(header), Some("header-token"));
}

#[test]
fn template_defaults() {
    assert_eq!(default_font(), "Inter");
    assert_eq!(default_density(), "COMFORTABLE");
    assert!(default_true());
}

#[test]
fn secret_tokens_encode_their_bytes_url_safe_without_padding() {
    assert_eq!(secret_token_from(&[0_u8; 32]), "A".repeat(43));
    let counting: Vec<u8> = (0..32).collect();
    assert_eq!(secret_token_from(&counting), "AAECAwQFBgcICQoLDA0ODxAREhMUFRYXGBkaGxwdHh8");
    assert_eq!(secret_token_from(&[255_u8; 32]), "__________________________________________8");
}

#[test]
fn fresh_secret_tokens_are_43_url_safe_characters() {
    let first = new_secret_token("screen token").expect("the random source works here");
    let second = new_secret_token("screen token").expect("the random source works here");
    assert_eq!(first.len(), 43);
    assert!(first.chars().all(|c| c.is_ascii_alphanumeric() || c == '-' || c == '_'));
    assert_ne!(first, second);
}

#[test]
fn live_access_needs_a_matching_token_on_concrete_values() {
    let digest = published_access("live", true, Some("raw-token")).unwrap().unwrap();
    assert_eq!(digest, token_hash("raw-token"));
    assert_eq!(broadcast_token_outcome(1), Ok(()));
    assert_eq!(broadcast_token_outcome(0).unwrap_err().code, "BROADCAST_TOKEN_INVALID");
    assert_eq!(published_access("LIVE", true, Some("wrong")).unwrap(), Some(token_hash("wrong")));
    assert_eq!(published_access("LIVE", false, Some("raw-token")).unwrap_err().code, "PRESENTATION_NOT_PUBLISHED");
    assert_eq!(published_access("LIVE", true, Some("\t")).unwrap_err().code, "BROADCAST_TOKEN_INVALID");
    assert_eq!(published_access("screen", true, None), Ok(None));
}
