use vstd::prelude::*;

use crate::auth::{AuthUser, LIVE_MANAGE, SCREEN_MANAGE};
use crate::contests::Timestamp;
use crate::error::{AppError, ErrorKind, coded_error, validation_error};
use crate::text::{chars_of, owned, seq_ascii_upper, str_eq, trim, trimmed, trimmed_upper};

verus! {

/// The screen view named `name`, if any.
pub open spec fn screen_view(name: Seq<char>) -> Option<&'static str> {
    if name == "SCOREBOARD"@ {
        Some("SCOREBOARD")
    } else if name == "FIRST_BLOOD"@ {
        Some("FIRST_BLOOD")
    } else if name == "BALLOONS"@ {
        Some("BALLOONS")
    } else if name == "FREEZE_COUNTDOWN"@ {
        Some("FREEZE_COUNTDOWN")
    } else if name == "STATISTICS"@ {
        Some("STATISTICS")
    } else if name == "RESOLVER"@ {
        Some("RESOLVER")
    } else if name == "AWARDS"@ {
        Some("AWARDS")
    } else {
        None
    }
}

/// The live scene named `name`: a screen view or the branded title card.
pub open spec fn live_scene(name: Seq<char>) -> Option<&'static str> {
    if screen_view(name) is Some {
        screen_view(name)
    } else if name == "TITLE_CARD"@ {
        Some("TITLE_CARD")
    } else {
        None
    }
}

/// The name as screens and scenes compare it: trimmed and upper-cased.
pub open spec fn normalized_upper(s: Seq<char>) -> Seq<char> {
    seq_ascii_upper(trim(s))
}

fn screen_view_of(name: &str) -> (r: Option<&'static str>)
    ensures
        r == screen_view(name@),
{
    if str_eq(name, "SCOREBOARD") {
        Some("SCOREBOARD")
    } else if str_eq(name, "FIRST_BLOOD") {
        Some("FIRST_BLOOD")
    } else if str_eq(name, "BALLOONS") {
        Some("BALLOONS")
    } else if str_eq(name, "FREEZE_COUNTDOWN") {
        Some("FREEZE_COUNTDOWN")
    } else if str_eq(name, "STATISTICS") {
        Some("STATISTICS")
    } else if str_eq(name, "RESOLVER") {
        Some("RESOLVER")
    } else if str_eq(name, "AWARDS") {
        Some("AWARDS")
    } else {
        None
    }
}

pub open spec fn unsupported_view_error() -> AppError {
    validation_error("targetView", "is not a supported screen view")
}

/// Reads a screen view, ignoring surrounding white space and ASCII case.
pub fn validate_view(view: &str) -> (r: Result<&'static str, AppError>)
    ensures
        r == match screen_view(normalized_upper(view@)) {
            Some(v) => Ok(v),
            None => Err(unsupported_view_error()),
        },
{
    let normalized = trimmed_upper(view);
    match screen_view_of(normalized.as_str()) {
        Some(v) => Ok(v),
        None => Err(AppError::validation("targetView", "is not a supported screen view")),
    }
}

/// The scenes the live program can put on air: the screen views and the
/// branded title card.
pub fn live_scenes() -> (v: Vec<&'static str>)
    ensures
        v@ == seq![
            "SCOREBOARD",
            "FIRST_BLOOD",
            "BALLOONS",
            "FREEZE_COUNTDOWN",
            "STATISTICS",
            "RESOLVER",
            "AWARDS",
            "TITLE_CARD",
        ],
{
    vec![
        "SCOREBOARD",
        "FIRST_BLOOD",
        "BALLOONS",
        "FREEZE_COUNTDOWN",
        "STATISTICS",
        "RESOLVER",
        "AWARDS",
        "TITLE_CARD",
    ]
}

/// The live scenes are the screen views and the title card, nothing else.
pub proof fn scenes_are_a_closed_superset_of_screen_views(name: Seq<char>)
    ensures
        screen_view(name) is Some ==> live_scene(name) == screen_view(name),
        live_scene(name) is Some ==> screen_view(name) is Some || name == "TITLE_CARD"@,
        name == "TITLE_CARD"@ ==> live_scene(name) == Some("TITLE_CARD"),
{
    reveal_strlit("TITLE_CARD");
    reveal_strlit("SCOREBOARD");
    reveal_strlit("FIRST_BLOOD");
    reveal_strlit("BALLOONS");
    reveal_strlit("FREEZE_COUNTDOWN");
    reveal_strlit("STATISTICS");
    reveal_strlit("RESOLVER");
    reveal_strlit("AWARDS");
    if name == "TITLE_CARD"@ {
        assert(name[0] == 'T');
        assert("SCOREBOARD"@[0] == 'S');
        assert("FIRST_BLOOD"@[0] == 'F');
        assert("BALLOONS"@[0] == 'B');
        assert("FREEZE_COUNTDOWN"@[0] == 'F');
        assert("STATISTICS"@[0] == 'S');
        assert("RESOLVER"@[0] == 'R');
        assert("AWARDS"@[0] == 'A');
    }
}

pub open spec fn unsupported_scene_error() -> AppError {
    validation_error("currentScene", "is not a supported live scene")
}

/// Reads a live scene, ignoring surrounding white space and ASCII case.
pub fn validate_scene(scene: &str) -> (r: Result<&'static str, AppError>)
    ensures
        r == match live_scene(normalized_upper(scene@)) {
            Some(v) => Ok(v),
            None => Err(unsupported_scene_error()),
        },
{
    let normalized = trimmed_upper(scene);
    match screen_view_of(normalized.as_str()) {
        Some(v) => Ok(v),
        None => {
            if str_eq(normalized.as_str(), "TITLE_CARD") {
                Ok("TITLE_CARD")
            } else {
                Err(AppError::validation("currentScene", "is not a supported live scene"))
            }
        },
    }
}

/// The presentation mode named `name`, if any.
pub open spec fn presentation_mode(name: Seq<char>) -> Option<&'static str> {
    if name == "SCREEN"@ {
        Some("SCREEN")
    } else if name == "LIVE"@ {
        Some("LIVE")
    } else {
        None
    }
}

pub open spec fn unsupported_mode_error() -> AppError {
    validation_error("mode", "must be SCREEN or LIVE")
}

/// Reads a presentation mode, ignoring surrounding white space and ASCII case.
pub fn validate_mode(mode: &str) -> (r: Result<&'static str, AppError>)
    ensures
        r == match presentation_mode(normalized_upper(mode@)) {
            Some(m) => Ok(m),
            None => Err(unsupported_mode_error()),
        },
{
    let normalized = trimmed_upper(mode);
    if str_eq(normalized.as_str(), "SCREEN") {
        Ok("SCREEN")
    } else if str_eq(normalized.as_str(), "LIVE") {
        Ok("LIVE")
    } else {
        Err(AppError::validation("mode", "must be SCREEN or LIVE"))
    }
}

/// The presentation template named `name`, if any (case matters).
pub open spec fn presentation_template(name: Seq<char>) -> Option<&'static str> {
    if name == "DEFAULT"@ {
        Some("DEFAULT")
    } else if name == "CINEMATIC"@ {
        Some("CINEMATIC")
    } else if name == "MINIMAL"@ {
        Some("MINIMAL")
    } else if name == "SPLIT"@ {
        Some("SPLIT")
    } else if name == "CUSTOM"@ {
        Some("CUSTOM")
    } else {
        None
    }
}

pub open spec fn unsupported_template_error() -> AppError {
    validation_error("template", "must be DEFAULT, CINEMATIC, MINIMAL, SPLIT, or CUSTOM")
}

/// Reads a template name, ignoring surrounding white space.
pub fn validate_template(template: &str) -> (r: Result<&'static str, AppError>)
    ensures
        r == match presentation_template(trim(template@)) {
            Some(t) => Ok(t),
            None => Err(unsupported_template_error()),
        },
{
    let t = trimmed(template);
    let name = t.as_str();
    if str_eq(name, "DEFAULT") {
        Ok("DEFAULT")
    } else if str_eq(name, "CINEMATIC") {
        Ok("CINEMATIC")
    } else if str_eq(name, "MINIMAL") {
        Ok("MINIMAL")
    } else if str_eq(name, "SPLIT") {
        Ok("SPLIT")
    } else if str_eq(name, "CUSTOM") {
        Ok("CUSTOM")
    } else {
        Err(AppError::validation("template", "must be DEFAULT, CINEMATIC, MINIMAL, SPLIT, or CUSTOM"))
    }
}

/// A six-digit hexadecimal colour such as `#22c55e`.
pub open spec fn is_hex_color(s: Seq<char>) -> bool {
    &&& s.len() == 7
    &&& s[0] == '#'
    &&& forall|i: int| 1 <= i < 7 ==> crate::text::is_ascii_hex_digit(#[trigger] s[i])
}

pub fn hex_color(s: &str) -> (b: bool)
    ensures
        b == is_hex_color(s@),
{
    let v = chars_of(s);
    if v.len() != 7 || v[0] != '#' {
        return false;
    }
    let mut k: usize = 1;
    while k < 7
        invariant
            v@ == s@,
            v.len() == 7,
            1 <= k <= 7,
            forall|i: int| 1 <= i < k ==> crate::text::is_ascii_hex_digit(#[trigger] v@[i]),
        decreases 7 - k,
    {
        let c = v[k];
        if !(('0' <= c && c <= '9') || ('a' <= c && c <= 'f') || ('A' <= c && c <= 'F')) {
            return false;
        }
        k += 1;
    }
    true
}

/// The presentation settings an operator submits for one mode.
pub struct ConfigRequest {
    pub enabled: bool,
    pub title: Option<String>,
    pub subtitle: Option<String>,
    pub accent_color: String,
    pub row_limit: i32,
    pub show_announcements: bool,
    pub announcement_interval_seconds: i32,
    pub template: Option<String>,
    pub custom_template_id: Option<i64>,
}

/// The template a request names; an absent one is the default template.
pub open spec fn requested_template(template: Option<String>) -> Seq<char> {
    match template {
        Some(t) => t@,
        None => "DEFAULT"@,
    }
}

pub open spec fn accent_color_error() -> AppError {
    validation_error("accentColor", "must be a six-digit hex color")
}

pub open spec fn row_limit_error() -> AppError {
    validation_error("rowLimit", "must be between 5 and 30")
}

pub open spec fn announcement_interval_error() -> AppError {
    validation_error("announcementIntervalSeconds", "must be between 5 and 60")
}

pub open spec fn title_length_error() -> AppError {
    validation_error("title", "title or subtitle is too long")
}

/// Whether an optional text has more than `limit` characters.
pub open spec fn longer_than(text: Option<String>, limit: nat) -> bool {
    match text {
        Some(t) => t@.len() > limit,
        None => false,
    }
}

/// The checks of a presentation config, in order: accent colour, row limit,
/// announcement interval, title (160) and subtitle (240) lengths, template.
pub open spec fn config_check(request: &ConfigRequest) -> Result<(), AppError> {
    if !is_hex_color(request.accent_color@) {
        Err(accent_color_error())
    } else if !(5 <= request.row_limit <= 30) {
        Err(row_limit_error())
    } else if !(5 <= request.announcement_interval_seconds <= 60) {
        Err(announcement_interval_error())
    } else if longer_than(request.title, 160) || longer_than(request.subtitle, 240) {
        Err(title_length_error())
    } else if presentation_template(trim(requested_template(request.template))) is None {
        Err(unsupported_template_error())
    } else {
        Ok(())
    }
}

fn char_count_exceeds(text: &Option<String>, limit: usize) -> (b: bool)
    ensures
        b == longer_than(*text, limit as nat),
{
    match text {
        Some(t) => chars_of(t.as_str()).len() > limit,
        None => false,
    }
}

pub fn validate_config(request: &ConfigRequest) -> (r: Result<(), AppError>)
    ensures
        r == config_check(request),
{
    if !hex_color(request.accent_color.as_str()) {
        return Err(AppError::validation("accentColor", "must be a six-digit hex color"));
    }
    if !(5 <= request.row_limit && request.row_limit <= 30) {
        return Err(AppError::validation("rowLimit", "must be between 5 and 30"));
    }
    if !(5 <= request.announcement_interval_seconds && request.announcement_interval_seconds <= 60) {
        return Err(AppError::validation("announcementIntervalSeconds", "must be between 5 and 60"));
    }
    if char_count_exceeds(&request.title, 160) || char_count_exceeds(&request.subtitle, 240) {
        return Err(AppError::validation("title", "title or subtitle is too long"));
    }
    let template = match &request.template {
        Some(t) => validate_template(t.as_str()),
        None => validate_template("DEFAULT"),
    };
    match template {
        Ok(_) => Ok(()),
        Err(e) => Err(e),
    }
}

pub open spec fn custom_template_required_error() -> AppError {
    validation_error("customTemplateId", "is required for a custom template")
}

pub open spec fn custom_template_forbidden_error() -> AppError {
    validation_error("customTemplateId", "is only valid with the CUSTOM template")
}

/// The custom template a config must reference: the CUSTOM template needs
/// one, which must then exist; every other template forbids one.
pub fn custom_template_reference(template: &'static str, custom_template_id: Option<i64>) -> (r: Result<
    Option<i64>,
    AppError,
>)
    ensures
        template@ == "CUSTOM"@ ==> r == match custom_template_id {
            Some(id) => Ok(Some(id)),
            None => Err(custom_template_required_error()),
        },
        template@ != "CUSTOM"@ ==> r == match custom_template_id {
            Some(_) => Err(custom_template_forbidden_error()),
            None => Ok::<Option<i64>, AppError>(None),
        },
{
    if str_eq(template, "CUSTOM") {
        match custom_template_id {
            Some(id) => Ok(Some(id)),
            None => Err(AppError::validation("customTemplateId", "is required for a custom template")),
        }
    } else {
        match custom_template_id {
            Some(_) => Err(AppError::validation("customTemplateId", "is only valid with the CUSTOM template")),
            None => Ok(None),
        }
    }
}

pub open spec fn presentation_permission_error() -> AppError {
    coded_error(ErrorKind::Forbidden, "PRESENTATION_PERMISSION_REQUIRED", "Presentation management permission is required")
}

pub open spec fn screen_permission_error() -> AppError {
    coded_error(ErrorKind::Forbidden, "SCREEN_PERMISSION_REQUIRED", "Screen management permission is required")
}

pub open spec fn live_permission_error() -> AppError {
    coded_error(ErrorKind::Forbidden, "LIVE_PERMISSION_REQUIRED", "Live management permission is required")
}

/// Presentation operators manage screens or live output.
pub fn require_presentation_operator(actor: &AuthUser) -> (r: Result<(), AppError>)
    ensures
        r == if actor.super_admin() || actor.holds(SCREEN_MANAGE@) || actor.holds(LIVE_MANAGE@) {
            Ok::<(), AppError>(())
        } else {
            Err(presentation_permission_error())
        },
{
    if actor.is_super_admin() || actor.has_permission(SCREEN_MANAGE) || actor.has_permission(LIVE_MANAGE) {
        Ok(())
    } else {
        Err(AppError::forbidden("PRESENTATION_PERMISSION_REQUIRED", "Presentation management permission is required"))
    }
}

pub fn require_screen_operator(actor: &AuthUser) -> (r: Result<(), AppError>)
    ensures
        r == if actor.super_admin() || actor.holds(SCREEN_MANAGE@) {
            Ok::<(), AppError>(())
        } else {
            Err(screen_permission_error())
        },
{
    if actor.is_super_admin() || actor.has_permission(SCREEN_MANAGE) {
        Ok(())
    } else {
        Err(AppError::forbidden("SCREEN_PERMISSION_REQUIRED", "Screen management permission is required"))
    }
}

pub fn require_live_operator(actor: &AuthUser) -> (r: Result<(), AppError>)
    ensures
        r == if actor.super_admin() || actor.holds(LIVE_MANAGE@) {
            Ok::<(), AppError>(())
        } else {
            Err(live_permission_error())
        },
{
    if actor.is_super_admin() || actor.has_permission(LIVE_MANAGE) {
        Ok(())
    } else {
        Err(AppError::forbidden("LIVE_PERMISSION_REQUIRED", "Live management permission is required"))
    }
}

/// Changing a mode's config takes that mode's permission.
pub fn require_mode_operator(actor: &AuthUser, mode: &str) -> (r: Result<(), AppError>)
    ensures
        r == if actor.super_admin() || (mode@ == "SCREEN"@ && actor.holds(SCREEN_MANAGE@)) || (mode@
            == "LIVE"@ && actor.holds(LIVE_MANAGE@)) {
            Ok::<(), AppError>(())
        } else {
            Err(presentation_permission_error())
        },
{
    if actor.is_super_admin() || (str_eq(mode, "SCREEN") && actor.has_permission(SCREEN_MANAGE)) || (
    str_eq(mode, "LIVE") && actor.has_permission(LIVE_MANAGE)) {
        Ok(())
    } else {
        Err(AppError::forbidden("PRESENTATION_PERMISSION_REQUIRED", "Presentation management permission is required"))
    }
}

/// The stored digest of a screen or broadcast token.
pub fn token_hash(token: &str) -> (h: String)
    ensures
        h@ == crate::digest::hex_lower(crate::digest::sha256_digest(vstd::utf8::encode_utf8(token@))),
{
    crate::digest::sha256_hex(token)
}

pub open spec fn registration_error() -> AppError {
    validation_error("screen", "contestId and a name up to 120 characters are required")
}

/// A screen registers under a positive contest and a trimmed name of 1 to
/// 120 characters; the trimmed name is returned.
pub fn validate_registration(contest_id: i64, name: &str) -> (r: Result<String, AppError>)
    ensures
        contest_id <= 0 || trim(name@).len() == 0 || trim(name@).len() > 120 ==> r == Err::<String, AppError>(
            registration_error(),
        ),
        !(contest_id <= 0 || trim(name@).len() == 0 || trim(name@).len() > 120) ==> r is Ok && r->Ok_0@ == trim(name@),
{
    let trimmed_name = trimmed(name);
    let count = chars_of(trimmed_name.as_str()).len();
    if contest_id <= 0 || count == 0 || count > 120 {
        Err(AppError::validation("screen", "contestId and a name up to 120 characters are required"))
    } else {
        Ok(trimmed_name)
    }
}

/// Screens may register only for a published screen presentation, at most
/// twenty per address in ten minutes.
pub fn check_registration(published: bool, recent_from_address: i64) -> (r: Result<(), AppError>)
    ensures
        r == if !published {
            Err::<(), AppError>(coded_error(ErrorKind::Conflict, "SCREEN_PRESENTATION_NOT_PUBLISHED", "Screen presentation is not published"))
        } else if recent_from_address >= 20 {
            Err(coded_error(ErrorKind::TooManyRequests, "SCREEN_REGISTRATION_RATE_LIMITED", "Too many screen registrations; try again later"))
        } else {
            Ok(())
        },
{
    if !published {
        return Err(AppError::conflict("SCREEN_PRESENTATION_NOT_PUBLISHED", "Screen presentation is not published"));
    }
    if recent_from_address >= 20 {
        return Err(AppError::too_many_requests(
            "SCREEN_REGISTRATION_RATE_LIMITED",
            "Too many screen registrations; try again later",
        ));
    }
    Ok(())
}

pub open spec fn screen_token_error() -> AppError {
    coded_error(ErrorKind::Unauthorized, "SCREEN_TOKEN_INVALID", "Screen token is invalid")
}

/// A heartbeat names a supported view and carries a client token of 1 to
/// 256 bytes; the normalised view is returned.
pub fn validate_heartbeat(current_view: &str, client_token: &str) -> (r: Result<&'static str, AppError>)
    ensures
        screen_view(normalized_upper(current_view@)) is None ==> r == Err::<&'static str, AppError>(
            unsupported_view_error(),
        ),
        screen_view(normalized_upper(current_view@)) is Some ==> r == if client_token@.len() == 0
            || vstd::utf8::encode_utf8(client_token@).len() > 256 {
            Err::<&'static str, AppError>(screen_token_error())
        } else {
            Ok(screen_view(normalized_upper(current_view@))->Some_0)
        },
{
    let view = validate_view(current_view)?;
    if client_token.is_empty() || client_token.as_bytes().len() > 256 {
        return Err(AppError::unauthorized("SCREEN_TOKEN_INVALID", "Screen token is invalid"));
    }
    Ok(view)
}

/// The font of a template that names none.
pub fn default_font() -> (f: String)
    ensures
        f@ == "Inter"@,
{
    owned("Inter")
}

/// The density of a template that names none.
pub fn default_density() -> (d: String)
    ensures
        d@ == "COMFORTABLE"@,
{
    owned("COMFORTABLE")
}

/// Templates show the clock unless they say otherwise.
pub fn default_true() -> (b: bool)
    ensures
        b,
{
    true
}

/// A reusable presentation template as an operator submits it.
pub struct PresentationTemplateRequest {
    pub name: String,
    pub description: String,
    pub background_color: String,
    pub foreground_color: String,
    pub accent_color: String,
    pub font_family: String,
    pub density: String,
    pub show_clock: bool,
    pub show_logo: bool,
    pub logo_object_key: Option<String>,
}

/// The UTF-8 length of a text.
pub open spec fn byte_len(s: Seq<char>) -> nat {
    vstd::utf8::encode_utf8(s).len()
}

pub open spec fn is_density(s: Seq<char>) -> bool {
    s == "COMPACT"@ || s == "COMFORTABLE"@ || s == "SPACIOUS"@
}

/// The checks of a template request, in order: name and description
/// bounds, the three colours, font and density, and a logo key when the logo
/// is shown.
pub open spec fn template_request_check(request: &PresentationTemplateRequest) -> Result<(), AppError> {
    if trim(request.name@).len() == 0 || byte_len(request.name@) > 120 || byte_len(request.description@) > 500 {
        Err(validation_error("name", "name and description are out of bounds"))
    } else if !is_hex_color(request.background_color@) {
        Err(validation_error("backgroundColor", "must be a six-digit hexadecimal color"))
    } else if !is_hex_color(request.foreground_color@) {
        Err(validation_error("foregroundColor", "must be a six-digit hexadecimal color"))
    } else if !is_hex_color(request.accent_color@) {
        Err(validation_error("accentColor", "must be a six-digit hexadecimal color"))
    } else if trim(request.font_family@).len() == 0 || byte_len(request.font_family@) > 120 || !is_density(
        request.density@,
    ) {
        Err(validation_error("template", "font or density is invalid"))
    } else if request.show_logo && (request.logo_object_key is None || request.logo_object_key->Some_0@.len()
        == 0) {
        Err(validation_error("logoObjectKey", "is required when showLogo is enabled"))
    } else {
        Ok(())
    }
}

fn blank(s: &str) -> (b: bool)
    ensures
        b == (trim(s@).len() == 0),
{
    let t = trimmed(s);
    t.as_str().is_empty()
}

pub fn validate_template_request(request: &PresentationTemplateRequest) -> (r: Result<(), AppError>)
    ensures
        r == template_request_check(request),
{
    if blank(request.name.as_str()) || request.name.as_str().as_bytes().len() > 120
        || request.description.as_str().as_bytes().len() > 500 {
        return Err(AppError::validation("name", "name and description are out of bounds"));
    }
    if !hex_color(request.background_color.as_str()) {
        return Err(AppError::validation("backgroundColor", "must be a six-digit hexadecimal color"));
    }
    if !hex_color(request.foreground_color.as_str()) {
        return Err(AppError::validation("foregroundColor", "must be a six-digit hexadecimal color"));
    }
    if !hex_color(request.accent_color.as_str()) {
        return Err(AppError::validation("accentColor", "must be a six-digit hexadecimal color"));
    }
    let density = request.density.as_str();
    if blank(request.font_family.as_str()) || request.font_family.as_str().as_bytes().len() > 120 || !(
    str_eq(density, "COMPACT") || str_eq(density, "COMFORTABLE") || str_eq(density, "SPACIOUS")) {
        return Err(AppError::validation("template", "font or density is invalid"));
    }
    if request.show_logo {
        let missing = match &request.logo_object_key {
            Some(key) => key.as_str().is_empty(),
            None => true,
        };
        if missing {
            return Err(AppError::validation("logoObjectKey", "is required when showLogo is enabled"));
        }
    }
    Ok(())
}

/// The label and expiry of a new broadcast token.
pub fn validate_broadcast_token(label: &str, expires_at: Timestamp, now: Timestamp) -> (r: Result<String, AppError>)
    ensures
        trim(label@).len() == 0 || trim(label@).len() > 120 ==> r == Err::<String, AppError>(
            validation_error("label", "must contain 1 to 120 characters"),
        ),
        !(trim(label@).len() == 0 || trim(label@).len() > 120) && expires_at.unix_nanos <= now.unix_nanos ==> r
            == Err::<String, AppError>(validation_error("expiresAt", "must be in the future")),
        !(trim(label@).len() == 0 || trim(label@).len() > 120) && expires_at.unix_nanos > now.unix_nanos ==> r is Ok
            && r->Ok_0@ == trim(label@),
{
    let trimmed_label = trimmed(label);
    let count = chars_of(trimmed_label.as_str()).len();
    if count == 0 || count > 120 {
        return Err(AppError::validation("label", "must contain 1 to 120 characters"));
    }
    if expires_at.unix_nanos <= now.unix_nanos {
        return Err(AppError::validation("expiresAt", "must be in the future"));
    }
    Ok(trimmed_label)
}

/// A token is usable only when it holds something besides white space.
pub fn supplied_token(token: Option<&str>) -> (r: Option<&str>)
    ensures
        r == match token {
            Some(t) => if trim(t@).len() == 0 {
                None
            } else {
                Some(t)
            },
            None => None,
        },
{
    match token {
        Some(t) => if blank(t) {
            None
        } else {
            Some(t)
        },
        None => None,
    }
}

/// The live program state an operator submits.
pub struct LiveProgramRequest {
    pub current_scene: String,
    pub resolver_run_id: Option<i64>,
    pub transition_milliseconds: i32,
    pub show_clock: bool,
    pub ticker_enabled: bool,
    pub title_card_text: Option<String>,
    pub expected_version: i64,
}

/// The title card text as stored: trimmed, absent when blank.
pub open spec fn normalized_title(text: Option<String>) -> Option<Seq<char>> {
    match text {
        Some(t) => if trim(t@).len() == 0 {
            None
        } else {
            Some(trim(t@))
        },
        None => None,
    }
}

/// The checks of a live program update, in order: scene, transition time of
/// 100 to 5000 ms, title card text of at most 240 characters once trimmed.
pub open spec fn program_request_check(request: &LiveProgramRequest) -> Result<(), AppError> {
    if live_scene(normalized_upper(request.current_scene@)) is None {
        Err(unsupported_scene_error())
    } else if !(100 <= request.transition_milliseconds <= 5000) {
        Err(validation_error("transitionMilliseconds", "must be between 100 and 5000"))
    } else if request.title_card_text is Some && trim(request.title_card_text->Some_0@).len() > 240 {
        Err(validation_error("titleCardText", "is too long"))
    } else {
        Ok(())
    }
}

pub fn validate_program_request(request: &LiveProgramRequest) -> (r: Result<(), AppError>)
    ensures
        r == program_request_check(request),
{
    validate_scene(request.current_scene.as_str())?;
    if !(100 <= request.transition_milliseconds && request.transition_milliseconds <= 5000) {
        return Err(AppError::validation("transitionMilliseconds", "must be between 100 and 5000"));
    }
    if let Some(text) = &request.title_card_text {
        let t = trimmed(text.as_str());
        if chars_of(t.as_str()).len() > 240 {
            return Err(AppError::validation("titleCardText", "is too long"));
        }
    }
    Ok(())
}

/// Stores the title card text trimmed, and drops it when blank.
pub fn normalize_title_card(text: Option<String>) -> (r: Option<String>)
    ensures
        match normalized_title(text) {
            Some(t) => r is Some && r->Some_0@ == t,
            None => r is None,
        },
{
    match text {
        Some(t) => {
            let v = trimmed(t.as_str());
            if v.as_str().is_empty() {
                None
            } else {
                Some(v)
            }
        },
        None => None,
    }
}

/// The live program of a contest.
pub struct LiveProgram {
    pub contest_id: i64,
    pub current_scene: String,
    pub resolver_run_id: Option<i64>,
    pub transition_milliseconds: i32,
    pub show_clock: bool,
    pub ticker_enabled: bool,
    pub title_card_text: Option<String>,
    pub version: i64,
    pub updated_at: Option<Timestamp>,
}

impl LiveProgram {
    /// The program of a contest that has never stored one: the scoreboard,
    /// 800 ms transitions, clock and ticker on, version 0.
    pub fn default_for(contest: i64) -> (p: LiveProgram)
        ensures
            p.contest_id == contest,
            p.current_scene@ == "SCOREBOARD"@,
            p.resolver_run_id is None,
            p.transition_milliseconds == 800,
            p.show_clock,
            p.ticker_enabled,
            p.title_card_text is None,
            p.version == 0,
            p.updated_at is None,
    {
        LiveProgram {
            contest_id: contest,
            current_scene: crate::text::owned("SCOREBOARD"),
            resolver_run_id: None,
            transition_milliseconds: 800,
            show_clock: true,
            ticker_enabled: true,
            title_card_text: None,
            version: 0,
            updated_at: None,
        }
    }
}

/// The resolver run a published program shows: the stored run while it is
/// an official run of the contest, otherwise the newest official run.
pub fn public_resolver_run(stored: Option<i64>, stored_is_official: bool, newest_official: Option<i64>) -> (r: Option<i64>)
    ensures
        r == if stored is Some && stored_is_official {
            stored
        } else {
            newest_official
        },
{
    match stored {
        Some(id) => if stored_is_official {
            Some(id)
        } else {
            newest_official
        },
        None => newest_official,
    }
}

/// A screen's registration request.
#[derive(Debug)]
pub struct RegisterRequest {
    pub contest_id: i64,
    pub name: String,
}

impl RegisterRequest {
    /// The registration's trimmed screen name, if the request is acceptable.
    pub fn validate(&self) -> (r: Result<String, AppError>)
        ensures
            self.contest_id <= 0 || trim(self.name@).len() == 0 || trim(self.name@).len() > 120
                ==> r == Err::<String, AppError>(registration_error()),
            !(self.contest_id <= 0 || trim(self.name@).len() == 0 || trim(self.name@).len() > 120)
                ==> (r matches Ok(n) && n@ == trim(self.name@)),
    {
        validate_registration(self.contest_id, self.name.as_str())
    }
}

/// A screen's periodic report of what it shows.
#[derive(Debug)]
pub struct HeartbeatRequest {
    pub client_token: String,
    pub current_view: String,
}

impl HeartbeatRequest {
    pub fn validate(&self) -> (r: Result<&'static str, AppError>)
        ensures
            screen_view(normalized_upper(self.current_view@)) is None ==> r == Err::<&'static str, AppError>(
                unsupported_view_error(),
            ),
            screen_view(normalized_upper(self.current_view@)) is Some ==> r == if self.client_token@.len()
                == 0 || vstd::utf8::encode_utf8(self.client_token@).len() > 256 {
                Err::<&'static str, AppError>(screen_token_error())
            } else {
                Ok(screen_view(normalized_upper(self.current_view@))->Some_0)
            },
    {
        validate_heartbeat(self.current_view.as_str(), self.client_token.as_str())
    }
}

/// An operator's command for a screen to show a view.
#[derive(Debug)]
pub struct CommandRequest {
    pub target_view: String,
}

impl CommandRequest {
    pub fn validate(&self) -> (r: Result<&'static str, AppError>)
        ensures
            r == match screen_view(normalized_upper(self.target_view@)) {
                Some(v) => Ok(v),
                None => Err(unsupported_view_error()),
            },
    {
        validate_view(self.target_view.as_str())
    }
}

/// The presentation mode a request names.
#[derive(Debug)]
pub struct ModeQuery {
    pub mode: String,
}

impl ModeQuery {
    pub fn validate(&self) -> (r: Result<&'static str, AppError>)
        ensures
            r == match presentation_mode(normalized_upper(self.mode@)) {
                Some(m) => Ok(m),
                None => Err(unsupported_mode_error()),
            },
    {
        validate_mode(self.mode.as_str())
    }
}

/// The mode a published presentation is read in.
#[derive(Debug)]
pub struct PublishedQuery {
    pub mode: String,
}

impl PublishedQuery {
    pub fn validate(&self) -> (r: Result<&'static str, AppError>)
        ensures
            r == match presentation_mode(normalized_upper(self.mode@)) {
                Some(m) => Ok(m),
                None => Err(unsupported_mode_error()),
            },
    {
        validate_mode(self.mode.as_str())
    }
}

pub open spec fn not_published_error() -> AppError {
    coded_error(ErrorKind::NotFound, "PRESENTATION_NOT_PUBLISHED", "Presentation is not published")
}

pub open spec fn broadcast_token_error() -> AppError {
    coded_error(ErrorKind::Unauthorized, "BROADCAST_TOKEN_INVALID", "Broadcast token is invalid")
}

/// The stored digest of a token's text.
pub open spec fn token_digest(token: Seq<char>) -> Seq<char> {
    crate::digest::hex_lower(crate::digest::sha256_digest(vstd::utf8::encode_utf8(token)))
}

/// The text of an optional token.
pub open spec fn token_text(token: Option<&str>) -> Option<Seq<char>> {
    match token {
        Some(t) => Some(t@),
        None => None,
    }
}

/// The text of an optional digest.
pub open spec fn digest_text(digest: Option<String>) -> Option<Seq<char>> {
    match digest {
        Some(d) => Some(d@),
        None => None,
    }
}

/// Who may read a published presentation: the mode must name SCREEN or
/// LIVE and the contest must be public; the screen mode is then open to
/// anyone, the live mode only to a token that holds something besides white
/// space, whose digest is the outcome for the store to look up.
pub open spec fn access_outcome(mode: Seq<char>, public: bool, token: Option<Seq<char>>) -> Result<Option<Seq<char>>, AppError> {
    match presentation_mode(normalized_upper(mode)) {
        None => Err(unsupported_mode_error()),
        Some(m) => if !public {
            Err(not_published_error())
        } else if m == "SCREEN" {
            Ok(None)
        } else {
            match token {
                Some(t) => if trim(t).len() == 0 {
                    Err(broadcast_token_error())
                } else {
                    Ok(Some(token_digest(t)))
                },
                None => Err(broadcast_token_error()),
            }
        },
    }
}

/// Who may read a published presentation. The mode is read ignoring
/// surrounding white space and ASCII case and must be SCREEN or LIVE; the
/// contest must be public; its screen mode is then open to anyone, its live
/// mode only to the holder of a broadcast token, whose digest is returned
/// for the store to check.
pub fn published_access(mode: &str, public: bool, token: Option<&str>) -> (r: Result<Option<String>, AppError>)
    ensures
        match access_outcome(mode@, public, token_text(token)) {
            Ok(d) => r matches Ok(x) && digest_text(x) == d,
            Err(e) => r == Err::<Option<String>, AppError>(e),
        },
{
    let normalized = validate_mode(mode)?;
    proof {
        reveal_strlit("SCREEN");
        reveal_strlit("LIVE");
        assert("SCREEN"@.len() != "LIVE"@.len());
    }
    if !public {
        return Err(AppError::not_found("PRESENTATION_NOT_PUBLISHED", "Presentation is not published"));
    }
    if !str_eq(normalized, "LIVE") {
        return Ok(None);
    }
    match token {
        Some(t) => {
            if trimmed(t).as_str().is_empty() {
                return Err(AppError::unauthorized("BROADCAST_TOKEN_INVALID", "Broadcast token is invalid"));
            }
            Ok(Some(token_hash(t)))
        },
        None => Err(AppError::unauthorized("BROADCAST_TOKEN_INVALID", "Broadcast token is invalid")),
    }
}

/// What becomes of a broadcast token that matched `rows_matched` live
/// (unrevoked, unexpired) tokens in the store.
pub open spec fn token_match_outcome(rows_matched: u64) -> Result<(), AppError> {
    if rows_matched == 1 {
        Ok(())
    } else {
        Err(broadcast_token_error())
    }
}

/// A broadcast token is accepted when exactly one live token matched it.
pub fn broadcast_token_outcome(rows_matched: u64) -> (r: Result<(), AppError>)
    ensures
        r == token_match_outcome(rows_matched),
{
    if rows_matched == 1 {
        Ok(())
    } else {
        Err(AppError::unauthorized("BROADCAST_TOKEN_INVALID", "Broadcast token is invalid"))
    }
}

/// Access to a published presentation: the request is checked, and where it
/// carries a token digest, the store's count of live tokens that match it
/// decides.
pub open spec fn presentation_access(mode: Seq<char>, public: bool, token: Option<Seq<char>>, rows_matched: u64) -> Result<(), AppError> {
    match access_outcome(mode, public, token) {
        Err(e) => Err(e),
        Ok(None) => Ok(()),
        Ok(Some(_)) => token_match_outcome(rows_matched),
    }
}

/// The live mode is read only by a public contest's audience with a token
/// that holds something besides white space and matched exactly one live
/// token in the store. Without a token, with a blank one, or with one that
/// matched none (revoked, expired or unknown), the answer is
/// BROADCAST_TOKEN_INVALID; a contest that is not public answers that it is
/// not published. The screen mode needs no token.
pub proof fn live_access_needs_a_matching_token(mode: Seq<char>, public: bool, token: Option<Seq<char>>, rows_matched: u64)
    requires
        presentation_mode(normalized_upper(mode)) is Some,
    ensures
        presentation_mode(normalized_upper(mode)) == Some("LIVE") ==> {
            &&& presentation_access(mode, public, token, rows_matched) is Ok <==> (public && token is Some
                && trim(token->0).len() > 0 && rows_matched == 1)
            &&& !public ==> presentation_access(mode, public, token, rows_matched) == Err::<(), AppError>(
                not_published_error(),
            )
            &&& public && !(token is Some && trim(token->0).len() > 0 && rows_matched == 1)
                ==> presentation_access(mode, public, token, rows_matched) == Err::<(), AppError>(
                broadcast_token_error(),
            )
        },
        presentation_mode(normalized_upper(mode)) == Some("SCREEN") ==> presentation_access(
            mode,
            public,
            token,
            rows_matched,
        ) == if public {
            Ok::<(), AppError>(())
        } else {
            Err(not_published_error())
        },
{
    reveal_strlit("SCREEN");
    reveal_strlit("LIVE");
    assert("SCREEN"@.len() != "LIVE"@.len());
}

/// A named count in the presentation metrics.
#[derive(Debug)]
pub struct CountByName {
    pub name: String,
    pub total: i64,
}

/// Balloon delivery counts shown on the live program.
#[derive(Debug)]
pub struct BalloonMetrics {
    pub total: i64,
    pub first_blood: i64,
    pub pending: i64,
    pub preparing: i64,
    pub delivering: i64,
    pub delivered: i64,
    pub cancelled: i64,
    pub colors: Vec<CountByName>,
}

pub open spec fn resolver_run_error() -> AppError {
    validation_error("resolverRunId", "must reference an official resolver run of this contest")
}

/// A live program may only point at an official resolver run of its
/// contest (`official` says whether the named run is one).
pub fn resolver_run_check(run_id: Option<i64>, official: bool) -> (r: Result<(), AppError>)
    ensures
        r == if run_id is Some && !official {
            Err(resolver_run_error())
        } else {
            Ok::<(), AppError>(())
        },
{
    match run_id {
        None => Ok(()),
        Some(_) => if official {
            Ok(())
        } else {
            Err(AppError::validation("resolverRunId", "must reference an official resolver run of this contest"))
        },
    }
}

pub open spec fn live_program_conflict_error() -> AppError {
    coded_error(ErrorKind::Conflict, "LIVE_PROGRAM_VERSION_CONFLICT", "Live program was changed")
}

/// A live program update is stored only on the version it was based on;
/// `saved` says whether the versioned write matched.
pub fn live_program_saved(saved: bool) -> (r: Result<(), AppError>)
    ensures
        r == if saved {
            Ok::<(), AppError>(())
        } else {
            Err(live_program_conflict_error())
        },
{
    if saved {
        Ok(())
    } else {
        Err(AppError::conflict("LIVE_PROGRAM_VERSION_CONFLICT", "Live program was changed"))
    }
}

pub open spec fn screen_instance_not_found_error() -> AppError {
    coded_error(ErrorKind::NotFound, "SCREEN_INSTANCE_NOT_FOUND", "Screen instance was not found")
}

/// A command or revocation needs exactly one live screen instance of the
/// contest (`matched` is how many the store found).
pub fn screen_instance_found(matched: u64) -> (r: Result<(), AppError>)
    ensures
        r == if matched == 1 {
            Ok::<(), AppError>(())
        } else {
            Err(screen_instance_not_found_error())
        },
{
    if matched == 1 {
        Ok(())
    } else {
        Err(AppError::not_found("SCREEN_INSTANCE_NOT_FOUND", "Screen instance was not found"))
    }
}

pub open spec fn broadcast_token_not_found_error() -> AppError {
    coded_error(ErrorKind::NotFound, "BROADCAST_TOKEN_NOT_FOUND", "Broadcast token was not found")
}

/// Revoking a broadcast token needs exactly one token of the contest.
pub fn broadcast_token_revoked(matched: u64) -> (r: Result<(), AppError>)
    ensures
        r == if matched == 1 {
            Ok::<(), AppError>(())
        } else {
            Err(broadcast_token_not_found_error())
        },
{
    if matched == 1 {
        Ok(())
    } else {
        Err(AppError::not_found("BROADCAST_TOKEN_NOT_FOUND", "Broadcast token was not found"))
    }
}

/// A presentation config may name a custom template only if it exists.
pub fn custom_template_exists(template_exists: bool) -> (r: Result<(), AppError>)
    ensures
        r == if template_exists {
            Ok::<(), AppError>(())
        } else {
            Err(coded_error(ErrorKind::NotFound, "PRESENTATION_TEMPLATE_NOT_FOUND", "Custom template not found"))
        },
{
    if template_exists {
        Ok(())
    } else {
        Err(AppError::not_found("PRESENTATION_TEMPLATE_NOT_FOUND", "Custom template not found"))
    }
}

/// An updated template must exist.
pub fn template_found(found: bool) -> (r: Result<(), AppError>)
    ensures
        r == if found {
            Ok::<(), AppError>(())
        } else {
            Err(coded_error(ErrorKind::NotFound, "PRESENTATION_TEMPLATE_NOT_FOUND", "Template not found"))
        },
{
    if found {
        Ok(())
    } else {
        Err(AppError::not_found("PRESENTATION_TEMPLATE_NOT_FOUND", "Template not found"))
    }
}

} // verus!
