use supabase_migrate::handlers::auth::signout_handler::{signout_begin, signout_handler, signout_removed, SignoutStep, Status};
use supabase_migrate::handlers::auth::status_handler::{status_handler, status_reply};
use supabase_migrate::handlers::oauth::callback_handler::{callback_begin, callback_exchanged, callback_handler, callback_stored, error_redirect, success_redirect, CallbackFailure, CallbackStep, ExchangeStep, TOKEN_ENDPOINT};
use supabase_migrate::handlers::oauth::login_handler::{login_begin, login_handler, login_plan, login_stored, AUTHORIZE_ENDPOINT};
use supabase_migrate::models::app_config::{AppConfig, AppState};
use supabase_migrate::models::oauth::{CallbackParams, OAuthSessionData, TokenResponse};
use supabase_migrate::session::{SessionRead, SessionRecord};
use supabase_migrate::upstream::HttpOutcome;

fn state() -> AppState {
    AppState {
        config: AppConfig {
            client_id: "client-1".to_string(),
            client_secret: "SECRET-REDACTED".to_string(),
            redirect_url: "http://localhost:3000/connect-supabase/oauth2/callback".to_string(),
            client_addr: "http://localhost:5173".to_string(),
            server_addr: "0.0.0.0:3000".to_string(),
        },
    }
}

fn params(code: &str, state: &str) -> CallbackParams {
    CallbackParams { code: code.to_string(), state: state.to_string() }
}

fn granted(body: &str) -> HttpOutcome {
    HttpOutcome::Replied { status: 200, body: Some(body.to_string()) }
}

fn rejected(status: u16) -> HttpOutcome {
    HttpOutcome::Replied { status, body: Some("denied".to_string()) }
}

fn session_with(pkce: Option<&str>, csrf: Option<&str>) -> SessionRecord {
    let mut session = SessionRecord::new();
    session.oauth_data = Some(OAuthSessionData {
        pkce_verifier_secret: pkce.map(str::to_string),
        csrf_token_secret: csrf.map(str::to_string),
    });
    session
}

fn is_url_safe(text: &str) -> bool {
    text.chars().all(|c| c.is_ascii_alphanumeric() || c == '-' || c == '_')
}

#[test]
fn happy_path_login() {
    let app = state();
    let mut session = SessionRecord::new();
    let url = login_handler(&app, &mut session).expect("an authorization address");
    let data = session.oauth_data.clone().expect("login data in the session");
    let csrf = data.csrf_token_secret.clone().expect("a token");
    assert!(url.contains(&format!("state={csrf}")));

    let reply = granted(r#"{"access_token":"T","refresh_token":"R"}"#);
    let redirect = callback_handler(&params("code-1", &csrf), &app, &mut session, reply);
    assert_eq!(redirect, "http://localhost:5173/auth?status=success");
    assert_eq!(session.supabase_access_token.as_deref(), Some("T"));
    assert!(session.oauth_data.is_none());
    assert_eq!(status_handler(&app, &session), "true");
}

#[test]
fn csrf_mismatch() {
    let app = state();
    let mut session = session_with(Some("verifier"), Some("Y"));
    let reply = granted(r#"{"access_token":"T"}"#);
    let redirect = callback_handler(&params("code-1", "X"), &app, &mut session, reply);
    assert_eq!(redirect, "http://localhost:5173/auth?status=error&reason=csrf_mismatch");
    assert!(session.supabase_access_token.is_none());
    assert!(session.oauth_data.is_none());
}

#[test]
fn replay_attack() {
    let app = state();
    let mut session = session_with(Some("verifier"), Some("S"));
    let first = callback_handler(
        &params("code-1", "S"),
        &app,
        &mut session,
        granted(r#"{"access_token":"T"}"#),
    );
    assert_eq!(first, "http://localhost:5173/auth?status=success");
    let second = callback_handler(
        &params("code-1", "S"),
        &app,
        &mut session,
        granted(r#"{"access_token":"U"}"#),
    );
    assert_eq!(second, "http://localhost:5173/auth?status=error&reason=no_session_data");
    assert_eq!(session.supabase_access_token.as_deref(), Some("T"));
}

#[test]
fn failed_callback_consumes_the_login_data_and_keeps_the_token() {
    let app = state();
    let outcomes = [
        (HttpOutcome::TransportFailed("connection refused".to_string()), "token_exchange_failed"),
        (rejected(400), "bad_request"),
        (rejected(401), "unauthorized"),
        (rejected(403), "forbidden"),
        (rejected(500), "token_exchange_error"),
        (rejected(199), "token_exchange_error"),
        (rejected(300), "token_exchange_error"),
        (granted("not json"), "token_parse_error"),
        (granted(r#"{"refresh_token":"R"}"#), "token_parse_error"),
        (granted(r#"{"access_token":5}"#), "token_parse_error"),
        (granted(r#"{"access_token":"T","refresh_token":5}"#), "token_parse_error"),
        (granted(r#"["access_token"]"#), "token_parse_error"),
        (HttpOutcome::Replied { status: 200, body: None }, "token_parse_error"),
    ];
    for (outcome, reason) in outcomes {
        let mut session = session_with(Some("verifier"), Some("S"));
        session.supabase_access_token = Some("old".to_string());
        session.auth = Some("{}".to_string());
        let redirect = callback_handler(&params("c", "S"), &app, &mut session, outcome);
        assert_eq!(redirect, format!("http://localhost:5173/auth?status=error&reason={reason}"));
        assert!(session.oauth_data.is_none());
        assert_eq!(session.supabase_access_token.as_deref(), Some("old"));
        assert_eq!(session.auth.as_deref(), Some("{}"));
    }
}

#[test]
fn callback_succeeds_on_every_success_status() {
    let app = state();
    for status in [200u16, 201, 204, 299] {
        let mut session = session_with(Some("verifier"), Some("S"));
        let outcome = HttpOutcome::Replied {
            status,
            body: Some(r#"{"access_token":"T","refresh_token":null,"expires_in":3600}"#.to_string()),
        };
        let redirect = callback_handler(&params("c", "S"), &app, &mut session, outcome);
        assert_eq!(redirect, "http://localhost:5173/auth?status=success");
        assert_eq!(session.supabase_access_token.as_deref(), Some("T"));
    }
}

#[test]
fn callback_without_verifier_or_token_fails() {
    let app = state();
    let mut session = session_with(None, Some("S"));
    let redirect = callback_handler(&params("c", "S"), &app, &mut session, granted("{}"));
    assert_eq!(redirect, "http://localhost:5173/auth?status=error&reason=no_pkce");
    assert!(session.oauth_data.is_none());

    let mut session = session_with(Some("v"), None);
    let redirect = callback_handler(&params("c", "S"), &app, &mut session, granted("{}"));
    assert_eq!(redirect, "http://localhost:5173/auth?status=error&reason=no_csrf");
    assert!(session.oauth_data.is_none());

    let mut session = session_with(None, None);
    let redirect = callback_handler(&params("c", "S"), &app, &mut session, granted("{}"));
    assert_eq!(redirect, "http://localhost:5173/auth?status=error&reason=no_pkce");
}

#[test]
fn callback_begin_decides_on_what_was_read() {
    let config = state().config;
    let plan = callback_begin(&config, &params("c", "S"), SessionRead::Failed);
    assert!(!plan.remove_oauth_data);
    let CallbackStep::Redirect(url) = plan.step else {
        panic!("a redirect");
    };
    assert_eq!(url, "http://localhost:5173/auth?status=error&reason=session_error");

    let plan = callback_begin(&config, &params("c", "S"), SessionRead::Absent);
    assert!(!plan.remove_oauth_data);
    let CallbackStep::Redirect(url) = plan.step else {
        panic!("a redirect");
    };
    assert_eq!(url, "http://localhost:5173/auth?status=error&reason=no_session_data");

    let data = OAuthSessionData {
        pkce_verifier_secret: Some("the-verifier".to_string()),
        csrf_token_secret: Some("S".to_string()),
    };
    let plan = callback_begin(&config, &params("the-code", "S"), SessionRead::Present(data));
    assert!(plan.remove_oauth_data);
    let CallbackStep::Exchange(request) = plan.step else {
        panic!("an exchange");
    };
    assert_eq!(request.url, "https://api.supabase.com/v1/oauth/token");
    assert_eq!(request.url, TOKEN_ENDPOINT);
    let form: Vec<(&str, &str)> =
        request.form.iter().map(|(k, v)| (k.as_str(), v.as_str())).collect();
    assert_eq!(
        form,
        vec![
            ("client_id", "client-1"),
            ("client_secret", "SECRET-REDACTED"),
            ("code", "the-code"),
            ("code_verifier", "the-verifier"),
            ("grant_type", "authorization_code"),
            ("redirect_uri", "http://localhost:3000/connect-supabase/oauth2/callback"),
        ]
    );

    let data = OAuthSessionData {
        pkce_verifier_secret: Some("the-verifier".to_string()),
        csrf_token_secret: Some("S".to_string()),
    };
    let plan = callback_begin(&config, &params("the-code", "s"), SessionRead::Present(data));
    assert!(plan.remove_oauth_data);
    assert!(matches!(plan.step, CallbackStep::Redirect(_)));
}

#[test]
fn callback_exchanged_hands_on_the_grant() {
    let config = state().config;
    let step = callback_exchanged(&config, granted(r#"{"access_token":"T","refresh_token":"R"}"#));
    let ExchangeStep::Store(token) = step else {
        panic!("a grant");
    };
    assert_eq!(token.access_token, "T");
    assert_eq!(token.refresh_token.as_deref(), Some("R"));
    let step = callback_exchanged(&config, rejected(401));
    let ExchangeStep::Redirect(url) = step else {
        panic!("a redirect");
    };
    assert_eq!(url, "http://localhost:5173/auth?status=error&reason=unauthorized");
}

#[test]
fn callback_stored_reports_a_store_failure() {
    let config = state().config;
    assert_eq!(callback_stored(&config, true), "http://localhost:5173/auth?status=success");
    assert_eq!(
        callback_stored(&config, false),
        "http://localhost:5173/auth?status=error&reason=session_store_error"
    );
}

#[test]
fn every_failure_has_its_reason() {
    let all = [
        (CallbackFailure::SessionError, "session_error"),
        (CallbackFailure::NoSessionData, "no_session_data"),
        (CallbackFailure::NoPkce, "no_pkce"),
        (CallbackFailure::NoCsrf, "no_csrf"),
        (CallbackFailure::CsrfMismatch, "csrf_mismatch"),
        (CallbackFailure::TokenExchangeFailed, "token_exchange_failed"),
        (CallbackFailure::BadRequest, "bad_request"),
        (CallbackFailure::Unauthorized, "unauthorized"),
        (CallbackFailure::Forbidden, "forbidden"),
        (CallbackFailure::TokenExchangeError, "token_exchange_error"),
        (CallbackFailure::TokenParseError, "token_parse_error"),
        (CallbackFailure::SessionStoreError, "session_store_error"),
    ];
    for (failure, reason) in all {
        assert_eq!(failure.reason(), reason);
        assert_eq!(error_redirect("X", failure), format!("X/auth?status=error&reason={reason}"));
    }
    assert_eq!(success_redirect("X"), "X/auth?status=success");
}

#[test]
fn token_response_is_read_from_json() {
    let t = TokenResponse::from_json(r#"{"access_token":"T","refresh_token":"R","x":1}"#)
        .expect("a grant");
    assert_eq!(t.access_token, "T");
    assert_eq!(t.refresh_token.as_deref(), Some("R"));
    let t = TokenResponse::from_json(r#"{"access_token":"T"}"#).expect("a grant");
    assert_eq!(t.refresh_token, None);
    assert!(TokenResponse::from_json(r#"{"access_token":null}"#).is_none());
    assert!(TokenResponse::from_json("").is_none());
}

#[test]
fn login_generates_fresh_url_safe_secrets() {
    let config = state().config;
    let first = login_begin(&config).expect("a plan");
    let second = login_begin(&config).expect("a plan");
    let verifier = first.session_data.pkce_verifier_secret.clone().expect("a verifier");
    let csrf = first.session_data.csrf_token_secret.clone().expect("a token");
    assert_eq!(verifier.chars().count(), 43);
    assert_eq!(csrf.chars().count(), 22);
    assert!(is_url_safe(&verifier));
    assert!(is_url_safe(&csrf));
    assert_ne!(first.session_data.pkce_verifier_secret, second.session_data.pkce_verifier_secret);
    assert_ne!(first.session_data.csrf_token_secret, second.session_data.csrf_token_secret);

    let challenge = oauth2::PkceCodeChallenge::from_code_verifier_sha256(
        &oauth2::PkceCodeVerifier::new(verifier.clone()),
    );
    assert_ne!(challenge.as_str(), verifier);
    let expected = format!(
        "https://api.supabase.com/v1/oauth/authorize?client_id=client-1&redirect_uri=http%3A%2F%2Flocalhost%3A3000%2Fconnect-supabase%2Foauth2%2Fcallback&response_type=code&state={}&code_challenge={}&code_challenge_method=S256",
        csrf,
        challenge.as_str()
    );
    assert_eq!(first.redirect, expected);
}

#[test]
fn login_plan_builds_the_authorization_address() {
    let config = state().config;
    let plan = login_plan(&config, "CH".to_string(), "VER".to_string(), "a b&c".to_string())
        .expect("a plan");
    assert_eq!(
        plan.redirect,
        "https://api.supabase.com/v1/oauth/authorize?client_id=client-1&redirect_uri=http%3A%2F%2Flocalhost%3A3000%2Fconnect-supabase%2Foauth2%2Fcallback&response_type=code&state=a+b%26c&code_challenge=CH&code_challenge_method=S256"
    );
    assert!(plan.redirect.starts_with(AUTHORIZE_ENDPOINT));
    assert_eq!(plan.session_data.pkce_verifier_secret.as_deref(), Some("VER"));
    assert_eq!(plan.session_data.csrf_token_secret.as_deref(), Some("a b&c"));
}

#[test]
fn login_replaces_earlier_login_data_and_keeps_the_rest() {
    let app = state();
    let mut session = session_with(Some("old-verifier"), Some("old-token"));
    session.supabase_access_token = Some("T".to_string());
    session.auth = Some("{}".to_string());
    login_handler(&app, &mut session).expect("an authorization address");
    let data = session.oauth_data.expect("login data");
    assert_ne!(data.pkce_verifier_secret.as_deref(), Some("old-verifier"));
    assert_ne!(data.csrf_token_secret.as_deref(), Some("old-token"));
    assert_eq!(session.supabase_access_token.as_deref(), Some("T"));
    assert_eq!(session.auth.as_deref(), Some("{}"));
}

#[test]
fn login_stored_reports_a_store_failure() {
    assert_eq!(login_stored("u".to_string(), true), Ok("u".to_string()));
    assert_eq!(login_stored("u".to_string(), false), Err(Status::InternalServerError));
}

#[test]
fn status_reports_whether_a_token_is_held() {
    let app = state();
    let mut session = SessionRecord::new();
    assert_eq!(status_handler(&app, &session), "false");
    session.supabase_access_token = Some("T".to_string());
    assert_eq!(status_handler(&app, &session), "true");
    assert_eq!(status_reply(&SessionRead::Present("T".to_string())), "true");
    assert_eq!(status_reply(&SessionRead::Absent), "false");
    assert_eq!(status_reply(&SessionRead::Failed), "false");
}

#[test]
fn signout_removes_the_token() {
    let app = state();
    let mut session = SessionRecord::new();
    session.supabase_access_token = Some("T".to_string());
    session.auth = Some("{}".to_string());
    assert_eq!(signout_handler(&app, &mut session), Status::Success);
    assert!(session.supabase_access_token.is_none());
    assert_eq!(session.auth.as_deref(), Some("{}"));
    assert_eq!(status_handler(&app, &session), "false");
    assert_eq!(signout_handler(&app, &mut session), Status::BadRequest);
    assert!(session.supabase_access_token.is_none());
}

#[test]
fn signout_steps_and_status_codes() {
    assert_eq!(signout_begin(&SessionRead::Present("T".to_string())), SignoutStep::RemoveToken);
    assert_eq!(signout_begin(&SessionRead::Absent), SignoutStep::Reply(Status::BadRequest));
    assert_eq!(
        signout_begin(&SessionRead::Failed),
        SignoutStep::Reply(Status::InternalServerError)
    );
    assert_eq!(signout_removed(true), Status::Success);
    assert_eq!(signout_removed(false), Status::InternalServerError);
    assert_eq!(Status::Success.code(), 200);
    assert_eq!(Status::BadRequest.code(), 400);
    assert_eq!(Status::InternalServerError.code(), 500);
}

#[test]
fn token_is_set_after_login_until_signout() {
    let app = state();
    let mut session = session_with(Some("v"), Some("S"));
    assert_eq!(status_handler(&app, &session), "false");
    callback_handler(&params("c", "S"), &app, &mut session, rejected(500));
    assert_eq!(status_handler(&app, &session), "false");
    session.oauth_data = session_with(Some("v"), Some("S")).oauth_data;
    callback_handler(&params("c", "S"), &app, &mut session, granted(r#"{"access_token":"T"}"#));
    assert_eq!(status_handler(&app, &session), "true");
    signout_handler(&app, &mut session);
    assert_eq!(status_handler(&app, &session), "false");
}
