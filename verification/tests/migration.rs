use supabase_migrate::handlers::migrate::migrate_handler::{migrate_complete, migrate_handler, migrate_request};
use supabase_migrate::handlers::migrate::preview_handler::{diff_configs, mgmt_api_get, mgmt_api_request, preview_handler, preview_requests, process_config_diffs, PreviewQuery};
use supabase_migrate::handlers::migrate::project_list_handler::{project_list_handler, project_list_reply, project_list_request};
use supabase_migrate::json::{parse_array, JsonDocument};
use supabase_migrate::models::app_config::{AppConfig, AppState};
use supabase_migrate::models::migrate::{MigrateProjectStruct, Project, ProjectDiffEntry, ProjectDiffs};
use supabase_migrate::session::{SessionRead, SessionRecord};
use supabase_migrate::upstream::{authorize, ApiMethod, HttpOutcome, API_BASE, UNAUTHORIZED};

fn state() -> AppState {
    AppState {
        config: AppConfig {
            client_id: "client-1".to_string(),
            client_secret: "SECRET-REDACTED".to_string(),
            redirect_url: "http://localhost:3000/callback".to_string(),
            client_addr: "http://localhost:5173".to_string(),
            server_addr: "0.0.0.0:3000".to_string(),
        },
    }
}

fn ok(body: &str) -> HttpOutcome {
    HttpOutcome::Replied { status: 200, body: Some(body.to_string()) }
}

fn failed() -> HttpOutcome {
    HttpOutcome::TransportFailed("connection refused".to_string())
}

fn query(auth: bool) -> PreviewQuery {
    PreviewQuery {
        source_id: "S".to_string(),
        dest_id: "D".to_string(),
        auth,
        postgrest: true,
        edge_functions: false,
        secrets: true,
        postgres: false,
    }
}

fn commit(auth: bool) -> MigrateProjectStruct {
    MigrateProjectStruct {
        dest_id: "D".to_string(),
        auth,
        postgrest: false,
        edge_functions: true,
        secrets: false,
        postgres: true,
    }
}

fn signed_in() -> SessionRecord {
    let mut session = SessionRecord::new();
    session.supabase_access_token = Some("T".to_string());
    session
}

fn entry(key: &str, source_value: &str, dest_value: &str) -> ProjectDiffEntry {
    ProjectDiffEntry {
        key: key.to_string(),
        source_value: source_value.to_string(),
        dest_value: dest_value.to_string(),
    }
}

const SOURCE: &str =
    r#"{"site_url":"a","jwt_exp":3600,"smtp_host":"h","smtp_sender_name":"n","extra":{"x":1}}"#;
const DEST: &str = r#"{"site_url":"b","disable_signup":true,"smtp_host":null}"#;

#[test]
fn preview_then_migrate() {
    let app = state();
    let mut session = signed_in();
    let reply = preview_handler(&app, &query(true), &mut session, ok(SOURCE), ok(DEST))
        .expect("a preview");
    assert_eq!(
        reply.configs,
        vec![ProjectDiffs {
            name: "Auth".to_string(),
            diffs: vec![
                entry("disable_signup", "", "true"),
                entry("jwt_exp", "3600", ""),
                entry("site_url", "a", "b"),
                entry("smtp_host", "h", ""),
                entry("smtp_sender_name", "n", ""),
            ],
        }]
    );
    assert_eq!(session.auth.as_deref(), Some(SOURCE));

    let request = migrate_request(
        &commit(true),
        &"T".to_string(),
        SessionRead::Present(session.auth.clone().expect("a kept configuration")),
    )
    .expect("a request");
    assert_eq!(request.method, ApiMethod::Patch);
    assert_eq!(request.url, "https://api.supabase.com/v1/projects/D/config/auth");
    assert_eq!(request.authorization, "Bearer T");
    assert_eq!(request.body.as_deref(), Some(r#"{"jwt_exp":3600,"site_url":"a"}"#));

    let first = migrate_handler(&app, &commit(true), &mut session, ok(""));
    assert_eq!(first, Ok(String::new()));
    assert!(session.auth.is_none());
    assert_eq!(session.supabase_access_token.as_deref(), Some("T"));

    let second = migrate_handler(&app, &commit(true), &mut session, ok(""));
    assert_eq!(second, Err("Error getting Auth config from session".to_string()));
}

#[test]
fn diff_scenario_through_the_pipeline() {
    let (diffs, kept) = diff_configs(
        ok(r#"{"site_url":"a","jwt_exp":3600}"#),
        ok(r#"{"site_url":"b","disable_signup":true}"#),
    )
    .expect("a diff");
    assert_eq!(diffs.name, "Auth");
    assert_eq!(
        diffs.diffs,
        vec![
            entry("disable_signup", "", "true"),
            entry("jwt_exp", "3600", ""),
            entry("site_url", "a", "b"),
        ]
    );
    assert_eq!(kept, r#"{"site_url":"a","jwt_exp":3600}"#);
}

#[test]
fn preview_needs_a_token() {
    let app = state();
    let mut session = SessionRecord::new();
    let reply = preview_handler(&app, &query(true), &mut session, ok(SOURCE), ok(DEST));
    assert_eq!(reply.err(), Some("Management API is Unauthorized".to_string()));
    assert!(session.auth.is_none());
}

#[test]
fn preview_without_auth_fetches_nothing() {
    let app = state();
    let mut session = signed_in();
    let reply = preview_handler(&app, &query(false), &mut session, failed(), failed())
        .expect("a preview");
    assert!(reply.configs.is_empty());
    assert!(session.auth.is_none());
}

#[test]
fn preview_reports_each_failure() {
    let app = state();
    let cases = [
        (failed(), ok(DEST), "Error fetching source auth config"),
        (
            HttpOutcome::Replied { status: 200, body: None },
            ok(DEST),
            "Error fetching source auth config",
        ),
        (ok(SOURCE), failed(), "Error fetching destination auth config"),
        (
            HttpOutcome::Replied { status: 404, body: Some("{}".to_string()) },
            ok(DEST),
            "Error parsing source auth config",
        ),
        (ok("[]"), ok(DEST), "Error parsing source auth config"),
        (ok(r#"{"jwt_exp":"x"}"#), ok(DEST), "Error parsing source auth config"),
        (
            ok(SOURCE),
            HttpOutcome::Replied { status: 500, body: Some(DEST.to_string()) },
            "Error parsing destination auth config",
        ),
        (ok(SOURCE), ok("nonsense"), "Error parsing destination auth config"),
    ];
    for (source, dest, message) in cases {
        let mut session = signed_in();
        session.auth = Some("kept".to_string());
        let reply = preview_handler(&app, &query(true), &mut session, source, dest);
        assert_eq!(reply.err(), Some(message.to_string()));
        assert_eq!(session.auth.as_deref(), Some("kept"));
    }
}

#[test]
fn process_config_diffs_appends_and_keeps_the_source() {
    let mut session = signed_in();
    let mut list = vec![ProjectDiffs { name: "Earlier".to_string(), diffs: vec![] }];
    let r = process_config_diffs(&mut session, ok(r#"{"jwt_exp":1}"#), ok("{}"), &mut list);
    assert_eq!(r, Ok(String::new()));
    assert_eq!(list.len(), 2);
    assert_eq!(list[0].name, "Earlier");
    assert_eq!(list[1].name, "Auth");
    assert_eq!(list[1].diffs, vec![entry("jwt_exp", "1", "")]);
    assert_eq!(session.auth.as_deref(), Some(r#"{"jwt_exp":1}"#));

    let r = process_config_diffs(&mut session, failed(), ok("{}"), &mut list);
    assert_eq!(r, Err("Error fetching source auth config".to_string()));
    assert_eq!(list.len(), 2);
    assert_eq!(session.auth.as_deref(), Some(r#"{"jwt_exp":1}"#));
}

#[test]
fn preview_requests_name_both_tenants() {
    let (source, dest) = preview_requests(&query(true), &"T".to_string());
    assert_eq!(source.method, ApiMethod::Get);
    assert_eq!(source.url, "https://api.supabase.com/v1/projects/S/config/auth");
    assert_eq!(source.authorization, "Bearer T");
    assert_eq!(source.body, None);
    assert_eq!(dest.url, "https://api.supabase.com/v1/projects/D/config/auth");
    assert_eq!(dest.authorization, "Bearer T");
    let r = mgmt_api_request(&"tok".to_string(), "/projects".to_string());
    assert_eq!(r.url, format!("{API_BASE}/projects"));
    assert_eq!(r.authorization, "Bearer tok");
}

#[test]
fn mgmt_api_get_embeds_http_errors_in_the_text() {
    assert_eq!(mgmt_api_get(ok("body")), Ok("body".to_string()));
    assert_eq!(
        mgmt_api_get(HttpOutcome::Replied { status: 299, body: Some("b".to_string()) }),
        Ok("b".to_string())
    );
    assert_eq!(
        mgmt_api_get(HttpOutcome::Replied { status: 404, body: Some("gone".to_string()) }),
        Ok("HTTP error - gone".to_string())
    );
    assert_eq!(
        mgmt_api_get(HttpOutcome::Replied { status: 300, body: Some(String::new()) }),
        Ok("HTTP error - ".to_string())
    );
    assert_eq!(mgmt_api_get(failed()), Err("Error getting response from API".to_string()));
    assert_eq!(
        mgmt_api_get(HttpOutcome::Replied { status: 200, body: None }),
        Err("Error reading response body as text".to_string())
    );
}

#[test]
fn migrate_needs_a_token() {
    let app = state();
    let mut session = SessionRecord::new();
    session.auth = Some(SOURCE.to_string());
    let r = migrate_handler(&app, &commit(true), &mut session, ok(""));
    assert_eq!(r, Err("Management API is Unauthorized".to_string()));
    assert_eq!(session.auth.as_deref(), Some(SOURCE));
}

#[test]
fn migrate_without_auth_does_nothing() {
    let app = state();
    let mut session = signed_in();
    session.auth = Some(SOURCE.to_string());
    let r = migrate_handler(&app, &commit(false), &mut session, failed());
    assert_eq!(r, Ok(String::new()));
    assert_eq!(session.auth.as_deref(), Some(SOURCE));
}

#[test]
fn migrate_keeps_what_it_cannot_read() {
    let app = state();
    let mut session = signed_in();
    session.auth = Some("HTTP error - nope".to_string());
    let r = migrate_handler(&app, &commit(true), &mut session, ok(""));
    assert_eq!(r, Err("Error parsing session auth config".to_string()));
    assert_eq!(session.auth.as_deref(), Some("HTTP error - nope"));
    session.auth = Some(r#"{"jwt_exp":true}"#.to_string());
    let r = migrate_handler(&app, &commit(true), &mut session, ok(""));
    assert_eq!(r, Err("Error parsing session auth config".to_string()));
}

#[test]
fn migrate_clears_the_slot_whatever_the_destination_answers() {
    let app = state();
    let cases = [
        (
            HttpOutcome::Replied { status: 400, body: Some("bad".to_string()) },
            "Error migrating auth config".to_string(),
        ),
        (
            HttpOutcome::Replied { status: 500, body: None },
            "Error migrating auth config".to_string(),
        ),
        (failed(), "Error sending patch request: connection refused".to_string()),
    ];
    for (outcome, message) in cases {
        let mut session = signed_in();
        session.auth = Some(SOURCE.to_string());
        let r = migrate_handler(&app, &commit(true), &mut session, outcome);
        assert_eq!(r, Err(message));
        assert!(session.auth.is_none());
    }
    assert_eq!(migrate_complete(ok("")), Ok(String::new()));
    assert_eq!(
        migrate_complete(HttpOutcome::Replied { status: 204, body: None }),
        Ok(String::new())
    );
}

#[test]
fn migrate_request_keeps_complete_smtp() {
    let kept = r#"{"smtp_admin_email":"a@b.c","smtp_host":"h","smtp_port":25,"smtp_user":"u","smtp_pass":"p","smtp_sender_name":"n","rate_limit_email_sent":3}"#;
    let request =
        migrate_request(&commit(true), &"T".to_string(), SessionRead::Present(kept.to_string()))
            .expect("a request");
    assert_eq!(
        request.body.as_deref(),
        Some(
            r#"{"rate_limit_email_sent":3,"smtp_admin_email":"a@b.c","smtp_host":"h","smtp_pass":"p","smtp_port":25,"smtp_sender_name":"n","smtp_user":"u"}"#
        )
    );
    let none = migrate_request(&commit(true), &"T".to_string(), SessionRead::Absent);
    assert_eq!(none.err(), Some("Error getting Auth config from session".to_string()));
    let none = migrate_request(&commit(true), &"T".to_string(), SessionRead::Failed);
    assert_eq!(none.err(), Some("Error getting Auth config from session".to_string()));
}

#[test]
fn authorize_needs_a_token_that_was_read() {
    assert_eq!(authorize(SessionRead::Present("T".to_string())), Ok("T".to_string()));
    assert_eq!(authorize(SessionRead::Absent), Err(UNAUTHORIZED.to_string()));
    assert_eq!(authorize(SessionRead::Failed), Err("Management API is Unauthorized".to_string()));
}

#[test]
fn projects_are_listed() {
    let app = state();
    let body = r#"[{"id":"p1","name":"One","region":"eu","status":"ACTIVE_HEALTHY","created_at":"x"},{"status":"PAUSED","region":"us","name":"Two","id":"p2"}]"#;
    let list = project_list_handler(&app, &signed_in(), ok(body)).expect("a list");
    assert_eq!(
        list,
        vec![
            Project {
                id: "p1".to_string(),
                name: "One".to_string(),
                region: "eu".to_string(),
                status: "ACTIVE_HEALTHY".to_string(),
            },
            Project {
                id: "p2".to_string(),
                name: "Two".to_string(),
                region: "us".to_string(),
                status: "PAUSED".to_string(),
            },
        ]
    );
    assert_eq!(project_list_reply(ok("[]")), Ok(vec![]));
    let request = project_list_request(&"T".to_string());
    assert_eq!(request.url, "https://api.supabase.com/v1/projects");
    assert_eq!(request.method, ApiMethod::Get);
}

#[test]
fn project_list_reports_each_failure() {
    let app = state();
    let r = project_list_handler(&app, &SessionRecord::new(), ok("[]"));
    assert_eq!(r, Err("Management API is Unauthorized".to_string()));
    let r = project_list_handler(&app, &signed_in(), failed());
    assert_eq!(r, Err("Error getting response from API".to_string()));
    for body in [r#"{"id":"p"}"#, "nonsense", r#"[{"id":"p"}]"#, "[1]", r#"[{"id":1,"name":"n","region":"r","status":"s"}]"#] {
        let r = project_list_handler(&app, &signed_in(), ok(body));
        assert_eq!(r, Err("Error getting Projects".to_string()));
    }
    let r = project_list_reply(HttpOutcome::Replied { status: 200, body: None });
    assert_eq!(r, Err("Error getting Projects".to_string()));
}

#[test]
fn arrays_are_read_item_by_item() {
    let items = parse_array(r#"[{"a":1},2,[3],{"b":null}]"#).expect("an array");
    assert_eq!(items.len(), 4);
    assert!(matches!(items[0], JsonDocument::Object(_)));
    assert_eq!(items[1], JsonDocument::Other);
    assert_eq!(items[2], JsonDocument::Other);
    assert!(matches!(items[3], JsonDocument::Object(_)));
    assert!(parse_array(r#"{"a":1}"#).is_none());
    assert!(parse_array("x").is_none());
}
