use supabase_migrate::models::app_config::AppConfig;

fn found(value: &str) -> Result<String, String> {
    Ok(value.to_string())
}

fn missing() -> Result<String, String> {
    Err("environment variable not found".to_string())
}

#[test]
fn config_is_made_of_five_variables() {
    let config = AppConfig::from_env(found("id"), found("secret"), found("r"), found("c"), found("s"))
        .expect("settings");
    assert_eq!(config.client_id, "id");
    assert_eq!(config.client_secret, "secret");
    assert_eq!(config.redirect_url, "r");
    assert_eq!(config.client_addr, "c");
    assert_eq!(config.server_addr, "s");
}

#[test]
fn first_missing_variable_is_reported() {
    let e = AppConfig::from_env(missing(), missing(), missing(), missing(), missing()).err();
    assert_eq!(
        e,
        Some("SUPA_CONNECT_CLIENT_ID not found: environment variable not found".to_string())
    );
    let e = AppConfig::from_env(found("a"), missing(), found("c"), missing(), found("e")).err();
    assert_eq!(
        e,
        Some("SUPA_CONNECT_CLIENT_SECRET not found: environment variable not found".to_string())
    );
    let e = AppConfig::from_env(found("a"), found("b"), missing(), found("d"), missing()).err();
    assert_eq!(e, Some("REDIRECT_URL not found: environment variable not found".to_string()));
    let e = AppConfig::from_env(found("a"), found("b"), found("c"), missing(), missing()).err();
    assert_eq!(e, Some("CLIENT_ADDR not found: environment variable not found".to_string()));
    let e = AppConfig::from_env(found("a"), found("b"), found("c"), found("d"), missing()).err();
    assert_eq!(e, Some("SERVER_ADDR not found: environment variable not found".to_string()));
}
