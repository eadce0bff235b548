use supabase_migrate::json::{find, object_to_text, parse_document, value_to_text, JsonDocument, JsonMember, JsonValue};
use supabase_migrate::models::migrate::AuthConfigStruct;

fn config(text: &str) -> Option<AuthConfigStruct> {
    AuthConfigStruct::from_document(&parse_document(text).expect("a JSON text"))
}

fn complete_smtp() -> AuthConfigStruct {
    AuthConfigStruct {
        smtp_admin_email: Some("admin@example.com".to_string()),
        smtp_host: Some("smtp.example.com".to_string()),
        smtp_port: Some(587),
        smtp_user: Some("mailer".to_string()),
        smtp_pass: Some("SECRET-REDACTED".to_string()),
        smtp_sender_name: Some("Example".to_string()),
        smtp_max_frequency: Some(60),
        rate_limit_email_sent: Some(30),
        site_url: Some("https://example.com".to_string()),
        ..AuthConfigStruct::default()
    }
}

#[test]
fn absent_config_serializes_to_empty_object() {
    assert_eq!(AuthConfigStruct::default().to_json(), "{}");
    assert!(AuthConfigStruct::default().to_members().is_empty());
}

#[test]
fn incomplete_smtp_is_cleared() {
    let input = AuthConfigStruct {
        smtp_host: Some("smtp.example.com".to_string()),
        smtp_sender_name: Some("Example".to_string()),
        ..AuthConfigStruct::default()
    };
    assert!(!input.has_custom_smtp());
    let cleaned = input.remove_smtp_fields_if_disabled();
    assert_eq!(cleaned.smtp_host, None);
    assert_eq!(cleaned.smtp_sender_name, None);
    assert_eq!(cleaned.to_json(), "{}");
}

#[test]
fn each_missing_smtp_setting_disables_custom_smtp() {
    assert!(complete_smtp().has_custom_smtp());
    assert!(!AuthConfigStruct { smtp_admin_email: None, ..complete_smtp() }.has_custom_smtp());
    assert!(!AuthConfigStruct { smtp_host: None, ..complete_smtp() }.has_custom_smtp());
    assert!(!AuthConfigStruct { smtp_port: None, ..complete_smtp() }.has_custom_smtp());
    assert!(!AuthConfigStruct { smtp_user: None, ..complete_smtp() }.has_custom_smtp());
    assert!(!AuthConfigStruct { smtp_pass: None, ..complete_smtp() }.has_custom_smtp());
    assert!(AuthConfigStruct { smtp_sender_name: None, ..complete_smtp() }.has_custom_smtp());
    assert!(AuthConfigStruct { smtp_max_frequency: None, ..complete_smtp() }.has_custom_smtp());
    assert!(!AuthConfigStruct::default().has_custom_smtp());
}

#[test]
fn complete_smtp_is_left_untouched() {
    let cleaned = complete_smtp().remove_smtp_fields_if_disabled();
    assert_eq!(cleaned, complete_smtp());
    assert!(cleaned.has_custom_smtp());
}

#[test]
fn incomplete_smtp_loses_all_mail_settings_and_nothing_else() {
    let input = AuthConfigStruct { smtp_pass: None, jwt_exp: Some(3600), ..complete_smtp() };
    let cleaned = input.remove_smtp_fields_if_disabled();
    let expected = AuthConfigStruct {
        site_url: Some("https://example.com".to_string()),
        jwt_exp: Some(3600),
        ..AuthConfigStruct::default()
    };
    assert_eq!(cleaned, expected);
    assert_eq!(cleaned.to_json(), r#"{"jwt_exp":3600,"site_url":"https://example.com"}"#);
}

#[test]
fn sanitizing_twice_is_sanitizing_once() {
    let inputs = [
        || AuthConfigStruct::default(),
        || complete_smtp(),
        || AuthConfigStruct { smtp_port: None, ..complete_smtp() },
        || AuthConfigStruct {
            rate_limit_email_sent: Some(5),
            disable_signup: Some(true),
            ..AuthConfigStruct::default()
        },
    ];
    for make in inputs {
        let once = make().remove_smtp_fields_if_disabled();
        let twice = make().remove_smtp_fields_if_disabled().remove_smtp_fields_if_disabled();
        assert_eq!(once, twice);
    }
}

#[test]
fn sanitizing_keeps_the_smtp_predicate() {
    let inputs = [
        || AuthConfigStruct::default(),
        || complete_smtp(),
        || AuthConfigStruct { smtp_user: None, ..complete_smtp() },
        || AuthConfigStruct { smtp_host: Some("h".to_string()), ..AuthConfigStruct::default() },
    ];
    for make in inputs {
        let before = make().has_custom_smtp();
        assert_eq!(make().remove_smtp_fields_if_disabled().has_custom_smtp(), before);
    }
}

#[test]
fn config_is_written_in_field_order_without_unset_fields() {
    let c = AuthConfigStruct {
        uri_allow_list: Some("https://a,https://b".to_string()),
        disable_signup: Some(false),
        jwt_exp: Some(0),
        mailer_subjects_invite: Some("You are \"invited\"\n".to_string()),
        password_min_length: Some(4294967295),
        ..AuthConfigStruct::default()
    };
    assert_eq!(
        c.to_json(),
        r#"{"disable_signup":false,"jwt_exp":0,"mailer_subjects_invite":"You are \"invited\"\n","password_min_length":4294967295,"uri_allow_list":"https://a,https://b"}"#
    );
}

#[test]
fn config_is_read_from_a_document() {
    let c = config(
        r#"{"site_url":"a","jwt_exp":3600,"disable_signup":true,"smtp_host":null,"unknown":[1,2]}"#,
    )
    .expect("a configuration");
    let expected = AuthConfigStruct {
        site_url: Some("a".to_string()),
        jwt_exp: Some(3600),
        disable_signup: Some(true),
        ..AuthConfigStruct::default()
    };
    assert_eq!(c, expected);
}

#[test]
fn empty_document_is_the_absent_config() {
    assert_eq!(config("{}"), Some(AuthConfigStruct::default()));
}

#[test]
fn config_rejects_values_of_the_wrong_kind() {
    assert_eq!(config(r#"{"site_url":1}"#), None);
    assert_eq!(config(r#"{"jwt_exp":"3600"}"#), None);
    assert_eq!(config(r#"{"jwt_exp":-1}"#), None);
    assert_eq!(config(r#"{"jwt_exp":1.5}"#), None);
    assert_eq!(config(r#"{"jwt_exp":4294967296}"#), None);
    assert_eq!(config(r#"{"disable_signup":"true"}"#), None);
    assert_eq!(config(r#"{"disable_signup":0}"#), None);
    assert_eq!(config(r#"{"uri_allow_list":["a"]}"#), None);
    assert_eq!(config(r#"{"smtp_port":{}}"#), None);
    assert_eq!(config("[]"), None);
    assert_eq!(config("3"), None);
}

#[test]
fn config_accepts_the_largest_count() {
    let c = config(r#"{"jwt_exp":4294967295}"#).expect("a configuration");
    assert_eq!(c.jwt_exp, Some(4294967295));
}

#[test]
fn writing_and_reading_a_config_gives_it_back() {
    let text = complete_smtp().to_json();
    assert_eq!(config(&text), Some(complete_smtp()));
    let document = complete_smtp().to_document();
    assert_eq!(AuthConfigStruct::from_document(&document), Some(complete_smtp()));
}

#[test]
fn document_of_a_config_holds_one_member_for_each_set_field() {
    let JsonDocument::Object(members) = complete_smtp().to_document() else {
        panic!("an object");
    };
    assert_eq!(members.len(), 9);
    assert_eq!(find(&members, "smtp_port"), Some(&JsonValue::Number("587".to_string())));
    assert_eq!(
        find(&members, "smtp_host"),
        Some(&JsonValue::Text("smtp.example.com".to_string()))
    );
    assert_eq!(find(&members, "disable_signup"), None);
    for pair in members.windows(2) {
        assert!(pair[0].key < pair[1].key);
    }
}

#[test]
fn strings_are_written_with_json_escapes() {
    assert_eq!(value_to_text(&JsonValue::Text("a\"b\\c\n".to_string())), r#""a\"b\\c\n""#);
    assert_eq!(value_to_text(&JsonValue::Text(String::new())), r#""""#);
    assert_eq!(value_to_text(&JsonValue::Null), "null");
    assert_eq!(value_to_text(&JsonValue::Bool(true)), "true");
    assert_eq!(value_to_text(&JsonValue::Number("12".to_string())), "12");
    assert_eq!(value_to_text(&JsonValue::Composite("[1,2]".to_string())), "[1,2]");
}

#[test]
fn objects_are_written_without_spaces() {
    assert_eq!(object_to_text(&vec![]), "{}");
    let members = vec![
        JsonMember { key: "a".to_string(), value: JsonValue::Bool(false) },
        JsonMember { key: "b c".to_string(), value: JsonValue::Text("x".to_string()) },
        JsonMember { key: "d".to_string(), value: JsonValue::Null },
    ];
    assert_eq!(object_to_text(&members), r#"{"a":false,"b c":"x","d":null}"#);
    assert_eq!(
        parse_document(&object_to_text(&members)),
        Some(JsonDocument::Object(members))
    );
}
