//! The Auth configuration of a tenant: a flat record of optional settings,
//! its encoding as a JSON object that leaves out what is unset, and the rule
//! that strips mail settings which the destination would refuse.
use crate::json::{find, lemma_empty_object_text, lookup, members_view, object_text, object_to_text, JsonDocument, JsonDocumentView, JsonMember, JsonMemberView, JsonValue, JsonValueView};
use crate::text::{count_to_string, decimal, opt_text, parse_count, parse_u32};
use vstd::prelude::*;

verus! {

/// What a boolean setting takes from the value that a document gives its
/// key: nothing where the key is missing or null, the value where it is a
/// boolean, and no answer (`None`) where it is of another kind.
pub open spec fn flag_of(members: Seq<JsonMemberView>, key: Seq<char>) -> Option<Option<bool>> {
    match lookup(members, key) {
        None => Some(None),
        Some(JsonValueView::Null) => Some(None),
        Some(JsonValueView::Bool(b)) => Some(Some(b)),
        _ => None,
    }
}

/// What a count takes from the value that a document gives its key:
/// nothing where the key is missing or null, the number where it is a
/// whole number from 0 to 4294967295, and no answer (`None`) otherwise.
pub open spec fn count_of(members: Seq<JsonMemberView>, key: Seq<char>) -> Option<Option<u32>> {
    match lookup(members, key) {
        None => Some(None),
        Some(JsonValueView::Null) => Some(None),
        Some(JsonValueView::Number(t)) => match parse_count(t) {
            Some(n) => Some(Some(n)),
            None => None,
        },
        _ => None,
    }
}

/// What a text setting takes from the value that a document gives its
/// key: nothing where the key is missing or null, the content where it is
/// a string, and no answer (`None`) where it is of another kind.
pub open spec fn text_of(members: Seq<JsonMemberView>, key: Seq<char>) -> Option<
    Option<Seq<char>>,
> {
    match lookup(members, key) {
        None => Some(None),
        Some(JsonValueView::Null) => Some(None),
        Some(JsonValueView::Text(t)) => Some(Some(t)),
        _ => None,
    }
}

/// The member that encodes a boolean setting, if it is set.
pub open spec fn flag_member(key: Seq<char>, o: Option<bool>) -> Seq<JsonMemberView> {
    match o {
        Some(b) => seq![JsonMemberView { key, value: JsonValueView::Bool(b) }],
        None => Seq::empty(),
    }
}

/// The member that encodes a count, if it is set: the number in decimal
/// digits.
pub open spec fn count_member(key: Seq<char>, o: Option<u32>) -> Seq<JsonMemberView> {
    match o {
        Some(n) => seq![JsonMemberView { key, value: JsonValueView::Number(decimal(n as nat)) }],
        None => Seq::empty(),
    }
}

/// The member that encodes a text setting, if it is set.
pub open spec fn text_member(key: Seq<char>, o: Option<Seq<char>>) -> Seq<JsonMemberView> {
    match o {
        Some(t) => seq![JsonMemberView { key, value: JsonValueView::Text(t) }],
        None => Seq::empty(),
    }
}

/// Reads a boolean setting from the members of a document, and notes in
/// `ok` if the value of its key is of the wrong kind.
fn read_flag(members: &Vec<JsonMember>, key: &str, ok: &mut bool) -> (r: Option<bool>)
    ensures
        *final(ok) == (*old(ok) && flag_of(members_view(members@), key@) is Some),
        flag_of(members_view(members@), key@) is Some ==> flag_of(members_view(members@), key@)
            == Some(r),
{
    match find(members, key) {
        None => None,
        Some(JsonValue::Null) => None,
        Some(JsonValue::Bool(b)) => Some(*b),
        _ => {
            *ok = false;
            None
        },
    }
}

/// Reads a count from the members of a document, and notes in `ok` if the
/// value of its key is no such number.
fn read_count(members: &Vec<JsonMember>, key: &str, ok: &mut bool) -> (r: Option<u32>)
    ensures
        *final(ok) == (*old(ok) && count_of(members_view(members@), key@) is Some),
        count_of(members_view(members@), key@) is Some ==> count_of(members_view(members@), key@)
            == Some(r),
{
    let n = match find(members, key) {
        None => {
            return None;
        },
        Some(JsonValue::Null) => {
            return None;
        },
        Some(JsonValue::Number(t)) => parse_u32(t.as_str()),
        _ => None,
    };
    if n.is_none() {
        *ok = false;
    }
    n
}

/// Reads a text setting from the members of a document, and notes in `ok`
/// if the value of its key is of the wrong kind.
fn read_text(members: &Vec<JsonMember>, key: &str, ok: &mut bool) -> (r: Option<String>)
    ensures
        *final(ok) == (*old(ok) && text_of(members_view(members@), key@) is Some),
        text_of(members_view(members@), key@) is Some ==> text_of(members_view(members@), key@)
            == Some(opt_text(r)),
{
    match find(members, key) {
        None => None,
        Some(JsonValue::Null) => None,
        Some(JsonValue::Text(t)) => Some(t.clone()),
        _ => {
            *ok = false;
            None
        },
    }
}

/// Adds the member of a boolean setting, if it is set.
fn push_flag(out: &mut Vec<JsonMember>, key: &str, o: &Option<bool>)
    ensures
        members_view(final(out)@) == members_view(old(out)@) + flag_member(key@, *o),
{
    let ghost before = out@;
    match o {
        Some(b) => {
            out.push(JsonMember { key: key.to_owned(), value: JsonValue::Bool(*b) });
        },
        None => {},
    }
    assert(members_view(out@) =~= members_view(before) + flag_member(key@, *o));
}

/// Adds the member of a count, if it is set.
fn push_count(out: &mut Vec<JsonMember>, key: &str, o: &Option<u32>)
    ensures
        members_view(final(out)@) == members_view(old(out)@) + count_member(key@, *o),
{
    let ghost before = out@;
    match o {
        Some(n) => {
            out.push(
                JsonMember { key: key.to_owned(), value: JsonValue::Number(count_to_string(*n)) },
            );
        },
        None => {},
    }
    assert(members_view(out@) =~= members_view(before) + count_member(key@, *o));
}

/// Adds the member of a text setting, if it is set.
fn push_text(out: &mut Vec<JsonMember>, key: &str, o: &Option<String>)
    ensures
        members_view(final(out)@) == members_view(old(out)@) + text_member(key@, opt_text(*o)),
{
    let ghost before = out@;
    match o {
        Some(s) => {
            out.push(JsonMember { key: key.to_owned(), value: JsonValue::Text(s.clone()) });
        },
        None => {},
    }
    assert(members_view(out@) =~= members_view(before) + text_member(key@, opt_text(*o)));
}

/// The Auth configuration document. A setting that is `None` is unset: it
/// is left out of the JSON text, and a key that is missing or null in a JSON
/// text leaves it unset.
#[derive(Debug, PartialEq, Eq)]
pub struct AuthConfigStruct {
    // Signing up
    pub disable_signup: Option<bool>,
    // External authentication providers
    pub external_anonymous_users_enabled: Option<bool>,
    pub external_apple_additional_client_ids: Option<String>,
    pub external_apple_client_id: Option<String>,
    pub external_apple_enabled: Option<bool>,
    pub external_apple_secret: Option<String>,
    pub external_azure_client_id: Option<String>,
    pub external_azure_enabled: Option<bool>,
    pub external_azure_secret: Option<String>,
    pub external_azure_url: Option<String>,
    pub external_bitbucket_client_id: Option<String>,
    pub external_bitbucket_enabled: Option<bool>,
    pub external_bitbucket_secret: Option<String>,
    pub external_discord_client_id: Option<String>,
    pub external_discord_enabled: Option<bool>,
    pub external_discord_secret: Option<String>,
    pub external_email_enabled: Option<bool>,
    pub external_facebook_client_id: Option<String>,
    pub external_facebook_enabled: Option<bool>,
    pub external_facebook_secret: Option<String>,
    pub external_figma_client_id: Option<String>,
    pub external_figma_enabled: Option<bool>,
    pub external_figma_secret: Option<String>,
    pub external_github_client_id: Option<String>,
    pub external_github_enabled: Option<bool>,
    pub external_github_secret: Option<String>,
    pub external_gitlab_client_id: Option<String>,
    pub external_gitlab_enabled: Option<bool>,
    pub external_gitlab_secret: Option<String>,
    pub external_gitlab_url: Option<String>,
    pub external_google_additional_client_ids: Option<String>,
    pub external_google_client_id: Option<String>,
    pub external_google_enabled: Option<bool>,
    pub external_google_secret: Option<String>,
    pub external_google_skip_nonce_check: Option<bool>,
    pub external_kakao_client_id: Option<String>,
    pub external_kakao_enabled: Option<bool>,
    pub external_kakao_secret: Option<String>,
    pub external_keycloak_client_id: Option<String>,
    pub external_keycloak_enabled: Option<bool>,
    pub external_keycloak_secret: Option<String>,
    pub external_keycloak_url: Option<String>,
    pub external_linkedin_oidc_client_id: Option<String>,
    pub external_linkedin_oidc_enabled: Option<bool>,
    pub external_linkedin_oidc_secret: Option<String>,
    pub external_notion_client_id: Option<String>,
    pub external_notion_enabled: Option<bool>,
    pub external_notion_secret: Option<String>,
    pub external_phone_enabled: Option<bool>,
    pub external_slack_client_id: Option<String>,
    pub external_slack_enabled: Option<bool>,
    pub external_slack_oidc_client_id: Option<String>,
    pub external_slack_oidc_enabled: Option<bool>,
    pub external_slack_oidc_secret: Option<String>,
    pub external_slack_secret: Option<String>,
    pub external_spotify_client_id: Option<String>,
    pub external_spotify_enabled: Option<bool>,
    pub external_spotify_secret: Option<String>,
    pub external_twitch_client_id: Option<String>,
    pub external_twitch_enabled: Option<bool>,
    pub external_twitch_secret: Option<String>,
    pub external_twitter_client_id: Option<String>,
    pub external_twitter_enabled: Option<bool>,
    pub external_twitter_secret: Option<String>,
    pub external_web3_solana_enabled: Option<bool>,
    pub external_workos_client_id: Option<String>,
    pub external_workos_enabled: Option<bool>,
    pub external_workos_secret: Option<String>,
    pub external_workos_url: Option<String>,
    pub external_zoom_client_id: Option<String>,
    pub external_zoom_enabled: Option<bool>,
    pub external_zoom_secret: Option<String>,
    // Webhooks
    pub hook_custom_access_token_enabled: Option<bool>,
    pub hook_custom_access_token_secrets: Option<String>,
    pub hook_custom_access_token_uri: Option<String>,
    pub hook_mfa_verification_attempt_enabled: Option<bool>,
    pub hook_mfa_verification_attempt_secrets: Option<String>,
    pub hook_mfa_verification_attempt_uri: Option<String>,
    pub hook_password_verification_attempt_enabled: Option<bool>,
    pub hook_password_verification_attempt_secrets: Option<String>,
    pub hook_password_verification_attempt_uri: Option<String>,
    pub hook_send_email_enabled: Option<bool>,
    pub hook_send_email_secrets: Option<String>,
    pub hook_send_email_uri: Option<String>,
    pub hook_send_sms_enabled: Option<bool>,
    pub hook_send_sms_secrets: Option<String>,
    pub hook_send_sms_uri: Option<String>,
    // JWT
    pub jwt_exp: Option<u32>,
    // Mailer
    pub mailer_allow_unverified_email_sign_ins: Option<bool>,
    pub mailer_autoconfirm: Option<bool>,
    pub mailer_otp_exp: Option<u32>,
    pub mailer_otp_length: Option<u32>,
    pub mailer_secure_email_change_enabled: Option<bool>,
    pub mailer_subjects_confirmation: Option<String>,
    pub mailer_subjects_email_change: Option<String>,
    pub mailer_subjects_invite: Option<String>,
    pub mailer_subjects_magic_link: Option<String>,
    pub mailer_subjects_reauthentication: Option<String>,
    pub mailer_subjects_recovery: Option<String>,
    pub mailer_templates_confirmation_content: Option<String>,
    pub mailer_templates_email_change_content: Option<String>,
    pub mailer_templates_invite_content: Option<String>,
    pub mailer_templates_magic_link_content: Option<String>,
    pub mailer_templates_reauthentication_content: Option<String>,
    pub mailer_templates_recovery_content: Option<String>,
    // Multi-factor authentication
    pub mfa_max_enrolled_factors: Option<u32>,
    pub mfa_phone_enroll_enabled: Option<bool>,
    pub mfa_phone_max_frequency: Option<u32>,
    pub mfa_phone_otp_length: Option<u32>,
    pub mfa_phone_template: Option<String>,
    pub mfa_phone_verify_enabled: Option<bool>,
    pub mfa_totp_enroll_enabled: Option<bool>,
    pub mfa_totp_verify_enabled: Option<bool>,
    pub mfa_web_authn_enroll_enabled: Option<bool>,
    pub mfa_web_authn_verify_enabled: Option<bool>,
    // Passwords
    pub password_hibp_enabled: Option<bool>,
    pub password_min_length: Option<u32>,
    pub password_required_characters: Option<String>,
    // Rate limits
    pub rate_limit_anonymous_users: Option<u32>,
    pub rate_limit_email_sent: Option<u32>,
    pub rate_limit_otp: Option<u32>,
    pub rate_limit_sms_sent: Option<u32>,
    pub rate_limit_token_refresh: Option<u32>,
    pub rate_limit_verify: Option<u32>,
    pub rate_limit_web3: Option<u32>,
    // Tokens
    pub refresh_token_rotation_enabled: Option<bool>,
    // SAML
    pub saml_allow_encrypted_assertions: Option<bool>,
    pub saml_enabled: Option<bool>,
    pub saml_external_url: Option<String>,
    // Security
    pub security_captcha_enabled: Option<bool>,
    pub security_captcha_provider: Option<String>,
    pub security_captcha_secret: Option<String>,
    pub security_manual_linking_enabled: Option<bool>,
    pub security_refresh_token_reuse_interval: Option<u32>,
    pub security_update_password_require_reauthentication: Option<bool>,
    // Sessions
    pub sessions_inactivity_timeout: Option<u32>,
    pub sessions_single_per_user: Option<bool>,
    pub sessions_tags: Option<String>,
    pub sessions_timebox: Option<u32>,
    // Site
    pub site_url: Option<String>,
    // SMS
    pub sms_autoconfirm: Option<bool>,
    pub sms_max_frequency: Option<u32>,
    pub sms_messagebird_access_key: Option<String>,
    pub sms_messagebird_originator: Option<String>,
    pub sms_otp_exp: Option<u32>,
    pub sms_otp_length: Option<u32>,
    pub sms_provider: Option<String>,
    pub sms_template: Option<String>,
    pub sms_test_otp: Option<String>,
    pub sms_test_otp_valid_until: Option<String>,
    pub sms_textlocal_api_key: Option<String>,
    pub sms_textlocal_sender: Option<String>,
    pub sms_twilio_account_sid: Option<String>,
    pub sms_twilio_auth_token: Option<String>,
    pub sms_twilio_content_sid: Option<String>,
    pub sms_twilio_message_service_sid: Option<String>,
    pub sms_twilio_verify_account_sid: Option<String>,
    pub sms_twilio_verify_auth_token: Option<String>,
    pub sms_twilio_verify_message_service_sid: Option<String>,
    pub sms_vonage_api_key: Option<String>,
    pub sms_vonage_api_secret: Option<String>,
    pub sms_vonage_from: Option<String>,
    // SMTP
    pub smtp_admin_email: Option<String>,
    pub smtp_host: Option<String>,
    pub smtp_max_frequency: Option<u32>,
    pub smtp_pass: Option<String>,
    pub smtp_port: Option<u32>,
    pub smtp_sender_name: Option<String>,
    pub smtp_user: Option<String>,
    // URIs
    pub uri_allow_list: Option<String>,
}

impl Default for AuthConfigStruct {
    /// The document in which nothing is set.
    fn default() -> (r: Self)
        ensures
            r == AuthConfigStruct::absent(),
    {
        AuthConfigStruct {
            disable_signup: None,
            external_anonymous_users_enabled: None,
            external_apple_additional_client_ids: None,
            external_apple_client_id: None,
            external_apple_enabled: None,
            external_apple_secret: None,
            external_azure_client_id: None,
            external_azure_enabled: None,
            external_azure_secret: None,
            external_azure_url: None,
            external_bitbucket_client_id: None,
            external_bitbucket_enabled: None,
            external_bitbucket_secret: None,
            external_discord_client_id: None,
            external_discord_enabled: None,
            external_discord_secret: None,
            external_email_enabled: None,
            external_facebook_client_id: None,
            external_facebook_enabled: None,
            external_facebook_secret: None,
            external_figma_client_id: None,
            external_figma_enabled: None,
            external_figma_secret: None,
            external_github_client_id: None,
            external_github_enabled: None,
            external_github_secret: None,
            external_gitlab_client_id: None,
            external_gitlab_enabled: None,
            external_gitlab_secret: None,
            external_gitlab_url: None,
            external_google_additional_client_ids: None,
            external_google_client_id: None,
            external_google_enabled: None,
            external_google_secret: None,
            external_google_skip_nonce_check: None,
            external_kakao_client_id: None,
            external_kakao_enabled: None,
            external_kakao_secret: None,
            external_keycloak_client_id: None,
            external_keycloak_enabled: None,
            external_keycloak_secret: None,
            external_keycloak_url: None,
            external_linkedin_oidc_client_id: None,
            external_linkedin_oidc_enabled: None,
            external_linkedin_oidc_secret: None,
            external_notion_client_id: None,
            external_notion_enabled: None,
            external_notion_secret: None,
            external_phone_enabled: None,
            external_slack_client_id: None,
            external_slack_enabled: None,
            external_slack_oidc_client_id: None,
            external_slack_oidc_enabled: None,
            external_slack_oidc_secret: None,
            external_slack_secret: None,
            external_spotify_client_id: None,
            external_spotify_enabled: None,
            external_spotify_secret: None,
            external_twitch_client_id: None,
            external_twitch_enabled: None,
            external_twitch_secret: None,
            external_twitter_client_id: None,
            external_twitter_enabled: None,
            external_twitter_secret: None,
            external_web3_solana_enabled: None,
            external_workos_client_id: None,
            external_workos_enabled: None,
            external_workos_secret: None,
            external_workos_url: None,
            external_zoom_client_id: None,
            external_zoom_enabled: None,
            external_zoom_secret: None,
            hook_custom_access_token_enabled: None,
            hook_custom_access_token_secrets: None,
            hook_custom_access_token_uri: None,
            hook_mfa_verification_attempt_enabled: None,
            hook_mfa_verification_attempt_secrets: None,
            hook_mfa_verification_attempt_uri: None,
            hook_password_verification_attempt_enabled: None,
            hook_password_verification_attempt_secrets: None,
            hook_password_verification_attempt_uri: None,
            hook_send_email_enabled: None,
            hook_send_email_secrets: None,
            hook_send_email_uri: None,
            hook_send_sms_enabled: None,
            hook_send_sms_secrets: None,
            hook_send_sms_uri: None,
            jwt_exp: None,
            mailer_allow_unverified_email_sign_ins: None,
            mailer_autoconfirm: None,
            mailer_otp_exp: None,
            mailer_otp_length: None,
            mailer_secure_email_change_enabled: None,
            mailer_subjects_confirmation: None,
            mailer_subjects_email_change: None,
            mailer_subjects_invite: None,
            mailer_subjects_magic_link: None,
            mailer_subjects_reauthentication: None,
            mailer_subjects_recovery: None,
            mailer_templates_confirmation_content: None,
            mailer_templates_email_change_content: None,
            mailer_templates_invite_content: None,
            mailer_templates_magic_link_content: None,
            mailer_templates_reauthentication_content: None,
            mailer_templates_recovery_content: None,
            mfa_max_enrolled_factors: None,
            mfa_phone_enroll_enabled: None,
            mfa_phone_max_frequency: None,
            mfa_phone_otp_length: None,
            mfa_phone_template: None,
            mfa_phone_verify_enabled: None,
            mfa_totp_enroll_enabled: None,
            mfa_totp_verify_enabled: None,
            mfa_web_authn_enroll_enabled: None,
            mfa_web_authn_verify_enabled: None,
            password_hibp_enabled: None,
            password_min_length: None,
            password_required_characters: None,
            rate_limit_anonymous_users: None,
            rate_limit_email_sent: None,
            rate_limit_otp: None,
            rate_limit_sms_sent: None,
            rate_limit_token_refresh: None,
            rate_limit_verify: None,
            rate_limit_web3: None,
            refresh_token_rotation_enabled: None,
            saml_allow_encrypted_assertions: None,
            saml_enabled: None,
            saml_external_url: None,
            security_captcha_enabled: None,
            security_captcha_provider: None,
            security_captcha_secret: None,
            security_manual_linking_enabled: None,
            security_refresh_token_reuse_interval: None,
            security_update_password_require_reauthentication: None,
            sessions_inactivity_timeout: None,
            sessions_single_per_user: None,
            sessions_tags: None,
            sessions_timebox: None,
            site_url: None,
            sms_autoconfirm: None,
            sms_max_frequency: None,
            sms_messagebird_access_key: None,
            sms_messagebird_originator: None,
            sms_otp_exp: None,
            sms_otp_length: None,
            sms_provider: None,
            sms_template: None,
            sms_test_otp: None,
            sms_test_otp_valid_until: None,
            sms_textlocal_api_key: None,
            sms_textlocal_sender: None,
            sms_twilio_account_sid: None,
            sms_twilio_auth_token: None,
            sms_twilio_content_sid: None,
            sms_twilio_message_service_sid: None,
            sms_twilio_verify_account_sid: None,
            sms_twilio_verify_auth_token: None,
            sms_twilio_verify_message_service_sid: None,
            sms_vonage_api_key: None,
            sms_vonage_api_secret: None,
            sms_vonage_from: None,
            smtp_admin_email: None,
            smtp_host: None,
            smtp_max_frequency: None,
            smtp_pass: None,
            smtp_port: None,
            smtp_sender_name: None,
            smtp_user: None,
            uri_allow_list: None,
        }
    }
}

impl AuthConfigStruct {
    /// The document in which nothing is set.
    pub open spec fn absent() -> Self {
        AuthConfigStruct {
            disable_signup: None,
            external_anonymous_users_enabled: None,
            external_apple_additional_client_ids: None,
            external_apple_client_id: None,
            external_apple_enabled: None,
            external_apple_secret: None,
            external_azure_client_id: None,
            external_azure_enabled: None,
            external_azure_secret: None,
            external_azure_url: None,
            external_bitbucket_client_id: None,
            external_bitbucket_enabled: None,
            external_bitbucket_secret: None,
            external_discord_client_id: None,
            external_discord_enabled: None,
            external_discord_secret: None,
            external_email_enabled: None,
            external_facebook_client_id: None,
            external_facebook_enabled: None,
            external_facebook_secret: None,
            external_figma_client_id: None,
            external_figma_enabled: None,
            external_figma_secret: None,
            external_github_client_id: None,
            external_github_enabled: None,
            external_github_secret: None,
            external_gitlab_client_id: None,
            external_gitlab_enabled: None,
            external_gitlab_secret: None,
            external_gitlab_url: None,
            external_google_additional_client_ids: None,
            external_google_client_id: None,
            external_google_enabled: None,
            external_google_secret: None,
            external_google_skip_nonce_check: None,
            external_kakao_client_id: None,
            external_kakao_enabled: None,
            external_kakao_secret: None,
            external_keycloak_client_id: None,
            external_keycloak_enabled: None,
            external_keycloak_secret: None,
            external_keycloak_url: None,
            external_linkedin_oidc_client_id: None,
            external_linkedin_oidc_enabled: None,
            external_linkedin_oidc_secret: None,
            external_notion_client_id: None,
            external_notion_enabled: None,
            external_notion_secret: None,
            external_phone_enabled: None,
            external_slack_client_id: None,
            external_slack_enabled: None,
            external_slack_oidc_client_id: None,
            external_slack_oidc_enabled: None,
            external_slack_oidc_secret: None,
            external_slack_secret: None,
            external_spotify_client_id: None,
            external_spotify_enabled: None,
            external_spotify_secret: None,
            external_twitch_client_id: None,
            external_twitch_enabled: None,
            external_twitch_secret: None,
            external_twitter_client_id: None,
            external_twitter_enabled: None,
            external_twitter_secret: None,
            external_web3_solana_enabled: None,
            external_workos_client_id: None,
            external_workos_enabled: None,
            external_workos_secret: None,
            external_workos_url: None,
            external_zoom_client_id: None,
            external_zoom_enabled: None,
            external_zoom_secret: None,
            hook_custom_access_token_enabled: None,
            hook_custom_access_token_secrets: None,
            hook_custom_access_token_uri: None,
            hook_mfa_verification_attempt_enabled: None,
            hook_mfa_verification_attempt_secrets: None,
            hook_mfa_verification_attempt_uri: None,
            hook_password_verification_attempt_enabled: None,
            hook_password_verification_attempt_secrets: None,
            hook_password_verification_attempt_uri: None,
            hook_send_email_enabled: None,
            hook_send_email_secrets: None,
            hook_send_email_uri: None,
            hook_send_sms_enabled: None,
            hook_send_sms_secrets: None,
            hook_send_sms_uri: None,
            jwt_exp: None,
            mailer_allow_unverified_email_sign_ins: None,
            mailer_autoconfirm: None,
            mailer_otp_exp: None,
            mailer_otp_length: None,
            mailer_secure_email_change_enabled: None,
            mailer_subjects_confirmation: None,
            mailer_subjects_email_change: None,
            mailer_subjects_invite: None,
            mailer_subjects_magic_link: None,
            mailer_subjects_reauthentication: None,
            mailer_subjects_recovery: None,
            mailer_templates_confirmation_content: None,
            mailer_templates_email_change_content: None,
            mailer_templates_invite_content: None,
            mailer_templates_magic_link_content: None,
            mailer_templates_reauthentication_content: None,
            mailer_templates_recovery_content: None,
            mfa_max_enrolled_factors: None,
            mfa_phone_enroll_enabled: None,
            mfa_phone_max_frequency: None,
            mfa_phone_otp_length: None,
            mfa_phone_template: None,
            mfa_phone_verify_enabled: None,
            mfa_totp_enroll_enabled: None,
            mfa_totp_verify_enabled: None,
            mfa_web_authn_enroll_enabled: None,
            mfa_web_authn_verify_enabled: None,
            password_hibp_enabled: None,
            password_min_length: None,
            password_required_characters: None,
            rate_limit_anonymous_users: None,
            rate_limit_email_sent: None,
            rate_limit_otp: None,
            rate_limit_sms_sent: None,
            rate_limit_token_refresh: None,
            rate_limit_verify: None,
            rate_limit_web3: None,
            refresh_token_rotation_enabled: None,
            saml_allow_encrypted_assertions: None,
            saml_enabled: None,
            saml_external_url: None,
            security_captcha_enabled: None,
            security_captcha_provider: None,
            security_captcha_secret: None,
            security_manual_linking_enabled: None,
            security_refresh_token_reuse_interval: None,
            security_update_password_require_reauthentication: None,
            sessions_inactivity_timeout: None,
            sessions_single_per_user: None,
            sessions_tags: None,
            sessions_timebox: None,
            site_url: None,
            sms_autoconfirm: None,
            sms_max_frequency: None,
            sms_messagebird_access_key: None,
            sms_messagebird_originator: None,
            sms_otp_exp: None,
            sms_otp_length: None,
            sms_provider: None,
            sms_template: None,
            sms_test_otp: None,
            sms_test_otp_valid_until: None,
            sms_textlocal_api_key: None,
            sms_textlocal_sender: None,
            sms_twilio_account_sid: None,
            sms_twilio_auth_token: None,
            sms_twilio_content_sid: None,
            sms_twilio_message_service_sid: None,
            sms_twilio_verify_account_sid: None,
            sms_twilio_verify_auth_token: None,
            sms_twilio_verify_message_service_sid: None,
            sms_vonage_api_key: None,
            sms_vonage_api_secret: None,
            sms_vonage_from: None,
            smtp_admin_email: None,
            smtp_host: None,
            smtp_max_frequency: None,
            smtp_pass: None,
            smtp_port: None,
            smtp_sender_name: None,
            smtp_user: None,
            uri_allow_list: None,
        }
    }

    /// The members of the object that encodes the configuration: one for
    /// each setting that is set, under the name of the setting, in the
    /// order of the record, which is the ascending order of the keys.
    pub closed spec fn members(self) -> Seq<JsonMemberView> {
        Seq::empty()
            + flag_member("disable_signup"@, self.disable_signup)
            + flag_member("external_anonymous_users_enabled"@, self.external_anonymous_users_enabled)
            + text_member("external_apple_additional_client_ids"@, opt_text(self.external_apple_additional_client_ids))
            + text_member("external_apple_client_id"@, opt_text(self.external_apple_client_id))
            + flag_member("external_apple_enabled"@, self.external_apple_enabled)
            + text_member("external_apple_secret"@, opt_text(self.external_apple_secret))
            + text_member("external_azure_client_id"@, opt_text(self.external_azure_client_id))
            + flag_member("external_azure_enabled"@, self.external_azure_enabled)
            + text_member("external_azure_secret"@, opt_text(self.external_azure_secret))
            + text_member("external_azure_url"@, opt_text(self.external_azure_url))
            + text_member("external_bitbucket_client_id"@, opt_text(self.external_bitbucket_client_id))
            + flag_member("external_bitbucket_enabled"@, self.external_bitbucket_enabled)
            + text_member("external_bitbucket_secret"@, opt_text(self.external_bitbucket_secret))
            + text_member("external_discord_client_id"@, opt_text(self.external_discord_client_id))
            + flag_member("external_discord_enabled"@, self.external_discord_enabled)
            + text_member("external_discord_secret"@, opt_text(self.external_discord_secret))
            + flag_member("external_email_enabled"@, self.external_email_enabled)
            + text_member("external_facebook_client_id"@, opt_text(self.external_facebook_client_id))
            + flag_member("external_facebook_enabled"@, self.external_facebook_enabled)
            + text_member("external_facebook_secret"@, opt_text(self.external_facebook_secret))
            + text_member("external_figma_client_id"@, opt_text(self.external_figma_client_id))
            + flag_member("external_figma_enabled"@, self.external_figma_enabled)
            + text_member("external_figma_secret"@, opt_text(self.external_figma_secret))
            + text_member("external_github_client_id"@, opt_text(self.external_github_client_id))
            + flag_member("external_github_enabled"@, self.external_github_enabled)
            + text_member("external_github_secret"@, opt_text(self.external_github_secret))
            + text_member("external_gitlab_client_id"@, opt_text(self.external_gitlab_client_id))
            + flag_member("external_gitlab_enabled"@, self.external_gitlab_enabled)
            + text_member("external_gitlab_secret"@, opt_text(self.external_gitlab_secret))
            + text_member("external_gitlab_url"@, opt_text(self.external_gitlab_url))
            + text_member("external_google_additional_client_ids"@, opt_text(self.external_google_additional_client_ids))
            + text_member("external_google_client_id"@, opt_text(self.external_google_client_id))
            + flag_member("external_google_enabled"@, self.external_google_enabled)
            + text_member("external_google_secret"@, opt_text(self.external_google_secret))
            + flag_member("external_google_skip_nonce_check"@, self.external_google_skip_nonce_check)
            + text_member("external_kakao_client_id"@, opt_text(self.external_kakao_client_id))
            + flag_member("external_kakao_enabled"@, self.external_kakao_enabled)
            + text_member("external_kakao_secret"@, opt_text(self.external_kakao_secret))
            + text_member("external_keycloak_client_id"@, opt_text(self.external_keycloak_client_id))
            + flag_member("external_keycloak_enabled"@, self.external_keycloak_enabled)
            + text_member("external_keycloak_secret"@, opt_text(self.external_keycloak_secret))
            + text_member("external_keycloak_url"@, opt_text(self.external_keycloak_url))
            + text_member("external_linkedin_oidc_client_id"@, opt_text(self.external_linkedin_oidc_client_id))
            + flag_member("external_linkedin_oidc_enabled"@, self.external_linkedin_oidc_enabled)
            + text_member("external_linkedin_oidc_secret"@, opt_text(self.external_linkedin_oidc_secret))
            + text_member("external_notion_client_id"@, opt_text(self.external_notion_client_id))
            + flag_member("external_notion_enabled"@, self.external_notion_enabled)
            + text_member("external_notion_secret"@, opt_text(self.external_notion_secret))
            + flag_member("external_phone_enabled"@, self.external_phone_enabled)
            + text_member("external_slack_client_id"@, opt_text(self.external_slack_client_id))
            + flag_member("external_slack_enabled"@, self.external_slack_enabled)
            + text_member("external_slack_oidc_client_id"@, opt_text(self.external_slack_oidc_client_id))
            + flag_member("external_slack_oidc_enabled"@, self.external_slack_oidc_enabled)
            + text_member("external_slack_oidc_secret"@, opt_text(self.external_slack_oidc_secret))
            + text_member("external_slack_secret"@, opt_text(self.external_slack_secret))
            + text_member("external_spotify_client_id"@, opt_text(self.external_spotify_client_id))
            + flag_member("external_spotify_enabled"@, self.external_spotify_enabled)
            + text_member("external_spotify_secret"@, opt_text(self.external_spotify_secret))
            + text_member("external_twitch_client_id"@, opt_text(self.external_twitch_client_id))
            + flag_member("external_twitch_enabled"@, self.external_twitch_enabled)
            + text_member("external_twitch_secret"@, opt_text(self.external_twitch_secret))
            + text_member("external_twitter_client_id"@, opt_text(self.external_twitter_client_id))
            + flag_member("external_twitter_enabled"@, self.external_twitter_enabled)
            + text_member("external_twitter_secret"@, opt_text(self.external_twitter_secret))
            + flag_member("external_web3_solana_enabled"@, self.external_web3_solana_enabled)
            + text_member("external_workos_client_id"@, opt_text(self.external_workos_client_id))
            + flag_member("external_workos_enabled"@, self.external_workos_enabled)
            + text_member("external_workos_secret"@, opt_text(self.external_workos_secret))
            + text_member("external_workos_url"@, opt_text(self.external_workos_url))
            + text_member("external_zoom_client_id"@, opt_text(self.external_zoom_client_id))
            + flag_member("external_zoom_enabled"@, self.external_zoom_enabled)
            + text_member("external_zoom_secret"@, opt_text(self.external_zoom_secret))
            + flag_member("hook_custom_access_token_enabled"@, self.hook_custom_access_token_enabled)
            + text_member("hook_custom_access_token_secrets"@, opt_text(self.hook_custom_access_token_secrets))
            + text_member("hook_custom_access_token_uri"@, opt_text(self.hook_custom_access_token_uri))
            + flag_member("hook_mfa_verification_attempt_enabled"@, self.hook_mfa_verification_attempt_enabled)
            + text_member("hook_mfa_verification_attempt_secrets"@, opt_text(self.hook_mfa_verification_attempt_secrets))
            + text_member("hook_mfa_verification_attempt_uri"@, opt_text(self.hook_mfa_verification_attempt_uri))
            + flag_member("hook_password_verification_attempt_enabled"@, self.hook_password_verification_attempt_enabled)
            + text_member("hook_password_verification_attempt_secrets"@, opt_text(self.hook_password_verification_attempt_secrets))
            + text_member("hook_password_verification_attempt_uri"@, opt_text(self.hook_password_verification_attempt_uri))
            + flag_member("hook_send_email_enabled"@, self.hook_send_email_enabled)
            + text_member("hook_send_email_secrets"@, opt_text(self.hook_send_email_secrets))
            + text_member("hook_send_email_uri"@, opt_text(self.hook_send_email_uri))
            + flag_member("hook_send_sms_enabled"@, self.hook_send_sms_enabled)
            + text_member("hook_send_sms_secrets"@, opt_text(self.hook_send_sms_secrets))
            + text_member("hook_send_sms_uri"@, opt_text(self.hook_send_sms_uri))
            + count_member("jwt_exp"@, self.jwt_exp)
            + flag_member("mailer_allow_unverified_email_sign_ins"@, self.mailer_allow_unverified_email_sign_ins)
            + flag_member("mailer_autoconfirm"@, self.mailer_autoconfirm)
            + count_member("mailer_otp_exp"@, self.mailer_otp_exp)
            + count_member("mailer_otp_length"@, self.mailer_otp_length)
            + flag_member("mailer_secure_email_change_enabled"@, self.mailer_secure_email_change_enabled)
            + text_member("mailer_subjects_confirmation"@, opt_text(self.mailer_subjects_confirmation))
            + text_member("mailer_subjects_email_change"@, opt_text(self.mailer_subjects_email_change))
            + text_member("mailer_subjects_invite"@, opt_text(self.mailer_subjects_invite))
            + text_member("mailer_subjects_magic_link"@, opt_text(self.mailer_subjects_magic_link))
            + text_member("mailer_subjects_reauthentication"@, opt_text(self.mailer_subjects_reauthentication))
            + text_member("mailer_subjects_recovery"@, opt_text(self.mailer_subjects_recovery))
            + text_member("mailer_templates_confirmation_content"@, opt_text(self.mailer_templates_confirmation_content))
            + text_member("mailer_templates_email_change_content"@, opt_text(self.mailer_templates_email_change_content))
            + text_member("mailer_templates_invite_content"@, opt_text(self.mailer_templates_invite_content))
            + text_member("mailer_templates_magic_link_content"@, opt_text(self.mailer_templates_magic_link_content))
            + text_member("mailer_templates_reauthentication_content"@, opt_text(self.mailer_templates_reauthentication_content))
            + text_member("mailer_templates_recovery_content"@, opt_text(self.mailer_templates_recovery_content))
            + count_member("mfa_max_enrolled_factors"@, self.mfa_max_enrolled_factors)
            + flag_member("mfa_phone_enroll_enabled"@, self.mfa_phone_enroll_enabled)
            + count_member("mfa_phone_max_frequency"@, self.mfa_phone_max_frequency)
            + count_member("mfa_phone_otp_length"@, self.mfa_phone_otp_length)
            + text_member("mfa_phone_template"@, opt_text(self.mfa_phone_template))
            + flag_member("mfa_phone_verify_enabled"@, self.mfa_phone_verify_enabled)
            + flag_member("mfa_totp_enroll_enabled"@, self.mfa_totp_enroll_enabled)
            + flag_member("mfa_totp_verify_enabled"@, self.mfa_totp_verify_enabled)
            + flag_member("mfa_web_authn_enroll_enabled"@, self.mfa_web_authn_enroll_enabled)
            + flag_member("mfa_web_authn_verify_enabled"@, self.mfa_web_authn_verify_enabled)
            + flag_member("password_hibp_enabled"@, self.password_hibp_enabled)
            + count_member("password_min_length"@, self.password_min_length)
            + text_member("password_required_characters"@, opt_text(self.password_required_characters))
            + count_member("rate_limit_anonymous_users"@, self.rate_limit_anonymous_users)
            + count_member("rate_limit_email_sent"@, self.rate_limit_email_sent)
            + count_member("rate_limit_otp"@, self.rate_limit_otp)
            + count_member("rate_limit_sms_sent"@, self.rate_limit_sms_sent)
            + count_member("rate_limit_token_refresh"@, self.rate_limit_token_refresh)
            + count_member("rate_limit_verify"@, self.rate_limit_verify)
            + count_member("rate_limit_web3"@, self.rate_limit_web3)
            + flag_member("refresh_token_rotation_enabled"@, self.refresh_token_rotation_enabled)
            + flag_member("saml_allow_encrypted_assertions"@, self.saml_allow_encrypted_assertions)
            + flag_member("saml_enabled"@, self.saml_enabled)
            + text_member("saml_external_url"@, opt_text(self.saml_external_url))
            + flag_member("security_captcha_enabled"@, self.security_captcha_enabled)
            + text_member("security_captcha_provider"@, opt_text(self.security_captcha_provider))
            + text_member("security_captcha_secret"@, opt_text(self.security_captcha_secret))
            + flag_member("security_manual_linking_enabled"@, self.security_manual_linking_enabled)
            + count_member("security_refresh_token_reuse_interval"@, self.security_refresh_token_reuse_interval)
            + flag_member("security_update_password_require_reauthentication"@, self.security_update_password_require_reauthentication)
            + count_member("sessions_inactivity_timeout"@, self.sessions_inactivity_timeout)
            + flag_member("sessions_single_per_user"@, self.sessions_single_per_user)
            + text_member("sessions_tags"@, opt_text(self.sessions_tags))
            + count_member("sessions_timebox"@, self.sessions_timebox)
            + text_member("site_url"@, opt_text(self.site_url))
            + flag_member("sms_autoconfirm"@, self.sms_autoconfirm)
            + count_member("sms_max_frequency"@, self.sms_max_frequency)
            + text_member("sms_messagebird_access_key"@, opt_text(self.sms_messagebird_access_key))
            + text_member("sms_messagebird_originator"@, opt_text(self.sms_messagebird_originator))
            + count_member("sms_otp_exp"@, self.sms_otp_exp)
            + count_member("sms_otp_length"@, self.sms_otp_length)
            + text_member("sms_provider"@, opt_text(self.sms_provider))
            + text_member("sms_template"@, opt_text(self.sms_template))
            + text_member("sms_test_otp"@, opt_text(self.sms_test_otp))
            + text_member("sms_test_otp_valid_until"@, opt_text(self.sms_test_otp_valid_until))
            + text_member("sms_textlocal_api_key"@, opt_text(self.sms_textlocal_api_key))
            + text_member("sms_textlocal_sender"@, opt_text(self.sms_textlocal_sender))
            + text_member("sms_twilio_account_sid"@, opt_text(self.sms_twilio_account_sid))
            + text_member("sms_twilio_auth_token"@, opt_text(self.sms_twilio_auth_token))
            + text_member("sms_twilio_content_sid"@, opt_text(self.sms_twilio_content_sid))
            + text_member("sms_twilio_message_service_sid"@, opt_text(self.sms_twilio_message_service_sid))
            + text_member("sms_twilio_verify_account_sid"@, opt_text(self.sms_twilio_verify_account_sid))
            + text_member("sms_twilio_verify_auth_token"@, opt_text(self.sms_twilio_verify_auth_token))
            + text_member("sms_twilio_verify_message_service_sid"@, opt_text(self.sms_twilio_verify_message_service_sid))
            + text_member("sms_vonage_api_key"@, opt_text(self.sms_vonage_api_key))
            + text_member("sms_vonage_api_secret"@, opt_text(self.sms_vonage_api_secret))
            + text_member("sms_vonage_from"@, opt_text(self.sms_vonage_from))
            + text_member("smtp_admin_email"@, opt_text(self.smtp_admin_email))
            + text_member("smtp_host"@, opt_text(self.smtp_host))
            + count_member("smtp_max_frequency"@, self.smtp_max_frequency)
            + text_member("smtp_pass"@, opt_text(self.smtp_pass))
            + count_member("smtp_port"@, self.smtp_port)
            + text_member("smtp_sender_name"@, opt_text(self.smtp_sender_name))
            + text_member("smtp_user"@, opt_text(self.smtp_user))
            + text_member("uri_allow_list"@, opt_text(self.uri_allow_list))
    }

    /// Whether the members of a document can be read as a configuration:
    /// every known key that is there has a value of its kind. Keys that
    /// are not known do not matter.
    pub closed spec fn decodable(members: Seq<JsonMemberView>) -> bool {
        &&& flag_of(members, "disable_signup"@) is Some
        &&& flag_of(members, "external_anonymous_users_enabled"@) is Some
        &&& text_of(members, "external_apple_additional_client_ids"@) is Some
        &&& text_of(members, "external_apple_client_id"@) is Some
        &&& flag_of(members, "external_apple_enabled"@) is Some
        &&& text_of(members, "external_apple_secret"@) is Some
        &&& text_of(members, "external_azure_client_id"@) is Some
        &&& flag_of(members, "external_azure_enabled"@) is Some
        &&& text_of(members, "external_azure_secret"@) is Some
        &&& text_of(members, "external_azure_url"@) is Some
        &&& text_of(members, "external_bitbucket_client_id"@) is Some
        &&& flag_of(members, "external_bitbucket_enabled"@) is Some
        &&& text_of(members, "external_bitbucket_secret"@) is Some
        &&& text_of(members, "external_discord_client_id"@) is Some
        &&& flag_of(members, "external_discord_enabled"@) is Some
        &&& text_of(members, "external_discord_secret"@) is Some
        &&& flag_of(members, "external_email_enabled"@) is Some
        &&& text_of(members, "external_facebook_client_id"@) is Some
        &&& flag_of(members, "external_facebook_enabled"@) is Some
        &&& text_of(members, "external_facebook_secret"@) is Some
        &&& text_of(members, "external_figma_client_id"@) is Some
        &&& flag_of(members, "external_figma_enabled"@) is Some
        &&& text_of(members, "external_figma_secret"@) is Some
        &&& text_of(members, "external_github_client_id"@) is Some
        &&& flag_of(members, "external_github_enabled"@) is Some
        &&& text_of(members, "external_github_secret"@) is Some
        &&& text_of(members, "external_gitlab_client_id"@) is Some
        &&& flag_of(members, "external_gitlab_enabled"@) is Some
        &&& text_of(members, "external_gitlab_secret"@) is Some
        &&& text_of(members, "external_gitlab_url"@) is Some
        &&& text_of(members, "external_google_additional_client_ids"@) is Some
        &&& text_of(members, "external_google_client_id"@) is Some
        &&& flag_of(members, "external_google_enabled"@) is Some
        &&& text_of(members, "external_google_secret"@) is Some
        &&& flag_of(members, "external_google_skip_nonce_check"@) is Some
        &&& text_of(members, "external_kakao_client_id"@) is Some
        &&& flag_of(members, "external_kakao_enabled"@) is Some
        &&& text_of(members, "external_kakao_secret"@) is Some
        &&& text_of(members, "external_keycloak_client_id"@) is Some
        &&& flag_of(members, "external_keycloak_enabled"@) is Some
        &&& text_of(members, "external_keycloak_secret"@) is Some
        &&& text_of(members, "external_keycloak_url"@) is Some
        &&& text_of(members, "external_linkedin_oidc_client_id"@) is Some
        &&& flag_of(members, "external_linkedin_oidc_enabled"@) is Some
        &&& text_of(members, "external_linkedin_oidc_secret"@) is Some
        &&& text_of(members, "external_notion_client_id"@) is Some
        &&& flag_of(members, "external_notion_enabled"@) is Some
        &&& text_of(members, "external_notion_secret"@) is Some
        &&& flag_of(members, "external_phone_enabled"@) is Some
        &&& text_of(members, "external_slack_client_id"@) is Some
        &&& flag_of(members, "external_slack_enabled"@) is Some
        &&& text_of(members, "external_slack_oidc_client_id"@) is Some
        &&& flag_of(members, "external_slack_oidc_enabled"@) is Some
        &&& text_of(members, "external_slack_oidc_secret"@) is Some
        &&& text_of(members, "external_slack_secret"@) is Some
        &&& text_of(members, "external_spotify_client_id"@) is Some
        &&& flag_of(members, "external_spotify_enabled"@) is Some
        &&& text_of(members, "external_spotify_secret"@) is Some
        &&& text_of(members, "external_twitch_client_id"@) is Some
        &&& flag_of(members, "external_twitch_enabled"@) is Some
        &&& text_of(members, "external_twitch_secret"@) is Some
        &&& text_of(members, "external_twitter_client_id"@) is Some
        &&& flag_of(members, "external_twitter_enabled"@) is Some
        &&& text_of(members, "external_twitter_secret"@) is Some
        &&& flag_of(members, "external_web3_solana_enabled"@) is Some
        &&& text_of(members, "external_workos_client_id"@) is Some
        &&& flag_of(members, "external_workos_enabled"@) is Some
        &&& text_of(members, "external_workos_secret"@) is Some
        &&& text_of(members, "external_workos_url"@) is Some
        &&& text_of(members, "external_zoom_client_id"@) is Some
        &&& flag_of(members, "external_zoom_enabled"@) is Some
        &&& text_of(members, "external_zoom_secret"@) is Some
        &&& flag_of(members, "hook_custom_access_token_enabled"@) is Some
        &&& text_of(members, "hook_custom_access_token_secrets"@) is Some
        &&& text_of(members, "hook_custom_access_token_uri"@) is Some
        &&& flag_of(members, "hook_mfa_verification_attempt_enabled"@) is Some
        &&& text_of(members, "hook_mfa_verification_attempt_secrets"@) is Some
        &&& text_of(members, "hook_mfa_verification_attempt_uri"@) is Some
        &&& flag_of(members, "hook_password_verification_attempt_enabled"@) is Some
        &&& text_of(members, "hook_password_verification_attempt_secrets"@) is Some
        &&& text_of(members, "hook_password_verification_attempt_uri"@) is Some
        &&& flag_of(members, "hook_send_email_enabled"@) is Some
        &&& text_of(members, "hook_send_email_secrets"@) is Some
        &&& text_of(members, "hook_send_email_uri"@) is Some
        &&& flag_of(members, "hook_send_sms_enabled"@) is Some
        &&& text_of(members, "hook_send_sms_secrets"@) is Some
        &&& text_of(members, "hook_send_sms_uri"@) is Some
        &&& count_of(members, "jwt_exp"@) is Some
        &&& flag_of(members, "mailer_allow_unverified_email_sign_ins"@) is Some
        &&& flag_of(members, "mailer_autoconfirm"@) is Some
        &&& count_of(members, "mailer_otp_exp"@) is Some
        &&& count_of(members, "mailer_otp_length"@) is Some
        &&& flag_of(members, "mailer_secure_email_change_enabled"@) is Some
        &&& text_of(members, "mailer_subjects_confirmation"@) is Some
        &&& text_of(members, "mailer_subjects_email_change"@) is Some
        &&& text_of(members, "mailer_subjects_invite"@) is Some
        &&& text_of(members, "mailer_subjects_magic_link"@) is Some
        &&& text_of(members, "mailer_subjects_reauthentication"@) is Some
        &&& text_of(members, "mailer_subjects_recovery"@) is Some
        &&& text_of(members, "mailer_templates_confirmation_content"@) is Some
        &&& text_of(members, "mailer_templates_email_change_content"@) is Some
        &&& text_of(members, "mailer_templates_invite_content"@) is Some
        &&& text_of(members, "mailer_templates_magic_link_content"@) is Some
        &&& text_of(members, "mailer_templates_reauthentication_content"@) is Some
        &&& text_of(members, "mailer_templates_recovery_content"@) is Some
        &&& count_of(members, "mfa_max_enrolled_factors"@) is Some
        &&& flag_of(members, "mfa_phone_enroll_enabled"@) is Some
        &&& count_of(members, "mfa_phone_max_frequency"@) is Some
        &&& count_of(members, "mfa_phone_otp_length"@) is Some
        &&& text_of(members, "mfa_phone_template"@) is Some
        &&& flag_of(members, "mfa_phone_verify_enabled"@) is Some
        &&& flag_of(members, "mfa_totp_enroll_enabled"@) is Some
        &&& flag_of(members, "mfa_totp_verify_enabled"@) is Some
        &&& flag_of(members, "mfa_web_authn_enroll_enabled"@) is Some
        &&& flag_of(members, "mfa_web_authn_verify_enabled"@) is Some
        &&& flag_of(members, "password_hibp_enabled"@) is Some
        &&& count_of(members, "password_min_length"@) is Some
        &&& text_of(members, "password_required_characters"@) is Some
        &&& count_of(members, "rate_limit_anonymous_users"@) is Some
        &&& count_of(members, "rate_limit_email_sent"@) is Some
        &&& count_of(members, "rate_limit_otp"@) is Some
        &&& count_of(members, "rate_limit_sms_sent"@) is Some
        &&& count_of(members, "rate_limit_token_refresh"@) is Some
        &&& count_of(members, "rate_limit_verify"@) is Some
        &&& count_of(members, "rate_limit_web3"@) is Some
        &&& flag_of(members, "refresh_token_rotation_enabled"@) is Some
        &&& flag_of(members, "saml_allow_encrypted_assertions"@) is Some
        &&& flag_of(members, "saml_enabled"@) is Some
        &&& text_of(members, "saml_external_url"@) is Some
        &&& flag_of(members, "security_captcha_enabled"@) is Some
        &&& text_of(members, "security_captcha_provider"@) is Some
        &&& text_of(members, "security_captcha_secret"@) is Some
        &&& flag_of(members, "security_manual_linking_enabled"@) is Some
        &&& count_of(members, "security_refresh_token_reuse_interval"@) is Some
        &&& flag_of(members, "security_update_password_require_reauthentication"@) is Some
        &&& count_of(members, "sessions_inactivity_timeout"@) is Some
        &&& flag_of(members, "sessions_single_per_user"@) is Some
        &&& text_of(members, "sessions_tags"@) is Some
        &&& count_of(members, "sessions_timebox"@) is Some
        &&& text_of(members, "site_url"@) is Some
        &&& flag_of(members, "sms_autoconfirm"@) is Some
        &&& count_of(members, "sms_max_frequency"@) is Some
        &&& text_of(members, "sms_messagebird_access_key"@) is Some
        &&& text_of(members, "sms_messagebird_originator"@) is Some
        &&& count_of(members, "sms_otp_exp"@) is Some
        &&& count_of(members, "sms_otp_length"@) is Some
        &&& text_of(members, "sms_provider"@) is Some
        &&& text_of(members, "sms_template"@) is Some
        &&& text_of(members, "sms_test_otp"@) is Some
        &&& text_of(members, "sms_test_otp_valid_until"@) is Some
        &&& text_of(members, "sms_textlocal_api_key"@) is Some
        &&& text_of(members, "sms_textlocal_sender"@) is Some
        &&& text_of(members, "sms_twilio_account_sid"@) is Some
        &&& text_of(members, "sms_twilio_auth_token"@) is Some
        &&& text_of(members, "sms_twilio_content_sid"@) is Some
        &&& text_of(members, "sms_twilio_message_service_sid"@) is Some
        &&& text_of(members, "sms_twilio_verify_account_sid"@) is Some
        &&& text_of(members, "sms_twilio_verify_auth_token"@) is Some
        &&& text_of(members, "sms_twilio_verify_message_service_sid"@) is Some
        &&& text_of(members, "sms_vonage_api_key"@) is Some
        &&& text_of(members, "sms_vonage_api_secret"@) is Some
        &&& text_of(members, "sms_vonage_from"@) is Some
        &&& text_of(members, "smtp_admin_email"@) is Some
        &&& text_of(members, "smtp_host"@) is Some
        &&& count_of(members, "smtp_max_frequency"@) is Some
        &&& text_of(members, "smtp_pass"@) is Some
        &&& count_of(members, "smtp_port"@) is Some
        &&& text_of(members, "smtp_sender_name"@) is Some
        &&& text_of(members, "smtp_user"@) is Some
        &&& text_of(members, "uri_allow_list"@) is Some
    }

    /// Whether the configuration is what the members of a document say:
    /// each setting has the value of its key, and is unset where the key
    /// is missing or null.
    pub closed spec fn decoded(self, members: Seq<JsonMemberView>) -> bool {
        &&& flag_of(members, "disable_signup"@) == Some(self.disable_signup)
        &&& flag_of(members, "external_anonymous_users_enabled"@) == Some(self.external_anonymous_users_enabled)
        &&& text_of(members, "external_apple_additional_client_ids"@) == Some(opt_text(self.external_apple_additional_client_ids))
        &&& text_of(members, "external_apple_client_id"@) == Some(opt_text(self.external_apple_client_id))
        &&& flag_of(members, "external_apple_enabled"@) == Some(self.external_apple_enabled)
        &&& text_of(members, "external_apple_secret"@) == Some(opt_text(self.external_apple_secret))
        &&& text_of(members, "external_azure_client_id"@) == Some(opt_text(self.external_azure_client_id))
        &&& flag_of(members, "external_azure_enabled"@) == Some(self.external_azure_enabled)
        &&& text_of(members, "external_azure_secret"@) == Some(opt_text(self.external_azure_secret))
        &&& text_of(members, "external_azure_url"@) == Some(opt_text(self.external_azure_url))
        &&& text_of(members, "external_bitbucket_client_id"@) == Some(opt_text(self.external_bitbucket_client_id))
        &&& flag_of(members, "external_bitbucket_enabled"@) == Some(self.external_bitbucket_enabled)
        &&& text_of(members, "external_bitbucket_secret"@) == Some(opt_text(self.external_bitbucket_secret))
        &&& text_of(members, "external_discord_client_id"@) == Some(opt_text(self.external_discord_client_id))
        &&& flag_of(members, "external_discord_enabled"@) == Some(self.external_discord_enabled)
        &&& text_of(members, "external_discord_secret"@) == Some(opt_text(self.external_discord_secret))
        &&& flag_of(members, "external_email_enabled"@) == Some(self.external_email_enabled)
        &&& text_of(members, "external_facebook_client_id"@) == Some(opt_text(self.external_facebook_client_id))
        &&& flag_of(members, "external_facebook_enabled"@) == Some(self.external_facebook_enabled)
        &&& text_of(members, "external_facebook_secret"@) == Some(opt_text(self.external_facebook_secret))
        &&& text_of(members, "external_figma_client_id"@) == Some(opt_text(self.external_figma_client_id))
        &&& flag_of(members, "external_figma_enabled"@) == Some(self.external_figma_enabled)
        &&& text_of(members, "external_figma_secret"@) == Some(opt_text(self.external_figma_secret))
        &&& text_of(members, "external_github_client_id"@) == Some(opt_text(self.external_github_client_id))
        &&& flag_of(members, "external_github_enabled"@) == Some(self.external_github_enabled)
        &&& text_of(members, "external_github_secret"@) == Some(opt_text(self.external_github_secret))
        &&& text_of(members, "external_gitlab_client_id"@) == Some(opt_text(self.external_gitlab_client_id))
        &&& flag_of(members, "external_gitlab_enabled"@) == Some(self.external_gitlab_enabled)
        &&& text_of(members, "external_gitlab_secret"@) == Some(opt_text(self.external_gitlab_secret))
        &&& text_of(members, "external_gitlab_url"@) == Some(opt_text(self.external_gitlab_url))
        &&& text_of(members, "external_google_additional_client_ids"@) == Some(opt_text(self.external_google_additional_client_ids))
        &&& text_of(members, "external_google_client_id"@) == Some(opt_text(self.external_google_client_id))
        &&& flag_of(members, "external_google_enabled"@) == Some(self.external_google_enabled)
        &&& text_of(members, "external_google_secret"@) == Some(opt_text(self.external_google_secret))
        &&& flag_of(members, "external_google_skip_nonce_check"@) == Some(self.external_google_skip_nonce_check)
        &&& text_of(members, "external_kakao_client_id"@) == Some(opt_text(self.external_kakao_client_id))
        &&& flag_of(members, "external_kakao_enabled"@) == Some(self.external_kakao_enabled)
        &&& text_of(members, "external_kakao_secret"@) == Some(opt_text(self.external_kakao_secret))
        &&& text_of(members, "external_keycloak_client_id"@) == Some(opt_text(self.external_keycloak_client_id))
        &&& flag_of(members, "external_keycloak_enabled"@) == Some(self.external_keycloak_enabled)
        &&& text_of(members, "external_keycloak_secret"@) == Some(opt_text(self.external_keycloak_secret))
        &&& text_of(members, "external_keycloak_url"@) == Some(opt_text(self.external_keycloak_url))
        &&& text_of(members, "external_linkedin_oidc_client_id"@) == Some(opt_text(self.external_linkedin_oidc_client_id))
        &&& flag_of(members, "external_linkedin_oidc_enabled"@) == Some(self.external_linkedin_oidc_enabled)
        &&& text_of(members, "external_linkedin_oidc_secret"@) == Some(opt_text(self.external_linkedin_oidc_secret))
        &&& text_of(members, "external_notion_client_id"@) == Some(opt_text(self.external_notion_client_id))
        &&& flag_of(members, "external_notion_enabled"@) == Some(self.external_notion_enabled)
        &&& text_of(members, "external_notion_secret"@) == Some(opt_text(self.external_notion_secret))
        &&& flag_of(members, "external_phone_enabled"@) == Some(self.external_phone_enabled)
        &&& text_of(members, "external_slack_client_id"@) == Some(opt_text(self.external_slack_client_id))
        &&& flag_of(members, "external_slack_enabled"@) == Some(self.external_slack_enabled)
        &&& text_of(members, "external_slack_oidc_client_id"@) == Some(opt_text(self.external_slack_oidc_client_id))
        &&& flag_of(members, "external_slack_oidc_enabled"@) == Some(self.external_slack_oidc_enabled)
        &&& text_of(members, "external_slack_oidc_secret"@) == Some(opt_text(self.external_slack_oidc_secret))
        &&& text_of(members, "external_slack_secret"@) == Some(opt_text(self.external_slack_secret))
        &&& text_of(members, "external_spotify_client_id"@) == Some(opt_text(self.external_spotify_client_id))
        &&& flag_of(members, "external_spotify_enabled"@) == Some(self.external_spotify_enabled)
        &&& text_of(members, "external_spotify_secret"@) == Some(opt_text(self.external_spotify_secret))
        &&& text_of(members, "external_twitch_client_id"@) == Some(opt_text(self.external_twitch_client_id))
        &&& flag_of(members, "external_twitch_enabled"@) == Some(self.external_twitch_enabled)
        &&& text_of(members, "external_twitch_secret"@) == Some(opt_text(self.external_twitch_secret))
        &&& text_of(members, "external_twitter_client_id"@) == Some(opt_text(self.external_twitter_client_id))
        &&& flag_of(members, "external_twitter_enabled"@) == Some(self.external_twitter_enabled)
        &&& text_of(members, "external_twitter_secret"@) == Some(opt_text(self.external_twitter_secret))
        &&& flag_of(members, "external_web3_solana_enabled"@) == Some(self.external_web3_solana_enabled)
        &&& text_of(members, "external_workos_client_id"@) == Some(opt_text(self.external_workos_client_id))
        &&& flag_of(members, "external_workos_enabled"@) == Some(self.external_workos_enabled)
        &&& text_of(members, "external_workos_secret"@) == Some(opt_text(self.external_workos_secret))
        &&& text_of(members, "external_workos_url"@) == Some(opt_text(self.external_workos_url))
        &&& text_of(members, "external_zoom_client_id"@) == Some(opt_text(self.external_zoom_client_id))
        &&& flag_of(members, "external_zoom_enabled"@) == Some(self.external_zoom_enabled)
        &&& text_of(members, "external_zoom_secret"@) == Some(opt_text(self.external_zoom_secret))
        &&& flag_of(members, "hook_custom_access_token_enabled"@) == Some(self.hook_custom_access_token_enabled)
        &&& text_of(members, "hook_custom_access_token_secrets"@) == Some(opt_text(self.hook_custom_access_token_secrets))
        &&& text_of(members, "hook_custom_access_token_uri"@) == Some(opt_text(self.hook_custom_access_token_uri))
        &&& flag_of(members, "hook_mfa_verification_attempt_enabled"@) == Some(self.hook_mfa_verification_attempt_enabled)
        &&& text_of(members, "hook_mfa_verification_attempt_secrets"@) == Some(opt_text(self.hook_mfa_verification_attempt_secrets))
        &&& text_of(members, "hook_mfa_verification_attempt_uri"@) == Some(opt_text(self.hook_mfa_verification_attempt_uri))
        &&& flag_of(members, "hook_password_verification_attempt_enabled"@) == Some(self.hook_password_verification_attempt_enabled)
        &&& text_of(members, "hook_password_verification_attempt_secrets"@) == Some(opt_text(self.hook_password_verification_attempt_secrets))
        &&& text_of(members, "hook_password_verification_attempt_uri"@) == Some(opt_text(self.hook_password_verification_attempt_uri))
        &&& flag_of(members, "hook_send_email_enabled"@) == Some(self.hook_send_email_enabled)
        &&& text_of(members, "hook_send_email_secrets"@) == Some(opt_text(self.hook_send_email_secrets))
        &&& text_of(members, "hook_send_email_uri"@) == Some(opt_text(self.hook_send_email_uri))
        &&& flag_of(members, "hook_send_sms_enabled"@) == Some(self.hook_send_sms_enabled)
        &&& text_of(members, "hook_send_sms_secrets"@) == Some(opt_text(self.hook_send_sms_secrets))
        &&& text_of(members, "hook_send_sms_uri"@) == Some(opt_text(self.hook_send_sms_uri))
        &&& count_of(members, "jwt_exp"@) == Some(self.jwt_exp)
        &&& flag_of(members, "mailer_allow_unverified_email_sign_ins"@) == Some(self.mailer_allow_unverified_email_sign_ins)
        &&& flag_of(members, "mailer_autoconfirm"@) == Some(self.mailer_autoconfirm)
        &&& count_of(members, "mailer_otp_exp"@) == Some(self.mailer_otp_exp)
        &&& count_of(members, "mailer_otp_length"@) == Some(self.mailer_otp_length)
        &&& flag_of(members, "mailer_secure_email_change_enabled"@) == Some(self.mailer_secure_email_change_enabled)
        &&& text_of(members, "mailer_subjects_confirmation"@) == Some(opt_text(self.mailer_subjects_confirmation))
        &&& text_of(members, "mailer_subjects_email_change"@) == Some(opt_text(self.mailer_subjects_email_change))
        &&& text_of(members, "mailer_subjects_invite"@) == Some(opt_text(self.mailer_subjects_invite))
        &&& text_of(members, "mailer_subjects_magic_link"@) == Some(opt_text(self.mailer_subjects_magic_link))
        &&& text_of(members, "mailer_subjects_reauthentication"@) == Some(opt_text(self.mailer_subjects_reauthentication))
        &&& text_of(members, "mailer_subjects_recovery"@) == Some(opt_text(self.mailer_subjects_recovery))
        &&& text_of(members, "mailer_templates_confirmation_content"@) == Some(opt_text(self.mailer_templates_confirmation_content))
        &&& text_of(members, "mailer_templates_email_change_content"@) == Some(opt_text(self.mailer_templates_email_change_content))
        &&& text_of(members, "mailer_templates_invite_content"@) == Some(opt_text(self.mailer_templates_invite_content))
        &&& text_of(members, "mailer_templates_magic_link_content"@) == Some(opt_text(self.mailer_templates_magic_link_content))
        &&& text_of(members, "mailer_templates_reauthentication_content"@) == Some(opt_text(self.mailer_templates_reauthentication_content))
        &&& text_of(members, "mailer_templates_recovery_content"@) == Some(opt_text(self.mailer_templates_recovery_content))
        &&& count_of(members, "mfa_max_enrolled_factors"@) == Some(self.mfa_max_enrolled_factors)
        &&& flag_of(members, "mfa_phone_enroll_enabled"@) == Some(self.mfa_phone_enroll_enabled)
        &&& count_of(members, "mfa_phone_max_frequency"@) == Some(self.mfa_phone_max_frequency)
        &&& count_of(members, "mfa_phone_otp_length"@) == Some(self.mfa_phone_otp_length)
        &&& text_of(members, "mfa_phone_template"@) == Some(opt_text(self.mfa_phone_template))
        &&& flag_of(members, "mfa_phone_verify_enabled"@) == Some(self.mfa_phone_verify_enabled)
        &&& flag_of(members, "mfa_totp_enroll_enabled"@) == Some(self.mfa_totp_enroll_enabled)
        &&& flag_of(members, "mfa_totp_verify_enabled"@) == Some(self.mfa_totp_verify_enabled)
        &&& flag_of(members, "mfa_web_authn_enroll_enabled"@) == Some(self.mfa_web_authn_enroll_enabled)
        &&& flag_of(members, "mfa_web_authn_verify_enabled"@) == Some(self.mfa_web_authn_verify_enabled)
        &&& flag_of(members, "password_hibp_enabled"@) == Some(self.password_hibp_enabled)
        &&& count_of(members, "password_min_length"@) == Some(self.password_min_length)
        &&& text_of(members, "password_required_characters"@) == Some(opt_text(self.password_required_characters))
        &&& count_of(members, "rate_limit_anonymous_users"@) == Some(self.rate_limit_anonymous_users)
        &&& count_of(members, "rate_limit_email_sent"@) == Some(self.rate_limit_email_sent)
        &&& count_of(members, "rate_limit_otp"@) == Some(self.rate_limit_otp)
        &&& count_of(members, "rate_limit_sms_sent"@) == Some(self.rate_limit_sms_sent)
        &&& count_of(members, "rate_limit_token_refresh"@) == Some(self.rate_limit_token_refresh)
        &&& count_of(members, "rate_limit_verify"@) == Some(self.rate_limit_verify)
        &&& count_of(members, "rate_limit_web3"@) == Some(self.rate_limit_web3)
        &&& flag_of(members, "refresh_token_rotation_enabled"@) == Some(self.refresh_token_rotation_enabled)
        &&& flag_of(members, "saml_allow_encrypted_assertions"@) == Some(self.saml_allow_encrypted_assertions)
        &&& flag_of(members, "saml_enabled"@) == Some(self.saml_enabled)
        &&& text_of(members, "saml_external_url"@) == Some(opt_text(self.saml_external_url))
        &&& flag_of(members, "security_captcha_enabled"@) == Some(self.security_captcha_enabled)
        &&& text_of(members, "security_captcha_provider"@) == Some(opt_text(self.security_captcha_provider))
        &&& text_of(members, "security_captcha_secret"@) == Some(opt_text(self.security_captcha_secret))
        &&& flag_of(members, "security_manual_linking_enabled"@) == Some(self.security_manual_linking_enabled)
        &&& count_of(members, "security_refresh_token_reuse_interval"@) == Some(self.security_refresh_token_reuse_interval)
        &&& flag_of(members, "security_update_password_require_reauthentication"@) == Some(self.security_update_password_require_reauthentication)
        &&& count_of(members, "sessions_inactivity_timeout"@) == Some(self.sessions_inactivity_timeout)
        &&& flag_of(members, "sessions_single_per_user"@) == Some(self.sessions_single_per_user)
        &&& text_of(members, "sessions_tags"@) == Some(opt_text(self.sessions_tags))
        &&& count_of(members, "sessions_timebox"@) == Some(self.sessions_timebox)
        &&& text_of(members, "site_url"@) == Some(opt_text(self.site_url))
        &&& flag_of(members, "sms_autoconfirm"@) == Some(self.sms_autoconfirm)
        &&& count_of(members, "sms_max_frequency"@) == Some(self.sms_max_frequency)
        &&& text_of(members, "sms_messagebird_access_key"@) == Some(opt_text(self.sms_messagebird_access_key))
        &&& text_of(members, "sms_messagebird_originator"@) == Some(opt_text(self.sms_messagebird_originator))
        &&& count_of(members, "sms_otp_exp"@) == Some(self.sms_otp_exp)
        &&& count_of(members, "sms_otp_length"@) == Some(self.sms_otp_length)
        &&& text_of(members, "sms_provider"@) == Some(opt_text(self.sms_provider))
        &&& text_of(members, "sms_template"@) == Some(opt_text(self.sms_template))
        &&& text_of(members, "sms_test_otp"@) == Some(opt_text(self.sms_test_otp))
        &&& text_of(members, "sms_test_otp_valid_until"@) == Some(opt_text(self.sms_test_otp_valid_until))
        &&& text_of(members, "sms_textlocal_api_key"@) == Some(opt_text(self.sms_textlocal_api_key))
        &&& text_of(members, "sms_textlocal_sender"@) == Some(opt_text(self.sms_textlocal_sender))
        &&& text_of(members, "sms_twilio_account_sid"@) == Some(opt_text(self.sms_twilio_account_sid))
        &&& text_of(members, "sms_twilio_auth_token"@) == Some(opt_text(self.sms_twilio_auth_token))
        &&& text_of(members, "sms_twilio_content_sid"@) == Some(opt_text(self.sms_twilio_content_sid))
        &&& text_of(members, "sms_twilio_message_service_sid"@) == Some(opt_text(self.sms_twilio_message_service_sid))
        &&& text_of(members, "sms_twilio_verify_account_sid"@) == Some(opt_text(self.sms_twilio_verify_account_sid))
        &&& text_of(members, "sms_twilio_verify_auth_token"@) == Some(opt_text(self.sms_twilio_verify_auth_token))
        &&& text_of(members, "sms_twilio_verify_message_service_sid"@) == Some(opt_text(self.sms_twilio_verify_message_service_sid))
        &&& text_of(members, "sms_vonage_api_key"@) == Some(opt_text(self.sms_vonage_api_key))
        &&& text_of(members, "sms_vonage_api_secret"@) == Some(opt_text(self.sms_vonage_api_secret))
        &&& text_of(members, "sms_vonage_from"@) == Some(opt_text(self.sms_vonage_from))
        &&& text_of(members, "smtp_admin_email"@) == Some(opt_text(self.smtp_admin_email))
        &&& text_of(members, "smtp_host"@) == Some(opt_text(self.smtp_host))
        &&& count_of(members, "smtp_max_frequency"@) == Some(self.smtp_max_frequency)
        &&& text_of(members, "smtp_pass"@) == Some(opt_text(self.smtp_pass))
        &&& count_of(members, "smtp_port"@) == Some(self.smtp_port)
        &&& text_of(members, "smtp_sender_name"@) == Some(opt_text(self.smtp_sender_name))
        &&& text_of(members, "smtp_user"@) == Some(opt_text(self.smtp_user))
        &&& text_of(members, "uri_allow_list"@) == Some(opt_text(self.uri_allow_list))
    }

    /// The members of the object that encodes the configuration.
    pub fn to_members(&self) -> (r: Vec<JsonMember>)
        ensures
            members_view(r@) == self.members(),
    {
        let mut out: Vec<JsonMember> = Vec::new();
        proof {
            assert(members_view(out@) =~= Seq::empty());
        }
        push_flag(&mut out, "disable_signup", &self.disable_signup);
        push_flag(&mut out, "external_anonymous_users_enabled", &self.external_anonymous_users_enabled);
        push_text(&mut out, "external_apple_additional_client_ids", &self.external_apple_additional_client_ids);
        push_text(&mut out, "external_apple_client_id", &self.external_apple_client_id);
        push_flag(&mut out, "external_apple_enabled", &self.external_apple_enabled);
        push_text(&mut out, "external_apple_secret", &self.external_apple_secret);
        push_text(&mut out, "external_azure_client_id", &self.external_azure_client_id);
        push_flag(&mut out, "external_azure_enabled", &self.external_azure_enabled);
        push_text(&mut out, "external_azure_secret", &self.external_azure_secret);
        push_text(&mut out, "external_azure_url", &self.external_azure_url);
        push_text(&mut out, "external_bitbucket_client_id", &self.external_bitbucket_client_id);
        push_flag(&mut out, "external_bitbucket_enabled", &self.external_bitbucket_enabled);
        push_text(&mut out, "external_bitbucket_secret", &self.external_bitbucket_secret);
        push_text(&mut out, "external_discord_client_id", &self.external_discord_client_id);
        push_flag(&mut out, "external_discord_enabled", &self.external_discord_enabled);
        push_text(&mut out, "external_discord_secret", &self.external_discord_secret);
        push_flag(&mut out, "external_email_enabled", &self.external_email_enabled);
        push_text(&mut out, "external_facebook_client_id", &self.external_facebook_client_id);
        push_flag(&mut out, "external_facebook_enabled", &self.external_facebook_enabled);
        push_text(&mut out, "external_facebook_secret", &self.external_facebook_secret);
        push_text(&mut out, "external_figma_client_id", &self.external_figma_client_id);
        push_flag(&mut out, "external_figma_enabled", &self.external_figma_enabled);
        push_text(&mut out, "external_figma_secret", &self.external_figma_secret);
        push_text(&mut out, "external_github_client_id", &self.external_github_client_id);
        push_flag(&mut out, "external_github_enabled", &self.external_github_enabled);
        push_text(&mut out, "external_github_secret", &self.external_github_secret);
        push_text(&mut out, "external_gitlab_client_id", &self.external_gitlab_client_id);
        push_flag(&mut out, "external_gitlab_enabled", &self.external_gitlab_enabled);
        push_text(&mut out, "external_gitlab_secret", &self.external_gitlab_secret);
        push_text(&mut out, "external_gitlab_url", &self.external_gitlab_url);
        push_text(&mut out, "external_google_additional_client_ids", &self.external_google_additional_client_ids);
        push_text(&mut out, "external_google_client_id", &self.external_google_client_id);
        push_flag(&mut out, "external_google_enabled", &self.external_google_enabled);
        push_text(&mut out, "external_google_secret", &self.external_google_secret);
        push_flag(&mut out, "external_google_skip_nonce_check", &self.external_google_skip_nonce_check);
        push_text(&mut out, "external_kakao_client_id", &self.external_kakao_client_id);
        push_flag(&mut out, "external_kakao_enabled", &self.external_kakao_enabled);
        push_text(&mut out, "external_kakao_secret", &self.external_kakao_secret);
        push_text(&mut out, "external_keycloak_client_id", &self.external_keycloak_client_id);
        push_flag(&mut out, "external_keycloak_enabled", &self.external_keycloak_enabled);
        push_text(&mut out, "external_keycloak_secret", &self.external_keycloak_secret);
        push_text(&mut out, "external_keycloak_url", &self.external_keycloak_url);
        push_text(&mut out, "external_linkedin_oidc_client_id", &self.external_linkedin_oidc_client_id);
        push_flag(&mut out, "external_linkedin_oidc_enabled", &self.external_linkedin_oidc_enabled);
        push_text(&mut out, "external_linkedin_oidc_secret", &self.external_linkedin_oidc_secret);
        push_text(&mut out, "external_notion_client_id", &self.external_notion_client_id);
        push_flag(&mut out, "external_notion_enabled", &self.external_notion_enabled);
        push_text(&mut out, "external_notion_secret", &self.external_notion_secret);
        push_flag(&mut out, "external_phone_enabled", &self.external_phone_enabled);
        push_text(&mut out, "external_slack_client_id", &self.external_slack_client_id);
        push_flag(&mut out, "external_slack_enabled", &self.external_slack_enabled);
        push_text(&mut out, "external_slack_oidc_client_id", &self.external_slack_oidc_client_id);
        push_flag(&mut out, "external_slack_oidc_enabled", &self.external_slack_oidc_enabled);
        push_text(&mut out, "external_slack_oidc_secret", &self.external_slack_oidc_secret);
        push_text(&mut out, "external_slack_secret", &self.external_slack_secret);
        push_text(&mut out, "external_spotify_client_id", &self.external_spotify_client_id);
        push_flag(&mut out, "external_spotify_enabled", &self.external_spotify_enabled);
        push_text(&mut out, "external_spotify_secret", &self.external_spotify_secret);
        push_text(&mut out, "external_twitch_client_id", &self.external_twitch_client_id);
        push_flag(&mut out, "external_twitch_enabled", &self.external_twitch_enabled);
        push_text(&mut out, "external_twitch_secret", &self.external_twitch_secret);
        push_text(&mut out, "external_twitter_client_id", &self.external_twitter_client_id);
        push_flag(&mut out, "external_twitter_enabled", &self.external_twitter_enabled);
        push_text(&mut out, "external_twitter_secret", &self.external_twitter_secret);
        push_flag(&mut out, "external_web3_solana_enabled", &self.external_web3_solana_enabled);
        push_text(&mut out, "external_workos_client_id", &self.external_workos_client_id);
        push_flag(&mut out, "external_workos_enabled", &self.external_workos_enabled);
        push_text(&mut out, "external_workos_secret", &self.external_workos_secret);
        push_text(&mut out, "external_workos_url", &self.external_workos_url);
        push_text(&mut out, "external_zoom_client_id", &self.external_zoom_client_id);
        push_flag(&mut out, "external_zoom_enabled", &self.external_zoom_enabled);
        push_text(&mut out, "external_zoom_secret", &self.external_zoom_secret);
        push_flag(&mut out, "hook_custom_access_token_enabled", &self.hook_custom_access_token_enabled);
        push_text(&mut out, "hook_custom_access_token_secrets", &self.hook_custom_access_token_secrets);
        push_text(&mut out, "hook_custom_access_token_uri", &self.hook_custom_access_token_uri);
        push_flag(&mut out, "hook_mfa_verification_attempt_enabled", &self.hook_mfa_verification_attempt_enabled);
        push_text(&mut out, "hook_mfa_verification_attempt_secrets", &self.hook_mfa_verification_attempt_secrets);
        push_text(&mut out, "hook_mfa_verification_attempt_uri", &self.hook_mfa_verification_attempt_uri);
        push_flag(&mut out, "hook_password_verification_attempt_enabled", &self.hook_password_verification_attempt_enabled);
        push_text(&mut out, "hook_password_verification_attempt_secrets", &self.hook_password_verification_attempt_secrets);
        push_text(&mut out, "hook_password_verification_attempt_uri", &self.hook_password_verification_attempt_uri);
        push_flag(&mut out, "hook_send_email_enabled", &self.hook_send_email_enabled);
        push_text(&mut out, "hook_send_email_secrets", &self.hook_send_email_secrets);
        push_text(&mut out, "hook_send_email_uri", &self.hook_send_email_uri);
        push_flag(&mut out, "hook_send_sms_enabled", &self.hook_send_sms_enabled);
        push_text(&mut out, "hook_send_sms_secrets", &self.hook_send_sms_secrets);
        push_text(&mut out, "hook_send_sms_uri", &self.hook_send_sms_uri);
        push_count(&mut out, "jwt_exp", &self.jwt_exp);
        push_flag(&mut out, "mailer_allow_unverified_email_sign_ins", &self.mailer_allow_unverified_email_sign_ins);
        push_flag(&mut out, "mailer_autoconfirm", &self.mailer_autoconfirm);
        push_count(&mut out, "mailer_otp_exp", &self.mailer_otp_exp);
        push_count(&mut out, "mailer_otp_length", &self.mailer_otp_length);
        push_flag(&mut out, "mailer_secure_email_change_enabled", &self.mailer_secure_email_change_enabled);
        push_text(&mut out, "mailer_subjects_confirmation", &self.mailer_subjects_confirmation);
        push_text(&mut out, "mailer_subjects_email_change", &self.mailer_subjects_email_change);
        push_text(&mut out, "mailer_subjects_invite", &self.mailer_subjects_invite);
        push_text(&mut out, "mailer_subjects_magic_link", &self.mailer_subjects_magic_link);
        push_text(&mut out, "mailer_subjects_reauthentication", &self.mailer_subjects_reauthentication);
        push_text(&mut out, "mailer_subjects_recovery", &self.mailer_subjects_recovery);
        push_text(&mut out, "mailer_templates_confirmation_content", &self.mailer_templates_confirmation_content);
        push_text(&mut out, "mailer_templates_email_change_content", &self.mailer_templates_email_change_content);
        push_text(&mut out, "mailer_templates_invite_content", &self.mailer_templates_invite_content);
        push_text(&mut out, "mailer_templates_magic_link_content", &self.mailer_templates_magic_link_content);
        push_text(&mut out, "mailer_templates_reauthentication_content", &self.mailer_templates_reauthentication_content);
        push_text(&mut out, "mailer_templates_recovery_content", &self.mailer_templates_recovery_content);
        push_count(&mut out, "mfa_max_enrolled_factors", &self.mfa_max_enrolled_factors);
        push_flag(&mut out, "mfa_phone_enroll_enabled", &self.mfa_phone_enroll_enabled);
        push_count(&mut out, "mfa_phone_max_frequency", &self.mfa_phone_max_frequency);
        push_count(&mut out, "mfa_phone_otp_length", &self.mfa_phone_otp_length);
        push_text(&mut out, "mfa_phone_template", &self.mfa_phone_template);
        push_flag(&mut out, "mfa_phone_verify_enabled", &self.mfa_phone_verify_enabled);
        push_flag(&mut out, "mfa_totp_enroll_enabled", &self.mfa_totp_enroll_enabled);
        push_flag(&mut out, "mfa_totp_verify_enabled", &self.mfa_totp_verify_enabled);
        push_flag(&mut out, "mfa_web_authn_enroll_enabled", &self.mfa_web_authn_enroll_enabled);
        push_flag(&mut out, "mfa_web_authn_verify_enabled", &self.mfa_web_authn_verify_enabled);
        push_flag(&mut out, "password_hibp_enabled", &self.password_hibp_enabled);
        push_count(&mut out, "password_min_length", &self.password_min_length);
        push_text(&mut out, "password_required_characters", &self.password_required_characters);
        push_count(&mut out, "rate_limit_anonymous_users", &self.rate_limit_anonymous_users);
        push_count(&mut out, "rate_limit_email_sent", &self.rate_limit_email_sent);
        push_count(&mut out, "rate_limit_otp", &self.rate_limit_otp);
        push_count(&mut out, "rate_limit_sms_sent", &self.rate_limit_sms_sent);
        push_count(&mut out, "rate_limit_token_refresh", &self.rate_limit_token_refresh);
        push_count(&mut out, "rate_limit_verify", &self.rate_limit_verify);
        push_count(&mut out, "rate_limit_web3", &self.rate_limit_web3);
        push_flag(&mut out, "refresh_token_rotation_enabled", &self.refresh_token_rotation_enabled);
        push_flag(&mut out, "saml_allow_encrypted_assertions", &self.saml_allow_encrypted_assertions);
        push_flag(&mut out, "saml_enabled", &self.saml_enabled);
        push_text(&mut out, "saml_external_url", &self.saml_external_url);
        push_flag(&mut out, "security_captcha_enabled", &self.security_captcha_enabled);
        push_text(&mut out, "security_captcha_provider", &self.security_captcha_provider);
        push_text(&mut out, "security_captcha_secret", &self.security_captcha_secret);
        push_flag(&mut out, "security_manual_linking_enabled", &self.security_manual_linking_enabled);
        push_count(&mut out, "security_refresh_token_reuse_interval", &self.security_refresh_token_reuse_interval);
        push_flag(&mut out, "security_update_password_require_reauthentication", &self.security_update_password_require_reauthentication);
        push_count(&mut out, "sessions_inactivity_timeout", &self.sessions_inactivity_timeout);
        push_flag(&mut out, "sessions_single_per_user", &self.sessions_single_per_user);
        push_text(&mut out, "sessions_tags", &self.sessions_tags);
        push_count(&mut out, "sessions_timebox", &self.sessions_timebox);
        push_text(&mut out, "site_url", &self.site_url);
        push_flag(&mut out, "sms_autoconfirm", &self.sms_autoconfirm);
        push_count(&mut out, "sms_max_frequency", &self.sms_max_frequency);
        push_text(&mut out, "sms_messagebird_access_key", &self.sms_messagebird_access_key);
        push_text(&mut out, "sms_messagebird_originator", &self.sms_messagebird_originator);
        push_count(&mut out, "sms_otp_exp", &self.sms_otp_exp);
        push_count(&mut out, "sms_otp_length", &self.sms_otp_length);
        push_text(&mut out, "sms_provider", &self.sms_provider);
        push_text(&mut out, "sms_template", &self.sms_template);
        push_text(&mut out, "sms_test_otp", &self.sms_test_otp);
        push_text(&mut out, "sms_test_otp_valid_until", &self.sms_test_otp_valid_until);
        push_text(&mut out, "sms_textlocal_api_key", &self.sms_textlocal_api_key);
        push_text(&mut out, "sms_textlocal_sender", &self.sms_textlocal_sender);
        push_text(&mut out, "sms_twilio_account_sid", &self.sms_twilio_account_sid);
        push_text(&mut out, "sms_twilio_auth_token", &self.sms_twilio_auth_token);
        push_text(&mut out, "sms_twilio_content_sid", &self.sms_twilio_content_sid);
        push_text(&mut out, "sms_twilio_message_service_sid", &self.sms_twilio_message_service_sid);
        push_text(&mut out, "sms_twilio_verify_account_sid", &self.sms_twilio_verify_account_sid);
        push_text(&mut out, "sms_twilio_verify_auth_token", &self.sms_twilio_verify_auth_token);
        push_text(&mut out, "sms_twilio_verify_message_service_sid", &self.sms_twilio_verify_message_service_sid);
        push_text(&mut out, "sms_vonage_api_key", &self.sms_vonage_api_key);
        push_text(&mut out, "sms_vonage_api_secret", &self.sms_vonage_api_secret);
        push_text(&mut out, "sms_vonage_from", &self.sms_vonage_from);
        push_text(&mut out, "smtp_admin_email", &self.smtp_admin_email);
        push_text(&mut out, "smtp_host", &self.smtp_host);
        push_count(&mut out, "smtp_max_frequency", &self.smtp_max_frequency);
        push_text(&mut out, "smtp_pass", &self.smtp_pass);
        push_count(&mut out, "smtp_port", &self.smtp_port);
        push_text(&mut out, "smtp_sender_name", &self.smtp_sender_name);
        push_text(&mut out, "smtp_user", &self.smtp_user);
        push_text(&mut out, "uri_allow_list", &self.uri_allow_list);
        out
    }

    /// The configuration that the members of a document hold: `None` where
    /// they give a known key a value of the wrong kind.
    pub fn from_members(members: &Vec<JsonMember>) -> (r: Option<Self>)
        ensures
            match r {
                Some(c) => c.decoded(members_view(members@)),
                None => !Self::decodable(members_view(members@)),
            },
    {
        let mut ok = true;
        let disable_signup = read_flag(members, "disable_signup", &mut ok);
        let external_anonymous_users_enabled = read_flag(members, "external_anonymous_users_enabled", &mut ok);
        let external_apple_additional_client_ids = read_text(members, "external_apple_additional_client_ids", &mut ok);
        let external_apple_client_id = read_text(members, "external_apple_client_id", &mut ok);
        let external_apple_enabled = read_flag(members, "external_apple_enabled", &mut ok);
        let external_apple_secret = read_text(members, "external_apple_secret", &mut ok);
        let external_azure_client_id = read_text(members, "external_azure_client_id", &mut ok);
        let external_azure_enabled = read_flag(members, "external_azure_enabled", &mut ok);
        let external_azure_secret = read_text(members, "external_azure_secret", &mut ok);
        let external_azure_url = read_text(members, "external_azure_url", &mut ok);
        let external_bitbucket_client_id = read_text(members, "external_bitbucket_client_id", &mut ok);
        let external_bitbucket_enabled = read_flag(members, "external_bitbucket_enabled", &mut ok);
        let external_bitbucket_secret = read_text(members, "external_bitbucket_secret", &mut ok);
        let external_discord_client_id = read_text(members, "external_discord_client_id", &mut ok);
        let external_discord_enabled = read_flag(members, "external_discord_enabled", &mut ok);
        let external_discord_secret = read_text(members, "external_discord_secret", &mut ok);
        let external_email_enabled = read_flag(members, "external_email_enabled", &mut ok);
        let external_facebook_client_id = read_text(members, "external_facebook_client_id", &mut ok);
        let external_facebook_enabled = read_flag(members, "external_facebook_enabled", &mut ok);
        let external_facebook_secret = read_text(members, "external_facebook_secret", &mut ok);
        let external_figma_client_id = read_text(members, "external_figma_client_id", &mut ok);
        let external_figma_enabled = read_flag(members, "external_figma_enabled", &mut ok);
        let external_figma_secret = read_text(members, "external_figma_secret", &mut ok);
        let external_github_client_id = read_text(members, "external_github_client_id", &mut ok);
        let external_github_enabled = read_flag(members, "external_github_enabled", &mut ok);
        let external_github_secret = read_text(members, "external_github_secret", &mut ok);
        let external_gitlab_client_id = read_text(members, "external_gitlab_client_id", &mut ok);
        let external_gitlab_enabled = read_flag(members, "external_gitlab_enabled", &mut ok);
        let external_gitlab_secret = read_text(members, "external_gitlab_secret", &mut ok);
        let external_gitlab_url = read_text(members, "external_gitlab_url", &mut ok);
        let external_google_additional_client_ids = read_text(members, "external_google_additional_client_ids", &mut ok);
        let external_google_client_id = read_text(members, "external_google_client_id", &mut ok);
        let external_google_enabled = read_flag(members, "external_google_enabled", &mut ok);
        let external_google_secret = read_text(members, "external_google_secret", &mut ok);
        let external_google_skip_nonce_check = read_flag(members, "external_google_skip_nonce_check", &mut ok);
        let external_kakao_client_id = read_text(members, "external_kakao_client_id", &mut ok);
        let external_kakao_enabled = read_flag(members, "external_kakao_enabled", &mut ok);
        let external_kakao_secret = read_text(members, "external_kakao_secret", &mut ok);
        let external_keycloak_client_id = read_text(members, "external_keycloak_client_id", &mut ok);
        let external_keycloak_enabled = read_flag(members, "external_keycloak_enabled", &mut ok);
        let external_keycloak_secret = read_text(members, "external_keycloak_secret", &mut ok);
        let external_keycloak_url = read_text(members, "external_keycloak_url", &mut ok);
        let external_linkedin_oidc_client_id = read_text(members, "external_linkedin_oidc_client_id", &mut ok);
        let external_linkedin_oidc_enabled = read_flag(members, "external_linkedin_oidc_enabled", &mut ok);
        let external_linkedin_oidc_secret = read_text(members, "external_linkedin_oidc_secret", &mut ok);
        let external_notion_client_id = read_text(members, "external_notion_client_id", &mut ok);
        let external_notion_enabled = read_flag(members, "external_notion_enabled", &mut ok);
        let external_notion_secret = read_text(members, "external_notion_secret", &mut ok);
        let external_phone_enabled = read_flag(members, "external_phone_enabled", &mut ok);
        let external_slack_client_id = read_text(members, "external_slack_client_id", &mut ok);
        let external_slack_enabled = read_flag(members, "external_slack_enabled", &mut ok);
        let external_slack_oidc_client_id = read_text(members, "external_slack_oidc_client_id", &mut ok);
        let external_slack_oidc_enabled = read_flag(members, "external_slack_oidc_enabled", &mut ok);
        let external_slack_oidc_secret = read_text(members, "external_slack_oidc_secret", &mut ok);
        let external_slack_secret = read_text(members, "external_slack_secret", &mut ok);
        let external_spotify_client_id = read_text(members, "external_spotify_client_id", &mut ok);
        let external_spotify_enabled = read_flag(members, "external_spotify_enabled", &mut ok);
        let external_spotify_secret = read_text(members, "external_spotify_secret", &mut ok);
        let external_twitch_client_id = read_text(members, "external_twitch_client_id", &mut ok);
        let external_twitch_enabled = read_flag(members, "external_twitch_enabled", &mut ok);
        let external_twitch_secret = read_text(members, "external_twitch_secret", &mut ok);
        let external_twitter_client_id = read_text(members, "external_twitter_client_id", &mut ok);
        let external_twitter_enabled = read_flag(members, "external_twitter_enabled", &mut ok);
        let external_twitter_secret = read_text(members, "external_twitter_secret", &mut ok);
        let external_web3_solana_enabled = read_flag(members, "external_web3_solana_enabled", &mut ok);
        let external_workos_client_id = read_text(members, "external_workos_client_id", &mut ok);
        let external_workos_enabled = read_flag(members, "external_workos_enabled", &mut ok);
        let external_workos_secret = read_text(members, "external_workos_secret", &mut ok);
        let external_workos_url = read_text(members, "external_workos_url", &mut ok);
        let external_zoom_client_id = read_text(members, "external_zoom_client_id", &mut ok);
        let external_zoom_enabled = read_flag(members, "external_zoom_enabled", &mut ok);
        let external_zoom_secret = read_text(members, "external_zoom_secret", &mut ok);
        let hook_custom_access_token_enabled = read_flag(members, "hook_custom_access_token_enabled", &mut ok);
        let hook_custom_access_token_secrets = read_text(members, "hook_custom_access_token_secrets", &mut ok);
        let hook_custom_access_token_uri = read_text(members, "hook_custom_access_token_uri", &mut ok);
        let hook_mfa_verification_attempt_enabled = read_flag(members, "hook_mfa_verification_attempt_enabled", &mut ok);
        let hook_mfa_verification_attempt_secrets = read_text(members, "hook_mfa_verification_attempt_secrets", &mut ok);
        let hook_mfa_verification_attempt_uri = read_text(members, "hook_mfa_verification_attempt_uri", &mut ok);
        let hook_password_verification_attempt_enabled = read_flag(members, "hook_password_verification_attempt_enabled", &mut ok);
        let hook_password_verification_attempt_secrets = read_text(members, "hook_password_verification_attempt_secrets", &mut ok);
        let hook_password_verification_attempt_uri = read_text(members, "hook_password_verification_attempt_uri", &mut ok);
        let hook_send_email_enabled = read_flag(members, "hook_send_email_enabled", &mut ok);
        let hook_send_email_secrets = read_text(members, "hook_send_email_secrets", &mut ok);
        let hook_send_email_uri = read_text(members, "hook_send_email_uri", &mut ok);
        let hook_send_sms_enabled = read_flag(members, "hook_send_sms_enabled", &mut ok);
        let hook_send_sms_secrets = read_text(members, "hook_send_sms_secrets", &mut ok);
        let hook_send_sms_uri = read_text(members, "hook_send_sms_uri", &mut ok);
        let jwt_exp = read_count(members, "jwt_exp", &mut ok);
        let mailer_allow_unverified_email_sign_ins = read_flag(members, "mailer_allow_unverified_email_sign_ins", &mut ok);
        let mailer_autoconfirm = read_flag(members, "mailer_autoconfirm", &mut ok);
        let mailer_otp_exp = read_count(members, "mailer_otp_exp", &mut ok);
        let mailer_otp_length = read_count(members, "mailer_otp_length", &mut ok);
        let mailer_secure_email_change_enabled = read_flag(members, "mailer_secure_email_change_enabled", &mut ok);
        let mailer_subjects_confirmation = read_text(members, "mailer_subjects_confirmation", &mut ok);
        let mailer_subjects_email_change = read_text(members, "mailer_subjects_email_change", &mut ok);
        let mailer_subjects_invite = read_text(members, "mailer_subjects_invite", &mut ok);
        let mailer_subjects_magic_link = read_text(members, "mailer_subjects_magic_link", &mut ok);
        let mailer_subjects_reauthentication = read_text(members, "mailer_subjects_reauthentication", &mut ok);
        let mailer_subjects_recovery = read_text(members, "mailer_subjects_recovery", &mut ok);
        let mailer_templates_confirmation_content = read_text(members, "mailer_templates_confirmation_content", &mut ok);
        let mailer_templates_email_change_content = read_text(members, "mailer_templates_email_change_content", &mut ok);
        let mailer_templates_invite_content = read_text(members, "mailer_templates_invite_content", &mut ok);
        let mailer_templates_magic_link_content = read_text(members, "mailer_templates_magic_link_content", &mut ok);
        let mailer_templates_reauthentication_content = read_text(members, "mailer_templates_reauthentication_content", &mut ok);
        let mailer_templates_recovery_content = read_text(members, "mailer_templates_recovery_content", &mut ok);
        let mfa_max_enrolled_factors = read_count(members, "mfa_max_enrolled_factors", &mut ok);
        let mfa_phone_enroll_enabled = read_flag(members, "mfa_phone_enroll_enabled", &mut ok);
        let mfa_phone_max_frequency = read_count(members, "mfa_phone_max_frequency", &mut ok);
        let mfa_phone_otp_length = read_count(members, "mfa_phone_otp_length", &mut ok);
        let mfa_phone_template = read_text(members, "mfa_phone_template", &mut ok);
        let mfa_phone_verify_enabled = read_flag(members, "mfa_phone_verify_enabled", &mut ok);
        let mfa_totp_enroll_enabled = read_flag(members, "mfa_totp_enroll_enabled", &mut ok);
        let mfa_totp_verify_enabled = read_flag(members, "mfa_totp_verify_enabled", &mut ok);
        let mfa_web_authn_enroll_enabled = read_flag(members, "mfa_web_authn_enroll_enabled", &mut ok);
        let mfa_web_authn_verify_enabled = read_flag(members, "mfa_web_authn_verify_enabled", &mut ok);
        let password_hibp_enabled = read_flag(members, "password_hibp_enabled", &mut ok);
        let password_min_length = read_count(members, "password_min_length", &mut ok);
        let password_required_characters = read_text(members, "password_required_characters", &mut ok);
        let rate_limit_anonymous_users = read_count(members, "rate_limit_anonymous_users", &mut ok);
        let rate_limit_email_sent = read_count(members, "rate_limit_email_sent", &mut ok);
        let rate_limit_otp = read_count(members, "rate_limit_otp", &mut ok);
        let rate_limit_sms_sent = read_count(members, "rate_limit_sms_sent", &mut ok);
        let rate_limit_token_refresh = read_count(members, "rate_limit_token_refresh", &mut ok);
        let rate_limit_verify = read_count(members, "rate_limit_verify", &mut ok);
        let rate_limit_web3 = read_count(members, "rate_limit_web3", &mut ok);
        let refresh_token_rotation_enabled = read_flag(members, "refresh_token_rotation_enabled", &mut ok);
        let saml_allow_encrypted_assertions = read_flag(members, "saml_allow_encrypted_assertions", &mut ok);
        let saml_enabled = read_flag(members, "saml_enabled", &mut ok);
        let saml_external_url = read_text(members, "saml_external_url", &mut ok);
        let security_captcha_enabled = read_flag(members, "security_captcha_enabled", &mut ok);
        let security_captcha_provider = read_text(members, "security_captcha_provider", &mut ok);
        let security_captcha_secret = read_text(members, "security_captcha_secret", &mut ok);
        let security_manual_linking_enabled = read_flag(members, "security_manual_linking_enabled", &mut ok);
        let security_refresh_token_reuse_interval = read_count(members, "security_refresh_token_reuse_interval", &mut ok);
        let security_update_password_require_reauthentication = read_flag(members, "security_update_password_require_reauthentication", &mut ok);
        let sessions_inactivity_timeout = read_count(members, "sessions_inactivity_timeout", &mut ok);
        let sessions_single_per_user = read_flag(members, "sessions_single_per_user", &mut ok);
        let sessions_tags = read_text(members, "sessions_tags", &mut ok);
        let sessions_timebox = read_count(members, "sessions_timebox", &mut ok);
        let site_url = read_text(members, "site_url", &mut ok);
        let sms_autoconfirm = read_flag(members, "sms_autoconfirm", &mut ok);
        let sms_max_frequency = read_count(members, "sms_max_frequency", &mut ok);
        let sms_messagebird_access_key = read_text(members, "sms_messagebird_access_key", &mut ok);
        let sms_messagebird_originator = read_text(members, "sms_messagebird_originator", &mut ok);
        let sms_otp_exp = read_count(members, "sms_otp_exp", &mut ok);
        let sms_otp_length = read_count(members, "sms_otp_length", &mut ok);
        let sms_provider = read_text(members, "sms_provider", &mut ok);
        let sms_template = read_text(members, "sms_template", &mut ok);
        let sms_test_otp = read_text(members, "sms_test_otp", &mut ok);
        let sms_test_otp_valid_until = read_text(members, "sms_test_otp_valid_until", &mut ok);
        let sms_textlocal_api_key = read_text(members, "sms_textlocal_api_key", &mut ok);
        let sms_textlocal_sender = read_text(members, "sms_textlocal_sender", &mut ok);
        let sms_twilio_account_sid = read_text(members, "sms_twilio_account_sid", &mut ok);
        let sms_twilio_auth_token = read_text(members, "sms_twilio_auth_token", &mut ok);
        let sms_twilio_content_sid = read_text(members, "sms_twilio_content_sid", &mut ok);
        let sms_twilio_message_service_sid = read_text(members, "sms_twilio_message_service_sid", &mut ok);
        let sms_twilio_verify_account_sid = read_text(members, "sms_twilio_verify_account_sid", &mut ok);
        let sms_twilio_verify_auth_token = read_text(members, "sms_twilio_verify_auth_token", &mut ok);
        let sms_twilio_verify_message_service_sid = read_text(members, "sms_twilio_verify_message_service_sid", &mut ok);
        let sms_vonage_api_key = read_text(members, "sms_vonage_api_key", &mut ok);
        let sms_vonage_api_secret = read_text(members, "sms_vonage_api_secret", &mut ok);
        let sms_vonage_from = read_text(members, "sms_vonage_from", &mut ok);
        let smtp_admin_email = read_text(members, "smtp_admin_email", &mut ok);
        let smtp_host = read_text(members, "smtp_host", &mut ok);
        let smtp_max_frequency = read_count(members, "smtp_max_frequency", &mut ok);
        let smtp_pass = read_text(members, "smtp_pass", &mut ok);
        let smtp_port = read_count(members, "smtp_port", &mut ok);
        let smtp_sender_name = read_text(members, "smtp_sender_name", &mut ok);
        let smtp_user = read_text(members, "smtp_user", &mut ok);
        let uri_allow_list = read_text(members, "uri_allow_list", &mut ok);
        if !ok {
            return None;
        }
        Some(
            AuthConfigStruct {
                disable_signup,
                external_anonymous_users_enabled,
                external_apple_additional_client_ids,
                external_apple_client_id,
                external_apple_enabled,
                external_apple_secret,
                external_azure_client_id,
                external_azure_enabled,
                external_azure_secret,
                external_azure_url,
                external_bitbucket_client_id,
                external_bitbucket_enabled,
                external_bitbucket_secret,
                external_discord_client_id,
                external_discord_enabled,
                external_discord_secret,
                external_email_enabled,
                external_facebook_client_id,
                external_facebook_enabled,
                external_facebook_secret,
                external_figma_client_id,
                external_figma_enabled,
                external_figma_secret,
                external_github_client_id,
                external_github_enabled,
                external_github_secret,
                external_gitlab_client_id,
                external_gitlab_enabled,
                external_gitlab_secret,
                external_gitlab_url,
                external_google_additional_client_ids,
                external_google_client_id,
                external_google_enabled,
                external_google_secret,
                external_google_skip_nonce_check,
                external_kakao_client_id,
                external_kakao_enabled,
                external_kakao_secret,
                external_keycloak_client_id,
                external_keycloak_enabled,
                external_keycloak_secret,
                external_keycloak_url,
                external_linkedin_oidc_client_id,
                external_linkedin_oidc_enabled,
                external_linkedin_oidc_secret,
                external_notion_client_id,
                external_notion_enabled,
                external_notion_secret,
                external_phone_enabled,
                external_slack_client_id,
                external_slack_enabled,
                external_slack_oidc_client_id,
                external_slack_oidc_enabled,
                external_slack_oidc_secret,
                external_slack_secret,
                external_spotify_client_id,
                external_spotify_enabled,
                external_spotify_secret,
                external_twitch_client_id,
                external_twitch_enabled,
                external_twitch_secret,
                external_twitter_client_id,
                external_twitter_enabled,
                external_twitter_secret,
                external_web3_solana_enabled,
                external_workos_client_id,
                external_workos_enabled,
                external_workos_secret,
                external_workos_url,
                external_zoom_client_id,
                external_zoom_enabled,
                external_zoom_secret,
                hook_custom_access_token_enabled,
                hook_custom_access_token_secrets,
                hook_custom_access_token_uri,
                hook_mfa_verification_attempt_enabled,
                hook_mfa_verification_attempt_secrets,
                hook_mfa_verification_attempt_uri,
                hook_password_verification_attempt_enabled,
                hook_password_verification_attempt_secrets,
                hook_password_verification_attempt_uri,
                hook_send_email_enabled,
                hook_send_email_secrets,
                hook_send_email_uri,
                hook_send_sms_enabled,
                hook_send_sms_secrets,
                hook_send_sms_uri,
                jwt_exp,
                mailer_allow_unverified_email_sign_ins,
                mailer_autoconfirm,
                mailer_otp_exp,
                mailer_otp_length,
                mailer_secure_email_change_enabled,
                mailer_subjects_confirmation,
                mailer_subjects_email_change,
                mailer_subjects_invite,
                mailer_subjects_magic_link,
                mailer_subjects_reauthentication,
                mailer_subjects_recovery,
                mailer_templates_confirmation_content,
                mailer_templates_email_change_content,
                mailer_templates_invite_content,
                mailer_templates_magic_link_content,
                mailer_templates_reauthentication_content,
                mailer_templates_recovery_content,
                mfa_max_enrolled_factors,
                mfa_phone_enroll_enabled,
                mfa_phone_max_frequency,
                mfa_phone_otp_length,
                mfa_phone_template,
                mfa_phone_verify_enabled,
                mfa_totp_enroll_enabled,
                mfa_totp_verify_enabled,
                mfa_web_authn_enroll_enabled,
                mfa_web_authn_verify_enabled,
                password_hibp_enabled,
                password_min_length,
                password_required_characters,
                rate_limit_anonymous_users,
                rate_limit_email_sent,
                rate_limit_otp,
                rate_limit_sms_sent,
                rate_limit_token_refresh,
                rate_limit_verify,
                rate_limit_web3,
                refresh_token_rotation_enabled,
                saml_allow_encrypted_assertions,
                saml_enabled,
                saml_external_url,
                security_captcha_enabled,
                security_captcha_provider,
                security_captcha_secret,
                security_manual_linking_enabled,
                security_refresh_token_reuse_interval,
                security_update_password_require_reauthentication,
                sessions_inactivity_timeout,
                sessions_single_per_user,
                sessions_tags,
                sessions_timebox,
                site_url,
                sms_autoconfirm,
                sms_max_frequency,
                sms_messagebird_access_key,
                sms_messagebird_originator,
                sms_otp_exp,
                sms_otp_length,
                sms_provider,
                sms_template,
                sms_test_otp,
                sms_test_otp_valid_until,
                sms_textlocal_api_key,
                sms_textlocal_sender,
                sms_twilio_account_sid,
                sms_twilio_auth_token,
                sms_twilio_content_sid,
                sms_twilio_message_service_sid,
                sms_twilio_verify_account_sid,
                sms_twilio_verify_auth_token,
                sms_twilio_verify_message_service_sid,
                sms_vonage_api_key,
                sms_vonage_api_secret,
                sms_vonage_from,
                smtp_admin_email,
                smtp_host,
                smtp_max_frequency,
                smtp_pass,
                smtp_port,
                smtp_sender_name,
                smtp_user,
                uri_allow_list,
            },
        )
    }

    /// The object that encodes the configuration.
    pub fn to_document(&self) -> (r: JsonDocument)
        ensures
            r@ == JsonDocumentView::Object(self.members()),
    {
        JsonDocument::Object(self.to_members())
    }

    /// The JSON text of the configuration: an object that leaves out what
    /// is unset.
    pub fn to_json(&self) -> (r: String)
        ensures
            r@ == object_text(self.members()),
    {
        object_to_text(&self.to_members())
    }

    /// The configuration that a document holds: `None` where the document
    /// is no object or gives a known key a value of the wrong kind.
    pub fn from_document(document: &JsonDocument) -> (r: Option<Self>)
        ensures
            match document@ {
                JsonDocumentView::Object(members) => match r {
                    Some(c) => c.decoded(members),
                    None => !Self::decodable(members),
                },
                JsonDocumentView::Other => r is None,
            },
    {
        match document {
            JsonDocument::Object(members) => Self::from_members(members),
            JsonDocument::Other => None,
        }
    }

    /// Whether mail goes through a server of the tenant's own: the five
    /// settings that name it are all set.
    pub open spec fn custom_smtp(self) -> bool {
        &&& self.smtp_admin_email is Some
        &&& self.smtp_host is Some
        &&& self.smtp_port is Some
        &&& self.smtp_user is Some
        &&& self.smtp_pass is Some
    }

    /// The configuration as it may be sent to a destination: where no
    /// server of the tenant's own is set up, every mail setting is unset,
    /// and with them the limit on mails sent.
    pub open spec fn sanitized(self) -> Self {
        if self.custom_smtp() {
            self
        } else {
            AuthConfigStruct {
                smtp_sender_name: None,
                rate_limit_email_sent: None,
                smtp_admin_email: None,
                smtp_host: None,
                smtp_port: None,
                smtp_user: None,
                smtp_pass: None,
                smtp_max_frequency: None,
                ..self
            }
        }
    }

    /// Whether mail goes through a server of the tenant's own.
    pub fn has_custom_smtp(&self) -> (r: bool)
        ensures
            r == self.custom_smtp(),
    {
        self.smtp_admin_email.is_some() && self.smtp_host.is_some() && self.smtp_port.is_some()
            && self.smtp_user.is_some() && self.smtp_pass.is_some()
    }

    /// Strips the mail settings unless a server of the tenant's own is set
    /// up.
    pub fn remove_smtp_fields_if_disabled(self) -> (r: Self)
        ensures
            r == self.sanitized(),
    {
        let mut c = self;
        if !c.has_custom_smtp() {
            c.smtp_sender_name = None;
            c.rate_limit_email_sent = None;
            c.smtp_admin_email = None;
            c.smtp_host = None;
            c.smtp_port = None;
            c.smtp_user = None;
            c.smtp_pass = None;
            c.smtp_max_frequency = None;
        }
        c
    }

    /// Stripping twice is stripping once.
    pub proof fn lemma_sanitize_idempotent(self)
        ensures
            self.sanitized().sanitized() == self.sanitized(),
    {
    }

    /// Stripping does not change whether a server of the tenant's own is
    /// set up, and changes nothing where one is.
    pub proof fn lemma_sanitize_keeps_custom_smtp(self)
        ensures
            self.sanitized().custom_smtp() == self.custom_smtp(),
            self.custom_smtp() ==> self.sanitized() == self,
    {
    }

    /// The configuration in which nothing is set is encoded by the object
    /// without members.
    pub proof fn lemma_absent_has_no_members()
        ensures
            Self::absent().members() == Seq::<JsonMemberView>::empty(),
    {
        let none = Seq::<JsonMemberView>::empty();
        assert(text_member(Seq::empty(), opt_text(None)) == none);
        assert(forall|k: Seq<char>| text_member(k, opt_text(None)) == none);
        assert(forall|k: Seq<char>| flag_member(k, None) == none);
        assert(forall|k: Seq<char>| count_member(k, None) == none);
        assert(none + none =~= none);
    }

    /// The configuration in which nothing is set is written as a pair of
    /// braces.
    pub proof fn lemma_absent_is_empty_object()
        ensures
            object_text(Self::absent().members()) == "{}"@,
    {
        Self::lemma_absent_has_no_members();
        lemma_empty_object_text();
    }

    /// The configuration that the members of a document decode to, where
    /// they can be read as one.
    pub open spec fn config_of(members: Seq<JsonMemberView>) -> Self {
        choose|c: AuthConfigStruct| c.decoded(members)
    }

    /// Two configurations that the same members decode to are encoded by
    /// the same members.
    pub proof fn lemma_decoded_same_members(self, other: Self, members: Seq<JsonMemberView>)
        requires
            self.decoded(members),
            other.decoded(members),
        ensures
            self.members() == other.members(),
    {
    }

    /// Two configurations that the same members decode to are encoded by
    /// the same members after stripping.
    pub proof fn lemma_decoded_same_sanitized(self, other: Self, members: Seq<JsonMemberView>)
        requires
            self.decoded(members),
            other.decoded(members),
        ensures
            self.sanitized().members() == other.sanitized().members(),
    {
        self.lemma_decoded_same_members(other, members);
        if !self.custom_smtp() {
            assert(!other.custom_smtp());
        }
    }

    /// Members that decode to a configuration can be read as one.
    pub proof fn lemma_decoded_is_decodable(self, members: Seq<JsonMemberView>)
        requires
            self.decoded(members),
        ensures
            Self::decodable(members),
    {
    }

    /// What a configuration decodes from is what the chosen one does.
    pub proof fn lemma_config_of(self, members: Seq<JsonMemberView>)
        requires
            self.decoded(members),
        ensures
            Self::decodable(members),
            Self::config_of(members).decoded(members),
            self.members() == Self::config_of(members).members(),
            self.sanitized().members() == Self::config_of(members).sanitized().members(),
    {
        self.lemma_decoded_is_decodable(members);
        self.lemma_decoded_same_members(Self::config_of(members), members);
        self.lemma_decoded_same_sanitized(Self::config_of(members), members);
    }
}

} // verus!
