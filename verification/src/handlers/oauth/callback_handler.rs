//! The callback of the authorization-code flow, as a chain of decisions:
//! what to do with the session data that was read, with the reply of the
//! token endpoint, and with the outcome of storing the token.
use crate::json::json_document;
use crate::models::app_config::{AppConfig, AppState};
use crate::models::oauth::{token_of, CallbackParams, OAuthSessionData, OAuthSessionDataView, TokenResponse, TokenResponseView};
use crate::session::{SessionRead, SessionRecord, SessionView};
use crate::text::{concat2, concat3, constant_time_eq};
use crate::upstream::{is_success, status_is_success, HttpOutcome, HttpOutcomeView};
use vstd::prelude::*;

verus! {

/// Where authorization codes are exchanged for tokens.
pub const TOKEN_ENDPOINT: &'static str = "https://api.supabase.com/v1/oauth/token";

/// Why a callback ended without a login.
#[derive(Debug, Clone, Copy, PartialEq, Eq, Structural)]
pub enum CallbackFailure {
    SessionError,
    NoSessionData,
    NoPkce,
    NoCsrf,
    CsrfMismatch,
    TokenExchangeFailed,
    BadRequest,
    Unauthorized,
    Forbidden,
    TokenExchangeError,
    TokenParseError,
    SessionStoreError,
}

impl CallbackFailure {
    /// The code that the browser is sent as `reason`.
    pub open spec fn reason_text(self) -> Seq<char> {
        match self {
            CallbackFailure::SessionError => "session_error"@,
            CallbackFailure::NoSessionData => "no_session_data"@,
            CallbackFailure::NoPkce => "no_pkce"@,
            CallbackFailure::NoCsrf => "no_csrf"@,
            CallbackFailure::CsrfMismatch => "csrf_mismatch"@,
            CallbackFailure::TokenExchangeFailed => "token_exchange_failed"@,
            CallbackFailure::BadRequest => "bad_request"@,
            CallbackFailure::Unauthorized => "unauthorized"@,
            CallbackFailure::Forbidden => "forbidden"@,
            CallbackFailure::TokenExchangeError => "token_exchange_error"@,
            CallbackFailure::TokenParseError => "token_parse_error"@,
            CallbackFailure::SessionStoreError => "session_store_error"@,
        }
    }

    /// The code that the browser is sent as `reason`.
    pub fn reason(&self) -> (r: &'static str)
        ensures
            r@ == self.reason_text(),
    {
        match self {
            CallbackFailure::SessionError => "session_error",
            CallbackFailure::NoSessionData => "no_session_data",
            CallbackFailure::NoPkce => "no_pkce",
            CallbackFailure::NoCsrf => "no_csrf",
            CallbackFailure::CsrfMismatch => "csrf_mismatch",
            CallbackFailure::TokenExchangeFailed => "token_exchange_failed",
            CallbackFailure::BadRequest => "bad_request",
            CallbackFailure::Unauthorized => "unauthorized",
            CallbackFailure::Forbidden => "forbidden",
            CallbackFailure::TokenExchangeError => "token_exchange_error",
            CallbackFailure::TokenParseError => "token_parse_error",
            CallbackFailure::SessionStoreError => "session_store_error",
        }
    }
}

/// Where the browser is sent after a login.
pub open spec fn success_url(client_addr: Seq<char>) -> Seq<char> {
    client_addr + "/auth?status=success"@
}

/// Where the browser is sent after a failure.
pub open spec fn error_url(client_addr: Seq<char>, failure: CallbackFailure) -> Seq<char> {
    client_addr + "/auth?status=error&reason="@ + failure.reason_text()
}

/// Where the browser is sent at the end of a callback.
pub open spec fn final_url(client_addr: Seq<char>, failure: Option<CallbackFailure>) -> Seq<char> {
    match failure {
        Some(f) => error_url(client_addr, f),
        None => success_url(client_addr),
    }
}

/// The address that reports a login to the frontend.
pub fn success_redirect(client_addr: &str) -> (r: String)
    ensures
        r@ == success_url(client_addr@),
{
    concat2(client_addr, "/auth?status=success")
}

/// The address that reports a failure to the frontend.
pub fn error_redirect(client_addr: &str, failure: CallbackFailure) -> (r: String)
    ensures
        r@ == error_url(client_addr@, failure),
{
    concat3(client_addr, "/auth?status=error&reason=", failure.reason())
}

/// A form to post to the token endpoint.
#[derive(Debug)]
pub struct TokenRequest {
    pub url: String,
    pub form: Vec<(String, String)>,
}

/// The contents of a list of pairs of strings.
pub open spec fn pairs_view(pairs: Seq<(String, String)>) -> Seq<(Seq<char>, Seq<char>)> {
    pairs.map_values(|p: (String, String)| (p.0@, p.1@))
}

/// The fields of the form that exchanges a code, in the order in which
/// they are sent.
pub open spec fn token_form(config: AppConfig, code: Seq<char>, verifier: Seq<char>) -> Seq<
    (Seq<char>, Seq<char>),
> {
    seq![
        ("client_id"@, config.client_id@),
        ("client_secret"@, config.client_secret@),
        ("code"@, code),
        ("code_verifier"@, verifier),
        ("grant_type"@, "authorization_code"@),
        ("redirect_uri"@, config.redirect_url@),
    ]
}

/// The contents of what was read from a slot that holds login data.
pub open spec fn read_view(read: SessionRead<OAuthSessionData>) -> SessionRead<
    OAuthSessionDataView,
> {
    match read {
        SessionRead::Failed => SessionRead::Failed,
        SessionRead::Absent => SessionRead::Absent,
        SessionRead::Present(d) => SessionRead::Present(d@),
    }
}

/// Why the callback ends once the login data was read, if it does: the
/// store failed, there was no data, the verifier or the token is missing
/// in it, or the `state` of the request is not the token.
pub open spec fn read_failure(read: SessionRead<OAuthSessionDataView>, state: Seq<char>) -> Option<
    CallbackFailure,
> {
    match read {
        SessionRead::Failed => Some(CallbackFailure::SessionError),
        SessionRead::Absent => Some(CallbackFailure::NoSessionData),
        SessionRead::Present(data) => if data.pkce_verifier_secret is None {
            Some(CallbackFailure::NoPkce)
        } else if data.csrf_token_secret is None {
            Some(CallbackFailure::NoCsrf)
        } else if data.csrf_token_secret->0 != state {
            Some(CallbackFailure::CsrfMismatch)
        } else {
            None
        },
    }
}

/// The grant in a reply of the token endpoint, if it holds one.
pub open spec fn granted(outcome: HttpOutcomeView) -> Option<TokenResponseView> {
    match outcome {
        HttpOutcomeView::Replied { status, body: Some(body) } => if is_success(status) {
            token_of(json_document(body))
        } else {
            None
        },
        _ => None,
    }
}

/// Why the callback ends once the token endpoint was asked, if it does.
pub open spec fn exchange_failure(outcome: HttpOutcomeView) -> Option<CallbackFailure> {
    match outcome {
        HttpOutcomeView::TransportFailed(_) => Some(CallbackFailure::TokenExchangeFailed),
        HttpOutcomeView::Replied { status, body } => if !is_success(status) {
            if status == 400 {
                Some(CallbackFailure::BadRequest)
            } else if status == 401 {
                Some(CallbackFailure::Unauthorized)
            } else if status == 403 {
                Some(CallbackFailure::Forbidden)
            } else {
                Some(CallbackFailure::TokenExchangeError)
            }
        } else if granted(outcome) is None {
            Some(CallbackFailure::TokenParseError)
        } else {
            None
        },
    }
}

/// What follows the reading of the login data.
#[derive(Debug)]
pub enum CallbackStep {
    /// The callback ends: the browser is sent to this address.
    Redirect(String),
    /// The code is to be exchanged with this request.
    Exchange(TokenRequest),
}

/// What to do once the login data was read. The data is single-use:
/// where there was any, it is to be removed from the session before the
/// step is taken, whatever the step.
#[derive(Debug)]
pub struct CallbackPlan {
    pub remove_oauth_data: bool,
    pub step: CallbackStep,
}

/// The verifier as `oauth2::PkceCodeVerifier` holds it: `new` takes the
/// string and `secret` hands the same string back.
#[verifier::external_body]
fn verifier_secret(secret: String) -> (r: String)
    ensures
        r@ == secret@,
{
    oauth2::PkceCodeVerifier::new(secret).secret().clone()
}

/// Decides what follows the reading of the login data: the failure to
/// report, or the request that exchanges the code of the query with the
/// verifier of the login.
pub fn callback_begin(
    config: &AppConfig,
    params: &CallbackParams,
    read: SessionRead<OAuthSessionData>,
) -> (plan: CallbackPlan)
    ensures
        plan.remove_oauth_data == (read is Present),
        match read_failure(read_view(read), params.state@) {
            Some(f) => plan.step matches CallbackStep::Redirect(url) && url@ == error_url(
                config.client_addr@,
                f,
            ),
            None => plan.step matches CallbackStep::Exchange(request) && request.url@
                == TOKEN_ENDPOINT@ && pairs_view(request.form@) == token_form(
                *config,
                params.code@,
                read->Present_0@.pkce_verifier_secret->0,
            ),
        },
{
    let client_addr = config.client_addr.as_str();
    let data = match read {
        SessionRead::Failed => {
            return CallbackPlan {
                remove_oauth_data: false,
                step: CallbackStep::Redirect(
                    error_redirect(client_addr, CallbackFailure::SessionError),
                ),
            };
        },
        SessionRead::Absent => {
            return CallbackPlan {
                remove_oauth_data: false,
                step: CallbackStep::Redirect(
                    error_redirect(client_addr, CallbackFailure::NoSessionData),
                ),
            };
        },
        SessionRead::Present(data) => data,
    };
    let pkce_verifier_secret = match data.pkce_verifier_secret {
        Some(secret) => secret,
        None => {
            return CallbackPlan {
                remove_oauth_data: true,
                step: CallbackStep::Redirect(error_redirect(client_addr, CallbackFailure::NoPkce)),
            };
        },
    };
    let expected_state = match data.csrf_token_secret {
        Some(token) => token,
        None => {
            return CallbackPlan {
                remove_oauth_data: true,
                step: CallbackStep::Redirect(error_redirect(client_addr, CallbackFailure::NoCsrf)),
            };
        },
    };
    if !constant_time_eq(expected_state.as_str(), params.state.as_str()) {
        return CallbackPlan {
            remove_oauth_data: true,
            step: CallbackStep::Redirect(
                error_redirect(client_addr, CallbackFailure::CsrfMismatch),
            ),
        };
    }
    let code_verifier = verifier_secret(pkce_verifier_secret);
    let mut form: Vec<(String, String)> = Vec::new();
    form.push(("client_id".to_owned(), config.client_id.clone()));
    form.push(("client_secret".to_owned(), config.client_secret.clone()));
    form.push(("code".to_owned(), params.code.clone()));
    form.push(("code_verifier".to_owned(), code_verifier));
    form.push(("grant_type".to_owned(), "authorization_code".to_owned()));
    form.push(("redirect_uri".to_owned(), config.redirect_url.clone()));
    proof {
        assert(pairs_view(form@) =~= token_form(
            *config,
            params.code@,
            read->Present_0@.pkce_verifier_secret->0,
        ));
    }
    CallbackPlan {
        remove_oauth_data: true,
        step: CallbackStep::Exchange(TokenRequest { url: TOKEN_ENDPOINT.to_owned(), form }),
    }
}

/// What follows the reply of the token endpoint.
pub enum ExchangeStep {
    /// The callback ends: the browser is sent to this address.
    Redirect(String),
    /// The access token of this grant is to be stored in the session. Its
    /// refresh token is not kept.
    Store(TokenResponse),
}

/// Decides what follows the reply of the token endpoint: the failure to
/// report, or the grant whose access token is to be stored.
pub fn callback_exchanged(config: &AppConfig, outcome: HttpOutcome) -> (step: ExchangeStep)
    ensures
        match exchange_failure(outcome@) {
            Some(f) => step matches ExchangeStep::Redirect(url) && url@ == error_url(
                config.client_addr@,
                f,
            ),
            None => step matches ExchangeStep::Store(token) && Some(token@) == granted(outcome@),
        },
{
    let client_addr = config.client_addr.as_str();
    let failure = match outcome {
        HttpOutcome::TransportFailed(_) => CallbackFailure::TokenExchangeFailed,
        HttpOutcome::Replied { status, body } => {
            if !status_is_success(status) {
                if status == 400 {
                    CallbackFailure::BadRequest
                } else if status == 401 {
                    CallbackFailure::Unauthorized
                } else if status == 403 {
                    CallbackFailure::Forbidden
                } else {
                    CallbackFailure::TokenExchangeError
                }
            } else {
                let token = match body {
                    Some(text) => TokenResponse::from_json(text.as_str()),
                    None => None,
                };
                match token {
                    Some(token) => {
                        return ExchangeStep::Store(token);
                    },
                    None => CallbackFailure::TokenParseError,
                }
            }
        },
    };
    ExchangeStep::Redirect(error_redirect(client_addr, failure))
}

/// Where the browser is sent once the access token was handed to the
/// session: to the success page if it was stored, else to the failure.
pub fn callback_stored(config: &AppConfig, stored: bool) -> (url: String)
    ensures
        url@ == final_url(
            config.client_addr@,
            if stored {
                None
            } else {
                Some(CallbackFailure::SessionStoreError)
            },
        ),
{
    if stored {
        success_redirect(config.client_addr.as_str())
    } else {
        error_redirect(config.client_addr.as_str(), CallbackFailure::SessionStoreError)
    }
}

/// Why a callback on this session ends without a login, if it does.
pub open spec fn callback_failure(
    session: SessionView,
    state: Seq<char>,
    outcome: HttpOutcomeView,
) -> Option<CallbackFailure> {
    let read = match session.oauth_data {
        Some(d) => SessionRead::Present(d),
        None => SessionRead::Absent,
    };
    match read_failure(read, state) {
        Some(f) => Some(f),
        None => exchange_failure(outcome),
    }
}

/// The session after a callback: the login data is gone, and after a login
/// the token slot holds the access token that was granted.
pub open spec fn session_after_callback(
    session: SessionView,
    state: Seq<char>,
    outcome: HttpOutcomeView,
) -> SessionView {
    SessionView {
        oauth_data: None,
        supabase_access_token: if callback_failure(session, state, outcome) is None {
            Some(granted(outcome)->0.access_token)
        } else {
            session.supabase_access_token
        },
        auth: session.auth,
    }
}

/// After a callback that ended in a login, the session holds no login
/// data.
pub proof fn lemma_login_consumes_oauth_data(
    session: SessionView,
    state: Seq<char>,
    outcome: HttpOutcomeView,
)
    requires
        callback_failure(session, state, outcome) is None,
    ensures
        session_after_callback(session, state, outcome).oauth_data is None,
{
}

/// After a callback, however it ended, the session holds no login data.
pub proof fn lemma_callback_consumes_oauth_data(
    session: SessionView,
    state: Seq<char>,
    outcome: HttpOutcomeView,
)
    ensures
        session_after_callback(session, state, outcome).oauth_data is None,
{
}

/// A second callback on the same session finds no login data, whatever
/// the first one came to.
pub proof fn lemma_callback_is_single_use(
    session: SessionView,
    state: Seq<char>,
    first: HttpOutcomeView,
    second: HttpOutcomeView,
)
    ensures
        callback_failure(session_after_callback(session, state, first), state, second) == Some(
            CallbackFailure::NoSessionData,
        ),
{
}

/// A callback touches the token slot only to fill it: on a session that
/// holds no token, the slot is set afterwards exactly if the callback
/// ended in a login, and a token that was there before stays.
pub proof fn lemma_callback_sets_token_on_login(
    session: SessionView,
    state: Seq<char>,
    outcome: HttpOutcomeView,
)
    ensures
        session_after_callback(session, state, outcome).supabase_access_token is Some <==> (
        callback_failure(session, state, outcome) is None || session.supabase_access_token
            is Some),
{
}

/// The callback on a session record: reads and removes the login data,
/// checks it against the query, and, given what the token endpoint
/// answers to the exchange should it be asked, stores the access token.
/// Returns the address to send the browser to.
pub fn callback_handler(
    params: &CallbackParams,
    app_state: &AppState,
    session: &mut SessionRecord,
    outcome: HttpOutcome,
) -> (url: String)
    ensures
        final(session)@ == session_after_callback(old(session)@, params.state@, outcome@),
        url@ == final_url(
            app_state.config.client_addr@,
            callback_failure(old(session)@, params.state@, outcome@),
        ),
{
    let config = &app_state.config;
    let read = match session.oauth_data.take() {
        Some(data) => SessionRead::Present(data),
        None => SessionRead::Absent,
    };
    let plan = callback_begin(config, params, read);
    match plan.step {
        CallbackStep::Redirect(url) => url,
        CallbackStep::Exchange(_) => match callback_exchanged(config, outcome) {
            ExchangeStep::Redirect(url) => url,
            ExchangeStep::Store(token) => {
                session.supabase_access_token = Some(token.access_token);
                callback_stored(config, true)
            },
        },
    }
}

} // verus!
