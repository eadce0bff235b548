//! The record that a session holds on the server: three named slots.
use crate::models::oauth::{OAuthSessionData, OAuthSessionDataView};
use crate::text::opt_text;
use vstd::prelude::*;

verus! {

/// The key of the slot that login fills for the callback.
pub const OAUTH_DATA: &'static str = "oauth_data";

/// The key of the slot that holds the bearer token.
pub const ACCESS_TOKEN: &'static str = "supabase_access_token";

/// The key of the slot that holds the source Auth configuration between
/// preview and commit.
pub const AUTH: &'static str = "Auth";

/// The slots of one session. The token slot is the only proof of a login:
/// whoever holds a session with a token in it is signed in.
pub struct SessionRecord {
    pub oauth_data: Option<OAuthSessionData>,
    pub supabase_access_token: Option<String>,
    pub auth: Option<String>,
}

/// The contents of a [`SessionRecord`].
pub struct SessionView {
    pub oauth_data: Option<OAuthSessionDataView>,
    pub supabase_access_token: Option<Seq<char>>,
    pub auth: Option<Seq<char>>,
}

impl View for SessionRecord {
    type V = SessionView;

    open spec fn view(&self) -> SessionView {
        SessionView {
            oauth_data: match self.oauth_data {
                Some(d) => Some(d@),
                None => None,
            },
            supabase_access_token: opt_text(self.supabase_access_token),
            auth: opt_text(self.auth),
        }
    }
}

impl SessionRecord {
    /// A session in which nothing was written yet.
    pub fn new() -> (r: Self)
        ensures
            r@ == (SessionView { oauth_data: None, supabase_access_token: None, auth: None }),
    {
        SessionRecord { oauth_data: None, supabase_access_token: None, auth: None }
    }
}

/// What reading a slot gave: the store failed, the slot is empty, or it
/// holds a value.
pub enum SessionRead<T> {
    Failed,
    Absent,
    Present(T),
}

} // verus!
