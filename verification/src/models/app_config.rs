//! The settings that the process is started with.
use crate::text::concat3;
use vstd::prelude::*;

verus! {

/// The settings of the process, read once at start and never changed.
pub struct AppConfig {
    pub client_id: String,
    pub client_secret: String,
    pub redirect_url: String,
    pub client_addr: String,
    pub server_addr: String,
}

impl Clone for AppConfig {
    fn clone(&self) -> (r: Self)
        ensures
            r == *self,
    {
        AppConfig {
            client_id: self.client_id.clone(),
            client_secret: self.client_secret.clone(),
            redirect_url: self.redirect_url.clone(),
            client_addr: self.client_addr.clone(),
            server_addr: self.server_addr.clone(),
        }
    }
}

/// What looking up one variable of the environment gave: its value, or the
/// words that say why there is none.
pub type Lookup = Result<String, String>;

/// The message for a variable that could not be read.
pub open spec fn missing(name: Seq<char>, why: Seq<char>) -> Seq<char> {
    name + " not found: "@ + why
}

/// The first of the five variables, in the order in which they are read,
/// that could not be read: its name and the words of the failure.
pub open spec fn first_missing(
    client_id: Lookup,
    client_secret: Lookup,
    redirect_url: Lookup,
    client_addr: Lookup,
    server_addr: Lookup,
) -> Option<Seq<char>> {
    if let Err(e) = client_id {
        Some(missing("SUPA_CONNECT_CLIENT_ID"@, e@))
    } else if let Err(e) = client_secret {
        Some(missing("SUPA_CONNECT_CLIENT_SECRET"@, e@))
    } else if let Err(e) = redirect_url {
        Some(missing("REDIRECT_URL"@, e@))
    } else if let Err(e) = client_addr {
        Some(missing("CLIENT_ADDR"@, e@))
    } else if let Err(e) = server_addr {
        Some(missing("SERVER_ADDR"@, e@))
    } else {
        None
    }
}

impl AppConfig {
    /// The settings made of the five variables of the environment, each
    /// handed over as its lookup gave it. All five are required: the first
    /// that is missing, in the order of the parameters, is reported by name.
    pub fn from_env(
        client_id: Lookup,
        client_secret: Lookup,
        redirect_url: Lookup,
        client_addr: Lookup,
        server_addr: Lookup,
    ) -> (r: Result<Self, String>)
        ensures
            match r {
                Ok(c) => {
                    &&& client_id == Ok::<String, String>(c.client_id)
                    &&& client_secret == Ok::<String, String>(c.client_secret)
                    &&& redirect_url == Ok::<String, String>(c.redirect_url)
                    &&& client_addr == Ok::<String, String>(c.client_addr)
                    &&& server_addr == Ok::<String, String>(c.server_addr)
                },
                Err(e) => first_missing(
                    client_id,
                    client_secret,
                    redirect_url,
                    client_addr,
                    server_addr,
                ) == Some(e@),
            },
    {
        let client_id = match client_id {
            Ok(v) => v,
            Err(e) => return Err(concat3("SUPA_CONNECT_CLIENT_ID", " not found: ", e.as_str())),
        };
        let client_secret = match client_secret {
            Ok(v) => v,
            Err(e) => return Err(
                concat3("SUPA_CONNECT_CLIENT_SECRET", " not found: ", e.as_str()),
            ),
        };
        let redirect_url = match redirect_url {
            Ok(v) => v,
            Err(e) => return Err(concat3("REDIRECT_URL", " not found: ", e.as_str())),
        };
        let client_addr = match client_addr {
            Ok(v) => v,
            Err(e) => return Err(concat3("CLIENT_ADDR", " not found: ", e.as_str())),
        };
        let server_addr = match server_addr {
            Ok(v) => v,
            Err(e) => return Err(concat3("SERVER_ADDR", " not found: ", e.as_str())),
        };
        Ok(AppConfig { client_id, client_secret, redirect_url, client_addr, server_addr })
    }
}

/// What every handler is given: the settings.
pub struct AppState {
    pub config: AppConfig,
}

impl Clone for AppState {
    fn clone(&self) -> (r: Self)
        ensures
            r == *self,
    {
        AppState { config: self.config.clone() }
    }
}

} // verus!
