use vstd::prelude::*;
use crate::text::str_eq;

verus! {

/// The query of an authorization request from another server.
#[derive(Debug, Clone, PartialEq, Eq)]
pub struct AuthorizeQuery {
    pub server_owner_name: Option<String>,
    pub server_name: Option<String>,
    pub server_id: Option<String>,
    pub redirect_uri: Option<String>,
    pub state: Option<String>,
    pub scope: Option<String>,
}

/// The scope of a server registering itself, which needs no server id.
pub open spec fn is_register_scope(scope: Option<String>) -> bool {
    match scope {
        Some(s) => s@ == "server_register"@,
        None => false,
    }
}

/// What is missing from an authorization query, checked in order: everything
/// (no state, redirect address and server id at all), the state, the redirect
/// address, the scope, and the server id (unless the scope registers a
/// server).
pub open spec fn missing_field(q: AuthorizeQuery) -> Option<Seq<char>> {
    if q.state is None && q.redirect_uri is None && q.server_id is None {
        Some("Invalid Query"@)
    } else if q.state is None {
        Some("State"@)
    } else if q.redirect_uri is None {
        Some("Redirect URI"@)
    } else if q.scope is None {
        Some("Scope"@)
    } else if q.server_id is None && !is_register_scope(q.scope) {
        Some("Server ID"@)
    } else {
        None
    }
}

impl AuthorizeQuery {
    /// The name of the first missing field, if any.
    pub fn is_missing_field(&self) -> (res: Option<&'static str>)
        ensures
            match missing_field(*self) {
                Some(m) => res matches Some(r) && r@ == m,
                None => res is None,
            },
    {
        if self.state.is_none() && self.redirect_uri.is_none() && self.server_id.is_none() {
            return Some("Invalid Query");
        }
        if self.state.is_none() {
            return Some("State");
        }
        if self.redirect_uri.is_none() {
            return Some("Redirect URI");
        }
        if self.scope.is_none() {
            return Some("Scope");
        }
        let registers = match &self.scope {
            Some(s) => str_eq(s.as_str(), "server_register"),
            None => false,
        };
        if self.server_id.is_none() && !registers {
            return Some("Server ID");
        }
        None
    }

    /// The query when nothing is missing, else the name of what is missing.
    pub fn validated(self) -> (res: Result<Self, &'static str>)
        ensures
            match missing_field(self) {
                Some(m) => res matches Err(r) && r@ == m,
                None => res == Ok::<AuthorizeQuery, &'static str>(self),
            },
    {
        match self.is_missing_field() {
            Some(err) => Err(err),
            None => Ok(self),
        }
    }
}

/// What the login page does once a login attempt is answered.
#[derive(Debug, Clone, Copy, PartialEq, Eq, Structural)]
pub enum LoginFollowUp {
    /// The attempt failed: stay and show the answer.
    Stay,
    /// Signed in on the login page: go to the home page.
    GoHome,
    /// Signed in from another page: reload it.
    Reload,
}

/// The follow-up of a login attempt answered with success (`succeeded`) or
/// not, made on the page at `path`.
pub fn after_login(succeeded: bool, path: &str) -> (res: LoginFollowUp)
    ensures
        !succeeded ==> res == LoginFollowUp::Stay,
        succeeded && path@ == "/login"@ ==> res == LoginFollowUp::GoHome,
        succeeded && path@ != "/login"@ ==> res == LoginFollowUp::Reload,
{
    if !succeeded {
        LoginFollowUp::Stay
    } else if str_eq(path, "/login") {
        LoginFollowUp::GoHome
    } else {
        LoginFollowUp::Reload
    }
}

} // verus!
