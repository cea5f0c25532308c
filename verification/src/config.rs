//! The session that the application keeps between runs.
use vstd::prelude::*;

use crate::model::clone_opt_string;

verus! {

/// The server and the session of the last log-in.
#[derive(Debug)]
pub struct Config {
    pub server_url: Option<String>,
    pub access_token: Option<String>,
    pub user_id: Option<String>,
}

impl Clone for Config {
    fn clone(&self) -> (res: Self)
        ensures
            res == *self,
    {
        Config {
            server_url: clone_opt_string(&self.server_url),
            access_token: clone_opt_string(&self.access_token),
            user_id: clone_opt_string(&self.user_id),
        }
    }
}

impl Config {
    /// An empty configuration: no server, no session.
    pub fn empty() -> (res: Self)
        ensures
            res.server_url is None,
            res.access_token is None,
            res.user_id is None,
    {
        Config { server_url: None, access_token: None, user_id: None }
    }

    /// Whether a whole session is stored: a server, a token and a user.
    pub open spec fn authenticated(self) -> bool {
        self.server_url is Some && self.access_token is Some && self.user_id is Some
    }

    /// Whether a whole session is stored: a server, a token and a user.
    pub fn is_authenticated(&self) -> (res: bool)
        ensures
            res == self.authenticated(),
    {
        self.server_url.is_some() && self.access_token.is_some() && self.user_id.is_some()
    }
}

} // verus!
