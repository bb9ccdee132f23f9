//! Acquiring the credential of one page cycle.

use vstd::prelude::*;
use crate::json::{FromJson, Json, JsonView};

verus! {

/// What the service answers to a session request: a fresh bearer token.
#[derive(Debug, PartialEq, Eq)]
pub struct SessionResponse {
    token: String,
}

impl View for SessionResponse {
    type V = Seq<char>;

    /// The token.
    closed spec fn view(&self) -> Seq<char> {
        self.token@
    }
}

impl FromJson for SessionResponse {
    /// The string at `token`.
    open spec fn decoded(j: JsonView) -> Option<Seq<char>> {
        j.text_member("token"@)
    }

    fn from_json(j: &Json) -> (found: Option<SessionResponse>) {
        match j.get_str("token") {
            Some(token) => Some(SessionResponse { token: token.to_owned() }),
            None => None,
        }
    }
}

impl SessionResponse {
    /// The token.
    pub fn token(self) -> (token: String)
        ensures
            token@ == self@,
    {
        self.token
    }
}

} // verus!
