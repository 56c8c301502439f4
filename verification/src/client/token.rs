//! The access token of a client.

use vstd::prelude::*;
use crate::types::{secret_of, SecretString};

verus! {

/// The holder of the current access token. It is written only by `set` and `clear`,
/// and read once for each request; a reader gets a copy, never a reference into the
/// store. A client that is shared between threads keeps its store behind one lock.
pub struct AccessTokenStore {
    token: Option<SecretString>,
}

impl View for AccessTokenStore {
    type V = Option<Seq<char>>;

    closed spec fn view(&self) -> Option<Seq<char>> {
        secret_of(self.token)
    }
}

impl AccessTokenStore {
    /// A store that holds `token`.
    pub fn new(token: Option<SecretString>) -> (r: AccessTokenStore)
        ensures
            r@ == secret_of(token),
    {
        AccessTokenStore { token }
    }

    /// Replaces the token.
    pub fn set(&mut self, token: &str)
        ensures
            final(self)@ == Some(token@),
    {
        self.token = Some(SecretString::new(token));
    }

    /// Removes the token.
    pub fn clear(&mut self)
        ensures
            final(self)@ is None,
    {
        self.token = None;
    }

    /// A copy of the token that the store holds.
    pub fn read(&self) -> (r: Option<SecretString>)
        ensures
            secret_of(r) == self@,
    {
        match &self.token {
            Some(t) => Some(t.clone()),
            None => None,
        }
    }
}

} // verus!
