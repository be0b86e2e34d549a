//! User Session State: the single source of truth for "who is signed in".
//!
//! An exclusive-access holder of the current user and access token, mutated
//! only by the session engine.  Callers that share it across threads wrap
//! it in a lock; the critical section should cover only these in-memory
//! reads and writes, never network calls.

use vstd::prelude::*;

use crate::entities::User;

verus! {

pub struct UserFacade {
    pub user: Option<User>,
    pub access_token: Option<String>,
}

impl UserFacade {
    pub fn new() -> (r: UserFacade)
        ensures
            r.user is None,
            r.access_token is None,
    {
        UserFacade { user: None, access_token: None }
    }

    pub fn get_user(&self) -> (r: &Option<User>)
        ensures
            r == &self.user,
    {
        &self.user
    }

    pub fn set_access_token(&mut self, access_token: &str)
        ensures
            final(self).user == old(self).user,
            final(self).access_token matches Some(t) && t@ == access_token@,
    {
        self.access_token = Some(access_token.to_owned());
    }

    pub fn set_user(&mut self, user: User)
        ensures
            final(self).user == Some(user),
            final(self).access_token == old(self).access_token,
    {
        self.user = Some(user);
    }

    /// Clears the session: after a reset nobody is signed in.
    pub fn reset(&mut self)
        ensures
            final(self).user is None,
            final(self).access_token is None,
    {
        self.user = None;
        self.access_token = None;
    }
}

} // verus!
