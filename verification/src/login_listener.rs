//! Observer of login outcomes.  Notifications are fire-and-forget: they
//! return nothing and must never propagate a failure back into the engine.

use vstd::prelude::*;

use crate::login_facade::SessionType;

verus! {

pub struct LoginListener {}

/// Why a login attempt failed, as reported to the listener.
#[derive(Debug, PartialEq, Eq, Structural, Clone, Copy)]
pub enum LoginFailReason {
    /// The server no longer accepts the session; the caller is expected to
    /// prompt for credentials again.
    SessionExpired,
    /// Any other failure; the retained credentials allow a retry.
    Error,
}

impl LoginListener {
    pub fn new() -> (r: LoginListener) {
        LoginListener {  }
    }

    pub fn on_login_failure(&self, reason: LoginFailReason) {
    }

    pub fn on_full_login_success(&self, session_type: SessionType) {
    }
}

} // verus!
