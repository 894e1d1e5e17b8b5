//! Authentication transitions: take-then-restore ownership of the client.
//!
//! The UI thread moves the client out of its slot before dispatching an
//! auth-lane job, so no second transition can start until the job's result
//! has been reconciled back in; `conclude_auth_job` is the verified decision
//! of what every such job sends home.

use vstd::prelude::*;

use crate::data::AuthState;
use crate::data::LoginCredentials;
use crate::data::UserSession;
use crate::runtime::RuntimeOnly;
use crate::threading::AuthJob;

verus! {

/// How an auth-lane job ended, as the worker observed it.
#[derive(Clone, Debug)]
pub enum AuthJobOutcome {
    /// The stored session extended fine: it is still valid.
    SessionValid,
    /// The stored session could not be extended.
    SessionInvalid,
    /// A fresh login succeeded, yielding this session.
    LoginOk { session: UserSession },
    /// A fresh login failed.
    LoginFailed,
    /// The logout call was made (its own failure is ignored).
    LoggedOut,
}

/// Whether an outcome can belong to a job.
pub open spec fn outcome_fits(job: AuthJob, outcome: AuthJobOutcome) -> bool {
    match job {
        AuthJob::UseSession { .. } => outcome is SessionValid || outcome is SessionInvalid,
        AuthJob::Login { .. } => outcome matches AuthJobOutcome::LoginOk { .. } || outcome
            is LoginFailed,
        AuthJob::Logout { .. } => outcome is LoggedOut,
    }
}

/// What an auth job sends home: the client state for the auth channel, and,
/// when `Some`, the message for the login-session channel.
pub open spec fn spec_conclude(job: AuthJob, outcome: AuthJobOutcome) -> (
    AuthState,
    Option<Option<UserSession>>,
) {
    match outcome {
        AuthJobOutcome::SessionValid => (
            AuthState::Authenticated {
                session: match job {
                    AuthJob::UseSession { session } => session,
                    _ => arbitrary(),
                },
            },
            None,
        ),
        AuthJobOutcome::SessionInvalid => (AuthState::Unauthenticated, Some(None)),
        AuthJobOutcome::LoginOk { session } => (
            AuthState::Authenticated { session },
            Some(Some(session)),
        ),
        AuthJobOutcome::LoginFailed => (AuthState::Unauthenticated, Some(None)),
        AuthJobOutcome::LoggedOut => (AuthState::Unauthenticated, Some(None)),
    }
}

/// Decide what an auth job's result means: a valid or fresh session
/// upgrades the client; any failure downgrades it, so the UI falls back to
/// the login page rather than a broken authenticated view, and the stored
/// session token is cleared.
pub fn conclude_auth_job(job: AuthJob, outcome: AuthJobOutcome) -> (r: (
    AuthState,
    Option<Option<UserSession>>,
))
    requires
        outcome_fits(job, outcome),
    ensures
        r == spec_conclude(job, outcome),
{
    match outcome {
        AuthJobOutcome::SessionValid => {
            let session = match job {
                AuthJob::UseSession { session } => session,
                _ => vstd::pervasive::unreached(),
            };
            (AuthState::Authenticated { session }, None)
        },
        AuthJobOutcome::SessionInvalid => (AuthState::Unauthenticated, Some(None)),
        AuthJobOutcome::LoginOk { session } => {
            let copy = UserSession { user_id: session.user_id.clone(), token: session.token.clone() };
            (AuthState::Authenticated { session }, Some(Some(copy)))
        },
        AuthJobOutcome::LoginFailed => (AuthState::Unauthenticated, Some(None)),
        AuthJobOutcome::LoggedOut => (AuthState::Unauthenticated, Some(None)),
    }
}

impl RuntimeOnly {
    /// Try to resume a stored session: take the client out of its slot —
    /// gating any further auth work — and name the auth-lane job. With the
    /// slot already empty nothing happens.
    pub fn try_use_session(&mut self, session: &UserSession) -> (job: Option<AuthJob>)
        ensures
            (job is Some) == (old(self).neos_api is Some),
            match job {
                Some(j) => j matches AuthJob::UseSession { session: s } && s.user_id@
                    == session.user_id@ && s.token@ == session.token@ && final(self).neos_api
                    is None,
                None => final(self).neos_api == old(self).neos_api,
            },
            final(self).friends == old(self).friends,
            final(self).users == old(self).users,
            final(self).sessions == old(self).sessions,
            final(self).user_session == old(self).user_session,
            final(self).user_window == old(self).user_window,
            final(self).session_window == old(self).session_window,
            final(self).cache == old(self).cache,
            final(self).loading == old(self).loading,
    {
        match &self.neos_api {
            Some(_) => {
                self.neos_api = None;
                Some(AuthJob::UseSession {
                    session: UserSession {
                        user_id: session.user_id.clone(),
                        token: session.token.clone(),
                    },
                })
            },
            None => None,
        }
    }

    /// Start a fresh login, under the same take-then-restore gate.
    pub fn login_new(&mut self, credentials: &LoginCredentials) -> (job: Option<AuthJob>)
        ensures
            (job is Some) == (old(self).neos_api is Some),
            match job {
                Some(j) => j matches AuthJob::Login { credentials: c } && c.identifier@
                    == credentials.identifier@ && c.password@ == credentials.password@
                    && final(self).neos_api is None,
                None => final(self).neos_api == old(self).neos_api,
            },
            final(self).user_session == old(self).user_session,
            final(self).cache == old(self).cache,
            final(self).loading == old(self).loading,
    {
        match &self.neos_api {
            Some(_) => {
                self.neos_api = None;
                Some(AuthJob::Login {
                    credentials: LoginCredentials {
                        identifier: credentials.identifier.clone(),
                        password: credentials.password.clone(),
                    },
                })
            },
            None => None,
        }
    }

    /// Log out, under the same take-then-restore gate. The job carries the
    /// session the client held, so the worker can revoke it remotely.
    pub fn logout(&mut self) -> (job: Option<AuthJob>)
        ensures
            (job is Some) == (old(self).neos_api is Some),
            match job {
                Some(j) => {
                    &&& j matches AuthJob::Logout { session: s }
                    &&& final(self).neos_api is None
                    &&& match old(self).neos_api {
                        Some(AuthState::Authenticated { session }) => s matches Some(held)
                            && held.user_id@ == session.user_id@ && held.token@
                            == session.token@,
                        _ => s is None,
                    }
                },
                None => final(self).neos_api == old(self).neos_api,
            },
            final(self).user_session == old(self).user_session,
            final(self).cache == old(self).cache,
            final(self).loading == old(self).loading,
    {
        match &self.neos_api {
            Some(state) => {
                let held = match state {
                    AuthState::Authenticated { session } => Some(UserSession {
                        user_id: session.user_id.clone(),
                        token: session.token.clone(),
                    }),
                    AuthState::Unauthenticated => None,
                };
                self.neos_api = None;
                Some(AuthJob::Logout { session: held })
            },
            None => None,
        }
    }
}

} // verus!
