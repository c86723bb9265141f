//! The session guard: every protected request passes it before any handler
//! runs.
//!
//! A credential carries a user name and no authority of its own. The guard
//! resolves it against the accounts on every request, so an account that is
//! gone invalidates all its sessions at once.

use vstd::prelude::*;
use crate::error::Error;
use crate::exchange::{
    Action, ActionView, Effect, EffectView, Outcome, OutcomeView, Response, ResponseView,
    SessionChange, SessionChangeView,
};

verus! {

/// What a request carries as its session credential.
#[derive(Debug, PartialEq, Eq)]
pub enum Credential {
    /// Nothing.
    Absent,
    /// Something that no user name can be read from.
    Malformed,
    /// A credential for this user name.
    Username(String),
}

/// What a [`Credential`] stands for.
pub enum CredentialView {
    Absent,
    Malformed,
    Username(Seq<char>),
}

impl View for Credential {
    type V = CredentialView;

    open spec fn view(&self) -> CredentialView {
        match self {
            Credential::Absent => CredentialView::Absent,
            Credential::Malformed => CredentialView::Malformed,
            Credential::Username(username) => CredentialView::Username(username@),
        }
    }
}

/// Where the guard stands with one request.
#[derive(Clone, Copy, Debug, PartialEq, Eq, Structural)]
pub enum AuthState {
    /// Nothing is known of the request yet.
    Unauthenticated,
    /// The credential's user name is being looked up.
    Resolving,
    /// The request passed, with the account found attached to it.
    Authenticated,
    /// The request was turned away, for this reason.
    Rejected(Error),
}

/// The answer that turns a request away because its account is gone. It
/// invalidates the credential, so that the client has to log in again.
pub open spec fn stale_response() -> ResponseView {
    ResponseView { result: Err(Error::StaleCredential), session: SessionChangeView::Revoke }
}

/// What the guard does in each state.
///
/// Without a credential the request is turned away, and so is one whose
/// credential cannot be read. Otherwise the account that the credential
/// names is looked up: if the store cannot be reached or fails, the request
/// fails for that reason, which is no failure of authentication; if there is no
/// such account the request is turned away and the credential invalidated;
/// if there is, the request passes with the account attached. Once a
/// request is turned away nothing passes.
pub open spec fn guard_model(
    credential: CredentialView,
    state: AuthState,
    event: Option<OutcomeView>,
) -> (AuthState, ActionView) {
    match state {
        AuthState::Unauthenticated => match credential {
            CredentialView::Absent => (
                AuthState::Rejected(Error::MissingCredential),
                ActionView::Respond(ResponseView::fail(Error::MissingCredential)),
            ),
            CredentialView::Malformed => (
                AuthState::Rejected(Error::ValidationError),
                ActionView::Respond(ResponseView::fail(Error::ValidationError)),
            ),
            CredentialView::Username(username) => (
                AuthState::Resolving,
                ActionView::Perform(EffectView::FindUser { username }),
            ),
        },
        AuthState::Resolving => match event {
            Some(OutcomeView::User(user)) => (AuthState::Authenticated, ActionView::Forward(user)),
            Some(OutcomeView::Unavailable) | Some(OutcomeView::Failed) => (
                AuthState::Rejected(Error::StoreUnavailable),
                ActionView::Respond(ResponseView::fail(Error::StoreUnavailable)),
            ),
            Some(OutcomeView::Absent) => (
                AuthState::Rejected(Error::StaleCredential),
                ActionView::Respond(stale_response()),
            ),
            _ => (AuthState::Resolving, ActionView::Idle),
        },
        AuthState::Authenticated => (AuthState::Authenticated, ActionView::Idle),
        AuthState::Rejected(error) => (AuthState::Rejected(error), ActionView::Idle),
    }
}

/// The guard's settings; it makes one [`SessionCheckerMiddleware`] for each
/// request.
#[derive(Clone, Copy, Debug)]
pub struct SessionChecker {
    wait_millis: u64,
}

impl SessionChecker {
    /// A guard whose lookups wait at most `wait_millis` milliseconds for a
    /// connection to the store.
    pub fn new(wait_millis: u64) -> (checker: Self)
        ensures
            checker.wait() == wait_millis,
    {
        SessionChecker { wait_millis }
    }

    /// The bound, in milliseconds, on the wait for a connection.
    pub closed spec fn wait(&self) -> u64 {
        self.wait_millis
    }

    /// The bound, in milliseconds, on the wait for a connection.
    pub fn wait_millis(&self) -> (millis: u64)
        ensures
            millis == self.wait(),
    {
        self.wait_millis
    }

    /// The guard for one request, which has not been looked at yet.
    pub fn new_transform(&self) -> (guard: SessionCheckerMiddleware)
        ensures
            guard.state() == AuthState::Unauthenticated,
            guard.wait() == self.wait(),
    {
        SessionCheckerMiddleware {
            state: AuthState::Unauthenticated,
            wait_millis: self.wait_millis,
        }
    }
}

/// The guard at work on one request.
#[derive(Debug)]
pub struct SessionCheckerMiddleware {
    state: AuthState,
    wait_millis: u64,
}

impl SessionCheckerMiddleware {
    /// Where the guard stands.
    pub closed spec fn state(&self) -> AuthState {
        self.state
    }

    /// The bound, in milliseconds, on the wait for a connection.
    pub closed spec fn wait(&self) -> u64 {
        self.wait_millis
    }

    /// Where the guard stands.
    pub fn current(&self) -> (state: AuthState)
        ensures
            state == self.state(),
    {
        self.state
    }

    /// The bound, in milliseconds, on the wait for a connection.
    pub fn wait_millis(&self) -> (millis: u64)
        ensures
            millis == self.wait(),
    {
        self.wait_millis
    }

    /// Whether the request may reach its handler.
    pub fn is_authenticated(&self) -> (ready: bool)
        ensures
            ready == (self.state() == AuthState::Authenticated),
    {
        match self.state {
            AuthState::Authenticated => true,
            _ => false,
        }
    }

    /// Moves the guard one step: first with the request's credential and no
    /// event, then with the outcome of the lookup that it asked for.
    pub fn call(&mut self, credential: &Credential, event: Option<Outcome>) -> (action: Action)
        ensures
            (final(self).state(), action@) == guard_model(
                credential@,
                old(self).state(),
                event.deep_view(),
            ),
            final(self).wait() == old(self).wait(),
    {
        match self.state {
            AuthState::Unauthenticated => match credential {
                Credential::Absent => {
                    self.state = AuthState::Rejected(Error::MissingCredential);
                    Action::Respond(Response::fail(Error::MissingCredential))
                },
                Credential::Malformed => {
                    self.state = AuthState::Rejected(Error::ValidationError);
                    Action::Respond(Response::fail(Error::ValidationError))
                },
                Credential::Username(username) => {
                    self.state = AuthState::Resolving;
                    Action::Perform(Effect::FindUser { username: username.clone() })
                },
            },
            AuthState::Resolving => match event {
                Some(Outcome::User(user)) => {
                    self.state = AuthState::Authenticated;
                    Action::Forward(user)
                },
                Some(Outcome::Unavailable) | Some(Outcome::Failed) => {
                    self.state = AuthState::Rejected(Error::StoreUnavailable);
                    Action::Respond(Response::fail(Error::StoreUnavailable))
                },
                Some(Outcome::Absent) => {
                    self.state = AuthState::Rejected(Error::StaleCredential);
                    Action::Respond(
                        Response {
                            result: Err(Error::StaleCredential),
                            session: SessionChange::Revoke,
                        },
                    )
                },
                _ => Action::Idle,
            },
            AuthState::Authenticated => Action::Idle,
            AuthState::Rejected(_) => Action::Idle,
        }
    }
}

} // verus!
