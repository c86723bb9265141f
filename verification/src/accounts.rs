//! The session guard and the handling of accounts on the in-memory
//! backend, each run to its end and stated in one piece.

use vstd::prelude::*;
use crate::backend::{Backend, BackendView};
use crate::db::{public_rows, DBUser, UserRow};
use crate::error::Error;
use crate::exchange::{
    phase_rank, Action, ActionView, BodyView, ChangeView, Outcome, OutcomeView, Phase, Response,
    ResponseView,
};
use crate::auth::{
    guard_model, stale_response, AuthState, Credential, CredentialView, SessionChecker,
};
use crate::password::password_verdict;
use crate::paths::users::{
    create_user, create_user_model, get_user, get_user_model, get_users, get_users_model, login,
    login_model, login_verdict_model, set_bio, set_location, update_model, welcome, BioDTO,
    LatLongDTO, UserDTO, UserDTOView,
};
use crate::tables::{changing, user_in};

verus! {

/// How many pieces of outside work the guard may still need.
pub open spec fn guard_rank(state: AuthState) -> nat {
    match state {
        AuthState::Unauthenticated => 2,
        AuthState::Resolving => 1,
        _ => 0,
    }
}

/// The guard run to its end on the backend.
pub open spec fn run_guard(
    backend: BackendView,
    credential: CredentialView,
    state: AuthState,
    event: Option<OutcomeView>,
) -> (BackendView, ActionView)
    decreases guard_rank(state),
{
    let (next, action) = guard_model(credential, state, event);
    match action {
        ActionView::Perform(effect) => {
            let (after, outcome) = backend.perform(effect);
            run_guard(after, credential, next, Some(outcome))
        },
        _ => (backend, action),
    }
}

/// What the guard decides about a request: it is turned away without a
/// credential or with one that cannot be read, fails while the store cannot
/// be reached, is turned away with its credential invalidated if the
/// account is gone, and passes with the account attached otherwise.
pub open spec fn admitted(backend: BackendView, credential: CredentialView) -> ActionView {
    match credential {
        CredentialView::Absent => ActionView::Respond(
            ResponseView::fail(Error::MissingCredential),
        ),
        CredentialView::Malformed => ActionView::Respond(
            ResponseView::fail(Error::ValidationError),
        ),
        CredentialView::Username(username) => if !backend.store_online {
            ActionView::Respond(ResponseView::fail(Error::StoreUnavailable))
        } else {
            match user_in(backend.users, username) {
                None => ActionView::Respond(stale_response()),
                Some(user) => ActionView::Forward(user),
            }
        },
    }
}

/// Passes a request with this credential through the guard. The backend
/// stays as it is.
pub fn authenticate(
    backend: &mut Backend,
    checker: &SessionChecker,
    credential: &Credential,
) -> (action: Action)
    ensures
        final(backend)@ == old(backend)@,
        action@ == admitted(old(backend)@, credential@),
{
    let mut guard = checker.new_transform();
    let mut event: Option<Outcome> = None;
    proof {
        reveal_with_fuel(run_guard, 3);
    }
    loop
        invariant
            run_guard(backend@, credential@, guard.state(), event.deep_view()) == (
                old(backend)@,
                admitted(old(backend)@, credential@),
            ),
        decreases guard_rank(guard.state()),
    {
        let action = guard.call(credential, event);
        match action {
            Action::Perform(effect) => {
                event = Some(backend.perform(effect));
            },
            other => {
                return other;
            },
        }
    }
}

/// Registration run to its end on the backend, given the hash.
pub open spec fn run_register(
    backend: BackendView,
    credentials: UserDTOView,
    hashed: Option<Seq<char>>,
    state: Phase,
    event: Option<OutcomeView>,
) -> (BackendView, ResponseView)
    decreases phase_rank(state),
{
    let (next, action) = create_user_model(credentials, hashed, state, event);
    match action {
        ActionView::Perform(effect) => {
            let (after, outcome) = backend.perform(effect);
            run_register(after, credentials, hashed, next, Some(outcome))
        },
        ActionView::Respond(response) => (backend, response),
        _ => (backend, ResponseView::fail(Error::IOError)),
    }
}

/// What registration does to the backend, and the answer, given the hash
/// of the password: the account is added unless its name is taken, and a
/// credential for it is issued.
pub open spec fn registered(
    backend: BackendView,
    credentials: UserDTOView,
    hashed: Option<Seq<char>>,
) -> (BackendView, ResponseView) {
    match hashed {
        None => (backend, ResponseView::fail(Error::HashFailure)),
        Some(hash) => if !backend.store_online {
            (backend, ResponseView::fail(Error::StoreUnavailable))
        } else if user_in(backend.users, credentials.username) is Some {
            (backend, ResponseView::fail(Error::UsernameTaken))
        } else {
            let user = UserRow::fresh(credentials.username, hash);
            (
                BackendView { users: backend.users.push(user), ..backend },
                welcome(credentials.username, BodyView::User(user.public())),
            )
        },
    }
}

/// Registers an account. The hash that is stored differs from call to
/// call; whatever it is, the password checks against it.
pub fn register(backend: &mut Backend, credentials: &UserDTO) -> (response: Response)
    ensures
        exists|hashed: Option<Seq<char>>|
            {
                &&& hashed matches Some(hash) ==> password_verdict(credentials@.password, hash)
                    == Some(true)
                &&& (final(backend)@, response@) == #[trigger] registered(
                    old(backend)@,
                    credentials@,
                    hashed,
                )
            },
{
    let mut state = Phase::Start;
    let mut event: Option<Outcome> = None;
    let first = create_user(credentials, state, event);
    let ghost hashed = choose|hashed: Option<Seq<char>>|
        {
            &&& hashed matches Some(hash) ==> password_verdict(credentials@.password, hash)
                == Some(true)
            &&& (first.0, first.1@) == #[trigger] create_user_model(
                credentials@,
                hashed,
                Phase::Start,
                None,
            )
        };
    proof {
        reveal_with_fuel(run_register, 3);
    }
    state = first.0;
    let mut action = first.1;
    loop
        invariant
            match action@ {
                ActionView::Perform(effect) => run_register(
                    backend@.perform(effect).0,
                    credentials@,
                    hashed,
                    state,
                    Some(backend@.perform(effect).1),
                ),
                ActionView::Respond(response) => (backend@, response),
                _ => (backend@, ResponseView::fail(Error::IOError)),
            } == registered(old(backend)@, credentials@, hashed),
            hashed matches Some(hash) ==> password_verdict(credentials@.password, hash) == Some(
                true,
            ),
            action@ is Perform ==> state == Phase::Waiting,
        decreases phase_rank(state),
    {
        match action {
            Action::Perform(effect) => {
                let outcome = backend.perform(effect);
                let ghost seen = Some(outcome@);
                let next = create_user(credentials, state, Some(outcome));
                assert(forall|other: Option<Seq<char>>|
                    create_user_model(credentials@, other, Phase::Waiting, seen)
                        == #[trigger] create_user_model(
                        credentials@,
                        hashed,
                        Phase::Waiting,
                        seen,
                    ));
                state = next.0;
                action = next.1;
            },
            Action::Respond(response) => {
                return response;
            },
            _ => {
                return Response::fail(Error::IOError);
            },
        }
    }
}

/// The login run to its end on the backend.
pub open spec fn run_login(
    backend: BackendView,
    credentials: UserDTOView,
    state: Phase,
    event: Option<OutcomeView>,
) -> (BackendView, ResponseView)
    decreases phase_rank(state),
{
    let (next, action) = login_model(credentials, state, event);
    match action {
        ActionView::Perform(effect) => {
            let (after, outcome) = backend.perform(effect);
            run_login(after, credentials, next, Some(outcome))
        },
        ActionView::Respond(response) => (backend, response),
        _ => (backend, ResponseView::fail(Error::IOError)),
    }
}

/// The answer to a login: a credential for the account if the password
/// checks against its hash; the same refusal for an unknown name and for a
/// wrong password.
pub open spec fn logged_in(backend: BackendView, credentials: UserDTOView) -> ResponseView {
    if !backend.store_online {
        ResponseView::fail(Error::StoreUnavailable)
    } else {
        match user_in(backend.users, credentials.username) {
            None => ResponseView::fail(Error::InvalidLogin),
            Some(user) => login_verdict_model(
                user,
                password_verdict(credentials.password, user.password),
            ),
        }
    }
}

/// Logs a user in. The backend stays as it is.
pub fn log_in(backend: &mut Backend, credentials: &UserDTO) -> (response: Response)
    ensures
        final(backend)@ == old(backend)@,
        response@ == logged_in(old(backend)@, credentials@),
{
    let mut state = Phase::Start;
    let mut event: Option<Outcome> = None;
    proof {
        reveal_with_fuel(run_login, 3);
    }
    loop
        invariant
            run_login(backend@, credentials@, state, event.deep_view()) == (
                old(backend)@,
                logged_in(old(backend)@, credentials@),
            ),
        decreases phase_rank(state),
    {
        let (next, action) = login(credentials, state, event);
        match action {
            Action::Perform(effect) => {
                event = Some(backend.perform(effect));
                state = next;
            },
            Action::Respond(response) => {
                return response;
            },
            _ => {
                return Response::fail(Error::IOError);
            },
        }
    }
}

/// The handler of the account list run to its end on the backend.
pub open spec fn run_users(backend: BackendView, state: Phase, event: Option<OutcomeView>) -> (
    BackendView,
    ResponseView,
)
    decreases phase_rank(state),
{
    let (next, action) = get_users_model(state, event);
    match action {
        ActionView::Perform(effect) => {
            let (after, outcome) = backend.perform(effect);
            run_users(after, next, Some(outcome))
        },
        ActionView::Respond(response) => (backend, response),
        _ => (backend, ResponseView::fail(Error::IOError)),
    }
}

/// The answer to the request for all accounts: each as clients may see it.
pub open spec fn users_listed(backend: BackendView) -> ResponseView {
    if !backend.store_online {
        ResponseView::fail(Error::StoreUnavailable)
    } else {
        ResponseView::ok(BodyView::Users(public_rows(backend.users)))
    }
}

/// Lists all accounts. The backend stays as it is.
pub fn list_users(backend: &mut Backend) -> (response: Response)
    ensures
        final(backend)@ == old(backend)@,
        response@ == users_listed(old(backend)@),
{
    let mut state = Phase::Start;
    let mut event: Option<Outcome> = None;
    proof {
        reveal_with_fuel(run_users, 3);
    }
    loop
        invariant
            run_users(backend@, state, event.deep_view()) == (
                old(backend)@,
                users_listed(old(backend)@),
            ),
        decreases phase_rank(state),
    {
        let (next, action) = get_users(state, event);
        match action {
            Action::Perform(effect) => {
                event = Some(backend.perform(effect));
                state = next;
            },
            Action::Respond(response) => {
                return response;
            },
            _ => {
                return Response::fail(Error::IOError);
            },
        }
    }
}

/// The handler of a single profile run to its end on the backend.
pub open spec fn run_user(
    backend: BackendView,
    username: Seq<char>,
    state: Phase,
    event: Option<OutcomeView>,
) -> (BackendView, ResponseView)
    decreases phase_rank(state),
{
    let (next, action) = get_user_model(username, state, event);
    match action {
        ActionView::Perform(effect) => {
            let (after, outcome) = backend.perform(effect);
            run_user(after, username, next, Some(outcome))
        },
        ActionView::Respond(response) => (backend, response),
        _ => (backend, ResponseView::fail(Error::IOError)),
    }
}

/// The answer to the request for one account: the account as clients may
/// see it, or that there is none of that name.
pub open spec fn user_shown(backend: BackendView, username: Seq<char>) -> ResponseView {
    if !backend.store_online {
        ResponseView::fail(Error::StoreUnavailable)
    } else {
        match user_in(backend.users, username) {
            None => ResponseView::fail(Error::NotFound),
            Some(user) => ResponseView::ok(BodyView::User(user.public())),
        }
    }
}

/// Shows the account of the user named `username`. The backend stays as
/// it is.
pub fn show_user(backend: &mut Backend, username: &str) -> (response: Response)
    ensures
        final(backend)@ == old(backend)@,
        response@ == user_shown(old(backend)@, username@),
{
    let mut state = Phase::Start;
    let mut event: Option<Outcome> = None;
    proof {
        reveal_with_fuel(run_user, 3);
    }
    loop
        invariant
            run_user(backend@, username@, state, event.deep_view()) == (
                old(backend)@,
                user_shown(old(backend)@, username@),
            ),
        decreases phase_rank(state),
    {
        let (next, action) = get_user(username, state, event);
        match action {
            Action::Perform(effect) => {
                event = Some(backend.perform(effect));
                state = next;
            },
            Action::Respond(response) => {
                return response;
            },
            _ => {
                return Response::fail(Error::IOError);
            },
        }
    }
}

/// A change to the user's own account run to its end on the backend.
pub open spec fn run_update(
    backend: BackendView,
    user: UserRow,
    change: ChangeView,
    state: Phase,
    event: Option<OutcomeView>,
) -> (BackendView, ResponseView)
    decreases phase_rank(state),
{
    let (next, action) = update_model(user, change, state, event);
    match action {
        ActionView::Perform(effect) => {
            let (after, outcome) = backend.perform(effect);
            run_update(after, user, change, next, Some(outcome))
        },
        ActionView::Respond(response) => (backend, response),
        _ => (backend, ResponseView::fail(Error::IOError)),
    }
}

/// What a change to the account named `username` does to the backend, and
/// the answer: that account is changed and no other.
pub open spec fn changed(backend: BackendView, username: Seq<char>, change: ChangeView) -> (
    BackendView,
    ResponseView,
) {
    if !backend.store_online {
        (backend, ResponseView::fail(Error::StoreUnavailable))
    } else if user_in(backend.users, username) is None {
        (backend, ResponseView::fail(Error::NotFound))
    } else {
        (
            BackendView { users: backend.users.map_values(changing(username, change)), ..backend },
            ResponseView::ok(BodyView::Empty),
        )
    }
}

/// Sets the location of `user`.
pub fn change_location(
    backend: &mut Backend,
    user: &DBUser,
    latlong: &LatLongDTO,
) -> (response: Response)
    ensures
        (final(backend)@, response@) == changed(
            old(backend)@,
            user@.username,
            ChangeView::Location { lat: latlong.lat, long: latlong.long },
        ),
{
    let mut state = Phase::Start;
    let mut event: Option<Outcome> = None;
    let ghost change = ChangeView::Location { lat: latlong.lat, long: latlong.long };
    proof {
        reveal_with_fuel(run_update, 3);
    }
    loop
        invariant
            change == (ChangeView::Location { lat: latlong.lat, long: latlong.long }),
            run_update(backend@, user@, change, state, event.deep_view()) == changed(
                old(backend)@,
                user@.username,
                change,
            ),
        decreases phase_rank(state),
    {
        let (next, action) = set_location(user, latlong, state, event);
        match action {
            Action::Perform(effect) => {
                event = Some(backend.perform(effect));
                state = next;
            },
            Action::Respond(response) => {
                return response;
            },
            _ => {
                return Response::fail(Error::IOError);
            },
        }
    }
}

/// Sets the text that `user` shows.
pub fn change_bio(backend: &mut Backend, user: &DBUser, bio: &BioDTO) -> (response: Response)
    ensures
        (final(backend)@, response@) == changed(
            old(backend)@,
            user@.username,
            ChangeView::Bio(bio@),
        ),
{
    let mut state = Phase::Start;
    let mut event: Option<Outcome> = None;
    proof {
        reveal_with_fuel(run_update, 3);
    }
    loop
        invariant
            run_update(backend@, user@, ChangeView::Bio(bio@), state, event.deep_view())
                == changed(old(backend)@, user@.username, ChangeView::Bio(bio@)),
        decreases phase_rank(state),
    {
        let (next, action) = set_bio(user, bio, state, event);
        match action {
            Action::Perform(effect) => {
                event = Some(backend.perform(effect));
                state = next;
            },
            Action::Respond(response) => {
                return response;
            },
            _ => {
                return Response::fail(Error::IOError);
            },
        }
    }
}

} // verus!
