//! The service as a whole on the in-memory backend: requests come in with
//! the credential of their session, protected ones pass the session guard
//! first, and the answer says what becomes of the session.

use vstd::prelude::*;
use crate::accounts::{
    admitted, authenticate, change_bio, change_location, changed, list_users, log_in, logged_in,
    register, registered, show_user, user_shown, users_listed,
};
use crate::auth::{Credential, CredentialView, SessionChecker};
use crate::backend::{Backend, BackendView};
use crate::db::{DBUser, UserRow};
use crate::engine::{
    delete_match, list_available, list_matches, listed, offered, record_swipe, recorded,
    unmatched,
};
use crate::error::Error;
use crate::exchange::{
    Action, ActionView, ChangeView, Response, ResponseView, SessionChange,
    SessionChangeView,
};
use crate::media::{get_profile_picture, pictured, upload_profile_picture, uploaded};
use crate::password::password_verdict;
use crate::paths::swipe::{SwipeDTO, SwipeDTOView};
use crate::paths::users::{farewell, logout, upload_view, BioDTO, LatLongDTO, UserDTO, UserDTOView};

verus! {

/// A request to the service.
#[derive(Debug, PartialEq, Eq)]
pub enum Request {
    /// List all accounts.
    GetUsers,
    /// Register an account.
    CreateUser(UserDTO),
    /// Show one account.
    GetUser(String),
    /// Fetch the picture of one account.
    GetUserPic(String),
    /// Log in.
    Login(UserDTO),
    /// Log out.
    Logout,
    /// Show the account of the session.
    CheckLogin,
    /// Set the location of the account of the session.
    SetLocation(LatLongDTO),
    /// Set the text that the account of the session shows.
    SetBio(BioDTO),
    /// Store a picture for the account of the session.
    UploadProfilePic(Option<Vec<u8>>),
    /// Swipe on another user.
    Swipe(SwipeDTO),
    /// List whom the user may still swipe on.
    Available,
    /// List the user's matches.
    Matches,
    /// Delete the match with the user of this name.
    DeleteMatch(String),
}

/// What a [`Request`] stands for.
pub enum RequestView {
    GetUsers,
    CreateUser(UserDTOView),
    GetUser(Seq<char>),
    GetUserPic(Seq<char>),
    Login(UserDTOView),
    Logout,
    CheckLogin,
    SetLocation(LatLongDTO),
    SetBio(Seq<char>),
    UploadProfilePic(Option<Seq<u8>>),
    Swipe(SwipeDTOView),
    Available,
    Matches,
    DeleteMatch(Seq<char>),
}

impl View for Request {
    type V = RequestView;

    open spec fn view(&self) -> RequestView {
        match self {
            Request::GetUsers => RequestView::GetUsers,
            Request::CreateUser(credentials) => RequestView::CreateUser(credentials@),
            Request::GetUser(username) => RequestView::GetUser(username@),
            Request::GetUserPic(username) => RequestView::GetUserPic(username@),
            Request::Login(credentials) => RequestView::Login(credentials@),
            Request::Logout => RequestView::Logout,
            Request::CheckLogin => RequestView::CheckLogin,
            Request::SetLocation(latlong) => RequestView::SetLocation(*latlong),
            Request::SetBio(bio) => RequestView::SetBio(bio@),
            Request::UploadProfilePic(upload) => RequestView::UploadProfilePic(
                upload_view(*upload),
            ),
            Request::Swipe(swipe) => RequestView::Swipe(swipe@),
            Request::Available => RequestView::Available,
            Request::Matches => RequestView::Matches,
            Request::DeleteMatch(other) => RequestView::DeleteMatch(other@),
        }
    }
}

impl RequestView {
    /// Whether the request has to pass the session guard.
    pub open spec fn protected(self) -> bool {
        match self {
            RequestView::GetUsers => false,
            RequestView::CreateUser(_) => false,
            RequestView::GetUser(_) => false,
            RequestView::GetUserPic(_) => false,
            RequestView::Login(_) => false,
            RequestView::Logout => false,
            _ => true,
        }
    }

    /// Whether `hashed` may be the hash drawn while the request is served:
    /// only a registration draws one, and its password checks against it.
    pub open spec fn may_draw(self, hashed: Option<Seq<char>>) -> bool {
        hashed matches Some(hash) ==> self matches RequestView::CreateUser(credentials)
            && password_verdict(credentials.password, hash) == Some(true)
    }

    /// What a request that needs no session does to the backend, and the
    /// answer. `hashed` is the hash drawn for a registration.
    pub open spec fn open_to_all(self, backend: BackendView, hashed: Option<Seq<char>>) -> (
        BackendView,
        ResponseView,
    ) {
        match self {
            RequestView::GetUsers => (backend, users_listed(backend)),
            RequestView::CreateUser(credentials) => registered(backend, credentials, hashed),
            RequestView::GetUser(username) => (backend, user_shown(backend, username)),
            RequestView::GetUserPic(username) => pictured(backend, username),
            RequestView::Login(credentials) => (backend, logged_in(backend, credentials)),
            _ => (backend, farewell()),
        }
    }

    /// What a protected request does to the backend once the guard has
    /// attached `user` to it, and the answer.
    pub open spec fn on_behalf(self, backend: BackendView, user: UserRow) -> (
        BackendView,
        ResponseView,
    ) {
        match self {
            RequestView::SetLocation(latlong) => changed(
                backend,
                user.username,
                ChangeView::Location { lat: latlong.lat, long: latlong.long },
            ),
            RequestView::SetBio(bio) => changed(backend, user.username, ChangeView::Bio(bio)),
            RequestView::UploadProfilePic(upload) => uploaded(backend, user.username, upload),
            RequestView::Swipe(swipe) => recorded(backend, user.username, swipe),
            RequestView::Available => (backend, offered(backend, user.username)),
            RequestView::Matches => (backend, listed(backend, user.username)),
            RequestView::DeleteMatch(other) => unmatched(backend, user.username, other),
            _ => (backend, user_shown(backend, user.username)),
        }
    }

    /// What a request does to the backend, and the answer.
    ///
    /// A protected request passes the guard first. If the guard turns it
    /// away, the guard's answer is the answer and nothing else happens.
    pub open spec fn served(
        self,
        backend: BackendView,
        credential: CredentialView,
        hashed: Option<Seq<char>>,
    ) -> (BackendView, ResponseView) {
        if self.protected() {
            match admitted(backend, credential) {
                ActionView::Forward(user) => self.on_behalf(backend, user),
                ActionView::Respond(response) => (backend, response),
                _ => (backend, ResponseView::fail(Error::IOError)),
            }
        } else {
            self.open_to_all(backend, hashed)
        }
    }
}

impl Request {
    /// Whether the request has to pass the session guard.
    pub fn protected(&self) -> (yes: bool)
        ensures
            yes == self@.protected(),
    {
        match self {
            Request::GetUsers => false,
            Request::CreateUser(_) => false,
            Request::GetUser(_) => false,
            Request::GetUserPic(_) => false,
            Request::Login(_) => false,
            Request::Logout => false,
            _ => true,
        }
    }
}

/// Serves a request that needs no session.
fn serve_open(backend: &mut Backend, request: Request) -> (response: Response)
    requires
        !request@.protected(),
    ensures
        exists|hashed: Option<Seq<char>>|
            {
                &&& request@.may_draw(hashed)
                &&& (final(backend)@, response@) == #[trigger] request@.open_to_all(
                    old(backend)@,
                    hashed,
                )
            },
{
    match request {
        Request::GetUsers => {
            let response = list_users(backend);
            assert(request@.open_to_all(old(backend)@, None) == (final(backend)@, response@));
            response
        },
        Request::CreateUser(credentials) => {
            let response = register(backend, &credentials);
            proof {
                let hashed = choose|hashed: Option<Seq<char>>|
                    {
                        &&& hashed matches Some(hash) ==> password_verdict(
                            credentials@.password,
                            hash,
                        ) == Some(true)
                        &&& (backend@, response@) == #[trigger] registered(
                            old(backend)@,
                            credentials@,
                            hashed,
                        )
                    };
                assert(request@.may_draw(hashed));
                assert(request@.open_to_all(old(backend)@, hashed) == (backend@, response@));
            }
            response
        },
        Request::GetUser(username) => {
            let response = show_user(backend, username.as_str());
            assert(request@.open_to_all(old(backend)@, None) == (final(backend)@, response@));
            response
        },
        Request::GetUserPic(username) => {
            let response = get_profile_picture(backend, username.as_str());
            assert(request@.open_to_all(old(backend)@, None) == (final(backend)@, response@));
            response
        },
        Request::Login(credentials) => {
            let response = log_in(backend, &credentials);
            assert(request@.open_to_all(old(backend)@, None) == (final(backend)@, response@));
            response
        },
        _ => {
            let response = logout();
            assert(request@.open_to_all(old(backend)@, None) == (final(backend)@, response@));
            response
        },
    }
}

/// Serves a protected request on behalf of the account that the guard
/// attached to it.
fn serve_on_behalf(backend: &mut Backend, user: &DBUser, request: Request) -> (response: Response)
    requires
        request@.protected(),
    ensures
        (final(backend)@, response@) == request@.on_behalf(old(backend)@, user@),
{
    match request {
        Request::SetLocation(latlong) => change_location(backend, user, &latlong),
        Request::SetBio(bio) => change_bio(backend, user, &bio),
        Request::UploadProfilePic(upload) => upload_profile_picture(backend, user, &upload),
        Request::Swipe(swipe) => record_swipe(backend, user, &swipe),
        Request::Available => list_available(backend, user),
        Request::Matches => list_matches(backend, user),
        Request::DeleteMatch(other) => delete_match(backend, user, other.as_str()),
        _ => show_user(backend, user.username.as_str()),
    }
}

/// Serves a request that comes with `credential`. For a registration the
/// hash that is stored differs from call to call; whatever it is, the
/// password checks against it.
pub fn serve(
    backend: &mut Backend,
    checker: &SessionChecker,
    credential: &Credential,
    request: Request,
) -> (response: Response)
    ensures
        exists|hashed: Option<Seq<char>>|
            {
                &&& request@.may_draw(hashed)
                &&& (final(backend)@, response@) == #[trigger] request@.served(
                    old(backend)@,
                    credential@,
                    hashed,
                )
            },
{
    if request.protected() {
        let response = match authenticate(backend, checker, credential) {
            Action::Forward(user) => serve_on_behalf(backend, &user, request),
            Action::Respond(response) => response,
            _ => Response::fail(Error::IOError),
        };
        assert(request@.served(old(backend)@, credential@, None) == (final(backend)@, response@));
        response
    } else {
        let response = serve_open(backend, request);
        proof {
            let hashed = choose|hashed: Option<Seq<char>>|
                {
                    &&& request@.may_draw(hashed)
                    &&& (backend@, response@) == #[trigger] request@.open_to_all(
                        old(backend)@,
                        hashed,
                    )
                };
            assert(request@.served(old(backend)@, credential@, hashed) == (backend@, response@));
        }
        response
    }
}

/// A client's session: the credential that its requests carry.
#[derive(Debug, PartialEq, Eq)]
pub struct Session {
    pub credential: Credential,
}

impl SessionChangeView {
    /// The credential after the change.
    pub open spec fn apply(self, credential: CredentialView) -> CredentialView {
        match self {
            SessionChangeView::Keep => credential,
            SessionChangeView::Issue(username) => CredentialView::Username(username),
            SessionChangeView::Revoke => CredentialView::Absent,
        }
    }
}

impl Session {
    /// A session without credential.
    pub fn new() -> (session: Session)
        ensures
            session.credential@ == CredentialView::Absent,
    {
        Session { credential: Credential::Absent }
    }

    /// Applies what an answer says about the session.
    pub fn apply(&mut self, change: &SessionChange)
        ensures
            final(self).credential@ == change@.apply(old(self).credential@),
    {
        match change {
            SessionChange::Keep => {},
            SessionChange::Issue(username) => {
                self.credential = Credential::Username(username.clone());
            },
            SessionChange::Revoke => {
                self.credential = Credential::Absent;
            },
        }
    }

    /// Sends a request with the session's credential and applies to the
    /// session what the answer says about it.
    pub fn send(
        &mut self,
        backend: &mut Backend,
        checker: &SessionChecker,
        request: Request,
    ) -> (response: Response)
        ensures
            final(self).credential@ == response@.session.apply(old(self).credential@),
            exists|hashed: Option<Seq<char>>|
                {
                    &&& request@.may_draw(hashed)
                    &&& (final(backend)@, response@) == #[trigger] request@.served(
                        old(backend)@,
                        old(self).credential@,
                        hashed,
                    )
                },
    {
        let response = serve(backend, checker, &self.credential, request);
        self.apply(&response.session);
        response
    }
}

} // verus!
