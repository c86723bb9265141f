//! Accounts: registration, login, the profile, and the profile picture
//! with its cache.

use vstd::prelude::*;
use vstd::string::*;
use crate::db::{public_list, public_rows, DBUser, UserRow};
use crate::error::Error;
use crate::exchange::{
    Action, ActionView, Body, BodyView, Change, ChangeView, Effect, EffectView, Outcome,
    OutcomeView, Phase, Response, ResponseView, SessionChange, SessionChangeView,
};
use crate::password::{check_password, hash_password, password_verdict};

verus! {

/// A user name and a password, as sent to register and to log in.
#[derive(Debug, PartialEq, Eq)]
pub struct UserDTO {
    pub username: String,
    pub password: String,
}

/// What a [`UserDTO`] stands for.
pub struct UserDTOView {
    pub username: Seq<char>,
    pub password: Seq<char>,
}

impl View for UserDTO {
    type V = UserDTOView;

    open spec fn view(&self) -> UserDTOView {
        UserDTOView { username: self.username@, password: self.password@ }
    }
}

/// A location, as sent to set it: the bit patterns of two double-precision
/// numbers.
#[derive(Clone, Copy, Debug, PartialEq, Eq)]
pub struct LatLongDTO {
    pub lat: u64,
    pub long: u64,
}

/// The text of a profile, as sent to set it.
#[derive(Debug, PartialEq, Eq)]
pub struct BioDTO {
    pub bio: String,
}

impl View for BioDTO {
    type V = Seq<char>;

    open spec fn view(&self) -> Seq<char> {
        self.bio@
    }
}

/// What the handler of the account list does in each state.
pub open spec fn get_users_model(state: Phase, event: Option<OutcomeView>) -> (Phase, ActionView) {
    match state {
        Phase::Start => (Phase::Waiting, ActionView::Perform(EffectView::ListUsers)),
        Phase::Waiting => match event {
            Some(OutcomeView::Users(rows)) => (
                Phase::Done,
                ActionView::Respond(ResponseView::ok(BodyView::Users(public_rows(rows)))),
            ),
            Some(OutcomeView::Unavailable) | Some(OutcomeView::Failed) => (
                Phase::Done,
                ActionView::Respond(ResponseView::fail(Error::StoreUnavailable)),
            ),
            _ => (Phase::Waiting, ActionView::Idle),
        },
        Phase::Done => (Phase::Done, ActionView::Idle),
    }
}

/// Lists all accounts, as clients may see them.
pub fn get_users(state: Phase, event: Option<Outcome>) -> (next: (Phase, Action))
    ensures
        (next.0, next.1@) == get_users_model(state, event.deep_view()),
{
    match state {
        Phase::Start => (Phase::Waiting, Action::Perform(Effect::ListUsers)),
        Phase::Waiting => match event {
            Some(Outcome::Users(rows)) => {
                let list = public_list(&rows);
                (Phase::Done, Action::Respond(Response::ok(Body::Users(list))))
            },
            Some(Outcome::Unavailable) | Some(Outcome::Failed) => (
                Phase::Done,
                Action::Respond(Response::fail(Error::StoreUnavailable)),
            ),
            _ => (Phase::Waiting, Action::Idle),
        },
        Phase::Done => (Phase::Done, Action::Idle),
    }
}

/// What the handler of a single profile does in each state.
pub open spec fn get_user_model(username: Seq<char>, state: Phase, event: Option<OutcomeView>) -> (
    Phase,
    ActionView,
) {
    match state {
        Phase::Start => (Phase::Waiting, ActionView::Perform(EffectView::FindUser { username })),
        Phase::Waiting => match event {
            Some(OutcomeView::User(found)) => (
                Phase::Done,
                ActionView::Respond(ResponseView::ok(BodyView::User(found.public()))),
            ),
            Some(OutcomeView::Absent) => (
                Phase::Done,
                ActionView::Respond(ResponseView::fail(Error::NotFound)),
            ),
            Some(OutcomeView::Unavailable) | Some(OutcomeView::Failed) => (
                Phase::Done,
                ActionView::Respond(ResponseView::fail(Error::StoreUnavailable)),
            ),
            _ => (Phase::Waiting, ActionView::Idle),
        },
        Phase::Done => (Phase::Done, ActionView::Idle),
    }
}

/// Shows the account of the user named `username`, as clients may see it.
pub fn get_user(username: &str, state: Phase, event: Option<Outcome>) -> (next: (Phase, Action))
    ensures
        (next.0, next.1@) == get_user_model(username@, state, event.deep_view()),
{
    match state {
        Phase::Start => (
            Phase::Waiting,
            Action::Perform(Effect::FindUser { username: username.to_owned() }),
        ),
        Phase::Waiting => match event {
            Some(Outcome::User(found)) => (
                Phase::Done,
                Action::Respond(Response::ok(Body::User(found.public()))),
            ),
            Some(Outcome::Absent) => (
                Phase::Done,
                Action::Respond(Response::fail(Error::NotFound)),
            ),
            Some(Outcome::Unavailable) | Some(Outcome::Failed) => (
                Phase::Done,
                Action::Respond(Response::fail(Error::StoreUnavailable)),
            ),
            _ => (Phase::Waiting, Action::Idle),
        },
        Phase::Done => (Phase::Done, Action::Idle),
    }
}

/// Where the fetching of a profile picture stands.
#[derive(Debug, PartialEq, Eq)]
pub enum PictureState {
    /// Nothing has been asked yet.
    Start,
    /// The account is being looked up.
    Resolving,
    /// The account has a picture stored at `path`; the cache is being probed.
    Probing { path: String },
    /// The cache holds nothing; the blob is being read.
    Reading,
    /// The blob is read; the cache is being filled with it.
    Filling { bytes: Vec<u8> },
    /// The request is answered.
    Done,
}

/// What a [`PictureState`] stands for.
pub enum PictureStateView {
    Start,
    Resolving,
    Probing { path: Seq<char> },
    Reading,
    Filling { bytes: Seq<u8> },
    Done,
}

impl View for PictureState {
    type V = PictureStateView;

    open spec fn view(&self) -> PictureStateView {
        match self {
            PictureState::Start => PictureStateView::Start,
            PictureState::Resolving => PictureStateView::Resolving,
            PictureState::Probing { path } => PictureStateView::Probing { path: path@ },
            PictureState::Reading => PictureStateView::Reading,
            PictureState::Filling { bytes } => PictureStateView::Filling { bytes: bytes@ },
            PictureState::Done => PictureStateView::Done,
        }
    }
}

/// What fetching a profile picture does in each state.
///
/// The account is looked up first; without an account, or without a
/// picture on it, nothing is found. Then the cache is probed under the user
/// name, and what it holds is the answer, with no look at the blob store.
/// Only when the cache holds nothing is the blob read; the cache is then
/// filled with it, and the answer is the blob whether or not the filling
/// worked.
pub open spec fn get_user_pic_model(
    username: Seq<char>,
    state: PictureStateView,
    event: Option<OutcomeView>,
) -> (PictureStateView, ActionView) {
    match state {
        PictureStateView::Start => (
            PictureStateView::Resolving,
            ActionView::Perform(EffectView::FindUser { username }),
        ),
        PictureStateView::Resolving => match event {
            Some(OutcomeView::User(user)) => match user.profile_pic {
                Some(path) => (
                    PictureStateView::Probing { path },
                    ActionView::Perform(EffectView::CacheGet { key: username }),
                ),
                None => (
                    PictureStateView::Done,
                    ActionView::Respond(ResponseView::fail(Error::NotFound)),
                ),
            },
            Some(OutcomeView::Absent) => (
                PictureStateView::Done,
                ActionView::Respond(ResponseView::fail(Error::NotFound)),
            ),
            Some(OutcomeView::Unavailable) | Some(OutcomeView::Failed) => (
                PictureStateView::Done,
                ActionView::Respond(ResponseView::fail(Error::StoreUnavailable)),
            ),
            _ => (state, ActionView::Idle),
        },
        PictureStateView::Probing { path } => match event {
            Some(OutcomeView::Bytes(bytes)) => (
                PictureStateView::Done,
                ActionView::Respond(ResponseView::ok(BodyView::Picture(bytes))),
            ),
            Some(OutcomeView::Absent) => (
                PictureStateView::Reading,
                ActionView::Perform(EffectView::ReadBlob { path }),
            ),
            Some(OutcomeView::Unavailable) | Some(OutcomeView::Failed) => (
                PictureStateView::Done,
                ActionView::Respond(ResponseView::fail(Error::StoreUnavailable)),
            ),
            _ => (state, ActionView::Idle),
        },
        PictureStateView::Reading => match event {
            Some(OutcomeView::Bytes(bytes)) => (
                PictureStateView::Filling { bytes },
                ActionView::Perform(EffectView::CacheSet { key: username, bytes }),
            ),
            Some(OutcomeView::Absent) => (
                PictureStateView::Done,
                ActionView::Respond(ResponseView::fail(Error::NotFound)),
            ),
            Some(OutcomeView::Failed) => (
                PictureStateView::Done,
                ActionView::Respond(ResponseView::fail(Error::IOError)),
            ),
            Some(OutcomeView::Unavailable) => (
                PictureStateView::Done,
                ActionView::Respond(ResponseView::fail(Error::StoreUnavailable)),
            ),
            _ => (state, ActionView::Idle),
        },
        PictureStateView::Filling { bytes } => match event {
            Some(OutcomeView::Done) | Some(OutcomeView::Failed) | Some(
                OutcomeView::Unavailable,
            ) => (
                PictureStateView::Done,
                ActionView::Respond(ResponseView::ok(BodyView::Picture(bytes))),
            ),
            _ => (state, ActionView::Idle),
        },
        PictureStateView::Done => (PictureStateView::Done, ActionView::Idle),
    }
}

/// Fetches the profile picture of the user named `username`, through the
/// cache.
pub fn get_user_pic(
    username: &str,
    state: PictureState,
    event: Option<Outcome>,
) -> (next: (PictureState, Action))
    ensures
        (next.0@, next.1@) == get_user_pic_model(username@, state@, event.deep_view()),
{
    match state {
        PictureState::Start => (
            PictureState::Resolving,
            Action::Perform(Effect::FindUser { username: username.to_owned() }),
        ),
        PictureState::Resolving => match event {
            Some(Outcome::User(user)) => match user.profile_pic {
                Some(path) => (
                    PictureState::Probing { path },
                    Action::Perform(Effect::CacheGet { key: username.to_owned() }),
                ),
                None => (PictureState::Done, Action::Respond(Response::fail(Error::NotFound))),
            },
            Some(Outcome::Absent) => (
                PictureState::Done,
                Action::Respond(Response::fail(Error::NotFound)),
            ),
            Some(Outcome::Unavailable) | Some(Outcome::Failed) => (
                PictureState::Done,
                Action::Respond(Response::fail(Error::StoreUnavailable)),
            ),
            _ => (PictureState::Resolving, Action::Idle),
        },
        PictureState::Probing { path } => match event {
            Some(Outcome::Bytes(bytes)) => (
                PictureState::Done,
                Action::Respond(Response::ok(Body::Picture(bytes))),
            ),
            Some(Outcome::Absent) => (
                PictureState::Reading,
                Action::Perform(Effect::ReadBlob { path }),
            ),
            Some(Outcome::Unavailable) | Some(Outcome::Failed) => (
                PictureState::Done,
                Action::Respond(Response::fail(Error::StoreUnavailable)),
            ),
            _ => (PictureState::Probing { path }, Action::Idle),
        },
        PictureState::Reading => match event {
            Some(Outcome::Bytes(bytes)) => {
                let copy = bytes.clone();
                (
                    PictureState::Filling { bytes },
                    Action::Perform(Effect::CacheSet { key: username.to_owned(), bytes: copy }),
                )
            },
            Some(Outcome::Absent) => (
                PictureState::Done,
                Action::Respond(Response::fail(Error::NotFound)),
            ),
            Some(Outcome::Failed) => (
                PictureState::Done,
                Action::Respond(Response::fail(Error::IOError)),
            ),
            Some(Outcome::Unavailable) => (
                PictureState::Done,
                Action::Respond(Response::fail(Error::StoreUnavailable)),
            ),
            _ => (PictureState::Reading, Action::Idle),
        },
        PictureState::Filling { bytes } => match event {
            Some(Outcome::Done) | Some(Outcome::Failed) | Some(Outcome::Unavailable) => (
                PictureState::Done,
                Action::Respond(Response::ok(Body::Picture(bytes))),
            ),
            _ => (PictureState::Filling { bytes }, Action::Idle),
        },
        PictureState::Done => (PictureState::Done, Action::Idle),
    }
}

/// Where the storing of a new profile picture stands.
#[derive(Clone, Copy, Debug, PartialEq, Eq, Structural)]
pub enum UploadStep {
    /// Nothing has been asked yet.
    Start,
    /// The blob is being written.
    Writing,
    /// The blob is written; its path is being recorded on the account.
    Referencing,
    /// The path is recorded; the cache entry is being dropped.
    Invalidating,
    /// The request is answered.
    Done,
}

/// Where the picture of the user named `username` is stored.
pub open spec fn picture_path_of(username: Seq<char>) -> Seq<char> {
    "./profile_pics/"@ + username
}

/// Where the picture of the user named `username` is stored.
pub fn picture_path(username: &str) -> (path: String)
    ensures
        path@ == picture_path_of(username@),
{
    let mut path = String::from_str("./profile_pics/");
    path.append(username);
    path
}

/// The bytes of an upload, if there is one.
pub open spec fn upload_view(upload: Option<Vec<u8>>) -> Option<Seq<u8>> {
    match upload {
        Some(bytes) => Some(bytes@),
        None => None,
    }
}

/// What storing a new profile picture does in each state.
///
/// A request without a file is refused. The bytes are written to the path
/// that belongs to the user, over what was there; the path is recorded on
/// the account; and the cache entry of the user is dropped, so that the
/// next fetch reads the new blob. Once the path is recorded the answer is
/// success, whether or not the cache entry could be dropped.
pub open spec fn upload_profile_pic_model(
    user: UserRow,
    upload: Option<Seq<u8>>,
    state: UploadStep,
    event: Option<OutcomeView>,
) -> (UploadStep, ActionView) {
    match state {
        UploadStep::Start => match upload {
            None => (
                UploadStep::Done,
                ActionView::Respond(ResponseView::fail(Error::ValidationError)),
            ),
            Some(bytes) => (
                UploadStep::Writing,
                ActionView::Perform(
                    EffectView::WriteBlob { path: picture_path_of(user.username), bytes },
                ),
            ),
        },
        UploadStep::Writing => match event {
            Some(OutcomeView::Done) => (
                UploadStep::Referencing,
                ActionView::Perform(
                    EffectView::UpdateUser {
                        username: user.username,
                        change: ChangeView::ProfilePic(picture_path_of(user.username)),
                    },
                ),
            ),
            Some(OutcomeView::Failed) => (
                UploadStep::Done,
                ActionView::Respond(ResponseView::fail(Error::IOError)),
            ),
            Some(OutcomeView::Unavailable) => (
                UploadStep::Done,
                ActionView::Respond(ResponseView::fail(Error::StoreUnavailable)),
            ),
            _ => (state, ActionView::Idle),
        },
        UploadStep::Referencing => match event {
            Some(OutcomeView::Done) => (
                UploadStep::Invalidating,
                ActionView::Perform(EffectView::CacheDelete { key: user.username }),
            ),
            Some(OutcomeView::Absent) => (
                UploadStep::Done,
                ActionView::Respond(ResponseView::fail(Error::NotFound)),
            ),
            Some(OutcomeView::Unavailable) | Some(OutcomeView::Failed) => (
                UploadStep::Done,
                ActionView::Respond(ResponseView::fail(Error::StoreUnavailable)),
            ),
            _ => (state, ActionView::Idle),
        },
        UploadStep::Invalidating => match event {
            Some(OutcomeView::Done) | Some(OutcomeView::Failed) | Some(
                OutcomeView::Unavailable,
            ) => (UploadStep::Done, ActionView::Respond(ResponseView::ok(BodyView::Empty))),
            _ => (state, ActionView::Idle),
        },
        UploadStep::Done => (UploadStep::Done, ActionView::Idle),
    }
}

/// Stores a new profile picture for the authenticated `user`.
pub fn upload_profile_pic(
    user: &DBUser,
    upload: &Option<Vec<u8>>,
    state: UploadStep,
    event: Option<Outcome>,
) -> (next: (UploadStep, Action))
    ensures
        (next.0, next.1@) == upload_profile_pic_model(
            user@,
            upload_view(*upload),
            state,
            event.deep_view(),
        ),
{
    match state {
        UploadStep::Start => match upload {
            None => (UploadStep::Done, Action::Respond(Response::fail(Error::ValidationError))),
            Some(bytes) => (
                UploadStep::Writing,
                Action::Perform(
                    Effect::WriteBlob {
                        path: picture_path(user.username.as_str()),
                        bytes: bytes.clone(),
                    },
                ),
            ),
        },
        UploadStep::Writing => match event {
            Some(Outcome::Done) => (
                UploadStep::Referencing,
                Action::Perform(
                    Effect::UpdateUser {
                        username: user.username.clone(),
                        change: Change::ProfilePic(picture_path(user.username.as_str())),
                    },
                ),
            ),
            Some(Outcome::Failed) => (
                UploadStep::Done,
                Action::Respond(Response::fail(Error::IOError)),
            ),
            Some(Outcome::Unavailable) => (
                UploadStep::Done,
                Action::Respond(Response::fail(Error::StoreUnavailable)),
            ),
            _ => (state, Action::Idle),
        },
        UploadStep::Referencing => match event {
            Some(Outcome::Done) => (
                UploadStep::Invalidating,
                Action::Perform(Effect::CacheDelete { key: user.username.clone() }),
            ),
            Some(Outcome::Absent) => (
                UploadStep::Done,
                Action::Respond(Response::fail(Error::NotFound)),
            ),
            Some(Outcome::Unavailable) | Some(Outcome::Failed) => (
                UploadStep::Done,
                Action::Respond(Response::fail(Error::StoreUnavailable)),
            ),
            _ => (state, Action::Idle),
        },
        UploadStep::Invalidating => match event {
            Some(Outcome::Done) | Some(Outcome::Failed) | Some(Outcome::Unavailable) => (
                UploadStep::Done,
                Action::Respond(Response::ok(Body::Empty)),
            ),
            _ => (state, Action::Idle),
        },
        UploadStep::Done => (UploadStep::Done, Action::Idle),
    }
}

/// The answer that logs a user in: success, with a credential for the
/// user's name.
pub open spec fn welcome(username: Seq<char>, body: BodyView) -> ResponseView {
    ResponseView { result: Ok(body), session: SessionChangeView::Issue(username) }
}

/// What registration does in each state, given the hash of the password.
///
/// The account is added with the hash in place of the password and with
/// nothing else set. On success a credential for the new account is issued
/// and the account is shown as clients may see it.
pub open spec fn create_user_model(
    credentials: UserDTOView,
    hashed: Option<Seq<char>>,
    state: Phase,
    event: Option<OutcomeView>,
) -> (Phase, ActionView) {
    match state {
        Phase::Start => match hashed {
            Some(hash) => (
                Phase::Waiting,
                ActionView::Perform(
                    EffectView::InsertUser { user: UserRow::fresh(credentials.username, hash) },
                ),
            ),
            None => (Phase::Done, ActionView::Respond(ResponseView::fail(Error::HashFailure))),
        },
        Phase::Waiting => match event {
            Some(OutcomeView::User(user)) => (
                Phase::Done,
                ActionView::Respond(welcome(user.username, BodyView::User(user.public()))),
            ),
            Some(OutcomeView::Conflict) => (
                Phase::Done,
                ActionView::Respond(ResponseView::fail(Error::UsernameTaken)),
            ),
            Some(OutcomeView::Unavailable) | Some(OutcomeView::Failed) => (
                Phase::Done,
                ActionView::Respond(ResponseView::fail(Error::StoreUnavailable)),
            ),
            _ => (Phase::Waiting, ActionView::Idle),
        },
        Phase::Done => (Phase::Done, ActionView::Idle),
    }
}

/// Registration with the hash of the password handed in.
pub fn create_user_with(
    credentials: &UserDTO,
    hashed: Option<String>,
    state: Phase,
    event: Option<Outcome>,
) -> (next: (Phase, Action))
    ensures
        (next.0, next.1@) == create_user_model(
            credentials@,
            hashed.deep_view(),
            state,
            event.deep_view(),
        ),
{
    match state {
        Phase::Start => match hashed {
            Some(hash) => (
                Phase::Waiting,
                Action::Perform(
                    Effect::InsertUser { user: DBUser::new(credentials.username.clone(), hash) },
                ),
            ),
            None => (Phase::Done, Action::Respond(Response::fail(Error::HashFailure))),
        },
        Phase::Waiting => match event {
            Some(Outcome::User(user)) => {
                let shown = user.public();
                (
                    Phase::Done,
                    Action::Respond(
                        Response {
                            result: Ok(Body::User(shown)),
                            session: SessionChange::Issue(user.username),
                        },
                    ),
                )
            },
            Some(Outcome::Conflict) => (
                Phase::Done,
                Action::Respond(Response::fail(Error::UsernameTaken)),
            ),
            Some(Outcome::Unavailable) | Some(Outcome::Failed) => (
                Phase::Done,
                Action::Respond(Response::fail(Error::StoreUnavailable)),
            ),
            _ => (Phase::Waiting, Action::Idle),
        },
        Phase::Done => (Phase::Done, Action::Idle),
    }
}

/// Registers an account. The password is hashed with a fresh random salt,
/// so the hash that is stored differs from call to call; whatever it is,
/// the password checks against it.
pub fn create_user(
    credentials: &UserDTO,
    state: Phase,
    event: Option<Outcome>,
) -> (next: (Phase, Action))
    ensures
        exists|hashed: Option<Seq<char>>|
            {
                &&& hashed matches Some(hash) ==> password_verdict(credentials@.password, hash)
                    == Some(true)
                &&& (next.0, next.1@) == #[trigger] create_user_model(
                    credentials@,
                    hashed,
                    state,
                    event.deep_view(),
                )
            },
{
    let hashed = match state {
        Phase::Start => hash_password(credentials.password.as_str()),
        _ => None,
    };
    let next = create_user_with(credentials, hashed, state, event);
    assert(create_user_model(credentials@, hashed.deep_view(), state, event.deep_view()) == (
        next.0,
        next.1@,
    ));
    next
}

/// The answer to a login, given the account of that name and what the
/// check of the password against its hash came to.
pub open spec fn login_verdict_model(user: UserRow, verdict: Option<bool>) -> ResponseView {
    match verdict {
        Some(true) => welcome(user.username, BodyView::Empty),
        Some(false) => ResponseView::fail(Error::InvalidLogin),
        None => ResponseView::fail(Error::HashFailure),
    }
}

/// Decides a login once the password is checked: a credential is issued
/// if and only if the password belongs to the account.
pub fn login_verdict(user: DBUser, verdict: Option<bool>) -> (response: Response)
    ensures
        response@ == login_verdict_model(user@, verdict),
{
    match verdict {
        Some(true) => Response {
            result: Ok(Body::Empty),
            session: SessionChange::Issue(user.username),
        },
        Some(false) => Response::fail(Error::InvalidLogin),
        None => Response::fail(Error::HashFailure),
    }
}

/// What a login does in each state.
///
/// The account is looked up by name and the password checked against its
/// hash. An unknown name and a wrong password are answered alike.
pub open spec fn login_model(
    credentials: UserDTOView,
    state: Phase,
    event: Option<OutcomeView>,
) -> (Phase, ActionView) {
    match state {
        Phase::Start => (
            Phase::Waiting,
            ActionView::Perform(EffectView::FindUser { username: credentials.username }),
        ),
        Phase::Waiting => match event {
            Some(OutcomeView::User(user)) => (
                Phase::Done,
                ActionView::Respond(
                    login_verdict_model(
                        user,
                        password_verdict(credentials.password, user.password),
                    ),
                ),
            ),
            Some(OutcomeView::Absent) => (
                Phase::Done,
                ActionView::Respond(ResponseView::fail(Error::InvalidLogin)),
            ),
            Some(OutcomeView::Unavailable) | Some(OutcomeView::Failed) => (
                Phase::Done,
                ActionView::Respond(ResponseView::fail(Error::StoreUnavailable)),
            ),
            _ => (Phase::Waiting, ActionView::Idle),
        },
        Phase::Done => (Phase::Done, ActionView::Idle),
    }
}

/// Logs a user in.
pub fn login(credentials: &UserDTO, state: Phase, event: Option<Outcome>) -> (next: (Phase, Action))
    ensures
        (next.0, next.1@) == login_model(credentials@, state, event.deep_view()),
{
    match state {
        Phase::Start => (
            Phase::Waiting,
            Action::Perform(Effect::FindUser { username: credentials.username.clone() }),
        ),
        Phase::Waiting => match event {
            Some(Outcome::User(user)) => {
                let verdict = check_password(credentials.password.as_str(), user.password.as_str());
                (Phase::Done, Action::Respond(login_verdict(user, verdict)))
            },
            Some(Outcome::Absent) => (
                Phase::Done,
                Action::Respond(Response::fail(Error::InvalidLogin)),
            ),
            Some(Outcome::Unavailable) | Some(Outcome::Failed) => (
                Phase::Done,
                Action::Respond(Response::fail(Error::StoreUnavailable)),
            ),
            _ => (Phase::Waiting, Action::Idle),
        },
        Phase::Done => (Phase::Done, Action::Idle),
    }
}

/// The answer that logs a user out: success, and the credential is
/// invalidated.
pub open spec fn farewell() -> ResponseView {
    ResponseView { result: Ok(BodyView::Empty), session: SessionChangeView::Revoke }
}

/// Logs a user out: the credential is invalidated.
pub fn logout() -> (response: Response)
    ensures
        response@ == farewell(),
{
    Response { result: Ok(Body::Empty), session: SessionChange::Revoke }
}

/// Shows the authenticated `user` their account as it is stored now, which
/// may differ from what was attached to the request.
pub fn check_login(user: &DBUser, state: Phase, event: Option<Outcome>) -> (next: (Phase, Action))
    ensures
        (next.0, next.1@) == get_user_model(user@.username, state, event.deep_view()),
{
    get_user(user.username.as_str(), state, event)
}

/// What a change to the user's own account does in each state.
pub open spec fn update_model(
    user: UserRow,
    change: ChangeView,
    state: Phase,
    event: Option<OutcomeView>,
) -> (Phase, ActionView) {
    match state {
        Phase::Start => (
            Phase::Waiting,
            ActionView::Perform(EffectView::UpdateUser { username: user.username, change }),
        ),
        Phase::Waiting => match event {
            Some(OutcomeView::Done) => (
                Phase::Done,
                ActionView::Respond(ResponseView::ok(BodyView::Empty)),
            ),
            Some(OutcomeView::Absent) => (
                Phase::Done,
                ActionView::Respond(ResponseView::fail(Error::NotFound)),
            ),
            Some(OutcomeView::Unavailable) | Some(OutcomeView::Failed) => (
                Phase::Done,
                ActionView::Respond(ResponseView::fail(Error::StoreUnavailable)),
            ),
            _ => (Phase::Waiting, ActionView::Idle),
        },
        Phase::Done => (Phase::Done, ActionView::Idle),
    }
}

/// Applies a change to the account of the authenticated `user`.
fn update(
    user: &DBUser,
    change: Change,
    state: Phase,
    event: Option<Outcome>,
) -> (next: (Phase, Action))
    ensures
        (next.0, next.1@) == update_model(user@, change@, state, event.deep_view()),
{
    match state {
        Phase::Start => (
            Phase::Waiting,
            Action::Perform(Effect::UpdateUser { username: user.username.clone(), change }),
        ),
        Phase::Waiting => match event {
            Some(Outcome::Done) => (Phase::Done, Action::Respond(Response::ok(Body::Empty))),
            Some(Outcome::Absent) => (
                Phase::Done,
                Action::Respond(Response::fail(Error::NotFound)),
            ),
            Some(Outcome::Unavailable) | Some(Outcome::Failed) => (
                Phase::Done,
                Action::Respond(Response::fail(Error::StoreUnavailable)),
            ),
            _ => (Phase::Waiting, Action::Idle),
        },
        Phase::Done => (Phase::Done, Action::Idle),
    }
}

/// Sets the location of the authenticated `user`: both coordinates at once.
pub fn set_location(
    user: &DBUser,
    latlong: &LatLongDTO,
    state: Phase,
    event: Option<Outcome>,
) -> (next: (Phase, Action))
    ensures
        (next.0, next.1@) == update_model(
            user@,
            ChangeView::Location { lat: latlong.lat, long: latlong.long },
            state,
            event.deep_view(),
        ),
{
    update(user, Change::Location { lat: latlong.lat, long: latlong.long }, state, event)
}

/// Sets the text that the authenticated `user` shows.
pub fn set_bio(
    user: &DBUser,
    bio: &BioDTO,
    state: Phase,
    event: Option<Outcome>,
) -> (next: (Phase, Action))
    ensures
        (next.0, next.1@) == update_model(user@, ChangeView::Bio(bio@), state, event.deep_view()),
{
    update(user, Change::Bio(bio.bio.clone()), state, event)
}

} // verus!
