//! The vocabulary in which the handlers speak to the world around them.
//!
//! A handler never touches the database, the cache or the blob store. It
//! names an [`Effect`] for its caller to perform and is called again with
//! the [`Outcome`]. When it has decided, it hands back a [`Response`].

use vstd::prelude::*;
use crate::db::{DBMatch, DBSwipe, DBUser, MatchRow, PublicRow, PublicUser, SwipeRow, UserRow};
use crate::error::Error;
use crate::paths::matches::UserMatch;

verus! {

/// How long, in milliseconds, a caller waits for a connection before it
/// reports a piece of work as unavailable.
pub const STORE_WAIT_MILLIS: u64 = 500;

/// A change to an account.
#[derive(Debug, PartialEq, Eq)]
pub enum Change {
    /// Set both coordinates.
    Location { lat: u64, long: u64 },
    /// Set the text that the account shows.
    Bio(String),
    /// Record where the account's picture is stored.
    ProfilePic(String),
}

/// What a [`Change`] stands for.
pub enum ChangeView {
    Location { lat: u64, long: u64 },
    Bio(Seq<char>),
    ProfilePic(Seq<char>),
}

impl View for Change {
    type V = ChangeView;

    open spec fn view(&self) -> ChangeView {
        match self {
            Change::Location { lat, long } => ChangeView::Location { lat: *lat, long: *long },
            Change::Bio(bio) => ChangeView::Bio(bio@),
            Change::ProfilePic(path) => ChangeView::ProfilePic(path@),
        }
    }
}

impl ChangeView {
    /// The row after the change.
    pub open spec fn apply(self, row: UserRow) -> UserRow {
        match self {
            ChangeView::Location { lat, long } => UserRow {
                lat: Some(lat),
                long: Some(long),
                ..row
            },
            ChangeView::Bio(bio) => UserRow { bio: Some(bio), ..row },
            ChangeView::ProfilePic(path) => UserRow { profile_pic: Some(path), ..row },
        }
    }
}

impl Change {
    /// The account after the change.
    pub fn apply(&self, row: &DBUser) -> (changed: DBUser)
        ensures
            changed@ == self@.apply(row@),
    {
        let mut changed = row.clone();
        match self {
            Change::Location { lat, long } => {
                changed.lat = Some(*lat);
                changed.long = Some(*long);
            },
            Change::Bio(bio) => {
                changed.bio = Some(bio.clone());
            },
            Change::ProfilePic(path) => {
                changed.profile_pic = Some(path.clone());
            },
        }
        changed
    }
}

/// One piece of outside work.
#[derive(Debug, PartialEq, Eq)]
pub enum Effect {
    /// Look the account of this name up.
    FindUser { username: String },
    /// Read all accounts.
    ListUsers,
    /// Add an account; rejected if the name is taken.
    InsertUser { user: DBUser },
    /// Change one account.
    UpdateUser { username: String, change: Change },
    /// Add a swipe; rejected if the swiper has swiped on the target before.
    InsertSwipe { swipe: DBSwipe },
    /// Ask whether `swiper` has recorded interest in `swiped`.
    FindInterest { swiper: String, swiped: String },
    /// Add a match row; rejected if the same row exists.
    InsertMatch { row: DBMatch },
    /// Read the match rows that hold this name in either place.
    ListMatches { username: String },
    /// Remove the match rows that join the two names, in either order.
    DeleteMatch { username: String, other: String },
    /// Read the located accounts other than this one that it has not swiped on.
    ListAvailable { username: String },
    /// Probe the cache.
    CacheGet { key: String },
    /// Fill the cache.
    CacheSet { key: String, bytes: Vec<u8> },
    /// Drop a cache entry.
    CacheDelete { key: String },
    /// Read a blob.
    ReadBlob { path: String },
    /// Write a blob, replacing what was there.
    WriteBlob { path: String, bytes: Vec<u8> },
}

/// What an [`Effect`] stands for.
pub enum EffectView {
    FindUser { username: Seq<char> },
    ListUsers,
    InsertUser { user: UserRow },
    UpdateUser { username: Seq<char>, change: ChangeView },
    InsertSwipe { swipe: SwipeRow },
    FindInterest { swiper: Seq<char>, swiped: Seq<char> },
    InsertMatch { row: MatchRow },
    ListMatches { username: Seq<char> },
    DeleteMatch { username: Seq<char>, other: Seq<char> },
    ListAvailable { username: Seq<char> },
    CacheGet { key: Seq<char> },
    CacheSet { key: Seq<char>, bytes: Seq<u8> },
    CacheDelete { key: Seq<char> },
    ReadBlob { path: Seq<char> },
    WriteBlob { path: Seq<char>, bytes: Seq<u8> },
}

impl View for Effect {
    type V = EffectView;

    open spec fn view(&self) -> EffectView {
        match self {
            Effect::FindUser { username } => EffectView::FindUser { username: username@ },
            Effect::ListUsers => EffectView::ListUsers,
            Effect::InsertUser { user } => EffectView::InsertUser { user: user@ },
            Effect::UpdateUser { username, change } => EffectView::UpdateUser {
                username: username@,
                change: change@,
            },
            Effect::InsertSwipe { swipe } => EffectView::InsertSwipe { swipe: swipe@ },
            Effect::FindInterest { swiper, swiped } => EffectView::FindInterest {
                swiper: swiper@,
                swiped: swiped@,
            },
            Effect::InsertMatch { row } => EffectView::InsertMatch { row: row@ },
            Effect::ListMatches { username } => EffectView::ListMatches { username: username@ },
            Effect::DeleteMatch { username, other } => EffectView::DeleteMatch {
                username: username@,
                other: other@,
            },
            Effect::ListAvailable { username } => EffectView::ListAvailable {
                username: username@,
            },
            Effect::CacheGet { key } => EffectView::CacheGet { key: key@ },
            Effect::CacheSet { key, bytes } => EffectView::CacheSet { key: key@, bytes: bytes@ },
            Effect::CacheDelete { key } => EffectView::CacheDelete { key: key@ },
            Effect::ReadBlob { path } => EffectView::ReadBlob { path: path@ },
            Effect::WriteBlob { path, bytes } => EffectView::WriteBlob {
                path: path@,
                bytes: bytes@,
            },
        }
    }
}

/// How an [`Effect`] ended.
#[derive(Debug, PartialEq, Eq)]
pub enum Outcome {
    /// No connection could be had within the bounded wait.
    Unavailable,
    /// The service reported an error.
    Failed,
    /// A write was refused because what it adds is there already.
    Conflict,
    /// Nothing of the kind asked for exists.
    Absent,
    /// Done, with nothing to hand back.
    Done,
    /// The one account asked for or written.
    User(DBUser),
    /// The accounts asked for.
    Users(Vec<DBUser>),
    /// The match rows asked for.
    Matches(Vec<DBMatch>),
    /// The bytes asked for.
    Bytes(Vec<u8>),
}

/// What an [`Outcome`] stands for.
pub enum OutcomeView {
    Unavailable,
    Failed,
    Conflict,
    Absent,
    Done,
    User(UserRow),
    Users(Seq<UserRow>),
    Matches(Seq<MatchRow>),
    Bytes(Seq<u8>),
}

impl EffectView {
    /// Whether `outcome` is an answer to this piece of work. Every piece of
    /// work may end as unavailable or failed. Beyond that a lookup ends with
    /// what it found or as absent, a list with its rows, a write as done, a
    /// write that adds a row as a conflict if the row's key is taken, and a
    /// write that names its target as absent if there is no such target.
    pub open spec fn answered_by(self, outcome: OutcomeView) -> bool {
        outcome is Unavailable || outcome is Failed || match self {
            EffectView::FindUser { .. } => outcome is User || outcome is Absent,
            EffectView::ListUsers => outcome is Users,
            EffectView::InsertUser { .. } => outcome is User || outcome is Conflict,
            EffectView::UpdateUser { .. } => outcome is Done || outcome is Absent,
            EffectView::InsertSwipe { .. } => outcome is Done || outcome is Conflict,
            EffectView::FindInterest { .. } => outcome is Done || outcome is Absent,
            EffectView::InsertMatch { .. } => outcome is Done || outcome is Conflict,
            EffectView::ListMatches { .. } => outcome is Matches,
            EffectView::DeleteMatch { .. } => outcome is Done || outcome is Absent,
            EffectView::ListAvailable { .. } => outcome is Users,
            EffectView::CacheGet { .. } => outcome is Bytes || outcome is Absent,
            EffectView::CacheSet { .. } => outcome is Done,
            EffectView::CacheDelete { .. } => outcome is Done,
            EffectView::ReadBlob { .. } => outcome is Bytes || outcome is Absent,
            EffectView::WriteBlob { .. } => outcome is Done,
        }
    }
}

impl View for Outcome {
    type V = OutcomeView;

    open spec fn view(&self) -> OutcomeView {
        match self {
            Outcome::Unavailable => OutcomeView::Unavailable,
            Outcome::Failed => OutcomeView::Failed,
            Outcome::Conflict => OutcomeView::Conflict,
            Outcome::Absent => OutcomeView::Absent,
            Outcome::Done => OutcomeView::Done,
            Outcome::User(user) => OutcomeView::User(user@),
            Outcome::Users(users) => OutcomeView::Users(users.deep_view()),
            Outcome::Matches(rows) => OutcomeView::Matches(rows.deep_view()),
            Outcome::Bytes(bytes) => OutcomeView::Bytes(bytes@),
        }
    }
}

impl DeepView for Outcome {
    type V = OutcomeView;

    open spec fn deep_view(&self) -> OutcomeView {
        self@
    }
}

/// What a response carries on success.
#[derive(Debug, PartialEq, Eq)]
pub enum Body {
    /// Nothing.
    Empty,
    /// One account, as clients see it.
    User(PublicUser),
    /// Accounts, as clients see them.
    Users(Vec<PublicUser>),
    /// The other participants of a user's matches.
    Matches(Vec<UserMatch>),
    /// A picture.
    Picture(Vec<u8>),
}

/// What a [`Body`] stands for.
pub enum BodyView {
    Empty,
    User(PublicRow),
    Users(Seq<PublicRow>),
    Matches(Seq<Seq<char>>),
    Picture(Seq<u8>),
}

impl View for Body {
    type V = BodyView;

    open spec fn view(&self) -> BodyView {
        match self {
            Body::Empty => BodyView::Empty,
            Body::User(user) => BodyView::User(user@),
            Body::Users(users) => BodyView::Users(users.deep_view()),
            Body::Matches(names) => BodyView::Matches(names.deep_view()),
            Body::Picture(bytes) => BodyView::Picture(bytes@),
        }
    }
}

/// What a response does to the client's session credential.
#[derive(Debug, PartialEq, Eq)]
pub enum SessionChange {
    /// The credential stays as it is.
    Keep,
    /// A credential for this user name is issued.
    Issue(String),
    /// The credential is invalidated.
    Revoke,
}

/// What a [`SessionChange`] stands for.
pub enum SessionChangeView {
    Keep,
    Issue(Seq<char>),
    Revoke,
}

impl View for SessionChange {
    type V = SessionChangeView;

    open spec fn view(&self) -> SessionChangeView {
        match self {
            SessionChange::Keep => SessionChangeView::Keep,
            SessionChange::Issue(username) => SessionChangeView::Issue(username@),
            SessionChange::Revoke => SessionChangeView::Revoke,
        }
    }
}

/// The answer to a request.
#[derive(Debug, PartialEq, Eq)]
pub struct Response {
    /// The body, or why there is none.
    pub result: Result<Body, Error>,
    /// What happens to the session credential.
    pub session: SessionChange,
}

/// What a [`Response`] stands for.
pub struct ResponseView {
    pub result: Result<BodyView, Error>,
    pub session: SessionChangeView,
}

impl ResponseView {
    /// Success with this body; the session is left alone.
    pub open spec fn ok(body: BodyView) -> ResponseView {
        ResponseView { result: Ok(body), session: SessionChangeView::Keep }
    }

    /// Failure of this kind; the session is left alone.
    pub open spec fn fail(error: Error) -> ResponseView {
        ResponseView { result: Err(error), session: SessionChangeView::Keep }
    }

    /// The status code that the response is sent with.
    pub open spec fn status_code(self) -> u16 {
        match self.result {
            Ok(_) => 200,
            Err(error) => error.status_code(),
        }
    }
}

impl View for Response {
    type V = ResponseView;

    open spec fn view(&self) -> ResponseView {
        ResponseView {
            result: match self.result {
                Ok(body) => Ok(body@),
                Err(error) => Err(error),
            },
            session: self.session@,
        }
    }
}

impl Response {
    /// Success with this body; the session is left alone.
    pub fn ok(body: Body) -> (response: Response)
        ensures
            response@ == ResponseView::ok(body@),
    {
        Response { result: Ok(body), session: SessionChange::Keep }
    }

    /// Failure of this kind; the session is left alone.
    pub fn fail(error: Error) -> (response: Response)
        ensures
            response@ == ResponseView::fail(error),
    {
        Response { result: Err(error), session: SessionChange::Keep }
    }

    /// The status code that the response is sent with: 200 on success, the
    /// failure's code otherwise.
    pub fn status(&self) -> (code: u16)
        ensures
            code == self@.status_code(),
    {
        match &self.result {
            Ok(_) => 200,
            Err(error) => error.status(),
        }
    }
}

/// What a handler wants done next.
#[derive(Debug, PartialEq, Eq)]
pub enum Action {
    /// Perform this and come back with the outcome.
    Perform(Effect),
    /// The request is answered.
    Respond(Response),
    /// The request may pass to the next stage, with this identity attached.
    Forward(DBUser),
    /// Nothing: what was handed in does not answer what the handler waits for.
    Idle,
}

/// What an [`Action`] stands for.
pub enum ActionView {
    Perform(EffectView),
    Respond(ResponseView),
    Forward(UserRow),
    Idle,
}

impl View for Action {
    type V = ActionView;

    open spec fn view(&self) -> ActionView {
        match self {
            Action::Perform(effect) => ActionView::Perform(effect@),
            Action::Respond(response) => ActionView::Respond(response@),
            Action::Forward(user) => ActionView::Forward(user@),
            Action::Idle => ActionView::Idle,
        }
    }
}

/// Where a handler with a single piece of outside work stands.
#[derive(Clone, Copy, Debug, PartialEq, Eq, Structural)]
pub enum Phase {
    /// Nothing has been asked yet.
    Start,
    /// The outcome of the one effect is awaited.
    Waiting,
    /// The request is answered.
    Done,
}

/// How many pieces of outside work a one-step handler may still need.
pub open spec fn phase_rank(state: Phase) -> nat {
    match state {
        Phase::Start => 2,
        Phase::Waiting => 1,
        Phase::Done => 0,
    }
}

} // verus!
