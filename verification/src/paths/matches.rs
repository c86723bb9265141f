//! Listing and deleting a user's matches.

use vstd::prelude::*;
use crate::db::{DBMatch, DBUser, MatchRow, UserRow};
use crate::error::Error;
use crate::exchange::{
    Action, ActionView, Body, BodyView, Effect, EffectView, Outcome, OutcomeView, Phase, Response,
    ResponseView,
};
use crate::names::name_eq;

verus! {

/// The other participant of a match, as shown to a user.
#[derive(Debug, PartialEq, Eq)]
pub struct UserMatch {
    pub name: String,
}

impl View for UserMatch {
    type V = Seq<char>;

    open spec fn view(&self) -> Seq<char> {
        self.name@
    }
}

impl DeepView for UserMatch {
    type V = Seq<char>;

    open spec fn deep_view(&self) -> Seq<char> {
        self@
    }
}

impl UserMatch {
    /// The participant of `m` that is not `username`.
    pub fn from_record(username: &str, m: DBMatch) -> (shown: UserMatch)
        ensures
            shown@ == m@.other(username@),
    {
        let other = if name_eq(m.username1.as_str(), username) {
            m.username2
        } else {
            m.username1
        };
        UserMatch { name: other }
    }
}

/// For each row, the participant that is not `user`.
pub open spec fn partners(rows: Seq<MatchRow>, user: Seq<char>) -> Seq<Seq<char>> {
    Seq::new(rows.len(), |i: int| rows[i].other(user))
}

/// Turns match rows into the list of the other participants.
pub fn partners_of(username: &str, rows: &Vec<DBMatch>) -> (list: Vec<UserMatch>)
    ensures
        list.deep_view() == partners(rows.deep_view(), username@),
{
    let mut list: Vec<UserMatch> = Vec::new();
    let mut i: usize = 0;
    while i < rows.len()
        invariant
            i <= rows.len(),
            list.len() == i,
            forall|j: int| 0 <= j < i ==> list[j]@ == rows[j]@.other(username@),
        decreases rows.len() - i,
    {
        list.push(UserMatch::from_record(username, rows[i].clone()));
        i += 1;
    }
    assert(list.deep_view() =~= partners(rows.deep_view(), username@));
    list
}

/// What the handler of the match list does in each state.
pub open spec fn matches_model(user: UserRow, state: Phase, event: Option<OutcomeView>) -> (
    Phase,
    ActionView,
) {
    match state {
        Phase::Start => (
            Phase::Waiting,
            ActionView::Perform(EffectView::ListMatches { username: user.username }),
        ),
        Phase::Waiting => match event {
            Some(OutcomeView::Matches(rows)) => (
                Phase::Done,
                ActionView::Respond(
                    ResponseView::ok(BodyView::Matches(partners(rows, user.username))),
                ),
            ),
            Some(OutcomeView::Unavailable) | Some(OutcomeView::Failed) => (
                Phase::Done,
                ActionView::Respond(ResponseView::fail(Error::StoreUnavailable)),
            ),
            _ => (Phase::Waiting, ActionView::Idle),
        },
        Phase::Done => (Phase::Done, ActionView::Idle),
    }
}

/// Lists the matches of the authenticated `user`: asks the store for the
/// rows that hold the user's name and answers with the other participant
/// of each.
pub fn matches(user: &DBUser, state: Phase, event: Option<Outcome>) -> (next: (Phase, Action))
    ensures
        (next.0, next.1@) == matches_model(user@, state, event.deep_view()),
{
    match state {
        Phase::Start => (
            Phase::Waiting,
            Action::Perform(Effect::ListMatches { username: user.username.clone() }),
        ),
        Phase::Waiting => match event {
            Some(Outcome::Matches(rows)) => {
                let list = partners_of(user.username.as_str(), &rows);
                (Phase::Done, Action::Respond(Response::ok(Body::Matches(list))))
            },
            Some(Outcome::Unavailable) | Some(Outcome::Failed) => (
                Phase::Done,
                Action::Respond(Response::fail(Error::StoreUnavailable)),
            ),
            _ => (Phase::Waiting, Action::Idle),
        },
        Phase::Done => (Phase::Done, Action::Idle),
    }
}

/// What the handler of an unmatch request does in each state.
pub open spec fn delete_match_model(
    user: UserRow,
    other: Seq<char>,
    state: Phase,
    event: Option<OutcomeView>,
) -> (Phase, ActionView) {
    match state {
        Phase::Start => (
            Phase::Waiting,
            ActionView::Perform(EffectView::DeleteMatch { username: user.username, other }),
        ),
        Phase::Waiting => match event {
            Some(OutcomeView::Done) => (
                Phase::Done,
                ActionView::Respond(ResponseView::ok(BodyView::Empty)),
            ),
            Some(OutcomeView::Absent) => (
                Phase::Done,
                ActionView::Respond(ResponseView::fail(Error::NotFound)),
            ),
            Some(OutcomeView::Unavailable) | Some(OutcomeView::Failed) => (
                Phase::Done,
                ActionView::Respond(ResponseView::fail(Error::StoreUnavailable)),
            ),
            _ => (Phase::Waiting, ActionView::Idle),
        },
        Phase::Done => (Phase::Done, ActionView::Idle),
    }
}

/// Deletes the match between the authenticated `user` and `other`. The
/// caller does not know which of the two names comes first in the stored
/// row, so the store is asked to remove the row in either order. A match
/// that does not exist is reported as not found.
pub fn delete_match(
    user: &DBUser,
    other: &str,
    state: Phase,
    event: Option<Outcome>,
) -> (next: (Phase, Action))
    ensures
        (next.0, next.1@) == delete_match_model(user@, other@, state, event.deep_view()),
{
    match state {
        Phase::Start => (
            Phase::Waiting,
            Action::Perform(
                Effect::DeleteMatch { username: user.username.clone(), other: other.to_owned() },
            ),
        ),
        Phase::Waiting => match event {
            Some(Outcome::Done) => (Phase::Done, Action::Respond(Response::ok(Body::Empty))),
            Some(Outcome::Absent) => (
                Phase::Done,
                Action::Respond(Response::fail(Error::NotFound)),
            ),
            Some(Outcome::Unavailable) | Some(Outcome::Failed) => (
                Phase::Done,
                Action::Respond(Response::fail(Error::StoreUnavailable)),
            ),
            _ => (Phase::Waiting, Action::Idle),
        },
        Phase::Done => (Phase::Done, Action::Idle),
    }
}

} // verus!
