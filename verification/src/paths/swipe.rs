//! Swiping, and the list of users still open to a swipe.

use vstd::prelude::*;
use crate::db::{public_list, public_rows, DBMatch, DBSwipe, DBUser, MatchRow, SwipeRow, UserRow};
use crate::error::Error;
use crate::exchange::{
    Action, ActionView, Body, BodyView, Effect, EffectView, Outcome, OutcomeView, Phase, Response,
    ResponseView,
};

verus! {

/// A swipe as a client sends it: the target and the decision.
#[derive(Debug, PartialEq, Eq)]
pub struct SwipeDTO {
    pub swiped: String,
    pub status: bool,
}

/// What a [`SwipeDTO`] stands for.
pub struct SwipeDTOView {
    pub swiped: Seq<char>,
    pub status: bool,
}

impl View for SwipeDTO {
    type V = SwipeDTOView;

    open spec fn view(&self) -> SwipeDTOView {
        SwipeDTOView { swiped: self.swiped@, status: self.status }
    }
}

impl Clone for SwipeDTO {
    fn clone(&self) -> (copy: Self)
        ensures
            copy == *self,
    {
        SwipeDTO { swiped: self.swiped.clone(), status: self.status }
    }
}

/// Where the handling of a swipe stands.
#[derive(Clone, Copy, Debug, PartialEq, Eq, Structural)]
pub enum SwipeStep {
    /// Nothing has been asked yet.
    Start,
    /// The swipe is being written.
    Recording,
    /// The swipe is written; the mirror swipe is being looked for.
    Probing,
    /// Both swipes show interest; the match row is being written.
    Matching,
    /// The request is answered.
    Done,
}

/// What the swipe handler does in each state.
///
/// A swipe on oneself is refused before anything is written. A second swipe
/// on the same target, which the store refuses, is a duplicate; any other
/// failure to write the swipe is the store's. Only a swipe that shows
/// interest leads to a look for the mirror swipe, and only if that exists
/// is the match row written, smaller name first. Once the swipe itself is
/// written the answer is success, whatever becomes of the match.
pub open spec fn do_swipe_model(
    user: UserRow,
    swipe: SwipeDTOView,
    state: SwipeStep,
    event: Option<OutcomeView>,
) -> (SwipeStep, ActionView) {
    match state {
        SwipeStep::Start => if user.username == swipe.swiped {
            (SwipeStep::Done, ActionView::Respond(ResponseView::fail(Error::InvalidSwipeTarget)))
        } else {
            (
                SwipeStep::Recording,
                ActionView::Perform(
                    EffectView::InsertSwipe {
                        swipe: SwipeRow {
                            swiper: user.username,
                            swiped: swipe.swiped,
                            status: swipe.status,
                        },
                    },
                ),
            )
        },
        SwipeStep::Recording => match event {
            Some(OutcomeView::Done) => if swipe.status {
                (
                    SwipeStep::Probing,
                    ActionView::Perform(
                        EffectView::FindInterest { swiper: swipe.swiped, swiped: user.username },
                    ),
                )
            } else {
                (SwipeStep::Done, ActionView::Respond(ResponseView::ok(BodyView::Empty)))
            },
            Some(OutcomeView::Conflict) => (
                SwipeStep::Done,
                ActionView::Respond(ResponseView::fail(Error::DuplicateSwipe)),
            ),
            Some(OutcomeView::Unavailable) | Some(OutcomeView::Failed) => (
                SwipeStep::Done,
                ActionView::Respond(ResponseView::fail(Error::StoreUnavailable)),
            ),
            _ => (SwipeStep::Recording, ActionView::Idle),
        },
        SwipeStep::Probing => match event {
            Some(OutcomeView::Done) => (
                SwipeStep::Matching,
                ActionView::Perform(
                    EffectView::InsertMatch {
                        row: MatchRow::canonical(user.username, swipe.swiped),
                    },
                ),
            ),
            Some(OutcomeView::Absent) | Some(OutcomeView::Unavailable) | Some(
                OutcomeView::Failed,
            ) => (SwipeStep::Done, ActionView::Respond(ResponseView::ok(BodyView::Empty))),
            _ => (SwipeStep::Probing, ActionView::Idle),
        },
        SwipeStep::Matching => match event {
            Some(OutcomeView::Done) | Some(OutcomeView::Conflict) | Some(
                OutcomeView::Unavailable,
            ) | Some(OutcomeView::Failed) => (
                SwipeStep::Done,
                ActionView::Respond(ResponseView::ok(BodyView::Empty)),
            ),
            _ => (SwipeStep::Matching, ActionView::Idle),
        },
        SwipeStep::Done => (SwipeStep::Done, ActionView::Idle),
    }
}

/// Records the swipe of the authenticated `user` and, if it completes a
/// mutual interest, has the match written.
pub fn do_swipe(
    user: &DBUser,
    swipe: &SwipeDTO,
    state: SwipeStep,
    event: Option<Outcome>,
) -> (next: (SwipeStep, Action))
    ensures
        (next.0, next.1@) == do_swipe_model(user@, swipe@, state, event.deep_view()),
{
    match state {
        SwipeStep::Start => {
            if user.username == swipe.swiped {
                (SwipeStep::Done, Action::Respond(Response::fail(Error::InvalidSwipeTarget)))
            } else {
                let row = DBSwipe::new(user.username.clone(), swipe.swiped.clone(), swipe.status);
                (SwipeStep::Recording, Action::Perform(Effect::InsertSwipe { swipe: row }))
            }
        },
        SwipeStep::Recording => match event {
            Some(Outcome::Done) => {
                if swipe.status {
                    (
                        SwipeStep::Probing,
                        Action::Perform(
                            Effect::FindInterest {
                                swiper: swipe.swiped.clone(),
                                swiped: user.username.clone(),
                            },
                        ),
                    )
                } else {
                    (SwipeStep::Done, Action::Respond(Response::ok(Body::Empty)))
                }
            },
            Some(Outcome::Conflict) => (
                SwipeStep::Done,
                Action::Respond(Response::fail(Error::DuplicateSwipe)),
            ),
            Some(Outcome::Unavailable) | Some(Outcome::Failed) => (
                SwipeStep::Done,
                Action::Respond(Response::fail(Error::StoreUnavailable)),
            ),
            _ => (SwipeStep::Recording, Action::Idle),
        },
        SwipeStep::Probing => match event {
            Some(Outcome::Done) => {
                let row = DBMatch::canonical(user.username.clone(), swipe.swiped.clone());
                (SwipeStep::Matching, Action::Perform(Effect::InsertMatch { row }))
            },
            Some(Outcome::Absent) | Some(Outcome::Unavailable) | Some(Outcome::Failed) => (
                SwipeStep::Done,
                Action::Respond(Response::ok(Body::Empty)),
            ),
            _ => (SwipeStep::Probing, Action::Idle),
        },
        SwipeStep::Matching => match event {
            Some(Outcome::Done) | Some(Outcome::Conflict) | Some(Outcome::Unavailable) | Some(
                Outcome::Failed,
            ) => (SwipeStep::Done, Action::Respond(Response::ok(Body::Empty))),
            _ => (SwipeStep::Matching, Action::Idle),
        },
        SwipeStep::Done => (SwipeStep::Done, Action::Idle),
    }
}

/// What the handler of the candidate list does in each state.
pub open spec fn available_model(user: UserRow, state: Phase, event: Option<OutcomeView>) -> (
    Phase,
    ActionView,
) {
    match state {
        Phase::Start => (
            Phase::Waiting,
            ActionView::Perform(EffectView::ListAvailable { username: user.username }),
        ),
        Phase::Waiting => match event {
            Some(OutcomeView::Users(rows)) => (
                Phase::Done,
                ActionView::Respond(ResponseView::ok(BodyView::Users(public_rows(rows)))),
            ),
            Some(OutcomeView::Unavailable) | Some(OutcomeView::Failed) => (
                Phase::Done,
                ActionView::Respond(ResponseView::fail(Error::StoreUnavailable)),
            ),
            _ => (Phase::Waiting, ActionView::Idle),
        },
        Phase::Done => (Phase::Done, ActionView::Idle),
    }
}

/// Lists the users that the authenticated `user` may still swipe on: asks
/// the store for the located accounts, other than the user's own, that the
/// user has no swipe on yet, and answers with what clients may see of each.
pub fn available(user: &DBUser, state: Phase, event: Option<Outcome>) -> (next: (Phase, Action))
    ensures
        (next.0, next.1@) == available_model(user@, state, event.deep_view()),
{
    match state {
        Phase::Start => (
            Phase::Waiting,
            Action::Perform(Effect::ListAvailable { username: user.username.clone() }),
        ),
        Phase::Waiting => match event {
            Some(Outcome::Users(rows)) => {
                let list = public_list(&rows);
                (Phase::Done, Action::Respond(Response::ok(Body::Users(list))))
            },
            Some(Outcome::Unavailable) | Some(Outcome::Failed) => (
                Phase::Done,
                Action::Respond(Response::fail(Error::StoreUnavailable)),
            ),
            _ => (Phase::Waiting, Action::Idle),
        },
        Phase::Done => (Phase::Done, Action::Idle),
    }
}

} // verus!
