//! The match engine on the in-memory backend: each operation runs its
//! handler to the end, performing on the backend what the handler asks for.
//! What an operation does as a whole is stated here in one piece, and the
//! run of the handler is proved to do exactly that.

use vstd::prelude::*;
use crate::backend::{Backend, BackendView};
use crate::db::{public_rows, DBUser, MatchRow, SwipeRow, UserRow};
use crate::error::Error;
use crate::exchange::{
    phase_rank, Action, ActionView, BodyView, Outcome, OutcomeView, Phase, Response, ResponseView,
};
use crate::paths::matches::{delete_match_model, matches_model, partners};
use crate::paths::swipe::{
    available, available_model, do_swipe, do_swipe_model, SwipeDTO, SwipeDTOView, SwipeStep,
};
use crate::tables::{apart, candidate, interested, involving, joined, swiped_on};

verus! {

/// How many pieces of outside work a swipe may still need.
pub open spec fn swipe_rank(state: SwipeStep) -> nat {
    match state {
        SwipeStep::Start => 4,
        SwipeStep::Recording => 3,
        SwipeStep::Probing => 2,
        SwipeStep::Matching => 1,
        SwipeStep::Done => 0,
    }
}

/// The swipe handler run to its end on the backend, from a given state.
pub open spec fn run_swipe(
    backend: BackendView,
    user: UserRow,
    swipe: SwipeDTOView,
    state: SwipeStep,
    event: Option<OutcomeView>,
) -> (BackendView, ResponseView)
    decreases swipe_rank(state),
{
    let (next, action) = do_swipe_model(user, swipe, state, event);
    match action {
        ActionView::Perform(effect) => {
            let (after, outcome) = backend.perform(effect);
            run_swipe(after, user, swipe, next, Some(outcome))
        },
        ActionView::Respond(response) => (backend, response),
        _ => (backend, ResponseView::fail(Error::IOError)),
    }
}

/// What recording a swipe does to the backend, and the answer.
///
/// A swipe on oneself is refused, and so is a second swipe on the same
/// target; neither changes anything. Otherwise the swipe is added. If it
/// shows interest and the other user has shown interest before, the row of
/// the pair is added to the matches, smaller name first, unless it is there
/// already. The answer is success once the swipe is added.
pub open spec fn recorded(backend: BackendView, swiper: Seq<char>, swipe: SwipeDTOView) -> (
    BackendView,
    ResponseView,
) {
    if swiper == swipe.swiped {
        (backend, ResponseView::fail(Error::InvalidSwipeTarget))
    } else if !backend.store_online {
        (backend, ResponseView::fail(Error::StoreUnavailable))
    } else if swiped_on(backend.swipes, swiper, swipe.swiped) {
        (backend, ResponseView::fail(Error::DuplicateSwipe))
    } else {
        let row = MatchRow::canonical(swiper, swipe.swiped);
        let mutual = swipe.status && interested(backend.swipes, swipe.swiped, swiper);
        (
            BackendView {
                swipes: backend.swipes.push(
                    SwipeRow { swiper, swiped: swipe.swiped, status: swipe.status },
                ),
                matches: if mutual && !backend.matches.contains(row) {
                    backend.matches.push(row)
                } else {
                    backend.matches
                },
                ..backend
            },
            ResponseView::ok(BodyView::Empty),
        )
    }
}

/// The run of the swipe handler does what [`recorded`] says.
pub proof fn lemma_run_swipe(backend: BackendView, user: UserRow, swipe: SwipeDTOView)
    ensures
        run_swipe(backend, user, swipe, SwipeStep::Start, None) == recorded(
            backend,
            user.username,
            swipe,
        ),
{
    reveal_with_fuel(run_swipe, 5);
    let swiper = user.username;
    if swiper != swipe.swiped && backend.store_online && !swiped_on(
        backend.swipes,
        swiper,
        swipe.swiped,
    ) {
        let added = SwipeRow { swiper, swiped: swipe.swiped, status: swipe.status };
        let swipes = backend.swipes.push(added);
        let mirror = SwipeRow { swiper: swipe.swiped, swiped: swiper, status: true };
        assert(added != mirror);
        if backend.swipes.contains(mirror) {
            let i = choose|i: int| 0 <= i < backend.swipes.len() && backend.swipes[i] == mirror;
            assert(swipes[i] == mirror);
        }
        if swipes.contains(mirror) {
            let i = choose|i: int| 0 <= i < swipes.len() && swipes[i] == mirror;
            assert(backend.swipes[i] == mirror);
        }
        assert(interested(swipes, swipe.swiped, swiper) == interested(
            backend.swipes,
            swipe.swiped,
            swiper,
        ));
    }
}

/// Records a swipe of `user`.
pub fn record_swipe(backend: &mut Backend, user: &DBUser, swipe: &SwipeDTO) -> (response: Response)
    ensures
        (final(backend)@, response@) == recorded(old(backend)@, user@.username, swipe@),
{
    let mut state = SwipeStep::Start;
    let mut event: Option<Outcome> = None;
    proof {
        lemma_run_swipe(backend@, user@, swipe@);
    }
    loop
        invariant
            run_swipe(backend@, user@, swipe@, state, event.deep_view()) == recorded(
                old(backend)@,
                user@.username,
                swipe@,
            ),
        decreases swipe_rank(state),
    {
        let (next, action) = do_swipe(user, swipe, state, event);
        match action {
            Action::Perform(effect) => {
                event = Some(backend.perform(effect));
                state = next;
            },
            Action::Respond(response) => {
                return response;
            },
            _ => {
                return Response::fail(Error::IOError);
            },
        }
    }
}

/// The handler of the match list run to its end on the backend.
pub open spec fn run_matches(
    backend: BackendView,
    user: UserRow,
    state: Phase,
    event: Option<OutcomeView>,
) -> (BackendView, ResponseView)
    decreases phase_rank(state),
{
    let (next, action) = matches_model(user, state, event);
    match action {
        ActionView::Perform(effect) => {
            let (after, outcome) = backend.perform(effect);
            run_matches(after, user, next, Some(outcome))
        },
        ActionView::Respond(response) => (backend, response),
        _ => (backend, ResponseView::fail(Error::IOError)),
    }
}

/// The answer to a user who asks for their matches: for every match row
/// that holds the user's name in either place, the other name.
pub open spec fn listed(backend: BackendView, user: Seq<char>) -> ResponseView {
    if !backend.store_online {
        ResponseView::fail(Error::StoreUnavailable)
    } else {
        ResponseView::ok(
            BodyView::Matches(partners(backend.matches.filter(involving(user)), user)),
        )
    }
}

/// Lists the matches of `user`. The backend stays as it is.
pub fn list_matches(backend: &mut Backend, user: &DBUser) -> (response: Response)
    ensures
        final(backend)@ == old(backend)@,
        response@ == listed(old(backend)@, user@.username),
{
    let mut state = Phase::Start;
    let mut event: Option<Outcome> = None;
    proof {
        reveal_with_fuel(run_matches, 3);
    }
    loop
        invariant
            run_matches(backend@, user@, state, event.deep_view()) == (
                old(backend)@,
                listed(old(backend)@, user@.username),
            ),
        decreases phase_rank(state),
    {
        let (next, action) = crate::paths::matches::matches(user, state, event);
        match action {
            Action::Perform(effect) => {
                event = Some(backend.perform(effect));
                state = next;
            },
            Action::Respond(response) => {
                return response;
            },
            _ => {
                return Response::fail(Error::IOError);
            },
        }
    }
}

/// The handler of an unmatch request run to its end on the backend.
pub open spec fn run_delete_match(
    backend: BackendView,
    user: UserRow,
    other: Seq<char>,
    state: Phase,
    event: Option<OutcomeView>,
) -> (BackendView, ResponseView)
    decreases phase_rank(state),
{
    let (next, action) = delete_match_model(user, other, state, event);
    match action {
        ActionView::Perform(effect) => {
            let (after, outcome) = backend.perform(effect);
            run_delete_match(after, user, other, next, Some(outcome))
        },
        ActionView::Respond(response) => (backend, response),
        _ => (backend, ResponseView::fail(Error::IOError)),
    }
}

/// What unmatching does to the backend, and the answer: every row that
/// joins the two names is removed, whichever of them it holds first. If
/// there is no such row the answer is that nothing was found.
pub open spec fn unmatched(backend: BackendView, user: Seq<char>, other: Seq<char>) -> (
    BackendView,
    ResponseView,
) {
    if !backend.store_online {
        (backend, ResponseView::fail(Error::StoreUnavailable))
    } else if !joined(backend.matches, user, other) {
        (backend, ResponseView::fail(Error::NotFound))
    } else {
        (
            BackendView { matches: backend.matches.filter(apart(user, other)), ..backend },
            ResponseView::ok(BodyView::Empty),
        )
    }
}

/// Deletes the match between `user` and `other`.
pub fn delete_match(backend: &mut Backend, user: &DBUser, other: &str) -> (response: Response)
    ensures
        (final(backend)@, response@) == unmatched(old(backend)@, user@.username, other@),
{
    let mut state = Phase::Start;
    let mut event: Option<Outcome> = None;
    proof {
        reveal_with_fuel(run_delete_match, 3);
    }
    loop
        invariant
            run_delete_match(backend@, user@, other@, state, event.deep_view()) == unmatched(
                old(backend)@,
                user@.username,
                other@,
            ),
        decreases phase_rank(state),
    {
        let (next, action) = crate::paths::matches::delete_match(user, other, state, event);
        match action {
            Action::Perform(effect) => {
                event = Some(backend.perform(effect));
                state = next;
            },
            Action::Respond(response) => {
                return response;
            },
            _ => {
                return Response::fail(Error::IOError);
            },
        }
    }
}

/// The handler of the candidate list run to its end on the backend.
pub open spec fn run_available(
    backend: BackendView,
    user: UserRow,
    state: Phase,
    event: Option<OutcomeView>,
) -> (BackendView, ResponseView)
    decreases phase_rank(state),
{
    let (next, action) = available_model(user, state, event);
    match action {
        ActionView::Perform(effect) => {
            let (after, outcome) = backend.perform(effect);
            run_available(after, user, next, Some(outcome))
        },
        ActionView::Respond(response) => (backend, response),
        _ => (backend, ResponseView::fail(Error::IOError)),
    }
}

/// The answer to a user who asks whom they may still swipe on: the located
/// accounts, other than the user's own, that the user has no swipe on.
pub open spec fn offered(backend: BackendView, user: Seq<char>) -> ResponseView {
    if !backend.store_online {
        ResponseView::fail(Error::StoreUnavailable)
    } else {
        ResponseView::ok(
            BodyView::Users(public_rows(backend.users.filter(candidate(backend.swipes, user)))),
        )
    }
}

/// Lists the users that `user` may still swipe on. The backend stays as it is.
pub fn list_available(backend: &mut Backend, user: &DBUser) -> (response: Response)
    ensures
        final(backend)@ == old(backend)@,
        response@ == offered(old(backend)@, user@.username),
{
    let mut state = Phase::Start;
    let mut event: Option<Outcome> = None;
    proof {
        reveal_with_fuel(run_available, 3);
    }
    loop
        invariant
            run_available(backend@, user@, state, event.deep_view()) == (
                old(backend)@,
                offered(old(backend)@, user@.username),
            ),
        decreases phase_rank(state),
    {
        let (next, action) = available(user, state, event);
        match action {
            Action::Perform(effect) => {
                event = Some(backend.perform(effect));
                state = next;
            },
            Action::Respond(response) => {
                return response;
            },
            _ => {
                return Response::fail(Error::IOError);
            },
        }
    }
}

} // verus!
