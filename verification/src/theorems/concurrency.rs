//! Two swipes in flight at once.
//!
//! Requests are served side by side, so the steps of two swipes may
//! interleave in any order. As long as every piece of work on the store is
//! done in one go and seen by the work that follows it, no interleaving of
//! two swipes of interest loses their match or writes it twice.

use vstd::prelude::*;
use crate::backend::BackendView;
use crate::db::{MatchRow, SwipeRow, UserRow};
use crate::exchange::{ActionView, BodyView, EffectView, OutcomeView, ResponseView};
use crate::names::lemma_name_order;
use crate::paths::swipe::{do_swipe_model, SwipeDTOView, SwipeStep};
use crate::tables::interested;
use crate::theorems::store::{theorem_interest_is_kept, theorem_keys_stay_unique};

verus! {

/// A swipe in flight: the request, where its handler stands, what the
/// handler was last handed, and the answer once there is one.
pub struct Flight {
    pub user: UserRow,
    pub swipe: SwipeDTOView,
    pub state: SwipeStep,
    pub event: Option<OutcomeView>,
    pub answer: Option<ResponseView>,
}

impl Flight {
    /// A swipe of interest by `user` on `target` that has not begun.
    pub open spec fn start(user: UserRow, target: Seq<char>) -> Flight {
        Flight {
            user,
            swipe: SwipeDTOView { swiped: target, status: true },
            state: SwipeStep::Start,
            event: None,
            answer: None,
        }
    }

    /// One step of the flight: the handler decides, and what it asks for
    /// is performed on the backend at once.
    pub open spec fn advance(self, backend: BackendView) -> (BackendView, Flight) {
        if self.answer is Some {
            (backend, self)
        } else {
            let (next, action) = do_swipe_model(self.user, self.swipe, self.state, self.event);
            match action {
                ActionView::Perform(effect) => {
                    let (after, outcome) = backend.perform(effect);
                    (after, Flight { state: next, event: Some(outcome), ..self })
                },
                ActionView::Respond(response) => (
                    backend,
                    Flight { state: next, event: None, answer: Some(response), ..self },
                ),
                _ => (backend, self),
            }
        }
    }

    /// Whether the flight has ended with success.
    pub open spec fn succeeded(self) -> bool {
        self.answer == Some(ResponseView::ok(BodyView::Empty))
    }
}

/// Two flights advanced step by step in the order that `schedule` gives:
/// `true` moves the first, `false` the second.
pub open spec fn interleaved(backend: BackendView, a: Flight, b: Flight, schedule: Seq<bool>) -> (
    BackendView,
    Flight,
    Flight,
)
    decreases schedule.len(),
{
    if schedule.len() == 0 {
        (backend, a, b)
    } else {
        let (before, a1, b1) = interleaved(backend, a, b, schedule.drop_last());
        if schedule.last() {
            let (after, a2) = a1.advance(before);
            (after, a2, b1)
        } else {
            let (after, b2) = b1.advance(before);
            (after, a1, b2)
        }
    }
}

/// Whether the flight's probe for the mirror swipe is still to come.
spec fn before_probe(f: Flight) -> bool {
    f.state == SwipeStep::Start || f.state == SwipeStep::Recording
}

/// Whether the flight has found the mirror swipe and is about to write the
/// match.
spec fn about_to_write(f: Flight) -> bool {
    f.state == SwipeStep::Probing && f.event == Some(OutcomeView::Done)
}

/// Whether the flight has ended without success.
spec fn failed(f: Flight) -> bool {
    f.answer is Some && !f.succeeded()
}

/// Whether the flight is past the point at which it could still write the
/// match.
spec fn settled(f: Flight) -> bool {
    (f.state == SwipeStep::Probing && f.event != Some(OutcomeView::Done)) || f.state
        == SwipeStep::Matching || f.state == SwipeStep::Done
}

/// What holds of one flight of `me` on `you` at every moment.
spec fn flight_inv(backend: BackendView, f: Flight, me: UserRow, you: UserRow) -> bool {
    let row = MatchRow::canonical(me.username, you.username);
    let mine = interested(backend.swipes, me.username, you.username);
    let yours = interested(backend.swipes, you.username, me.username);
    &&& f.user == me
    &&& f.swipe == (SwipeDTOView { swiped: you.username, status: true })
    &&& match f.state {
        SwipeStep::Start => f.event is None && f.answer is None,
        SwipeStep::Recording => f.answer is None && f.event is Some && (f.event == Some(
            OutcomeView::Done,
        ) ==> mine && backend.store_online),
        SwipeStep::Probing => f.answer is None && f.event is Some && mine && backend.store_online
            && (f.event == Some(OutcomeView::Done) ==> yours),
        SwipeStep::Matching => f.answer is None && f.event is Some && mine && yours
            && backend.store_online && backend.matches.contains(row),
        SwipeStep::Done => f.answer is Some && (f.succeeded() ==> mine && backend.store_online),
    }
}

/// What holds of two opposite flights at every moment: a flight that can
/// no longer write the match has seen it written, or the other one will
/// still write it, or the other one has failed.
spec fn pair_inv(backend: BackendView, a: Flight, b: Flight, x: UserRow, y: UserRow) -> bool {
    let row = MatchRow::canonical(x.username, y.username);
    &&& x.username != y.username
    &&& flight_inv(backend, a, x, y)
    &&& flight_inv(backend, b, y, x)
    &&& settled(a) && !failed(a) ==> backend.matches.contains(row) || before_probe(b)
        || about_to_write(b) || failed(b)
    &&& settled(b) && !failed(b) ==> backend.matches.contains(row) || before_probe(a)
        || about_to_write(a) || failed(a)
    &&& !backend.store_online ==> !a.succeeded() && !b.succeeded()
}

/// A step of one flight keeps what holds of the pair.
proof fn lemma_step_keeps_pair(backend: BackendView, a: Flight, b: Flight, x: UserRow, y: UserRow)
    requires
        pair_inv(backend, a, b, x, y),
    ensures
        pair_inv(a.advance(backend).0, a.advance(backend).1, b, x, y),
        backend.sound() ==> a.advance(backend).0.sound(),
{
    lemma_name_order(x.username, y.username);
    lemma_name_order(y.username, x.username);
    let row = MatchRow::canonical(x.username, y.username);
    assert(row == MatchRow::canonical(y.username, x.username));
    let (after, a2) = a.advance(backend);
    let mine = SwipeRow { swiper: x.username, swiped: y.username, status: true };
    let yours = SwipeRow { swiper: y.username, swiped: x.username, status: true };
    if a.answer is None {
        let (next, action) = do_swipe_model(a.user, a.swipe, a.state, a.event);
        if let ActionView::Perform(effect) = action {
            if backend.wf() {
                theorem_keys_stay_unique(backend, effect);
            }
            if interested(backend.swipes, x.username, y.username) {
                theorem_interest_is_kept(backend, effect, x.username, y.username);
            }
            if interested(backend.swipes, y.username, x.username) {
                theorem_interest_is_kept(backend, effect, y.username, x.username);
            }
            if backend.matches.contains(row) {
                let i = choose|i: int| 0 <= i < backend.matches.len() && backend.matches[i] == row;
                assert(after.matches[i] == row);
            }
            match effect {
                EffectView::InsertSwipe { swipe } => {
                    if after != backend {
                        assert(after.swipes[backend.swipes.len() as int] == mine);
                    }
                    if after != backend && backend.grounded() {
                        assert forall|i: int| 0 <= i < after.matches.len() implies interested(
                            after.swipes,
                            (#[trigger] after.matches[i]).username1,
                            after.matches[i].username2,
                        ) && interested(
                            after.swipes,
                            after.matches[i].username2,
                            after.matches[i].username1,
                        ) by {
                            let m = backend.matches[i];
                            theorem_interest_is_kept(backend, effect, m.username1, m.username2);
                            theorem_interest_is_kept(backend, effect, m.username2, m.username1);
                        }
                    }
                },
                EffectView::InsertMatch { row: written } => {
                    if after != backend {
                        assert(after.matches[backend.matches.len() as int] == row);
                    }
                },
                _ => {},
            }
        }
    }
}

/// The pair seen from the other side.
proof fn lemma_pair_swaps(backend: BackendView, a: Flight, b: Flight, x: UserRow, y: UserRow)
    ensures
        pair_inv(backend, a, b, x, y) == pair_inv(backend, b, a, y, x),
{
    lemma_name_order(x.username, y.username);
    lemma_name_order(y.username, x.username);
    assert(MatchRow::canonical(x.username, y.username) == MatchRow::canonical(
        y.username,
        x.username,
    ));
}

/// Every interleaving keeps what holds of the pair.
proof fn lemma_interleaving_keeps_pair(
    backend: BackendView,
    x: UserRow,
    y: UserRow,
    schedule: Seq<bool>,
)
    requires
        x.username != y.username,
    ensures
        ({
            let end = interleaved(
                backend,
                Flight::start(x, y.username),
                Flight::start(y, x.username),
                schedule,
            );
            &&& pair_inv(end.0, end.1, end.2, x, y)
            &&& backend.sound() ==> end.0.sound()
        }),
    decreases schedule.len(),
{
    let a = Flight::start(x, y.username);
    let b = Flight::start(y, x.username);
    if schedule.len() > 0 {
        lemma_interleaving_keeps_pair(backend, x, y, schedule.drop_last());
        let (before, a1, b1) = interleaved(backend, a, b, schedule.drop_last());
        if schedule.last() {
            lemma_step_keeps_pair(before, a1, b1, x, y);
        } else {
            lemma_pair_swaps(before, a1, b1, x, y);
            lemma_step_keeps_pair(before, b1, a1, y, x);
            let (after, b2) = b1.advance(before);
            lemma_pair_swaps(after, a1, b2, x, y);
        }
    }
}

/// Two users swipe on each other with interest at the same time. However
/// the steps of the two requests interleave, if both are answered with
/// success the two are matched afterwards: the one row of the pair is
/// there, smaller name first. And the tables stay sound throughout, so the
/// row is there once.
pub proof fn theorem_concurrent_swipes_match(
    backend: BackendView,
    x: UserRow,
    y: UserRow,
    schedule: Seq<bool>,
)
    ensures
        ({
            let end = interleaved(
                backend,
                Flight::start(x, y.username),
                Flight::start(y, x.username),
                schedule,
            );
            let row = MatchRow::canonical(x.username, y.username);
            &&& end.1.succeeded() && end.2.succeeded() ==> end.0.matches.contains(row)
                && row.ordered() && row.joins(x.username, y.username)
            &&& backend.sound() && x.username != y.username ==> end.0.sound()
        }),
{
    let a = Flight::start(x, y.username);
    let b = Flight::start(y, x.username);
    let end = interleaved(backend, a, b, schedule);
    if x.username != y.username {
        lemma_interleaving_keeps_pair(backend, x, y, schedule);
        lemma_name_order(x.username, y.username);
    } else {
        lemma_self_swipes_fail(backend, x, y, schedule);
    }
}

/// A swipe on oneself never succeeds, whatever else is in flight.
proof fn lemma_self_swipes_fail(backend: BackendView, x: UserRow, y: UserRow, schedule: Seq<bool>)
    requires
        x.username == y.username,
    ensures
        ({
            let a = Flight::start(x, y.username);
            let b = Flight::start(y, x.username);
            let end = interleaved(backend, a, b, schedule);
            &&& !end.1.succeeded()
            &&& !end.2.succeeded()
            &&& end.1 == a || end.1.answer is Some
            &&& end.2 == b || end.2.answer is Some
        }),
    decreases schedule.len(),
{
    if schedule.len() > 0 {
        lemma_self_swipes_fail(backend, x, y, schedule.drop_last());
    }
}

} // verus!
