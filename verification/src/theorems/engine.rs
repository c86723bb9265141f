//! What holds of the match engine.

use vstd::prelude::*;
use crate::backend::BackendView;
use crate::db::{MatchRow, SwipeRow, UserRow};
use crate::engine::{listed, offered, recorded, unmatched};
use crate::exchange::{ActionView, BodyView, EffectView, OutcomeView, Phase};
use crate::names::lemma_name_order;
use crate::paths::matches::{delete_match_model, matches_model, partners};
use crate::paths::swipe::{available_model, do_swipe_model, SwipeDTOView, SwipeStep};
use crate::tables::{
    apart, candidate, interested, involving, joined, lemma_filter_keeps_distinct, swiped_on,
};
use crate::theorems::store::{theorem_keys_stay_unique, theorem_order_is_kept};

verus! {

/// Recording a swipe keeps the tables sound: the keys unique, the match
/// rows ordered, and every match resting on mutual interest.
pub proof fn theorem_recording_keeps_invariants(
    backend: BackendView,
    swiper: Seq<char>,
    swipe: SwipeDTOView,
)
    requires
        backend.sound(),
    ensures
        recorded(backend, swiper, swipe).0.sound(),
{
    lemma_name_order(swiper, swipe.swiped);
    let after = recorded(backend, swiper, swipe).0;
    if after != backend {
        let added = SwipeRow { swiper, swiped: swipe.swiped, status: swipe.status };
        assert(after.swipes[backend.swipes.len() as int] == added);
        assert forall|i: int| 0 <= i < after.matches.len() implies interested(
            after.swipes,
            (#[trigger] after.matches[i]).username1,
            after.matches[i].username2,
        ) && interested(after.swipes, after.matches[i].username2, after.matches[i].username1) by {
            let m = after.matches[i];
            if i < backend.matches.len() {
                assert(m == backend.matches[i]);
                lemma_interest_survives_push(backend.swipes, added, m.username1, m.username2);
                lemma_interest_survives_push(backend.swipes, added, m.username2, m.username1);
            } else {
                lemma_interest_survives_push(backend.swipes, added, swipe.swiped, swiper);
            }
        }
    }
}

/// Interest that is recorded is still recorded after another swipe.
proof fn lemma_interest_survives_push(
    swipes: Seq<SwipeRow>,
    added: SwipeRow,
    swiper: Seq<char>,
    swiped: Seq<char>,
)
    requires
        interested(swipes, swiper, swiped),
    ensures
        interested(swipes.push(added), swiper, swiped),
{
    let row = SwipeRow { swiper, swiped, status: true };
    let i = choose|i: int| 0 <= i < swipes.len() && swipes[i] == row;
    assert(swipes.push(added)[i] == row);
}

/// Unmatching keeps the tables sound.
pub proof fn theorem_unmatching_keeps_invariants(
    backend: BackendView,
    user: Seq<char>,
    other: Seq<char>,
)
    requires
        backend.sound(),
    ensures
        unmatched(backend, user, other).0.sound(),
{
    let effect = EffectView::DeleteMatch { username: user, other };
    theorem_keys_stay_unique(backend, effect);
    theorem_order_is_kept(backend, effect);
    let after = unmatched(backend, user, other).0;
    let keep = apart(user, other);
    assert forall|i: int| 0 <= i < after.matches.len() implies interested(
        after.swipes,
        (#[trigger] after.matches[i]).username1,
        after.matches[i].username2,
    ) && interested(after.swipes, after.matches[i].username2, after.matches[i].username1) by {
        if after != backend {
            assert(backend.matches.filter(keep).contains(after.matches[i]));
            backend.matches.lemma_filter_contains_rev(keep, after.matches[i]);
        }
    }
}

/// For any two users there is at most one match row, whichever of them
/// swiped first: two different rows never join the same pair.
pub proof fn theorem_one_row_per_pair(backend: BackendView, a: Seq<char>, b: Seq<char>)
    requires
        backend.wf(),
        backend.canonical(),
    ensures
        forall|i: int, j: int|
            0 <= i < j < backend.matches.len() ==> !((#[trigger] backend.matches[i]).joins(a, b)
                && (#[trigger] backend.matches[j]).joins(a, b)),
{
    lemma_name_order(a, b);
    lemma_name_order(b, a);
    assert forall|i: int, j: int| 0 <= i < j < backend.matches.len() implies !((
    #[trigger] backend.matches[i]).joins(a, b) && (#[trigger] backend.matches[j]).joins(a, b)) by {
        let x = backend.matches[i];
        let y = backend.matches[j];
        if x.joins(a, b) && y.joins(a, b) {
            assert(x.ordered() && y.ordered());
            assert(x == y);
        }
    }
}

/// Nobody is listed twice among a user's matches.
pub proof fn theorem_no_partner_twice(backend: BackendView, user: Seq<char>)
    requires
        backend.wf(),
        backend.canonical(),
    ensures
        partners(backend.matches.filter(involving(user)), user).no_duplicates(),
{
    let rows = backend.matches.filter(involving(user));
    let names = partners(rows, user);
    lemma_filter_keeps_distinct(backend.matches, involving(user));
    assert forall|i: int, j: int|
        0 <= i < names.len() && 0 <= j < names.len() && i != j implies names[i] != names[j] by {
        let x = rows[i];
        let y = rows[j];
        backend.matches.lemma_filter_pred(involving(user), i);
        backend.matches.lemma_filter_pred(involving(user), j);
        assert(rows.contains(x) && rows.contains(y));
        backend.matches.lemma_filter_contains_rev(involving(user), x);
        backend.matches.lemma_filter_contains_rev(involving(user), y);
        assert(x.ordered() && y.ordered());
        lemma_name_order(user, x.other(user));
        if i < j {
            assert(rows[i] != rows[j]);
        } else {
            assert(rows[j] != rows[i]);
        }
        if names[i] == names[j] {
            assert(x == y);
        }
    }
}

/// A user's list of matches names a partner for whom a row exists.
proof fn lemma_listed_contains(backend: BackendView, row: MatchRow, user: Seq<char>)
    requires
        backend.store_online,
        backend.matches.contains(row),
        row.involves(user),
    ensures
        listed(backend, user).result matches Ok(BodyView::Matches(names)) && names.contains(
            row.other(user),
        ),
{
    let i = choose|i: int| 0 <= i < backend.matches.len() && backend.matches[i] == row;
    let rows = backend.matches.filter(involving(user));
    backend.matches.lemma_filter_contains(involving(user), i);
    let k = choose|k: int| 0 <= k < rows.len() && rows[k] == row;
    assert(partners(rows, user)[k] == row.other(user));
}

/// Once `a` has shown interest in `b`, a swipe of interest by `b` on `a`
/// that is accepted leaves the two matched: the one row of the pair is
/// there, smaller name first, and each finds the other in their list of
/// matches.
pub proof fn theorem_answered_interest_matches(backend: BackendView, a: Seq<char>, b: Seq<char>)
    requires
        interested(backend.swipes, a, b),
        recorded(backend, b, SwipeDTOView { swiped: a, status: true }).1.result is Ok,
    ensures
        ({
            let after = recorded(backend, b, SwipeDTOView { swiped: a, status: true }).0;
            let row = MatchRow::canonical(a, b);
            &&& a != b
            &&& after.matches.contains(row)
            &&& row.ordered()
            &&& row.joins(a, b)
            &&& listed(after, a).result matches Ok(BodyView::Matches(names)) && names.contains(b)
            &&& listed(after, b).result matches Ok(BodyView::Matches(names)) && names.contains(a)
        }),
{
    let after = recorded(backend, b, SwipeDTOView { swiped: a, status: true }).0;
    let row = MatchRow::canonical(a, b);
    lemma_name_order(a, b);
    lemma_name_order(b, a);
    assert(row == MatchRow::canonical(b, a));
    if backend.matches.contains(row) {
    } else {
        assert(after.matches == backend.matches.push(row));
        assert(after.matches[backend.matches.len() as int] == row);
    }
    lemma_listed_contains(after, row, a);
    lemma_listed_contains(after, row, b);
}

/// Two different users who have each swiped with interest on the other,
/// in either order, are matched: the one row of the pair is there, smaller
/// name first, and each finds the other in their list of matches.
pub proof fn theorem_mutual_interest_matches(backend: BackendView, a: Seq<char>, b: Seq<char>)
    requires
        recorded(backend, a, SwipeDTOView { swiped: b, status: true }).1.result is Ok,
        recorded(
            recorded(backend, a, SwipeDTOView { swiped: b, status: true }).0,
            b,
            SwipeDTOView { swiped: a, status: true },
        ).1.result is Ok,
    ensures
        ({
            let first = recorded(backend, a, SwipeDTOView { swiped: b, status: true }).0;
            let after = recorded(first, b, SwipeDTOView { swiped: a, status: true }).0;
            let row = MatchRow::canonical(a, b);
            &&& after.matches.contains(row)
            &&& row.ordered()
            &&& listed(after, a).result matches Ok(BodyView::Matches(names)) && names.contains(b)
            &&& listed(after, b).result matches Ok(BodyView::Matches(names)) && names.contains(a)
        }),
{
    let first = recorded(backend, a, SwipeDTOView { swiped: b, status: true }).0;
    let added = SwipeRow { swiper: a, swiped: b, status: true };
    assert(first.swipes[backend.swipes.len() as int] == added);
    theorem_answered_interest_matches(first, a, b);
}

/// Interest that is not returned makes no match: after `a` has declined
/// `b`, a swipe of interest by `b` on `a` leaves the matches as they were.
pub proof fn theorem_declined_interest_makes_no_match(
    backend: BackendView,
    a: Seq<char>,
    b: Seq<char>,
)
    requires
        recorded(backend, a, SwipeDTOView { swiped: b, status: false }).1.result is Ok,
    ensures
        ({
            let first = recorded(backend, a, SwipeDTOView { swiped: b, status: false }).0;
            let after = recorded(first, b, SwipeDTOView { swiped: a, status: true }).0;
            after.matches == backend.matches
        }),
{
    let first = recorded(backend, a, SwipeDTOView { swiped: b, status: false }).0;
    let wanted = SwipeRow { swiper: a, swiped: b, status: true };
    if first.swipes.contains(wanted) {
        let i = choose|i: int| 0 <= i < first.swipes.len() && first.swipes[i] == wanted;
        if i < backend.swipes.len() {
            assert(backend.swipes[i].swiper == a && backend.swipes[i].swiped == b);
        }
    }
}

/// Unmatching does the same whichever of the two names is given first, and
/// afterwards no row joins the two.
pub proof fn theorem_unmatch_either_way(backend: BackendView, a: Seq<char>, b: Seq<char>)
    ensures
        unmatched(backend, a, b) == unmatched(backend, b, a),
        unmatched(backend, a, b).1.result is Ok ==> !joined(
            unmatched(backend, a, b).0.matches,
            a,
            b,
        ) && !joined(unmatched(backend, a, b).0.matches, b, a),
{
    assert(apart(a, b) =~= apart(b, a));
    if joined(backend.matches, a, b) {
        let i = choose|i: int| 0 <= i < backend.matches.len() && (
        #[trigger] backend.matches[i]).joins(a, b);
        assert(backend.matches[i].joins(b, a));
    }
    if joined(backend.matches, b, a) {
        let i = choose|i: int| 0 <= i < backend.matches.len() && (
        #[trigger] backend.matches[i]).joins(b, a);
        assert(backend.matches[i].joins(a, b));
    }
    let kept = backend.matches.filter(apart(a, b));
    assert forall|i: int| 0 <= i < kept.len() implies !(#[trigger] kept[i]).joins(a, b)
        && !kept[i].joins(b, a) by {
        backend.matches.lemma_filter_pred(apart(a, b), i);
    }
}

/// The list of candidates leaves out the user's own account, every account
/// that the user has swiped on, and every account without a location; it
/// holds every other account.
pub proof fn theorem_candidates(backend: BackendView, user: Seq<char>)
    requires
        backend.store_online,
    ensures
        ({
            let found = backend.users.filter(candidate(backend.swipes, user));
            &&& offered(backend, user).result matches Ok(BodyView::Users(shown)) && shown.len()
                == found.len()
            &&& forall|i: int|
                0 <= i < found.len() ==> (#[trigger] found[i]).username != user
                    && found[i].located() && !swiped_on(backend.swipes, user, found[i].username)
                    && backend.users.contains(found[i])
            &&& forall|i: int|
                0 <= i < backend.users.len() && (#[trigger] backend.users[i]).username != user
                    && backend.users[i].located() && !swiped_on(
                    backend.swipes,
                    user,
                    backend.users[i].username,
                ) ==> found.contains(backend.users[i])
        }),
{
    let wanted = candidate(backend.swipes, user);
    let found = backend.users.filter(wanted);
    assert forall|i: int| 0 <= i < found.len() implies (#[trigger] found[i]).username != user
        && found[i].located() && !swiped_on(backend.swipes, user, found[i].username)
        && backend.users.contains(found[i]) by {
        backend.users.lemma_filter_pred(wanted, i);
        assert(found.contains(found[i]));
        backend.users.lemma_filter_contains_rev(wanted, found[i]);
    }
    assert forall|i: int|
        0 <= i < backend.users.len() && (#[trigger] backend.users[i]).username != user
            && backend.users[i].located() && !swiped_on(
            backend.swipes,
            user,
            backend.users[i].username,
        ) implies found.contains(backend.users[i]) by {
        backend.users.lemma_filter_contains(wanted, i);
    }
}

/// The handlers of the match engine never stall: when one has asked for a
/// piece of work and is handed an answer to it, it asks for the next piece
/// or answers the request.
pub proof fn theorem_engine_moves_on(
    user: UserRow,
    swipe: SwipeDTOView,
    other: Seq<char>,
    step: SwipeStep,
    phase: Phase,
    event: Option<OutcomeView>,
    outcome: OutcomeView,
)
    ensures
        do_swipe_model(user, swipe, step, event).1 matches ActionView::Perform(effect)
            && effect.answered_by(outcome) ==> !(do_swipe_model(
            user,
            swipe,
            do_swipe_model(user, swipe, step, event).0,
            Some(outcome),
        ).1 is Idle),
        matches_model(user, phase, event).1 matches ActionView::Perform(effect)
            && effect.answered_by(outcome) ==> !(matches_model(
            user,
            matches_model(user, phase, event).0,
            Some(outcome),
        ).1 is Idle),
        delete_match_model(user, other, phase, event).1 matches ActionView::Perform(effect)
            && effect.answered_by(outcome) ==> !(delete_match_model(
            user,
            other,
            delete_match_model(user, other, phase, event).0,
            Some(outcome),
        ).1 is Idle),
        available_model(user, phase, event).1 matches ActionView::Perform(effect)
            && effect.answered_by(outcome) ==> !(available_model(
            user,
            available_model(user, phase, event).0,
            Some(outcome),
        ).1 is Idle),
{
}

} // verus!
