//! What holds of the backend whatever work is performed on it.

use vstd::prelude::*;
use crate::backend::BackendView;
use crate::db::SwipeRow;
use crate::exchange::EffectView;
use crate::tables::{apart, interested, lemma_filter_keeps_distinct, lemma_user_in};

verus! {

/// A backend with nothing in it is sound.
pub proof fn theorem_empty_is_sound()
    ensures
        BackendView::empty().sound(),
{
}

/// The keys of the tables stay unique whatever work is performed.
pub proof fn theorem_keys_stay_unique(backend: BackendView, effect: EffectView)
    requires
        backend.wf(),
    ensures
        backend.perform(effect).0.wf(),
{
    let after = backend.perform(effect).0;
    match effect {
        EffectView::InsertUser { user } => {
            if after != backend {
                assert forall|i: int, j: int| 0 <= i < j < after.users.len() implies (
                #[trigger] after.users[i]).username != (#[trigger] after.users[j]).username by {
                    if j == backend.users.len() {
                        lemma_user_in(backend.users, i);
                    }
                }
            }
        },
        EffectView::UpdateUser { username, change } => {
            if after != backend {
                assert forall|i: int, j: int| 0 <= i < j < after.users.len() implies (
                #[trigger] after.users[i]).username != (#[trigger] after.users[j]).username by {
                    assert(after.users[i].username == backend.users[i].username);
                    assert(after.users[j].username == backend.users[j].username);
                }
            }
        },
        EffectView::InsertSwipe { swipe } => {},
        EffectView::InsertMatch { row } => {},
        EffectView::DeleteMatch { username, other } => {
            lemma_filter_keeps_distinct(backend.matches, apart(username, other));
        },
        _ => {},
    }
}

/// Match rows keep the smaller name first as long as no row is written
/// that has it second.
pub proof fn theorem_order_is_kept(backend: BackendView, effect: EffectView)
    requires
        backend.canonical(),
        effect matches EffectView::InsertMatch { row } ==> row.ordered(),
    ensures
        backend.perform(effect).0.canonical(),
{
    let after = backend.perform(effect).0;
    match effect {
        EffectView::DeleteMatch { username, other } => {
            let keep = apart(username, other);
            assert forall|i: int| 0 <= i < after.matches.len() implies (
            #[trigger] after.matches[i]).ordered() by {
                if after != backend {
                    assert(backend.matches.filter(keep).contains(after.matches[i]));
                    backend.matches.lemma_filter_contains_rev(keep, after.matches[i]);
                }
            }
        },
        _ => {},
    }
}

/// Swipes are never taken back: interest that is recorded stays recorded
/// whatever work is performed.
pub proof fn theorem_interest_is_kept(
    backend: BackendView,
    effect: EffectView,
    swiper: Seq<char>,
    swiped: Seq<char>,
)
    requires
        interested(backend.swipes, swiper, swiped),
    ensures
        interested(backend.perform(effect).0.swipes, swiper, swiped),
{
    let row = SwipeRow { swiper, swiped, status: true };
    let i = choose|i: int| 0 <= i < backend.swipes.len() && backend.swipes[i] == row;
    let after = backend.perform(effect).0;
    assert(after.swipes[i] == row);
}

/// The backend answers every piece of work with an outcome that is an
/// answer to it.
pub proof fn theorem_backend_answers(backend: BackendView, effect: EffectView)
    ensures
        effect.answered_by(backend.perform(effect).1),
{
}

} // verus!
