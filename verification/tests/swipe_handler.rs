use fightingtinder::db::{DBMatch, DBSwipe, DBUser};
use fightingtinder::error::Error;
use fightingtinder::exchange::{Action, Body, Effect, Outcome, Phase, Response};
use fightingtinder::paths::swipe::{available, do_swipe, SwipeDTO, SwipeStep};

fn user(name: &str) -> DBUser {
    DBUser::new(name.to_string(), "hash".to_string())
}

fn swipe(target: &str, status: bool) -> SwipeDTO {
    SwipeDTO { swiped: target.to_string(), status }
}

fn ok() -> Action {
    Action::Respond(Response::ok(Body::Empty))
}

fn fail(error: Error) -> Action {
    Action::Respond(Response::fail(error))
}

#[test]
fn a_swipe_on_oneself_is_refused_before_anything_is_written() {
    let next = do_swipe(&user("alice"), &swipe("alice", true), SwipeStep::Start, None);
    assert_eq!(next, (SwipeStep::Done, fail(Error::InvalidSwipeTarget)));
    let next = do_swipe(&user("alice"), &swipe("alice", false), SwipeStep::Start, None);
    assert_eq!(next, (SwipeStep::Done, fail(Error::InvalidSwipeTarget)));
}

#[test]
fn a_swipe_starts_by_writing_the_swipe() {
    let next = do_swipe(&user("alice"), &swipe("bob", true), SwipeStep::Start, None);
    let row = DBSwipe { swiper: "alice".to_string(), swiped: "bob".to_string(), status: true };
    assert_eq!(next, (SwipeStep::Recording, Action::Perform(Effect::InsertSwipe { swipe: row })));
    let next = do_swipe(&user("bob"), &swipe("alice", false), SwipeStep::Start, None);
    let row = DBSwipe { swiper: "bob".to_string(), swiped: "alice".to_string(), status: false };
    assert_eq!(next, (SwipeStep::Recording, Action::Perform(Effect::InsertSwipe { swipe: row })));
}

#[test]
fn written_interest_looks_for_the_mirror_swipe() {
    let next =
        do_swipe(&user("alice"), &swipe("bob", true), SwipeStep::Recording, Some(Outcome::Done));
    assert_eq!(
        next,
        (
            SwipeStep::Probing,
            Action::Perform(Effect::FindInterest {
                swiper: "bob".to_string(),
                swiped: "alice".to_string()
            })
        )
    );
}

#[test]
fn a_written_decline_is_answered_at_once() {
    let next =
        do_swipe(&user("alice"), &swipe("bob", false), SwipeStep::Recording, Some(Outcome::Done));
    assert_eq!(next, (SwipeStep::Done, ok()));
}

#[test]
fn a_second_swipe_on_the_same_target_is_a_duplicate() {
    let next = do_swipe(
        &user("alice"),
        &swipe("bob", true),
        SwipeStep::Recording,
        Some(Outcome::Conflict),
    );
    assert_eq!(next, (SwipeStep::Done, fail(Error::DuplicateSwipe)));
    assert_eq!(Error::DuplicateSwipe.status(), 409);
}

#[test]
fn a_store_that_is_unreachable_or_fails_fails_the_swipe() {
    for outcome in [Outcome::Unavailable, Outcome::Failed] {
        let next =
            do_swipe(&user("alice"), &swipe("bob", true), SwipeStep::Recording, Some(outcome));
        assert_eq!(next, (SwipeStep::Done, fail(Error::StoreUnavailable)));
    }
}

#[test]
fn a_mirror_swipe_leads_to_the_row_with_the_smaller_name_first() {
    let next =
        do_swipe(&user("zed"), &swipe("adam", true), SwipeStep::Probing, Some(Outcome::Done));
    let row = DBMatch { username1: "adam".to_string(), username2: "zed".to_string() };
    assert_eq!(next, (SwipeStep::Matching, Action::Perform(Effect::InsertMatch { row })));
    let next =
        do_swipe(&user("adam"), &swipe("zed", true), SwipeStep::Probing, Some(Outcome::Done));
    let row = DBMatch { username1: "adam".to_string(), username2: "zed".to_string() };
    assert_eq!(next, (SwipeStep::Matching, Action::Perform(Effect::InsertMatch { row })));
}

#[test]
fn without_a_mirror_swipe_the_swipe_just_succeeds() {
    for outcome in [Outcome::Absent, Outcome::Unavailable, Outcome::Failed] {
        let next = do_swipe(&user("alice"), &swipe("bob", true), SwipeStep::Probing, Some(outcome));
        assert_eq!(next, (SwipeStep::Done, ok()));
    }
}

#[test]
fn whatever_becomes_of_the_match_the_swipe_succeeds() {
    for outcome in [Outcome::Done, Outcome::Conflict, Outcome::Unavailable, Outcome::Failed] {
        let next =
            do_swipe(&user("alice"), &swipe("bob", true), SwipeStep::Matching, Some(outcome));
        assert_eq!(next, (SwipeStep::Done, ok()));
    }
}

#[test]
fn what_does_not_answer_the_pending_work_is_ignored() {
    let alice = user("alice");
    let dto = swipe("bob", true);
    for state in [SwipeStep::Recording, SwipeStep::Probing, SwipeStep::Matching] {
        assert_eq!(do_swipe(&alice, &dto, state, None), (state, Action::Idle));
        assert_eq!(
            do_swipe(&alice, &dto, state, Some(Outcome::Users(Vec::new()))),
            (state, Action::Idle)
        );
        assert_eq!(
            do_swipe(&alice, &dto, state, Some(Outcome::Bytes(vec![1]))),
            (state, Action::Idle)
        );
    }
    assert_eq!(
        do_swipe(&alice, &dto, SwipeStep::Recording, Some(Outcome::Absent)),
        (SwipeStep::Recording, Action::Idle)
    );
    assert_eq!(
        do_swipe(&alice, &dto, SwipeStep::Matching, Some(Outcome::Absent)),
        (SwipeStep::Matching, Action::Idle)
    );
    assert_eq!(
        do_swipe(&alice, &dto, SwipeStep::Probing, Some(Outcome::Conflict)),
        (SwipeStep::Probing, Action::Idle)
    );
}

#[test]
fn an_answered_swipe_asks_for_nothing_more() {
    let next = do_swipe(&user("alice"), &swipe("bob", true), SwipeStep::Done, Some(Outcome::Done));
    assert_eq!(next, (SwipeStep::Done, Action::Idle));
}

#[test]
fn the_candidate_list_asks_the_store_and_shows_public_fields() {
    let alice = user("alice");
    assert_eq!(
        available(&alice, Phase::Start, None),
        (
            Phase::Waiting,
            Action::Perform(Effect::ListAvailable { username: "alice".to_string() })
        )
    );
    let mut bob = user("bob");
    bob.lat = Some(f64::to_bits(1.0));
    bob.long = Some(f64::to_bits(2.0));
    let shown = bob.public();
    assert_eq!(
        available(&alice, Phase::Waiting, Some(Outcome::Users(vec![bob]))),
        (Phase::Done, Action::Respond(Response::ok(Body::Users(vec![shown]))))
    );
    assert_eq!(
        available(&alice, Phase::Waiting, Some(Outcome::Unavailable)),
        (Phase::Done, fail(Error::StoreUnavailable))
    );
    assert_eq!(
        available(&alice, Phase::Waiting, Some(Outcome::Failed)),
        (Phase::Done, fail(Error::StoreUnavailable))
    );
    assert_eq!(
        available(&alice, Phase::Waiting, Some(Outcome::Done)),
        (Phase::Waiting, Action::Idle)
    );
    assert_eq!(available(&alice, Phase::Done, None), (Phase::Done, Action::Idle));
}
