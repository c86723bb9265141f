use fightingtinder::db::{DBMatch, DBUser};
use fightingtinder::error::Error;
use fightingtinder::exchange::{Action, Body, Effect, Outcome, Phase, Response};
use fightingtinder::paths::matches::{delete_match, UserMatch};

fn alice() -> DBUser {
    DBUser::new("alice".to_string(), "hash".to_string())
}

fn fail(error: Error) -> Action {
    Action::Respond(Response::fail(error))
}

#[test]
fn the_match_list_asks_for_the_rows_of_the_user() {
    let next = fightingtinder::paths::matches::matches(&alice(), Phase::Start, None);
    assert_eq!(
        next,
        (Phase::Waiting, Action::Perform(Effect::ListMatches { username: "alice".to_string() }))
    );
}

#[test]
fn the_match_list_names_the_other_participant_of_each_row() {
    let rows = vec![
        DBMatch { username1: "alice".to_string(), username2: "bob".to_string() },
        DBMatch { username1: "adam".to_string(), username2: "alice".to_string() },
    ];
    let next =
        fightingtinder::paths::matches::matches(&alice(), Phase::Waiting, Some(Outcome::Matches(rows)));
    let list = vec![UserMatch { name: "bob".to_string() }, UserMatch { name: "adam".to_string() }];
    assert_eq!(next, (Phase::Done, Action::Respond(Response::ok(Body::Matches(list)))));
}

#[test]
fn the_match_list_fails_with_the_store() {
    for outcome in [Outcome::Unavailable, Outcome::Failed] {
        let next = fightingtinder::paths::matches::matches(&alice(), Phase::Waiting, Some(outcome));
        assert_eq!(next, (Phase::Done, fail(Error::StoreUnavailable)));
    }
}

#[test]
fn the_match_list_ignores_what_does_not_answer() {
    let next = fightingtinder::paths::matches::matches(&alice(), Phase::Waiting, None);
    assert_eq!(next, (Phase::Waiting, Action::Idle));
    let next = fightingtinder::paths::matches::matches(&alice(), Phase::Waiting, Some(Outcome::Done));
    assert_eq!(next, (Phase::Waiting, Action::Idle));
    let next = fightingtinder::paths::matches::matches(&alice(), Phase::Done, Some(Outcome::Done));
    assert_eq!(next, (Phase::Done, Action::Idle));
}

#[test]
fn unmatching_asks_for_the_row_in_either_order() {
    let next = delete_match(&alice(), "bob", Phase::Start, None);
    assert_eq!(
        next,
        (
            Phase::Waiting,
            Action::Perform(Effect::DeleteMatch {
                username: "alice".to_string(),
                other: "bob".to_string()
            })
        )
    );
}

#[test]
fn unmatching_answers_by_what_the_store_did() {
    assert_eq!(
        delete_match(&alice(), "bob", Phase::Waiting, Some(Outcome::Done)),
        (Phase::Done, Action::Respond(Response::ok(Body::Empty)))
    );
    assert_eq!(
        delete_match(&alice(), "bob", Phase::Waiting, Some(Outcome::Absent)),
        (Phase::Done, fail(Error::NotFound))
    );
    assert_eq!(
        delete_match(&alice(), "bob", Phase::Waiting, Some(Outcome::Unavailable)),
        (Phase::Done, fail(Error::StoreUnavailable))
    );
    assert_eq!(
        delete_match(&alice(), "bob", Phase::Waiting, Some(Outcome::Failed)),
        (Phase::Done, fail(Error::StoreUnavailable))
    );
    assert_eq!(
        delete_match(&alice(), "bob", Phase::Waiting, None),
        (Phase::Waiting, Action::Idle)
    );
    assert_eq!(
        delete_match(&alice(), "bob", Phase::Done, Some(Outcome::Done)),
        (Phase::Done, Action::Idle)
    );
}
