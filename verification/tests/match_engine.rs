use fightingtinder::auth::{Credential, SessionChecker};
use fightingtinder::backend::Backend;
use fightingtinder::db::{DBMatch, DBUser};
use fightingtinder::accounts::{authenticate, register};
use fightingtinder::engine::{delete_match, list_available, list_matches, record_swipe};
use fightingtinder::error::Error;
use fightingtinder::exchange::{Action, Body, Change, Effect, Outcome, Response, SessionChange};
use fightingtinder::paths::swipe::SwipeDTO;
use fightingtinder::paths::users::UserDTO;

fn add_user(backend: &mut Backend, name: &str) -> DBUser {
    let user = DBUser::new(name.to_string(), "hash".to_string());
    match backend.perform(Effect::InsertUser { user }) {
        Outcome::User(stored) => stored,
        other => panic!("{:?}", other),
    }
}

fn locate(backend: &mut Backend, name: &str) {
    let change = Change::Location { lat: f64::to_bits(48.2), long: f64::to_bits(16.4) };
    let outcome = backend.perform(Effect::UpdateUser { username: name.to_string(), change });
    assert_eq!(outcome, Outcome::Done);
}

fn swipe(backend: &mut Backend, user: &DBUser, target: &str, status: bool) -> Response {
    record_swipe(backend, user, &SwipeDTO { swiped: target.to_string(), status })
}

fn names(response: Response) -> Vec<String> {
    match response.result {
        Ok(Body::Matches(list)) => list.into_iter().map(|m| m.name).collect(),
        other => panic!("{:?}", other),
    }
}

fn usernames(response: Response) -> Vec<String> {
    match response.result {
        Ok(Body::Users(list)) => list.into_iter().map(|u| u.username).collect(),
        other => panic!("{:?}", other),
    }
}

fn match_rows(backend: &mut Backend, name: &str) -> Vec<DBMatch> {
    match backend.perform(Effect::ListMatches { username: name.to_string() }) {
        Outcome::Matches(rows) => rows,
        other => panic!("{:?}", other),
    }
}

fn row(a: &str, b: &str) -> DBMatch {
    DBMatch { username1: a.to_string(), username2: b.to_string() }
}

#[test]
fn alice_and_bob_match_once_both_have_swiped() {
    let mut backend = Backend::new();
    let checker = SessionChecker::new(500);
    let joined = register(
        &mut backend,
        &UserDTO { username: "alice".to_string(), password: "pw1".to_string() },
    );
    assert_eq!(joined.session, SessionChange::Issue("alice".to_string()));
    let joined = register(
        &mut backend,
        &UserDTO { username: "bob".to_string(), password: "pw2".to_string() },
    );
    assert_eq!(joined.session, SessionChange::Issue("bob".to_string()));
    let alice = match authenticate(&mut backend, &checker, &Credential::Username("alice".to_string())) {
        Action::Forward(user) => user,
        other => panic!("{:?}", other),
    };
    let bob = match authenticate(&mut backend, &checker, &Credential::Username("bob".to_string())) {
        Action::Forward(user) => user,
        other => panic!("{:?}", other),
    };

    assert_eq!(swipe(&mut backend, &alice, "bob", true), Response::ok(Body::Empty));
    assert_eq!(names(list_matches(&mut backend, &alice)), Vec::<String>::new());
    assert_eq!(names(list_matches(&mut backend, &bob)), Vec::<String>::new());

    assert_eq!(swipe(&mut backend, &bob, "alice", true), Response::ok(Body::Empty));
    assert_eq!(names(list_matches(&mut backend, &alice)), vec!["bob".to_string()]);
    assert_eq!(names(list_matches(&mut backend, &bob)), vec!["alice".to_string()]);
}

#[test]
fn mutual_interest_matches_in_either_order_of_the_swipes() {
    for (first, second) in [("alice", "bob"), ("bob", "alice")] {
        let mut backend = Backend::new();
        let a = add_user(&mut backend, first);
        let b = add_user(&mut backend, second);
        assert!(swipe(&mut backend, &a, second, true).result.is_ok());
        assert!(swipe(&mut backend, &b, first, true).result.is_ok());
        assert_eq!(names(list_matches(&mut backend, &a)), vec![second.to_string()]);
        assert_eq!(names(list_matches(&mut backend, &b)), vec![first.to_string()]);
        assert_eq!(match_rows(&mut backend, first), vec![row("alice", "bob")]);
        assert!(match_rows(&mut backend, first)[0].ordered());
    }
}

#[test]
fn a_pair_has_one_match_row_whoever_swiped_first() {
    let mut backend = Backend::new();
    let zed = add_user(&mut backend, "zed");
    let adam = add_user(&mut backend, "adam");
    let carol = add_user(&mut backend, "carol");
    assert!(swipe(&mut backend, &zed, "adam", true).result.is_ok());
    assert!(swipe(&mut backend, &adam, "zed", true).result.is_ok());
    assert!(swipe(&mut backend, &carol, "zed", true).result.is_ok());
    assert!(swipe(&mut backend, &zed, "carol", true).result.is_ok());
    assert_eq!(match_rows(&mut backend, "zed"), vec![row("adam", "zed"), row("carol", "zed")]);
    assert_eq!(match_rows(&mut backend, "adam"), vec![row("adam", "zed")]);
    assert_eq!(
        names(list_matches(&mut backend, &zed)),
        vec!["adam".to_string(), "carol".to_string()]
    );
}

#[test]
fn the_store_refuses_a_match_row_that_is_there() {
    let mut backend = Backend::new();
    assert_eq!(
        backend.perform(Effect::InsertMatch { row: row("alice", "bob") }),
        Outcome::Done
    );
    assert_eq!(
        backend.perform(Effect::InsertMatch { row: row("alice", "bob") }),
        Outcome::Conflict
    );
    assert_eq!(match_rows(&mut backend, "alice"), vec![row("alice", "bob")]);
}

#[test]
fn a_match_that_is_there_already_does_not_fail_the_swipe() {
    let mut backend = Backend::new();
    let alice = add_user(&mut backend, "alice");
    let bob = add_user(&mut backend, "bob");
    assert_eq!(
        backend.perform(Effect::InsertMatch { row: row("alice", "bob") }),
        Outcome::Done
    );
    assert!(swipe(&mut backend, &alice, "bob", true).result.is_ok());
    assert_eq!(swipe(&mut backend, &bob, "alice", true), Response::ok(Body::Empty));
    assert_eq!(match_rows(&mut backend, "alice"), vec![row("alice", "bob")]);
}

#[test]
fn declined_interest_makes_no_match() {
    let mut backend = Backend::new();
    let alice = add_user(&mut backend, "alice");
    let bob = add_user(&mut backend, "bob");
    assert!(swipe(&mut backend, &alice, "bob", false).result.is_ok());
    assert!(swipe(&mut backend, &bob, "alice", true).result.is_ok());
    assert!(names(list_matches(&mut backend, &alice)).is_empty());
    assert!(names(list_matches(&mut backend, &bob)).is_empty());
}

#[test]
fn a_decline_after_interest_makes_no_match() {
    let mut backend = Backend::new();
    let alice = add_user(&mut backend, "alice");
    let bob = add_user(&mut backend, "bob");
    assert!(swipe(&mut backend, &alice, "bob", true).result.is_ok());
    assert!(swipe(&mut backend, &bob, "alice", false).result.is_ok());
    assert!(names(list_matches(&mut backend, &alice)).is_empty());
    assert!(names(list_matches(&mut backend, &bob)).is_empty());
}

#[test]
fn a_swipe_on_oneself_changes_nothing() {
    let mut backend = Backend::new();
    let alice = add_user(&mut backend, "alice");
    assert_eq!(
        swipe(&mut backend, &alice, "alice", true),
        Response::fail(Error::InvalidSwipeTarget)
    );
    assert_eq!(
        backend.perform(Effect::FindInterest {
            swiper: "alice".to_string(),
            swiped: "alice".to_string()
        }),
        Outcome::Absent
    );
}

#[test]
fn a_second_swipe_on_the_same_target_is_refused_and_keeps_the_first() {
    let mut backend = Backend::new();
    let alice = add_user(&mut backend, "alice");
    let bob = add_user(&mut backend, "bob");
    assert!(swipe(&mut backend, &alice, "bob", false).result.is_ok());
    assert_eq!(swipe(&mut backend, &alice, "bob", true), Response::fail(Error::DuplicateSwipe));
    assert!(swipe(&mut backend, &bob, "alice", true).result.is_ok());
    assert!(names(list_matches(&mut backend, &alice)).is_empty());
}

#[test]
fn unmatching_works_whichever_name_comes_first() {
    for (caller, other) in [("alice", "bob"), ("bob", "alice")] {
        let mut backend = Backend::new();
        let alice = add_user(&mut backend, "alice");
        let bob = add_user(&mut backend, "bob");
        assert!(swipe(&mut backend, &alice, "bob", true).result.is_ok());
        assert!(swipe(&mut backend, &bob, "alice", true).result.is_ok());
        let user = if caller == "alice" { &alice } else { &bob };
        assert_eq!(delete_match(&mut backend, user, other), Response::ok(Body::Empty));
        assert!(names(list_matches(&mut backend, &alice)).is_empty());
        assert!(names(list_matches(&mut backend, &bob)).is_empty());
    }
}

#[test]
fn unmatching_removes_a_row_stored_the_wrong_way_round() {
    let mut backend = Backend::new();
    let alice = add_user(&mut backend, "alice");
    assert_eq!(
        backend.perform(Effect::InsertMatch { row: row("bob", "alice") }),
        Outcome::Done
    );
    assert_eq!(delete_match(&mut backend, &alice, "bob"), Response::ok(Body::Empty));
    assert!(match_rows(&mut backend, "alice").is_empty());
}

#[test]
fn unmatching_leaves_other_matches_alone() {
    let mut backend = Backend::new();
    let alice = add_user(&mut backend, "alice");
    let bob = add_user(&mut backend, "bob");
    let carol = add_user(&mut backend, "carol");
    assert!(swipe(&mut backend, &alice, "bob", true).result.is_ok());
    assert!(swipe(&mut backend, &bob, "alice", true).result.is_ok());
    assert!(swipe(&mut backend, &alice, "carol", true).result.is_ok());
    assert!(swipe(&mut backend, &carol, "alice", true).result.is_ok());
    assert_eq!(delete_match(&mut backend, &alice, "bob"), Response::ok(Body::Empty));
    assert_eq!(names(list_matches(&mut backend, &alice)), vec!["carol".to_string()]);
    assert!(names(list_matches(&mut backend, &bob)).is_empty());
}

#[test]
fn unmatching_what_is_not_matched_finds_nothing() {
    let mut backend = Backend::new();
    let alice = add_user(&mut backend, "alice");
    add_user(&mut backend, "bob");
    assert_eq!(delete_match(&mut backend, &alice, "bob"), Response::fail(Error::NotFound));
}

#[test]
fn a_match_outlives_nothing_but_its_deletion() {
    let mut backend = Backend::new();
    let alice = add_user(&mut backend, "alice");
    let bob = add_user(&mut backend, "bob");
    assert!(swipe(&mut backend, &alice, "bob", true).result.is_ok());
    assert!(swipe(&mut backend, &bob, "alice", true).result.is_ok());
    assert_eq!(delete_match(&mut backend, &bob, "alice"), Response::ok(Body::Empty));
    assert_eq!(delete_match(&mut backend, &bob, "alice"), Response::fail(Error::NotFound));
    assert_eq!(swipe(&mut backend, &alice, "bob", true), Response::fail(Error::DuplicateSwipe));
    assert!(names(list_matches(&mut backend, &alice)).is_empty());
}

#[test]
fn candidates_exclude_self_swiped_and_unlocated() {
    let mut backend = Backend::new();
    let alice = add_user(&mut backend, "alice");
    for name in ["bob", "carol", "dave", "erin"] {
        add_user(&mut backend, name);
    }
    for name in ["alice", "bob", "carol", "dave"] {
        locate(&mut backend, name);
    }
    assert!(swipe(&mut backend, &alice, "bob", true).result.is_ok());
    assert!(swipe(&mut backend, &alice, "carol", false).result.is_ok());
    assert_eq!(usernames(list_available(&mut backend, &alice)), vec!["dave".to_string()]);
}

#[test]
fn being_swiped_on_does_not_remove_a_candidate() {
    let mut backend = Backend::new();
    let alice = add_user(&mut backend, "alice");
    let bob = add_user(&mut backend, "bob");
    locate(&mut backend, "alice");
    locate(&mut backend, "bob");
    assert!(swipe(&mut backend, &bob, "alice", true).result.is_ok());
    assert_eq!(usernames(list_available(&mut backend, &alice)), vec!["bob".to_string()]);
    assert!(usernames(list_available(&mut backend, &bob)).is_empty());
}

#[test]
fn a_candidate_needs_both_coordinates() {
    let mut backend = Backend::new();
    let alice = add_user(&mut backend, "alice");
    let mut bob = DBUser::new("bob".to_string(), "hash".to_string());
    bob.lat = Some(f64::to_bits(1.0));
    assert!(matches!(backend.perform(Effect::InsertUser { user: bob }), Outcome::User(_)));
    let mut carol = DBUser::new("carol".to_string(), "hash".to_string());
    carol.long = Some(f64::to_bits(1.0));
    assert!(matches!(backend.perform(Effect::InsertUser { user: carol }), Outcome::User(_)));
    assert!(usernames(list_available(&mut backend, &alice)).is_empty());
    locate(&mut backend, "bob");
    assert_eq!(usernames(list_available(&mut backend, &alice)), vec!["bob".to_string()]);
}

#[test]
fn more_than_ten_candidates_are_all_listed() {
    let mut backend = Backend::new();
    let alice = add_user(&mut backend, "alice");
    let mut expected = Vec::new();
    for i in 0..12 {
        let name = format!("user{:02}", i);
        add_user(&mut backend, &name);
        locate(&mut backend, &name);
        expected.push(name);
    }
    assert_eq!(usernames(list_available(&mut backend, &alice)), expected);
}

#[test]
fn the_candidate_list_does_not_show_password_hashes() {
    let mut backend = Backend::new();
    let alice = add_user(&mut backend, "alice");
    add_user(&mut backend, "bob");
    locate(&mut backend, "bob");
    let response = list_available(&mut backend, &alice);
    let shown = format!("{:?}", response);
    assert!(shown.contains("bob"));
    assert!(!shown.contains("hash"));
}

#[test]
fn an_unreachable_store_fails_every_engine_operation() {
    let mut backend = Backend::new();
    let alice = add_user(&mut backend, "alice");
    add_user(&mut backend, "bob");
    backend.set_store_online(false);
    let down = Response::fail(Error::StoreUnavailable);
    assert_eq!(swipe(&mut backend, &alice, "bob", true), down);
    assert_eq!(list_matches(&mut backend, &alice), down);
    assert_eq!(list_available(&mut backend, &alice), down);
    assert_eq!(delete_match(&mut backend, &alice, "bob"), down);
    backend.set_store_online(true);
    assert_eq!(swipe(&mut backend, &alice, "bob", true), Response::ok(Body::Empty));
}
