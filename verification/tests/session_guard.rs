use fightingtinder::auth::{AuthState, Credential, SessionChecker};
use fightingtinder::backend::Backend;
use fightingtinder::db::DBUser;
use fightingtinder::accounts::authenticate;
use fightingtinder::error::Error;
use fightingtinder::exchange::{Action, Effect, Outcome, Response, SessionChange};

fn alice() -> DBUser {
    let mut user = DBUser::new("alice".to_string(), "hash".to_string());
    user.bio = Some("hi".to_string());
    user
}

fn stale() -> Action {
    Action::Respond(Response { result: Err(Error::StaleCredential), session: SessionChange::Revoke })
}

#[test]
fn the_checker_keeps_its_wait() {
    let checker = SessionChecker::new(500);
    assert_eq!(checker.wait_millis(), 500);
    let guard = checker.new_transform();
    assert_eq!(guard.wait_millis(), 500);
    assert_eq!(guard.current(), AuthState::Unauthenticated);
    assert!(!guard.is_authenticated());
}

#[test]
fn a_request_without_credential_is_turned_away() {
    let mut guard = SessionChecker::new(500).new_transform();
    let action = guard.call(&Credential::Absent, None);
    assert_eq!(action, Action::Respond(Response::fail(Error::MissingCredential)));
    assert_eq!(guard.current(), AuthState::Rejected(Error::MissingCredential));
    assert!(!guard.is_authenticated());
    assert_eq!(Error::MissingCredential.status(), 400);
}

#[test]
fn a_credential_is_resolved_against_the_accounts() {
    let mut guard = SessionChecker::new(500).new_transform();
    let credential = Credential::Username("alice".to_string());
    let action = guard.call(&credential, None);
    assert_eq!(action, Action::Perform(Effect::FindUser { username: "alice".to_string() }));
    assert_eq!(guard.current(), AuthState::Resolving);
    assert!(!guard.is_authenticated());
}

#[test]
fn an_existing_account_passes_with_its_record_attached() {
    let mut guard = SessionChecker::new(500).new_transform();
    let credential = Credential::Username("alice".to_string());
    guard.call(&credential, None);
    let action = guard.call(&credential, Some(Outcome::User(alice())));
    assert_eq!(action, Action::Forward(alice()));
    assert_eq!(guard.current(), AuthState::Authenticated);
    assert!(guard.is_authenticated());
}

#[test]
fn an_unreachable_store_is_no_failure_of_authentication() {
    let mut guard = SessionChecker::new(500).new_transform();
    let credential = Credential::Username("alice".to_string());
    guard.call(&credential, None);
    let action = guard.call(&credential, Some(Outcome::Unavailable));
    assert_eq!(action, Action::Respond(Response::fail(Error::StoreUnavailable)));
    assert_eq!(guard.current(), AuthState::Rejected(Error::StoreUnavailable));
    assert_eq!(Error::StoreUnavailable.status(), 500);
}

#[test]
fn a_credential_for_a_missing_account_is_invalidated() {
    let mut guard = SessionChecker::new(500).new_transform();
    let credential = Credential::Username("ghost".to_string());
    guard.call(&credential, None);
    let action = guard.call(&credential, Some(Outcome::Absent));
    assert_eq!(action, stale());
    assert_eq!(guard.current(), AuthState::Rejected(Error::StaleCredential));
    assert!(!guard.is_authenticated());
    assert_eq!(Error::StaleCredential.status(), 400);
}

#[test]
fn a_failing_lookup_does_not_cost_the_credential() {
    let mut guard = SessionChecker::new(500).new_transform();
    let credential = Credential::Username("alice".to_string());
    guard.call(&credential, None);
    let action = guard.call(&credential, Some(Outcome::Failed));
    assert_eq!(action, Action::Respond(Response::fail(Error::StoreUnavailable)));
    assert_eq!(guard.current(), AuthState::Rejected(Error::StoreUnavailable));
    assert!(!guard.is_authenticated());
}

#[test]
fn nothing_passes_once_a_request_is_turned_away() {
    let mut guard = SessionChecker::new(500).new_transform();
    assert_eq!(guard.call(&Credential::Absent, None), Action::Respond(Response::fail(Error::MissingCredential)));
    let credential = Credential::Username("alice".to_string());
    assert_eq!(guard.call(&credential, Some(Outcome::User(alice()))), Action::Idle);
    assert_eq!(guard.call(&credential, None), Action::Idle);
    assert_eq!(guard.current(), AuthState::Rejected(Error::MissingCredential));
}

#[test]
fn the_guard_ignores_what_does_not_answer_its_lookup() {
    let mut guard = SessionChecker::new(500).new_transform();
    let credential = Credential::Username("alice".to_string());
    guard.call(&credential, None);
    assert_eq!(guard.call(&credential, None), Action::Idle);
    assert_eq!(guard.call(&credential, Some(Outcome::Done)), Action::Idle);
    assert_eq!(guard.call(&credential, Some(Outcome::Conflict)), Action::Idle);
    assert_eq!(guard.call(&credential, Some(Outcome::Users(vec![alice()]))), Action::Idle);
    assert_eq!(guard.current(), AuthState::Resolving);
    assert_eq!(guard.call(&credential, Some(Outcome::User(alice()))), Action::Forward(alice()));
    assert_eq!(guard.call(&credential, Some(Outcome::User(alice()))), Action::Idle);
    assert_eq!(guard.current(), AuthState::Authenticated);
}

#[test]
fn authenticate_attaches_the_stored_account() {
    let mut backend = Backend::new();
    assert_eq!(backend.perform(Effect::InsertUser { user: alice() }), Outcome::User(alice()));
    let checker = SessionChecker::new(500);
    let action = authenticate(&mut backend, &checker, &Credential::Username("alice".to_string()));
    assert_eq!(action, Action::Forward(alice()));
}

#[test]
fn authenticate_rejects_a_missing_credential() {
    let mut backend = Backend::new();
    assert_eq!(backend.perform(Effect::InsertUser { user: alice() }), Outcome::User(alice()));
    let checker = SessionChecker::new(500);
    assert_eq!(
        authenticate(&mut backend, &checker, &Credential::Absent),
        Action::Respond(Response::fail(Error::MissingCredential))
    );
}

#[test]
fn a_stale_credential_is_rejected_again_and_again() {
    let mut backend = Backend::new();
    assert_eq!(backend.perform(Effect::InsertUser { user: alice() }), Outcome::User(alice()));
    let checker = SessionChecker::new(500);
    let credential = Credential::Username("bob".to_string());
    assert_eq!(authenticate(&mut backend, &checker, &credential), stale());
    assert_eq!(authenticate(&mut backend, &checker, &credential), stale());
    assert_eq!(
        authenticate(&mut backend, &checker, &Credential::Absent),
        Action::Respond(Response::fail(Error::MissingCredential))
    );
    assert_eq!(
        authenticate(&mut backend, &checker, &Credential::Username("alice".to_string())),
        Action::Forward(alice())
    );
}

#[test]
fn authenticate_reports_an_unreachable_store() {
    let mut backend = Backend::new();
    assert_eq!(backend.perform(Effect::InsertUser { user: alice() }), Outcome::User(alice()));
    backend.set_store_online(false);
    let checker = SessionChecker::new(500);
    assert_eq!(
        authenticate(&mut backend, &checker, &Credential::Username("alice".to_string())),
        Action::Respond(Response::fail(Error::StoreUnavailable))
    );
    assert_eq!(
        authenticate(&mut backend, &checker, &Credential::Absent),
        Action::Respond(Response::fail(Error::MissingCredential))
    );
}

#[test]
fn an_updated_account_is_attached_as_it_is_now() {
    let mut backend = Backend::new();
    assert_eq!(backend.perform(Effect::InsertUser { user: alice() }), Outcome::User(alice()));
    let change = fightingtinder::exchange::Change::Bio("new".to_string());
    assert_eq!(
        backend.perform(Effect::UpdateUser { username: "alice".to_string(), change }),
        Outcome::Done
    );
    let checker = SessionChecker::new(500);
    let mut expected = alice();
    expected.bio = Some("new".to_string());
    assert_eq!(
        authenticate(&mut backend, &checker, &Credential::Username("alice".to_string())),
        Action::Forward(expected)
    );
}

#[test]
fn a_credential_that_cannot_be_read_is_refused_as_invalid() {
    let mut guard = SessionChecker::new(500).new_transform();
    let action = guard.call(&Credential::Malformed, None);
    assert_eq!(action, Action::Respond(Response::fail(Error::ValidationError)));
    assert_eq!(guard.current(), AuthState::Rejected(Error::ValidationError));
    assert!(!guard.is_authenticated());
    let mut backend = Backend::new();
    backend.set_store_online(false);
    let checker = SessionChecker::new(500);
    assert_eq!(
        authenticate(&mut backend, &checker, &Credential::Malformed),
        Action::Respond(Response::fail(Error::ValidationError))
    );
}

#[test]
fn the_three_rejections_are_told_apart() {
    let mut backend = Backend::new();
    let checker = SessionChecker::new(500);
    let absent = authenticate(&mut backend, &checker, &Credential::Absent);
    let malformed = authenticate(&mut backend, &checker, &Credential::Malformed);
    let gone = authenticate(&mut backend, &checker, &Credential::Username("ghost".to_string()));
    assert_ne!(absent, malformed);
    assert_ne!(absent, gone);
    assert_ne!(malformed, gone);
    assert_eq!(gone, stale());
}
