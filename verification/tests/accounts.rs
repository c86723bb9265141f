use fightingtinder::backend::Backend;
use fightingtinder::db::{DBUser, PublicUser};
use fightingtinder::accounts::{log_in, register};
use fightingtinder::error::Error;
use fightingtinder::exchange::{
    Action, Body, Change, Effect, Outcome, Phase, Response, SessionChange,
};
use fightingtinder::password::{
    accept_hash, check_password, hash_password, holds_zero_byte, HASH_COST,
};
use fightingtinder::paths::users::{
    check_login, create_user, create_user_with, get_user, get_users, login, login_verdict, logout,
    set_bio, set_location, BioDTO, LatLongDTO, UserDTO,
};

const KNOWN_HASH: &str = "$2b$04$EGdrhbKUv8Oc9vGiXX0HQOxSg445d458Muh7DAHskb6QbtCvdxcie";

fn dto(name: &str, password: &str) -> UserDTO {
    UserDTO { username: name.to_string(), password: password.to_string() }
}

fn fail(error: Error) -> Action {
    Action::Respond(Response::fail(error))
}

fn welcome(name: &str, body: Body) -> Response {
    Response { result: Ok(body), session: SessionChange::Issue(name.to_string()) }
}

#[test]
fn new_passwords_are_hashed_with_cost_ten() {
    assert_eq!(HASH_COST, 10);
    let hash = hash_password("pw1").unwrap();
    assert!(hash.starts_with("$2b$10$"), "{}", hash);
    assert_eq!(hash.len(), 60);
}

#[test]
fn a_hash_is_not_the_password_and_differs_from_call_to_call() {
    let first = hash_password("hunter2").unwrap();
    let second = hash_password("hunter2").unwrap();
    assert_ne!(first, "hunter2");
    assert_ne!(first, second);
}

#[test]
fn a_password_checks_against_its_own_hash_only() {
    let hash = hash_password("hunter2").unwrap();
    assert_eq!(check_password("hunter2", &hash), Some(true));
    assert_eq!(check_password("hunter3", &hash), Some(false));
    assert_eq!(check_password("", &hash), Some(false));
}

#[test]
fn a_known_hash_is_checked_as_bcrypt_does() {
    assert_eq!(check_password("correctbatteryhorsestapler", KNOWN_HASH), Some(true));
    assert_eq!(check_password("wrong", KNOWN_HASH), Some(false));
}

#[test]
fn a_password_with_a_zero_byte_cannot_be_hashed_or_checked() {
    assert_eq!(hash_password("pass\0word"), None);
    assert_eq!(check_password("pass\0word", KNOWN_HASH), None);
}

#[test]
fn a_malformed_hash_gives_no_verdict() {
    assert_eq!(check_password("pw", ""), None);
    assert_eq!(check_password("pw", "plain"), None);
    assert_eq!(check_password("pw", "$2y$12$tooshort"), None);
    assert_eq!(
        check_password("pw", "$9z$04$EGdrhbKUv8Oc9vGiXX0HQOxSg445d458Muh7DAHskb6QbtCvdxcie"),
        None
    );
    assert_eq!(
        check_password("pw", "$2b$99$EGdrhbKUv8Oc9vGiXX0HQOxSg445d458Muh7DAHskb6QbtCvdxcie"),
        None
    );
}

#[test]
fn a_hash_that_is_not_ascii_gives_no_verdict() {
    let hash = format!("$2b$04${}\u{e9}{}", "L".repeat(21), "u".repeat(30));
    assert_eq!(hash.len() - 7, 53);
    assert_eq!(check_password("pw", &hash), None);
}

#[test]
fn a_login_is_decided_by_the_verdict_on_the_password() {
    let alice = || DBUser::new("alice".to_string(), "hash".to_string());
    assert_eq!(login_verdict(alice(), Some(true)), welcome("alice", Body::Empty));
    assert_eq!(login_verdict(alice(), Some(false)), Response::fail(Error::InvalidLogin));
    assert_eq!(login_verdict(alice(), None), Response::fail(Error::HashFailure));
}

#[test]
fn registration_with_a_given_hash_adds_the_bare_account() {
    let credentials = dto("alice", "pw1");
    let next = create_user_with(&credentials, Some("the-hash".to_string()), Phase::Start, None);
    let user = DBUser::new("alice".to_string(), "the-hash".to_string());
    assert_eq!(next, (Phase::Waiting, Action::Perform(Effect::InsertUser { user })));
    let next = create_user_with(&credentials, None, Phase::Start, None);
    assert_eq!(next, (Phase::Done, fail(Error::HashFailure)));
}

#[test]
fn registration_stores_a_hash_of_the_password() {
    let credentials = dto("alice", "pw1");
    match create_user(&credentials, Phase::Start, None) {
        (Phase::Waiting, Action::Perform(Effect::InsertUser { user })) => {
            assert_eq!(user.username, "alice");
            assert_ne!(user.password, "pw1");
            assert_eq!(check_password("pw1", &user.password), Some(true));
            assert_eq!(user, DBUser::new("alice".to_string(), user.password.clone()));
        },
        other => panic!("{:?}", other),
    }
}

#[test]
fn registration_with_an_unusable_password_fails() {
    let credentials = dto("alice", "pw\0");
    assert_eq!(create_user(&credentials, Phase::Start, None), (Phase::Done, fail(Error::HashFailure)));
}

#[test]
fn registration_answers_with_the_public_account_and_a_credential() {
    let credentials = dto("alice", "pw1");
    let mut stored = DBUser::new("alice".to_string(), "the-hash".to_string());
    stored.bio = Some("hello".to_string());
    let shown = stored.public();
    let next = create_user(&credentials, Phase::Waiting, Some(Outcome::User(stored)));
    assert_eq!(next, (Phase::Done, Action::Respond(welcome("alice", Body::User(shown)))));
    assert_eq!(
        create_user(&credentials, Phase::Waiting, Some(Outcome::Conflict)),
        (Phase::Done, fail(Error::UsernameTaken))
    );
    assert_eq!(
        create_user(&credentials, Phase::Waiting, Some(Outcome::Failed)),
        (Phase::Done, fail(Error::StoreUnavailable))
    );
    assert_eq!(
        create_user(&credentials, Phase::Waiting, Some(Outcome::Unavailable)),
        (Phase::Done, fail(Error::StoreUnavailable))
    );
    assert_eq!(
        create_user(&credentials, Phase::Waiting, Some(Outcome::Done)),
        (Phase::Waiting, Action::Idle)
    );
    assert_eq!(create_user(&credentials, Phase::Done, None), (Phase::Done, Action::Idle));
}

#[test]
fn who_has_registered_can_log_in() {
    let mut backend = Backend::new();
    let joined = register(&mut backend, &dto("alice", "pw1"));
    let shown = PublicUser { username: "alice".to_string(), lat: None, long: None, bio: None };
    assert_eq!(joined, welcome("alice", Body::User(shown)));
    assert_eq!(log_in(&mut backend, &dto("alice", "pw1")), welcome("alice", Body::Empty));
}

#[test]
fn a_wrong_password_and_an_unknown_name_are_refused_alike() {
    let mut backend = Backend::new();
    assert!(register(&mut backend, &dto("alice", "pw1")).result.is_ok());
    let refused = Response::fail(Error::InvalidLogin);
    assert_eq!(log_in(&mut backend, &dto("alice", "pw2")), refused);
    assert_eq!(log_in(&mut backend, &dto("bob", "pw1")), refused);
    assert_eq!(refused.status(), 400);
}

#[test]
fn a_taken_name_cannot_be_registered_again() {
    let mut backend = Backend::new();
    assert!(register(&mut backend, &dto("alice", "pw1")).result.is_ok());
    assert_eq!(register(&mut backend, &dto("alice", "other")), Response::fail(Error::UsernameTaken));
    assert_eq!(log_in(&mut backend, &dto("alice", "pw1")), welcome("alice", Body::Empty));
    assert_eq!(log_in(&mut backend, &dto("alice", "other")), Response::fail(Error::InvalidLogin));
}

#[test]
fn registration_and_login_fail_while_the_store_is_unreachable() {
    let mut backend = Backend::new();
    backend.set_store_online(false);
    let down = Response::fail(Error::StoreUnavailable);
    assert_eq!(register(&mut backend, &dto("alice", "pw1")), down);
    assert_eq!(log_in(&mut backend, &dto("alice", "pw1")), down);
    backend.set_store_online(true);
    assert_eq!(log_in(&mut backend, &dto("alice", "pw1")), Response::fail(Error::InvalidLogin));
}

#[test]
fn a_stored_hash_that_is_no_hash_fails_the_login() {
    let mut backend = Backend::new();
    let user = DBUser::new("alice".to_string(), "not-a-hash".to_string());
    assert!(matches!(backend.perform(Effect::InsertUser { user }), Outcome::User(_)));
    assert_eq!(log_in(&mut backend, &dto("alice", "pw1")), Response::fail(Error::HashFailure));
}

#[test]
fn the_login_looks_the_account_up_and_checks_the_password() {
    let credentials = dto("alice", "correctbatteryhorsestapler");
    assert_eq!(
        login(&credentials, Phase::Start, None),
        (Phase::Waiting, Action::Perform(Effect::FindUser { username: "alice".to_string() }))
    );
    let stored = || DBUser::new("alice".to_string(), KNOWN_HASH.to_string());
    assert_eq!(
        login(&credentials, Phase::Waiting, Some(Outcome::User(stored()))),
        (Phase::Done, Action::Respond(welcome("alice", Body::Empty)))
    );
    assert_eq!(
        login(&dto("alice", "wrong"), Phase::Waiting, Some(Outcome::User(stored()))),
        (Phase::Done, fail(Error::InvalidLogin))
    );
    assert_eq!(
        login(&credentials, Phase::Waiting, Some(Outcome::Absent)),
        (Phase::Done, fail(Error::InvalidLogin))
    );
    assert_eq!(
        login(&credentials, Phase::Waiting, Some(Outcome::Failed)),
        (Phase::Done, fail(Error::StoreUnavailable))
    );
    assert_eq!(
        login(&credentials, Phase::Waiting, Some(Outcome::Unavailable)),
        (Phase::Done, fail(Error::StoreUnavailable))
    );
    assert_eq!(login(&credentials, Phase::Waiting, None), (Phase::Waiting, Action::Idle));
    assert_eq!(login(&credentials, Phase::Done, None), (Phase::Done, Action::Idle));
}

#[test]
fn logout_invalidates_the_credential() {
    assert_eq!(logout(), Response { result: Ok(Body::Empty), session: SessionChange::Revoke });
    assert_eq!(logout().status(), 200);
}

#[test]
fn the_account_list_shows_public_fields_of_all() {
    assert_eq!(get_users(Phase::Start, None), (Phase::Waiting, Action::Perform(Effect::ListUsers)));
    let alice = DBUser::new("alice".to_string(), "h1".to_string());
    let bob = DBUser::new("bob".to_string(), "h2".to_string());
    let shown = vec![alice.public(), bob.public()];
    assert_eq!(
        get_users(Phase::Waiting, Some(Outcome::Users(vec![alice, bob]))),
        (Phase::Done, Action::Respond(Response::ok(Body::Users(shown))))
    );
    assert_eq!(
        get_users(Phase::Waiting, Some(Outcome::Unavailable)),
        (Phase::Done, fail(Error::StoreUnavailable))
    );
    assert_eq!(
        get_users(Phase::Waiting, Some(Outcome::Failed)),
        (Phase::Done, fail(Error::StoreUnavailable))
    );
    assert_eq!(get_users(Phase::Waiting, Some(Outcome::Done)), (Phase::Waiting, Action::Idle));
    assert_eq!(get_users(Phase::Done, None), (Phase::Done, Action::Idle));
}

#[test]
fn the_session_check_shows_the_account_as_stored_now() {
    let alice = DBUser::new("alice".to_string(), "h1".to_string());
    assert_eq!(
        check_login(&alice, Phase::Start, None),
        (Phase::Waiting, Action::Perform(Effect::FindUser { username: "alice".to_string() }))
    );
    let mut now = DBUser::new("alice".to_string(), "h1".to_string());
    now.bio = Some("new".to_string());
    let shown = now.public();
    assert_eq!(
        check_login(&alice, Phase::Waiting, Some(Outcome::User(now))),
        (Phase::Done, Action::Respond(Response::ok(Body::User(shown))))
    );
    assert_eq!(
        check_login(&alice, Phase::Waiting, Some(Outcome::Absent)),
        (Phase::Done, fail(Error::NotFound))
    );
    assert_eq!(
        check_login(&alice, Phase::Waiting, Some(Outcome::Failed)),
        (Phase::Done, fail(Error::StoreUnavailable))
    );
    assert_eq!(
        check_login(&alice, Phase::Waiting, Some(Outcome::Unavailable)),
        (Phase::Done, fail(Error::StoreUnavailable))
    );
    assert_eq!(check_login(&alice, Phase::Waiting, None), (Phase::Waiting, Action::Idle));
}

#[test]
fn setting_the_location_sets_both_coordinates() {
    let alice = DBUser::new("alice".to_string(), "h1".to_string());
    let latlong = LatLongDTO { lat: f64::to_bits(48.2), long: f64::to_bits(16.4) };
    assert_eq!(
        set_location(&alice, &latlong, Phase::Start, None),
        (
            Phase::Waiting,
            Action::Perform(Effect::UpdateUser {
                username: "alice".to_string(),
                change: Change::Location { lat: f64::to_bits(48.2), long: f64::to_bits(16.4) }
            })
        )
    );
    assert_eq!(
        set_location(&alice, &latlong, Phase::Waiting, Some(Outcome::Done)),
        (Phase::Done, Action::Respond(Response::ok(Body::Empty)))
    );
    assert_eq!(
        set_location(&alice, &latlong, Phase::Waiting, Some(Outcome::Absent)),
        (Phase::Done, fail(Error::NotFound))
    );
    assert_eq!(
        set_location(&alice, &latlong, Phase::Waiting, Some(Outcome::Unavailable)),
        (Phase::Done, fail(Error::StoreUnavailable))
    );
    assert_eq!(
        set_location(&alice, &latlong, Phase::Waiting, Some(Outcome::Failed)),
        (Phase::Done, fail(Error::StoreUnavailable))
    );
}

#[test]
fn setting_the_bio_sets_the_text() {
    let alice = DBUser::new("alice".to_string(), "h1".to_string());
    let bio = BioDTO { bio: "hello there".to_string() };
    assert_eq!(
        set_bio(&alice, &bio, Phase::Start, None),
        (
            Phase::Waiting,
            Action::Perform(Effect::UpdateUser {
                username: "alice".to_string(),
                change: Change::Bio("hello there".to_string())
            })
        )
    );
    assert_eq!(
        set_bio(&alice, &bio, Phase::Waiting, Some(Outcome::Done)),
        (Phase::Done, Action::Respond(Response::ok(Body::Empty)))
    );
    assert_eq!(
        set_bio(&alice, &bio, Phase::Waiting, Some(Outcome::Absent)),
        (Phase::Done, fail(Error::NotFound))
    );
    assert_eq!(set_bio(&alice, &bio, Phase::Done, None), (Phase::Done, Action::Idle));
}

#[test]
fn a_change_touches_its_own_fields_only() {
    let mut alice = DBUser::new("alice".to_string(), "h1".to_string());
    alice.bio = Some("old".to_string());
    let moved = Change::Location { lat: 1, long: 2 }.apply(&alice);
    assert_eq!(moved.lat, Some(1));
    assert_eq!(moved.long, Some(2));
    assert_eq!(moved.bio, Some("old".to_string()));
    assert_eq!(moved.username, "alice");
    assert_eq!(moved.password, "h1");
    let told = Change::Bio("new".to_string()).apply(&moved);
    assert_eq!(told.bio, Some("new".to_string()));
    assert_eq!(told.lat, Some(1));
    let shot = Change::ProfilePic("p".to_string()).apply(&told);
    assert_eq!(shot.profile_pic, Some("p".to_string()));
    assert_eq!(shot.bio, Some("new".to_string()));
    assert_eq!(alice.lat, None);
}

#[test]
fn a_single_profile_is_shown_without_its_hash() {
    assert_eq!(
        get_user("bob", Phase::Start, None),
        (Phase::Waiting, Action::Perform(Effect::FindUser { username: "bob".to_string() }))
    );
    let mut bob = DBUser::new("bob".to_string(), "h2".to_string());
    bob.lat = Some(f64::to_bits(3.5));
    bob.long = Some(f64::to_bits(4.5));
    bob.profile_pic = Some("./profile_pics/bob".to_string());
    let shown = PublicUser {
        username: "bob".to_string(),
        lat: Some(f64::to_bits(3.5)),
        long: Some(f64::to_bits(4.5)),
        bio: None,
    };
    assert_eq!(
        get_user("bob", Phase::Waiting, Some(Outcome::User(bob))),
        (Phase::Done, Action::Respond(Response::ok(Body::User(shown))))
    );
    assert_eq!(
        get_user("bob", Phase::Waiting, Some(Outcome::Absent)),
        (Phase::Done, fail(Error::NotFound))
    );
    assert_eq!(
        get_user("bob", Phase::Waiting, Some(Outcome::Unavailable)),
        (Phase::Done, fail(Error::StoreUnavailable))
    );
    assert_eq!(
        get_user("bob", Phase::Waiting, Some(Outcome::Failed)),
        (Phase::Done, fail(Error::StoreUnavailable))
    );
    assert_eq!(get_user("bob", Phase::Waiting, None), (Phase::Waiting, Action::Idle));
    assert_eq!(get_user("bob", Phase::Done, None), (Phase::Done, Action::Idle));
}

#[test]
fn a_zero_byte_is_found_wherever_it_stands() {
    assert!(holds_zero_byte("\0"));
    assert!(holds_zero_byte("\0abc"));
    assert!(holds_zero_byte("ab\0c"));
    assert!(holds_zero_byte("abc\0"));
    assert!(holds_zero_byte("\u{e9}\0\u{4e2d}"));
    assert!(!holds_zero_byte(""));
    assert!(!holds_zero_byte("abc"));
    assert!(!holds_zero_byte("0"));
    assert!(!holds_zero_byte("\u{e9}t\u{e9} \u{4e2d}\u{100}"));
}

#[test]
fn a_password_with_a_zero_byte_is_refused_wherever_the_byte_stands() {
    for password in ["\0", "\0pw", "p\0w", "pw\0"] {
        assert_eq!(hash_password(password), None, "{:?}", password);
    }
    assert!(hash_password("").is_some());
    assert!(hash_password("0").is_some());
}

#[test]
fn a_hash_from_bcrypt_is_kept_as_it_is() {
    let hash = "$2b$04$EGdrhbKUv8Oc9vGiXX0HQOxSg445d458Muh7DAHskb6QbtCvdxcie".to_string();
    assert_eq!(accept_hash(Ok(hash.clone())), Some(hash));
    assert_eq!(accept_hash(Ok(String::new())), Some(String::new()));
    assert_eq!(accept_hash(Ok("plain".to_string())), Some("plain".to_string()));
}

#[test]
fn a_hash_that_is_not_ascii_is_not_kept() {
    assert_eq!(accept_hash(Ok("$2b$10$\u{e9}".to_string())), None);
    assert_eq!(accept_hash(Ok("\u{4e2d}".to_string())), None);
}

#[test]
fn an_error_of_bcrypt_leaves_no_hash() {
    assert_eq!(accept_hash(Err(bcrypt::BcryptError::InvalidPassword)), None);
    assert_eq!(accept_hash(Err(bcrypt::BcryptError::CostNotAllowed(99))), None);
    assert_eq!(accept_hash(Err(bcrypt::BcryptError::InvalidHash("x".to_string()))), None);
}
