//! What holds of the session guard and of accounts.

use vstd::prelude::*;
use crate::accounts::{admitted, logged_in, registered, run_guard};
use crate::auth::{guard_model, stale_response, AuthState, CredentialView};
use crate::backend::BackendView;
use crate::db::UserRow;
use crate::error::Error;
use crate::exchange::{
    ActionView, BodyView, ChangeView, EffectView, OutcomeView, Phase, ResponseView,
};
use crate::media::{pictured, uploaded};
use crate::password::password_verdict;
use crate::paths::users::{
    create_user_model, get_user_model, get_user_pic_model, get_users_model, login_model,
    picture_path_of, update_model, upload_profile_pic_model, welcome, PictureStateView,
    UploadStep, UserDTOView,
};
use crate::tables::{lemma_filter_push, lemma_found_user, lemma_user_in, named, user_in};
use crate::theorems::store::theorem_keys_stay_unique;

verus! {

/// The guard, for every backend that can be reached and every credential:
/// a request without a credential is turned away as such, and one whose
/// credential cannot be read as invalid; one whose credential names no
/// account is turned away as stale and its credential invalidated; one
/// whose credential names an account passes with that very account
/// attached. The guard changes nothing, so the same request meets the same
/// decision again, and a request that has dropped the invalidated
/// credential is turned away as well.
pub proof fn theorem_guard(backend: BackendView, credential: CredentialView)
    requires
        backend.store_online,
    ensures
        run_guard(backend, credential, AuthState::Unauthenticated, None) == (
            backend,
            admitted(backend, credential),
        ),
        credential is Absent ==> admitted(backend, credential) == ActionView::Respond(
            ResponseView::fail(Error::MissingCredential),
        ),
        credential is Malformed ==> admitted(backend, credential) == ActionView::Respond(
            ResponseView::fail(Error::ValidationError),
        ),
        credential is Username && (forall|i: int|
            0 <= i < backend.users.len() ==> (#[trigger] backend.users[i]).username
                != credential->Username_0) ==> admitted(backend, credential)
            == ActionView::Respond(stale_response()) && admitted(
            backend,
            CredentialView::Absent,
        ) is Respond,
        credential is Username && (exists|i: int|
            0 <= i < backend.users.len() && (#[trigger] backend.users[i]).username
                == credential->Username_0) ==> admitted(backend, credential) is Forward
            && admitted(backend, credential)->Forward_0.username == credential->Username_0
            && backend.users.contains(admitted(backend, credential)->Forward_0),
{
    reveal_with_fuel(run_guard, 3);
    if let CredentialView::Username(name) = credential {
        if user_in(backend.users, name) is Some {
            lemma_found_user(backend.users, name);
            let user = user_in(backend.users, name)->0;
            let i = choose|i: int| 0 <= i < backend.users.len() && backend.users[i] == user;
            assert(backend.users[i].username == name);
        } else {
            if exists|i: int|
                0 <= i < backend.users.len() && (#[trigger] backend.users[i]).username == name {
                let i = choose|i: int|
                    0 <= i < backend.users.len() && (#[trigger] backend.users[i]).username == name;
                lemma_user_in(backend.users, i);
            }
        }
    }
}

/// While the store cannot be reached the guard lets nothing pass, and it
/// reports that as a failure of the store, not of the credential.
pub proof fn theorem_guard_without_store(backend: BackendView, credential: CredentialView)
    requires
        !backend.store_online,
    ensures
        run_guard(backend, credential, AuthState::Unauthenticated, None) == (
            backend,
            admitted(backend, credential),
        ),
        admitted(backend, credential) is Respond,
        credential is Username ==> admitted(backend, credential) == ActionView::Respond(
            ResponseView::fail(Error::StoreUnavailable),
        ),
{
    reveal_with_fuel(run_guard, 3);
}

/// Who has registered can log in: after a registration that was accepted,
/// a login with the same name and password is answered with a credential
/// for that name.
pub proof fn theorem_register_then_login(
    backend: BackendView,
    credentials: UserDTOView,
    hash: Seq<char>,
)
    requires
        password_verdict(credentials.password, hash) == Some(true),
        registered(backend, credentials, Some(hash)).1.result is Ok,
    ensures
        logged_in(registered(backend, credentials, Some(hash)).0, credentials) == welcome(
            credentials.username,
            BodyView::Empty,
        ),
{
    let user = UserRow::fresh(credentials.username, hash);
    lemma_filter_push(backend.users, user, named(credentials.username));
    assert(backend.users.filter(named(credentials.username)).push(user)[0] == user);
}

/// Registering, storing a picture and fetching one keep the tables sound.
pub proof fn theorem_accounts_keep_invariants(
    backend: BackendView,
    credentials: UserDTOView,
    hashed: Option<Seq<char>>,
    username: Seq<char>,
    upload: Option<Seq<u8>>,
)
    requires
        backend.sound(),
    ensures
        registered(backend, credentials, hashed).0.sound(),
        uploaded(backend, username, upload).0.sound(),
        pictured(backend, username).0.sound(),
{
    if let Some(hash) = hashed {
        theorem_keys_stay_unique(
            backend,
            EffectView::InsertUser { user: UserRow::fresh(credentials.username, hash) },
        );
    }
    theorem_keys_stay_unique(
        backend,
        EffectView::UpdateUser {
            username,
            change: ChangeView::ProfilePic(picture_path_of(username)),
        },
    );
}

/// The session guard and the handlers of accounts and pictures never
/// stall either.
pub proof fn theorem_accounts_move_on(
    user: UserRow,
    credential: CredentialView,
    credentials: UserDTOView,
    hashed: Option<Seq<char>>,
    change: ChangeView,
    upload: Option<Seq<u8>>,
    auth: AuthState,
    phase: Phase,
    picture: PictureStateView,
    step: UploadStep,
    event: Option<OutcomeView>,
    outcome: OutcomeView,
)
    ensures
        guard_model(credential, auth, event).1 matches ActionView::Perform(effect)
            && effect.answered_by(outcome) ==> !(guard_model(
            credential,
            guard_model(credential, auth, event).0,
            Some(outcome),
        ).1 is Idle),
        get_users_model(phase, event).1 matches ActionView::Perform(effect) && effect.answered_by(
            outcome,
        ) ==> !(get_users_model(get_users_model(phase, event).0, Some(outcome)).1 is Idle),
        get_user_model(user.username, phase, event).1 matches ActionView::Perform(effect)
            && effect.answered_by(outcome) ==> !(get_user_model(
            user.username,
            get_user_model(user.username, phase, event).0,
            Some(outcome),
        ).1 is Idle),
        get_user_pic_model(user.username, picture, event).1 matches ActionView::Perform(effect)
            && effect.answered_by(outcome) ==> !(get_user_pic_model(
            user.username,
            get_user_pic_model(user.username, picture, event).0,
            Some(outcome),
        ).1 is Idle),
        upload_profile_pic_model(user, upload, step, event).1 matches ActionView::Perform(effect)
            && effect.answered_by(outcome) ==> !(upload_profile_pic_model(
            user,
            upload,
            upload_profile_pic_model(user, upload, step, event).0,
            Some(outcome),
        ).1 is Idle),
        create_user_model(credentials, hashed, phase, event).1 matches ActionView::Perform(effect)
            && effect.answered_by(outcome) ==> !(create_user_model(
            credentials,
            hashed,
            create_user_model(credentials, hashed, phase, event).0,
            Some(outcome),
        ).1 is Idle),
        login_model(credentials, phase, event).1 matches ActionView::Perform(effect)
            && effect.answered_by(outcome) ==> !(login_model(
            credentials,
            login_model(credentials, phase, event).0,
            Some(outcome),
        ).1 is Idle),
        update_model(user, change, phase, event).1 matches ActionView::Perform(effect)
            && effect.answered_by(outcome) ==> !(update_model(
            user,
            change,
            update_model(user, change, phase, event).0,
            Some(outcome),
        ).1 is Idle),
{
}

} // verus!
