//! What holds of the service as a whole.

use vstd::prelude::*;
use crate::accounts::admitted;
use crate::auth::CredentialView;
use crate::backend::BackendView;
use crate::db::UserRow;
use crate::error::Error;
use crate::exchange::{ActionView, ChangeView, EffectView, ResponseView};
use crate::paths::users::UserDTOView;
use crate::service::RequestView;
use crate::tables::{joined, lemma_filter_push, lemma_found_user, named};
use crate::theorems::accounts::theorem_accounts_keep_invariants;
use crate::theorems::engine::{
    theorem_recording_keeps_invariants, theorem_unmatching_keeps_invariants,
};
use crate::theorems::store::theorem_keys_stay_unique;

verus! {

/// A protected request that the guard turns away reaches no handler: the
/// guard's answer is the answer, and the backend stays as it is.
pub proof fn theorem_rejected_request_changes_nothing(
    backend: BackendView,
    credential: CredentialView,
    request: RequestView,
    hashed: Option<Seq<char>>,
)
    requires
        request.protected(),
        admitted(backend, credential) is Respond,
    ensures
        request.served(backend, credential, hashed) == (
            backend,
            admitted(backend, credential)->Respond_0,
        ),
        request.served(backend, credential, hashed).1.result is Err,
{
}

/// Whatever is asked of the service, its tables stay sound.
pub proof fn theorem_service_keeps_invariants(
    backend: BackendView,
    credential: CredentialView,
    request: RequestView,
    hashed: Option<Seq<char>>,
)
    requires
        backend.sound(),
    ensures
        request.served(backend, credential, hashed).0.sound(),
{
    let after = request.served(backend, credential, hashed).0;
    match request {
        RequestView::CreateUser(credentials) => {
            theorem_accounts_keep_invariants(backend, credentials, hashed, Seq::empty(), None);
        },
        RequestView::GetUserPic(username) => {
            theorem_accounts_keep_invariants(
                backend,
                UserDTOView { username, password: username },
                None,
                username,
                None,
            );
        },
        _ => {
            if let ActionView::Forward(user) = admitted(backend, credential) {
                let name = user.username;
                match request {
                    RequestView::SetLocation(latlong) => {
                        theorem_keys_stay_unique(
                            backend,
                            EffectView::UpdateUser {
                                username: name,
                                change: ChangeView::Location {
                                    lat: latlong.lat,
                                    long: latlong.long,
                                },
                            },
                        );
                    },
                    RequestView::SetBio(bio) => {
                        theorem_keys_stay_unique(
                            backend,
                            EffectView::UpdateUser { username: name, change: ChangeView::Bio(bio) },
                        );
                    },
                    RequestView::UploadProfilePic(upload) => {
                        theorem_accounts_keep_invariants(
                            backend,
                            UserDTOView { username: name, password: name },
                            None,
                            name,
                            upload,
                        );
                    },
                    RequestView::Swipe(swipe) => {
                        theorem_recording_keeps_invariants(backend, name, swipe);
                    },
                    RequestView::DeleteMatch(other) => {
                        theorem_unmatching_keeps_invariants(backend, name, other);
                    },
                    _ => {},
                }
            }
        },
    }
}

/// Who registers or logs in gets a credential that passes the guard, with
/// the account of that name attached; who logs out is left without one,
/// and every protected request of theirs is turned away for want of a
/// credential, whatever credential they had before.
pub proof fn theorem_sessions(
    backend: BackendView,
    credentials: UserDTOView,
    hashed: Option<Seq<char>>,
    before: CredentialView,
    request: RequestView,
)
    requires
        request.protected(),
    ensures
        ({
            let joined = RequestView::CreateUser(credentials).served(backend, before, hashed);
            joined.1.result is Ok ==> {
                let credential = joined.1.session.apply(before);
                &&& credential == CredentialView::Username(credentials.username)
                &&& admitted(joined.0, credential) is Forward
                &&& admitted(joined.0, credential)->Forward_0.username == credentials.username
            }
        }),
        ({
            let entered = RequestView::Login(credentials).served(backend, before, hashed);
            entered.1.result is Ok ==> {
                let credential = entered.1.session.apply(before);
                &&& credential == CredentialView::Username(credentials.username)
                &&& admitted(entered.0, credential) is Forward
                &&& admitted(entered.0, credential)->Forward_0.username == credentials.username
            }
        }),
        ({
            let left = RequestView::Logout.served(backend, before, hashed);
            let credential = left.1.session.apply(before);
            &&& left.0 == backend
            &&& credential == CredentialView::Absent
            &&& request.served(backend, credential, hashed) == (
                backend,
                ResponseView::fail(Error::MissingCredential),
            )
        }),
{
    let joined = RequestView::CreateUser(credentials).served(backend, before, hashed);
    if joined.1.result is Ok {
        let user = UserRow::fresh(credentials.username, hashed->0);
        lemma_filter_push(backend.users, user, named(credentials.username));
        assert(backend.users.filter(named(credentials.username)).push(user)[0] == user);
    }
    let entered = RequestView::Login(credentials).served(backend, before, hashed);
    if entered.1.result is Ok {
        lemma_found_user(backend.users, credentials.username);
    }
}

} // verus!
