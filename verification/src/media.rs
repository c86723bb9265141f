//! Profile pictures on the in-memory backend: fetching through the cache
//! and storing with invalidation, each run to its end and stated in one
//! piece.

use vstd::prelude::*;
use crate::backend::{Backend, BackendView};
use crate::db::{DBUser, UserRow};
use crate::error::Error;
use crate::exchange::{
    Action, ActionView, BodyView, ChangeView, Outcome, OutcomeView, Response, ResponseView,
};
use crate::paths::users::{
    get_user_pic, get_user_pic_model, picture_path_of, upload_profile_pic,
    upload_profile_pic_model, upload_view, PictureState, PictureStateView, UploadStep,
};
use crate::tables::{changing, user_in};

verus! {

/// How many pieces of outside work the fetching of a picture may still need.
pub open spec fn picture_rank(state: PictureStateView) -> nat {
    match state {
        PictureStateView::Start => 5,
        PictureStateView::Resolving => 4,
        PictureStateView::Probing { .. } => 3,
        PictureStateView::Reading => 2,
        PictureStateView::Filling { .. } => 1,
        PictureStateView::Done => 0,
    }
}

/// The fetching of a picture run to its end on the backend.
pub open spec fn run_picture(
    backend: BackendView,
    username: Seq<char>,
    state: PictureStateView,
    event: Option<OutcomeView>,
) -> (BackendView, ResponseView)
    decreases picture_rank(state),
{
    let (next, action) = get_user_pic_model(username, state, event);
    match action {
        ActionView::Perform(effect) => {
            let (after, outcome) = backend.perform(effect);
            run_picture(after, username, next, Some(outcome))
        },
        ActionView::Respond(response) => (backend, response),
        _ => (backend, ResponseView::fail(Error::IOError)),
    }
}

/// What fetching the picture of `username` does to the backend, and the
/// answer.
///
/// Nothing is found for an unknown user or one without a picture. What the
/// cache holds under the user's name is the answer. If it holds nothing,
/// the blob at the recorded path is the answer and is put into the cache.
pub open spec fn pictured(backend: BackendView, username: Seq<char>) -> (
    BackendView,
    ResponseView,
) {
    if !backend.store_online {
        (backend, ResponseView::fail(Error::StoreUnavailable))
    } else {
        match user_in(backend.users, username) {
            None => (backend, ResponseView::fail(Error::NotFound)),
            Some(user) => match user.profile_pic {
                None => (backend, ResponseView::fail(Error::NotFound)),
                Some(path) => if !backend.cache_online {
                    (backend, ResponseView::fail(Error::StoreUnavailable))
                } else if backend.cache.contains_key(username) {
                    (backend, ResponseView::ok(BodyView::Picture(backend.cache[username])))
                } else if !backend.blobs_online {
                    (backend, ResponseView::fail(Error::StoreUnavailable))
                } else if !backend.blobs.contains_key(path) {
                    (backend, ResponseView::fail(Error::NotFound))
                } else {
                    (
                        BackendView {
                            cache: backend.cache.insert(username, backend.blobs[path]),
                            ..backend
                        },
                        ResponseView::ok(BodyView::Picture(backend.blobs[path])),
                    )
                },
            },
        }
    }
}

/// Fetches the profile picture of the user named `username`.
pub fn get_profile_picture(backend: &mut Backend, username: &str) -> (response: Response)
    ensures
        (final(backend)@, response@) == pictured(old(backend)@, username@),
{
    let mut state = PictureState::Start;
    let mut event: Option<Outcome> = None;
    proof {
        reveal_with_fuel(run_picture, 6);
    }
    loop
        invariant
            run_picture(backend@, username@, state@, event.deep_view()) == pictured(
                old(backend)@,
                username@,
            ),
        decreases picture_rank(state@),
    {
        let (next, action) = get_user_pic(username, state, event);
        match action {
            Action::Perform(effect) => {
                event = Some(backend.perform(effect));
                state = next;
            },
            Action::Respond(response) => {
                return response;
            },
            _ => {
                return Response::fail(Error::IOError);
            },
        }
    }
}

/// How many pieces of outside work the storing of a picture may still need.
pub open spec fn upload_rank(state: UploadStep) -> nat {
    match state {
        UploadStep::Start => 4,
        UploadStep::Writing => 3,
        UploadStep::Referencing => 2,
        UploadStep::Invalidating => 1,
        UploadStep::Done => 0,
    }
}

/// The storing of a picture run to its end on the backend.
pub open spec fn run_upload(
    backend: BackendView,
    user: UserRow,
    upload: Option<Seq<u8>>,
    state: UploadStep,
    event: Option<OutcomeView>,
) -> (BackendView, ResponseView)
    decreases upload_rank(state),
{
    let (next, action) = upload_profile_pic_model(user, upload, state, event);
    match action {
        ActionView::Perform(effect) => {
            let (after, outcome) = backend.perform(effect);
            run_upload(after, user, upload, next, Some(outcome))
        },
        ActionView::Respond(response) => (backend, response),
        _ => (backend, ResponseView::fail(Error::IOError)),
    }
}

/// What storing a new picture for `username` does to the backend, and the
/// answer.
///
/// The blob is written first, then its path is recorded on the account,
/// then the cache entry of the user is dropped. A step that fails ends the
/// operation and leaves what the steps before it did; only the dropping of
/// the cache entry may fail without failing the operation.
pub open spec fn uploaded(backend: BackendView, username: Seq<char>, upload: Option<Seq<u8>>) -> (
    BackendView,
    ResponseView,
) {
    match upload {
        None => (backend, ResponseView::fail(Error::ValidationError)),
        Some(bytes) => if !backend.blobs_online {
            (backend, ResponseView::fail(Error::StoreUnavailable))
        } else {
            let path = picture_path_of(username);
            let written = BackendView { blobs: backend.blobs.insert(path, bytes), ..backend };
            if !backend.store_online {
                (written, ResponseView::fail(Error::StoreUnavailable))
            } else if user_in(backend.users, username) is None {
                (written, ResponseView::fail(Error::NotFound))
            } else {
                let recorded = BackendView {
                    users: backend.users.map_values(
                        changing(username, ChangeView::ProfilePic(path)),
                    ),
                    ..written
                };
                if backend.cache_online {
                    (
                        BackendView { cache: backend.cache.remove(username), ..recorded },
                        ResponseView::ok(BodyView::Empty),
                    )
                } else {
                    (recorded, ResponseView::ok(BodyView::Empty))
                }
            }
        },
    }
}

/// Stores a new profile picture for `user`.
pub fn upload_profile_picture(
    backend: &mut Backend,
    user: &DBUser,
    upload: &Option<Vec<u8>>,
) -> (response: Response)
    ensures
        (final(backend)@, response@) == uploaded(
            old(backend)@,
            user@.username,
            upload_view(*upload),
        ),
{
    let mut state = UploadStep::Start;
    let mut event: Option<Outcome> = None;
    proof {
        reveal_with_fuel(run_upload, 5);
    }
    loop
        invariant
            run_upload(backend@, user@, upload_view(*upload), state, event.deep_view())
                == uploaded(old(backend)@, user@.username, upload_view(*upload)),
        decreases upload_rank(state),
    {
        let (next, action) = upload_profile_pic(user, upload, state, event);
        match action {
            Action::Perform(effect) => {
                event = Some(backend.perform(effect));
                state = next;
            },
            Action::Respond(response) => {
                return response;
            },
            _ => {
                return Response::fail(Error::IOError);
            },
        }
    }
}

} // verus!
