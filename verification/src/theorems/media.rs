//! What holds of the picture cache.

use vstd::prelude::*;
use crate::backend::BackendView;
use crate::exchange::{BodyView, ChangeView, ResponseView};
use crate::media::{pictured, uploaded};
use crate::paths::users::picture_path_of;
use crate::tables::lemma_changed_user;

verus! {

/// A picture that was stored is the picture that is fetched: after an
/// upload whose invalidation reached the cache, the next fetch answers with
/// the uploaded bytes, whatever the cache held before, and so does the
/// fetch after that, which is served from the cache.
pub proof fn theorem_upload_then_fetch(backend: BackendView, username: Seq<char>, bytes: Seq<u8>)
    requires
        backend.cache_online,
        uploaded(backend, username, Some(bytes)).1.result is Ok,
    ensures
        ({
            let stored = uploaded(backend, username, Some(bytes)).0;
            let fetched = pictured(stored, username);
            &&& fetched.1 == ResponseView::ok(BodyView::Picture(bytes))
            &&& pictured(fetched.0, username).1 == ResponseView::ok(BodyView::Picture(bytes))
        }),
{
    let path = picture_path_of(username);
    lemma_changed_user(backend.users, username, ChangeView::ProfilePic(path));
}

/// A second upload replaces the first: after a picture was stored and
/// fetched, so that the cache holds it, an upload of other bytes makes the
/// next fetch answer with those, not with what the cache held.
pub proof fn theorem_new_upload_replaces_cached(
    backend: BackendView,
    username: Seq<char>,
    first: Seq<u8>,
    second: Seq<u8>,
)
    requires
        backend.cache_online,
        uploaded(backend, username, Some(first)).1.result is Ok,
    ensures
        ({
            let cached = pictured(uploaded(backend, username, Some(first)).0, username).0;
            let replaced = uploaded(cached, username, Some(second));
            &&& cached.cache.contains_key(username) && cached.cache[username] == first
            &&& replaced.1.result is Ok
            &&& pictured(replaced.0, username).1 == ResponseView::ok(BodyView::Picture(second))
        }),
{
    let path = picture_path_of(username);
    lemma_changed_user(backend.users, username, ChangeView::ProfilePic(path));
    let cached = pictured(uploaded(backend, username, Some(first)).0, username).0;
    theorem_upload_then_fetch(cached, username, second);
}

} // verus!
