//! A backend held in memory: the three tables, the picture cache and the
//! blob store, with switches that make each of them unreachable.
//!
//! It gives every [`Effect`] its meaning. A deployment performs the same
//! effects on a database, a cache server and a file system; what is proved
//! of the handlers holds there as far as those behave like this model.

use vstd::prelude::*;
use crate::blobs::BlobTable;
use crate::db::{DBMatch, DBSwipe, DBUser, MatchRow, SwipeRow, UserRow};
use crate::exchange::{Effect, EffectView, Outcome, OutcomeView};
use crate::tables::{
    all_users, apart, candidate, candidates, change_users, changing, find_user, has_interest,
    has_match, has_row, has_swipe, interested, involving, joined, matches_apart, matches_of,
    swiped_on, user_in,
};

verus! {

/// What the backend holds.
pub struct BackendView {
    /// The accounts, in the order in which they were added.
    pub users: Seq<UserRow>,
    /// The swipes, in the order in which they were added.
    pub swipes: Seq<SwipeRow>,
    /// The matches, in the order in which they were added.
    pub matches: Seq<MatchRow>,
    /// The cached pictures, by user name.
    pub cache: Map<Seq<char>, Seq<u8>>,
    /// The stored pictures, by path.
    pub blobs: Map<Seq<char>, Seq<u8>>,
    /// Whether the tables can be reached.
    pub store_online: bool,
    /// Whether the cache can be reached.
    pub cache_online: bool,
    /// Whether the blob store can be reached.
    pub blobs_online: bool,
}

impl BackendView {
    /// Nothing stored, everything reachable.
    pub open spec fn empty() -> BackendView {
        BackendView {
            users: Seq::empty(),
            swipes: Seq::empty(),
            matches: Seq::empty(),
            cache: Map::empty(),
            blobs: Map::empty(),
            store_online: true,
            cache_online: true,
            blobs_online: true,
        }
    }

    /// The keys of the tables are unique: one account for a name, one swipe
    /// for an ordered pair, no match row twice.
    pub open spec fn wf(self) -> bool {
        &&& forall|i: int, j: int|
            0 <= i < j < self.users.len() ==> (#[trigger] self.users[i]).username != (
            #[trigger] self.users[j]).username
        &&& forall|i: int, j: int|
            0 <= i < j < self.swipes.len() ==> !((#[trigger] self.swipes[i]).swiper == (
            #[trigger] self.swipes[j]).swiper && self.swipes[i].swiped == self.swipes[j].swiped)
        &&& forall|i: int, j: int|
            0 <= i < j < self.matches.len() ==> #[trigger] self.matches[i]
                != #[trigger] self.matches[j]
    }

    /// Every match row has the smaller name first.
    pub open spec fn canonical(self) -> bool {
        forall|i: int| 0 <= i < self.matches.len() ==> (#[trigger] self.matches[i]).ordered()
    }

    /// Every match row rests on two swipes: each of the two users has
    /// recorded interest in the other.
    pub open spec fn grounded(self) -> bool {
        forall|i: int|
            0 <= i < self.matches.len() ==> interested(
                self.swipes,
                (#[trigger] self.matches[i]).username1,
                self.matches[i].username2,
            ) && interested(self.swipes, self.matches[i].username2, self.matches[i].username1)
    }

    /// What the service keeps true of its tables: unique keys, ordered
    /// match rows, and no match without mutual interest.
    pub open spec fn sound(self) -> bool {
        self.wf() && self.canonical() && self.grounded()
    }

    /// What a piece of work on the tables does and hands back.
    pub open spec fn perform_on_store(self, effect: EffectView) -> (BackendView, OutcomeView) {
        match effect {
            EffectView::FindUser { username } => match user_in(self.users, username) {
                Some(user) => (self, OutcomeView::User(user)),
                None => (self, OutcomeView::Absent),
            },
            EffectView::ListUsers => (self, OutcomeView::Users(self.users)),
            EffectView::InsertUser { user } => if user_in(self.users, user.username) is Some {
                (self, OutcomeView::Conflict)
            } else {
                (BackendView { users: self.users.push(user), ..self }, OutcomeView::User(user))
            },
            EffectView::UpdateUser { username, change } => if user_in(self.users, username)
                is None {
                (self, OutcomeView::Absent)
            } else {
                (
                    BackendView {
                        users: self.users.map_values(changing(username, change)),
                        ..self
                    },
                    OutcomeView::Done,
                )
            },
            EffectView::InsertSwipe { swipe } => if swiped_on(
                self.swipes,
                swipe.swiper,
                swipe.swiped,
            ) {
                (self, OutcomeView::Conflict)
            } else {
                (BackendView { swipes: self.swipes.push(swipe), ..self }, OutcomeView::Done)
            },
            EffectView::FindInterest { swiper, swiped } => if interested(
                self.swipes,
                swiper,
                swiped,
            ) {
                (self, OutcomeView::Done)
            } else {
                (self, OutcomeView::Absent)
            },
            EffectView::InsertMatch { row } => if self.matches.contains(row) {
                (self, OutcomeView::Conflict)
            } else {
                (BackendView { matches: self.matches.push(row), ..self }, OutcomeView::Done)
            },
            EffectView::ListMatches { username } => (
                self,
                OutcomeView::Matches(self.matches.filter(involving(username))),
            ),
            EffectView::DeleteMatch { username, other } => if !joined(
                self.matches,
                username,
                other,
            ) {
                (self, OutcomeView::Absent)
            } else {
                (
                    BackendView { matches: self.matches.filter(apart(username, other)), ..self },
                    OutcomeView::Done,
                )
            },
            EffectView::ListAvailable { username } => (
                self,
                OutcomeView::Users(self.users.filter(candidate(self.swipes, username))),
            ),
            _ => (self, OutcomeView::Failed),
        }
    }

    /// What a piece of work does to the backend, and what it hands back.
    ///
    /// Work on a part that is switched off changes nothing and ends as
    /// unavailable.
    pub open spec fn perform(self, effect: EffectView) -> (BackendView, OutcomeView) {
        match effect {
            EffectView::CacheGet { key } => if !self.cache_online {
                (self, OutcomeView::Unavailable)
            } else if self.cache.contains_key(key) {
                (self, OutcomeView::Bytes(self.cache[key]))
            } else {
                (self, OutcomeView::Absent)
            },
            EffectView::CacheSet { key, bytes } => if !self.cache_online {
                (self, OutcomeView::Unavailable)
            } else {
                (BackendView { cache: self.cache.insert(key, bytes), ..self }, OutcomeView::Done)
            },
            EffectView::CacheDelete { key } => if !self.cache_online {
                (self, OutcomeView::Unavailable)
            } else {
                (BackendView { cache: self.cache.remove(key), ..self }, OutcomeView::Done)
            },
            EffectView::ReadBlob { path } => if !self.blobs_online {
                (self, OutcomeView::Unavailable)
            } else if self.blobs.contains_key(path) {
                (self, OutcomeView::Bytes(self.blobs[path]))
            } else {
                (self, OutcomeView::Absent)
            },
            EffectView::WriteBlob { path, bytes } => if !self.blobs_online {
                (self, OutcomeView::Unavailable)
            } else {
                (BackendView { blobs: self.blobs.insert(path, bytes), ..self }, OutcomeView::Done)
            },
            _ => if !self.store_online {
                (self, OutcomeView::Unavailable)
            } else {
                self.perform_on_store(effect)
            },
        }
    }
}

/// The backend.
pub struct Backend {
    users: Vec<DBUser>,
    swipes: Vec<DBSwipe>,
    matches: Vec<DBMatch>,
    cache: BlobTable,
    blobs: BlobTable,
    store_online: bool,
    cache_online: bool,
    blobs_online: bool,
}

impl View for Backend {
    type V = BackendView;

    closed spec fn view(&self) -> BackendView {
        BackendView {
            users: self.users.deep_view(),
            swipes: self.swipes.deep_view(),
            matches: self.matches.deep_view(),
            cache: self.cache@,
            blobs: self.blobs@,
            store_online: self.store_online,
            cache_online: self.cache_online,
            blobs_online: self.blobs_online,
        }
    }
}

impl Backend {
    /// A backend with nothing stored and everything reachable.
    pub fn new() -> (backend: Backend)
        ensures
            backend@ == BackendView::empty(),
            backend@.sound(),
    {
        let backend = Backend {
            users: Vec::new(),
            swipes: Vec::new(),
            matches: Vec::new(),
            cache: BlobTable::new(),
            blobs: BlobTable::new(),
            store_online: true,
            cache_online: true,
            blobs_online: true,
        };
        assert(backend.users.deep_view() =~= Seq::empty());
        assert(backend.swipes.deep_view() =~= Seq::empty());
        assert(backend.matches.deep_view() =~= Seq::empty());
        backend
    }

    /// Makes the tables reachable or unreachable.
    pub fn set_store_online(&mut self, online: bool)
        ensures
            final(self)@ == (BackendView { store_online: online, ..old(self)@ }),
    {
        self.store_online = online;
    }

    /// Makes the cache reachable or unreachable.
    pub fn set_cache_online(&mut self, online: bool)
        ensures
            final(self)@ == (BackendView { cache_online: online, ..old(self)@ }),
    {
        self.cache_online = online;
    }

    /// Makes the blob store reachable or unreachable.
    pub fn set_blobs_online(&mut self, online: bool)
        ensures
            final(self)@ == (BackendView { blobs_online: online, ..old(self)@ }),
    {
        self.blobs_online = online;
    }

    /// Performs a piece of work on the tables.
    fn perform_on_store(&mut self, effect: Effect) -> (outcome: Outcome)
        ensures
            (final(self)@, outcome@) == old(self)@.perform_on_store(effect@),
    {
        match effect {
            Effect::FindUser { username } => match find_user(&self.users, username.as_str()) {
                Some(user) => Outcome::User(user),
                None => Outcome::Absent,
            },
            Effect::ListUsers => Outcome::Users(all_users(&self.users)),
            Effect::InsertUser { user } => {
                if find_user(&self.users, user.username.as_str()).is_some() {
                    Outcome::Conflict
                } else {
                    let copy = user.clone();
                    let ghost before = self.users.deep_view();
                    self.users.push(user);
                    assert(self.users.deep_view() =~= before.push(user@));
                    Outcome::User(copy)
                }
            },
            Effect::UpdateUser { username, change } => {
                if find_user(&self.users, username.as_str()).is_none() {
                    Outcome::Absent
                } else {
                    self.users = change_users(&self.users, username.as_str(), &change);
                    Outcome::Done
                }
            },
            Effect::InsertSwipe { swipe } => {
                if has_swipe(&self.swipes, swipe.swiper.as_str(), swipe.swiped.as_str()) {
                    Outcome::Conflict
                } else {
                    let ghost before = self.swipes.deep_view();
                    self.swipes.push(swipe);
                    assert(self.swipes.deep_view() =~= before.push(swipe@));
                    Outcome::Done
                }
            },
            Effect::FindInterest { swiper, swiped } => {
                if has_interest(&self.swipes, swiper.as_str(), swiped.as_str()) {
                    Outcome::Done
                } else {
                    Outcome::Absent
                }
            },
            Effect::InsertMatch { row } => {
                if has_row(&self.matches, &row) {
                    Outcome::Conflict
                } else {
                    let ghost before = self.matches.deep_view();
                    self.matches.push(row);
                    assert(self.matches.deep_view() =~= before.push(row@));
                    Outcome::Done
                }
            },
            Effect::ListMatches { username } => Outcome::Matches(
                matches_of(&self.matches, username.as_str()),
            ),
            Effect::DeleteMatch { username, other } => {
                if !has_match(&self.matches, username.as_str(), other.as_str()) {
                    Outcome::Absent
                } else {
                    self.matches = matches_apart(&self.matches, username.as_str(), other.as_str());
                    Outcome::Done
                }
            },
            Effect::ListAvailable { username } => Outcome::Users(
                candidates(&self.users, &self.swipes, username.as_str()),
            ),
            _ => Outcome::Failed,
        }
    }

    /// Performs a piece of work and says how it ended.
    pub fn perform(&mut self, effect: Effect) -> (outcome: Outcome)
        ensures
            (final(self)@, outcome@) == old(self)@.perform(effect@),
    {
        match effect {
            Effect::CacheGet { key } => {
                if !self.cache_online {
                    Outcome::Unavailable
                } else {
                    match self.cache.get(key.as_str()) {
                        Some(bytes) => Outcome::Bytes(bytes),
                        None => Outcome::Absent,
                    }
                }
            },
            Effect::CacheSet { key, bytes } => {
                if !self.cache_online {
                    Outcome::Unavailable
                } else {
                    self.cache.put(key, bytes);
                    Outcome::Done
                }
            },
            Effect::CacheDelete { key } => {
                if !self.cache_online {
                    Outcome::Unavailable
                } else {
                    self.cache.remove(key.as_str());
                    Outcome::Done
                }
            },
            Effect::ReadBlob { path } => {
                if !self.blobs_online {
                    Outcome::Unavailable
                } else {
                    match self.blobs.get(path.as_str()) {
                        Some(bytes) => Outcome::Bytes(bytes),
                        None => Outcome::Absent,
                    }
                }
            },
            Effect::WriteBlob { path, bytes } => {
                if !self.blobs_online {
                    Outcome::Unavailable
                } else {
                    self.blobs.put(path, bytes);
                    Outcome::Done
                }
            },
            other => {
                if !self.store_online {
                    Outcome::Unavailable
                } else {
                    self.perform_on_store(other)
                }
            },
        }
    }
}

} // verus!
