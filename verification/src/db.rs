//! The rows of the three tables, and what each stands for.

use vstd::prelude::*;
use crate::names::{lemma_name_order, name_before, name_eq, name_lt, name_max, name_min};

verus! {

/// What a user row holds. Coordinates are kept as the bit patterns of
/// double-precision numbers; the logic only asks whether they are set.
pub struct UserRow {
    pub username: Seq<char>,
    pub password: Seq<char>,
    pub lat: Option<u64>,
    pub long: Option<u64>,
    pub bio: Option<Seq<char>>,
    pub profile_pic: Option<Seq<char>>,
}

/// What a swipe row holds.
pub struct SwipeRow {
    pub swiper: Seq<char>,
    pub swiped: Seq<char>,
    pub status: bool,
}

/// What a match row holds.
pub struct MatchRow {
    pub username1: Seq<char>,
    pub username2: Seq<char>,
}

/// The fields of a user that clients may see.
pub struct PublicRow {
    pub username: Seq<char>,
    pub lat: Option<u64>,
    pub long: Option<u64>,
    pub bio: Option<Seq<char>>,
}

impl UserRow {
    /// The row of a freshly registered account.
    pub open spec fn fresh(username: Seq<char>, password: Seq<char>) -> UserRow {
        UserRow { username, password, lat: None, long: None, bio: None, profile_pic: None }
    }

    /// The row without what clients must not see.
    pub open spec fn public(self) -> PublicRow {
        PublicRow { username: self.username, lat: self.lat, long: self.long, bio: self.bio }
    }

    /// Whether both coordinates are set.
    pub open spec fn located(self) -> bool {
        self.lat is Some && self.long is Some
    }
}

impl MatchRow {
    /// The one row that may stand for the unordered pair of `a` and `b`:
    /// the smaller name first.
    pub open spec fn canonical(a: Seq<char>, b: Seq<char>) -> MatchRow {
        MatchRow { username1: name_min(a, b), username2: name_max(a, b) }
    }

    /// Whether the row obeys the ordering rule.
    pub open spec fn ordered(self) -> bool {
        name_lt(self.username1, self.username2)
    }

    /// Whether `user` is one of the two.
    pub open spec fn involves(self, user: Seq<char>) -> bool {
        self.username1 == user || self.username2 == user
    }

    /// Whether the row joins `a` and `b`, in either order.
    pub open spec fn joins(self, a: Seq<char>, b: Seq<char>) -> bool {
        (self.username1 == a && self.username2 == b) || (self.username1 == b && self.username2
            == a)
    }

    /// The participant that is not `user`.
    pub open spec fn other(self, user: Seq<char>) -> Seq<char> {
        if self.username1 == user {
            self.username2
        } else {
            self.username1
        }
    }
}

/// An account.
#[derive(Debug, PartialEq, Eq)]
pub struct DBUser {
    pub username: String,
    pub password: String,
    pub lat: Option<u64>,
    pub long: Option<u64>,
    pub bio: Option<String>,
    pub profile_pic: Option<String>,
}

/// One user's decision about another.
#[derive(Debug, PartialEq, Eq)]
pub struct DBSwipe {
    pub swiper: String,
    pub swiped: String,
    pub status: bool,
}

/// A mutual match.
#[derive(Debug, PartialEq, Eq)]
pub struct DBMatch {
    pub username1: String,
    pub username2: String,
}

/// An account as clients see it: without the password hash and the
/// picture's location.
#[derive(Debug, PartialEq, Eq)]
pub struct PublicUser {
    pub username: String,
    pub lat: Option<u64>,
    pub long: Option<u64>,
    pub bio: Option<String>,
}

impl View for DBUser {
    type V = UserRow;

    open spec fn view(&self) -> UserRow {
        UserRow {
            username: self.username@,
            password: self.password@,
            lat: self.lat,
            long: self.long,
            bio: self.bio.deep_view(),
            profile_pic: self.profile_pic.deep_view(),
        }
    }
}

impl View for DBSwipe {
    type V = SwipeRow;

    open spec fn view(&self) -> SwipeRow {
        SwipeRow { swiper: self.swiper@, swiped: self.swiped@, status: self.status }
    }
}

impl View for DBMatch {
    type V = MatchRow;

    open spec fn view(&self) -> MatchRow {
        MatchRow { username1: self.username1@, username2: self.username2@ }
    }
}

impl View for PublicUser {
    type V = PublicRow;

    open spec fn view(&self) -> PublicRow {
        PublicRow {
            username: self.username@,
            lat: self.lat,
            long: self.long,
            bio: self.bio.deep_view(),
        }
    }
}

impl DeepView for DBUser {
    type V = UserRow;

    open spec fn deep_view(&self) -> UserRow {
        self@
    }
}

impl DeepView for DBSwipe {
    type V = SwipeRow;

    open spec fn deep_view(&self) -> SwipeRow {
        self@
    }
}

impl DeepView for DBMatch {
    type V = MatchRow;

    open spec fn deep_view(&self) -> MatchRow {
        self@
    }
}

impl DeepView for PublicUser {
    type V = PublicRow;

    open spec fn deep_view(&self) -> PublicRow {
        self@
    }
}

/// Copies an optional string.
pub fn clone_text(text: &Option<String>) -> (copy: Option<String>)
    ensures
        copy == *text,
{
    match text {
        Some(s) => Some(s.clone()),
        None => None,
    }
}

impl Clone for DBUser {
    fn clone(&self) -> (copy: Self)
        ensures
            copy == *self,
    {
        DBUser {
            username: self.username.clone(),
            password: self.password.clone(),
            lat: self.lat,
            long: self.long,
            bio: clone_text(&self.bio),
            profile_pic: clone_text(&self.profile_pic),
        }
    }
}

impl Clone for DBSwipe {
    fn clone(&self) -> (copy: Self)
        ensures
            copy == *self,
    {
        DBSwipe { swiper: self.swiper.clone(), swiped: self.swiped.clone(), status: self.status }
    }
}

impl Clone for DBMatch {
    fn clone(&self) -> (copy: Self)
        ensures
            copy == *self,
    {
        DBMatch { username1: self.username1.clone(), username2: self.username2.clone() }
    }
}

impl Clone for PublicUser {
    fn clone(&self) -> (copy: Self)
        ensures
            copy == *self,
    {
        PublicUser {
            username: self.username.clone(),
            lat: self.lat,
            long: self.long,
            bio: clone_text(&self.bio),
        }
    }
}

impl DBUser {
    /// The row of a new account: a name and a password hash, nothing else.
    pub fn new(username: String, password: String) -> (user: DBUser)
        ensures
            user@ == UserRow::fresh(username@, password@),
    {
        DBUser { username, password, lat: None, long: None, bio: None, profile_pic: None }
    }

    /// What clients may see of the account. The password hash is left out.
    pub fn public(&self) -> (shown: PublicUser)
        ensures
            shown@ == self@.public(),
    {
        PublicUser {
            username: self.username.clone(),
            lat: self.lat,
            long: self.long,
            bio: clone_text(&self.bio),
        }
    }

    /// Whether both coordinates are set.
    pub fn located(&self) -> (yes: bool)
        ensures
            yes == self@.located(),
    {
        self.lat.is_some() && self.long.is_some()
    }
}

/// The rows as clients may see them.
pub open spec fn public_rows(rows: Seq<UserRow>) -> Seq<PublicRow> {
    Seq::new(rows.len(), |i: int| rows[i].public())
}

/// What clients may see of each account.
pub fn public_list(rows: &Vec<DBUser>) -> (list: Vec<PublicUser>)
    ensures
        list.deep_view() == public_rows(rows.deep_view()),
{
    let mut list: Vec<PublicUser> = Vec::new();
    let mut i: usize = 0;
    while i < rows.len()
        invariant
            i <= rows.len(),
            list.len() == i,
            forall|j: int| 0 <= j < i ==> list[j]@ == rows[j]@.public(),
        decreases rows.len() - i,
    {
        list.push(rows[i].public());
        i += 1;
    }
    assert(list.deep_view() =~= public_rows(rows.deep_view()));
    list
}

impl DBSwipe {
    /// The decision of `swiper` about `swiped`.
    pub fn new(swiper: String, swiped: String, status: bool) -> (swipe: DBSwipe)
        ensures
            swipe@ == (SwipeRow { swiper: swiper@, swiped: swiped@, status }),
    {
        DBSwipe { swiper, swiped, status }
    }
}

impl DBMatch {
    /// The row that stands for the pair of `a` and `b`: the smaller name
    /// first, whichever way round the two are given.
    pub fn canonical(a: String, b: String) -> (row: DBMatch)
        ensures
            row@ == MatchRow::canonical(a@, b@),
            a@ != b@ ==> row@.ordered(),
            row@.joins(a@, b@),
    {
        proof {
            lemma_name_order(a@, b@);
        }
        if name_before(b.as_str(), a.as_str()) {
            DBMatch { username1: b, username2: a }
        } else {
            DBMatch { username1: a, username2: b }
        }
    }

    /// Whether the row obeys the ordering rule.
    pub fn ordered(&self) -> (yes: bool)
        ensures
            yes == self@.ordered(),
    {
        name_before(self.username1.as_str(), self.username2.as_str())
    }

    /// Whether `user` is one of the two.
    pub fn involves(&self, user: &str) -> (yes: bool)
        ensures
            yes == self@.involves(user@),
    {
        name_eq(self.username1.as_str(), user) || name_eq(self.username2.as_str(), user)
    }

    /// Whether the row joins `a` and `b`, in either order.
    pub fn joins(&self, a: &str, b: &str) -> (yes: bool)
        ensures
            yes == self@.joins(a@, b@),
    {
        (name_eq(self.username1.as_str(), a) && name_eq(self.username2.as_str(), b)) || (name_eq(
            self.username1.as_str(),
            b,
        ) && name_eq(self.username2.as_str(), a))
    }
}

} // verus!
