//! The queries that the service puts to its three tables, stated over
//! sequences of rows and carried out on vectors.

use vstd::prelude::*;
use crate::db::{DBMatch, DBSwipe, DBUser, MatchRow, SwipeRow, UserRow};
use crate::exchange::{Change, ChangeView};
use crate::names::name_eq;

verus! {

/// The rows of the account named `username`.
pub open spec fn named(username: Seq<char>) -> spec_fn(UserRow) -> bool {
    |u: UserRow| u.username == username
}

/// The rows that hold `user` in either place.
pub open spec fn involving(user: Seq<char>) -> spec_fn(MatchRow) -> bool {
    |m: MatchRow| m.involves(user)
}

/// The rows that do not join `a` and `b`.
pub open spec fn apart(a: Seq<char>, b: Seq<char>) -> spec_fn(MatchRow) -> bool {
    |m: MatchRow| !m.joins(a, b)
}

/// Applies `change` to the account named `username` and leaves the others.
pub open spec fn changing(username: Seq<char>, change: ChangeView) -> spec_fn(UserRow) -> UserRow {
    |u: UserRow|
        if u.username == username {
            change.apply(u)
        } else {
            u
        }
}

/// The account named `username`, if there is one.
pub open spec fn user_in(users: Seq<UserRow>, username: Seq<char>) -> Option<UserRow> {
    let found = users.filter(named(username));
    if found.len() > 0 {
        Some(found[0])
    } else {
        None
    }
}

/// Whether `swiper` has a swipe on `swiped`, of either decision.
pub open spec fn swiped_on(swipes: Seq<SwipeRow>, swiper: Seq<char>, swiped: Seq<char>) -> bool {
    exists|i: int|
        0 <= i < swipes.len() && (#[trigger] swipes[i]).swiper == swiper && swipes[i].swiped
            == swiped
}

/// Whether `swiper` has recorded interest in `swiped`.
pub open spec fn interested(swipes: Seq<SwipeRow>, swiper: Seq<char>, swiped: Seq<char>) -> bool {
    swipes.contains(SwipeRow { swiper, swiped, status: true })
}

/// Whether some row joins `a` and `b`, in either order.
pub open spec fn joined(matches: Seq<MatchRow>, a: Seq<char>, b: Seq<char>) -> bool {
    exists|i: int| 0 <= i < matches.len() && (#[trigger] matches[i]).joins(a, b)
}

/// The accounts that `user` may still swipe on: located, not the user's
/// own, and without a swipe of the user on them.
pub open spec fn candidate(swipes: Seq<SwipeRow>, user: Seq<char>) -> spec_fn(UserRow) -> bool {
    |u: UserRow| u.username != user && u.located() && !swiped_on(swipes, user, u.username)
}

/// Filtering a sequence that grew by one element.
pub proof fn lemma_filter_push<A>(s: Seq<A>, x: A, pred: spec_fn(A) -> bool)
    ensures
        s.push(x).filter(pred) == if pred(x) {
            s.filter(pred).push(x)
        } else {
            s.filter(pred)
        },
{
    reveal(Seq::filter);
    assert(s.push(x).drop_last() =~= s);
}

/// A row that satisfies the predicate and follows rows that do not is the
/// first of the filtered sequence.
proof fn lemma_filter_first<A>(s: Seq<A>, i: int, pred: spec_fn(A) -> bool)
    requires
        0 <= i < s.len(),
        s.take(i).filter(pred).len() == 0,
        pred(s[i]),
    ensures
        s.filter(pred).len() > 0,
        s.filter(pred)[0] == s[i],
{
    lemma_filter_push(s.take(i), s[i], pred);
    assert(s.take(i).push(s[i]) =~= s.take(i + 1));
    Seq::filter_distributes_over_add(s.take(i + 1), s.skip(i + 1), pred);
    assert(s.take(i + 1) + s.skip(i + 1) =~= s);
}

/// Looks an account up by name.
pub fn find_user(users: &Vec<DBUser>, username: &str) -> (found: Option<DBUser>)
    ensures
        found.deep_view() == user_in(users.deep_view(), username@),
{
    let ghost rows = users.deep_view();
    let mut i: usize = 0;
    while i < users.len()
        invariant
            i <= users.len(),
            rows == users.deep_view(),
            rows.take(i as int).filter(named(username@)).len() == 0,
        decreases users.len() - i,
    {
        if name_eq(users[i].username.as_str(), username) {
            proof {
                lemma_filter_first(rows, i as int, named(username@));
            }
            return Some(users[i].clone());
        }
        proof {
            lemma_filter_push(rows.take(i as int), rows[i as int], named(username@));
            assert(rows.take(i as int).push(rows[i as int]) =~= rows.take(i + 1));
        }
        i += 1;
    }
    assert(rows.take(i as int) =~= rows);
    None
}

/// Copies the accounts.
pub fn all_users(users: &Vec<DBUser>) -> (copy: Vec<DBUser>)
    ensures
        copy.deep_view() == users.deep_view(),
{
    let mut copy: Vec<DBUser> = Vec::new();
    let mut i: usize = 0;
    while i < users.len()
        invariant
            i <= users.len(),
            copy.len() == i,
            forall|j: int| 0 <= j < i ==> copy[j]@ == users[j]@,
        decreases users.len() - i,
    {
        copy.push(users[i].clone());
        i += 1;
    }
    assert(copy.deep_view() =~= users.deep_view());
    copy
}

/// Applies a change to the account of the given name.
pub fn change_users(users: &Vec<DBUser>, username: &str, change: &Change) -> (changed: Vec<DBUser>)
    ensures
        changed.deep_view() == users.deep_view().map_values(changing(username@, change@)),
{
    let mut changed: Vec<DBUser> = Vec::new();
    let mut i: usize = 0;
    while i < users.len()
        invariant
            i <= users.len(),
            changed.len() == i,
            forall|j: int| 0 <= j < i ==> changed[j]@ == changing(username@, change@)(users[j]@),
        decreases users.len() - i,
    {
        if name_eq(users[i].username.as_str(), username) {
            changed.push(change.apply(&users[i]));
        } else {
            changed.push(users[i].clone());
        }
        i += 1;
    }
    assert(changed.deep_view() =~= users.deep_view().map_values(changing(username@, change@)));
    changed
}

/// Whether `swiper` has a swipe on `swiped`.
pub fn has_swipe(swipes: &Vec<DBSwipe>, swiper: &str, swiped: &str) -> (yes: bool)
    ensures
        yes == swiped_on(swipes.deep_view(), swiper@, swiped@),
{
    let ghost rows = swipes.deep_view();
    let mut i: usize = 0;
    while i < swipes.len()
        invariant
            i <= swipes.len(),
            rows == swipes.deep_view(),
            forall|j: int| 0 <= j < i ==> !((#[trigger] rows[j]).swiper == swiper@ && rows[j].swiped
                == swiped@),
        decreases swipes.len() - i,
    {
        if name_eq(swipes[i].swiper.as_str(), swiper) && name_eq(swipes[i].swiped.as_str(), swiped)
        {
            assert(rows[i as int].swiper == swiper@ && rows[i as int].swiped == swiped@);
            return true;
        }
        i += 1;
    }
    false
}

/// Whether `swiper` has recorded interest in `swiped`.
pub fn has_interest(swipes: &Vec<DBSwipe>, swiper: &str, swiped: &str) -> (yes: bool)
    ensures
        yes == interested(swipes.deep_view(), swiper@, swiped@),
{
    let ghost rows = swipes.deep_view();
    let ghost wanted = SwipeRow { swiper: swiper@, swiped: swiped@, status: true };
    let mut i: usize = 0;
    while i < swipes.len()
        invariant
            i <= swipes.len(),
            rows == swipes.deep_view(),
            wanted == (SwipeRow { swiper: swiper@, swiped: swiped@, status: true }),
            forall|j: int| 0 <= j < i ==> rows[j] != wanted,
        decreases swipes.len() - i,
    {
        if swipes[i].status && name_eq(swipes[i].swiper.as_str(), swiper) && name_eq(
            swipes[i].swiped.as_str(),
            swiped,
        ) {
            assert(rows[i as int] == wanted);
            return true;
        }
        i += 1;
    }
    false
}

/// Whether the very row is in the table.
pub fn has_row(matches: &Vec<DBMatch>, row: &DBMatch) -> (yes: bool)
    ensures
        yes == matches.deep_view().contains(row@),
{
    let ghost rows = matches.deep_view();
    let mut i: usize = 0;
    while i < matches.len()
        invariant
            i <= matches.len(),
            rows == matches.deep_view(),
            forall|j: int| 0 <= j < i ==> rows[j] != row@,
        decreases matches.len() - i,
    {
        if matches[i].username1 == row.username1 && matches[i].username2 == row.username2 {
            assert(rows[i as int] == row@);
            return true;
        }
        i += 1;
    }
    false
}

/// Whether some row joins `a` and `b`, in either order.
pub fn has_match(matches: &Vec<DBMatch>, a: &str, b: &str) -> (yes: bool)
    ensures
        yes == joined(matches.deep_view(), a@, b@),
{
    let ghost rows = matches.deep_view();
    let mut i: usize = 0;
    while i < matches.len()
        invariant
            i <= matches.len(),
            rows == matches.deep_view(),
            forall|j: int| 0 <= j < i ==> !(#[trigger] rows[j]).joins(a@, b@),
        decreases matches.len() - i,
    {
        if matches[i].joins(a, b) {
            assert(rows[i as int].joins(a@, b@));
            return true;
        }
        i += 1;
    }
    false
}

/// The rows that hold `user` in either place.
pub fn matches_of(matches: &Vec<DBMatch>, user: &str) -> (found: Vec<DBMatch>)
    ensures
        found.deep_view() == matches.deep_view().filter(involving(user@)),
{
    let ghost rows = matches.deep_view();
    let mut found: Vec<DBMatch> = Vec::new();
    let mut i: usize = 0;
    assert(rows.take(0).filter(involving(user@)) =~= Seq::empty()) by {
        reveal(Seq::filter);
    }
    while i < matches.len()
        invariant
            i <= matches.len(),
            rows == matches.deep_view(),
            found.deep_view() =~= rows.take(i as int).filter(involving(user@)),
        decreases matches.len() - i,
    {
        proof {
            lemma_filter_push(rows.take(i as int), rows[i as int], involving(user@));
            assert(rows.take(i as int).push(rows[i as int]) =~= rows.take(i + 1));
        }
        if matches[i].involves(user) {
            let ghost before = found.deep_view();
            let row = matches[i].clone();
            found.push(row);
            assert(found.deep_view() =~= before.push(row@));
        }
        i += 1;
    }
    assert(rows.take(i as int) =~= rows);
    found
}

/// The rows that do not join `a` and `b`.
pub fn matches_apart(matches: &Vec<DBMatch>, a: &str, b: &str) -> (kept: Vec<DBMatch>)
    ensures
        kept.deep_view() == matches.deep_view().filter(apart(a@, b@)),
{
    let ghost rows = matches.deep_view();
    let mut kept: Vec<DBMatch> = Vec::new();
    let mut i: usize = 0;
    assert(rows.take(0).filter(apart(a@, b@)) =~= Seq::empty()) by {
        reveal(Seq::filter);
    }
    while i < matches.len()
        invariant
            i <= matches.len(),
            rows == matches.deep_view(),
            kept.deep_view() =~= rows.take(i as int).filter(apart(a@, b@)),
        decreases matches.len() - i,
    {
        proof {
            lemma_filter_push(rows.take(i as int), rows[i as int], apart(a@, b@));
            assert(rows.take(i as int).push(rows[i as int]) =~= rows.take(i + 1));
        }
        if !matches[i].joins(a, b) {
            let ghost before = kept.deep_view();
            let row = matches[i].clone();
            kept.push(row);
            assert(kept.deep_view() =~= before.push(row@));
        }
        i += 1;
    }
    assert(rows.take(i as int) =~= rows);
    kept
}

/// The accounts that `user` may still swipe on.
pub fn candidates(users: &Vec<DBUser>, swipes: &Vec<DBSwipe>, user: &str) -> (found: Vec<DBUser>)
    ensures
        found.deep_view() == users.deep_view().filter(candidate(swipes.deep_view(), user@)),
{
    let ghost rows = users.deep_view();
    let ghost wanted = candidate(swipes.deep_view(), user@);
    let mut found: Vec<DBUser> = Vec::new();
    let mut i: usize = 0;
    assert(rows.take(0).filter(wanted) =~= Seq::empty()) by {
        reveal(Seq::filter);
    }
    while i < users.len()
        invariant
            i <= users.len(),
            rows == users.deep_view(),
            wanted == candidate(swipes.deep_view(), user@),
            found.deep_view() =~= rows.take(i as int).filter(wanted),
        decreases users.len() - i,
    {
        proof {
            lemma_filter_push(rows.take(i as int), rows[i as int], wanted);
            assert(rows.take(i as int).push(rows[i as int]) =~= rows.take(i + 1));
        }
        if !name_eq(users[i].username.as_str(), user) && users[i].located() && !has_swipe(
            swipes,
            user,
            users[i].username.as_str(),
        ) {
            let ghost before = found.deep_view();
            let row = users[i].clone();
            found.push(row);
            assert(found.deep_view() =~= before.push(row@));
        }
        i += 1;
    }
    assert(rows.take(i as int) =~= rows);
    found
}

/// Filtering keeps the elements of a sequence different from one another.
pub proof fn lemma_filter_keeps_distinct<A>(s: Seq<A>, pred: spec_fn(A) -> bool)
    requires
        forall|i: int, j: int| 0 <= i < j < s.len() ==> s[i] != s[j],
    ensures
        forall|i: int, j: int|
            0 <= i < j < s.filter(pred).len() ==> s.filter(pred)[i] != s.filter(pred)[j],
    decreases s.len(),
{
    reveal(Seq::filter);
    if s.len() > 0 {
        let rest = s.drop_last();
        assert forall|i: int, j: int| 0 <= i < j < rest.len() implies rest[i] != rest[j] by {
            assert(rest[i] == s[i] && rest[j] == s[j]);
        }
        lemma_filter_keeps_distinct(rest, pred);
        let kept = rest.filter(pred);
        if pred(s.last()) {
            assert forall|i: int| 0 <= i < kept.len() implies kept[i] != s.last() by {
                if kept[i] == s.last() {
                    assert(kept.contains(s.last()));
                    rest.lemma_filter_contains_rev(pred, s.last());
                    let k = choose|k: int| 0 <= k < rest.len() && rest[k] == s.last();
                    assert(s[k] == s[s.len() - 1]);
                }
            }
        }
    }
}

/// Changing the rows of a table one by one, in a way that no filter can
/// tell, commutes with filtering.
pub proof fn lemma_filter_map<A>(s: Seq<A>, pred: spec_fn(A) -> bool, f: spec_fn(A) -> A)
    requires
        forall|x: A| pred(f(x)) == #[trigger] pred(x),
    ensures
        s.map_values(f).filter(pred) == s.filter(pred).map_values(f),
    decreases s.len(),
{
    reveal(Seq::filter);
    if s.len() == 0 {
        assert(s.map_values(f).filter(pred) =~= s.filter(pred).map_values(f));
    } else {
        let rest = s.drop_last();
        lemma_filter_map(rest, pred, f);
        assert(s.map_values(f).drop_last() =~= rest.map_values(f));
        assert(s.map_values(f).last() == f(s.last()));
        if pred(s.last()) {
            assert(rest.filter(pred).push(s.last()).map_values(f) =~= rest.filter(
                pred,
            ).map_values(f).push(f(s.last())));
        }
        assert(s.map_values(f).filter(pred) =~= s.filter(pred).map_values(f));
    }
}

/// An account that is in the table is found by its name.
pub proof fn lemma_user_in(users: Seq<UserRow>, i: int)
    requires
        0 <= i < users.len(),
    ensures
        user_in(users, users[i].username) is Some,
{
    let wanted = named(users[i].username);
    users.lemma_filter_contains(wanted, i);
}

/// The account that a lookup finds has the name asked for and is in the
/// table.
pub proof fn lemma_found_user(users: Seq<UserRow>, username: Seq<char>)
    requires
        user_in(users, username) is Some,
    ensures
        user_in(users, username)->0.username == username,
        users.contains(user_in(users, username)->0),
{
    let found = users.filter(named(username));
    users.lemma_filter_pred(named(username), 0);
    assert(found.contains(found[0]));
    users.lemma_filter_contains_rev(named(username), found[0]);
}

/// After a change to an account, a lookup finds the changed account.
pub proof fn lemma_changed_user(users: Seq<UserRow>, username: Seq<char>, change: ChangeView)
    requires
        user_in(users, username) is Some,
    ensures
        user_in(users.map_values(changing(username, change)), username) == Some(
            change.apply(user_in(users, username)->0),
        ),
{
    let f = changing(username, change);
    let pred = named(username);
    assert forall|x: UserRow| pred(f(x)) == #[trigger] pred(x) by {}
    lemma_filter_map(users, pred, f);
    lemma_found_user(users, username);
}

} // verus!
