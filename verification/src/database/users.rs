//! The users table: its constraints, what each data-access operation does to
//! it, and the operations themselves.

use crate::database::posts::{
    has_post, holds_post, lemma_fresh_post_id, lemma_post_ids_without_owner,
    lemma_posts_without_owner, post_at, posts_after_user_delete, posts_of_others, posts_wf,
    posts_without_owner,
};
use crate::database::{owners_stored, user_views, Database, DatabaseView};
use crate::error::Error;
use crate::models::id::{Timestamp, Uuid};
use crate::models::post::PostView;
use crate::models::user::{User, UserRequest, UserRequestView, UserView};
use vstd::prelude::*;

verus! {

/// The constraints on the users table: identifiers, user names and external
/// ids are unique, every record names its user and holds an account role, and
/// the records stand in the order of their creation.
pub open spec fn users_wf(users: Seq<UserView>) -> bool {
    &&& forall|i: int, j: int|
        0 <= i < j < users.len() ==> (#[trigger] users[i]).id != (#[trigger] users[j]).id
    &&& forall|i: int, j: int|
        0 <= i < j < users.len() ==> (#[trigger] users[i]).username != (
        #[trigger] users[j]).username
    &&& forall|i: int, j: int|
        0 <= i < j < users.len() && (#[trigger] users[i]).github_id is Some ==> users[i].github_id
            != (#[trigger] users[j]).github_id
    &&& forall|i: int, j: int|
        0 <= i <= j < users.len() ==> (#[trigger] users[i]).created_at.nanos <= (
        #[trigger] users[j]).created_at.nanos
    &&& forall|i: int|
        0 <= i < users.len() ==> (#[trigger] users[i]).username.len() > 0
            && users[i].role.is_account()
}

/// Whether every identifier in the table has a value below `bound`.
pub open spec fn user_ids_below(users: Seq<UserView>, bound: int) -> bool {
    forall|i: int| 0 <= i < users.len() ==> (#[trigger] users[i]).id.value < bound
}

/// Whether the record at `i` has the identifier `id`.
pub open spec fn user_id_at(users: Seq<UserView>, id: Uuid, i: int) -> bool {
    0 <= i < users.len() && users[i].id == id
}

/// Whether some user has the identifier `id`.
pub open spec fn has_user(users: Seq<UserView>, id: Uuid) -> bool {
    exists|i: int| user_id_at(users, id, i)
}

/// Where the user with the identifier `id` stands.
pub open spec fn user_index(users: Seq<UserView>, id: Uuid) -> int {
    choose|i: int| user_id_at(users, id, i)
}

/// Whether the record at `i` has the external id `github_id`.
pub open spec fn github_id_at(users: Seq<UserView>, github_id: i64, i: int) -> bool {
    0 <= i < users.len() && users[i].github_id == Some(github_id)
}

/// Whether some user has the external id `github_id`.
pub open spec fn has_github_user(users: Seq<UserView>, github_id: i64) -> bool {
    exists|i: int| github_id_at(users, github_id, i)
}

/// Where the user with the external id `github_id` stands.
pub open spec fn github_user_index(users: Seq<UserView>, github_id: i64) -> int {
    choose|i: int| github_id_at(users, github_id, i)
}

/// Whether the record at `i` has the user name `username`.
pub open spec fn username_at(users: Seq<UserView>, username: Seq<char>, i: int) -> bool {
    0 <= i < users.len() && users[i].username == username
}

/// Whether some user has the user name `username`.
pub open spec fn has_username(users: Seq<UserView>, username: Seq<char>) -> bool {
    exists|i: int| username_at(users, username, i)
}

/// Whether a user other than `id` has the user name `username`.
pub open spec fn username_of_other(users: Seq<UserView>, username: Seq<char>, id: Uuid) -> bool {
    exists|i: int| username_at(users, username, i) && users[i].id != id
}

/// Whether a new record with this external id would repeat one in the table.
pub open spec fn github_id_taken(users: Seq<UserView>, github_id: Option<i64>) -> bool {
    github_id matches Some(g) && has_github_user(users, g)
}

/// How many records at the front of the table were created no later than `now`:
/// the place where a record created at `now` is put.
pub open spec fn user_slot(users: Seq<UserView>, now: Timestamp) -> int
    decreases users.len(),
{
    if users.len() == 0 || users[0].created_at.nanos > now.nanos {
        0
    } else {
        1 + user_slot(users.drop_first(), now)
    }
}

/// What looking a user up by its identifier gives.
pub open spec fn find_user(users: Seq<UserView>, id: Uuid) -> Result<UserView, Error> {
    if has_user(users, id) {
        Ok(users[user_index(users, id)])
    } else {
        Err(Error::NotFound)
    }
}

/// What looking a user up by its external id gives.
pub open spec fn find_github_user(users: Seq<UserView>, github_id: i64) -> Result<
    UserView,
    Error,
> {
    if has_github_user(users, github_id) {
        Ok(users[github_user_index(users, github_id)])
    } else {
        Err(Error::NotFound)
    }
}

/// What creating a user gives: the new record, a validation error for a
/// malformed payload, or a storage error where the identifier, the user name
/// or the external id is already in the table.
pub open spec fn create_user_result(
    users: Seq<UserView>,
    request: UserRequestView,
    id: Uuid,
    now: Timestamp,
) -> Result<UserView, Error> {
    if !request.valid() {
        Err(Error::ValidationError)
    } else if has_user(users, id) || has_username(users, request.username) || github_id_taken(
        users,
        request.github_id,
    ) {
        Err(Error::StorageError)
    } else {
        Ok(UserView::created(request, id, now))
    }
}

/// The users table after an attempt to create a user.
pub open spec fn users_after_create(
    users: Seq<UserView>,
    request: UserRequestView,
    id: Uuid,
    now: Timestamp,
) -> Seq<UserView> {
    match create_user_result(users, request, id, now) {
        Ok(user) => users.insert(user_slot(users, now), user),
        Err(_) => users,
    }
}

/// What updating the user `id` gives: the record after the update, a
/// validation error for a malformed payload, `NotFound` where no user has the
/// identifier, or a storage error where another user holds the new user name.
pub open spec fn update_user_result(
    users: Seq<UserView>,
    id: Uuid,
    request: UserRequestView,
    now: Timestamp,
) -> Result<UserView, Error> {
    if !request.valid() {
        Err(Error::ValidationError)
    } else if !has_user(users, id) {
        Err(Error::NotFound)
    } else if username_of_other(users, request.username, id) {
        Err(Error::StorageError)
    } else {
        Ok(users[user_index(users, id)].updated(request, now))
    }
}

/// What creating a user gives: a storage error where the store has no
/// identifier left, and else what the creation under the store's next
/// identifier gives.
pub open spec fn create_user_outcome(
    db: DatabaseView,
    request: UserRequestView,
    now: Timestamp,
) -> Result<UserView, Error> {
    if db.exhausted() {
        Err(Error::StorageError)
    } else {
        create_user_result(db.users, request, db.fresh_id(), now)
    }
}

/// The store after an attempt to create a user: where the attempt succeeds
/// the users table holds the new record and the next identifier is one
/// further; else the store is as it was.
pub open spec fn after_create_user(
    db: DatabaseView,
    request: UserRequestView,
    now: Timestamp,
) -> DatabaseView {
    if create_user_outcome(db, request, now) is Ok {
        DatabaseView {
            users: users_after_create(db.users, request, db.fresh_id(), now),
            posts: db.posts,
            next_id: (db.next_id + 1) as u128,
        }
    } else {
        db
    }
}

/// The users table after an attempt to update the user `id`.
pub open spec fn users_after_update(
    users: Seq<UserView>,
    id: Uuid,
    request: UserRequestView,
    now: Timestamp,
) -> Seq<UserView> {
    match update_user_result(users, id, request, now) {
        Ok(user) => users.update(user_index(users, id), user),
        Err(_) => users,
    }
}

/// How many records deleting the user `id` removes.
pub open spec fn delete_user_count(users: Seq<UserView>, id: Uuid) -> int {
    if has_user(users, id) {
        1
    } else {
        0
    }
}

/// The users table after deleting the user `id`.
pub open spec fn users_after_delete(users: Seq<UserView>, id: Uuid) -> Seq<UserView> {
    if has_user(users, id) {
        users.remove(user_index(users, id))
    } else {
        users
    }
}

/// In a table that meets its constraints, the record with a given identifier
/// stands at one place only.
pub proof fn lemma_user_index_unique(users: Seq<UserView>, id: Uuid, i: int)
    requires
        users_wf(users),
        user_id_at(users, id, i),
    ensures
        has_user(users, id),
        user_index(users, id) == i,
        find_user(users, id) == Ok::<UserView, Error>(users[i]),
{
    let j = user_index(users, id);
    assert(user_id_at(users, id, j));
    if j < i {
        assert(users[j].id != users[i].id);
    } else if i < j {
        assert(users[i].id != users[j].id);
    }
}

/// In a table that meets its constraints, the record with a given external
/// id stands at one place only.
pub proof fn lemma_github_index_unique(users: Seq<UserView>, github_id: i64, i: int)
    requires
        users_wf(users),
        github_id_at(users, github_id, i),
    ensures
        has_github_user(users, github_id),
        github_user_index(users, github_id) == i,
        find_github_user(users, github_id) == Ok::<UserView, Error>(users[i]),
{
    let j = github_user_index(users, github_id);
    assert(github_id_at(users, github_id, j));
    if j < i {
        assert(users[j].github_id != users[i].github_id);
    } else if i < j {
        assert(users[i].github_id != users[j].github_id);
    }
}

/// The slot for a new record lies inside the table; everything before it was
/// created no later than `now`, and what stands at it was created later.
pub proof fn lemma_user_slot(users: Seq<UserView>, now: Timestamp)
    ensures
        0 <= user_slot(users, now) <= users.len(),
        forall|i: int|
            0 <= i < user_slot(users, now) ==> (#[trigger] users[i]).created_at.nanos <= now.nanos,
        user_slot(users, now) < users.len() ==> users[user_slot(users, now)].created_at.nanos
            > now.nanos,
    decreases users.len(),
{
    if users.len() == 0 || users[0].created_at.nanos > now.nanos {
    } else {
        let rest = users.drop_first();
        lemma_user_slot(rest, now);
        assert forall|i: int| 0 <= i < user_slot(users, now) implies (
        #[trigger] users[i]).created_at.nanos <= now.nanos by {
            if i > 0 {
                assert(users[i] == rest[i - 1]);
            }
        }
        if user_slot(users, now) < users.len() {
            assert(users[user_slot(users, now)] == rest[user_slot(rest, now)]);
        }
    }
}

/// Leaving out a record created no later than `now` moves the slot by one.
proof fn lemma_user_slot_step(users: Seq<UserView>, now: Timestamp, i: int)
    requires
        0 <= i < users.len(),
        users[i].created_at.nanos <= now.nanos,
    ensures
        user_slot(users.skip(i), now) == 1 + user_slot(users.skip(i + 1), now),
{
    assert(users.skip(i).drop_first() == users.skip(i + 1));
    assert(users.skip(i)[0] == users[i]);
}

/// Creating a user keeps the constraints of the table.
#[verifier::rlimit(30)]
#[verifier::spinoff_prover]
pub proof fn lemma_create_keeps_users_wf(
    users: Seq<UserView>,
    request: UserRequestView,
    id: Uuid,
    now: Timestamp,
)
    requires
        users_wf(users),
    ensures
        users_wf(users_after_create(users, request, id, now)),
{
    if create_user_result(users, request, id, now) is Ok {
        let user = UserView::created(request, id, now);
        let p = user_slot(users, now);
        lemma_user_slot(users, now);
        let after = users.insert(p, user);
        users.insert_ensures(p, user);
        assert forall|i: int| 0 <= i < after.len() implies (#[trigger] after[i]) == (if i < p {
            users[i]
        } else if i == p {
            user
        } else {
            users[i - 1]
        }) by {
            if i > p {
                assert(after[(i - 1) + 1] == users[i - 1]);
            }
        }
        assert forall|i: int| 0 <= i < users.len() implies (#[trigger] users[i]).id != id
            && users[i].username != request.username && (request.github_id is Some
            ==> users[i].github_id != request.github_id) by {
            if users[i].id == id {
                assert(user_id_at(users, id, i));
            }
            if users[i].username == request.username {
                assert(username_at(users, request.username, i));
            }
            if request.github_id is Some && users[i].github_id == request.github_id {
                assert(github_id_at(users, request.github_id->0, i));
            }
        }
        assert forall|i: int, j: int| 0 <= i <= j < after.len() implies (
        #[trigger] after[i]).created_at.nanos <= (#[trigger] after[j]).created_at.nanos by {
            if i < p && j > p {
                assert(users[i].created_at.nanos <= users[j - 1].created_at.nanos);
            } else if i > p {
                assert(users[i - 1].created_at.nanos <= users[j - 1].created_at.nanos);
            } else if i == p && j > p {
                assert(users[p].created_at.nanos <= users[j - 1].created_at.nanos);
            } else if i < p && j < p {
                assert(users[i].created_at.nanos <= users[j].created_at.nanos);
            }
        }
        assert forall|i: int, j: int| 0 <= i < j < after.len() implies (#[trigger] after[i]).id
            != (#[trigger] after[j]).id && after[i].username != after[j].username && (
        after[i].github_id is Some ==> after[i].github_id != after[j].github_id) by {
            let a = if i < p {
                i
            } else {
                i - 1
            };
            let b = if j < p {
                j
            } else {
                j - 1
            };
            if i != p && j != p {
                assert(a < b);
                assert(users[a].id != users[b].id);
                assert(users[a].username != users[b].username);
                assert(users[a].github_id is Some ==> users[a].github_id != users[b].github_id);
            } else if i == p {
                assert(after[j] == users[b]);
            } else {
                assert(after[i] == users[a]);
            }
        }
        assert forall|i: int| 0 <= i < after.len() implies (#[trigger] after[i]).username.len()
            > 0 && after[i].role.is_account() by {
            if i < p {
                assert(after[i] == users[i]);
            } else if i > p {
                assert(after[i] == users[i - 1]);
            }
        }
    }
}

/// Updating a user keeps the constraints of the table.
pub proof fn lemma_update_keeps_users_wf(
    users: Seq<UserView>,
    id: Uuid,
    request: UserRequestView,
    now: Timestamp,
)
    requires
        users_wf(users),
    ensures
        users_wf(users_after_update(users, id, request, now)),
{
    if update_user_result(users, id, request, now) is Ok {
        let k = user_index(users, id);
        assert(user_id_at(users, id, k));
        let user = users[k].updated(request, now);
        let after = users.update(k, user);
        assert forall|i: int| 0 <= i < users.len() && i != k implies (
        #[trigger] users[i]).username != request.username by {
            if users[i].username == request.username {
                assert(username_at(users, request.username, i));
                if i < k {
                    assert(users[i].id != users[k].id);
                } else {
                    assert(users[k].id != users[i].id);
                }
            }
        }
        assert forall|i: int, j: int| 0 <= i < j < after.len() implies (#[trigger] after[i]).id
            != (#[trigger] after[j]).id && after[i].username != after[j].username && (
        after[i].github_id is Some ==> after[i].github_id != after[j].github_id) by {
            assert(users[i].id != users[j].id);
            assert(users[i].username != users[j].username);
            assert(users[i].github_id is Some ==> users[i].github_id != users[j].github_id);
        }
        assert forall|i: int, j: int| 0 <= i <= j < after.len() implies (
        #[trigger] after[i]).created_at.nanos <= (#[trigger] after[j]).created_at.nanos by {
            assert(users[i].created_at.nanos <= users[j].created_at.nanos);
        }
        assert forall|i: int| 0 <= i < after.len() implies (#[trigger] after[i]).username.len()
            > 0 && after[i].role.is_account() by {
            assert(users[i].username.len() > 0);
        }
    }
}

/// Deleting a user keeps the constraints of the table.
pub proof fn lemma_delete_keeps_users_wf(users: Seq<UserView>, id: Uuid)
    requires
        users_wf(users),
    ensures
        users_wf(users_after_delete(users, id)),
{
    if has_user(users, id) {
        let k = user_index(users, id);
        assert(user_id_at(users, id, k));
        let after = users.remove(k);
        users.remove_ensures(k);
        assert forall|i: int| 0 <= i < after.len() implies (#[trigger] after[i]) == (if i < k {
            users[i]
        } else {
            users[i + 1]
        }) by {}
        assert forall|i: int, j: int| 0 <= i < j < after.len() implies (#[trigger] after[i]).id
            != (#[trigger] after[j]).id && after[i].username != after[j].username && (
        after[i].github_id is Some ==> after[i].github_id != after[j].github_id) by {
            let a = if i < k {
                i
            } else {
                i + 1
            };
            let b = if j < k {
                j
            } else {
                j + 1
            };
            assert(users[a].id != users[b].id);
            assert(users[a].username != users[b].username);
            assert(users[a].github_id is Some ==> users[a].github_id != users[b].github_id);
        }
        assert forall|i: int, j: int| 0 <= i <= j < after.len() implies (
        #[trigger] after[i]).created_at.nanos <= (#[trigger] after[j]).created_at.nanos by {
            let a = if i < k {
                i
            } else {
                i + 1
            };
            let b = if j < k {
                j
            } else {
                j + 1
            };
            assert(users[a].created_at.nanos <= users[b].created_at.nanos);
        }
        assert forall|i: int| 0 <= i < after.len() implies (#[trigger] after[i]).username.len()
            > 0 && after[i].role.is_account() by {
            let a = if i < k {
                i
            } else {
                i + 1
            };
            assert(users[a].username.len() > 0);
        }
    }
}

/// A user that was created is found under its identifier, and the record
/// found equals the payload on every field but the two timestamps, which are
/// the moment the server assigned.
pub proof fn law_create_then_find_user(
    users: Seq<UserView>,
    request: UserRequestView,
    id: Uuid,
    now: Timestamp,
)
    requires
        users_wf(users),
        request.valid(),
    ensures
        create_user_result(users, request, id, now) matches Ok(user) ==> {
            &&& find_user(users_after_create(users, request, id, now), id) == Ok::<UserView, Error>(
                user,
            )
            &&& user.id == id
            &&& user.username == request.username
            &&& user.email == request.email
            &&& user.password == request.password
            &&& user.name == request.name
            &&& user.avatar_url == request.avatar_url
            &&& user.gravatar_id == request.gravatar_id
            &&& user.github_id == request.github_id
            &&& user.github_token == request.github_token
            &&& user.role == request.role
            &&& user.created_at == now
            &&& user.updated_at == now
        },
{
    if create_user_result(users, request, id, now) is Ok {
        let user = UserView::created(request, id, now);
        let after = users_after_create(users, request, id, now);
        lemma_create_keeps_users_wf(users, request, id, now);
        lemma_user_slot(users, now);
        users.insert_ensures(user_slot(users, now), user);
        lemma_user_index_unique(after, id, user_slot(users, now));
    }
}

/// A user that was created with an external id is found under that id.
pub proof fn law_create_then_find_github_user(
    users: Seq<UserView>,
    request: UserRequestView,
    id: Uuid,
    now: Timestamp,
)
    requires
        users_wf(users),
    ensures
        create_user_result(users, request, id, now) matches Ok(user) ==> (request.github_id
            matches Some(g) ==> find_github_user(users_after_create(users, request, id, now), g)
            == Ok::<UserView, Error>(user)),
{
    if create_user_result(users, request, id, now) is Ok && request.github_id is Some {
        let user = UserView::created(request, id, now);
        let after = users_after_create(users, request, id, now);
        lemma_create_keeps_users_wf(users, request, id, now);
        lemma_user_slot(users, now);
        users.insert_ensures(user_slot(users, now), user);
        lemma_github_index_unique(after, request.github_id->0, user_slot(users, now));
    }
}

/// After an update the user is found under its identifier as the update left
/// it: every mutable field is the payload's, the moment of the update is the
/// one the server assigned, and the identifier, the external id and the
/// moment of creation are what they were.
pub proof fn law_update_then_find_user(
    users: Seq<UserView>,
    id: Uuid,
    request: UserRequestView,
    now: Timestamp,
)
    requires
        users_wf(users),
    ensures
        update_user_result(users, id, request, now) matches Ok(user) ==> {
            &&& find_user(users_after_update(users, id, request, now), id) == Ok::<UserView, Error>(
                user,
            )
            &&& find_user(users, id) matches Ok(before) && {
                &&& user.id == before.id
                &&& user.github_id == before.github_id
                &&& user.created_at == before.created_at
            }
            &&& user.username == request.username
            &&& user.email == request.email
            &&& user.password == request.password
            &&& user.name == request.name
            &&& user.avatar_url == request.avatar_url
            &&& user.gravatar_id == request.gravatar_id
            &&& user.github_token == request.github_token
            &&& user.role == request.role
            &&& user.updated_at == now
        },
{
    if update_user_result(users, id, request, now) is Ok {
        let k = user_index(users, id);
        assert(user_id_at(users, id, k));
        let after = users_after_update(users, id, request, now);
        lemma_update_keeps_users_wf(users, id, request, now);
        lemma_user_index_unique(after, id, k);
    }
}

/// Deleting a user removes one record where the user exists and none where
/// it does not; afterwards the user is not found, and deleting it once more
/// removes nothing.
pub proof fn law_delete_user_once(users: Seq<UserView>, id: Uuid)
    requires
        users_wf(users),
    ensures
        has_user(users, id) ==> delete_user_count(users, id) == 1,
        !has_user(users, id) ==> delete_user_count(users, id) == 0 && users_after_delete(users, id)
            == users,
        delete_user_count(users_after_delete(users, id), id) == 0,
        find_user(users_after_delete(users, id), id) == Err::<UserView, Error>(Error::NotFound),
{
    if has_user(users, id) {
        let k = user_index(users, id);
        assert(user_id_at(users, id, k));
        let after = users.remove(k);
        users.remove_ensures(k);
        assert forall|i: int| !user_id_at(after, id, i) by {
            if 0 <= i < after.len() {
                if i < k {
                    assert(after[i] == users[i]);
                    assert(users[i].id != users[k].id);
                } else {
                    assert(after[i] == users[i + 1]);
                    assert(users[k].id != users[i + 1].id);
                }
            }
        }
    }
}

/// Creating, updating or deleting one user leaves every other user as it was.
#[verifier::spinoff_prover]
pub proof fn law_other_users_untouched(
    users: Seq<UserView>,
    request: UserRequestView,
    id: Uuid,
    now: Timestamp,
    other: Uuid,
)
    requires
        users_wf(users),
        other != id,
    ensures
        find_user(users_after_create(users, request, id, now), other) == find_user(users, other),
        find_user(users_after_update(users, id, request, now), other) == find_user(users, other),
        find_user(users_after_delete(users, id), other) == find_user(users, other),
{
    lemma_create_keeps_users_wf(users, request, id, now);
    lemma_update_keeps_users_wf(users, id, request, now);
    lemma_delete_keeps_users_wf(users, id);
    if create_user_result(users, request, id, now) is Ok {
        let p = user_slot(users, now);
        let user = UserView::created(request, id, now);
        let after = users.insert(p, user);
        lemma_user_slot(users, now);
        users.insert_ensures(p, user);
        if has_user(users, other) {
            let k = user_index(users, other);
            assert(user_id_at(users, other, k));
            if k < p {
                assert(after[k] == users[k]);
                lemma_user_index_unique(after, other, k);
            } else {
                assert(after[k + 1] == users[k]);
                lemma_user_index_unique(after, other, k + 1);
            }
        } else {
            assert forall|i: int| !user_id_at(after, other, i) by {
                if 0 <= i < after.len() {
                    if i < p {
                        assert(after[i] == users[i]);
                        assert(!user_id_at(users, other, i));
                    } else if i > p {
                        assert(after[(i - 1) + 1] == users[i - 1]);
                        assert(!user_id_at(users, other, i - 1));
                    }
                }
            }
        }
    }
    if update_user_result(users, id, request, now) is Ok {
        let k = user_index(users, id);
        assert(user_id_at(users, id, k));
        let after = users.update(k, users[k].updated(request, now));
        if has_user(users, other) {
            let m = user_index(users, other);
            assert(user_id_at(users, other, m));
            assert(after[m] == users[m]);
            lemma_user_index_unique(after, other, m);
        } else {
            assert forall|i: int| !user_id_at(after, other, i) by {
                if 0 <= i < after.len() {
                    assert(!user_id_at(users, other, i));
                }
            }
        }
    }
    lemma_delete_keeps_others(users, id, other);
}

/// Deleting one user leaves every other user as it was.
pub proof fn lemma_delete_keeps_others(users: Seq<UserView>, id: Uuid, other: Uuid)
    requires
        users_wf(users),
        other != id,
    ensures
        find_user(users_after_delete(users, id), other) == find_user(users, other),
{
    lemma_delete_keeps_users_wf(users, id);
    if has_user(users, id) {
        let k = user_index(users, id);
        assert(user_id_at(users, id, k));
        let after = users.remove(k);
        users.remove_ensures(k);
        if has_user(users, other) {
            let m = user_index(users, other);
            assert(user_id_at(users, other, m));
            if m < k {
                assert(after[m] == users[m]);
                lemma_user_index_unique(after, other, m);
            } else {
                assert(after[m - 1] == users[(m - 1) + 1]);
                lemma_user_index_unique(after, other, m - 1);
            }
        } else {
            assert forall|i: int| !user_id_at(after, other, i) by {
                if 0 <= i < after.len() {
                    if i < k {
                        assert(after[i] == users[i]);
                        assert(!user_id_at(users, other, i));
                    } else {
                        assert(after[i] == users[i + 1]);
                        assert(!user_id_at(users, other, i + 1));
                    }
                }
            }
        }
    }
}

/// No record has an identifier that lies at or above a bound on all of them.
pub proof fn lemma_fresh_user_id(users: Seq<UserView>, id: Uuid)
    requires
        user_ids_below(users, id.value as int),
    ensures
        !has_user(users, id),
{
    assert forall|i: int| !user_id_at(users, id, i) by {
        if 0 <= i < users.len() {
            assert(users[i].id.value < id.value);
        }
    }
}

/// A bound on the identifiers of the table holds on after a user below the
/// bound is created, and after any user is updated.
pub proof fn lemma_user_ids_stay_below(
    users: Seq<UserView>,
    request: UserRequestView,
    id: Uuid,
    now: Timestamp,
    bound: int,
)
    requires
        user_ids_below(users, bound),
    ensures
        id.value < bound ==> user_ids_below(users_after_create(users, request, id, now), bound),
        user_ids_below(users_after_update(users, id, request, now), bound),
{
    if create_user_result(users, request, id, now) is Ok && id.value < bound {
        let p = user_slot(users, now);
        let user = UserView::created(request, id, now);
        let after = users.insert(p, user);
        lemma_user_slot(users, now);
        users.insert_ensures(p, user);
        assert forall|i: int| 0 <= i < after.len() implies (#[trigger] after[i]).id.value
            < bound by {
            if i < p {
                assert(after[i] == users[i]);
            } else if i > p {
                assert(after[(i - 1) + 1] == users[i - 1]);
            }
        }
    }
    if update_user_result(users, id, request, now) is Ok {
        let k = user_index(users, id);
        assert(user_id_at(users, id, k));
        let after = users.update(k, users[k].updated(request, now));
        assert forall|i: int| 0 <= i < after.len() implies (#[trigger] after[i]).id.value
            < bound by {
            assert(users[i].id.value < bound);
        }
    }
}

/// A bound on the identifiers of the table holds on after a user is deleted.
pub proof fn lemma_user_ids_below_after_delete(users: Seq<UserView>, id: Uuid, bound: int)
    requires
        user_ids_below(users, bound),
    ensures
        user_ids_below(users_after_delete(users, id), bound),
{
    if has_user(users, id) {
        let k = user_index(users, id);
        assert(user_id_at(users, id, k));
        let after = users.remove(k);
        users.remove_ensures(k);
        assert forall|i: int| 0 <= i < after.len() implies (#[trigger] after[i]).id.value
            < bound by {
            if i < k {
                assert(after[i] == users[i]);
            } else {
                assert(after[i] == users[i + 1]);
            }
        }
    }
}

/// The identifier that the store assigns next belongs to no record. A valid
/// payload is stored exactly where the store has an identifier left and
/// neither the user name nor the external id is in use; the user is then
/// found under the identifier it was given, and the store meets its
/// constraints.
pub proof fn law_created_user_is_found(
    db: DatabaseView,
    request: UserRequestView,
    now: Timestamp,
)
    requires
        db.wf(),
        request.valid(),
    ensures
        !has_user(db.users, db.fresh_id()),
        !has_post(db.posts, db.fresh_id()),
        create_user_outcome(db, request, now) is Ok <==> !db.exhausted() && !has_username(
            db.users,
            request.username,
        ) && !github_id_taken(db.users, request.github_id),
        create_user_outcome(db, request, now) is Err ==> after_create_user(db, request, now) == db,
        create_user_outcome(db, request, now) matches Ok(user) ==> {
            &&& user == UserView::created(request, db.fresh_id(), now)
            &&& find_user(after_create_user(db, request, now).users, user.id) == Ok::<
                UserView,
                Error,
            >(user)
            &&& after_create_user(db, request, now).posts == db.posts
            &&& after_create_user(db, request, now).wf()
        },
{
    let id = db.fresh_id();
    lemma_fresh_user_id(db.users, id);
    lemma_fresh_post_id(db.posts, id);
    if create_user_outcome(db, request, now) is Ok {
        law_create_then_find_user(db.users, request, id, now);
        lemma_create_keeps_users_wf(db.users, request, id, now);
        lemma_owners_kept(db.users, db.posts, request, id, now);
        lemma_user_ids_stay_below(db.users, request, id, now, db.next_id + 1);
    }
}

/// A user that the table holds is still held after another user, or that
/// user itself, is created or updated.
pub proof fn lemma_has_user_kept(
    users: Seq<UserView>,
    request: UserRequestView,
    id: Uuid,
    now: Timestamp,
    other: Uuid,
)
    requires
        users_wf(users),
        has_user(users, other),
    ensures
        has_user(users_after_create(users, request, id, now), other),
        has_user(users_after_update(users, id, request, now), other),
{
    if other != id {
        law_other_users_untouched(users, request, id, now, other);
        assert(find_user(users, other) is Ok);
    } else {
        if update_user_result(users, id, request, now) is Ok {
            let k = user_index(users, id);
            assert(user_id_at(users, id, k));
            assert(user_id_at(users_after_update(users, id, request, now), id, k));
        }
    }
}

/// The foreign key of the posts table holds on after a user is created or
/// updated.
pub proof fn lemma_owners_kept(
    users: Seq<UserView>,
    posts: Seq<PostView>,
    request: UserRequestView,
    id: Uuid,
    now: Timestamp,
)
    requires
        users_wf(users),
        owners_stored(users, posts),
    ensures
        owners_stored(users_after_create(users, request, id, now), posts),
        owners_stored(users_after_update(users, id, request, now), posts),
{
    assert forall|i: int| 0 <= i < posts.len() implies has_user(
        users_after_create(users, request, id, now),
        (#[trigger] posts[i]).user_id,
    ) && has_user(users_after_update(users, id, request, now), posts[i].user_id) by {
        lemma_has_user_kept(users, request, id, now, posts[i].user_id);
    }
}

/// A user that is deleted takes its posts along and no others: afterwards
/// no post belongs to it, every post of another user is still there, both
/// tables meet their constraints, and every post belongs to a stored user.
pub proof fn law_delete_user_removes_its_posts(
    users: Seq<UserView>,
    posts: Seq<PostView>,
    id: Uuid,
)
    requires
        users_wf(users),
        posts_wf(posts),
        owners_stored(users, posts),
    ensures
        users_wf(users_after_delete(users, id)),
        posts_wf(posts_after_user_delete(users, posts, id)),
        owners_stored(users_after_delete(users, id), posts_after_user_delete(users, posts, id)),
        forall|k: int|
            0 <= k < posts_after_user_delete(users, posts, id).len() ==> (
            #[trigger] posts_after_user_delete(users, posts, id)[k]).user_id != id,
        forall|j: int|
            0 <= j < posts.len() && (#[trigger] posts[j]).user_id != id ==> holds_post(
                posts_after_user_delete(users, posts, id),
                posts[j],
            ),
{
    lemma_delete_keeps_users_wf(users, id);
    if has_user(users, id) {
        let kept = posts_without_owner(posts, id);
        lemma_posts_without_owner(posts, id);
        assert forall|k: int| 0 <= k < kept.len() implies has_user(
            users_after_delete(users, id),
            (#[trigger] kept[k]).user_id,
        ) by {
            let j = choose|j: int| post_at(posts, kept[k], j);
            assert(post_at(posts, kept[k], j));
            assert(has_user(users, posts[j].user_id));
            lemma_delete_keeps_others(users, id, kept[k].user_id);
            assert(find_user(users, kept[k].user_id) is Ok);
        }
    } else {
        assert forall|k: int| 0 <= k < posts.len() implies (#[trigger] posts[k]).user_id
            != id by {
            assert(has_user(users, posts[k].user_id));
        }
        assert forall|j: int| 0 <= j < posts.len() implies holds_post(
            posts,
            #[trigger] posts[j],
        ) by {
            assert(post_at(posts, posts[j], j));
        }
    }
}

/// The outcome of an operation that hands out a user, as contracts see it.
pub open spec fn user_outcome(outcome: Result<User, Error>) -> Result<UserView, Error> {
    match outcome {
        Ok(user) => Ok(user@),
        Err(e) => Err(e),
    }
}

/// Finds the place of the user with the identifier `id`.
pub(crate) fn locate_user(users: &Vec<User>, id: Uuid) -> (place: Option<usize>)
    ensures
        match place {
            Some(i) => user_id_at(user_views(users@), id, i as int),
            None => !has_user(user_views(users@), id),
        },
{
    let mut i: usize = 0;
    while i < users.len()
        invariant
            i <= users.len(),
            forall|k: int| 0 <= k < i ==> users@[k].id != id,
        decreases users.len() - i,
    {
        if users[i].id.value == id.value {
            return Some(i);
        }
        i = i + 1;
    }
    assert forall|k: int| !user_id_at(user_views(users@), id, k) by {
        if 0 <= k < users.len() {
            assert(user_views(users@)[k] == users@[k]@);
        }
    }
    None
}

/// Finds the place of the user with the external id `github_id`.
fn locate_github_user(users: &Vec<User>, github_id: i64) -> (place: Option<usize>)
    ensures
        match place {
            Some(i) => github_id_at(user_views(users@), github_id, i as int),
            None => !has_github_user(user_views(users@), github_id),
        },
{
    let mut i: usize = 0;
    while i < users.len()
        invariant
            i <= users.len(),
            forall|k: int| 0 <= k < i ==> users@[k].github_id != Some(github_id),
        decreases users.len() - i,
    {
        match users[i].github_id {
            Some(g) => {
                if g == github_id {
                    return Some(i);
                }
            },
            None => {},
        }
        i = i + 1;
    }
    assert forall|k: int| !github_id_at(user_views(users@), github_id, k) by {
        if 0 <= k < users.len() {
            assert(user_views(users@)[k] == users@[k]@);
        }
    }
    None
}

/// Finds the place of the user with the user name `username`.
fn locate_username(users: &Vec<User>, username: &String) -> (place: Option<usize>)
    ensures
        match place {
            Some(i) => username_at(user_views(users@), username@, i as int),
            None => !has_username(user_views(users@), username@),
        },
{
    let mut i: usize = 0;
    while i < users.len()
        invariant
            i <= users.len(),
            forall|k: int| 0 <= k < i ==> users@[k].username@ != username@,
        decreases users.len() - i,
    {
        if users[i].username == *username {
            return Some(i);
        }
        i = i + 1;
    }
    assert forall|k: int| !username_at(user_views(users@), username@, k) by {
        if 0 <= k < users.len() {
            assert(user_views(users@)[k] == users@[k]@);
        }
    }
    None
}

/// Finds the place where a record created at `now` is put.
fn locate_user_slot(users: &Vec<User>, now: Timestamp) -> (slot: usize)
    ensures
        slot == user_slot(user_views(users@), now),
        slot <= users.len(),
{
    let ghost views = user_views(users@);
    let mut i: usize = 0;
    assert(views.skip(0) == views);
    while i < users.len() && users[i].created_at.nanos <= now.nanos
        invariant
            i <= users.len(),
            views == user_views(users@),
            user_slot(views, now) == i + user_slot(views.skip(i as int), now),
        decreases users.len() - i,
    {
        proof {
            assert(views[i as int] == users@[i as int]@);
            lemma_user_slot_step(views, now, i as int);
        }
        i = i + 1;
    }
    proof {
        if i < users.len() {
            assert(views.skip(i as int)[0] == users@[i as int]@);
        }
    }
    i
}

impl User {
    /// Every user, in the order of creation.
    pub fn find_all(db: &Database) -> (found: Result<Vec<User>, Error>)
        requires
            db.wf(),
        ensures
            found matches Ok(users) && {
                &&& user_views(users@) == db@.users
                &&& forall|i: int, j: int|
                    0 <= i <= j < users@.len() ==> (#[trigger] users@[i]).created_at.nanos <= (
                    #[trigger] users@[j]).created_at.nanos
            },
    {
        let mut users: Vec<User> = Vec::new();
        let mut i: usize = 0;
        while i < db.users.len()
            invariant
                i <= db.users.len(),
                users@.len() == i,
                forall|k: int| 0 <= k < i ==> users@[k] == db.users@[k],
            decreases db.users.len() - i,
        {
            users.push(db.users[i].clone());
            i = i + 1;
        }
        assert(user_views(users@) =~= user_views(db.users@));
        assert forall|i: int, j: int| 0 <= i <= j < users@.len() implies (
        #[trigger] users@[i]).created_at.nanos <= (#[trigger] users@[j]).created_at.nanos by {
            assert(db@.users[i] == users@[i]@ && db@.users[j] == users@[j]@);
        }
        Ok(users)
    }

    /// The user with the identifier `id`, or `NotFound`.
    pub fn find_by_id(id: Uuid, db: &Database) -> (found: Result<User, Error>)
        requires
            db.wf(),
        ensures
            user_outcome(found) == find_user(db@.users, id),
    {
        match locate_user(&db.users, id) {
            Some(i) => {
                proof {
                    lemma_user_index_unique(db@.users, id, i as int);
                }
                Ok(db.users[i].clone())
            },
            None => Err(Error::NotFound),
        }
    }

    /// The user with the external id `id`, or `NotFound`.
    pub fn find_by_github_id(id: i64, db: &Database) -> (found: Result<User, Error>)
        requires
            db.wf(),
        ensures
            user_outcome(found) == find_github_user(db@.users, id),
    {
        match locate_github_user(&db.users, id) {
            Some(i) => {
                proof {
                    lemma_github_index_unique(db@.users, id, i as int);
                }
                Ok(db.users[i].clone())
            },
            None => Err(Error::NotFound),
        }
    }

    /// Stores a new user under an identifier that the store assigns, with
    /// both timestamps set to `now`, and hands the stored record out.
    pub fn create(user: UserRequest, db: &mut Database, now: Timestamp) -> (created: Result<
        User,
        Error,
    >)
        requires
            old(db).wf(),
        ensures
            final(db).wf(),
            user_outcome(created) == create_user_outcome(old(db)@, user@, now),
            final(db)@ == after_create_user(old(db)@, user@, now),
    {
        let ghost before = db@.users;
        if db.next_id == u128::MAX {
            return Err(Error::StorageError);
        }
        let id = Uuid { value: db.next_id };
        proof {
            lemma_create_keeps_users_wf(before, user@, id, now);
            lemma_owners_kept(before, db@.posts, user@, id, now);
            lemma_fresh_user_id(before, id);
            lemma_user_ids_stay_below(before, user@, id, now, db.next_id + 1);
        }
        if !user.is_valid() {
            return Err(Error::ValidationError);
        }
        if locate_username(&db.users, &user.username).is_some() {
            return Err(Error::StorageError);
        }
        match user.github_id {
            Some(g) => {
                if locate_github_user(&db.users, g).is_some() {
                    return Err(Error::StorageError);
                }
            },
            None => {},
        }
        let slot = locate_user_slot(&db.users, now);
        let record = User::from_request(user, id, now);
        let copy = record.clone();
        db.users.insert(slot, record);
        db.next_id = db.next_id + 1;
        assert(db@.users =~= before.insert(slot as int, copy@));
        Ok(copy)
    }

    /// Replaces the mutable fields of the user `id` by those of the payload,
    /// sets the moment of the update to `now`, and hands the record out.
    pub fn update(id: Uuid, user: UserRequest, db: &mut Database, now: Timestamp) -> (updated:
        Result<User, Error>)
        requires
            old(db).wf(),
        ensures
            final(db).wf(),
            user_outcome(updated) == update_user_result(old(db)@.users, id, user@, now),
            final(db)@.users == users_after_update(old(db)@.users, id, user@, now),
            final(db)@.posts == old(db)@.posts,
            final(db)@.next_id == old(db)@.next_id,
    {
        let ghost before = db@.users;
        proof {
            lemma_update_keeps_users_wf(before, id, user@, now);
            lemma_owners_kept(before, db@.posts, user@, id, now);
            lemma_user_ids_stay_below(before, user@, id, now, db.next_id as int);
        }
        if !user.is_valid() {
            return Err(Error::ValidationError);
        }
        let place = match locate_user(&db.users, id) {
            Some(i) => i,
            None => {
                return Err(Error::NotFound);
            },
        };
        proof {
            lemma_user_index_unique(before, id, place as int);
        }
        match locate_username(&db.users, &user.username) {
            Some(j) => {
                if j != place {
                    proof {
                        if j < place {
                            assert(before[j as int].id != before[place as int].id);
                        } else {
                            assert(before[place as int].id != before[j as int].id);
                        }
                        assert(username_at(before, user@.username, j as int) && before[j as int].id
                            != id);
                    }
                    return Err(Error::StorageError);
                }
                proof {
                    assert forall|k: int|
                        !(username_at(before, user@.username, k) && before[k].id != id) by {
                        if username_at(before, user@.username, k) && k != j {
                            if k < j {
                                assert(before[k].username != before[j as int].username);
                            } else {
                                assert(before[j as int].username != before[k].username);
                            }
                        }
                    }
                }
            },
            None => {
                proof {
                    assert forall|k: int|
                        !(username_at(before, user@.username, k) && before[k].id != id) by {}
                }
            },
        }
        let record = db.users[place].apply(user, now);
        let copy = record.clone();
        db.users.set(place, record);
        assert(db@.users =~= before.update(place as int, copy@));
        Ok(copy)
    }

    /// Removes the user `id`, and with it the posts of that user, and says
    /// how many users went: 1, or 0 where no user has the identifier.
    pub fn delete(id: Uuid, db: &mut Database) -> (deleted: Result<u64, Error>)
        requires
            old(db).wf(),
        ensures
            final(db).wf(),
            deleted matches Ok(count) && count == delete_user_count(old(db)@.users, id),
            final(db)@.users == users_after_delete(old(db)@.users, id),
            final(db)@.posts == posts_after_user_delete(old(db)@.users, old(db)@.posts, id),
            final(db)@.next_id == old(db)@.next_id,
    {
        let ghost before = db@.users;
        let ghost posts_before = db@.posts;
        proof {
            lemma_delete_keeps_users_wf(before, id);
            lemma_user_ids_below_after_delete(before, id, db.next_id as int);
        }
        match locate_user(&db.users, id) {
            Some(i) => {
                proof {
                    lemma_user_index_unique(before, id, i as int);
                    law_delete_user_removes_its_posts(before, posts_before, id);
                    lemma_post_ids_without_owner(posts_before, id, db.next_id as int);
                }
                let _ = db.users.remove(i);
                let kept = posts_of_others(&db.posts, id);
                db.posts = kept;
                assert(db@.users =~= before.remove(i as int));
                Ok(1)
            },
            None => Ok(0),
        }
    }
}

} // verus!
