//! The JSON routes on users.

use crate::database::users::{
    after_create_user, create_user_outcome, delete_user_count, find_user, update_user_result,
    user_outcome, users_after_delete, users_after_update,
};
use crate::database::posts::posts_after_user_delete;
use crate::database::{user_views, Database};
use crate::models::post::PostView;
use crate::error::Error;
use crate::handlers::{HttpResponse, HttpResponseView};
use crate::models::id::{uuid_of_text, Timestamp, Uuid};
use crate::models::user::{User, UserRequest, UserRequestView, UserView};
use crate::text::{decimal, decimal_of, joined};
use vstd::prelude::*;

verus! {

/// The answer to "list the users", given the outcome of reading them.
pub open spec fn listed_response(outcome: Result<Seq<UserView>, Error>) -> HttpResponseView {
    match outcome {
        Ok(users) => HttpResponseView::users(users),
        Err(e) => HttpResponseView::failure(e, "Error trying to read all users from database"@),
    }
}

/// The answer to "show" or "update" a user, given the outcome of the lookup
/// or of the update.
pub open spec fn found_response(outcome: Result<UserView, Error>) -> HttpResponseView {
    match outcome {
        Ok(user) => HttpResponseView::user(user),
        Err(e) => HttpResponseView::failure(e, "User not found"@),
    }
}

/// The answer to "create a user", given the outcome of creating it.
pub open spec fn created_response(outcome: Result<UserView, Error>) -> HttpResponseView {
    match outcome {
        Ok(user) => HttpResponseView::user(user),
        Err(e) => HttpResponseView::failure(e, "Error trying to create new user"@),
    }
}

/// The message that reports how many records a deletion removed.
pub open spec fn deleted_message(rows: nat) -> Seq<char> {
    "Successfully deleted "@ + decimal_of(rows) + " record(s)"@
}

/// The answer to "delete", given how many records went: a count of zero means
/// that there was nothing to delete.
pub open spec fn deleted_response(
    outcome: Result<u64, Error>,
    missing: Seq<char>,
) -> HttpResponseView {
    match outcome {
        Ok(rows) => if rows > 0 {
            HttpResponseView::message(200, deleted_message(rows as nat))
        } else {
            HttpResponseView::failure(Error::NotFound, missing)
        },
        Err(e) => HttpResponseView::failure(e, missing),
    }
}

/// The answer to a request whose path does not hold a user's identifier.
pub open spec fn invalid_id_response() -> HttpResponseView {
    HttpResponseView::failure(Error::ValidationError, "Invalid User ID"@)
}

/// The answer to "show the user `id`".
pub open spec fn find_response(
    parsed: Result<Uuid, Error>,
    users: Seq<UserView>,
) -> HttpResponseView {
    match parsed {
        Ok(id) => found_response(find_user(users, id)),
        Err(_) => invalid_id_response(),
    }
}

/// The answer to "update the user `id`".
pub open spec fn update_response(
    parsed: Result<Uuid, Error>,
    users: Seq<UserView>,
    request: UserRequestView,
    now: Timestamp,
) -> HttpResponseView {
    match parsed {
        Ok(id) => found_response(update_user_result(users, id, request, now)),
        Err(_) => invalid_id_response(),
    }
}

/// The users table after "update the user `id`".
pub open spec fn users_after_update_request(
    parsed: Result<Uuid, Error>,
    users: Seq<UserView>,
    request: UserRequestView,
    now: Timestamp,
) -> Seq<UserView> {
    match parsed {
        Ok(id) => users_after_update(users, id, request, now),
        Err(_) => users,
    }
}

/// The answer to "delete the user `id`".
pub open spec fn delete_response(
    parsed: Result<Uuid, Error>,
    users: Seq<UserView>,
) -> HttpResponseView {
    match parsed {
        Ok(id) => deleted_response(
            Ok(delete_user_count(users, id) as u64),
            "User not found"@,
        ),
        Err(_) => invalid_id_response(),
    }
}

/// The posts table after "delete the user `id`": the posts of a user go with
/// the user.
pub open spec fn posts_after_delete_request(
    parsed: Result<Uuid, Error>,
    users: Seq<UserView>,
    posts: Seq<PostView>,
) -> Seq<PostView> {
    match parsed {
        Ok(id) => posts_after_user_delete(users, posts, id),
        Err(_) => posts,
    }
}

/// The users table after "delete the user `id`".
pub open spec fn users_after_delete_request(
    parsed: Result<Uuid, Error>,
    users: Seq<UserView>,
) -> Seq<UserView> {
    match parsed {
        Ok(id) => users_after_delete(users, id),
        Err(_) => users,
    }
}

/// Answers "list the users" from the outcome of reading them.
pub fn respond_listed(outcome: Result<Vec<User>, Error>) -> (response: HttpResponse)
    ensures
        response@ == listed_response(
            match outcome {
                Ok(users) => Ok(user_views(users@)),
                Err(e) => Err(e),
            },
        ),
{
    match outcome {
        Ok(users) => HttpResponse::users(&users),
        Err(e) => HttpResponse::failure(e, "Error trying to read all users from database"),
    }
}

/// Answers "show" or "update" from the outcome of the lookup or the update.
pub fn respond_found(outcome: Result<User, Error>) -> (response: HttpResponse)
    ensures
        response@ == found_response(user_outcome(outcome)),
{
    match outcome {
        Ok(user) => HttpResponse::user(&user),
        Err(e) => HttpResponse::failure(e, "User not found"),
    }
}

/// Answers "create a user" from the outcome of creating it.
pub fn respond_created(outcome: Result<User, Error>) -> (response: HttpResponse)
    ensures
        response@ == created_response(user_outcome(outcome)),
{
    match outcome {
        Ok(user) => HttpResponse::user(&user),
        Err(e) => HttpResponse::failure(e, "Error trying to create new user"),
    }
}

/// Answers "delete" from the number of records that went; `missing` is the
/// message for the case that there was nothing to delete.
pub fn respond_deleted(outcome: Result<u64, Error>, missing: &str) -> (response: HttpResponse)
    ensures
        response@ == deleted_response(outcome, missing@),
{
    match outcome {
        Ok(rows) => {
            if rows > 0 {
                let count = decimal(rows);
                let head = joined("Successfully deleted ", count.as_str());
                let text = joined(head.as_str(), " record(s)");
                HttpResponse::message(200, text.as_str())
            } else {
                HttpResponse::failure(Error::NotFound, missing)
            }
        },
        Err(e) => HttpResponse::failure(e, missing),
    }
}

/// Answers a request whose path does not hold a user's identifier.
pub fn respond_invalid_id() -> (response: HttpResponse)
    ensures
        response@ == invalid_id_response(),
{
    HttpResponse::failure(Error::ValidationError, "Invalid User ID")
}

/// `GET /users`: every user, in the order of creation.
pub fn find_all(db: &Database) -> (response: HttpResponse)
    requires
        db.wf(),
    ensures
        response@ == listed_response(Ok(db@.users)),
{
    respond_listed(User::find_all(db))
}

/// `GET /user/{uuid}`: the user with that identifier.
pub fn find(uuid: &str, db: &Database) -> (response: HttpResponse)
    requires
        db.wf(),
    ensures
        response@ == find_response(Uuid::of_parsed(uuid_of_text(uuid@)), db@.users),
{
    match Uuid::parse_str(uuid) {
        Ok(id) => respond_found(User::find_by_id(id, db)),
        Err(_) => respond_invalid_id(),
    }
}

/// `POST /user`: stores a new user, created at `now`, under an identifier
/// that the store assigns.
pub fn create(user: UserRequest, db: &mut Database, now: Timestamp) -> (response: HttpResponse)
    requires
        old(db).wf(),
    ensures
        final(db).wf(),
        response@ == created_response(create_user_outcome(old(db)@, user@, now)),
        final(db)@ == after_create_user(old(db)@, user@, now),
{
    respond_created(User::create(user, db, now))
}

/// `PUT /user/{uuid}`: updates the user with that identifier at `now`.
pub fn update(uuid: &str, user: UserRequest, db: &mut Database, now: Timestamp) -> (response:
    HttpResponse)
    requires
        old(db).wf(),
    ensures
        final(db).wf(),
        response@ == update_response(
            Uuid::of_parsed(uuid_of_text(uuid@)),
            old(db)@.users,
            user@,
            now,
        ),
        final(db)@.users == users_after_update_request(
            Uuid::of_parsed(uuid_of_text(uuid@)),
            old(db)@.users,
            user@,
            now,
        ),
        final(db)@.posts == old(db)@.posts,
        final(db)@.next_id == old(db)@.next_id,
{
    match Uuid::parse_str(uuid) {
        Ok(id) => respond_found(User::update(id, user, db, now)),
        Err(_) => respond_invalid_id(),
    }
}

/// `DELETE /user/{uuid}`: removes the user with that identifier, and its
/// posts.
pub fn delete(uuid: &str, db: &mut Database) -> (response: HttpResponse)
    requires
        old(db).wf(),
    ensures
        final(db).wf(),
        response@ == delete_response(Uuid::of_parsed(uuid_of_text(uuid@)), old(db)@.users),
        final(db)@.users == users_after_delete_request(
            Uuid::of_parsed(uuid_of_text(uuid@)),
            old(db)@.users,
        ),
        final(db)@.posts == posts_after_delete_request(
            Uuid::of_parsed(uuid_of_text(uuid@)),
            old(db)@.users,
            old(db)@.posts,
        ),
        final(db)@.next_id == old(db)@.next_id,
{
    match Uuid::parse_str(uuid) {
        Ok(id) => respond_deleted(User::delete(id, db), "User not found"),
        Err(_) => respond_invalid_id(),
    }
}

} // verus!
