//! The JSON routes on posts.

use crate::database::posts::{
    after_create_post, create_post_outcome, delete_post_count, find_post,
    law_create_then_find_post, lemma_create_keeps_posts_wf, lemma_fresh_post_id,
    lemma_post_ids_below_after_create, lemma_post_slot, post_outcome, post_slot,
    posts_after_delete, posts_after_update, update_post_result,
};
use crate::database::users::{has_user, user_outcome};
use crate::database::{post_views, Database, DatabaseView};
use crate::error::Error;
use crate::handlers::user_handlers::{deleted_response, respond_deleted};
use crate::handlers::{HttpResponse, HttpResponseView};
use crate::identity::Identity;
use crate::models::id::{uuid_of_text, Timestamp, Uuid};
use crate::models::post::{slug_of, Post, PostRequest, PostRequestView, PostView};
use crate::models::user::{ToUser, User, UserView};
use vstd::prelude::*;

verus! {

/// The answer to "list the posts", given the outcome of reading them.
pub open spec fn listed_response(outcome: Result<Seq<PostView>, Error>) -> HttpResponseView {
    match outcome {
        Ok(posts) => HttpResponseView::posts(posts),
        Err(e) => HttpResponseView::failure(e, "Error trying to read all posts from database"@),
    }
}

/// The answer to "show" or "update" a post, given the outcome of the lookup
/// or of the update.
pub open spec fn found_response(outcome: Result<PostView, Error>) -> HttpResponseView {
    match outcome {
        Ok(post) => HttpResponseView::post(post),
        Err(e) => HttpResponseView::failure(e, "Post not found"@),
    }
}

/// The answer to "create a post", given the outcome of creating it.
pub open spec fn created_response(outcome: Result<PostView, Error>) -> HttpResponseView {
    match outcome {
        Ok(post) => HttpResponseView::post(post),
        Err(e) => HttpResponseView::failure(e, "Error trying to create new post"@),
    }
}

/// The answer to a request that may not do what it asks for.
pub open spec fn unauthorized_response() -> HttpResponseView {
    HttpResponseView::failure(Error::Unauthorized, "Unauthorized"@)
}

/// The answer to a request whose path does not hold a post's identifier.
pub open spec fn invalid_id_response() -> HttpResponseView {
    HttpResponseView::failure(Error::ValidationError, "Invalid Post ID"@)
}

/// Who may create a post: a logged-in user whose role is author or above.
/// Everybody else is unauthorized.
pub open spec fn author_of(identity: Option<UserView>) -> Result<UserView, Error> {
    match identity {
        Some(user) => if user.role.may_create_posts() {
            Ok(user)
        } else {
            Err(Error::Unauthorized)
        },
        None => Err(Error::Unauthorized),
    }
}

/// The answer to "show the post `id`".
pub open spec fn find_response(
    parsed: Result<Uuid, Error>,
    posts: Seq<PostView>,
) -> HttpResponseView {
    match parsed {
        Ok(id) => found_response(find_post(posts, id)),
        Err(_) => invalid_id_response(),
    }
}

/// The answer to "create a post", `slug` being the slug of the payload's title.
pub open spec fn create_response(
    identity: Option<UserView>,
    db: DatabaseView,
    request: PostRequestView,
    slug: Seq<char>,
    now: Timestamp,
) -> HttpResponseView {
    match author_of(identity) {
        Ok(user) => created_response(create_post_outcome(db, request, slug, user.id, now)),
        Err(_) => unauthorized_response(),
    }
}

/// The store after "create a post".
pub open spec fn after_create_request(
    identity: Option<UserView>,
    db: DatabaseView,
    request: PostRequestView,
    slug: Seq<char>,
    now: Timestamp,
) -> DatabaseView {
    match author_of(identity) {
        Ok(user) => after_create_post(db, request, slug, user.id, now),
        Err(_) => db,
    }
}

/// The answer to "update the post `id`".
pub open spec fn update_response(
    parsed: Result<Uuid, Error>,
    posts: Seq<PostView>,
    request: PostRequestView,
    now: Timestamp,
) -> HttpResponseView {
    match parsed {
        Ok(id) => found_response(update_post_result(posts, id, request, now)),
        Err(_) => invalid_id_response(),
    }
}

/// The posts table after "update the post `id`".
pub open spec fn posts_after_update_request(
    parsed: Result<Uuid, Error>,
    posts: Seq<PostView>,
    request: PostRequestView,
    now: Timestamp,
) -> Seq<PostView> {
    match parsed {
        Ok(id) => posts_after_update(posts, id, request, now),
        Err(_) => posts,
    }
}

/// The answer to "delete the post `id`".
pub open spec fn delete_response(
    parsed: Result<Uuid, Error>,
    posts: Seq<PostView>,
) -> HttpResponseView {
    match parsed {
        Ok(id) => deleted_response(
            Ok(delete_post_count(posts, id) as u64),
            "Post not found"@,
        ),
        Err(_) => invalid_id_response(),
    }
}

/// The posts table after "delete the post `id`".
pub open spec fn posts_after_delete_request(
    parsed: Result<Uuid, Error>,
    posts: Seq<PostView>,
) -> Seq<PostView> {
    match parsed {
        Ok(id) => posts_after_delete(posts, id),
        Err(_) => posts,
    }
}

/// Answers "list the posts" from the outcome of reading them.
pub fn respond_listed(outcome: Result<Vec<Post>, Error>) -> (response: HttpResponse)
    ensures
        response@ == listed_response(
            match outcome {
                Ok(posts) => Ok(post_views(posts@)),
                Err(e) => Err(e),
            },
        ),
{
    match outcome {
        Ok(posts) => HttpResponse::posts(posts),
        Err(e) => HttpResponse::failure(e, "Error trying to read all posts from database"),
    }
}

/// Answers "show" or "update" from the outcome of the lookup or the update.
pub fn respond_found(outcome: Result<Post, Error>) -> (response: HttpResponse)
    ensures
        response@ == found_response(post_outcome(outcome)),
{
    match outcome {
        Ok(post) => HttpResponse::post(post),
        Err(e) => HttpResponse::failure(e, "Post not found"),
    }
}

/// Answers "create a post" from the outcome of creating it.
pub fn respond_created(outcome: Result<Post, Error>) -> (response: HttpResponse)
    ensures
        response@ == created_response(post_outcome(outcome)),
{
    match outcome {
        Ok(post) => HttpResponse::post(post),
        Err(e) => HttpResponse::failure(e, "Error trying to create new post"),
    }
}

/// Answers a request that may not do what it asks for.
pub fn respond_unauthorized() -> (response: HttpResponse)
    ensures
        response@ == unauthorized_response(),
{
    HttpResponse::failure(Error::Unauthorized, "Unauthorized")
}

/// Answers a request whose path does not hold a post's identifier.
pub fn respond_invalid_id() -> (response: HttpResponse)
    ensures
        response@ == invalid_id_response(),
{
    HttpResponse::failure(Error::ValidationError, "Invalid Post ID")
}

/// Decides whether the identity of a request may create a post, and hands
/// out the user who will own it.
pub fn authorize_author(id: &Identity) -> (author: Result<User, Error>)
    ensures
        user_outcome(author) == author_of(id@),
{
    match id.user() {
        Some(user) => {
            if user.role.can_create_posts() {
                Ok(user)
            } else {
                Err(Error::Unauthorized)
            }
        },
        None => Err(Error::Unauthorized),
    }
}

/// `GET /posts`: every post, in the order of creation.
pub fn find_all(db: &Database) -> (response: HttpResponse)
    requires
        db.wf(),
    ensures
        response@ == listed_response(Ok(db@.posts)),
{
    respond_listed(Post::find_all(db))
}

/// `GET /post/{uuid}`: the post with that identifier.
pub fn find(uuid: &str, db: &Database) -> (response: HttpResponse)
    requires
        db.wf(),
    ensures
        response@ == find_response(Uuid::of_parsed(uuid_of_text(uuid@)), db@.posts),
{
    match Uuid::parse_str(uuid) {
        Ok(id) => respond_found(Post::find_by_id(id, db)),
        Err(_) => respond_invalid_id(),
    }
}

/// `POST /post`: stores a new post of the logged-in user, created at `now`,
/// if that user's role allows it.
pub fn create(post: PostRequest, db: &mut Database, id: &Identity, now: Timestamp) -> (response:
    HttpResponse)
    requires
        old(db).wf(),
    ensures
        final(db).wf(),
        response@ == create_response(id@, old(db)@, post@, slug_of(post@.title), now),
        final(db)@ == after_create_request(id@, old(db)@, post@, slug_of(post@.title), now),
{
    match authorize_author(id) {
        Ok(logged_user) => respond_created(Post::create(post, db, logged_user, now)),
        Err(_) => respond_unauthorized(),
    }
}

/// `PUT /post/{uuid}`: updates the post with that identifier at `now`.
pub fn update(uuid: &str, post: PostRequest, db: &mut Database, now: Timestamp) -> (response:
    HttpResponse)
    requires
        old(db).wf(),
    ensures
        final(db).wf(),
        response@ == update_response(
            Uuid::of_parsed(uuid_of_text(uuid@)),
            old(db)@.posts,
            post@,
            now,
        ),
        final(db)@.posts == posts_after_update_request(
            Uuid::of_parsed(uuid_of_text(uuid@)),
            old(db)@.posts,
            post@,
            now,
        ),
        final(db)@.users == old(db)@.users,
        final(db)@.next_id == old(db)@.next_id,
{
    match Uuid::parse_str(uuid) {
        Ok(id) => respond_found(Post::update(id, post, db, now)),
        Err(_) => respond_invalid_id(),
    }
}

/// `DELETE /post/{uuid}`: removes the post with that identifier.
pub fn delete(uuid: &str, db: &mut Database) -> (response: HttpResponse)
    requires
        old(db).wf(),
    ensures
        final(db).wf(),
        response@ == delete_response(Uuid::of_parsed(uuid_of_text(uuid@)), old(db)@.posts),
        final(db)@.posts == posts_after_delete_request(
            Uuid::of_parsed(uuid_of_text(uuid@)),
            old(db)@.posts,
        ),
        final(db)@.users == old(db)@.users,
        final(db)@.next_id == old(db)@.next_id,
{
    match Uuid::parse_str(uuid) {
        Ok(id) => respond_deleted(Post::delete(id, db), "Post not found"),
        Err(_) => respond_invalid_id(),
    }
}

/// A request to create a post from somebody who is not logged in, or whose
/// role is below author, is answered with 401 and leaves the store as it is.
/// From a stored user who is an author, an editor, an admin or a super admin
/// it is answered with 200 and the new post, whatever the payload: the post
/// belongs to that user, holds the title and the content as sent, and is the
/// one record by which the posts table grows. The one thing asked of the
/// store is that it has an identifier left to assign.
pub proof fn law_role_gate(
    identity: Option<UserView>,
    db: DatabaseView,
    request: PostRequestView,
    slug: Seq<char>,
    now: Timestamp,
)
    requires
        db.wf(),
    ensures
        (identity is None || identity->0.role is Contributor || identity->0.role is Subscriber
            || identity->0.role is Guest) ==> {
            &&& create_response(identity, db, request, slug, now) == unauthorized_response()
            &&& unauthorized_response().status == 401
            &&& after_create_request(identity, db, request, slug, now) == db
        },
        (identity matches Some(user) && has_user(db.users, user.id) && !db.exhausted() && (
        user.role is Author || user.role is Editor || user.role is Admin
            || user.role is SuperAdmin)) ==> ({
            let response = create_response(identity, db, request, slug, now);
            let stored = after_create_request(identity, db, request, slug, now);
            let post = PostView::created(request, slug, db.fresh_id(), identity->0.id, now);
            &&& response == HttpResponseView::post(post)
            &&& response.status == 200
            &&& post.user_id == identity->0.id
            &&& post.title == request.title
            &&& post.content == request.content
            &&& stored.users == db.users
            &&& stored.posts == db.posts.insert(post_slot(db.posts, now), post)
            &&& stored.posts.len() == db.posts.len() + 1
            &&& find_post(stored.posts, post.id) == Ok::<PostView, Error>(post)
            &&& stored.wf()
        }),
{
    if identity is Some && has_user(db.users, identity->0.id) && !db.exhausted() {
        let id = db.fresh_id();
        let owner = identity->0.id;
        lemma_fresh_post_id(db.posts, id);
        law_create_then_find_post(db.users, db.posts, request, slug, id, owner, now);
        lemma_create_keeps_posts_wf(db.users, db.posts, request, slug, id, owner, now);
        lemma_post_ids_below_after_create(
            db.users,
            db.posts,
            request,
            slug,
            id,
            owner,
            now,
            db.next_id + 1,
        );
        lemma_post_slot(db.posts, now);
        db.posts.insert_ensures(
            post_slot(db.posts, now),
            PostView::created(request, slug, id, owner, now),
        );
    }
}

} // verus!
