//! The posts table: its constraints, what each data-access operation does to
//! it, and the operations themselves.

use crate::database::users::{has_user, locate_user};
use crate::database::{owners_stored, post_views, Database, DatabaseView};
use crate::error::Error;
use crate::models::id::{Timestamp, Uuid};
use crate::models::post::{is_slug, slug_of, Post, PostRequest, PostRequestView, PostView};
use crate::models::user::{User, UserView};
use crate::text::excerpt_of;
use vstd::prelude::*;

verus! {

/// The constraints on the posts table: identifiers are unique, every record
/// holds the excerpt of its content, and the records stand in the order of
/// their creation.
pub open spec fn posts_wf(posts: Seq<PostView>) -> bool {
    &&& forall|i: int, j: int|
        0 <= i < j < posts.len() ==> (#[trigger] posts[i]).id != (#[trigger] posts[j]).id
    &&& forall|i: int, j: int|
        0 <= i <= j < posts.len() ==> (#[trigger] posts[i]).created_at.nanos <= (
        #[trigger] posts[j]).created_at.nanos
    &&& forall|i: int| 0 <= i < posts.len() ==> (#[trigger] posts[i]).consistent()
}

/// Whether every identifier in the table has a value below `bound`.
pub open spec fn post_ids_below(posts: Seq<PostView>, bound: int) -> bool {
    forall|i: int| 0 <= i < posts.len() ==> (#[trigger] posts[i]).id.value < bound
}

/// Whether the record at `i` has the identifier `id`.
pub open spec fn post_id_at(posts: Seq<PostView>, id: Uuid, i: int) -> bool {
    0 <= i < posts.len() && posts[i].id == id
}

/// Whether some post has the identifier `id`.
pub open spec fn has_post(posts: Seq<PostView>, id: Uuid) -> bool {
    exists|i: int| post_id_at(posts, id, i)
}

/// Where the post with the identifier `id` stands.
pub open spec fn post_index(posts: Seq<PostView>, id: Uuid) -> int {
    choose|i: int| post_id_at(posts, id, i)
}

/// How many records at the front of the table were created no later than `now`:
/// the place where a record created at `now` is put.
pub open spec fn post_slot(posts: Seq<PostView>, now: Timestamp) -> int
    decreases posts.len(),
{
    if posts.len() == 0 || posts[0].created_at.nanos > now.nanos {
        0
    } else {
        1 + post_slot(posts.drop_first(), now)
    }
}

/// What looking a post up by its identifier gives.
pub open spec fn find_post(posts: Seq<PostView>, id: Uuid) -> Result<PostView, Error> {
    if has_post(posts, id) {
        Ok(posts[post_index(posts, id)])
    } else {
        Err(Error::NotFound)
    }
}

/// What creating a post gives, `slug` being the slug of the payload's title:
/// the new record, or a storage error where the store holds no user
/// `user_id` or the identifier is already in the table.
pub open spec fn create_post_result(
    users: Seq<UserView>,
    posts: Seq<PostView>,
    request: PostRequestView,
    slug: Seq<char>,
    id: Uuid,
    user_id: Uuid,
    now: Timestamp,
) -> Result<PostView, Error> {
    if !has_user(users, user_id) || has_post(posts, id) {
        Err(Error::StorageError)
    } else {
        Ok(PostView::created(request, slug, id, user_id, now))
    }
}

/// The posts table after an attempt to create a post.
pub open spec fn posts_after_create(
    users: Seq<UserView>,
    posts: Seq<PostView>,
    request: PostRequestView,
    slug: Seq<char>,
    id: Uuid,
    user_id: Uuid,
    now: Timestamp,
) -> Seq<PostView> {
    match create_post_result(users, posts, request, slug, id, user_id, now) {
        Ok(post) => posts.insert(post_slot(posts, now), post),
        Err(_) => posts,
    }
}

/// What creating a post gives: a storage error where the store has no
/// identifier left, and else what the creation under the store's next
/// identifier gives.
pub open spec fn create_post_outcome(
    db: DatabaseView,
    request: PostRequestView,
    slug: Seq<char>,
    user_id: Uuid,
    now: Timestamp,
) -> Result<PostView, Error> {
    if db.exhausted() {
        Err(Error::StorageError)
    } else {
        create_post_result(db.users, db.posts, request, slug, db.fresh_id(), user_id, now)
    }
}

/// The store after an attempt to create a post: where the attempt succeeds
/// the posts table holds the new record and the next identifier is one
/// further; else the store is as it was.
pub open spec fn after_create_post(
    db: DatabaseView,
    request: PostRequestView,
    slug: Seq<char>,
    user_id: Uuid,
    now: Timestamp,
) -> DatabaseView {
    if create_post_outcome(db, request, slug, user_id, now) is Ok {
        DatabaseView {
            users: db.users,
            posts: posts_after_create(
                db.users,
                db.posts,
                request,
                slug,
                db.fresh_id(),
                user_id,
                now,
            ),
            next_id: (db.next_id + 1) as u128,
        }
    } else {
        db
    }
}

/// What updating the post `id` gives: the record after the update, or
/// `NotFound` where no post has the identifier.
pub open spec fn update_post_result(
    posts: Seq<PostView>,
    id: Uuid,
    request: PostRequestView,
    now: Timestamp,
) -> Result<PostView, Error> {
    if !has_post(posts, id) {
        Err(Error::NotFound)
    } else {
        Ok(posts[post_index(posts, id)].updated(request, now))
    }
}

/// The posts table after an attempt to update the post `id`.
pub open spec fn posts_after_update(
    posts: Seq<PostView>,
    id: Uuid,
    request: PostRequestView,
    now: Timestamp,
) -> Seq<PostView> {
    match update_post_result(posts, id, request, now) {
        Ok(post) => posts.update(post_index(posts, id), post),
        Err(_) => posts,
    }
}

/// How many records deleting the post `id` removes.
pub open spec fn delete_post_count(posts: Seq<PostView>, id: Uuid) -> int {
    if has_post(posts, id) {
        1
    } else {
        0
    }
}

/// The posts table after deleting the post `id`.
pub open spec fn posts_after_delete(posts: Seq<PostView>, id: Uuid) -> Seq<PostView> {
    if has_post(posts, id) {
        posts.remove(post_index(posts, id))
    } else {
        posts
    }
}

/// The posts that are left when the user `owner` goes: those of every other
/// user, in the order they stood in.
pub open spec fn posts_without_owner(posts: Seq<PostView>, owner: Uuid) -> Seq<PostView>
    decreases posts.len(),
{
    if posts.len() == 0 {
        posts
    } else if posts.last().user_id == owner {
        posts_without_owner(posts.drop_last(), owner)
    } else {
        posts_without_owner(posts.drop_last(), owner).push(posts.last())
    }
}

/// The posts table after deleting the user `id`: where the user exists, its
/// posts go with it.
pub open spec fn posts_after_user_delete(
    users: Seq<UserView>,
    posts: Seq<PostView>,
    id: Uuid,
) -> Seq<PostView> {
    if has_user(users, id) {
        posts_without_owner(posts, id)
    } else {
        posts
    }
}

/// Whether `post` stands at `i`.
pub open spec fn post_at(posts: Seq<PostView>, post: PostView, i: int) -> bool {
    0 <= i < posts.len() && posts[i] == post
}

/// Whether the table holds `post`.
pub open spec fn holds_post(posts: Seq<PostView>, post: PostView) -> bool {
    exists|i: int| post_at(posts, post, i)
}

/// Taking the posts of one user out keeps the constraints of the table. What
/// is left belongs to other users and stood in the table before, and every
/// post of another user is left.
#[verifier::rlimit(30)]
#[verifier::spinoff_prover]
pub proof fn lemma_posts_without_owner(posts: Seq<PostView>, owner: Uuid)
    requires
        posts_wf(posts),
    ensures
        posts_wf(posts_without_owner(posts, owner)),
        posts_without_owner(posts, owner).len() <= posts.len(),
        forall|k: int|
            0 <= k < posts_without_owner(posts, owner).len() ==> (
            #[trigger] posts_without_owner(posts, owner)[k]).user_id != owner && holds_post(
                posts,
                posts_without_owner(posts, owner)[k],
            ),
        forall|j: int|
            0 <= j < posts.len() && (#[trigger] posts[j]).user_id != owner ==> holds_post(
                posts_without_owner(posts, owner),
                posts[j],
            ),
    decreases posts.len(),
{
    if posts.len() > 0 {
        let front = posts.drop_last();
        let last = posts.last();
        let n = posts.len() - 1;
        let kept_front = posts_without_owner(front, owner);
        let kept = posts_without_owner(posts, owner);
        assert forall|i: int| 0 <= i < front.len() implies #[trigger] front[i] == posts[i] by {}
        assert(posts_wf(front)) by {
            assert forall|i: int, j: int| 0 <= i < j < front.len() implies (
            #[trigger] front[i]).id != (#[trigger] front[j]).id by {
                assert(posts[i].id != posts[j].id);
            }
            assert forall|i: int, j: int| 0 <= i <= j < front.len() implies (
            #[trigger] front[i]).created_at.nanos <= (#[trigger] front[j]).created_at.nanos by {
                assert(posts[i].created_at.nanos <= posts[j].created_at.nanos);
            }
            assert forall|i: int| 0 <= i < front.len() implies (
            #[trigger] front[i]).consistent() by {
                assert(posts[i].consistent());
            }
        }
        lemma_posts_without_owner(front, owner);
        assert forall|k: int| 0 <= k < kept_front.len() implies holds_post(
            posts,
            #[trigger] kept_front[k],
        ) by {
            let j = choose|j: int| post_at(front, kept_front[k], j);
            assert(post_at(front, kept_front[k], j));
            assert(post_at(posts, kept_front[k], j));
        }
        if last.user_id == owner {
            assert forall|j: int|
                0 <= j < posts.len() && (#[trigger] posts[j]).user_id != owner implies holds_post(
                kept,
                posts[j],
            ) by {
                assert(front[j] == posts[j]);
            }
        } else {
            let m = kept_front.len() as int;
            assert(kept == kept_front.push(last));
            assert(post_at(posts, last, n));
            assert forall|k: int| 0 <= k < kept.len() implies (#[trigger] kept[k]).user_id
                != owner && holds_post(posts, kept[k]) by {
                if k < m {
                    assert(kept[k] == kept_front[k]);
                }
            }
            assert forall|i: int, j: int| 0 <= i < j < kept.len() implies (#[trigger] kept[i]).id
                != (#[trigger] kept[j]).id by {
                assert(kept[i] == kept_front[i]);
                if j < m {
                    assert(kept[j] == kept_front[j]);
                } else {
                    let a = choose|a: int| post_at(front, kept_front[i], a);
                    assert(post_at(front, kept_front[i], a));
                    assert(posts[a].id != posts[n].id);
                }
            }
            assert forall|i: int, j: int| 0 <= i <= j < kept.len() implies (
            #[trigger] kept[i]).created_at.nanos <= (#[trigger] kept[j]).created_at.nanos by {
                if j < m {
                    assert(kept[i] == kept_front[i] && kept[j] == kept_front[j]);
                } else if i < m {
                    assert(kept[i] == kept_front[i]);
                    let a = choose|a: int| post_at(front, kept_front[i], a);
                    assert(post_at(front, kept_front[i], a));
                    assert(posts[a].created_at.nanos <= posts[n].created_at.nanos);
                }
            }
            assert forall|i: int| 0 <= i < kept.len() implies (#[trigger] kept[i]).consistent() by {
                if i < m {
                    assert(kept[i] == kept_front[i]);
                } else {
                    assert(posts[n].consistent());
                }
            }
            assert forall|j: int|
                0 <= j < posts.len() && (#[trigger] posts[j]).user_id != owner implies holds_post(
                kept,
                posts[j],
            ) by {
                if j < n {
                    assert(front[j] == posts[j]);
                    let c = choose|c: int| post_at(kept_front, posts[j], c);
                    assert(post_at(kept_front, posts[j], c));
                    assert(post_at(kept, posts[j], c));
                } else {
                    assert(post_at(kept, posts[j], m));
                }
            }
        }
    }
}

/// A bound on the identifiers of the table holds on for the posts that are
/// left when a user goes.
pub proof fn lemma_post_ids_without_owner(posts: Seq<PostView>, owner: Uuid, bound: int)
    requires
        posts_wf(posts),
        post_ids_below(posts, bound),
    ensures
        post_ids_below(posts_without_owner(posts, owner), bound),
{
    let kept = posts_without_owner(posts, owner);
    lemma_posts_without_owner(posts, owner);
    assert forall|k: int| 0 <= k < kept.len() implies (#[trigger] kept[k]).id.value < bound by {
        let j = choose|j: int| post_at(posts, kept[k], j);
        assert(post_at(posts, kept[k], j));
        assert(posts[j].id.value < bound);
    }
}

/// No record has an identifier that lies at or above a bound on all of them.
pub proof fn lemma_fresh_post_id(posts: Seq<PostView>, id: Uuid)
    requires
        post_ids_below(posts, id.value as int),
    ensures
        !has_post(posts, id),
{
    assert forall|i: int| !post_id_at(posts, id, i) by {
        if 0 <= i < posts.len() {
            assert(posts[i].id.value < id.value);
        }
    }
}

/// A bound on the identifiers of the table holds on after a post below the
/// bound is created.
pub proof fn lemma_post_ids_below_after_create(
    users: Seq<UserView>,
    posts: Seq<PostView>,
    request: PostRequestView,
    slug: Seq<char>,
    id: Uuid,
    user_id: Uuid,
    now: Timestamp,
    bound: int,
)
    requires
        post_ids_below(posts, bound),
        id.value < bound,
    ensures
        post_ids_below(posts_after_create(users, posts, request, slug, id, user_id, now), bound),
{
    if create_post_result(users, posts, request, slug, id, user_id, now) is Ok {
        let p = post_slot(posts, now);
        let post = PostView::created(request, slug, id, user_id, now);
        let after = posts.insert(p, post);
        lemma_post_slot(posts, now);
        posts.insert_ensures(p, post);
        assert forall|i: int| 0 <= i < after.len() implies (#[trigger] after[i]).id.value
            < bound by {
            if i < p {
                assert(after[i] == posts[i]);
            } else if i > p {
                assert(after[(i - 1) + 1] == posts[i - 1]);
            }
        }
    }
}

/// A bound on the identifiers of the table holds on after a post is updated.
pub proof fn lemma_post_ids_below_after_update(
    posts: Seq<PostView>,
    id: Uuid,
    request: PostRequestView,
    now: Timestamp,
    bound: int,
)
    requires
        post_ids_below(posts, bound),
    ensures
        post_ids_below(posts_after_update(posts, id, request, now), bound),
{
    if has_post(posts, id) {
        let k = post_index(posts, id);
        assert(post_id_at(posts, id, k));
        let after = posts.update(k, posts[k].updated(request, now));
        assert forall|i: int| 0 <= i < after.len() implies (#[trigger] after[i]).id.value
            < bound by {
            assert(posts[i].id.value < bound);
        }
    }
}

/// A bound on the identifiers of the table holds on after a post is deleted.
pub proof fn lemma_post_ids_below_after_delete(posts: Seq<PostView>, id: Uuid, bound: int)
    requires
        post_ids_below(posts, bound),
    ensures
        post_ids_below(posts_after_delete(posts, id), bound),
{
    if has_post(posts, id) {
        let k = post_index(posts, id);
        assert(post_id_at(posts, id, k));
        let after = posts.remove(k);
        posts.remove_ensures(k);
        assert forall|i: int| 0 <= i < after.len() implies (#[trigger] after[i]).id.value
            < bound by {
            if i < k {
                assert(after[i] == posts[i]);
            } else {
                assert(after[i] == posts[i + 1]);
            }
        }
    }
}

/// In a table that meets its constraints, the record with a given identifier
/// stands at one place only.
pub proof fn lemma_post_index_unique(posts: Seq<PostView>, id: Uuid, i: int)
    requires
        posts_wf(posts),
        post_id_at(posts, id, i),
    ensures
        has_post(posts, id),
        post_index(posts, id) == i,
        find_post(posts, id) == Ok::<PostView, Error>(posts[i]),
{
    let j = post_index(posts, id);
    assert(post_id_at(posts, id, j));
    if j < i {
        assert(posts[j].id != posts[i].id);
    } else if i < j {
        assert(posts[i].id != posts[j].id);
    }
}

/// The slot for a new record lies inside the table; everything before it was
/// created no later than `now`, and what stands at it was created later.
pub proof fn lemma_post_slot(posts: Seq<PostView>, now: Timestamp)
    ensures
        0 <= post_slot(posts, now) <= posts.len(),
        forall|i: int|
            0 <= i < post_slot(posts, now) ==> (#[trigger] posts[i]).created_at.nanos <= now.nanos,
        post_slot(posts, now) < posts.len() ==> posts[post_slot(posts, now)].created_at.nanos
            > now.nanos,
    decreases posts.len(),
{
    if posts.len() == 0 || posts[0].created_at.nanos > now.nanos {
    } else {
        let rest = posts.drop_first();
        lemma_post_slot(rest, now);
        assert forall|i: int| 0 <= i < post_slot(posts, now) implies (
        #[trigger] posts[i]).created_at.nanos <= now.nanos by {
            if i > 0 {
                assert(posts[i] == rest[i - 1]);
            }
        }
        if post_slot(posts, now) < posts.len() {
            assert(posts[post_slot(posts, now)] == rest[post_slot(rest, now)]);
        }
    }
}

/// Leaving out a record created no later than `now` moves the slot by one.
proof fn lemma_post_slot_step(posts: Seq<PostView>, now: Timestamp, i: int)
    requires
        0 <= i < posts.len(),
        posts[i].created_at.nanos <= now.nanos,
    ensures
        post_slot(posts.skip(i), now) == 1 + post_slot(posts.skip(i + 1), now),
{
    assert(posts.skip(i).drop_first() == posts.skip(i + 1));
    assert(posts.skip(i)[0] == posts[i]);
}

/// Creating a post keeps the constraints of the table and the foreign key.
#[verifier::spinoff_prover]
pub proof fn lemma_create_keeps_posts_wf(
    users: Seq<UserView>,
    posts: Seq<PostView>,
    request: PostRequestView,
    slug: Seq<char>,
    id: Uuid,
    user_id: Uuid,
    now: Timestamp,
)
    requires
        posts_wf(posts),
        owners_stored(users, posts),
    ensures
        posts_wf(posts_after_create(users, posts, request, slug, id, user_id, now)),
        owners_stored(users, posts_after_create(users, posts, request, slug, id, user_id, now)),
{
    if create_post_result(users, posts, request, slug, id, user_id, now) is Ok {
        let post = PostView::created(request, slug, id, user_id, now);
        let p = post_slot(posts, now);
        lemma_post_slot(posts, now);
        let after = posts.insert(p, post);
        posts.insert_ensures(p, post);
        assert forall|i: int| 0 <= i < after.len() implies (#[trigger] after[i]) == (if i < p {
            posts[i]
        } else if i == p {
            post
        } else {
            posts[i - 1]
        }) by {
            if i > p {
                assert(after[(i - 1) + 1] == posts[i - 1]);
            }
        }
        assert forall|i: int| 0 <= i < posts.len() implies (#[trigger] posts[i]).id != id by {
            if posts[i].id == id {
                assert(post_id_at(posts, id, i));
            }
        }
        assert forall|i: int, j: int| 0 <= i <= j < after.len() implies (
        #[trigger] after[i]).created_at.nanos <= (#[trigger] after[j]).created_at.nanos by {
            if i < p && j > p {
                assert(posts[i].created_at.nanos <= posts[j - 1].created_at.nanos);
            } else if i > p {
                assert(posts[i - 1].created_at.nanos <= posts[j - 1].created_at.nanos);
            } else if i == p && j > p {
                assert(posts[p].created_at.nanos <= posts[j - 1].created_at.nanos);
            } else if i < p && j < p {
                assert(posts[i].created_at.nanos <= posts[j].created_at.nanos);
            }
        }
        assert forall|i: int, j: int| 0 <= i < j < after.len() implies (#[trigger] after[i]).id
            != (#[trigger] after[j]).id by {
            let a = if i < p {
                i
            } else {
                i - 1
            };
            let b = if j < p {
                j
            } else {
                j - 1
            };
            if i != p && j != p {
                assert(posts[a].id != posts[b].id);
            } else if i == p {
                assert(after[j] == posts[b]);
            } else {
                assert(after[i] == posts[a]);
            }
        }
        assert forall|i: int| 0 <= i < after.len() implies (#[trigger] after[i]).consistent()
            && has_user(users, after[i].user_id) by {
            if i < p {
                assert(after[i] == posts[i]);
            } else if i > p {
                assert(after[i] == posts[i - 1]);
            }
        }
    }
}

/// Updating a post keeps the constraints of the table and the foreign key.
pub proof fn lemma_update_keeps_posts_wf(
    posts: Seq<PostView>,
    id: Uuid,
    request: PostRequestView,
    now: Timestamp,
)
    requires
        posts_wf(posts),
    ensures
        posts_wf(posts_after_update(posts, id, request, now)),
        forall|users: Seq<UserView>|
            owners_stored(users, posts) ==> #[trigger] owners_stored(
                users,
                posts_after_update(posts, id, request, now),
            ),
{
    if update_post_result(posts, id, request, now) is Ok {
        let k = post_index(posts, id);
        assert(post_id_at(posts, id, k));
        let after = posts.update(k, posts[k].updated(request, now));
        assert forall|users: Seq<UserView>| owners_stored(users, posts) implies owners_stored(
            users,
            after,
        ) by {
            assert forall|i: int| 0 <= i < after.len() implies has_user(
                users,
                (#[trigger] after[i]).user_id,
            ) by {
                assert(has_user(users, posts[i].user_id));
            }
        }
        assert forall|i: int, j: int| 0 <= i < j < after.len() implies (#[trigger] after[i]).id
            != (#[trigger] after[j]).id by {
            assert(posts[i].id != posts[j].id);
        }
        assert forall|i: int, j: int| 0 <= i <= j < after.len() implies (
        #[trigger] after[i]).created_at.nanos <= (#[trigger] after[j]).created_at.nanos by {
            assert(posts[i].created_at.nanos <= posts[j].created_at.nanos);
        }
        assert forall|i: int| 0 <= i < after.len() implies (#[trigger] after[i]).consistent() by {
            assert(posts[i].consistent());
        }
    }
}

/// Deleting a post keeps the constraints of the table and the foreign key.
pub proof fn lemma_delete_keeps_posts_wf(posts: Seq<PostView>, id: Uuid)
    requires
        posts_wf(posts),
    ensures
        posts_wf(posts_after_delete(posts, id)),
        forall|users: Seq<UserView>|
            owners_stored(users, posts) ==> #[trigger] owners_stored(
                users,
                posts_after_delete(posts, id),
            ),
{
    if has_post(posts, id) {
        let k = post_index(posts, id);
        assert(post_id_at(posts, id, k));
        let after = posts.remove(k);
        posts.remove_ensures(k);
        assert forall|users: Seq<UserView>| owners_stored(users, posts) implies owners_stored(
            users,
            after,
        ) by {
            assert forall|i: int| 0 <= i < after.len() implies has_user(
                users,
                (#[trigger] after[i]).user_id,
            ) by {
                if i < k {
                    assert(after[i] == posts[i]);
                } else {
                    assert(after[i] == posts[i + 1]);
                }
            }
        }
        assert forall|i: int| 0 <= i < after.len() implies (#[trigger] after[i]) == (if i < k {
            posts[i]
        } else {
            posts[i + 1]
        }) by {}
        assert forall|i: int, j: int| 0 <= i < j < after.len() implies (#[trigger] after[i]).id
            != (#[trigger] after[j]).id by {
            let a = if i < k {
                i
            } else {
                i + 1
            };
            let b = if j < k {
                j
            } else {
                j + 1
            };
            assert(posts[a].id != posts[b].id);
        }
        assert forall|i: int, j: int| 0 <= i <= j < after.len() implies (
        #[trigger] after[i]).created_at.nanos <= (#[trigger] after[j]).created_at.nanos by {
            let a = if i < k {
                i
            } else {
                i + 1
            };
            let b = if j < k {
                j
            } else {
                j + 1
            };
            assert(posts[a].created_at.nanos <= posts[b].created_at.nanos);
        }
        assert forall|i: int| 0 <= i < after.len() implies (#[trigger] after[i]).consistent() by {
            let a = if i < k {
                i
            } else {
                i + 1
            };
            assert(posts[a].consistent());
        }
    }
}

/// A post that was created is found under its identifier. It belongs to the
/// user who created it, holds the payload's title and content, the slug of
/// the title, and as its excerpt the excerpt of the content.
pub proof fn law_create_then_find_post(
    users: Seq<UserView>,
    posts: Seq<PostView>,
    request: PostRequestView,
    slug: Seq<char>,
    id: Uuid,
    user_id: Uuid,
    now: Timestamp,
)
    requires
        posts_wf(posts),
        owners_stored(users, posts),
    ensures
        create_post_result(users, posts, request, slug, id, user_id, now) is Ok <==> has_user(
            users,
            user_id,
        ) && !has_post(posts, id),
        create_post_result(users, posts, request, slug, id, user_id, now) is Err
            ==> posts_after_create(users, posts, request, slug, id, user_id, now) == posts,
        create_post_result(users, posts, request, slug, id, user_id, now) matches Ok(post) ==> {
            &&& find_post(
                posts_after_create(users, posts, request, slug, id, user_id, now),
                id,
            ) == Ok::<PostView, Error>(post)
            &&& post.id == id
            &&& post.user_id == user_id
            &&& post.title == request.title
            &&& post.content == request.content
            &&& post.slug == slug
            &&& post.excerpt == excerpt_of(request.content)
            &&& post.created_at == now
            &&& post.updated_at == now
        },
{
    if create_post_result(users, posts, request, slug, id, user_id, now) is Ok {
        let post = PostView::created(request, slug, id, user_id, now);
        let after = posts_after_create(users, posts, request, slug, id, user_id, now);
        lemma_create_keeps_posts_wf(users, posts, request, slug, id, user_id, now);
        lemma_post_slot(posts, now);
        posts.insert_ensures(post_slot(posts, now), post);
        lemma_post_index_unique(after, id, post_slot(posts, now));
    }
}

/// After an update the post is found under its identifier as the update left
/// it: title and content are the payload's and the excerpt is derived from
/// the new content, while the slug is what it was, whatever the new title is.
pub proof fn law_update_keeps_slug(
    posts: Seq<PostView>,
    id: Uuid,
    request: PostRequestView,
    now: Timestamp,
)
    requires
        posts_wf(posts),
    ensures
        update_post_result(posts, id, request, now) is Ok <==> has_post(posts, id),
        posts_after_update(posts, id, request, now).len() == posts.len(),
        forall|i: int|
            0 <= i < posts.len() && i != post_index(posts, id) ==> #[trigger] posts_after_update(
                posts,
                id,
                request,
                now,
            )[i] == posts[i],
        update_post_result(posts, id, request, now) matches Ok(post) ==> {
            &&& find_post(posts_after_update(posts, id, request, now), id) == Ok::<PostView, Error>(
                post,
            )
            &&& find_post(posts, id) matches Ok(before) && {
                &&& post.slug == before.slug
                &&& post.id == before.id
                &&& post.user_id == before.user_id
                &&& post.created_at == before.created_at
            }
            &&& post.title == request.title
            &&& post.content == request.content
            &&& post.excerpt == excerpt_of(request.content)
            &&& post.updated_at == now
        },
{
    if update_post_result(posts, id, request, now) is Ok {
        let k = post_index(posts, id);
        assert(post_id_at(posts, id, k));
        let after = posts_after_update(posts, id, request, now);
        lemma_update_keeps_posts_wf(posts, id, request, now);
        lemma_post_index_unique(after, id, k);
    }
}

/// Deleting a post removes one record where the post exists and none where
/// it does not; afterwards the post is not found, and deleting it once more
/// removes nothing.
pub proof fn law_delete_post_once(posts: Seq<PostView>, id: Uuid)
    requires
        posts_wf(posts),
    ensures
        has_post(posts, id) ==> delete_post_count(posts, id) == 1,
        !has_post(posts, id) ==> delete_post_count(posts, id) == 0 && posts_after_delete(posts, id)
            == posts,
        delete_post_count(posts_after_delete(posts, id), id) == 0,
        find_post(posts_after_delete(posts, id), id) == Err::<PostView, Error>(Error::NotFound),
{
    if has_post(posts, id) {
        let k = post_index(posts, id);
        assert(post_id_at(posts, id, k));
        let after = posts.remove(k);
        posts.remove_ensures(k);
        assert forall|i: int| !post_id_at(after, id, i) by {
            if 0 <= i < after.len() {
                if i < k {
                    assert(after[i] == posts[i]);
                    assert(posts[i].id != posts[k].id);
                } else {
                    assert(after[i] == posts[i + 1]);
                    assert(posts[k].id != posts[i + 1].id);
                }
            }
        }
    }
}

/// The outcome of an operation that hands out a post, as contracts see it.
pub open spec fn post_outcome(outcome: Result<Post, Error>) -> Result<PostView, Error> {
    match outcome {
        Ok(post) => Ok(post@),
        Err(e) => Err(e),
    }
}

/// Finds the place of the post with the identifier `id`.
fn locate_post(posts: &Vec<Post>, id: Uuid) -> (place: Option<usize>)
    ensures
        match place {
            Some(i) => post_id_at(post_views(posts@), id, i as int),
            None => !has_post(post_views(posts@), id),
        },
{
    let mut i: usize = 0;
    while i < posts.len()
        invariant
            i <= posts.len(),
            forall|k: int| 0 <= k < i ==> posts@[k].id != id,
        decreases posts.len() - i,
    {
        if posts[i].id.value == id.value {
            return Some(i);
        }
        i = i + 1;
    }
    assert forall|k: int| !post_id_at(post_views(posts@), id, k) by {
        if 0 <= k < posts.len() {
            assert(post_views(posts@)[k] == posts@[k]@);
        }
    }
    None
}

/// Copies the posts that do not belong to `owner`, in their order.
pub(crate) fn posts_of_others(posts: &Vec<Post>, owner: Uuid) -> (kept: Vec<Post>)
    ensures
        post_views(kept@) == posts_without_owner(post_views(posts@), owner),
{
    let ghost views = post_views(posts@);
    let mut kept: Vec<Post> = Vec::new();
    let mut i: usize = 0;
    assert(post_views(kept@) =~= posts_without_owner(views.take(0), owner));
    while i < posts.len()
        invariant
            i <= posts.len(),
            views == post_views(posts@),
            post_views(kept@) == posts_without_owner(views.take(i as int), owner),
        decreases posts.len() - i,
    {
        let ghost before = post_views(kept@);
        proof {
            assert(views.take(i + 1).drop_last() =~= views.take(i as int));
            assert(views.take(i + 1).last() == posts@[i as int]@);
        }
        if posts[i].user_id.value != owner.value {
            kept.push(posts[i].clone());
            assert(post_views(kept@) =~= before.push(posts@[i as int]@));
        }
        i = i + 1;
    }
    assert(views.take(posts.len() as int) =~= views);
    kept
}

/// Finds the place where a record created at `now` is put.
fn locate_post_slot(posts: &Vec<Post>, now: Timestamp) -> (slot: usize)
    ensures
        slot == post_slot(post_views(posts@), now),
        slot <= posts.len(),
{
    let ghost views = post_views(posts@);
    let mut i: usize = 0;
    assert(views.skip(0) == views);
    while i < posts.len() && posts[i].created_at.nanos <= now.nanos
        invariant
            i <= posts.len(),
            views == post_views(posts@),
            post_slot(views, now) == i + post_slot(views.skip(i as int), now),
        decreases posts.len() - i,
    {
        proof {
            assert(views[i as int] == posts@[i as int]@);
            lemma_post_slot_step(views, now, i as int);
        }
        i = i + 1;
    }
    proof {
        if i < posts.len() {
            assert(views.skip(i as int)[0] == posts@[i as int]@);
        }
    }
    i
}

impl Post {
    /// Every post, in the order of creation.
    pub fn find_all(db: &Database) -> (found: Result<Vec<Post>, Error>)
        requires
            db.wf(),
        ensures
            found matches Ok(posts) && {
                &&& post_views(posts@) == db@.posts
                &&& forall|i: int, j: int|
                    0 <= i <= j < posts@.len() ==> (#[trigger] posts@[i]).created_at.nanos <= (
                    #[trigger] posts@[j]).created_at.nanos
            },
    {
        let mut posts: Vec<Post> = Vec::new();
        let mut i: usize = 0;
        while i < db.posts.len()
            invariant
                i <= db.posts.len(),
                posts@.len() == i,
                forall|k: int| 0 <= k < i ==> posts@[k] == db.posts@[k],
            decreases db.posts.len() - i,
        {
            posts.push(db.posts[i].clone());
            i = i + 1;
        }
        assert(post_views(posts@) =~= post_views(db.posts@));
        assert forall|i: int, j: int| 0 <= i <= j < posts@.len() implies (
        #[trigger] posts@[i]).created_at.nanos <= (#[trigger] posts@[j]).created_at.nanos by {
            assert(db@.posts[i] == posts@[i]@ && db@.posts[j] == posts@[j]@);
        }
        Ok(posts)
    }

    /// The post with the identifier `id`, or `NotFound`.
    pub fn find_by_id(id: Uuid, db: &Database) -> (found: Result<Post, Error>)
        requires
            db.wf(),
        ensures
            post_outcome(found) == find_post(db@.posts, id),
    {
        match locate_post(&db.posts, id) {
            Some(i) => {
                proof {
                    lemma_post_index_unique(db@.posts, id, i as int);
                }
                Ok(db.posts[i].clone())
            },
            None => Err(Error::NotFound),
        }
    }

    /// Stores a new post of the user `logged_user` under an identifier that
    /// the store assigns, created at `now`, and hands the stored record out.
    /// The slug is derived from the title, the excerpt from the content.
    /// Where the store holds no such user, nothing is stored.
    pub fn create(
        post: PostRequest,
        db: &mut Database,
        logged_user: User,
        now: Timestamp,
    ) -> (created: Result<Post, Error>)
        requires
            old(db).wf(),
        ensures
            final(db).wf(),
            post_outcome(created) == create_post_outcome(
                old(db)@,
                post@,
                slug_of(post@.title),
                logged_user.id,
                now,
            ),
            final(db)@ == after_create_post(
                old(db)@,
                post@,
                slug_of(post@.title),
                logged_user.id,
                now,
            ),
            created matches Ok(stored) ==> is_slug(stored@.slug),
    {
        let ghost before = db@.posts;
        if db.next_id == u128::MAX {
            return Err(Error::StorageError);
        }
        let id = Uuid { value: db.next_id };
        proof {
            lemma_fresh_post_id(before, id);
            lemma_post_ids_below_after_create(
                db@.users,
                before,
                post@,
                slug_of(post@.title),
                id,
                logged_user.id,
                now,
                db.next_id + 1,
            );
            lemma_create_keeps_posts_wf(
                db@.users,
                before,
                post@,
                slug_of(post@.title),
                id,
                logged_user.id,
                now,
            );
        }
        if locate_user(&db.users, logged_user.id).is_none() {
            return Err(Error::StorageError);
        }
        proof {
            assert(has_user(db@.users, logged_user.id));
        }
        let slot = locate_post_slot(&db.posts, now);
        let record = Post::from_request(post, id, logged_user.id, now);
        let copy = record.clone();
        db.posts.insert(slot, record);
        db.next_id = db.next_id + 1;
        assert(db@.posts =~= before.insert(slot as int, copy@));
        Ok(copy)
    }

    /// Replaces title and content of the post `id` by those of the payload,
    /// derives the excerpt anew, leaves the slug alone, sets the moment of the
    /// update to `now`, and hands the record out.
    pub fn update(id: Uuid, post: PostRequest, db: &mut Database, now: Timestamp) -> (updated:
        Result<Post, Error>)
        requires
            old(db).wf(),
        ensures
            final(db).wf(),
            post_outcome(updated) == update_post_result(old(db)@.posts, id, post@, now),
            final(db)@.posts == posts_after_update(old(db)@.posts, id, post@, now),
            final(db)@.users == old(db)@.users,
            final(db)@.next_id == old(db)@.next_id,
    {
        let ghost before = db@.posts;
        proof {
            lemma_update_keeps_posts_wf(before, id, post@, now);
            lemma_post_ids_below_after_update(before, id, post@, now, db.next_id as int);
        }
        let place = match locate_post(&db.posts, id) {
            Some(i) => i,
            None => {
                return Err(Error::NotFound);
            },
        };
        proof {
            lemma_post_index_unique(before, id, place as int);
        }
        let record = db.posts[place].apply(post, now);
        let copy = record.clone();
        db.posts.set(place, record);
        assert(db@.posts =~= before.update(place as int, copy@));
        Ok(copy)
    }

    /// Removes the post `id` and says how many records went: 1, or 0 where no
    /// post has the identifier.
    pub fn delete(id: Uuid, db: &mut Database) -> (deleted: Result<u64, Error>)
        requires
            old(db).wf(),
        ensures
            final(db).wf(),
            deleted matches Ok(count) && count == delete_post_count(old(db)@.posts, id),
            final(db)@.posts == posts_after_delete(old(db)@.posts, id),
            final(db)@.users == old(db)@.users,
            final(db)@.next_id == old(db)@.next_id,
    {
        let ghost before = db@.posts;
        proof {
            lemma_delete_keeps_posts_wf(before, id);
            lemma_post_ids_below_after_delete(before, id, db.next_id as int);
        }
        match locate_post(&db.posts, id) {
            Some(i) => {
                proof {
                    lemma_post_index_unique(before, id, i as int);
                }
                let _ = db.posts.remove(i);
                assert(db@.posts =~= before.remove(i as int));
                Ok(1)
            },
            None => Ok(0),
        }
    }
}

} // verus!
