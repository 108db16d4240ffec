//! Posts, the payload that creates or updates one, and the slug of a title.

use crate::models::id::{Timestamp, Uuid};
use crate::text::{excerpt, excerpt_of};
use vstd::prelude::*;

verus! {

/// What a client sends to create or update a post.
#[derive(Debug, PartialEq, Eq)]
pub struct PostRequest {
    pub title: String,
    pub content: String,
}

/// A `PostRequest` as contracts see it.
pub struct PostRequestView {
    pub title: Seq<char>,
    pub content: Seq<char>,
}

impl View for PostRequest {
    type V = PostRequestView;

    open spec fn view(&self) -> PostRequestView {
        PostRequestView { title: self.title@, content: self.content@ }
    }
}

impl PostRequest {
    /// The slug of the payload's title.
    pub fn slug(&self) -> (slug: String)
        ensures
            slug@ == slug_of(self@.title),
            is_slug(slug@),
    {
        slugify(self.title.as_str())
    }

    /// The excerpt of the payload's content.
    pub fn excerpt(&self) -> (excerpt: String)
        ensures
            excerpt@ == excerpt_of(self@.content),
    {
        excerpt(self.content.as_str())
    }
}

impl Clone for PostRequest {
    fn clone(&self) -> (copy: Self)
        ensures
            copy == *self,
    {
        PostRequest { title: self.title.clone(), content: self.content.clone() }
    }
}

/// A stored post.
#[derive(Debug, PartialEq, Eq)]
pub struct Post {
    pub id: Uuid,
    pub user_id: Uuid,
    pub title: String,
    pub slug: String,
    pub excerpt: String,
    pub content: String,
    pub created_at: Timestamp,
    pub updated_at: Timestamp,
}

/// A `Post` as contracts see it.
pub struct PostView {
    pub id: Uuid,
    pub user_id: Uuid,
    pub title: Seq<char>,
    pub slug: Seq<char>,
    pub excerpt: Seq<char>,
    pub content: Seq<char>,
    pub created_at: Timestamp,
    pub updated_at: Timestamp,
}

impl View for Post {
    type V = PostView;

    open spec fn view(&self) -> PostView {
        PostView {
            id: self.id,
            user_id: self.user_id,
            title: self.title@,
            slug: self.slug@,
            excerpt: self.excerpt@,
            content: self.content@,
            created_at: self.created_at,
            updated_at: self.updated_at,
        }
    }
}

impl Clone for Post {
    fn clone(&self) -> (copy: Self)
        ensures
            copy == *self,
    {
        Post {
            id: self.id,
            user_id: self.user_id,
            title: self.title.clone(),
            slug: self.slug.clone(),
            excerpt: self.excerpt.clone(),
            content: self.content.clone(),
            created_at: self.created_at,
            updated_at: self.updated_at,
        }
    }
}

/// Whether `c` may stand in a slug: a lower-case letter, a digit or a hyphen.
pub open spec fn is_slug_char(c: char) -> bool {
    ('a' <= c && c <= 'z') || ('0' <= c && c <= '9') || c == '-'
}

/// Whether `s` has the shape of a slug: lower-case letters, digits and
/// hyphens only, no two hyphens in a row, and no hyphen at either end.
pub open spec fn is_slug(s: Seq<char>) -> bool {
    &&& forall|i: int| 0 <= i < s.len() ==> is_slug_char(#[trigger] s[i])
    &&& forall|i: int, j: int|
        0 <= i && j == i + 1 && j < s.len() ==> !(#[trigger] s[i] == '-' && #[trigger] s[j] == '-')
    &&& s.len() > 0 ==> s[0] != '-' && s[s.len() - 1] != '-'
}

/// The slug that `slug::slugify` derives from a title.
pub uninterp spec fn slug_of(title: Seq<char>) -> Seq<char>;

/// Calls `slug::slugify`. The contract names its result `slug_of`, and repeats
/// what the function's documentation promises of every result: it consists of
/// `a`-`z`, `0`-`9` and `-`, never holds two `-` in a row, and neither starts
/// nor ends with `-`.
#[verifier::external_body]
fn slugify(title: &str) -> (slug: String)
    ensures
        slug@ == slug_of(title@),
        is_slug(slug@),
{
    slug::slugify(title)
}

impl PostView {
    /// The record that a payload creates for the user `user_id` under `id` at
    /// the moment `now`, given the slug derived from its title.
    pub open spec fn created(
        request: PostRequestView,
        slug: Seq<char>,
        id: Uuid,
        user_id: Uuid,
        now: Timestamp,
    ) -> PostView {
        PostView {
            id,
            user_id,
            title: request.title,
            slug,
            excerpt: excerpt_of(request.content),
            content: request.content,
            created_at: now,
            updated_at: now,
        }
    }

    /// The record after an update at the moment `now`: title and content are
    /// replaced and the excerpt is derived anew; the slug stays as it was.
    pub open spec fn updated(self, request: PostRequestView, now: Timestamp) -> PostView {
        PostView {
            id: self.id,
            user_id: self.user_id,
            title: request.title,
            slug: self.slug,
            excerpt: excerpt_of(request.content),
            content: request.content,
            created_at: self.created_at,
            updated_at: now,
        }
    }

    /// What holds of every stored post: its excerpt is the one of its content.
    pub open spec fn consistent(self) -> bool {
        self.excerpt == excerpt_of(self.content)
    }
}

impl Post {
    /// Builds the record that `request` creates, given the slug of its title.
    pub fn with_slug(
        request: PostRequest,
        slug: String,
        id: Uuid,
        user_id: Uuid,
        now: Timestamp,
    ) -> (post: Post)
        ensures
            post@ == PostView::created(request@, slug@, id, user_id, now),
            post@.consistent(),
    {
        let excerpt = excerpt(request.content.as_str());
        Post {
            id,
            user_id,
            title: request.title,
            slug,
            excerpt,
            content: request.content,
            created_at: now,
            updated_at: now,
        }
    }

    /// Builds the record that `request` creates for the user `user_id` under
    /// `id` at the moment `now`: the slug comes from the title, the excerpt
    /// from the content.
    pub fn from_request(request: PostRequest, id: Uuid, user_id: Uuid, now: Timestamp) -> (post:
        Post)
        ensures
            post@ == PostView::created(request@, slug_of(request@.title), id, user_id, now),
            post@.consistent(),
            is_slug(post@.slug),
    {
        let slug = request.slug();
        Post::with_slug(request, slug, id, user_id, now)
    }

    /// Builds the record that this one becomes when `request` updates it at
    /// the moment `now`.
    pub fn apply(&self, request: PostRequest, now: Timestamp) -> (post: Post)
        ensures
            post@ == self@.updated(request@, now),
            post@.consistent(),
            post@.slug == self@.slug,
    {
        let excerpt = excerpt(request.content.as_str());
        Post {
            id: self.id,
            user_id: self.user_id,
            title: request.title,
            slug: self.slug.clone(),
            excerpt,
            content: request.content,
            created_at: self.created_at,
            updated_at: now,
        }
    }
}

} // verus!
