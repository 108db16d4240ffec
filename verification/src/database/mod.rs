//! The store as the library understands it: the `users` and `posts` tables as
//! sequences of records, with the constraints that the schema puts on them.
//!
//! An application keeps its records in a relational database. This module
//! holds the same two tables in memory and defines on them what each
//! data-access operation returns and changes, so that the laws of those
//! operations are proved here and the operations can be run without a
//! database server. As a database does, the store assigns the identifier of
//! every new record itself, and it keeps the foreign key from posts to users:
//! a post is stored for a stored user only, and goes when that user goes.

use crate::database::posts::{post_ids_below, posts_wf};
use crate::database::users::{has_user, user_ids_below, users_wf};
use crate::models::id::Uuid;
use crate::models::post::{Post, PostView};
use crate::models::user::{User, UserView};
use vstd::prelude::*;

pub mod posts;
pub mod users;

verus! {

/// The store: every user and every post, each table in the order of
/// creation, and the identifier that the next record gets.
pub struct Database {
    users: Vec<User>,
    posts: Vec<Post>,
    next_id: u128,
}

/// The store as contracts see it.
pub struct DatabaseView {
    pub users: Seq<UserView>,
    pub posts: Seq<PostView>,
    /// The value of the identifier that the next record gets.
    pub next_id: u128,
}

/// The users of a table as contracts see them.
pub open spec fn user_views(users: Seq<User>) -> Seq<UserView> {
    Seq::new(users.len(), |i: int| users[i]@)
}

/// The posts of a table as contracts see them.
pub open spec fn post_views(posts: Seq<Post>) -> Seq<PostView> {
    Seq::new(posts.len(), |i: int| posts[i]@)
}

impl View for Database {
    type V = DatabaseView;

    closed spec fn view(&self) -> DatabaseView {
        DatabaseView {
            users: user_views(self.users@),
            posts: post_views(self.posts@),
            next_id: self.next_id,
        }
    }
}

/// The foreign key of the posts table: every post belongs to a stored user.
pub open spec fn owners_stored(users: Seq<UserView>, posts: Seq<PostView>) -> bool {
    forall|i: int| 0 <= i < posts.len() ==> has_user(users, (#[trigger] posts[i]).user_id)
}

impl DatabaseView {
    /// The constraints on the store: those of each table, the foreign key
    /// from posts to users, and that no record has the identifier that the
    /// next record gets, or a later one.
    pub open spec fn wf(self) -> bool {
        &&& users_wf(self.users)
        &&& posts_wf(self.posts)
        &&& owners_stored(self.users, self.posts)
        &&& user_ids_below(self.users, self.next_id as int)
        &&& post_ids_below(self.posts, self.next_id as int)
    }

    /// The identifier that the store assigns to the next record.
    pub open spec fn fresh_id(self) -> Uuid {
        Uuid { value: self.next_id }
    }

    /// Whether the store has handed out every identifier it can.
    pub open spec fn exhausted(self) -> bool {
        self.next_id == u128::MAX
    }
}

impl Database {
    /// Whether the store meets the constraints of its tables.
    pub open spec fn wf(&self) -> bool {
        self@.wf()
    }

    /// An empty store.
    pub fn new() -> (db: Database)
        ensures
            db.wf(),
            db@.users.len() == 0,
            db@.posts.len() == 0,
            db@.next_id == 1,
    {
        Database { users: Vec::new(), posts: Vec::new(), next_id: 1 }
    }
}

} // verus!
