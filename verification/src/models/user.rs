//! Users, the payload that creates or updates one, and a provider's profile.

use crate::models::id::{Timestamp, Uuid};
pub use crate::models::role::Role;
use vstd::prelude::*;

verus! {

/// The characters of an optional text.
pub open spec fn text_of(text: Option<String>) -> Option<Seq<char>> {
    match text {
        Some(s) => Some(s@),
        None => None,
    }
}

/// A copy of an optional text.
pub fn clone_text(text: &Option<String>) -> (copy: Option<String>)
    ensures
        copy == *text,
{
    match text {
        Some(s) => Some(s.clone()),
        None => None,
    }
}

/// What a client sends to create or update a user.
#[derive(Debug, PartialEq, Eq)]
pub struct UserRequest {
    pub username: String,
    pub email: Option<String>,
    pub password: Option<String>,
    pub name: Option<String>,
    pub avatar_url: Option<String>,
    pub gravatar_id: Option<String>,
    pub github_id: Option<i64>,
    pub github_token: Option<String>,
    pub role: Role,
    pub created_at: Timestamp,
    pub updated_at: Timestamp,
}

/// A `UserRequest` as contracts see it.
pub struct UserRequestView {
    pub username: Seq<char>,
    pub email: Option<Seq<char>>,
    pub password: Option<Seq<char>>,
    pub name: Option<Seq<char>>,
    pub avatar_url: Option<Seq<char>>,
    pub gravatar_id: Option<Seq<char>>,
    pub github_id: Option<i64>,
    pub github_token: Option<Seq<char>>,
    pub role: Role,
    pub created_at: Timestamp,
    pub updated_at: Timestamp,
}

impl View for UserRequest {
    type V = UserRequestView;

    open spec fn view(&self) -> UserRequestView {
        UserRequestView {
            username: self.username@,
            email: text_of(self.email),
            password: text_of(self.password),
            name: text_of(self.name),
            avatar_url: text_of(self.avatar_url),
            gravatar_id: text_of(self.gravatar_id),
            github_id: self.github_id,
            github_token: text_of(self.github_token),
            role: self.role,
            created_at: self.created_at,
            updated_at: self.updated_at,
        }
    }
}

impl UserRequestView {
    /// A payload is well formed when it names the user and gives an account role.
    pub open spec fn valid(self) -> bool {
        self.username.len() > 0 && self.role.is_account()
    }
}

impl UserRequest {
    /// Whether the payload names the user and gives a role that can be stored.
    pub fn is_valid(&self) -> (valid: bool)
        ensures
            valid == self@.valid(),
    {
        !self.username.as_str().is_empty() && self.role.can_be_stored()
    }
}

impl Clone for UserRequest {
    fn clone(&self) -> (copy: Self)
        ensures
            copy == *self,
    {
        UserRequest {
            username: self.username.clone(),
            email: clone_text(&self.email),
            password: clone_text(&self.password),
            name: clone_text(&self.name),
            avatar_url: clone_text(&self.avatar_url),
            gravatar_id: clone_text(&self.gravatar_id),
            github_id: self.github_id,
            github_token: clone_text(&self.github_token),
            role: self.role,
            created_at: self.created_at,
            updated_at: self.updated_at,
        }
    }
}

/// A stored user.
#[derive(Debug, PartialEq, Eq)]
pub struct User {
    pub id: Uuid,
    pub username: String,
    pub email: Option<String>,
    pub password: Option<String>,
    pub name: Option<String>,
    pub avatar_url: Option<String>,
    pub gravatar_id: Option<String>,
    pub github_id: Option<i64>,
    pub github_token: Option<String>,
    pub role: Role,
    pub created_at: Timestamp,
    pub updated_at: Timestamp,
}

/// A `User` as contracts see it.
pub struct UserView {
    pub id: Uuid,
    pub username: Seq<char>,
    pub email: Option<Seq<char>>,
    pub password: Option<Seq<char>>,
    pub name: Option<Seq<char>>,
    pub avatar_url: Option<Seq<char>>,
    pub gravatar_id: Option<Seq<char>>,
    pub github_id: Option<i64>,
    pub github_token: Option<Seq<char>>,
    pub role: Role,
    pub created_at: Timestamp,
    pub updated_at: Timestamp,
}

impl View for User {
    type V = UserView;

    open spec fn view(&self) -> UserView {
        UserView {
            id: self.id,
            username: self.username@,
            email: text_of(self.email),
            password: text_of(self.password),
            name: text_of(self.name),
            avatar_url: text_of(self.avatar_url),
            gravatar_id: text_of(self.gravatar_id),
            github_id: self.github_id,
            github_token: text_of(self.github_token),
            role: self.role,
            created_at: self.created_at,
            updated_at: self.updated_at,
        }
    }
}

impl Clone for User {
    fn clone(&self) -> (copy: Self)
        ensures
            copy == *self,
    {
        User {
            id: self.id,
            username: self.username.clone(),
            email: clone_text(&self.email),
            password: clone_text(&self.password),
            name: clone_text(&self.name),
            avatar_url: clone_text(&self.avatar_url),
            gravatar_id: clone_text(&self.gravatar_id),
            github_id: self.github_id,
            github_token: clone_text(&self.github_token),
            role: self.role,
            created_at: self.created_at,
            updated_at: self.updated_at,
        }
    }
}

impl UserView {
    /// The record that a valid payload creates under `id` at the moment `now`:
    /// the payload's fields, with both timestamps assigned by the server.
    pub open spec fn created(request: UserRequestView, id: Uuid, now: Timestamp) -> UserView {
        UserView {
            id,
            username: request.username,
            email: request.email,
            password: request.password,
            name: request.name,
            avatar_url: request.avatar_url,
            gravatar_id: request.gravatar_id,
            github_id: request.github_id,
            github_token: request.github_token,
            role: request.role,
            created_at: now,
            updated_at: now,
        }
    }

    /// The record after an update at the moment `now`: the payload replaces
    /// every mutable field; the identifier, the external id and the moment of
    /// creation stay.
    pub open spec fn updated(self, request: UserRequestView, now: Timestamp) -> UserView {
        UserView {
            id: self.id,
            username: request.username,
            email: request.email,
            password: request.password,
            name: request.name,
            avatar_url: request.avatar_url,
            gravatar_id: request.gravatar_id,
            github_id: self.github_id,
            github_token: request.github_token,
            role: request.role,
            created_at: self.created_at,
            updated_at: now,
        }
    }
}

impl User {
    /// Builds the record that `request` creates under `id` at the moment `now`.
    pub fn from_request(request: UserRequest, id: Uuid, now: Timestamp) -> (user: User)
        ensures
            user@ == UserView::created(request@, id, now),
    {
        User {
            id,
            username: request.username,
            email: request.email,
            password: request.password,
            name: request.name,
            avatar_url: request.avatar_url,
            gravatar_id: request.gravatar_id,
            github_id: request.github_id,
            github_token: request.github_token,
            role: request.role,
            created_at: now,
            updated_at: now,
        }
    }

    /// Builds the record that this one becomes when `request` updates it at
    /// the moment `now`.
    pub fn apply(&self, request: UserRequest, now: Timestamp) -> (user: User)
        ensures
            user@ == self@.updated(request@, now),
    {
        User {
            id: self.id,
            username: request.username,
            email: request.email,
            password: request.password,
            name: request.name,
            avatar_url: request.avatar_url,
            gravatar_id: request.gravatar_id,
            github_id: self.github_id,
            github_token: request.github_token,
            role: request.role,
            created_at: self.created_at,
            updated_at: now,
        }
    }
}

/// A user as the JSON API shows it: every field but the password hash and
/// the provider's access token.
#[derive(Debug, PartialEq, Eq)]
pub struct PublicUser {
    pub id: Uuid,
    pub username: String,
    pub email: Option<String>,
    pub name: Option<String>,
    pub avatar_url: Option<String>,
    pub gravatar_id: Option<String>,
    pub github_id: Option<i64>,
    pub role: Role,
    pub created_at: Timestamp,
    pub updated_at: Timestamp,
}

/// A `PublicUser` as contracts see it.
pub struct PublicUserView {
    pub id: Uuid,
    pub username: Seq<char>,
    pub email: Option<Seq<char>>,
    pub name: Option<Seq<char>>,
    pub avatar_url: Option<Seq<char>>,
    pub gravatar_id: Option<Seq<char>>,
    pub github_id: Option<i64>,
    pub role: Role,
    pub created_at: Timestamp,
    pub updated_at: Timestamp,
}

impl View for PublicUser {
    type V = PublicUserView;

    open spec fn view(&self) -> PublicUserView {
        PublicUserView {
            id: self.id,
            username: self.username@,
            email: text_of(self.email),
            name: text_of(self.name),
            avatar_url: text_of(self.avatar_url),
            gravatar_id: text_of(self.gravatar_id),
            github_id: self.github_id,
            role: self.role,
            created_at: self.created_at,
            updated_at: self.updated_at,
        }
    }
}

impl PublicUserView {
    /// The public shape of a user.
    pub open spec fn of(user: UserView) -> PublicUserView {
        PublicUserView {
            id: user.id,
            username: user.username,
            email: user.email,
            name: user.name,
            avatar_url: user.avatar_url,
            gravatar_id: user.gravatar_id,
            github_id: user.github_id,
            role: user.role,
            created_at: user.created_at,
            updated_at: user.updated_at,
        }
    }
}

/// The public shapes of a sequence of users.
pub open spec fn public_views(users: Seq<UserView>) -> Seq<PublicUserView> {
    Seq::new(users.len(), |i: int| PublicUserView::of(users[i]))
}

/// A sequence of public users as contracts see it.
pub open spec fn public_user_views(users: Seq<PublicUser>) -> Seq<PublicUserView> {
    Seq::new(users.len(), |i: int| users[i]@)
}

impl User {
    /// The user as the JSON API shows it.
    pub fn public(&self) -> (shown: PublicUser)
        ensures
            shown@ == PublicUserView::of(self@),
    {
        PublicUser {
            id: self.id,
            username: self.username.clone(),
            email: clone_text(&self.email),
            name: clone_text(&self.name),
            avatar_url: clone_text(&self.avatar_url),
            gravatar_id: clone_text(&self.gravatar_id),
            github_id: self.github_id,
            role: self.role,
            created_at: self.created_at,
            updated_at: self.updated_at,
        }
    }

    /// The public shapes of `users`, in the same order.
    pub fn public_all(users: &Vec<User>) -> (shown: Vec<PublicUser>)
        ensures
            public_user_views(shown@) == public_views(Seq::new(users@.len(), |i: int| users@[i]@)),
    {
        let mut shown: Vec<PublicUser> = Vec::new();
        let mut i: usize = 0;
        while i < users.len()
            invariant
                i <= users.len(),
                shown@.len() == i,
                forall|k: int| 0 <= k < i ==> shown@[k]@ == PublicUserView::of(users@[k]@),
            decreases users.len() - i,
        {
            shown.push(users[i].public());
            i = i + 1;
        }
        assert(public_user_views(shown@) =~= public_views(
            Seq::new(users@.len(), |i: int| users@[i]@),
        ));
        shown
    }
}

/// Something that may hold a logged-in user.
pub trait ToUser {
    /// The user held, if there is one.
    fn user(&self) -> Option<User>;
}

} // verus!
