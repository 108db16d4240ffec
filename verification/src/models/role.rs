//! The closed set of roles a user can hold.

use crate::text::same_text;
use vstd::prelude::*;

verus! {

/// What a user is allowed to do, from the most to the least privileged.
#[derive(Clone, Copy, Debug, PartialEq, Eq, Structural)]
pub enum Role {
    /// Access to everything.
    SuperAdmin,
    Admin,
    /// Someone who can publish and edit posts, including the posts of other users.
    Editor,
    /// Someone who can publish and edit their own posts.
    Author,
    /// Someone who can write and edit their own posts but cannot publish them.
    Contributor,
    /// Someone who can only manage their profile and comment.
    Subscriber,
    /// Someone who does not have an account. Never stored.
    Guest,
}

impl Role {
    /// The small integer under which the role is stored.
    pub open spec fn ordinal_spec(self) -> int {
        match self {
            Role::SuperAdmin => 1,
            Role::Admin => 2,
            Role::Editor => 3,
            Role::Author => 4,
            Role::Contributor => 5,
            Role::Subscriber => 6,
            Role::Guest => 7,
        }
    }

    /// The role stored under `n`, if `n` is one of the seven ordinals.
    pub open spec fn of_ordinal(n: int) -> Option<Role> {
        if n == 1 {
            Some(Role::SuperAdmin)
        } else if n == 2 {
            Some(Role::Admin)
        } else if n == 3 {
            Some(Role::Editor)
        } else if n == 4 {
            Some(Role::Author)
        } else if n == 5 {
            Some(Role::Contributor)
        } else if n == 6 {
            Some(Role::Subscriber)
        } else if n == 7 {
            Some(Role::Guest)
        } else {
            None
        }
    }

    /// The name under which the role travels in JSON.
    pub open spec fn slug_spec(self) -> Seq<char> {
        match self {
            Role::SuperAdmin => "super-admin"@,
            Role::Admin => "admin"@,
            Role::Editor => "editor"@,
            Role::Author => "author"@,
            Role::Contributor => "contributor"@,
            Role::Subscriber => "subscriber"@,
            Role::Guest => "guest"@,
        }
    }

    /// The role a name stands for. Any name that is not one of the six account
    /// roles stands for `Guest`.
    pub open spec fn of_slug(slug: Seq<char>) -> Role {
        if slug == "super-admin"@ {
            Role::SuperAdmin
        } else if slug == "admin"@ {
            Role::Admin
        } else if slug == "editor"@ {
            Role::Editor
        } else if slug == "author"@ {
            Role::Author
        } else if slug == "contributor"@ {
            Role::Contributor
        } else if slug == "subscriber"@ {
            Role::Subscriber
        } else {
            Role::Guest
        }
    }

    /// Whether the role may create posts: authors and everyone above them.
    pub open spec fn may_create_posts(self) -> bool {
        self is SuperAdmin || self is Admin || self is Editor || self is Author
    }

    /// Whether the role can be stored with a user: every role but `Guest`.
    pub open spec fn is_account(self) -> bool {
        !(self is Guest)
    }

    pub fn ordinal(self) -> (n: i16)
        ensures
            n == self.ordinal_spec(),
    {
        match self {
            Role::SuperAdmin => 1,
            Role::Admin => 2,
            Role::Editor => 3,
            Role::Author => 4,
            Role::Contributor => 5,
            Role::Subscriber => 6,
            Role::Guest => 7,
        }
    }

    pub fn from_ordinal(n: i16) -> (role: Option<Role>)
        ensures
            role == Role::of_ordinal(n as int),
    {
        if n == 1 {
            Some(Role::SuperAdmin)
        } else if n == 2 {
            Some(Role::Admin)
        } else if n == 3 {
            Some(Role::Editor)
        } else if n == 4 {
            Some(Role::Author)
        } else if n == 5 {
            Some(Role::Contributor)
        } else if n == 6 {
            Some(Role::Subscriber)
        } else if n == 7 {
            Some(Role::Guest)
        } else {
            None
        }
    }

    pub fn slug(self) -> (slug: &'static str)
        ensures
            slug@ == self.slug_spec(),
    {
        match self {
            Role::SuperAdmin => "super-admin",
            Role::Admin => "admin",
            Role::Editor => "editor",
            Role::Author => "author",
            Role::Contributor => "contributor",
            Role::Subscriber => "subscriber",
            Role::Guest => "guest",
        }
    }

    pub fn from_slug(slug: &str) -> (role: Role)
        ensures
            role == Role::of_slug(slug@),
    {
        if same_text(slug, "super-admin") {
            Role::SuperAdmin
        } else if same_text(slug, "admin") {
            Role::Admin
        } else if same_text(slug, "editor") {
            Role::Editor
        } else if same_text(slug, "author") {
            Role::Author
        } else if same_text(slug, "contributor") {
            Role::Contributor
        } else if same_text(slug, "subscriber") {
            Role::Subscriber
        } else {
            Role::Guest
        }
    }

    pub fn can_create_posts(self) -> (allowed: bool)
        ensures
            allowed == self.may_create_posts(),
    {
        match self {
            Role::SuperAdmin | Role::Admin | Role::Editor | Role::Author => true,
            Role::Contributor | Role::Subscriber | Role::Guest => false,
        }
    }

    pub fn can_be_stored(self) -> (stored: bool)
        ensures
            stored == self.is_account(),
    {
        match self {
            Role::Guest => false,
            _ => true,
        }
    }
}

/// Every role is found again under its ordinal, and the ordinals are 1 to 7.
pub proof fn law_ordinal_round_trip(role: Role)
    ensures
        1 <= role.ordinal_spec() <= 7,
        Role::of_ordinal(role.ordinal_spec()) == Some(role),
{
}

/// An ordinal that stands for a role is the ordinal of that role.
pub proof fn law_ordinal_inverts(n: int)
    ensures
        Role::of_ordinal(n) is Some <==> 1 <= n <= 7,
        Role::of_ordinal(n) matches Some(role) ==> role.ordinal_spec() == n,
{
}

/// Every role is found again under its name.
pub proof fn law_slug_round_trip(role: Role)
    ensures
        Role::of_slug(role.slug_spec()) == role,
{
    reveal_strlit("super-admin");
    reveal_strlit("admin");
    reveal_strlit("editor");
    reveal_strlit("author");
    reveal_strlit("contributor");
    reveal_strlit("subscriber");
    reveal_strlit("guest");
    assert("super-admin"@[0] == 's' && "super-admin"@.len() == 11);
    assert("admin"@[0] == 'a' && "admin"@.len() == 5);
    assert("editor"@[0] == 'e');
    assert("author"@[0] == 'a' && "author"@.len() == 6);
    assert("contributor"@[0] == 'c');
    assert("subscriber"@[0] == 's' && "subscriber"@.len() == 10);
    assert("guest"@[0] == 'g');
}

} // verus!
