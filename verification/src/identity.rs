//! The identity of a session: the user who logged in, as a snapshot taken at
//! login time. Nothing here reads the store.

use crate::models::user::{ToUser, User, UserView};
use vstd::prelude::*;

verus! {

/// The identity that a request carries: a snapshot of the logged-in user, or
/// nothing.
#[derive(Debug, PartialEq, Eq)]
pub struct Identity {
    pub user: Option<User>,
}

/// The outcome of asking for a user, as contracts see it.
pub open spec fn user_option_view(user: Option<User>) -> Option<UserView> {
    match user {
        Some(u) => Some(u@),
        None => None,
    }
}

impl View for Identity {
    type V = Option<UserView>;

    open spec fn view(&self) -> Option<UserView> {
        user_option_view(self.user)
    }
}

/// The identity after `user` was remembered.
pub open spec fn remembered(user: UserView) -> Option<UserView> {
    Some(user)
}

/// The identity after it was forgotten.
pub open spec fn forgotten() -> Option<UserView> {
    None
}

/// The identity that a cookie stands for: the user it holds, or nothing where
/// the request brought no cookie (`None`) or one that did not hold a user
/// (`Some(None)`).
pub open spec fn restored(cookie: Option<Option<User>>) -> Option<UserView> {
    match cookie {
        Some(Some(user)) => Some(user@),
        _ => None,
    }
}

impl Identity {
    /// The identity of a request that carries none.
    pub fn anonymous() -> (id: Identity)
        ensures
            id@ == forgotten(),
    {
        Identity { user: None }
    }

    /// The identity of a request, from what its cookie was read as: `None`
    /// where there was no cookie, `Some(None)` where the cookie did not hold a
    /// user, `Some(Some(user))` where it did.
    pub fn from_cookie(cookie: Option<Option<User>>) -> (id: Identity)
        ensures
            id@ == restored(cookie),
    {
        match cookie {
            Some(Some(user)) => Identity { user: Some(user) },
            _ => Identity { user: None },
        }
    }

    /// What the identity holds: the user remembered last, if it was not
    /// forgotten since.
    pub fn current(&self) -> (user: Option<User>)
        ensures
            user_option_view(user) == self@,
    {
        match &self.user {
            Some(u) => Some(u.clone()),
            None => None,
        }
    }

    /// Makes `user` the identity.
    pub fn remember(&mut self, user: User)
        ensures
            final(self)@ == remembered(user@),
    {
        self.user = Some(user);
    }

    /// Clears the identity.
    pub fn forget(&mut self)
        ensures
            final(self)@ == forgotten(),
    {
        self.user = None;
    }
}

impl ToUser for Identity {
    fn user(&self) -> (user: Option<User>)
        ensures
            user_option_view(user) == self@,
    {
        self.current()
    }
}

/// An identity hands out the very user that was remembered, every field of
/// it, be it written into a cookie and read back in a later request or not;
/// once forgotten, it hands out nothing.
pub proof fn law_identity_round_trip(user: User)
    ensures
        remembered(user@) == Some(user@),
        restored(Some(Some(user))) == remembered(user@),
        forgotten() is None,
        restored(None) == forgotten(),
        restored(Some(None)) == forgotten(),
{
}

} // verus!
