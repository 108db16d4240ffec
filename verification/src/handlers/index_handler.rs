//! The home page: what the template is given to show the login state.

use crate::identity::Identity;
use crate::models::user::{PublicUser, PublicUserView, ToUser, UserView};
use vstd::prelude::*;

verus! {

/// What the home page's template is rendered with.
#[derive(Debug, PartialEq, Eq)]
pub struct IndexContext {
    /// The logged-in user's name, or the empty text where nobody is logged in.
    pub user_name: String,
    /// The logged-in user in its public shape.
    pub user: Option<PublicUser>,
}

/// An `IndexContext` as contracts see it.
pub struct IndexContextView {
    pub user_name: Seq<char>,
    pub user: Option<PublicUserView>,
}

impl View for IndexContext {
    type V = IndexContextView;

    open spec fn view(&self) -> IndexContextView {
        IndexContextView {
            user_name: self.user_name@,
            user: match self.user {
                Some(u) => Some(u@),
                None => None,
            },
        }
    }
}

/// What the home page shows for an identity.
pub open spec fn index_context(identity: Option<UserView>) -> IndexContextView {
    match identity {
        Some(user) => IndexContextView {
            user_name: user.username,
            user: Some(PublicUserView::of(user)),
        },
        None => IndexContextView { user_name: Seq::empty(), user: None },
    }
}

/// `GET /`: the data of the home page for the identity of the request.
pub fn index(id: &Identity) -> (context: IndexContext)
    ensures
        context@ == index_context(id@),
{
    match id.user() {
        Some(user) => IndexContext { user_name: user.username.clone(), user: Some(user.public()) },
        None => IndexContext { user_name: String::new(), user: None },
    }
}

} // verus!
