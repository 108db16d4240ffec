//! Request handlers: what each route answers, as a plain response value that
//! the transport turns into bytes.

pub mod github_oauth2;
pub mod index_handler;
pub mod post_handlers;
pub mod user_handlers;

use crate::database::{post_views, user_views};
use crate::error::Error;
use crate::models::post::{Post, PostView};
use crate::models::user::{
    public_user_views, public_views, PublicUser, PublicUserView, User, UserView,
};
use vstd::prelude::*;

pub use github_oauth2::auth_handler::GithubUserInfo;

verus! {

/// What a response carries.
#[derive(Debug, PartialEq, Eq)]
pub enum Body {
    Empty,
    /// A short human-readable message.
    Text(String),
    /// One user, to be rendered as JSON.
    User(PublicUser),
    /// A list of users, to be rendered as a JSON array.
    Users(Vec<PublicUser>),
    /// One post, to be rendered as JSON.
    Post(Post),
    /// A list of posts, to be rendered as a JSON array.
    Posts(Vec<Post>),
}

/// A `Body` as contracts see it.
pub enum BodyView {
    Empty,
    Text(Seq<char>),
    User(PublicUserView),
    Users(Seq<PublicUserView>),
    Post(PostView),
    Posts(Seq<PostView>),
}

impl View for Body {
    type V = BodyView;

    open spec fn view(&self) -> BodyView {
        match self {
            Body::Empty => BodyView::Empty,
            Body::Text(text) => BodyView::Text(text@),
            Body::User(user) => BodyView::User(user@),
            Body::Users(users) => BodyView::Users(public_user_views(users@)),
            Body::Post(post) => BodyView::Post(post@),
            Body::Posts(posts) => BodyView::Posts(post_views(posts@)),
        }
    }
}

/// The answer to a request: a status, a redirect target where the status asks
/// for one, and a body.
#[derive(Debug, PartialEq, Eq)]
pub struct HttpResponse {
    pub status: u16,
    pub location: Option<String>,
    pub body: Body,
}

/// An `HttpResponse` as contracts see it.
pub struct HttpResponseView {
    pub status: u16,
    pub location: Option<Seq<char>>,
    pub body: BodyView,
}

impl View for HttpResponse {
    type V = HttpResponseView;

    open spec fn view(&self) -> HttpResponseView {
        HttpResponseView {
            status: self.status,
            location: match self.location {
                Some(target) => Some(target@),
                None => None,
            },
            body: self.body@,
        }
    }
}

impl HttpResponseView {
    /// A message under a status.
    pub open spec fn message(status: u16, text: Seq<char>) -> HttpResponseView {
        HttpResponseView { status, location: None, body: BodyView::Text(text) }
    }

    /// The failure `error` with a static message.
    pub open spec fn failure(error: Error, text: Seq<char>) -> HttpResponseView {
        HttpResponseView::message(error.status_spec(), text)
    }

    /// 200 with one user in its public shape.
    pub open spec fn user(user: UserView) -> HttpResponseView {
        HttpResponseView {
            status: 200,
            location: None,
            body: BodyView::User(PublicUserView::of(user)),
        }
    }

    /// 200 with a list of users in their public shape.
    pub open spec fn users(users: Seq<UserView>) -> HttpResponseView {
        HttpResponseView { status: 200, location: None, body: BodyView::Users(public_views(users)) }
    }

    /// 200 with one post.
    pub open spec fn post(post: PostView) -> HttpResponseView {
        HttpResponseView { status: 200, location: None, body: BodyView::Post(post) }
    }

    /// 200 with a list of posts.
    pub open spec fn posts(posts: Seq<PostView>) -> HttpResponseView {
        HttpResponseView { status: 200, location: None, body: BodyView::Posts(posts) }
    }

    /// 302 to `target`.
    pub open spec fn redirect(target: Seq<char>) -> HttpResponseView {
        HttpResponseView { status: 302, location: Some(target), body: BodyView::Empty }
    }
}

impl HttpResponse {
    /// A message under a status.
    pub fn message(status: u16, text: &str) -> (response: HttpResponse)
        ensures
            response@ == HttpResponseView::message(status, text@),
    {
        HttpResponse { status, location: None, body: Body::Text(text.to_owned()) }
    }

    /// The failure `error` with a static message.
    pub fn failure(error: Error, text: &str) -> (response: HttpResponse)
        ensures
            response@ == HttpResponseView::failure(error, text@),
    {
        HttpResponse::message(error.status(), text)
    }

    /// 200 with one user in its public shape.
    pub fn user(user: &User) -> (response: HttpResponse)
        ensures
            response@ == HttpResponseView::user(user@),
    {
        HttpResponse { status: 200, location: None, body: Body::User(user.public()) }
    }

    /// 200 with a list of users in their public shape.
    pub fn users(users: &Vec<User>) -> (response: HttpResponse)
        ensures
            response@ == HttpResponseView::users(user_views(users@)),
    {
        HttpResponse { status: 200, location: None, body: Body::Users(User::public_all(users)) }
    }

    /// 200 with one post.
    pub fn post(post: Post) -> (response: HttpResponse)
        ensures
            response@ == HttpResponseView::post(post@),
    {
        HttpResponse { status: 200, location: None, body: Body::Post(post) }
    }

    /// 200 with a list of posts.
    pub fn posts(posts: Vec<Post>) -> (response: HttpResponse)
        ensures
            response@ == HttpResponseView::posts(post_views(posts@)),
    {
        HttpResponse { status: 200, location: None, body: Body::Posts(posts) }
    }

    /// 302 to `target`.
    pub fn redirect(target: &str) -> (response: HttpResponse)
        ensures
            response@ == HttpResponseView::redirect(target@),
    {
        HttpResponse { status: 302, location: Some(target.to_owned()), body: Body::Empty }
    }
}

} // verus!
