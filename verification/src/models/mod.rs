//! Entities of the blog and the plain values they are made of.

pub mod id;
pub mod post;
pub mod role;
pub mod user;

pub use id::{Timestamp, Uuid};
pub use post::{Post, PostRequest};
pub use role::Role;
pub use user::{PublicUser, ToUser, User, UserRequest};
