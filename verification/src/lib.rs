//! MiniPress: the verified core of a small blog backend.
//!
//! The crate holds the entities (users, posts, roles), the rules that derive a
//! post's slug and excerpt, a reference model of the relational store with the
//! data-access operations on it, the OAuth2 login flow as a state machine, and
//! the mapping from outcomes to HTTP responses. Network, database and cookie
//! traffic is left to the application that links this library.

pub mod database;
pub mod error;
pub mod handlers;
pub mod identity;
pub mod models;
pub mod template_helpers;
pub mod text;

pub use database::Database;
pub use error::Error;
pub use identity::Identity;
