//! Login through GitHub's OAuth2 authorization-code flow.

pub mod auth_handler;
pub mod login_handler;
pub mod logout_handler;
pub mod state;

pub use auth_handler::{auth, GithubUserInfo};
pub use login_handler::login;
pub use logout_handler::logout;
pub use state::{github_oauth2_config, ConfigError, GithubOauth2State, Settings};
