use minipress::handlers::github_oauth2::auth_handler::{
    auth, from_request, perform, read_user, respond_failed, user_request_for, AuthRequest, Flow,
    FlowAction, FlowEvent, GithubUserInfo, ProfileRequest, Provider, SessionState, Stage,
};
use minipress::handlers::github_oauth2::login_handler::{login, login_with};
use minipress::handlers::github_oauth2::logout_handler::logout;
use minipress::handlers::github_oauth2::state::{check_settings, ConfigError, Settings};
use minipress::handlers::github_oauth2::{github_oauth2_config, GithubOauth2State};
use minipress::handlers::{Body, HttpResponse};
use minipress::models::user::ToUser;
use minipress::models::{Role, Timestamp, User, UserRequest};
use minipress::{Database, Error, Identity};

fn at(seconds: i128) -> Timestamp {
    Timestamp { nanos: seconds * 1_000_000_000 }
}

fn settings() -> Settings {
    Settings {
        client_id: "abc".to_string(),
        client_secret: "shh".to_string(),
        auth_url: "https://github.com/login/oauth/authorize".to_string(),
        token_url: "https://github.com/login/oauth/access_token".to_string(),
        api_base_url: "https://api.github.com".to_string(),
        callback_url: "/auth".to_string(),
        app_url: "localhost:8080".to_string(),
    }
}

fn client() -> GithubOauth2State {
    github_oauth2_config(settings()).unwrap()
}

fn alice() -> GithubUserInfo {
    GithubUserInfo {
        login: "alice".to_string(),
        id: 42,
        avatar_url: Some("https://avatars/42".to_string()),
        gravatar_id: "".to_string(),
        name: Some("Alice".to_string()),
        email: None,
    }
}

fn callback() -> AuthRequest {
    AuthRequest { code: "the-code".to_string(), state: "the-state".to_string() }
}

fn answers(token: &str, profile: GithubUserInfo) -> Provider {
    Provider { token: Some(token.to_string()), profile: Some(profile) }
}

fn home() -> HttpResponse {
    HttpResponse { status: 302, location: Some("/".to_string()), body: Body::Empty }
}

fn text(status: u16, message: &str) -> HttpResponse {
    HttpResponse { status, location: None, body: Body::Text(message.to_string()) }
}

#[test]
fn settings_are_accepted() {
    let state = client();
    assert_eq!(state.client_id(), "abc");
    assert_eq!(state.client_secret(), "shh");
    assert_eq!(state.auth_url(), "https://github.com/login/oauth/authorize");
    assert_eq!(state.token_url(), "https://github.com/login/oauth/access_token");
    assert_eq!(state.api_base_url(), "https://api.github.com");
    assert_eq!(state.callback_url(), "/auth");
    assert_eq!(state.redirect_url(), "https://localhost:8080/auth");
}

#[test]
fn settings_are_refused_for_the_first_fault() {
    let refused = |change: fn(&mut Settings)| {
        let mut s = settings();
        change(&mut s);
        github_oauth2_config(s).err()
    };
    assert_eq!(refused(|s| s.auth_url = "not a url".to_string()), Some(ConfigError::InvalidAuthUrl));
    assert_eq!(
        refused(|s| s.token_url = "/relative".to_string()),
        Some(ConfigError::InvalidTokenUrl)
    );
    assert_eq!(
        refused(|s| s.callback_url = "auth".to_string()),
        Some(ConfigError::CallbackWithoutSlash)
    );
    assert_eq!(
        refused(|s| s.callback_url = "".to_string()),
        Some(ConfigError::CallbackWithoutSlash)
    );
    assert_eq!(refused(|s| s.callback_url = "/a".to_string()), Some(ConfigError::CallbackTooShort));
    assert_eq!(refused(|s| s.callback_url = "/".to_string()), Some(ConfigError::CallbackTooShort));
    assert_eq!(
        refused(|s| s.app_url = "local host".to_string()),
        Some(ConfigError::InvalidRedirectUrl)
    );
    assert_eq!(
        refused(|s| {
            s.auth_url = "".to_string();
            s.callback_url = "x".to_string();
        }),
        Some(ConfigError::InvalidAuthUrl)
    );
    assert_eq!(refused(|s| s.callback_url = "/ab".to_string()), None);
    assert_eq!(refused(|s| s.callback_url = "/é".to_string()), None);
}

#[test]
fn settings_verdict_in_every_case() {
    assert_eq!(check_settings("/auth", true, true, true), Ok(()));
    assert_eq!(check_settings("/auth", false, false, false), Err(ConfigError::InvalidAuthUrl));
    assert_eq!(check_settings("/auth", true, false, false), Err(ConfigError::InvalidTokenUrl));
    assert_eq!(check_settings("auth", true, true, false), Err(ConfigError::CallbackWithoutSlash));
    assert_eq!(check_settings("/a", true, true, false), Err(ConfigError::CallbackTooShort));
    assert_eq!(check_settings("/auth", true, true, false), Err(ConfigError::InvalidRedirectUrl));
}

#[test]
fn config_error_messages() {
    assert_eq!(ConfigError::InvalidAuthUrl.message(), "Invalid authorization endpoint URL");
    assert_eq!(ConfigError::InvalidTokenUrl.message(), "Invalid token endpoint URL");
    assert_eq!(
        ConfigError::CallbackWithoutSlash.message(),
        "Invalid callback url. Callback url needs to start with a /"
    );
    assert_eq!(ConfigError::CallbackTooShort.message(), "Callback url not valid");
    assert_eq!(ConfigError::InvalidRedirectUrl.message(), "Invalid redirect URL");
}

#[test]
fn login_redirects_to_the_authorization_page() {
    let verifier = "dBjftJeZ4CVP-mB92K27uhbUJU1p1r_wW1gFWFOEjXk".to_string();
    let answer = login_with(&client(), "xyz".to_string(), verifier.clone()).unwrap();
    assert_eq!(answer.csrf_token, "xyz");
    assert_eq!(answer.pkce_verifier, verifier);
    assert_eq!(
        answer.response,
        HttpResponse {
            status: 302,
            location: Some(
                "https://github.com/login/oauth/authorize?response_type=code&client_id=abc\
                 &state=xyz&code_challenge=E9Melhoa2OwvFrEMTJguCHaoeK1t8URWbuGJSstw-cM\
                 &code_challenge_method=S256\
                 &redirect_uri=https%3A%2F%2Flocalhost%3A8080%2Fauth"
                    .to_string()
            ),
            body: Body::Empty,
        }
    );
}

#[test]
fn login_refuses_a_verifier_of_the_wrong_length() {
    assert_eq!(login_with(&client(), "xyz".to_string(), "a".repeat(42)), None);
    assert_eq!(login_with(&client(), "xyz".to_string(), "a".repeat(129)), None);
    assert_eq!(login_with(&client(), "xyz".to_string(), "".to_string()), None);
    assert!(login_with(&client(), "xyz".to_string(), "a".repeat(43)).is_some());
    assert!(login_with(&client(), "xyz".to_string(), "a".repeat(128)).is_some());
}

#[test]
fn login_makes_fresh_secrets() {
    let state = client();
    let first = login(&state);
    let second = login(&state);
    assert_eq!(first.response.status, 302);
    assert_eq!(first.pkce_verifier.len(), 43);
    assert!(!first.csrf_token.is_empty());
    assert!(first.csrf_token != second.csrf_token);
    assert!(first.pkce_verifier != second.pkce_verifier);
    let location = first.response.location.unwrap();
    assert!(location.starts_with("https://github.com/login/oauth/authorize?response_type=code"));
    assert!(location.contains(&format!("state={}", first.csrf_token)));
    assert_eq!(
        login_with(&state, first.csrf_token.clone(), first.pkce_verifier.clone())
            .unwrap()
            .response
            .location,
        Some(location)
    );
}

#[test]
fn logout_clears_the_identity_and_goes_home() {
    let mut db = Database::new();
    let mut identity = Identity::anonymous();
    auth(&mut identity, &client(), callback(), answers("T", alice()), &mut db, at(1));
    assert!(identity.current().is_some());
    assert_eq!(logout(&mut identity), home());
    assert_eq!(identity.current(), None);
    assert_eq!(logout(&mut identity), home());
    assert_eq!(identity.user(), None);
}

#[test]
fn first_callback_creates_the_user_and_the_second_reuses_it() {
    let mut db = Database::new();
    let state = client();
    let mut identity = Identity::anonymous();
    let response =
        auth(&mut identity, &state, callback(), answers("T", alice()), &mut db, at(10));
    assert_eq!(response, home());
    let users = User::find_all(&db).unwrap();
    assert_eq!(users.len(), 1);
    let created = users[0].clone();
    assert_eq!(
        created,
        User {
            id: created.id,
            username: "alice".to_string(),
            email: None,
            password: None,
            name: Some("Alice".to_string()),
            avatar_url: Some("https://avatars/42".to_string()),
            gravatar_id: Some("".to_string()),
            github_id: Some(42),
            github_token: Some("T".to_string()),
            role: Role::Subscriber,
            created_at: at(10),
            updated_at: at(10),
        }
    );
    assert_eq!(identity.current(), Some(created.clone()));

    let mut later = Identity::anonymous();
    let mut renamed = alice();
    renamed.login = "alice-renamed".to_string();
    let response =
        auth(&mut later, &state, callback(), answers("T2", renamed), &mut db, at(20));
    assert_eq!(response, home());
    assert_eq!(User::find_all(&db), Ok(vec![created.clone()]));
    assert_eq!(later.current(), Some(created));
}

#[test]
fn callback_keeps_the_role_of_an_existing_user() {
    let mut db = Database::new();
    let request = UserRequest {
        username: "boss".to_string(),
        email: None,
        password: None,
        name: None,
        avatar_url: None,
        gravatar_id: None,
        github_id: Some(42),
        github_token: None,
        role: Role::Admin,
        created_at: at(0),
        updated_at: at(0),
    };
    let boss = User::create(request, &mut db, at(1)).unwrap();
    let mut identity = Identity::anonymous();
    auth(&mut identity, &client(), callback(), answers("T", alice()), &mut db, at(10));
    assert_eq!(identity.current(), Some(boss.clone()));
    assert_eq!(User::find_all(&db), Ok(vec![boss]));
}

#[test]
fn callback_fails_where_a_step_fails() {
    let state = client();
    let mut db = Database::new();
    let mut identity = Identity::anonymous();

    let no_token = Provider { token: None, profile: Some(alice()) };
    assert_eq!(
        auth(&mut identity, &state, callback(), no_token, &mut db, at(1)),
        text(400, "Failed to exchange the authorization code")
    );
    let no_profile = Provider { token: Some("T".to_string()), profile: None };
    assert_eq!(
        auth(&mut identity, &state, callback(), no_profile, &mut db, at(1)),
        text(500, "Failed to fetch the user profile")
    );
    let mut nameless = alice();
    nameless.login = "".to_string();
    assert_eq!(
        auth(&mut identity, &state, callback(), answers("T", nameless), &mut db, at(1)),
        text(400, "Failed to find or create user")
    );
    assert_eq!(identity.current(), None);
    assert_eq!(User::find_all(&db), Ok(vec![]));

    auth(&mut identity, &state, callback(), answers("T", alice()), &mut db, at(1));
    let before = identity.current();
    let mut other = alice();
    other.id = 43;
    assert_eq!(
        auth(&mut identity, &state, callback(), answers("T", other), &mut db, at(2)),
        text(400, "Failed to find or create user")
    );
    assert_eq!(identity.current(), before);
    assert_eq!(User::find_all(&db).unwrap().len(), 1);
}

#[test]
fn callback_fails_where_the_user_info_address_is_no_url() {
    let mut s = settings();
    s.api_base_url = "nowhere".to_string();
    let state = github_oauth2_config(s).unwrap();
    let mut db = Database::new();
    let mut identity = Identity::anonymous();
    assert_eq!(
        auth(&mut identity, &state, callback(), answers("T", alice()), &mut db, at(1)),
        text(500, "Failed to fetch the user profile")
    );
    assert_eq!(User::find_all(&db), Ok(vec![]));
}

#[test]
fn profile_request_presents_the_token() {
    assert_eq!(
        read_user("https://api.github.com", "T0K3N"),
        Ok(ProfileRequest {
            url: "https://api.github.com/user".to_string(),
            authorization: "token T0K3N".to_string(),
        })
    );
    assert_eq!(read_user("api.github.com", "T0K3N"), Err(Error::ProfileFetchError));
    assert_eq!(read_user("", "T0K3N"), Err(Error::ProfileFetchError));
}

#[test]
fn new_users_are_subscribers() {
    let mut profile = alice();
    profile.id = u64::MAX;
    profile.email = Some("a@example.com".to_string());
    let request = user_request_for(profile, "T".to_string(), at(3));
    assert_eq!(
        request,
        UserRequest {
            username: "alice".to_string(),
            email: Some("a@example.com".to_string()),
            password: None,
            name: Some("Alice".to_string()),
            avatar_url: Some("https://avatars/42".to_string()),
            gravatar_id: Some("".to_string()),
            github_id: Some(-1),
            github_token: Some("T".to_string()),
            role: Role::Subscriber,
            created_at: at(3),
            updated_at: at(3),
        }
    );
}

#[test]
fn logged_user_is_required() {
    assert_eq!(from_request(&Identity::anonymous()), Err(Error::Unauthorized));
    let mut db = Database::new();
    let mut identity = Identity::anonymous();
    auth(&mut identity, &client(), callback(), answers("T", alice()), &mut db, at(1));
    assert_eq!(from_request(&identity).ok(), identity.current());
}

#[test]
fn flow_walks_through_a_callback() {
    let flow = Flow::new(Identity::anonymous());
    let (flow, action) = flow.step(FlowEvent::LoginRequested, at(1));
    assert_eq!(action, FlowAction::RedirectToProvider);
    assert_eq!(flow.stage, Stage::AwaitingCallback);
    let (flow, action) = flow.step(FlowEvent::CallbackReceived(callback()), at(1));
    assert_eq!(action, FlowAction::ExchangeCode("the-code".to_string()));
    assert_eq!(flow.stage, Stage::Exchanging);
    let (flow, action) = flow.step(FlowEvent::TokenReceived("T".to_string()), at(1));
    assert_eq!(action, FlowAction::FetchProfile("T".to_string()));
    let (flow, action) = flow.step(FlowEvent::ProfileReceived(alice()), at(1));
    assert_eq!(action, FlowAction::FindUser(42));
    assert_eq!(flow.stage, Stage::LookingUp { token: "T".to_string(), profile: alice() });
    let (flow, action) = flow.step(FlowEvent::UserMissing, at(7));
    assert_eq!(action, FlowAction::CreateUser(user_request_for(alice(), "T".to_string(), at(7))));
    assert_eq!(flow.stage, Stage::Creating);
    let mut db = Database::new();
    let user =
        User::create(user_request_for(alice(), "T".to_string(), at(7)), &mut db, at(7))
            .unwrap();
    let (flow, action) = flow.step(FlowEvent::UserCreated(user.clone()), at(8));
    assert_eq!(action, FlowAction::Remember(user.clone()));
    assert_eq!(flow.stage, Stage::Idle);
    assert_eq!(flow.identity.current(), Some(user));
    let (flow, action) = flow.step(FlowEvent::LogoutRequested, at(9));
    assert_eq!(action, FlowAction::Forget);
    assert_eq!(flow, Flow::new(Identity::anonymous()));
}

#[test]
fn flow_fails_and_ignores() {
    let exchanging =
        || Flow::new(Identity::anonymous()).step(FlowEvent::CallbackReceived(callback()), at(1)).0;
    let (flow, action) = exchanging().step(FlowEvent::ExchangeFailed, at(1));
    assert_eq!(action, FlowAction::Fail(Error::ExchangeError));
    assert_eq!(flow.stage, Stage::Idle);
    let fetching = exchanging().step(FlowEvent::TokenReceived("T".to_string()), at(1)).0;
    let (flow, action) = fetching.step(FlowEvent::ProfileFailed, at(1));
    assert_eq!(action, FlowAction::Fail(Error::ProfileFetchError));
    assert_eq!(flow.stage, Stage::Idle);
    let (flow, action) = exchanging().step(FlowEvent::UserMissing, at(1));
    assert_eq!(action, FlowAction::Ignore);
    assert_eq!(flow.stage, Stage::Exchanging);
    let (flow, action) = Flow::new(Identity::anonymous()).step(FlowEvent::CreateFailed, at(1));
    assert_eq!(action, FlowAction::Ignore);
    assert_eq!(flow, Flow::new(Identity::anonymous()));
}

#[test]
fn identity_round_trip() {
    let mut db = Database::new();
    let mut seed = Identity::anonymous();
    auth(&mut seed, &client(), callback(), answers("T", alice()), &mut db, at(1));
    let user = seed.current().unwrap();
    let mut identity = Identity::anonymous();
    assert_eq!(identity.current(), None);
    identity.remember(user.clone());
    assert_eq!(identity.current(), Some(user.clone()));
    assert_eq!(identity.user(), Some(user.clone()));
    User::delete(user.id, &mut db).unwrap();
    assert_eq!(identity.current(), Some(user));
    identity.forget();
    assert_eq!(identity.current(), None);
}

#[test]
fn a_failed_creation_ends_the_callback_with_a_bad_request() {
    let creating = Flow::new(Identity::anonymous())
        .step(FlowEvent::CallbackReceived(callback()), at(1))
        .0
        .step(FlowEvent::TokenReceived("T".to_string()), at(1))
        .0
        .step(FlowEvent::ProfileReceived(alice()), at(1))
        .0
        .step(FlowEvent::UserMissing, at(1))
        .0;
    assert_eq!(creating.stage, Stage::Creating);
    let (flow, action) = creating.step(FlowEvent::CreateFailed, at(1));
    assert_eq!(action, FlowAction::Fail(Error::StorageError));
    assert_eq!(flow, Flow::new(Identity::anonymous()));
    let mut identity = Identity::anonymous();
    assert_eq!(perform(&mut identity, action), text(400, "Failed to find or create user"));
    assert_eq!(identity, Identity::anonymous());
    assert_eq!(respond_failed(Error::ValidationError), text(400, "Failed to find or create user"));
    assert_eq!(
        perform(&mut identity, FlowAction::FindUser(1)),
        text(500, "Unexpected step in the login flow")
    );
}

#[test]
fn session_states() {
    let flow = Flow::new(Identity::anonymous());
    assert_eq!(flow.session_state(), SessionState::Anonymous);
    let (flow, _) = flow.step(FlowEvent::LoginRequested, at(1));
    assert_eq!(flow.session_state(), SessionState::AwaitingCallback);
    let (flow, _) = flow.step(FlowEvent::CallbackReceived(callback()), at(1));
    assert_eq!(flow.session_state(), SessionState::AwaitingCallback);
    let (flow, _) = flow.step(FlowEvent::TokenReceived("T".to_string()), at(1));
    let (flow, _) = flow.step(FlowEvent::ProfileReceived(alice()), at(1));
    assert_eq!(flow.session_state(), SessionState::AwaitingCallback);
    let mut db = Database::new();
    let user =
        User::create(user_request_for(alice(), "T".to_string(), at(1)), &mut db, at(1))
            .unwrap();
    let (flow, _) = flow.step(FlowEvent::UserFound(user), at(1));
    assert_eq!(flow.session_state(), SessionState::Authenticated);
    let (flow, _) = flow.step(FlowEvent::LoginRequested, at(2));
    assert_eq!(flow.session_state(), SessionState::AwaitingCallback);
    let (flow, _) = flow.step(FlowEvent::LogoutRequested, at(3));
    assert_eq!(flow.session_state(), SessionState::Anonymous);
}

#[test]
fn identity_is_restored_from_a_cookie() {
    assert_eq!(Identity::from_cookie(None), Identity::anonymous());
    assert_eq!(Identity::from_cookie(Some(None)), Identity::anonymous());
    let mut db = Database::new();
    let user =
        User::create(user_request_for(alice(), "T".to_string(), at(1)), &mut db, at(1))
            .unwrap();
    let identity = Identity::from_cookie(Some(Some(user.clone())));
    assert_eq!(identity.current(), Some(user.clone()));
    let mut remembered = Identity::anonymous();
    remembered.remember(user);
    assert_eq!(identity, remembered);
}
