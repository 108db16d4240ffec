//! The provider's callback: exchange the code, fetch the profile, find or
//! create the local user, remember it, go home.

use crate::database::users::{
    after_create_user, create_user_outcome, find_github_user, has_github_user, has_user,
    has_username, law_create_then_find_github_user, lemma_create_keeps_users_wf,
    lemma_fresh_user_id, lemma_user_slot, user_outcome, user_slot, users_wf,
};
use crate::database::{Database, DatabaseView};
use crate::error::Error;
use crate::handlers::github_oauth2::state::{url_is_valid, url_parses, GithubOauth2State};
use crate::handlers::{HttpResponse, HttpResponseView};
use crate::identity::Identity;
use crate::models::id::Timestamp;
use crate::models::role::Role;
use crate::models::user::{text_of, User, UserRequest, UserRequestView, UserView};
use crate::text::joined;
use vstd::prelude::*;

verus! {

/// The user of the request, required by routes that are open to logged-in
/// users only.
pub type LoggedUser = User;

/// The query of the provider's callback.
#[derive(Debug, PartialEq, Eq)]
pub struct AuthRequest {
    pub code: String,
    pub state: String,
}

/// What the flow reads of the profile that the provider hands out.
#[derive(Debug, PartialEq, Eq)]
pub struct GithubUserInfo {
    pub login: String,
    pub id: u64,
    pub avatar_url: Option<String>,
    pub gravatar_id: String,
    pub name: Option<String>,
    pub email: Option<String>,
}

/// A `GithubUserInfo` as contracts see it.
pub struct GithubUserInfoView {
    pub login: Seq<char>,
    pub id: u64,
    pub avatar_url: Option<Seq<char>>,
    pub gravatar_id: Seq<char>,
    pub name: Option<Seq<char>>,
    pub email: Option<Seq<char>>,
}

impl View for GithubUserInfo {
    type V = GithubUserInfoView;

    open spec fn view(&self) -> GithubUserInfoView {
        GithubUserInfoView {
            login: self.login@,
            id: self.id,
            avatar_url: text_of(self.avatar_url),
            gravatar_id: self.gravatar_id@,
            name: text_of(self.name),
            email: text_of(self.email),
        }
    }
}

/// The user of a request, or `Unauthorized` where the request carries none.
pub open spec fn logged_user_of(identity: Option<UserView>) -> Result<UserView, Error> {
    match identity {
        Some(user) => Ok(user),
        None => Err(Error::Unauthorized),
    }
}

/// Hands out the user of the request, for routes that need one.
pub fn from_request(id: &Identity) -> (user: Result<LoggedUser, Error>)
    ensures
        user_outcome(user) == logged_user_of(id@),
{
    match id.current() {
        Some(user) => Ok(user),
        None => Err(Error::Unauthorized),
    }
}

/// The external id under which a profile's user is stored: the provider's
/// number, reduced to 64 signed bits.
pub open spec fn external_id(profile_id: u64) -> i64 {
    profile_id as i64
}

/// The payload that creates the local user of a profile: the login handle is
/// the user name; e-mail, name and avatar are copied; the role is the lowest
/// one that has an account; the external id and the access token are stored.
pub open spec fn new_user_request(
    profile: GithubUserInfo,
    token: String,
    now: Timestamp,
) -> UserRequest {
    UserRequest {
        username: profile.login,
        email: profile.email,
        password: None,
        name: profile.name,
        avatar_url: profile.avatar_url,
        gravatar_id: Some(profile.gravatar_id),
        github_id: Some(external_id(profile.id)),
        github_token: Some(token),
        role: Role::Subscriber,
        created_at: now,
        updated_at: now,
    }
}

/// `new_user_request` over what contracts see.
pub open spec fn new_user_request_view(
    profile: GithubUserInfoView,
    token: Seq<char>,
    now: Timestamp,
) -> UserRequestView {
    UserRequestView {
        username: profile.login,
        email: profile.email,
        password: None,
        name: profile.name,
        avatar_url: profile.avatar_url,
        gravatar_id: Some(profile.gravatar_id),
        github_id: Some(external_id(profile.id)),
        github_token: Some(token),
        role: Role::Subscriber,
        created_at: now,
        updated_at: now,
    }
}

/// Builds the payload that creates the local user of a profile.
pub fn user_request_for(profile: GithubUserInfo, token: String, now: Timestamp) -> (request:
    UserRequest)
    ensures
        request == new_user_request(profile, token, now),
        request@ == new_user_request_view(profile@, token@, now),
{
    UserRequest {
        username: profile.login,
        email: profile.email,
        password: None,
        name: profile.name,
        avatar_url: profile.avatar_url,
        gravatar_id: Some(profile.gravatar_id),
        github_id: Some(#[verifier::truncate] (profile.id as i64)),
        github_token: Some(token),
        role: Role::Subscriber,
        created_at: now,
        updated_at: now,
    }
}

/// The request that fetches the profile of the token's owner.
#[derive(Debug, PartialEq, Eq)]
pub struct ProfileRequest {
    /// The address of the provider's user-info endpoint.
    pub url: String,
    /// The value of the `Authorization` header.
    pub authorization: String,
}

/// The address of the user-info endpoint under a base address.
pub open spec fn user_info_url(api_base_url: Seq<char>) -> Seq<char> {
    api_base_url + "/user"@
}

/// The `Authorization` header that presents an access token.
pub open spec fn token_header(access_token: Seq<char>) -> Seq<char> {
    "token "@ + access_token
}

/// The profile request for an address that was judged: where the address is
/// an absolute URL the request, else a failure to fetch the profile.
pub fn profile_request(url: String, access_token: &str, url_ok: bool) -> (request: Result<
    ProfileRequest,
    Error,
>)
    ensures
        match request {
            Ok(r) => url_ok && r.url == url && r.authorization@ == token_header(access_token@),
            Err(e) => !url_ok && e == Error::ProfileFetchError,
        },
{
    if url_ok {
        Ok(ProfileRequest { url, authorization: joined("token ", access_token) })
    } else {
        Err(Error::ProfileFetchError)
    }
}

/// Prepares the fetch of the profile: a GET of `<api_base_url>/user` that
/// presents the access token, or a failure where that address is no absolute
/// URL.
pub fn read_user(api_base_url: &str, access_token: &str) -> (request: Result<ProfileRequest, Error>)
    ensures
        match request {
            Ok(r) => {
                &&& url_parses(user_info_url(api_base_url@))
                &&& r.url@ == user_info_url(api_base_url@)
                &&& r.authorization@ == token_header(access_token@)
            },
            Err(e) => !url_parses(user_info_url(api_base_url@)) && e == Error::ProfileFetchError,
        },
{
    let url = joined(api_base_url, "/user");
    let url_ok = url_is_valid(url.as_str());
    profile_request(url, access_token, url_ok)
}

/// Where a callback stands between two pieces of outside work.
#[derive(Debug, PartialEq, Eq)]
pub enum Stage {
    /// No login is under way.
    Idle,
    /// The browser was sent to the provider; its callback is awaited.
    AwaitingCallback,
    /// The code of the callback is being exchanged for an access token.
    Exchanging,
    /// The profile of the token's owner is being fetched.
    FetchingProfile { token: String },
    /// The local user of the profile is being looked up.
    LookingUp { token: String, profile: GithubUserInfo },
    /// The local user of the profile is being created.
    Creating,
}

/// The three states a session is in, as seen from outside.
#[derive(Clone, Copy, Debug, PartialEq, Eq, Structural)]
pub enum SessionState {
    Anonymous,
    AwaitingCallback,
    Authenticated,
}

/// A session: the identity it carries and where its login stands.
#[derive(Debug, PartialEq, Eq)]
pub struct Flow {
    pub identity: Identity,
    pub stage: Stage,
}

/// What happened outside.
#[derive(Debug, PartialEq, Eq)]
pub enum FlowEvent {
    /// The browser asked to log in.
    LoginRequested,
    /// The provider called back.
    CallbackReceived(AuthRequest),
    /// The provider exchanged the code for this access token.
    TokenReceived(String),
    /// The provider did not exchange the code.
    ExchangeFailed,
    /// The provider handed out this profile.
    ProfileReceived(GithubUserInfo),
    /// The provider did not hand out a profile.
    ProfileFailed,
    /// The store holds this user under the profile's external id.
    UserFound(User),
    /// The store holds no user under the profile's external id.
    UserMissing,
    /// The store created this user.
    UserCreated(User),
    /// The store did not create the user.
    CreateFailed,
    /// The browser asked to log out.
    LogoutRequested,
}

/// What is to be done outside next.
#[derive(Debug, PartialEq, Eq)]
pub enum FlowAction {
    /// The event does not fit the stage: nothing is done.
    Ignore,
    /// Redirect the browser to the provider's authorization page.
    RedirectToProvider,
    /// Exchange this code for an access token.
    ExchangeCode(String),
    /// Fetch the profile of the owner of this access token.
    FetchProfile(String),
    /// Look up the user with this external id.
    FindUser(i64),
    /// Create this user.
    CreateUser(UserRequest),
    /// Write this user into the identity cookie and redirect home.
    Remember(User),
    /// Clear the identity cookie and redirect home.
    Forget,
    /// Answer with this failure.
    Fail(Error),
}

impl Flow {
    /// The state of the session as seen from outside. While a callback is
    /// being worked on, the session is still awaiting its outcome.
    pub open spec fn state(self) -> SessionState {
        match self.stage {
            Stage::Idle => if self.identity.user is Some {
                SessionState::Authenticated
            } else {
                SessionState::Anonymous
            },
            _ => SessionState::AwaitingCallback,
        }
    }

    /// Whether the session is between two logins: a login, a callback or a
    /// logout can start here. The state that a login sends along is never
    /// compared with the one a callback brings, so a callback may come
    /// unannounced.
    pub open spec fn at_rest(self) -> bool {
        self.stage is Idle || self.stage is AwaitingCallback
    }

    /// The session after an event, and what is to be done next.
    pub open spec fn after(self, event: FlowEvent, now: Timestamp) -> (Flow, FlowAction) {
        match (self.stage, event) {
            (Stage::Idle, FlowEvent::LoginRequested)
            | (Stage::AwaitingCallback, FlowEvent::LoginRequested) => (
                Flow { identity: self.identity, stage: Stage::AwaitingCallback },
                FlowAction::RedirectToProvider,
            ),
            (Stage::Idle, FlowEvent::CallbackReceived(request))
            | (Stage::AwaitingCallback, FlowEvent::CallbackReceived(request)) => (
                Flow { identity: self.identity, stage: Stage::Exchanging },
                FlowAction::ExchangeCode(request.code),
            ),
            (Stage::Idle, FlowEvent::LogoutRequested)
            | (Stage::AwaitingCallback, FlowEvent::LogoutRequested) => (
                Flow { identity: Identity { user: None }, stage: Stage::Idle },
                FlowAction::Forget,
            ),
            (Stage::Exchanging, FlowEvent::TokenReceived(token)) => (
                Flow { identity: self.identity, stage: Stage::FetchingProfile { token } },
                FlowAction::FetchProfile(token),
            ),
            (Stage::Exchanging, FlowEvent::ExchangeFailed) => (
                Flow { identity: self.identity, stage: Stage::Idle },
                FlowAction::Fail(Error::ExchangeError),
            ),
            (Stage::FetchingProfile { token }, FlowEvent::ProfileReceived(profile)) => (
                Flow { identity: self.identity, stage: Stage::LookingUp { token, profile } },
                FlowAction::FindUser(external_id(profile.id)),
            ),
            (Stage::FetchingProfile { token }, FlowEvent::ProfileFailed) => (
                Flow { identity: self.identity, stage: Stage::Idle },
                FlowAction::Fail(Error::ProfileFetchError),
            ),
            (Stage::LookingUp { token, profile }, FlowEvent::UserFound(user)) => (
                Flow { identity: Identity { user: Some(user) }, stage: Stage::Idle },
                FlowAction::Remember(user),
            ),
            (Stage::LookingUp { token, profile }, FlowEvent::UserMissing) => (
                Flow { identity: self.identity, stage: Stage::Creating },
                FlowAction::CreateUser(new_user_request(profile, token, now)),
            ),
            (Stage::Creating, FlowEvent::UserCreated(user)) => (
                Flow { identity: Identity { user: Some(user) }, stage: Stage::Idle },
                FlowAction::Remember(user),
            ),
            (Stage::Creating, FlowEvent::CreateFailed) => (
                Flow { identity: self.identity, stage: Stage::Idle },
                FlowAction::Fail(Error::StorageError),
            ),
            _ => (self, FlowAction::Ignore),
        }
    }

    /// Says in which of the three states the session is.
    pub fn session_state(&self) -> (state: SessionState)
        ensures
            state == self.state(),
    {
        match &self.stage {
            Stage::Idle => match &self.identity.user {
                Some(_) => SessionState::Authenticated,
                None => SessionState::Anonymous,
            },
            _ => SessionState::AwaitingCallback,
        }
    }

    /// A session that carries `identity` and has no login under way.
    pub fn new(identity: Identity) -> (flow: Flow)
        ensures
            flow == (Flow { identity, stage: Stage::Idle }),
    {
        Flow { identity, stage: Stage::Idle }
    }

    /// Takes an event in and says what is to be done next. `now` is the
    /// moment a user that has to be created is created at.
    pub fn step(self, event: FlowEvent, now: Timestamp) -> (next: (Flow, FlowAction))
        ensures
            next == self.after(event, now),
    {
        let Flow { identity, stage } = self;
        match (stage, event) {
            (Stage::Idle, FlowEvent::LoginRequested) => (
                Flow { identity, stage: Stage::AwaitingCallback },
                FlowAction::RedirectToProvider,
            ),
            (Stage::AwaitingCallback, FlowEvent::LoginRequested) => (
                Flow { identity, stage: Stage::AwaitingCallback },
                FlowAction::RedirectToProvider,
            ),
            (Stage::Idle, FlowEvent::CallbackReceived(request)) => (
                Flow { identity, stage: Stage::Exchanging },
                FlowAction::ExchangeCode(request.code),
            ),
            (Stage::AwaitingCallback, FlowEvent::CallbackReceived(request)) => (
                Flow { identity, stage: Stage::Exchanging },
                FlowAction::ExchangeCode(request.code),
            ),
            (Stage::Idle, FlowEvent::LogoutRequested) => (
                Flow { identity: Identity { user: None }, stage: Stage::Idle },
                FlowAction::Forget,
            ),
            (Stage::AwaitingCallback, FlowEvent::LogoutRequested) => (
                Flow { identity: Identity { user: None }, stage: Stage::Idle },
                FlowAction::Forget,
            ),
            (Stage::Exchanging, FlowEvent::TokenReceived(token)) => {
                let copy = token.clone();
                (
                    Flow { identity, stage: Stage::FetchingProfile { token } },
                    FlowAction::FetchProfile(copy),
                )
            },
            (Stage::Exchanging, FlowEvent::ExchangeFailed) => (
                Flow { identity, stage: Stage::Idle },
                FlowAction::Fail(Error::ExchangeError),
            ),
            (Stage::FetchingProfile { token }, FlowEvent::ProfileReceived(profile)) => {
                let github_id = #[verifier::truncate] (profile.id as i64);
                (
                    Flow { identity, stage: Stage::LookingUp { token, profile } },
                    FlowAction::FindUser(github_id),
                )
            },
            (Stage::FetchingProfile { token }, FlowEvent::ProfileFailed) => (
                Flow { identity, stage: Stage::Idle },
                FlowAction::Fail(Error::ProfileFetchError),
            ),
            (Stage::LookingUp { token, profile }, FlowEvent::UserFound(user)) => {
                let copy = user.clone();
                (
                    Flow { identity: Identity { user: Some(user) }, stage: Stage::Idle },
                    FlowAction::Remember(copy),
                )
            },
            (Stage::LookingUp { token, profile }, FlowEvent::UserMissing) => (
                Flow { identity, stage: Stage::Creating },
                FlowAction::CreateUser(user_request_for(profile, token, now)),
            ),
            (Stage::Creating, FlowEvent::UserCreated(user)) => {
                let copy = user.clone();
                (
                    Flow { identity: Identity { user: Some(user) }, stage: Stage::Idle },
                    FlowAction::Remember(copy),
                )
            },
            (Stage::Creating, FlowEvent::CreateFailed) => (
                Flow { identity, stage: Stage::Idle },
                FlowAction::Fail(Error::StorageError),
            ),
            (stage, _) => (Flow { identity, stage }, FlowAction::Ignore),
        }
    }
}

/// A login request leaves a session at rest awaiting the callback, and while
/// a callback is worked on the session keeps awaiting. The callback ends in
/// the authenticated state where the local user was found or created; a step
/// that fails ends it with the identity the session had before, the
/// remaining steps untaken. A logout request leaves a session at rest
/// anonymous.
pub proof fn law_flow_states(flow: Flow, event: FlowEvent, now: Timestamp)
    ensures
        ({
            let (next, action) = flow.after(event, now);
            &&& flow.at_rest() && event is LoginRequested ==> next.state()
                == SessionState::AwaitingCallback && action is RedirectToProvider
            &&& flow.at_rest() && event is CallbackReceived ==> next.state()
                == SessionState::AwaitingCallback && action is ExchangeCode
            &&& flow.at_rest() && event is LogoutRequested ==> next.state()
                == SessionState::Anonymous && action is Forget
            &&& action is Remember ==> next.state() == SessionState::Authenticated
                && next.identity.user == Some(action->Remember_0)
            &&& action is Fail ==> next.stage is Idle && next.identity == flow.identity
            &&& action is Ignore ==> next == flow
            &&& (action is FetchProfile || action is FindUser || action is CreateUser)
                ==> next.state() == SessionState::AwaitingCallback && next.identity
                == flow.identity
        }),
{
}

/// What the provider answers during one callback: the access token it gives
/// for the code, and the profile it gives for the token. `None` stands for a
/// request that failed.
#[derive(Debug, PartialEq, Eq)]
pub struct Provider {
    pub token: Option<String>,
    pub profile: Option<GithubUserInfo>,
}

/// A `Provider` as contracts see it.
pub struct ProviderView {
    pub token: Option<Seq<char>>,
    pub profile: Option<GithubUserInfoView>,
}

impl View for Provider {
    type V = ProviderView;

    open spec fn view(&self) -> ProviderView {
        ProviderView {
            token: text_of(self.token),
            profile: match self.profile {
                Some(p) => Some(p@),
                None => None,
            },
        }
    }
}

/// The user that a callback logs in, or why it logs nobody in. The steps are
/// taken in order and the first failure ends the callback: the exchange of
/// the code, the fetch of the profile (which also fails where the user-info
/// address is no URL), the lookup of the local user by the profile's external
/// id, and, where there is none, its creation at `now`.
pub open spec fn auth_result(
    db: DatabaseView,
    provider: ProviderView,
    profile_url_ok: bool,
    now: Timestamp,
) -> Result<UserView, Error> {
    match provider.token {
        None => Err(Error::ExchangeError),
        Some(token) => match provider.profile {
            Some(profile) if profile_url_ok => match find_github_user(
                db.users,
                external_id(profile.id),
            ) {
                Ok(user) => Ok(user),
                Err(_) => match create_user_outcome(
                    db,
                    new_user_request_view(profile, token, now),
                    now,
                ) {
                    Ok(user) => Ok(user),
                    Err(_) => Err(Error::StorageError),
                },
            },
            _ => Err(Error::ProfileFetchError),
        },
    }
}

/// The store after a callback: a user is added where the callback got as
/// far as creating one, and nothing changes otherwise.
pub open spec fn after_auth(
    db: DatabaseView,
    provider: ProviderView,
    profile_url_ok: bool,
    now: Timestamp,
) -> DatabaseView {
    match (provider.token, provider.profile) {
        (Some(token), Some(profile)) => if profile_url_ok && !has_github_user(
            db.users,
            external_id(profile.id),
        ) {
            after_create_user(db, new_user_request_view(profile, token, now), now)
        } else {
            db
        },
        _ => db,
    }
}

/// The identity after a callback: the user it logged in, or the identity as
/// it was where it logged nobody in.
pub open spec fn identity_after_auth(
    before: Option<UserView>,
    result: Result<UserView, Error>,
) -> Option<UserView> {
    match result {
        Ok(user) => Some(user),
        Err(_) => before,
    }
}

/// The answer to a callback that failed.
pub open spec fn auth_failure_response(error: Error) -> HttpResponseView {
    match error {
        Error::ExchangeError => HttpResponseView::failure(
            Error::ExchangeError,
            "Failed to exchange the authorization code"@,
        ),
        Error::ProfileFetchError => HttpResponseView::failure(
            Error::ProfileFetchError,
            "Failed to fetch the user profile"@,
        ),
        _ => HttpResponseView::message(400, "Failed to find or create user"@),
    }
}

/// The answer to a callback: a redirect home where it logged a user in.
pub open spec fn auth_response(result: Result<UserView, Error>) -> HttpResponseView {
    match result {
        Ok(_) => HttpResponseView::redirect("/"@),
        Err(e) => auth_failure_response(e),
    }
}

/// The identity after an action that ends a request.
pub open spec fn identity_after_action(
    before: Option<UserView>,
    action: FlowAction,
) -> Option<UserView> {
    match action {
        FlowAction::Remember(user) => Some(user@),
        FlowAction::Forget => None,
        _ => before,
    }
}

/// The answer that goes with an action that ends a request.
pub open spec fn action_response(action: FlowAction) -> HttpResponseView {
    match action {
        FlowAction::Remember(_) => HttpResponseView::redirect("/"@),
        FlowAction::Forget => HttpResponseView::redirect("/"@),
        FlowAction::Fail(e) => auth_failure_response(e),
        _ => HttpResponseView::message(500, "Unexpected step in the login flow"@),
    }
}

/// Answers a callback that failed.
pub fn respond_failed(error: Error) -> (response: HttpResponse)
    ensures
        response@ == auth_failure_response(error),
{
    match error {
        Error::ExchangeError => HttpResponse::failure(
            Error::ExchangeError,
            "Failed to exchange the authorization code",
        ),
        Error::ProfileFetchError => HttpResponse::failure(
            Error::ProfileFetchError,
            "Failed to fetch the user profile",
        ),
        _ => HttpResponse::message(400, "Failed to find or create user"),
    }
}

/// Carries out an action that ends a request: writes or clears the identity
/// and answers.
pub fn perform(id: &mut Identity, action: FlowAction) -> (response: HttpResponse)
    ensures
        final(id)@ == identity_after_action(old(id)@, action),
        response@ == action_response(action),
{
    match action {
        FlowAction::Remember(user) => {
            id.remember(user);
            HttpResponse::redirect("/")
        },
        FlowAction::Forget => {
            id.forget();
            HttpResponse::redirect("/")
        },
        FlowAction::Fail(e) => respond_failed(e),
        _ => HttpResponse::message(500, "Unexpected step in the login flow"),
    }
}

/// The provider's callback, run against the store: exchanges the code,
/// fetches the profile, finds the local user of the profile or creates it at
/// `now`, remembers it and redirects home. `provider` holds what the provider
/// answers to the two requests. The state that the callback brings is not
/// compared with anything.
pub fn auth(
    id: &mut Identity,
    data: &GithubOauth2State,
    params: AuthRequest,
    provider: Provider,
    db: &mut Database,
    now: Timestamp,
) -> (response: HttpResponse)
    requires
        old(db).wf(),
    ensures
        final(db).wf(),
        response@ == auth_response(
            auth_result(old(db)@, provider@, url_parses(user_info_url(data@.api_base_url)), now),
        ),
        final(id)@ == identity_after_auth(
            old(id)@,
            auth_result(old(db)@, provider@, url_parses(user_info_url(data@.api_base_url)), now),
        ),
        final(db)@ == after_auth(
            old(db)@,
            provider@,
            url_parses(user_info_url(data@.api_base_url)),
            now,
        ),
{
    let Provider { token, profile } = provider;
    let flow = Flow::new(Identity { user: id.current() });
    let (flow, _) = flow.step(FlowEvent::CallbackReceived(params), now);
    let exchanged = match token {
        Some(token) => FlowEvent::TokenReceived(token),
        None => FlowEvent::ExchangeFailed,
    };
    let (flow, action) = flow.step(exchanged, now);
    let token = match action {
        FlowAction::FetchProfile(token) => token,
        other => {
            return perform(id, other);
        },
    };
    let fetched = match read_user(data.api_base_url(), token.as_str()) {
        Ok(_) => match profile {
            Some(profile) => FlowEvent::ProfileReceived(profile),
            None => FlowEvent::ProfileFailed,
        },
        Err(_) => FlowEvent::ProfileFailed,
    };
    let (flow, action) = flow.step(fetched, now);
    let github_id = match action {
        FlowAction::FindUser(github_id) => github_id,
        other => {
            return perform(id, other);
        },
    };
    let looked_up = match User::find_by_github_id(github_id, db) {
        Ok(user) => FlowEvent::UserFound(user),
        Err(_) => FlowEvent::UserMissing,
    };
    let (flow, action) = flow.step(looked_up, now);
    let request = match action {
        FlowAction::CreateUser(request) => request,
        other => {
            return perform(id, other);
        },
    };
    let created = match User::create(request, db, now) {
        Ok(user) => FlowEvent::UserCreated(user),
        Err(_) => FlowEvent::CreateFailed,
    };
    let (_, action) = flow.step(created, now);
    perform(id, action)
}

/// The first callback for an external account creates the local user of the
/// profile: its external id is the profile's, its user name the profile's
/// login handle, and its identifier the one that the store assigns. A later
/// callback for the same external account logs in that very user and leaves
/// the store as it is. The first part asks that the store can take the new
/// user: that the login handle is not empty and not in use, and that the
/// store has an identifier left.
pub proof fn law_callback_creates_once(
    db: DatabaseView,
    token: Seq<char>,
    profile: GithubUserInfoView,
    now: Timestamp,
    later_token: Seq<char>,
    later_profile: GithubUserInfoView,
    later: Timestamp,
)
    requires
        db.wf(),
        !db.exhausted(),
        !has_github_user(db.users, external_id(profile.id)),
        profile.login.len() > 0,
        !has_username(db.users, profile.login),
        external_id(later_profile.id) == external_id(profile.id),
    ensures
        ({
            let provider = ProviderView { token: Some(token), profile: Some(profile) };
            let second = ProviderView { token: Some(later_token), profile: Some(later_profile) };
            let first = auth_result(db, provider, true, now);
            let stored = after_auth(db, provider, true, now);
            &&& first matches Ok(user) && {
                &&& user.id == db.fresh_id()
                &&& !has_user(db.users, user.id)
                &&& user.github_id == Some(external_id(profile.id))
                &&& user.username == profile.login
                &&& user.role == Role::Subscriber
                &&& auth_result(stored, second, true, later) == Ok::<UserView, Error>(user)
            }
            &&& users_wf(stored.users)
            &&& stored.users.len() == db.users.len() + 1
            &&& stored.posts == db.posts
            &&& after_auth(stored, second, true, later) == stored
        }),
{
    let users = db.users;
    let new_id = db.fresh_id();
    let request = new_user_request_view(profile, token, now);
    lemma_fresh_user_id(users, new_id);
    lemma_create_keeps_users_wf(users, request, new_id, now);
    law_create_then_find_github_user(users, request, new_id, now);
    lemma_user_slot(users, now);
    users.insert_ensures(user_slot(users, now), UserView::created(request, new_id, now));
}

} // verus!
