//! `GET /login`: sends the browser to the provider's authorization page.

use crate::handlers::github_oauth2::state::{
    byte_len, redirect_url_of, url_parses, GithubOauth2State, SettingsView,
};
use crate::handlers::{HttpResponse, HttpResponseView};
use vstd::prelude::*;

verus! {

/// The address of the provider's authorization page that the `oauth2` crate
/// builds for a client, a CSRF token and a PKCE code verifier.
pub uninterp spec fn authorization_url_of(
    auth_url: Seq<char>,
    client_id: Seq<char>,
    redirect_url: Seq<char>,
    csrf_token: Seq<char>,
    pkce_verifier: Seq<char>,
) -> Seq<char>;

/// Builds the authorization address with the `oauth2` crate: a `BasicClient`
/// of the authorization endpoint and the client id, with the redirect
/// address set, whose `authorize_url` is given the CSRF token as state and
/// the SHA-256 challenge of the verifier
/// (`PkceCodeChallenge::from_code_verifier_sha256`), and then `url()`. The
/// contract names the address `authorization_url_of`. `AuthUrl::new` and
/// `RedirectUrl::new` fail exactly where `url::Url::parse` does, and the
/// challenge is refused for a verifier shorter than 43 or longer than 128
/// bytes: `requires` leaves those inputs out.
#[verifier::external_body]
fn authorization_url(
    auth_url: &str,
    client_id: &str,
    redirect_url: &str,
    csrf_token: &str,
    pkce_verifier: &str,
) -> (url: String)
    requires
        url_parses(auth_url@),
        url_parses(redirect_url@),
        43 <= byte_len(pkce_verifier@) <= 128,
    ensures
        url@ == authorization_url_of(
            auth_url@,
            client_id@,
            redirect_url@,
            csrf_token@,
            pkce_verifier@,
        ),
{
    let auth = oauth2::AuthUrl::new(auth_url.to_string()).unwrap();
    let redirect = oauth2::RedirectUrl::new(redirect_url.to_string()).unwrap();
    let id = oauth2::ClientId::new(client_id.to_string());
    let client = oauth2::basic::BasicClient::new(id, None, auth, None).set_redirect_uri(redirect);
    let verifier = oauth2::PkceCodeVerifier::new(pkce_verifier.to_string());
    let challenge = oauth2::PkceCodeChallenge::from_code_verifier_sha256(&verifier);
    let state = oauth2::CsrfToken::new(csrf_token.to_string());
    let (url, _) = client.authorize_url(|| state).set_pkce_challenge(challenge).url();
    url.to_string()
}

/// Calls `oauth2::CsrfToken::new_random` and hands out the token's text. The
/// token is random. It is the unpadded base64 text of 16 random bytes, 22
/// characters, so all that is claimed of it is that it is not empty.
#[verifier::external_body]
fn random_csrf_token() -> (token: String)
    ensures
        token@.len() > 0,
{
    oauth2::CsrfToken::new_random().secret().clone()
}

/// Calls `oauth2::PkceCodeChallenge::new_random_sha256` and hands out the
/// text of the code verifier it made. The verifier is random; the function
/// derives the challenge from it before it returns, which it refuses to do
/// for a verifier shorter than 43 or longer than 128 bytes, so every verifier
/// handed out has such a length.
#[verifier::external_body]
fn random_pkce_verifier() -> (verifier: String)
    ensures
        43 <= byte_len(verifier@) <= 128,
{
    oauth2::PkceCodeChallenge::new_random_sha256().1.secret().clone()
}

/// The answer to a login request, with the two secrets that were made for it.
#[derive(Debug, PartialEq, Eq)]
pub struct LoginRedirect {
    /// The redirect to the provider's authorization page.
    pub response: HttpResponse,
    /// The CSRF token that the address carries as `state`.
    pub csrf_token: String,
    /// The PKCE code verifier whose challenge the address carries.
    pub pkce_verifier: String,
}

/// The redirect that answers a login request of the client `settings`, made
/// with the given CSRF token and PKCE code verifier.
pub open spec fn login_response(
    settings: SettingsView,
    csrf_token: Seq<char>,
    pkce_verifier: Seq<char>,
) -> HttpResponseView {
    HttpResponseView::redirect(
        authorization_url_of(
            settings.auth_url,
            settings.client_id,
            redirect_url_of(settings.app_url, settings.callback_url),
            csrf_token,
            pkce_verifier,
        ),
    )
}

/// Whether a text can serve as PKCE code verifier: 43 to 128 bytes.
pub open spec fn verifier_fits(pkce_verifier: Seq<char>) -> bool {
    43 <= byte_len(pkce_verifier) <= 128
}

/// Redirects to the provider's authorization page with the given secrets.
fn redirect_to_provider(
    data: &GithubOauth2State,
    csrf_token: String,
    pkce_verifier: String,
) -> (answer: LoginRedirect)
    requires
        verifier_fits(pkce_verifier@),
    ensures
        answer.response@ == login_response(data@, csrf_token@, pkce_verifier@),
        answer.csrf_token == csrf_token,
        answer.pkce_verifier == pkce_verifier,
{
    let url = authorization_url(
        data.auth_url(),
        data.client_id(),
        data.redirect_url().as_str(),
        csrf_token.as_str(),
        pkce_verifier.as_str(),
    );
    LoginRedirect { response: HttpResponse::redirect(url.as_str()), csrf_token, pkce_verifier }
}

/// Answers a login request with the given CSRF token and PKCE code verifier:
/// a redirect to the provider's authorization page, or nothing where the
/// verifier is shorter than 43 or longer than 128 bytes.
pub fn login_with(data: &GithubOauth2State, csrf_token: String, pkce_verifier: String) -> (answer:
    Option<LoginRedirect>)
    ensures
        answer is Some <==> verifier_fits(pkce_verifier@),
        answer matches Some(redirect) ==> {
            &&& redirect.response@ == login_response(data@, csrf_token@, pkce_verifier@)
            &&& redirect.csrf_token == csrf_token
            &&& redirect.pkce_verifier == pkce_verifier
        },
{
    let length = pkce_verifier.as_str().as_bytes().len();
    if length < 43 || length > 128 {
        return None;
    }
    Some(redirect_to_provider(data, csrf_token, pkce_verifier))
}

/// `GET /login`: makes a fresh CSRF token and a fresh PKCE code verifier and
/// redirects to the provider's authorization page, whose address carries the
/// token, the verifier's challenge and the application's redirect address.
pub fn login(data: &GithubOauth2State) -> (answer: LoginRedirect)
    ensures
        answer.response@ == login_response(data@, answer.csrf_token@, answer.pkce_verifier@),
        answer.csrf_token@.len() > 0,
        verifier_fits(answer.pkce_verifier@),
{
    let pkce_verifier = random_pkce_verifier();
    let csrf_token = random_csrf_token();
    redirect_to_provider(data, csrf_token, pkce_verifier)
}

} // verus!
