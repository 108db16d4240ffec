//! The settings of the OAuth2 client, checked once at start-up.

use crate::text::joined;
use vstd::prelude::*;
use vstd::string::*;
use vstd::utf8::encode_utf8;

verus! {

/// Whether `url::Url::parse` accepts a text as an absolute URL.
pub uninterp spec fn url_parses(text: Seq<char>) -> bool;

/// Calls `url::Url::parse` and says whether it returned a URL. The contract
/// names that answer `url_parses`: the same text is always judged alike.
#[verifier::external_body]
pub(crate) fn url_is_valid(text: &str) -> (valid: bool)
    ensures
        valid == url_parses(text@),
{
    url::Url::parse(text).is_ok()
}

/// Why the settings of the OAuth2 client are refused.
#[derive(Clone, Copy, Debug, PartialEq, Eq, Structural)]
pub enum ConfigError {
    /// The authorization endpoint is no absolute URL.
    InvalidAuthUrl,
    /// The token endpoint is no absolute URL.
    InvalidTokenUrl,
    /// The callback path does not start with a slash.
    CallbackWithoutSlash,
    /// The callback path is two bytes long or shorter.
    CallbackTooShort,
    /// The application's address and the callback path do not form a URL.
    InvalidRedirectUrl,
}

impl ConfigError {
    /// What is said of the error when start-up is aborted.
    pub fn message(self) -> (text: &'static str)
        ensures
            text@ == self.message_spec(),
    {
        match self {
            ConfigError::InvalidAuthUrl => "Invalid authorization endpoint URL",
            ConfigError::InvalidTokenUrl => "Invalid token endpoint URL",
            ConfigError::CallbackWithoutSlash =>
                "Invalid callback url. Callback url needs to start with a /",
            ConfigError::CallbackTooShort => "Callback url not valid",
            ConfigError::InvalidRedirectUrl => "Invalid redirect URL",
        }
    }

    pub open spec fn message_spec(self) -> Seq<char> {
        match self {
            ConfigError::InvalidAuthUrl => "Invalid authorization endpoint URL"@,
            ConfigError::InvalidTokenUrl => "Invalid token endpoint URL"@,
            ConfigError::CallbackWithoutSlash =>
                "Invalid callback url. Callback url needs to start with a /"@,
            ConfigError::CallbackTooShort => "Callback url not valid"@,
            ConfigError::InvalidRedirectUrl => "Invalid redirect URL"@,
        }
    }
}

/// The values that configure the OAuth2 client, as the environment gives them.
#[derive(Debug, PartialEq, Eq)]
pub struct Settings {
    pub client_id: String,
    pub client_secret: String,
    pub auth_url: String,
    pub token_url: String,
    pub api_base_url: String,
    /// The path under which the provider calls back.
    pub callback_url: String,
    /// Host and port under which the application is reached.
    pub app_url: String,
}

/// The settings of the OAuth2 client as contracts see them.
pub struct SettingsView {
    pub client_id: Seq<char>,
    pub client_secret: Seq<char>,
    pub auth_url: Seq<char>,
    pub token_url: Seq<char>,
    pub api_base_url: Seq<char>,
    pub callback_url: Seq<char>,
    pub app_url: Seq<char>,
}

impl View for Settings {
    type V = SettingsView;

    open spec fn view(&self) -> SettingsView {
        SettingsView {
            client_id: self.client_id@,
            client_secret: self.client_secret@,
            auth_url: self.auth_url@,
            token_url: self.token_url@,
            api_base_url: self.api_base_url@,
            callback_url: self.callback_url@,
            app_url: self.app_url@,
        }
    }
}

/// How many bytes a text takes in UTF-8.
pub open spec fn byte_len(text: Seq<char>) -> nat {
    encode_utf8(text).len()
}

/// The address the provider redirects back to: the application's address
/// under `https`, followed by the callback path.
pub open spec fn redirect_url_of(app_url: Seq<char>, callback_url: Seq<char>) -> Seq<char> {
    "https://"@ + app_url + callback_url
}

/// Builds the address the provider redirects back to.
pub fn redirect_url(app_url: &str, callback_url: &str) -> (text: String)
    ensures
        text@ == redirect_url_of(app_url@, callback_url@),
{
    let head = joined("https://", app_url);
    joined(head.as_str(), callback_url)
}

/// The verdict on the settings, given whether the authorization endpoint,
/// the token endpoint and the redirect address are absolute URLs. The first
/// fault found is reported, in this order: the two endpoints, the callback
/// path's slash, the callback path's length, the redirect address.
pub open spec fn settings_verdict(
    callback_url: Seq<char>,
    auth_ok: bool,
    token_ok: bool,
    redirect_ok: bool,
) -> Result<(), ConfigError> {
    if !auth_ok {
        Err(ConfigError::InvalidAuthUrl)
    } else if !token_ok {
        Err(ConfigError::InvalidTokenUrl)
    } else if callback_url.len() == 0 || callback_url[0] != '/' {
        Err(ConfigError::CallbackWithoutSlash)
    } else if byte_len(callback_url) <= 2 {
        Err(ConfigError::CallbackTooShort)
    } else if !redirect_ok {
        Err(ConfigError::InvalidRedirectUrl)
    } else {
        Ok(())
    }
}

/// Settings that were accepted: both endpoints and the redirect address are
/// absolute URLs, and the callback path starts with a slash and is longer
/// than two bytes.
pub open spec fn settings_accepted(settings: SettingsView) -> bool {
    settings_verdict(
        settings.callback_url,
        url_parses(settings.auth_url),
        url_parses(settings.token_url),
        url_parses(redirect_url_of(settings.app_url, settings.callback_url)),
    ) is Ok
}

/// The OAuth2 client of the application: settings that passed the check.
pub struct GithubOauth2State {
    settings: Settings,
}

impl View for GithubOauth2State {
    type V = SettingsView;

    closed spec fn view(&self) -> SettingsView {
        self.settings@
    }
}

/// Judges the settings from the callback path and the three URL checks.
pub fn check_settings(
    callback_url: &str,
    auth_ok: bool,
    token_ok: bool,
    redirect_ok: bool,
) -> (verdict: Result<(), ConfigError>)
    ensures
        verdict == settings_verdict(callback_url@, auth_ok, token_ok, redirect_ok),
{
    if !auth_ok {
        return Err(ConfigError::InvalidAuthUrl);
    }
    if !token_ok {
        return Err(ConfigError::InvalidTokenUrl);
    }
    if callback_url.unicode_len() == 0 || callback_url.get_char(0) != '/' {
        return Err(ConfigError::CallbackWithoutSlash);
    }
    if callback_url.as_bytes().len() <= 2 {
        return Err(ConfigError::CallbackTooShort);
    }
    if !redirect_ok {
        return Err(ConfigError::InvalidRedirectUrl);
    }
    Ok(())
}

impl GithubOauth2State {
    #[verifier::type_invariant]
    spec fn checked(self) -> bool {
        settings_accepted(self.settings@)
    }

    /// The id under which the provider knows the application.
    pub fn client_id(&self) -> (text: &str)
        ensures
            text@ == self@.client_id,
    {
        self.settings.client_id.as_str()
    }

    /// The secret that goes with the client id.
    pub fn client_secret(&self) -> (text: &str)
        ensures
            text@ == self@.client_secret,
    {
        self.settings.client_secret.as_str()
    }

    /// The provider's authorization endpoint.
    pub fn auth_url(&self) -> (text: &str)
        ensures
            text@ == self@.auth_url,
            url_parses(text@),
    {
        proof {
            use_type_invariant(self);
        }
        self.settings.auth_url.as_str()
    }

    /// The provider's token endpoint.
    pub fn token_url(&self) -> (text: &str)
        ensures
            text@ == self@.token_url,
            url_parses(text@),
    {
        proof {
            use_type_invariant(self);
        }
        self.settings.token_url.as_str()
    }

    /// The base address of the provider's API.
    pub fn api_base_url(&self) -> (text: &str)
        ensures
            text@ == self@.api_base_url,
    {
        self.settings.api_base_url.as_str()
    }

    /// The path under which the provider calls back.
    pub fn callback_url(&self) -> (text: &str)
        ensures
            text@ == self@.callback_url,
            text@.len() > 0 && text@[0] == '/',
            byte_len(text@) > 2,
    {
        proof {
            use_type_invariant(self);
        }
        self.settings.callback_url.as_str()
    }

    /// The address the provider redirects back to.
    pub fn redirect_url(&self) -> (text: String)
        ensures
            text@ == redirect_url_of(self@.app_url, self@.callback_url),
            url_parses(text@),
    {
        proof {
            use_type_invariant(self);
        }
        redirect_url(self.settings.app_url.as_str(), self.settings.callback_url.as_str())
    }
}

/// Sets the OAuth2 client up from the settings of the environment: checks
/// them and, where they pass, hands out the client that the login routes use.
/// Where they do not, the first fault is reported.
pub fn github_oauth2_config(settings: Settings) -> (state: Result<GithubOauth2State, ConfigError>)
    ensures
        match state {
            Ok(client) => client@ == settings@ && settings_accepted(settings@),
            Err(e) => settings_verdict(
                settings@.callback_url,
                url_parses(settings@.auth_url),
                url_parses(settings@.token_url),
                url_parses(redirect_url_of(settings@.app_url, settings@.callback_url)),
            ) == Err::<(), ConfigError>(e),
        },
{
    let redirect_url = redirect_url(settings.app_url.as_str(), settings.callback_url.as_str());
    let auth_ok = url_is_valid(settings.auth_url.as_str());
    let token_ok = url_is_valid(settings.token_url.as_str());
    let redirect_ok = url_is_valid(redirect_url.as_str());
    match check_settings(settings.callback_url.as_str(), auth_ok, token_ok, redirect_ok) {
        Ok(()) => Ok(GithubOauth2State { settings }),
        Err(e) => Err(e),
    }
}

} // verus!
