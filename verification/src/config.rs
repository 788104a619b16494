//! The application's credentials: what a usable configuration is, what the
//! configuration file looks like, and what signing in asks for.

use vstd::prelude::*;
use vstd::string::StringExecFns;

verus! {

/// The directory, below the user's configuration directory, that holds the
/// program's files.
pub const APP_DIR: &'static str = "spores";

/// The name of the configuration file.
pub const CONFIG_FILE: &'static str = "config.toml";

/// The name of the file in which the access token is kept between runs.
pub const TOKEN_CACHE_FILE: &'static str = "token_cache.json";

/// The redirect URI used where the configuration names none.
pub const DEFAULT_REDIRECT_URI: &'static str = "http://127.0.0.1:8888/callback";

/// The configuration file written when there is none yet: the credentials
/// are empty and the redirect URI is only suggested.
pub const CONFIG_TEMPLATE: &'static str = "# Spotify application credentials\n\
    # Create an app at https://developer.spotify.com/dashboard\n\
    client_id = \"\"\n\
    client_secret = \"\"\n\
    \n\
    # Must match the redirect URI registered in your Spotify app.\n\
    # Use 127.0.0.1 \u{2014} Spotify rejects \"localhost\".\n\
    # redirect_uri = \"http://127.0.0.1:8888/callback\"\n";

/// The configuration file up to the client id.
pub const CONFIG_HEAD: &'static str = "# Spotify application credentials\n\
    # Create an app at https://developer.spotify.com/dashboard\n\
    client_id = \"";

/// The configuration file between the client id and the client secret.
pub const CONFIG_BEFORE_SECRET: &'static str = "\"\n\
    client_secret = \"";

/// The configuration file between the client secret and the redirect URI.
pub const CONFIG_BEFORE_REDIRECT: &'static str = "\"\n\
    \n\
    # Must match the redirect URI registered in your Spotify app.\n\
    # Use 127.0.0.1 \u{2014} Spotify rejects \"localhost\".\n\
    redirect_uri = \"";

/// The configuration file after the redirect URI.
pub const CONFIG_TAIL: &'static str = "\"\n";

/// The application's credentials as the configuration file holds them.
#[derive(Clone, Debug, PartialEq, Eq)]
pub struct AppConfig {
    pub client_id: String,
    pub client_secret: String,
    pub redirect_uri: Option<String>,
}

/// [`AppConfig`] as a mathematical value.
pub struct AppConfigView {
    pub client_id: Seq<char>,
    pub client_secret: Seq<char>,
    pub redirect_uri: Option<Seq<char>>,
}

impl View for AppConfig {
    type V = AppConfigView;

    open spec fn view(&self) -> AppConfigView {
        AppConfigView {
            client_id: self.client_id@,
            client_secret: self.client_secret@,
            redirect_uri: self.redirect_uri.deep_view(),
        }
    }
}

/// Why a configuration cannot be used.
#[derive(Clone, Copy, Debug, PartialEq, Eq, Structural)]
pub enum ConfigError {
    /// The client id or the client secret is empty.
    MissingCredentials,
}

impl AppConfigView {
    /// Both the client id and the client secret are set.
    pub open spec fn has_credentials(self) -> bool {
        self.client_id.len() > 0 && self.client_secret.len() > 0
    }

    /// The redirect URI to sign in with.
    pub open spec fn effective_redirect_uri(self) -> Seq<char> {
        match self.redirect_uri {
            Some(uri) => uri,
            None => DEFAULT_REDIRECT_URI@,
        }
    }
}

/// The text of a configuration file that holds the given values. The values
/// are written between the quotes as they are.
pub open spec fn config_text(
    client_id: Seq<char>,
    client_secret: Seq<char>,
    redirect_uri: Seq<char>,
) -> Seq<char> {
    CONFIG_HEAD@ + client_id + CONFIG_BEFORE_SECRET@ + client_secret + CONFIG_BEFORE_REDIRECT@
        + redirect_uri + CONFIG_TAIL@
}

impl AppConfig {
    /// Whether both the client id and the client secret are set.
    pub fn has_credentials(&self) -> (r: bool)
        ensures
            r == self@.has_credentials(),
    {
        !self.client_id.as_str().is_empty() && !self.client_secret.as_str().is_empty()
    }

    /// The redirect URI to sign in with: the configured one, or the default.
    pub fn effective_redirect_uri(&self) -> (r: String)
        ensures
            r@ == self@.effective_redirect_uri(),
    {
        match &self.redirect_uri {
            Some(uri) => uri.clone(),
            None => DEFAULT_REDIRECT_URI.to_owned(),
        }
    }
}

/// Accepts a configuration read from the file if it holds both credentials.
pub fn accept_loaded(config: AppConfig) -> (r: Result<AppConfig, ConfigError>)
    ensures
        config@.has_credentials() ==> r == Ok::<AppConfig, ConfigError>(config),
        !config@.has_credentials() ==> r == Err::<AppConfig, ConfigError>(
            ConfigError::MissingCredentials,
        ),
{
    if config.has_credentials() {
        Ok(config)
    } else {
        Err(ConfigError::MissingCredentials)
    }
}

/// The text of a configuration file that holds the given values.
pub fn render_config(client_id: &str, client_secret: &str, redirect_uri: &str) -> (r: String)
    ensures
        r@ == config_text(client_id@, client_secret@, redirect_uri@),
{
    let mut out = CONFIG_HEAD.to_owned();
    out.append(client_id);
    out.append(CONFIG_BEFORE_SECRET);
    out.append(client_secret);
    out.append(CONFIG_BEFORE_REDIRECT);
    out.append(redirect_uri);
    out.append(CONFIG_TAIL);
    out
}

/// The permissions that signing in asks for.
pub open spec fn scope_names() -> Seq<Seq<char>> {
    seq![
        "playlist-read-private"@,
        "playlist-read-collaborative"@,
        "playlist-modify-public"@,
        "playlist-modify-private"@,
        "user-library-modify"@,
    ]
}

/// The permissions that signing in asks for.
pub fn oauth_scopes() -> (r: Vec<String>)
    ensures
        r.deep_view() == scope_names(),
{
    let mut r: Vec<String> = Vec::new();
    r.push("playlist-read-private".to_owned());
    r.push("playlist-read-collaborative".to_owned());
    r.push("playlist-modify-public".to_owned());
    r.push("playlist-modify-private".to_owned());
    r.push("user-library-modify".to_owned());
    assert(r.deep_view() =~= scope_names());
    r
}

} // verus!
