//! Settings of an HTTP client that authorises its requests with OAuth, and
//! the decision to retry a refused request with a fresh token.
use vstd::prelude::*;
use vstd::string::StringExecFns;
use crate::error::McpError;
use crate::text::{contains, has_infix, utf8_of};

verus! {

/// OAuth settings of a client.
pub struct AuthConfig {
    pub enabled: bool,
    pub client_id: Option<String>,
    pub client_secret: Option<String>,
    pub redirect_uri: String,
    pub scopes: Vec<String>,
    pub enable_dynamic_registration: bool,
}

impl Default for AuthConfig {
    /// Authorisation on, no client registered yet, dynamic registration off.
    fn default() -> (r: AuthConfig)
        ensures
            r.enabled,
            r.client_id is None,
            r.client_secret is None,
            r.redirect_uri@.len() == 0,
            r.scopes@.len() == 0,
            !r.enable_dynamic_registration,
    {
        AuthConfig {
            enabled: true,
            client_id: None,
            client_secret: None,
            redirect_uri: String::new(),
            scopes: Vec::new(),
            enable_dynamic_registration: false,
        }
    }
}

/// Builds the settings of an authorised HTTP client.
pub struct AuthorizedHttpTransportBuilder {
    pub base_url: String,
    pub sse_url: Option<String>,
    pub auth_config: AuthConfig,
}

impl AuthorizedHttpTransportBuilder {
    /// A client of `base_url`, without an event stream, with the default
    /// OAuth settings.
    pub fn new(base_url: String) -> (r: AuthorizedHttpTransportBuilder)
        ensures
            r.base_url == base_url,
            r.sse_url is None,
            r.auth_config.enabled,
            r.auth_config.client_id is None,
            r.auth_config.client_secret is None,
            r.auth_config.redirect_uri@.len() == 0,
            r.auth_config.scopes@.len() == 0,
            !r.auth_config.enable_dynamic_registration,
    {
        AuthorizedHttpTransportBuilder { base_url, sse_url: None, auth_config: AuthConfig::default() }
    }

    /// The same settings with an event-stream URL.
    pub fn with_sse(self, url: String) -> (r: AuthorizedHttpTransportBuilder)
        ensures
            r.base_url == self.base_url,
            r.sse_url == Some(url),
            r.auth_config == self.auth_config,
    {
        AuthorizedHttpTransportBuilder { sse_url: Some(url), ..self }
    }

    /// The same settings with authorisation switched on or off.
    pub fn with_auth(self, enabled: bool) -> (r: AuthorizedHttpTransportBuilder)
        ensures
            r.base_url == self.base_url,
            r.sse_url == self.sse_url,
            r.auth_config == (AuthConfig { enabled, ..self.auth_config }),
    {
        let AuthorizedHttpTransportBuilder { base_url, sse_url, auth_config } = self;
        AuthorizedHttpTransportBuilder { base_url, sse_url, auth_config: AuthConfig { enabled, ..auth_config } }
    }

    /// The same settings with a registered client.
    pub fn with_client_credentials(self, client_id: String, client_secret: Option<String>) -> (r: AuthorizedHttpTransportBuilder)
        ensures
            r.base_url == self.base_url,
            r.sse_url == self.sse_url,
            r.auth_config == (AuthConfig { client_id: Some(client_id), client_secret, ..self.auth_config }),
    {
        let AuthorizedHttpTransportBuilder { base_url, sse_url, auth_config } = self;
        AuthorizedHttpTransportBuilder {
            base_url,
            sse_url,
            auth_config: AuthConfig { client_id: Some(client_id), client_secret, ..auth_config },
        }
    }

    /// The same settings with another redirect URI.
    pub fn with_redirect_uri(self, uri: String) -> (r: AuthorizedHttpTransportBuilder)
        ensures
            r.base_url == self.base_url,
            r.sse_url == self.sse_url,
            r.auth_config == (AuthConfig { redirect_uri: uri, ..self.auth_config }),
    {
        let AuthorizedHttpTransportBuilder { base_url, sse_url, auth_config } = self;
        AuthorizedHttpTransportBuilder { base_url, sse_url, auth_config: AuthConfig { redirect_uri: uri, ..auth_config } }
    }

    /// The same settings with other scopes.
    pub fn with_scopes(self, scopes: Vec<String>) -> (r: AuthorizedHttpTransportBuilder)
        ensures
            r.base_url == self.base_url,
            r.sse_url == self.sse_url,
            r.auth_config == (AuthConfig { scopes, ..self.auth_config }),
    {
        let AuthorizedHttpTransportBuilder { base_url, sse_url, auth_config } = self;
        AuthorizedHttpTransportBuilder { base_url, sse_url, auth_config: AuthConfig { scopes, ..auth_config } }
    }

    /// The same settings with dynamic client registration on or off.
    pub fn with_dynamic_registration(self, enabled: bool) -> (r: AuthorizedHttpTransportBuilder)
        ensures
            r.base_url == self.base_url,
            r.sse_url == self.sse_url,
            r.auth_config == (AuthConfig { enable_dynamic_registration: enabled, ..self.auth_config }),
    {
        let AuthorizedHttpTransportBuilder { base_url, sse_url, auth_config } = self;
        AuthorizedHttpTransportBuilder {
            base_url,
            sse_url,
            auth_config: AuthConfig { enable_dynamic_registration: enabled, ..auth_config },
        }
    }
}

/// A request refused as unauthorised (an HTTP failure that mentions 401)
/// is sent once more, with a fresh token, when authorisation is on.
pub open spec fn spec_retry_with_fresh_token(auth_enabled: bool, e: McpError) -> bool {
    auth_enabled && match e {
        McpError::Http(m) => has_infix(utf8_of(m@), utf8_of("401"@)),
        _ => false,
    }
}

/// Whether a failed request is retried with a fresh token.
pub fn retry_with_fresh_token(auth_enabled: bool, e: &McpError) -> (r: bool)
    ensures
        r == spec_retry_with_fresh_token(auth_enabled, *e),
{
    if !auth_enabled {
        return false;
    }
    match e {
        McpError::Http(m) => contains(m.as_str(), "401"),
        _ => false,
    }
}

/// A client without authorisation counts as authenticated; otherwise the
/// token store decides.
pub fn is_authenticated(auth_enabled: bool, has_token: bool) -> (r: bool)
    ensures
        r == (!auth_enabled || has_token),
{
    !auth_enabled || has_token
}

/// The authorisation URL needs authorisation on and the server's metadata
/// discovered.
pub fn authorization_url_problem(auth_enabled: bool, metadata_known: bool) -> (r: Option<McpError>)
    ensures
        !auth_enabled ==> (r matches Some(McpError::Authentication(m)) && m@ == "Authorization is not enabled"@),
        auth_enabled && !metadata_known ==> (r matches Some(McpError::Authentication(m)) && m@ == "Authorization server not discovered yet"@),
        auth_enabled && metadata_known ==> r is None,
{
    if !auth_enabled {
        Some(McpError::Authentication(String::from_str("Authorization is not enabled")))
    } else if !metadata_known {
        Some(McpError::Authentication(String::from_str("Authorization server not discovered yet")))
    } else {
        None
    }
}

} // verus!
