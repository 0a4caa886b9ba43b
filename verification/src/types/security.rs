//! Security schemes and requirements that an agent card declares.

use vstd::prelude::*;
use std::collections::HashMap;

verus! {

/// A way to authorize requests to an agent.
#[derive(Debug)]
pub enum SecurityScheme {
    /// An API key.
    ApiKey(ApiKeySecurityScheme),
    /// HTTP authentication.
    Http(HttpAuthSecurityScheme),
    /// OAuth 2.0.
    OAuth2(Box<OAuth2SecurityScheme>),
    /// OpenID Connect.
    OpenIdConnect(OpenIdConnectSecurityScheme),
    /// Mutual TLS.
    MutualTLS(MutualTlsSecurityScheme),
}

/// Where an API key is sent.
#[derive(Debug, Clone, Copy, PartialEq, Eq, Structural)]
pub enum ApiKeyLocation {
    /// In the query string.
    Query,
    /// In a header.
    Header,
    /// In a cookie.
    Cookie,
}

/// API key authentication.
#[derive(Debug)]
pub struct ApiKeySecurityScheme {
    /// Description of the scheme.
    pub description: Option<String>,
    /// Where the key is sent.
    pub location: ApiKeyLocation,
    /// The name of the header, query parameter or cookie.
    pub name: String,
}

/// HTTP authentication (for example Bearer).
#[derive(Debug)]
pub struct HttpAuthSecurityScheme {
    /// Description of the scheme.
    pub description: Option<String>,
    /// The HTTP authentication scheme name.
    pub scheme: String,
    /// A hint of how the bearer token is formatted.
    pub bearer_format: Option<String>,
}

impl HttpAuthSecurityScheme {
    /// Bearer authentication without a format hint.
    pub fn bearer() -> (r: Self)
        ensures
            r.description is None,
            r.scheme@ == "Bearer"@,
            r.bearer_format is None,
    {
        HttpAuthSecurityScheme { description: None, scheme: "Bearer".to_owned(), bearer_format: None }
    }

    /// Bearer authentication with JWT tokens.
    pub fn bearer_jwt() -> (r: Self)
        ensures
            r.description is None,
            r.scheme@ == "Bearer"@,
            r.bearer_format matches Some(f) && f@ == "JWT"@,
    {
        HttpAuthSecurityScheme {
            description: None,
            scheme: "Bearer".to_owned(),
            bearer_format: Some("JWT".to_owned()),
        }
    }
}

/// OAuth 2.0 authentication.
#[derive(Debug)]
pub struct OAuth2SecurityScheme {
    /// Description of the scheme.
    pub description: Option<String>,
    /// The flow used.
    pub flows: OAuthFlow,
    /// URL of the OAuth 2.0 authorization server metadata.
    pub oauth2_metadata_url: Option<String>,
}

/// OpenID Connect authentication.
#[derive(Debug)]
pub struct OpenIdConnectSecurityScheme {
    /// Description of the scheme.
    pub description: Option<String>,
    /// The OpenID Connect discovery URL.
    pub open_id_connect_url: String,
}

/// Mutual TLS authentication.
#[derive(Debug, Default)]
pub struct MutualTlsSecurityScheme {
    /// Description of the scheme.
    pub description: Option<String>,
}

/// An OAuth 2.0 flow.
#[derive(Debug)]
pub enum OAuthFlow {
    /// The authorization code flow.
    AuthorizationCode(AuthorizationCodeOAuthFlow),
    /// The client credentials flow.
    ClientCredentials(ClientCredentialsOAuthFlow),
    /// The device code flow.
    DeviceCode(DeviceCodeOAuthFlow),
}

/// The OAuth 2.0 authorization code flow.
#[derive(Debug)]
pub struct AuthorizationCodeOAuthFlow {
    /// The authorization URL.
    pub authorization_url: String,
    /// The token URL.
    pub token_url: String,
    /// The refresh URL.
    pub refresh_url: Option<String>,
    /// Available scopes, each with a description.
    pub scopes: HashMap<String, String>,
    /// Whether PKCE is required.
    pub pkce_required: bool,
}

/// The OAuth 2.0 client credentials flow.
#[derive(Debug)]
pub struct ClientCredentialsOAuthFlow {
    /// The token URL.
    pub token_url: String,
    /// The refresh URL.
    pub refresh_url: Option<String>,
    /// Available scopes, each with a description.
    pub scopes: HashMap<String, String>,
}

/// The OAuth 2.0 device code flow.
#[derive(Debug)]
pub struct DeviceCodeOAuthFlow {
    /// The device authorization URL.
    pub device_authorization_url: String,
    /// The token URL.
    pub token_url: String,
    /// The refresh URL.
    pub refresh_url: Option<String>,
    /// Available scopes, each with a description.
    pub scopes: HashMap<String, String>,
}

/// One way of satisfying security: scheme names, each with the scopes it
/// needs.
#[derive(Debug)]
pub struct SecurityRequirement {
    /// Scheme names with their required scopes.
    pub schemes: HashMap<String, Vec<String>>,
}

} // verus!
