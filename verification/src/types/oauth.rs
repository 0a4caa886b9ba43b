//! OAuth 2.0 flow configurations.

use vstd::prelude::*;
use std::collections::HashMap;

verus! {

/// The OAuth 2.0 flows a scheme offers; each may be absent.
#[derive(Debug, Default)]
pub struct OAuthFlows {
    /// The authorization code flow.
    pub authorization_code: Option<AuthorizationCodeOAuthFlow>,
    /// The client credentials flow.
    pub client_credentials: Option<ClientCredentialsOAuthFlow>,
    /// The implicit flow.
    pub implicit: Option<ImplicitOAuthFlow>,
    /// The password flow.
    pub password: Option<PasswordOAuthFlow>,
}

impl OAuthFlows {
    /// Only the authorization code flow.
    pub fn authorization_code(flow: AuthorizationCodeOAuthFlow) -> (r: Self)
        ensures
            r.authorization_code == Some(flow),
            r.client_credentials is None,
            r.implicit is None,
            r.password is None,
    {
        OAuthFlows { authorization_code: Some(flow), client_credentials: None, implicit: None, password: None }
    }

    /// Only the client credentials flow.
    pub fn client_credentials(flow: ClientCredentialsOAuthFlow) -> (r: Self)
        ensures
            r.authorization_code is None,
            r.client_credentials == Some(flow),
            r.implicit is None,
            r.password is None,
    {
        OAuthFlows { authorization_code: None, client_credentials: Some(flow), implicit: None, password: None }
    }
}

/// The authorization code flow.
#[derive(Debug)]
pub struct AuthorizationCodeOAuthFlow {
    /// The authorization URL.
    pub authorization_url: String,
    /// The token URL.
    pub token_url: String,
    /// Available scopes, each with a description.
    pub scopes: HashMap<String, String>,
    /// The refresh URL.
    pub refresh_url: Option<String>,
}

impl AuthorizationCodeOAuthFlow {
    /// A flow with the given URLs and scopes and no refresh URL.
    pub fn new(authorization_url: &str, token_url: &str, scopes: HashMap<String, String>) -> (r: Self)
        ensures
            r.authorization_url@ == authorization_url@,
            r.token_url@ == token_url@,
            r.scopes == scopes,
            r.refresh_url is None,
    {
        AuthorizationCodeOAuthFlow {
            authorization_url: authorization_url.to_owned(),
            token_url: token_url.to_owned(),
            scopes,
            refresh_url: None,
        }
    }
}

/// The client credentials flow.
#[derive(Debug)]
pub struct ClientCredentialsOAuthFlow {
    /// The token URL.
    pub token_url: String,
    /// Available scopes, each with a description.
    pub scopes: HashMap<String, String>,
    /// The refresh URL.
    pub refresh_url: Option<String>,
}

impl ClientCredentialsOAuthFlow {
    /// A flow with the given token URL and scopes and no refresh URL.
    pub fn new(token_url: &str, scopes: HashMap<String, String>) -> (r: Self)
        ensures
            r.token_url@ == token_url@,
            r.scopes == scopes,
            r.refresh_url is None,
    {
        ClientCredentialsOAuthFlow { token_url: token_url.to_owned(), scopes, refresh_url: None }
    }
}

/// The implicit flow.
#[derive(Debug)]
pub struct ImplicitOAuthFlow {
    /// The authorization URL.
    pub authorization_url: String,
    /// Available scopes, each with a description.
    pub scopes: HashMap<String, String>,
    /// The refresh URL.
    pub refresh_url: Option<String>,
}

impl ImplicitOAuthFlow {
    /// A flow with the given authorization URL and scopes and no refresh URL.
    pub fn new(authorization_url: &str, scopes: HashMap<String, String>) -> (r: Self)
        ensures
            r.authorization_url@ == authorization_url@,
            r.scopes == scopes,
            r.refresh_url is None,
    {
        ImplicitOAuthFlow { authorization_url: authorization_url.to_owned(), scopes, refresh_url: None }
    }
}

/// The password flow.
#[derive(Debug)]
pub struct PasswordOAuthFlow {
    /// The token URL.
    pub token_url: String,
    /// Available scopes, each with a description.
    pub scopes: HashMap<String, String>,
    /// The refresh URL.
    pub refresh_url: Option<String>,
}

impl PasswordOAuthFlow {
    /// A flow with the given token URL and scopes and no refresh URL.
    pub fn new(token_url: &str, scopes: HashMap<String, String>) -> (r: Self)
        ensures
            r.token_url@ == token_url@,
            r.scopes == scopes,
            r.refresh_url is None,
    {
        PasswordOAuthFlow { token_url: token_url.to_owned(), scopes, refresh_url: None }
    }
}

} // verus!
