//! OAuth discovery metadata served under `/.well-known/`.
use vstd::prelude::*;

use crate::config::AuthConfig;

verus! {

/// Shared state for the `.well-known` handlers.
#[derive(Debug)]
pub struct WellKnownState {
    pub config: AuthConfig,
    /// The public base URL of this MCP server (e.g. `https://registry-mcp.example.com`).
    pub server_url: String,
}

/// RFC 8414 Authorization Server Metadata pointing at the upstream server.
#[derive(Debug, PartialEq, Eq)]
pub struct AuthServerMetadata {
    pub issuer: String,
    pub authorization_endpoint: String,
    pub token_endpoint: String,
    pub response_types_supported: Vec<String>,
    pub grant_types_supported: Vec<String>,
    pub code_challenge_methods_supported: Vec<String>,
    pub token_endpoint_auth_methods_supported: Vec<String>,
    pub scopes_supported: Vec<String>,
    pub registration_endpoint: Option<String>,
}

/// Protected Resource Metadata describing this server.
#[derive(Debug, PartialEq, Eq)]
pub struct ProtectedResourceMetadata {
    pub resource: String,
    pub bearer_methods_supported: Vec<String>,
    pub resource_documentation: String,
    pub authorization_servers: Option<Vec<String>>,
}

/// Some texts as characters.
pub open spec fn texts(v: Vec<String>) -> Seq<Seq<char>> {
    v@.map_values(|s: String| s@)
}

fn text_list1(a: &str) -> (v: Vec<String>)
    ensures
        texts(v) == seq![a@],
{
    let mut v: Vec<String> = Vec::new();
    v.push(String::from_str(a));
    assert(texts(v) =~= seq![a@]);
    v
}

fn text_list2(a: &str, b: &str) -> (v: Vec<String>)
    ensures
        texts(v) == seq![a@, b@],
{
    let mut v: Vec<String> = Vec::new();
    v.push(String::from_str(a));
    v.push(String::from_str(b));
    assert(texts(v) =~= seq![a@, b@]);
    v
}

fn text_list3(a: &str, b: &str, c: &str) -> (v: Vec<String>)
    ensures
        texts(v) == seq![a@, b@, c@],
{
    let mut v: Vec<String> = Vec::new();
    v.push(String::from_str(a));
    v.push(String::from_str(b));
    v.push(String::from_str(c));
    assert(texts(v) =~= seq![a@, b@, c@]);
    v
}

/// `GET /.well-known/oauth-authorization-server`: `None` (answered with 404)
/// when authentication is disabled; otherwise the upstream issuer and
/// endpoints, the supported flows, and the registration endpoint when one is
/// configured.
pub fn oauth_authorization_server(cfg: &AuthConfig) -> (m: Option<AuthServerMetadata>)
    ensures
        !cfg.enabled ==> m is None,
        cfg.enabled ==> (m matches Some(meta) && {
            &&& meta.issuer == cfg.issuer
            &&& meta.authorization_endpoint == cfg.authorization_endpoint
            &&& meta.token_endpoint == cfg.token_endpoint
            &&& texts(meta.response_types_supported) == seq!["code"@]
            &&& texts(meta.grant_types_supported) == seq!["authorization_code"@, "refresh_token"@]
            &&& texts(meta.code_challenge_methods_supported) == seq!["S256"@]
            &&& texts(meta.token_endpoint_auth_methods_supported) == seq![
                "none"@,
                "client_secret_basic"@,
                "client_secret_post"@,
            ]
            &&& texts(meta.scopes_supported) == seq!["openid"@, "profile"@, "email"@]
            &&& meta.registration_endpoint == if cfg.registration_endpoint@.len() > 0 {
                Some(cfg.registration_endpoint)
            } else {
                None
            }
        }),
{
    if !cfg.enabled {
        return None;
    }
    let registration_endpoint = if cfg.registration_endpoint.as_str().unicode_len() > 0 {
        Some(cfg.registration_endpoint.clone())
    } else {
        None
    };
    Some(
        AuthServerMetadata {
            issuer: cfg.issuer.clone(),
            authorization_endpoint: cfg.authorization_endpoint.clone(),
            token_endpoint: cfg.token_endpoint.clone(),
            response_types_supported: text_list1("code"),
            grant_types_supported: text_list2("authorization_code", "refresh_token"),
            code_challenge_methods_supported: text_list1("S256"),
            token_endpoint_auth_methods_supported: text_list3(
                "none",
                "client_secret_basic",
                "client_secret_post",
            ),
            scopes_supported: text_list3("openid", "profile", "email"),
            registration_endpoint,
        },
    )
}

/// `GET /.well-known/oauth-protected-resource`: this server as a protected
/// resource taking bearer tokens in the header; the issuer is named as its
/// authorization server when authentication is enabled and an issuer is set.
pub fn oauth_protected_resource(state: &WellKnownState) -> (m: ProtectedResourceMetadata)
    ensures
        m.resource == state.server_url,
        texts(m.bearer_methods_supported) == seq!["header"@],
        m.resource_documentation@ == "https://github.com/Hikari-Systems/registry-mcp"@,
        match m.authorization_servers {
            Some(v) => state.config.enabled && state.config.issuer@.len() > 0 && texts(v) == seq![
                state.config.issuer@,
            ],
            None => !(state.config.enabled && state.config.issuer@.len() > 0),
        },
{
    let authorization_servers = if state.config.enabled
        && state.config.issuer.as_str().unicode_len() > 0 {
        Some(text_list1(state.config.issuer.as_str()))
    } else {
        None
    };
    ProtectedResourceMetadata {
        resource: state.server_url.clone(),
        bearer_methods_supported: text_list1("header"),
        resource_documentation: String::from_str("https://github.com/Hikari-Systems/registry-mcp"),
        authorization_servers,
    }
}

} // verus!
