//! What the authentication layer of the MCP endpoint decides for a request.
use vstd::prelude::*;

use crate::auth::jwt::{auth_error_message, AuthError};
use crate::auth::UserIdentity;
use crate::text::{chars_of, prefix_in, substring};

verus! {

/// The token of an `Authorization: Bearer <token>` header value.
pub open spec fn bearer_token_of(header: Seq<char>) -> Option<Seq<char>> {
    if "Bearer "@.is_prefix_of(header) {
        Some(header.skip("Bearer "@.len() as int))
    } else {
        None
    }
}

/// Extract a Bearer token from the value of an `Authorization` header.
pub fn extract_bearer(header: Option<&str>) -> (t: Option<String>)
    ensures
        match header {
            Some(h) => match t {
                Some(t) => bearer_token_of(h@) == Some(t@),
                None => bearer_token_of(h@) is None,
            },
            None => t is None,
        },
{
    match header {
        None => None,
        Some(h) => {
            let v = chars_of(h);
            let prefix = chars_of("Bearer ");
            assert(v@.subrange(0, v@.len() as int) =~= v@);
            if prefix_in(&v, 0, v.len(), &prefix) {
                let t = substring(h, prefix.len(), v.len());
                assert(t@ =~= h@.skip("Bearer "@.len() as int));
                Some(t)
            } else {
                None
            }
        },
    }
}

/// A 401 answer: the status, the `WWW-Authenticate` challenge and the body.
#[derive(Debug, PartialEq, Eq)]
pub struct UnauthorizedResponse {
    pub status: u16,
    pub www_authenticate: String,
    pub body: String,
}

/// The 401 answer with the given detail as its body.
pub fn unauthorized(detail: &str) -> (r: UnauthorizedResponse)
    ensures
        r.status == 401,
        r.www_authenticate@ == "Bearer error=\"invalid_token\""@,
        r.body@ == detail@,
{
    UnauthorizedResponse {
        status: 401,
        www_authenticate: String::from_str("Bearer error=\"invalid_token\""),
        body: String::from_str(detail),
    }
}

/// What happens to a request before the token is validated.
#[derive(Debug, PartialEq, Eq)]
pub enum AuthGate {
    /// Authentication is disabled: the request runs as the anonymous identity.
    Anonymous,
    /// The request is refused.
    Reject(UnauthorizedResponse),
    /// The token is to be validated.
    Validate(String),
}

/// How a request is admitted: it runs anonymously when authentication is
/// disabled, it is answered with 401 without a bearer token, and otherwise
/// its token is checked.
pub fn auth_gate(enabled: bool, authorization: Option<&str>) -> (g: AuthGate)
    ensures
        !enabled ==> g == AuthGate::Anonymous,
        enabled ==> match g {
            AuthGate::Anonymous => false,
            AuthGate::Reject(r) => r.status == 401 && r.body@ == "Bearer token required"@
                && r.www_authenticate@ == "Bearer error=\"invalid_token\""@ && match authorization {
                Some(h) => bearer_token_of(h@) is None,
                None => true,
            },
            AuthGate::Validate(t) => authorization matches Some(h) && bearer_token_of(h@) == Some(
                t@,
            ),
        },
{
    if !enabled {
        return AuthGate::Anonymous;
    }
    match extract_bearer(authorization) {
        Some(t) => AuthGate::Validate(t),
        None => AuthGate::Reject(unauthorized("Bearer token required")),
    }
}

/// What a validated token leads to: the request runs as its identity, or it
/// is refused with the reason.
pub fn validation_outcome(r: Result<UserIdentity, AuthError>) -> (o: Result<
    UserIdentity,
    UnauthorizedResponse,
>)
    ensures
        match r {
            Ok(u) => o == Ok::<UserIdentity, UnauthorizedResponse>(u),
            Err(e) => o matches Err(resp) && resp.status == 401 && resp.www_authenticate@
                == "Bearer error=\"invalid_token\""@ && resp.body@ == "Token validation failed: "@
                + auth_error_message(e),
        },
{
    match r {
        Ok(u) => Ok(u),
        Err(e) => {
            let mut detail = String::from_str("Token validation failed: ");
            let text = e.message();
            detail.append(text.as_str());
            Err(unauthorized(detail.as_str()))
        },
    }
}

} // verus!
