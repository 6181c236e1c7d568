//! Caller identity and OAuth bearer authentication of the MCP endpoint.
pub mod jwt;
pub mod middleware;
pub mod signing;
pub mod well_known;

use vstd::prelude::*;

verus! {

/// Identity extracted from a validated Bearer JWT, carried through each MCP
/// request.
#[derive(Debug, PartialEq, Eq)]
pub struct UserIdentity {
    /// `sub` claim — always present after validation (or "anonymous" when auth is disabled).
    pub sub: String,
    /// `email` claim, if the AS includes it.
    pub email: Option<String>,
    /// Human-readable name: `preferred_username` → `name` → None.
    pub display_name: Option<String>,
}

/// An identity as plain values.
pub struct IdentityView {
    pub sub: Seq<char>,
    pub email: Option<Seq<char>>,
    pub display_name: Option<Seq<char>>,
}

/// An optional text as characters.
pub open spec fn opt_chars(o: Option<String>) -> Option<Seq<char>> {
    match o {
        Some(s) => Some(s@),
        None => None,
    }
}

impl View for UserIdentity {
    type V = IdentityView;

    open spec fn view(&self) -> IdentityView {
        IdentityView {
            sub: self.sub@,
            email: opt_chars(self.email),
            display_name: opt_chars(self.display_name),
        }
    }
}

/// The identity of requests when authentication is disabled.
pub open spec fn anonymous_identity() -> IdentityView {
    IdentityView { sub: "anonymous"@, email: None, display_name: None }
}

fn copy_opt(o: &Option<String>) -> (r: Option<String>)
    ensures
        r == *o,
{
    match o {
        Some(s) => Some(s.clone()),
        None => None,
    }
}

impl UserIdentity {
    /// The identity of requests when authentication is disabled.
    pub fn anonymous() -> (u: UserIdentity)
        ensures
            u@ == anonymous_identity(),
    {
        UserIdentity { sub: String::from_str("anonymous"), email: None, display_name: None }
    }

    /// A copy of this identity.
    pub fn duplicate(&self) -> (u: UserIdentity)
        ensures
            u == *self,
    {
        UserIdentity {
            sub: self.sub.clone(),
            email: copy_opt(&self.email),
            display_name: copy_opt(&self.display_name),
        }
    }
}

impl Default for UserIdentity {
    fn default() -> (u: UserIdentity)
        ensures
            u@ == anonymous_identity(),
    {
        UserIdentity::anonymous()
    }
}

/// The identity of the current request, given what the authentication layer
/// stored for it: that identity, or the anonymous one when nothing was stored
/// (e.g. when auth is disabled).
pub fn current_user(stored: Option<&UserIdentity>) -> (u: UserIdentity)
    ensures
        match stored {
            Some(s) => u == *s,
            None => u@ == anonymous_identity(),
        },
{
    match stored {
        Some(s) => s.duplicate(),
        None => UserIdentity::default(),
    }
}

} // verus!
