//! JWT validation decisions: which signing key a token asks for, which key
//! of a key set is used, how the token is checked, and whose identity it carries.
use vstd::prelude::*;

use crate::auth::{opt_chars, IdentityView, UserIdentity};
use crate::config::AuthConfig;
use crate::auth::signing::{decode_claims, jwt_signature_valid, verifying_key};
use crate::text::chars_of;

pub use crate::auth::signing::{JwkKey, JwkView};

verus! {

/// How long a fetched key set is used before it is fetched again, in seconds.
pub const JWKS_TTL_SECS: u64 = 3600;

/// Why a bearer token is refused.
#[derive(Debug, PartialEq, Eq)]
pub enum AuthError {
    InvalidToken(String),
    KeyNotFound(String),
    Fetch(String),
    Config(String),
}

/// The text of an authentication error.
pub open spec fn auth_error_message(e: AuthError) -> Seq<char> {
    match e {
        AuthError::InvalidToken(m) => "invalid token: "@ + m@,
        AuthError::KeyNotFound(k) => "signing key not found (kid="@ + k@ + ")"@,
        AuthError::Fetch(m) => "JWKS fetch failed: "@ + m@,
        AuthError::Config(m) => "auth configuration error: "@ + m@,
    }
}

impl AuthError {
    /// The error's text.
    pub fn message(&self) -> (m: String)
        ensures
            m@ == auth_error_message(*self),
    {
        let mut m = String::new();
        match self {
            AuthError::InvalidToken(e) => {
                m.append("invalid token: ");
                m.append(e.as_str());
            },
            AuthError::KeyNotFound(k) => {
                m.append("signing key not found (kid=");
                m.append(k.as_str());
                m.append(")");
            },
            AuthError::Fetch(e) => {
                m.append("JWKS fetch failed: ");
                m.append(e.as_str());
            },
            AuthError::Config(e) => {
                m.append("auth configuration error: ");
                m.append(e.as_str());
            },
        }
        assert(m@ =~= auth_error_message(*self));
        m
    }
}

// ── The key a token asks for ─────────────────────────────────────────────────

/// The header of a JWT as `jsonwebtoken::decode_header` reads it: the key id
/// and the name of the algorithm, or the decoder's error text. Taken as a
/// function of the token alone.
pub uninterp spec fn jwt_header(token: Seq<char>) -> Result<(Option<Seq<char>>, Seq<char>), Seq<char>>;

/// A decoded header as plain values.
pub open spec fn header_view(h: Result<(Option<String>, String), String>) -> Result<
    (Option<Seq<char>>, Seq<char>),
    Seq<char>,
> {
    match h {
        Ok((kid, alg)) => Ok((opt_chars(kid), alg@)),
        Err(e) => Err(e@),
    }
}

/// Calls `jsonwebtoken::decode_header` and keeps the key id and the
/// algorithm's name (as `Debug` writes it), or the error's text.
#[verifier::external_body]
fn decode_jwt_header(token: &str) -> (h: Result<(Option<String>, String), String>)
    ensures
        header_view(h) == jwt_header(token@),
        h matches Err(e) ==> e@ != "InvalidIssuer"@ && e@ != "InvalidAudience"@,
{
    match jsonwebtoken::decode_header(token) {
        Ok(header) => Ok((header.kid, format!("{:?}", header.alg))),
        Err(e) => Err(e.to_string()),
    }
}

/// The key a token asks for: its key id (empty when absent) and algorithm.
#[derive(Debug, PartialEq, Eq)]
pub struct KeyRequest {
    pub kid: String,
    pub alg: String,
}

/// The key request of a decoded header.
pub fn key_request_from_header(h: Result<(Option<String>, String), String>) -> (r: Result<
    KeyRequest,
    AuthError,
>)
    ensures
        match header_view(h) {
            Ok((kid, alg)) => r matches Ok(k) && k.kid@ == match kid {
                Some(x) => x,
                None => Seq::<char>::empty(),
            } && k.alg@ == alg,
            Err(e) => r matches Err(AuthError::InvalidToken(m)) && m@ == e,
        },
{
    match h {
        Ok((kid, alg)) => {
            let kid = match kid {
                Some(k) => k,
                None => String::new(),
            };
            Ok(KeyRequest { kid, alg })
        },
        Err(e) => Err(AuthError::InvalidToken(e)),
    }
}

/// The key a token asks for, read from its header.
pub fn key_request(token: &str) -> (r: Result<KeyRequest, AuthError>)
    ensures
        match jwt_header(token@) {
            Ok((kid, alg)) => r matches Ok(k) && k.kid@ == match kid {
                Some(x) => x,
                None => Seq::<char>::empty(),
            } && k.alg@ == alg,
            Err(e) => r matches Err(AuthError::InvalidToken(m)) && m@ == e,
        },
        r matches Err(AuthError::InvalidToken(m)) ==> m@ != "InvalidIssuer"@ && m@
            != "InvalidAudience"@,
{
    key_request_from_header(decode_jwt_header(token))
}

// ── Choosing a signing key ───────────────────────────────────────────────────

/// What the choice of a key reads of each key of a key set: its key id and
/// the name of its declared algorithm.
#[derive(Debug, PartialEq, Eq)]
pub struct JwkInfo {
    pub kid: Option<String>,
    pub alg: Option<String>,
}

/// A character code with ASCII upper case letters lowered.
pub open spec fn lower_code(c: char) -> u32 {
    let n = c as u32;
    if 65 <= n <= 90 {
        (n + 32) as u32
    } else {
        n
    }
}

/// `str::eq_ignore_ascii_case`.
pub open spec fn eq_ignore_ascii_case(a: Seq<char>, b: Seq<char>) -> bool {
    a.len() == b.len() && forall|i: int| 0 <= i < a.len() ==> lower_code(a[i]) == lower_code(b[i])
}

/// A key with the requested key id.
pub open spec fn kid_matches(k: JwkInfo, kid: Seq<char>) -> bool {
    k.kid matches Some(x) && x@ == kid
}

/// A key usable with the token's algorithm: one that declares it (ignoring
/// ASCII case) or that declares none.
pub open spec fn alg_matches(k: JwkInfo, alg: Seq<char>) -> bool {
    match k.alg {
        Some(a) => eq_ignore_ascii_case(a@, alg),
        None => true,
    }
}

/// Whether the key choice goes by key id: the id is non-empty and some key has it.
pub open spec fn by_kid(keys: Seq<JwkInfo>, kid: Seq<char>) -> bool {
    kid.len() > 0 && exists|j: int| 0 <= j < keys.len() && kid_matches(#[trigger] keys[j], kid)
}

fn lower(c: char) -> (n: u32)
    ensures
        n == lower_code(c),
{
    let n = c as u32;
    if 65 <= n && n <= 90 {
        n + 32
    } else {
        n
    }
}

/// `a.eq_ignore_ascii_case(b)`.
pub fn equal_ignoring_ascii_case(a: &str, b: &str) -> (r: bool)
    ensures
        r == eq_ignore_ascii_case(a@, b@),
{
    let x = chars_of(a);
    let y = chars_of(b);
    if x.len() != y.len() {
        return false;
    }
    let mut i: usize = 0;
    while i < x.len()
        invariant
            x@ == a@,
            y@ == b@,
            x@.len() == y@.len(),
            i <= x@.len(),
            forall|j: int| 0 <= j < i ==> lower_code(x@[j]) == lower_code(y@[j]),
        decreases x@.len() - i,
    {
        if lower(x[i]) != lower(y[i]) {
            return false;
        }
        i = i + 1;
    }
    true
}

/// The key to verify a token with: the first key with the token's key id
/// when it has a non-empty one that some key carries; otherwise the first key
/// usable with its algorithm; `None` when there is none.
pub fn pick_key(keys: &Vec<JwkInfo>, kid: &str, alg: &str) -> (r: Option<usize>)
    ensures
        match r {
            Some(i) => i < keys@.len() && if by_kid(keys@, kid@) {
                kid_matches(keys@[i as int], kid@) && forall|j: int|
                    0 <= j < i ==> !kid_matches(#[trigger] keys@[j], kid@)
            } else {
                alg_matches(keys@[i as int], alg@) && forall|j: int|
                    0 <= j < i ==> !alg_matches(#[trigger] keys@[j], alg@)
            },
            None => !by_kid(keys@, kid@) && forall|j: int|
                0 <= j < keys@.len() ==> !alg_matches(#[trigger] keys@[j], alg@),
        },
{
    if kid.unicode_len() > 0 {
        let mut i: usize = 0;
        while i < keys.len()
            invariant
                i <= keys@.len(),
                kid@.len() > 0,
                forall|j: int| 0 <= j < i ==> !kid_matches(#[trigger] keys@[j], kid@),
            decreases keys@.len() - i,
        {
            let matches = match &keys[i].kid {
                Some(k) => k.as_str().unicode_len() == kid.unicode_len() && equal_exact(
                    k.as_str(),
                    kid,
                ),
                None => false,
            };
            if matches {
                assert(kid_matches(keys@[i as int], kid@));
                return Some(i);
            }
            i = i + 1;
        }
        assert(!by_kid(keys@, kid@));
    }
    let mut i: usize = 0;
    while i < keys.len()
        invariant
            i <= keys@.len(),
            !by_kid(keys@, kid@),
            forall|j: int| 0 <= j < i ==> !alg_matches(#[trigger] keys@[j], alg@),
        decreases keys@.len() - i,
    {
        let usable = match &keys[i].alg {
            Some(a) => equal_ignoring_ascii_case(a.as_str(), alg),
            None => true,
        };
        if usable {
            return Some(i);
        }
        i = i + 1;
    }
    None
}

/// Whether two texts are equal.
fn equal_exact(a: &str, b: &str) -> (r: bool)
    ensures
        r == (a@ == b@),
{
    let x = chars_of(a);
    let y = chars_of(b);
    assert(x@.subrange(0, x@.len() as int) =~= x@);
    crate::text::range_equals(&x, 0, x.len(), &y)
}

/// Whether a key set fetched `age_secs` seconds ago is still used.
pub fn jwks_cache_fresh(age_secs: u64) -> (b: bool)
    ensures
        b == (age_secs < JWKS_TTL_SECS),
{
    age_secs < JWKS_TTL_SECS
}

/// The chosen key, or the error naming the key id that no key matched.
pub fn key_or_not_found(picked: Option<usize>, kid: &str) -> (r: Result<usize, AuthError>)
    ensures
        match picked {
            Some(i) => r == Ok::<usize, AuthError>(i),
            None => r matches Err(AuthError::KeyNotFound(k)) && k@ == kid@,
        },
{
    match picked {
        Some(i) => Ok(i),
        None => Err(AuthError::KeyNotFound(String::from_str(kid))),
    }
}

/// The URI of the key set; an error when none is configured.
pub fn jwks_uri(cfg: &AuthConfig) -> (r: Result<String, AuthError>)
    ensures
        match r {
            Ok(u) => cfg.jwks_uri@.len() > 0 && u@ == cfg.jwks_uri@,
            Err(e) => cfg.jwks_uri@.len() == 0 && (e matches AuthError::Config(m) && m@
                == "auth.jwksUri is not configured"@),
        },
{
    if cfg.jwks_uri.as_str().unicode_len() == 0 {
        Err(AuthError::Config(String::from_str("auth.jwksUri is not configured")))
    } else {
        Ok(cfg.jwks_uri.clone())
    }
}

// ── Checking the token ───────────────────────────────────────────────────────

/// What the claims of a token are checked against.
#[derive(Debug, PartialEq, Eq)]
pub struct ValidationPolicy {
    /// The required audience; `None` skips the audience check.
    pub audience: Option<String>,
    /// The required issuer; `None` accepts any issuer.
    pub issuer: Option<String>,
    /// Whether the audience is checked: exactly when one is required.
    pub check_audience: bool,
}

/// The checks configured: the audience when one is set, the issuer when one is set.
pub fn validation_policy(cfg: &AuthConfig) -> (p: ValidationPolicy)
    ensures
        p.audience == if cfg.audience@.len() > 0 {
            Some(cfg.audience)
        } else {
            None
        },
        p.issuer == if cfg.issuer@.len() > 0 {
            Some(cfg.issuer)
        } else {
            None
        },
        p.check_audience == (cfg.audience@.len() > 0),
{
    let audience = if cfg.audience.as_str().unicode_len() > 0 {
        Some(cfg.audience.clone())
    } else {
        None
    };
    let issuer = if cfg.issuer.as_str().unicode_len() > 0 {
        Some(cfg.issuer.clone())
    } else {
        None
    };
    let check_audience = audience.is_some();
    ValidationPolicy { audience, issuer, check_audience }
}

/// The claims of a validated token that the identity is made from.
#[derive(Debug, PartialEq, Eq)]
pub struct Claims {
    pub sub: String,
    pub iss: String,
    pub email: Option<String>,
    pub preferred_username: Option<String>,
    pub name: Option<String>,
}

/// The identity a token carries: its subject and email, and as display name
/// the preferred username, else the name.
pub open spec fn identity_of(c: Claims) -> IdentityView {
    IdentityView {
        sub: c.sub@,
        email: opt_chars(c.email),
        display_name: match c.preferred_username {
            Some(u) => Some(u@),
            None => opt_chars(c.name),
        },
    }
}

/// The identity a validated token carries.
pub fn identity_from_claims(c: Claims) -> (u: UserIdentity)
    ensures
        u@ == identity_of(c),
{
    let display_name = match c.preferred_username {
        Some(u) => Some(u),
        None => c.name,
    };
    UserIdentity { sub: c.sub, email: c.email, display_name }
}


// ── Verifying a token ────────────────────────────────────────────────────────

/// A claim of a token's payload, as far as the identity reads it.
#[derive(Debug, PartialEq, Eq)]
pub enum ClaimValue {
    /// A JSON string.
    Text(String),
    /// JSON `null`.
    Null,
    /// Any other JSON value.
    Other,
}

/// A claim, as plain values.
pub enum ClaimView {
    Text(Seq<char>),
    Null,
    Other,
}

impl View for ClaimValue {
    type V = ClaimView;

    open spec fn view(&self) -> ClaimView {
        match self {
            ClaimValue::Text(s) => ClaimView::Text(s@),
            ClaimValue::Null => ClaimView::Null,
            ClaimValue::Other => ClaimView::Other,
        }
    }
}

/// The claims of a payload, as plain values.
pub open spec fn claim_entries(v: Seq<(String, ClaimValue)>) -> Seq<(Seq<char>, ClaimView)> {
    v.map_values(|p: (String, ClaimValue)| (p.0@, p.1@))
}

/// A claim of a payload as `jsonwebtoken::decode` hands it back here: its
/// name, its text when it is a JSON string, and whether it is `null`.
pub type RawClaim = (String, Option<String>, bool);

/// A raw claim as plain values: a string, `null`, or any other value.
pub open spec fn raw_claim_view(c: RawClaim) -> (Seq<char>, ClaimView) {
    (
        c.0@,
        match c.1 {
            Some(s) => ClaimView::Text(s@),
            None => if c.2 {
                ClaimView::Null
            } else {
                ClaimView::Other
            },
        },
    )
}

/// Raw claims as plain values.
pub open spec fn raw_claims_view(v: Seq<RawClaim>) -> Seq<(Seq<char>, ClaimView)> {
    v.map_values(|c: RawClaim| raw_claim_view(c))
}

/// The claims of a token's payload, in the order `jsonwebtoken::decode`
/// gives them back as a JSON object: a function of the token alone.
pub uninterp spec fn jwt_claims(token: Seq<char>) -> Seq<(Seq<char>, ClaimView)>;

/// Raw claims as the claim values the identity reads.
fn claim_values(raw: Vec<RawClaim>) -> (v: Vec<(String, ClaimValue)>)
    ensures
        claim_entries(v@) == raw_claims_view(raw@),
{
    let mut v: Vec<(String, ClaimValue)> = Vec::new();
    let mut i: usize = 0;
    while i < raw.len()
        invariant
            i <= raw@.len(),
            v@.len() == i,
            forall|j: int| 0 <= j < i ==> #[trigger] claim_entries(v@)[j] == raw_claim_view(raw@[j]),
        decreases raw@.len() - i,
    {
        let c = &raw[i];
        let value = match &c.1 {
            Some(s) => ClaimValue::Text(s.clone()),
            None => if c.2 {
                ClaimValue::Null
            } else {
                ClaimValue::Other
            },
        };
        let ghost prev = v@;
        v.push((c.0.clone(), value));
        proof {
            assert forall|j: int| 0 <= j < i + 1 implies #[trigger] claim_entries(v@)[j]
                == raw_claim_view(raw@[j]) by {
                if j < i {
                    assert(v@[j] == prev[j]);
                    assert(claim_entries(prev)[j] == raw_claim_view(raw@[j]));
                }
            }
        }
        i = i + 1;
    }
    assert(claim_entries(v@) =~= raw_claims_view(raw@));
    v
}

/// The value of the first claim with the given name.
pub open spec fn claim_lookup(entries: Seq<(Seq<char>, ClaimView)>, name: Seq<char>) -> Option<
    ClaimView,
>
    decreases entries.len(),
{
    if entries.len() == 0 {
        None
    } else if entries[0].0 == name {
        Some(entries[0].1)
    } else {
        claim_lookup(entries.drop_first(), name)
    }
}

/// The refusal of a payload that lacks a required claim.
pub open spec fn missing_claim_message(name: Seq<char>) -> Seq<char> {
    "JSON error: missing field `"@ + name + "`"@
}

/// The refusal of a payload whose claim is not a string.
pub open spec fn claim_type_message(name: Seq<char>) -> Seq<char> {
    "JSON error: invalid type for field `"@ + name + "`, expected a string"@
}

/// A required string claim.
pub open spec fn required_claim(v: Option<ClaimView>, name: Seq<char>) -> Result<Seq<char>, Seq<char>> {
    match v {
        Some(ClaimView::Text(s)) => Ok(s),
        None => Err(missing_claim_message(name)),
        _ => Err(claim_type_message(name)),
    }
}

/// An optional string claim: absent or `null` is none.
pub open spec fn optional_claim(v: Option<ClaimView>, name: Seq<char>) -> Result<
    Option<Seq<char>>,
    Seq<char>,
> {
    match v {
        Some(ClaimView::Text(s)) => Ok(Some(s)),
        Some(ClaimView::Other) => Err(claim_type_message(name)),
        _ => Ok(None),
    }
}

/// The claims of a token, as plain values: subject, issuer, email,
/// preferred username and name.
pub type ClaimsTuple = (Seq<char>, Seq<char>, Option<Seq<char>>, Option<Seq<char>>, Option<Seq<char>>);

/// The claims read from a payload: `sub` and `iss` must be strings; `email`,
/// `preferred_username` and `name` are strings, `null` or absent; the first
/// claim that fails, in that order, refuses the payload.
pub open spec fn claims_of(entries: Seq<(Seq<char>, ClaimView)>) -> Result<ClaimsTuple, Seq<char>> {
    let sub = required_claim(claim_lookup(entries, "sub"@), "sub"@);
    let iss = required_claim(claim_lookup(entries, "iss"@), "iss"@);
    let email = optional_claim(claim_lookup(entries, "email"@), "email"@);
    let pu = optional_claim(
        claim_lookup(entries, "preferred_username"@),
        "preferred_username"@,
    );
    let name = optional_claim(claim_lookup(entries, "name"@), "name"@);
    if sub is Err {
        Err(sub->Err_0)
    } else if iss is Err {
        Err(iss->Err_0)
    } else if email is Err {
        Err(email->Err_0)
    } else if pu is Err {
        Err(pu->Err_0)
    } else if name is Err {
        Err(name->Err_0)
    } else {
        Ok((sub->Ok_0, iss->Ok_0, email->Ok_0, pu->Ok_0, name->Ok_0))
    }
}

/// A payload's claims are refused with a JSON error's text.
proof fn lemma_claims_error_text(entries: Seq<(Seq<char>, ClaimView)>)
    ensures
        claims_of(entries) matches Err(m) ==> m.len() > 0 && m[0] == 'J',
{
    reveal_strlit("JSON error: missing field `");
    reveal_strlit("JSON error: invalid type for field `");
}

/// The claims of a `Claims` value, as plain values.
pub open spec fn claims_tuple(c: Claims) -> ClaimsTuple {
    (c.sub@, c.iss@, opt_chars(c.email), opt_chars(c.preferred_username), opt_chars(c.name))
}

/// The identity carried by claims given as plain values.
pub open spec fn identity_of_tuple(t: ClaimsTuple) -> IdentityView {
    IdentityView {
        sub: t.0,
        email: t.2,
        display_name: match t.3 {
            Some(u) => Some(u),
            None => t.4,
        },
    }
}

/// The value of the first claim with the given name.
fn find_claim<'a>(entries: &'a Vec<(String, ClaimValue)>, name: &str) -> (r: Option<&'a ClaimValue>)
    ensures
        match claim_lookup(claim_entries(entries@), name@) {
            Some(v) => r matches Some(c) && c@ == v,
            None => r is None,
        },
{
    let ghost all = claim_entries(entries@);
    assert(all.skip(0) =~= all);
    let mut i: usize = 0;
    while i < entries.len()
        invariant
            i <= entries@.len(),
            all == claim_entries(entries@),
            claim_lookup(all, name@) == claim_lookup(all.skip(i as int), name@),
        decreases entries@.len() - i,
    {
        assert(all.skip(i as int)[0] == all[i as int]);
        assert(all.skip(i as int).drop_first() =~= all.skip(i + 1));
        if equal_exact(entries[i].0.as_str(), name) {
            return Some(&entries[i].1);
        }
        i = i + 1;
    }
    assert(all.skip(i as int).len() == 0);
    None
}

/// A required string claim, or the refusal's text.
fn required_text(v: Option<&ClaimValue>, name: &str) -> (r: Result<String, String>)
    ensures
        match required_claim(
            match v {
                Some(c) => Some(c@),
                None => None,
            },
            name@,
        ) {
            Ok(s) => r matches Ok(t) && t@ == s,
            Err(m) => r matches Err(t) && t@ == m,
        },
{
    match v {
        Some(ClaimValue::Text(s)) => Ok(s.clone()),
        None => {
            let mut m = String::from_str("JSON error: missing field `");
            m.append(name);
            m.append("`");
            assert(m@ =~= missing_claim_message(name@));
            Err(m)
        },
        _ => {
            let mut m = String::from_str("JSON error: invalid type for field `");
            m.append(name);
            m.append("`, expected a string");
            assert(m@ =~= claim_type_message(name@));
            Err(m)
        },
    }
}

/// An optional string claim, or the refusal's text.
fn optional_text(v: Option<&ClaimValue>, name: &str) -> (r: Result<Option<String>, String>)
    ensures
        match optional_claim(
            match v {
                Some(c) => Some(c@),
                None => None,
            },
            name@,
        ) {
            Ok(s) => r matches Ok(t) && opt_chars(t) == s,
            Err(m) => r matches Err(t) && t@ == m,
        },
{
    match v {
        Some(ClaimValue::Text(s)) => Ok(Some(s.clone())),
        Some(ClaimValue::Other) => {
            let mut m = String::from_str("JSON error: invalid type for field `");
            m.append(name);
            m.append("`, expected a string");
            assert(m@ =~= claim_type_message(name@));
            Err(m)
        },
        _ => Ok(None),
    }
}

/// The claims of a verified payload, or the text of why they do not fit.
pub fn claims_from_entries(entries: &Vec<(String, ClaimValue)>) -> (r: Result<Claims, String>)
    ensures
        match claims_of(claim_entries(entries@)) {
            Ok(t) => r matches Ok(c) && claims_tuple(c) == t,
            Err(m) => r matches Err(e) && e@ == m,
        },
{
    let sub = required_text(find_claim(entries, "sub"), "sub");
    let iss = required_text(find_claim(entries, "iss"), "iss");
    let email = optional_text(find_claim(entries, "email"), "email");
    let pu = optional_text(find_claim(entries, "preferred_username"), "preferred_username");
    let name = optional_text(find_claim(entries, "name"), "name");
    proof {
        reveal_strlit("sub");
        reveal_strlit("iss");
        reveal_strlit("email");
        reveal_strlit("preferred_username");
        reveal_strlit("name");
    }
    let sub = match sub {
        Ok(s) => s,
        Err(m) => return Err(m),
    };
    let iss = match iss {
        Ok(s) => s,
        Err(m) => return Err(m),
    };
    let email = match email {
        Ok(s) => s,
        Err(m) => return Err(m),
    };
    let preferred_username = match pu {
        Ok(s) => s,
        Err(m) => return Err(m),
    };
    let name = match name {
        Ok(s) => s,
        Err(m) => return Err(m),
    };
    Ok(Claims { sub, iss, email, preferred_username, name })
}

/// The identity of a token, from the outcome of verifying it: a refused
/// token, or claims that do not fit, are an invalid token with the reason.
pub fn identity_from_decoded(decoded: Result<Vec<(String, ClaimValue)>, String>) -> (r: Result<
    UserIdentity,
    AuthError,
>)
    ensures
        match decoded {
            Err(m) => r matches Err(AuthError::InvalidToken(t)) && t@ == m@,
            Ok(entries) => match claims_of(claim_entries(entries@)) {
                Ok(t) => r matches Ok(u) && u@ == identity_of_tuple(t),
                Err(m) => r matches Err(AuthError::InvalidToken(t)) && t@ == m,
            },
        },
{
    match decoded {
        Err(m) => Err(AuthError::InvalidToken(m)),
        Ok(entries) => match claims_from_entries(&entries) {
            Ok(c) => Ok(identity_from_claims(c)),
            Err(m) => Err(AuthError::InvalidToken(m)),
        },
    }
}

/// The identity a bearer token carries, checked against the given signing
/// key and the configured audience and issuer. Every refusal is an invalid
/// token: a header that does not decode, with the decoder's text; a key that
/// does not build; a token the check refuses; claims that do not fit. An
/// accepted token's signature verifies with this key under the algorithm
/// its header names; its identity is that of its claims; its `iss` is the
/// configured issuer when one is set, and its string `aud` the configured
/// audience when one is set. A refusal for the issuer or the audience comes
/// only when that one is configured.
pub fn identity_of_token(token: &str, key: &JwkKey, cfg: &AuthConfig) -> (r: Result<
    UserIdentity,
    AuthError,
>)
    ensures
        r is Err ==> r->Err_0 is InvalidToken,
        jwt_header(token@) matches Err(e) ==> r matches Err(AuthError::InvalidToken(m)) && m@ == e,
        r is Ok ==> (jwt_header(token@) matches Ok((_, a)) && jwt_signature_valid(
            token@,
            key@,
            a,
        )),
        r matches Ok(u) ==> jwt_header(token@) is Ok && (claims_of(jwt_claims(token@)) matches Ok(t)
            && u@ == identity_of_tuple(t)),
        r is Ok && cfg.issuer@.len() > 0 ==> (claims_of(jwt_claims(token@)) matches Ok(t) && t.1
            == cfg.issuer@),
        r is Ok && cfg.audience@.len() > 0 ==> (claim_lookup(jwt_claims(token@), "aud"@) matches Some(
            ClaimView::Text(x),
        ) ==> x == cfg.audience@),
        r matches Err(AuthError::InvalidToken(m)) && m@ == "InvalidIssuer"@ ==> cfg.issuer@.len()
            > 0,
        r matches Err(AuthError::InvalidToken(m)) && m@ == "InvalidAudience"@ ==> cfg.audience@.len()
            > 0,
{
    let request = key_request(token)?;
    let verifying = verifying_key(key)?;
    let policy = validation_policy(cfg);
    let decoded = decode_claims(token, &verifying, request.alg.as_str(), &policy);
    let decoded = match decoded {
        Ok(raw) => Ok(claim_values(raw)),
        Err(m) => Err(m),
    };
    proof {
        reveal_strlit("iss");
        reveal_strlit("InvalidIssuer");
        reveal_strlit("InvalidAudience");
        if let Ok(v) = &decoded {
            lemma_claims_error_text(claim_entries(v@));
        }
    }
    identity_from_decoded(decoded)
}

} // verus!
