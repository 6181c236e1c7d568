//! Registry authentication: Basic credentials, bearer challenges and the
//! token cache.
use base64::Engine;
use vstd::prelude::*;
use vstd::utf8::encode_utf8;

use crate::config::RegistryConfig;
use crate::text::{
    chars_of, is_ws, prefix_in, substring, trim, trim_bounds, trim_end, trim_end_char,
    trim_end_char_bound, trim_start,
};

verus! {

// ── Basic credentials ────────────────────────────────────────────────────────

/// The character of a 6-bit value in the standard base64 alphabet:
/// `A`–`Z`, `a`–`z`, `0`–`9`, `+`, `/`.
pub open spec fn base64_char(n: int) -> char {
    if n < 26 {
        (65 + n) as char
    } else if n < 52 {
        (97 + n - 26) as char
    } else if n < 62 {
        (48 + n - 52) as char
    } else if n == 62 {
        '+'
    } else {
        '/'
    }
}

/// The standard base64 encoding (RFC 4648, with `=` padding) of some bytes:
/// each group of three bytes gives four characters; a last group of one or
/// two bytes gives two or three characters and padding.
pub open spec fn base64_standard(data: Seq<u8>) -> Seq<char>
    decreases data.len(),
{
    if data.len() == 0 {
        Seq::empty()
    } else if data.len() == 1 {
        let x = data[0] as int;
        seq![base64_char(x / 4), base64_char((x % 4) * 16), '=', '=']
    } else if data.len() == 2 {
        let x = data[0] as int;
        let y = data[1] as int;
        seq![base64_char(x / 4), base64_char((x % 4) * 16 + y / 16), base64_char((y % 16) * 4), '=']
    } else {
        let x = data[0] as int;
        let y = data[1] as int;
        let z = data[2] as int;
        seq![
            base64_char(x / 4),
            base64_char((x % 4) * 16 + y / 16),
            base64_char((y % 16) * 4 + z / 64),
            base64_char(z % 64),
        ] + base64_standard(data.skip(3))
    }
}

/// Calls `base64::engine::general_purpose::STANDARD.encode`, which gives
/// the standard, padded base64 encoding of the bytes; the crate panics only
/// when the encoded length overflows `usize`, which the bound rules out.
#[verifier::external_body]
fn base64_encode(data: &[u8]) -> (text: String)
    requires
        data@.len() <= usize::MAX / 2,
    ensures
        text@ == base64_standard(data@),
{
    base64::engine::general_purpose::STANDARD.encode(data)
}

/// The `username:password` pair that Basic authentication encodes.
pub open spec fn basic_credentials(username: Seq<char>, password: Seq<char>) -> Seq<char> {
    username + ":"@ + password
}

/// Whether the UTF-8 form of a credentials pair is short enough to encode
/// (a machine limit).
pub open spec fn credentials_fit(username: Seq<char>, password: Seq<char>) -> bool {
    encode_utf8(basic_credentials(username, password)).len() <= usize::MAX / 2
}

/// The Basic `Authorization` header value for a username and password.
pub open spec fn basic_header_spec(username: Seq<char>, password: Seq<char>) -> Seq<char> {
    "Basic "@ + base64_standard(encode_utf8(basic_credentials(username, password)))
}

/// Whether `credentials_fit` holds for a username and password.
pub fn credentials_encodable(username: &str, password: &str) -> (b: bool)
    ensures
        b == credentials_fit(username@, password@),
{
    let mut creds = String::from_str(username);
    creds.append(":");
    creds.append(password);
    creds.as_str().as_bytes().len() <= usize::MAX / 2
}

/// Build an HTTP Basic `Authorization` header value from username and password.
pub fn basic_auth_header(username: &str, password: &str) -> (h: String)
    requires
        credentials_fit(username@, password@),
    ensures
        h@ == basic_header_spec(username@, password@),
{
    let mut creds = String::from_str(username);
    creds.append(":");
    creds.append(password);
    let encoded = base64_encode(creds.as_str().as_bytes());
    let mut h = String::from_str("Basic ");
    h.append(encoded.as_str());
    h
}

// ── Cached bearer token ──────────────────────────────────────────────────────

/// Cached bearer token state shared across all client calls.
#[derive(Debug)]
pub struct TokenCache {
    token: Option<String>,
}

impl View for TokenCache {
    type V = Option<Seq<char>>;

    closed spec fn view(&self) -> Option<Seq<char>> {
        match self.token {
            Some(t) => Some(t@),
            None => None,
        }
    }
}

impl TokenCache {
    /// An empty cache.
    pub fn new() -> (c: TokenCache)
        ensures
            c@ is None,
    {
        TokenCache { token: None }
    }

    /// The cached token, if any.
    pub fn token(&self) -> (t: Option<&str>)
        ensures
            match t {
                Some(t) => self@ == Some(t@),
                None => self@ is None,
            },
    {
        match &self.token {
            Some(t) => Some(t.as_str()),
            None => None,
        }
    }
}

/// Store a freshly fetched token in the cache.
pub fn cache_token(cache: &mut TokenCache, token: String)
    ensures
        final(cache)@ == Some(token@),
{
    cache.token = Some(token);
}

/// Clear the cached token (called when a 401 is received so the next request
/// will re-fetch).
pub fn clear_token(cache: &mut TokenCache)
    ensures
        final(cache)@ is None,
{
    cache.token = None;
}

/// What follows a token fetch made after a 401 with a usable challenge: a
/// fetched token is cached and the request is retried once with it; a
/// failed fetch leaves the cache empty and the request fails as
/// unauthorized, with no retry.
pub fn token_refresh(cache: &mut TokenCache, fetched: Result<String, String>) -> (retry: Result<
    (),
    crate::error::RegistryError,
>)
    ensures
        match fetched {
            Ok(t) => final(cache)@ == Some(t@) && retry is Ok,
            Err(_) => final(cache)@ is None && retry matches Err(
                crate::error::RegistryError::Unauthorized,
            ),
        },
{
    match fetched {
        Ok(t) => {
            cache_token(cache, t);
            Ok(())
        },
        Err(_) => {
            clear_token(cache);
            Err(crate::error::RegistryError::Unauthorized)
        },
    }
}

/// The `Authorization` header value for a request. Priority: the static
/// bearer token, then the cached token, then Basic credentials when both
/// are non-empty, else none.
pub open spec fn auth_header_spec(cfg: crate::config::RegistryConfigView, cached: Option<Seq<char>>) -> Option<Seq<char>> {
    if cfg.bearer_token.len() > 0 {
        Some("Bearer "@ + cfg.bearer_token)
    } else if cached is Some {
        Some("Bearer "@ + cached.unwrap())
    } else if cfg.username.len() > 0 && cfg.password.len() > 0 {
        Some(basic_header_spec(cfg.username, cfg.password))
    } else {
        None
    }
}

/// Resolve the `Authorization` header value to use for a request, given the
/// registry config and the optional cached bearer token.
///
/// Priority:
/// 1. Static `bearerToken` from config (if non-empty)
/// 2. Cached bearer token from a previous token fetch
/// 3. Basic auth from username/password (if non-empty)
/// 4. No auth header (returns `None`)
pub fn resolve_auth_header(cfg: &RegistryConfig, cache: &TokenCache) -> (h: Option<String>)
    requires
        credentials_fit(cfg.username@, cfg.password@),
    ensures
        match h {
            Some(h) => auth_header_spec(cfg@, cache@) == Some(h@),
            None => auth_header_spec(cfg@, cache@) is None,
        },
{
    if cfg.bearer_token.as_str().unicode_len() > 0 {
        let mut h = String::from_str("Bearer ");
        h.append(cfg.bearer_token.as_str());
        return Some(h);
    }
    if let Some(token) = cache.token() {
        let mut h = String::from_str("Bearer ");
        h.append(token);
        return Some(h);
    }
    if cfg.username.as_str().unicode_len() > 0 && cfg.password.as_str().unicode_len() > 0 {
        return Some(basic_auth_header(cfg.username.as_str(), cfg.password.as_str()));
    }
    None
}

/// Once a token is cached, requests carry it, unless a static bearer token
/// is configured, which always takes precedence.
pub proof fn law_cached_token_is_used(cfg: crate::config::RegistryConfigView, token: Seq<char>)
    ensures
        cfg.bearer_token.len() == 0 ==> auth_header_spec(cfg, Some(token)) == Some(
            "Bearer "@ + token,
        ),
        cfg.bearer_token.len() > 0 ==> auth_header_spec(cfg, Some(token)) == Some(
            "Bearer "@ + cfg.bearer_token,
        ),
{
}

/// After the cache is cleared, requests fall back to Basic credentials (or
/// to no header), unless a static bearer token is configured.
pub proof fn law_cleared_cache_falls_back(cfg: crate::config::RegistryConfigView)
    ensures
        cfg.bearer_token.len() == 0 ==> auth_header_spec(cfg, None) == (if cfg.username.len() > 0
            && cfg.password.len() > 0 {
            Some(basic_header_spec(cfg.username, cfg.password))
        } else {
            None
        }),
{
}

/// A static bearer token wins whatever the cache holds.
pub proof fn law_static_bearer_precedence(
    cfg: crate::config::RegistryConfigView,
    a: Option<Seq<char>>,
    b: Option<Seq<char>>,
)
    requires
        cfg.bearer_token.len() > 0,
    ensures
        auth_header_spec(cfg, a) == auth_header_spec(cfg, b),
{
}

// ── Token endpoint ───────────────────────────────────────────────────────────

/// The body of a token endpoint response: registries use either field.
#[derive(Debug)]
pub struct TokenResponse {
    pub token: Option<String>,
    pub access_token: Option<String>,
}

/// The `Authorization` header sent to the token endpoint: Basic credentials
/// when both username and password are non-empty.
pub fn token_request_authorization(cfg: &RegistryConfig) -> (h: Option<String>)
    requires
        credentials_fit(cfg.username@, cfg.password@),
    ensures
        match h {
            Some(h) => cfg.username@.len() > 0 && cfg.password@.len() > 0 && h@
                == basic_header_spec(cfg.username@, cfg.password@),
            None => !(cfg.username@.len() > 0 && cfg.password@.len() > 0),
        },
{
    if cfg.username.as_str().unicode_len() > 0 && cfg.password.as_str().unicode_len() > 0 {
        Some(basic_auth_header(cfg.username.as_str(), cfg.password.as_str()))
    } else {
        None
    }
}

/// The token a token endpoint returned: `token`, else `access_token`, else
/// an error saying that there was none.
pub fn select_token(body: TokenResponse) -> (r: Result<String, String>)
    ensures
        match r {
            Ok(t) => match body.token {
                Some(x) => t@ == x@,
                None => body.access_token matches Some(y) && t@ == y@,
            },
            Err(e) => body.token is None && body.access_token is None && e@
                == "Bearer token response contained no token field"@,
        },
{
    match body.token {
        Some(t) => Ok(t),
        None => match body.access_token {
            Some(t) => Ok(t),
            None => Err(String::from_str("Bearer token response contained no token field")),
        },
    }
}

// ── Bearer challenges ────────────────────────────────────────────────────────

/// The fields a `WWW-Authenticate: Bearer ...` challenge names.
pub struct ChallengeFields {
    pub realm: Seq<char>,
    pub service: Seq<char>,
    pub scope: Seq<char>,
}

/// `s.split(c)`: the pieces between occurrences of `c`, in order. There is
/// always at least one piece; an empty text gives one empty piece.
pub open spec fn split_on(s: Seq<char>, c: char) -> Seq<Seq<char>>
    decreases s.len(),
{
    if s.len() == 0 {
        seq![Seq::<char>::empty()]
    } else {
        let prev = split_on(s.drop_last(), c);
        if s.last() == c {
            prev.push(Seq::<char>::empty())
        } else {
            prev.update(prev.len() - 1, prev.last().push(s.last()))
        }
    }
}

/// The value of a `key="value"` part: what follows the key, with trailing
/// quotes removed.
pub open spec fn quoted_value(t: Seq<char>, key: Seq<char>) -> Seq<char> {
    trim_end_char(t.skip(key.len() as int), '"')
}

/// One comma-separated part of a challenge, trimmed, sets the field whose
/// key it starts with; other parts change nothing.
pub open spec fn apply_challenge_part(f: ChallengeFields, part: Seq<char>) -> ChallengeFields {
    let t = trim(part);
    if "realm=\""@.is_prefix_of(t) {
        ChallengeFields { realm: quoted_value(t, "realm=\""@), ..f }
    } else if "service=\""@.is_prefix_of(t) {
        ChallengeFields { service: quoted_value(t, "service=\""@), ..f }
    } else if "scope=\""@.is_prefix_of(t) {
        ChallengeFields { scope: quoted_value(t, "scope=\""@), ..f }
    } else {
        f
    }
}

/// The fields set by a sequence of parts, applied in order (a later part
/// overrides an earlier one with the same key).
pub open spec fn challenge_fields(parts: Seq<Seq<char>>) -> ChallengeFields
    decreases parts.len(),
{
    if parts.len() == 0 {
        ChallengeFields {
            realm: Seq::<char>::empty(),
            service: Seq::<char>::empty(),
            scope: Seq::<char>::empty(),
        }
    } else {
        apply_challenge_part(challenge_fields(parts.drop_last()), parts.last())
    }
}

/// The token endpoint URL: the realm, with `service` and `scope` as query
/// parameters when they are non-empty.
pub open spec fn challenge_url(f: ChallengeFields) -> Seq<char> {
    let with_service = if f.service.len() > 0 {
        f.realm + "?"@ + "service="@ + f.service
    } else {
        f.realm
    };
    let sep = if f.service.len() > 0 {
        "&"@
    } else {
        "?"@
    };
    if f.scope.len() > 0 {
        with_service + sep + "scope="@ + f.scope
    } else {
        with_service
    }
}

/// What `parse_bearer_challenge` returns for a header value: nothing unless
/// it starts with `Bearer ` and names a non-empty realm.
pub open spec fn bearer_challenge_spec(header: Seq<char>) -> Option<Seq<char>> {
    if "Bearer "@.is_prefix_of(header) {
        let f = challenge_fields(split_on(header.skip("Bearer "@.len() as int), ','));
        if f.realm.len() == 0 {
            None
        } else {
            Some(challenge_url(f))
        }
    } else {
        None
    }
}

/// Bounds into the header of the three fields found so far.
struct FieldBounds {
    realm: (usize, usize),
    service: (usize, usize),
    scope: (usize, usize),
}

impl FieldBounds {
    spec fn fits(self, n: nat) -> bool {
        &&& self.realm.0 <= self.realm.1 <= n
        &&& self.service.0 <= self.service.1 <= n
        &&& self.scope.0 <= self.scope.1 <= n
    }

    spec fn fields(self, v: Seq<char>) -> ChallengeFields {
        ChallengeFields {
            realm: v.subrange(self.realm.0 as int, self.realm.1 as int),
            service: v.subrange(self.service.0 as int, self.service.1 as int),
            scope: v.subrange(self.scope.0 as int, self.scope.1 as int),
        }
    }
}

/// Applies the part `lo..hi` of `v` to the fields found so far.
fn apply_part(
    v: &Vec<char>,
    lo: usize,
    hi: usize,
    b: FieldBounds,
    realm_key: &Vec<char>,
    service_key: &Vec<char>,
    scope_key: &Vec<char>,
) -> (r: FieldBounds)
    requires
        lo <= hi <= v@.len(),
        b.fits(v@.len()),
        realm_key@ == "realm=\""@,
        service_key@ == "service=\""@,
        scope_key@ == "scope=\""@,
    ensures
        r.fits(v@.len()),
        r.fields(v@) == apply_challenge_part(b.fields(v@), v@.subrange(lo as int, hi as int)),
{
    let (ta, tb) = trim_bounds(v, lo, hi);
    let ghost t = v@.subrange(ta as int, tb as int);
    if prefix_in(v, ta, tb, realm_key) {
        let start = ta + realm_key.len();
        let e = trim_end_char_bound(v, start, tb, '"');
        assert(t.skip(realm_key@.len() as int) =~= v@.subrange(start as int, tb as int));
        let r = FieldBounds { realm: (start, e), ..b };
        assert(r.fields(v@) =~~= apply_challenge_part(b.fields(v@), v@.subrange(lo as int, hi as int)));
        r
    } else if prefix_in(v, ta, tb, service_key) {
        let start = ta + service_key.len();
        let e = trim_end_char_bound(v, start, tb, '"');
        assert(t.skip(service_key@.len() as int) =~= v@.subrange(start as int, tb as int));
        let r = FieldBounds { service: (start, e), ..b };
        assert(r.fields(v@) =~~= apply_challenge_part(b.fields(v@), v@.subrange(lo as int, hi as int)));
        r
    } else if prefix_in(v, ta, tb, scope_key) {
        let start = ta + scope_key.len();
        let e = trim_end_char_bound(v, start, tb, '"');
        assert(t.skip(scope_key@.len() as int) =~= v@.subrange(start as int, tb as int));
        let r = FieldBounds { scope: (start, e), ..b };
        assert(r.fields(v@) =~~= apply_challenge_part(b.fields(v@), v@.subrange(lo as int, hi as int)));
        r
    } else {
        b
    }
}

/// Parse a `WWW-Authenticate: Bearer realm="...",service="...",scope="..."` header
/// and return the token endpoint URL with query parameters.
pub fn parse_bearer_challenge(header: &str) -> (r: Option<String>)
    ensures
        match r {
            Some(url) => bearer_challenge_spec(header@) == Some(url@),
            None => bearer_challenge_spec(header@) is None,
        },
{
    let v = chars_of(header);
    let n = v.len();
    let bearer = chars_of("Bearer ");
    if !prefix_in(&v, 0, n, &bearer) {
        assert(v@.subrange(0, n as int) =~= v@);
        return None;
    }
    assert(v@.subrange(0, n as int) =~= v@);
    let start = bearer.len();
    let ghost rest = header@.skip(start as int);
    let realm_key = chars_of("realm=\"");
    let service_key = chars_of("service=\"");
    let scope_key = chars_of("scope=\"");

    let mut b = FieldBounds { realm: (0, 0), service: (0, 0), scope: (0, 0) };
    let ghost mut done: Seq<Seq<char>> = Seq::empty();
    let mut seg = start;
    let mut i = start;
    assert(v@.subrange(start as int, start as int) =~= Seq::<char>::empty());
    assert(v@.subrange(0, 0) =~= Seq::<char>::empty());
    assert(b.fields(v@) =~~= challenge_fields(done));
    while i < n
        invariant
            start <= seg <= i <= n == v@.len(),
            v@ == header@,
            b.fits(n as nat),
            realm_key@ == "realm=\""@,
            service_key@ == "service=\""@,
            scope_key@ == "scope=\""@,
            split_on(v@.subrange(start as int, i as int), ',') == done.push(
                v@.subrange(seg as int, i as int),
            ),
            b.fields(v@) == challenge_fields(done),
        decreases n - i,
    {
        let ghost prefix = v@.subrange(start as int, (i + 1) as int);
        assert(prefix.drop_last() =~= v@.subrange(start as int, i as int));
        assert(prefix.last() == v@[i as int]);
        if v[i] == ',' {
            b = apply_part(&v, seg, i, b, &realm_key, &service_key, &scope_key);
            proof {
                let old_done = done;
                done = done.push(v@.subrange(seg as int, i as int));
                assert(done.drop_last() =~= old_done);
                assert(v@.subrange((i + 1) as int, (i + 1) as int) =~= Seq::<char>::empty());
            }
            seg = i + 1;
        } else {
            assert(v@.subrange(seg as int, i as int).push(v@[i as int]) =~= v@.subrange(
                seg as int,
                (i + 1) as int,
            ));
            assert(done.push(v@.subrange(seg as int, i as int)).update(
                done.len() as int,
                v@.subrange(seg as int, (i + 1) as int),
            ) =~= done.push(v@.subrange(seg as int, (i + 1) as int)));
        }
        i = i + 1;
    }
    b = apply_part(&v, seg, n, b, &realm_key, &service_key, &scope_key);
    proof {
        let all = done.push(v@.subrange(seg as int, n as int));
        assert(all.drop_last() =~= done);
        assert(v@.subrange(start as int, n as int) =~= rest);
    }
    let ghost f = challenge_fields(split_on(rest, ','));
    assert(b.fields(v@) == f);

    if b.realm.1 == b.realm.0 {
        return None;
    }
    let mut url = substring(header, b.realm.0, b.realm.1);
    let has_service = b.service.1 > b.service.0;
    if has_service {
        url.append("?");
        url.append("service=");
        url.append(substring(header, b.service.0, b.service.1).as_str());
    }
    if b.scope.1 > b.scope.0 {
        if has_service {
            url.append("&");
        } else {
            url.append("?");
        }
        url.append("scope=");
        url.append(substring(header, b.scope.0, b.scope.1).as_str());
    }
    assert(url@ =~= challenge_url(f));
    Some(url)
}


// ── Laws of bearer challenges ────────────────────────────────────────────────

/// A challenge yields a token URL exactly when it starts with `Bearer ` and
/// names a non-empty realm; the URL then starts with the realm.
pub proof fn law_challenge_needs_realm(header: Seq<char>)
    ensures
        bearer_challenge_spec(header) is Some <==> ("Bearer "@.is_prefix_of(header)
            && challenge_fields(split_on(header.skip("Bearer "@.len() as int), ',')).realm.len()
            > 0),
        bearer_challenge_spec(header) matches Some(u) ==> challenge_fields(
            split_on(header.skip("Bearer "@.len() as int), ','),
        ).realm.is_prefix_of(u),
{
    if let Some(u) = bearer_challenge_spec(header) {
        let f = challenge_fields(split_on(header.skip("Bearer "@.len() as int), ','));
        assert(u.take(f.realm.len() as int) =~= f.realm);
    }
}

/// `n` spaces.
pub open spec fn spaces(n: nat) -> Seq<char> {
    Seq::new(n, |i: int| ' ')
}

/// The key of the challenge parameter of a kind: 0 realm, 1 service, 2 scope.
pub open spec fn challenge_key(kind: int) -> Seq<char> {
    if kind == 0 {
        "realm"@
    } else if kind == 1 {
        "service"@
    } else {
        "scope"@
    }
}

/// A challenge parameter `key="value"` with spaces around it.
pub open spec fn padded_param(key: Seq<char>, value: Seq<char>, lead: nat, trail: nat) -> Seq<char> {
    spaces(lead) + key + "=\""@ + value + "\""@ + spaces(trail)
}

/// A text free of commas and double quotes.
pub open spec fn plain_value(v: Seq<char>) -> bool {
    forall|i: int| 0 <= i < v.len() ==> v[i] != ',' && v[i] != '"'
}

/// A text free of commas.
pub open spec fn comma_free(v: Seq<char>) -> bool {
    forall|i: int| 0 <= i < v.len() ==> v[i] != ','
}

proof fn lemma_split_len(x: Seq<char>)
    ensures
        split_on(x, ',').len() >= 1,
    decreases x.len(),
{
    if x.len() > 0 {
        lemma_split_len(x.drop_last());
    }
}

/// Appending comma-free text extends the last piece.
proof fn lemma_split_extend(x: Seq<char>, t: Seq<char>)
    requires
        comma_free(t),
    ensures
        split_on(x + t, ',') == split_on(x, ',').update(
            split_on(x, ',').len() - 1,
            split_on(x, ',').last() + t,
        ),
    decreases t.len(),
{
    lemma_split_len(x);
    let sx = split_on(x, ',');
    if t.len() == 0 {
        assert(x + t =~= x);
        assert(sx.last() + t =~= sx.last());
        assert(sx.update(sx.len() - 1, sx.last()) =~= sx);
    } else {
        let u = t.drop_last();
        assert(comma_free(u)) by {
            assert forall|i: int| 0 <= i < u.len() implies u[i] != ',' by {
                assert(u[i] == t[i]);
            }
        }
        lemma_split_extend(x, u);
        assert((x + t).drop_last() =~= x + u);
        assert((x + t).last() == t[t.len() - 1]);
        let prev = split_on(x + u, ',');
        assert(prev.last() == sx.last() + u);
        assert((sx.last() + u).push(t.last()) =~= sx.last() + t);
        assert(prev.update(prev.len() - 1, prev.last().push(t.last())) =~= sx.update(
            sx.len() - 1,
            sx.last() + t,
        ));
    }
}

/// Three comma-free pieces joined by commas split back into them.
proof fn lemma_split_three(a: Seq<char>, b: Seq<char>, c: Seq<char>)
    requires
        comma_free(a),
        comma_free(b),
        comma_free(c),
    ensures
        split_on(a + ","@ + b + ","@ + c, ',') == seq![a, b, c],
{
    reveal_strlit(",");
    let e = Seq::<char>::empty();
    lemma_split_extend(e, a);
    assert(e + a =~= a);
    assert(split_on(a, ',') =~= seq![a]);
    let a1 = a + ","@;
    assert(a1 =~= a.push(','));
    assert(a1.drop_last() =~= a);
    assert(split_on(a1, ',') =~= seq![a, e]);
    lemma_split_extend(a1, b);
    assert(split_on(a1 + b, ',') =~= seq![a, b]);
    let b1 = a1 + b + ","@;
    assert(b1 =~= (a1 + b).push(','));
    assert(b1.drop_last() =~= a1 + b);
    assert(split_on(b1, ',') =~= seq![a, b, e]);
    lemma_split_extend(b1, c);
    assert(split_on(b1 + c, ',') =~= seq![a, b, c]);
    assert(a + ","@ + b + ","@ + c =~= b1 + c);
}

proof fn lemma_trim_start_spaces(n: nat, s: Seq<char>)
    ensures
        trim_start(spaces(n) + s) == trim_start(s),
    decreases n,
{
    if n > 0 {
        lemma_trim_start_spaces((n - 1) as nat, s);
        assert((spaces(n) + s).drop_first() =~= spaces((n - 1) as nat) + s);
        assert((spaces(n) + s)[0] == ' ');
    } else {
        assert(spaces(n) + s =~= s);
    }
}

proof fn lemma_trim_end_spaces(s: Seq<char>, n: nat)
    ensures
        trim_end(s + spaces(n)) == trim_end(s),
    decreases n,
{
    if n > 0 {
        lemma_trim_end_spaces(s, (n - 1) as nat);
        assert((s + spaces(n)).drop_last() =~= s + spaces((n - 1) as nat));
        assert((s + spaces(n)).last() == ' ');
    } else {
        assert(s + spaces(n) =~= s);
    }
}

/// The core of a challenge parameter, without the spaces around it.
pub open spec fn param_core(key: Seq<char>, value: Seq<char>) -> Seq<char> {
    key + "=\""@ + value + "\""@
}

proof fn lemma_trim_padded(kind: int, value: Seq<char>, lead: nat, trail: nat)
    requires
        0 <= kind < 3,
    ensures
        trim(padded_param(challenge_key(kind), value, lead, trail)) == param_core(
            challenge_key(kind),
            value,
        ),
{
    reveal_strlit("realm");
    reveal_strlit("service");
    reveal_strlit("scope");
    reveal_strlit("=\"");
    reveal_strlit("\"");
    let core = param_core(challenge_key(kind), value);
    assert(padded_param(challenge_key(kind), value, lead, trail) =~= spaces(lead) + (core
        + spaces(trail)));
    lemma_trim_start_spaces(lead, core + spaces(trail));
    assert((core + spaces(trail))[0] == core[0]);
    assert(!is_ws(core[0]));
    assert(trim_start(core + spaces(trail)) == core + spaces(trail));
    lemma_trim_end_spaces(core, trail);
    assert(core.last() == '"');
    assert(trim_end(core) == core);
}

proof fn lemma_quoted(value: Seq<char>)
    requires
        plain_value(value),
    ensures
        trim_end_char(value + "\""@, '"') == value,
{
    reveal_strlit("\"");
    let q = value + "\""@;
    assert(q.len() > 0 && q.last() == '"');
    assert(q.drop_last() =~= value);
    assert(trim_end_char(q, '"') == trim_end_char(value, '"'));
    if value.len() > 0 {
        assert(value.last() != '"');
    }
}

/// What a challenge parameter of a kind does to the fields: it sets the
/// field of its kind to its value.
pub open spec fn set_field(f: ChallengeFields, kind: int, value: Seq<char>) -> ChallengeFields {
    if kind == 0 {
        ChallengeFields { realm: value, ..f }
    } else if kind == 1 {
        ChallengeFields { service: value, ..f }
    } else {
        ChallengeFields { scope: value, ..f }
    }
}

proof fn lemma_apply_param(f: ChallengeFields, kind: int, value: Seq<char>, lead: nat, trail: nat)
    requires
        0 <= kind < 3,
        plain_value(value),
    ensures
        apply_challenge_part(f, padded_param(challenge_key(kind), value, lead, trail))
            == set_field(f, kind, value),
{
    reveal_strlit("realm");
    reveal_strlit("service");
    reveal_strlit("scope");
    reveal_strlit("=\"");
    reveal_strlit("\"");
    reveal_strlit("realm=\"");
    reveal_strlit("service=\"");
    reveal_strlit("scope=\"");
    lemma_trim_padded(kind, value, lead, trail);
    let key = challenge_key(kind);
    let t = param_core(key, value);
    let k = key + "=\""@;
    assert(t =~= k + (value + "\""@));
    assert(t.skip(k.len() as int) =~= value + "\""@);
    lemma_quoted(value);
    if kind == 0 {
        assert("realm=\""@ =~= k);
        assert("realm=\""@.is_prefix_of(t));
    } else if kind == 1 {
        assert("service=\""@ =~= k);
        assert(t[0] == k[0]);
        assert(t[0] == 's');
        if "realm=\""@.is_prefix_of(t) {
            assert(t.subrange(0, 7)[0] == t[0]);
            assert("realm=\""@[0] == 'r');
        }
        assert("service=\""@.is_prefix_of(t));
    } else {
        assert("scope=\""@ =~= k);
        assert(t[0] == k[0] && t[1] == k[1]);
        assert(t[0] == 's' && t[1] == 'c');
        if "realm=\""@.is_prefix_of(t) {
            assert(t.subrange(0, 7)[0] == t[0]);
            assert("realm=\""@[0] == 'r');
        }
        if "service=\""@.is_prefix_of(t) {
            assert(t.subrange(0, 9)[1] == t[1]);
            assert("service=\""@[1] == 'e');
        }
        assert("scope=\""@.is_prefix_of(t));
    }
}

/// The value of the parameter of a kind.
pub open spec fn kind_value(kind: int, realm: Seq<char>, service: Seq<char>, scope: Seq<char>) -> Seq<char> {
    if kind == 0 {
        realm
    } else if kind == 1 {
        service
    } else {
        scope
    }
}

/// The `i`th parameter of a challenge: `kinds[i]` says which, `leads[i]`
/// and `trails[i]` how many spaces surround it.
pub open spec fn challenge_part(
    realm: Seq<char>,
    service: Seq<char>,
    scope: Seq<char>,
    kinds: Seq<int>,
    leads: Seq<nat>,
    trails: Seq<nat>,
    i: int,
) -> Seq<char> {
    padded_param(
        challenge_key(kinds[i]),
        kind_value(kinds[i], realm, service, scope),
        leads[i],
        trails[i],
    )
}

/// A bearer challenge with its three parameters in the order `kinds`.
pub open spec fn challenge_header(
    realm: Seq<char>,
    service: Seq<char>,
    scope: Seq<char>,
    kinds: Seq<int>,
    leads: Seq<nat>,
    trails: Seq<nat>,
) -> Seq<char> {
    "Bearer "@ + challenge_part(realm, service, scope, kinds, leads, trails, 0) + ","@
        + challenge_part(realm, service, scope, kinds, leads, trails, 1) + ","@ + challenge_part(
        realm,
        service,
        scope,
        kinds,
        leads,
        trails,
        2,
    )
}

proof fn lemma_part_comma_free(
    realm: Seq<char>,
    service: Seq<char>,
    scope: Seq<char>,
    kinds: Seq<int>,
    leads: Seq<nat>,
    trails: Seq<nat>,
    i: int,
)
    requires
        plain_value(realm),
        plain_value(service),
        plain_value(scope),
        0 <= i < kinds.len() == leads.len() == trails.len(),
        0 <= kinds[i] < 3,
    ensures
        comma_free(challenge_part(realm, service, scope, kinds, leads, trails, i)),
{
    reveal_strlit("realm");
    reveal_strlit("service");
    reveal_strlit("scope");
    reveal_strlit("=\"");
    reveal_strlit("\"");
    let v = kind_value(kinds[i], realm, service, scope);
    let key = challenge_key(kinds[i]);
    let x = challenge_part(realm, service, scope, kinds, leads, trails, i);
    let l = leads[i] as int;
    assert(x =~= spaces(leads[i]) + key + "=\""@ + v + "\""@ + spaces(trails[i]));
    assert forall|j: int| 0 <= j < x.len() implies x[j] != ',' by {
        if j < l {
        } else if j < l + key.len() {
            assert(x[j] == key[j - l]);
        } else if j < l + key.len() + 2 {
            assert(x[j] == "=\""@[j - l - key.len()]);
        } else if j < l + key.len() + 2 + v.len() {
            assert(x[j] == v[j - l - key.len() - 2]);
        } else if j < l + key.len() + 3 + v.len() {
            assert(x[j] == '"');
        } else {
            assert(x[j] == ' ');
        }
    }
}

/// The realm, service and scope of a challenge, in whatever order its three
/// parameters come and with whatever spaces around each: `kinds` gives the
/// order (a permutation of realm 0, service 1, scope 2), `leads` and
/// `trails` the spaces. The token URL is the same for every order and
/// spacing, e.g. `Bearer scope="s", service="v", realm="r"` gives
/// `r?service=v&scope=s`.
pub proof fn law_challenge_order_and_spaces(
    realm: Seq<char>,
    service: Seq<char>,
    scope: Seq<char>,
    kinds: Seq<int>,
    leads: Seq<nat>,
    trails: Seq<nat>,
)
    requires
        plain_value(realm),
        plain_value(service),
        plain_value(scope),
        kinds.len() == 3,
        leads.len() == 3,
        trails.len() == 3,
        forall|i: int| 0 <= i < 3 ==> 0 <= #[trigger] kinds[i] < 3,
        kinds[0] != kinds[1] && kinds[0] != kinds[2] && kinds[1] != kinds[2],
    ensures
        bearer_challenge_spec(challenge_header(realm, service, scope, kinds, leads, trails))
            == if realm.len() > 0 {
            Some(challenge_url(ChallengeFields { realm, service, scope }))
        } else {
            None::<Seq<char>>
        },
{
    reveal_strlit("Bearer ");
    reveal_strlit(",");
    reveal_strlit("=\"");
    reveal_strlit("\"");
    let part = |i: int| challenge_part(realm, service, scope, kinds, leads, trails, i);
    let p0 = part(0);
    let p1 = part(1);
    let p2 = part(2);
    lemma_part_comma_free(realm, service, scope, kinds, leads, trails, 0);
    lemma_part_comma_free(realm, service, scope, kinds, leads, trails, 1);
    lemma_part_comma_free(realm, service, scope, kinds, leads, trails, 2);
    let rest = p0 + ","@ + p1 + ","@ + p2;
    let header = challenge_header(realm, service, scope, kinds, leads, trails);
    assert(header =~= "Bearer "@ + rest);
    assert("Bearer "@.is_prefix_of(header)) by {
        assert(header.take(7) =~= "Bearer "@);
    }
    assert(header.skip("Bearer "@.len() as int) =~= rest);
    lemma_split_three(p0, p1, p2);
    let parts = seq![p0, p1, p2];
    let e = ChallengeFields {
        realm: Seq::<char>::empty(),
        service: Seq::<char>::empty(),
        scope: Seq::<char>::empty(),
    };
    assert(seq![p0].drop_last() =~= Seq::<Seq<char>>::empty());
    assert(seq![p0, p1].drop_last() =~= seq![p0]);
    assert(parts.drop_last() =~= seq![p0, p1]);
    assert(challenge_fields(Seq::<Seq<char>>::empty()) == e);
    let f0 = apply_challenge_part(e, p0);
    let f1 = apply_challenge_part(f0, p1);
    let f2 = apply_challenge_part(f1, p2);
    assert(challenge_fields(seq![p0]) == f0);
    assert(challenge_fields(seq![p0, p1]) == f1);
    assert(challenge_fields(parts) == f2);
    lemma_apply_param(e, kinds[0], kind_value(kinds[0], realm, service, scope), leads[0], trails[0]);
    lemma_apply_param(f0, kinds[1], kind_value(kinds[1], realm, service, scope), leads[1], trails[1]);
    lemma_apply_param(f1, kinds[2], kind_value(kinds[2], realm, service, scope), leads[2], trails[2]);
    assert(f2 == ChallengeFields { realm, service, scope });
}

/// Two challenges with the same realm, service and scope give the same
/// token URL, whatever the order of their parameters and the spaces around
/// them.
pub proof fn law_challenge_order_irrelevant(
    realm: Seq<char>,
    service: Seq<char>,
    scope: Seq<char>,
    kinds1: Seq<int>,
    leads1: Seq<nat>,
    trails1: Seq<nat>,
    kinds2: Seq<int>,
    leads2: Seq<nat>,
    trails2: Seq<nat>,
)
    requires
        plain_value(realm),
        plain_value(service),
        plain_value(scope),
        kinds1.len() == 3 && leads1.len() == 3 && trails1.len() == 3,
        kinds2.len() == 3 && leads2.len() == 3 && trails2.len() == 3,
        forall|i: int| 0 <= i < 3 ==> 0 <= #[trigger] kinds1[i] < 3,
        forall|i: int| 0 <= i < 3 ==> 0 <= #[trigger] kinds2[i] < 3,
        kinds1[0] != kinds1[1] && kinds1[0] != kinds1[2] && kinds1[1] != kinds1[2],
        kinds2[0] != kinds2[1] && kinds2[0] != kinds2[2] && kinds2[1] != kinds2[2],
    ensures
        bearer_challenge_spec(challenge_header(realm, service, scope, kinds1, leads1, trails1))
            == bearer_challenge_spec(
            challenge_header(realm, service, scope, kinds2, leads2, trails2),
        ),
{
    law_challenge_order_and_spaces(realm, service, scope, kinds1, leads1, trails1);
    law_challenge_order_and_spaces(realm, service, scope, kinds2, leads2, trails2);
}

/// The token URL is the realm, then the service as the first query
/// parameter when there is one, then the scope (after `&` when a service
/// came before, else after `?`); the service is kept whether or not a
/// scope is present.
pub proof fn law_challenge_url_parameters(realm: Seq<char>, service: Seq<char>, scope: Seq<char>)
    ensures
        service.len() > 0 && scope.len() == 0 ==> challenge_url(
            ChallengeFields { realm, service, scope },
        ) == realm + "?service="@ + service,
        service.len() == 0 && scope.len() > 0 ==> challenge_url(
            ChallengeFields { realm, service, scope },
        ) == realm + "?scope="@ + scope,
        service.len() > 0 && scope.len() > 0 ==> challenge_url(
            ChallengeFields { realm, service, scope },
        ) == realm + "?service="@ + service + "&scope="@ + scope,
        service.len() == 0 && scope.len() == 0 ==> challenge_url(
            ChallengeFields { realm, service, scope },
        ) == realm,
{
    reveal_strlit("?");
    reveal_strlit("&");
    reveal_strlit("service=");
    reveal_strlit("scope=");
    reveal_strlit("?service=");
    reveal_strlit("?scope=");
    reveal_strlit("&scope=");
    let u = challenge_url(ChallengeFields { realm, service, scope });
    if service.len() > 0 && scope.len() == 0 {
        assert(u =~= realm + "?service="@ + service);
    }
    if service.len() == 0 && scope.len() > 0 {
        assert(u =~= realm + "?scope="@ + scope);
    }
    if service.len() > 0 && scope.len() > 0 {
        assert(u =~= realm + "?service="@ + service + "&scope="@ + scope);
    }
}

} // verus!
