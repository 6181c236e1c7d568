//! The decisions of the registry HTTP client: endpoint URLs, how response
//! statuses and headers become results, and what a fetched manifest is.
use vstd::prelude::*;

use crate::error::{RegistryError, RegistryFault};
use crate::registry::auth::{bearer_challenge_spec, parse_bearer_challenge};
use crate::text::{
    chars_of, contains_between, decimal, find_in, prefix_in, push_decimal, substring, trim,
    trim_bounds, trim_end_char, trim_end_char_bound,
};
use crate::types::{
    RawIndex, RawManifest, MEDIA_TYPE_DOCKER_MANIFEST_LIST, MEDIA_TYPE_OCI_INDEX,
};

verus! {

/// Accept header value covering all manifest media types the server understands.
pub const MANIFEST_ACCEPT: &'static str = "application/vnd.oci.image.manifest.v1+json, application/vnd.oci.image.index.v1+json, application/vnd.docker.distribution.manifest.v2+json, application/vnd.docker.distribution.manifest.list.v2+json, application/json";

// ── Endpoint URLs ────────────────────────────────────────────────────────────

/// The base URL without trailing slashes.
pub fn normalize_base_url(base_url: &str) -> (r: String)
    ensures
        r@ == trim_end_char(base_url@, '/'),
{
    let v = chars_of(base_url);
    let e = trim_end_char_bound(&v, 0, v.len(), '/');
    assert(v@.subrange(0, v@.len() as int) =~= v@);
    substring(base_url, 0, e)
}

/// `{base}/v2/{repository}/manifests/{reference}`.
pub open spec fn manifest_url_spec(base: Seq<char>, repository: Seq<char>, reference: Seq<char>) -> Seq<char> {
    base + "/v2/"@ + repository + "/manifests/"@ + reference
}

/// `{base}/v2/{repository}/blobs/{digest}`.
pub open spec fn blob_url_spec(base: Seq<char>, repository: Seq<char>, digest: Seq<char>) -> Seq<char> {
    base + "/v2/"@ + repository + "/blobs/"@ + digest
}

/// `{base}/v2/{repository}/blobs/uploads/`.
pub open spec fn upload_url_spec(base: Seq<char>, repository: Seq<char>) -> Seq<char> {
    base + "/v2/"@ + repository + "/blobs/uploads/"@
}

/// The pagination query suffix: `&last={last}` when a cursor is given.
pub open spec fn last_param(last: Seq<char>) -> Seq<char> {
    if last.len() > 0 {
        "&last="@ + last
    } else {
        Seq::<char>::empty()
    }
}

/// `{base}/v2/_catalog?n={limit}[&last={last}]`.
pub open spec fn catalog_url_spec(base: Seq<char>, last: Seq<char>, limit: u32) -> Seq<char> {
    base + "/v2/_catalog?n="@ + decimal(limit as nat) + last_param(last)
}

/// `{base}/v2/{repository}/tags/list?n={limit}[&last={last}]`.
pub open spec fn tags_url_spec(base: Seq<char>, repository: Seq<char>, last: Seq<char>, limit: u32) -> Seq<char> {
    base + "/v2/"@ + repository + "/tags/list?n="@ + decimal(limit as nat) + last_param(last)
}

/// The URL of a manifest by tag or digest.
pub fn manifest_url(base: &str, repository: &str, reference: &str) -> (u: String)
    ensures
        u@ == manifest_url_spec(base@, repository@, reference@),
{
    let mut u = String::from_str(base);
    u.append("/v2/");
    u.append(repository);
    u.append("/manifests/");
    u.append(reference);
    u
}

/// The URL of a blob by digest.
pub fn blob_url(base: &str, repository: &str, digest: &str) -> (u: String)
    ensures
        u@ == blob_url_spec(base@, repository@, digest@),
{
    let mut u = String::from_str(base);
    u.append("/v2/");
    u.append(repository);
    u.append("/blobs/");
    u.append(digest);
    u
}

/// The URL that starts a blob upload.
pub fn upload_url(base: &str, repository: &str) -> (u: String)
    ensures
        u@ == upload_url_spec(base@, repository@),
{
    let mut u = String::from_str(base);
    u.append("/v2/");
    u.append(repository);
    u.append("/blobs/uploads/");
    u
}

/// The URL of a page of the repository catalog.
pub fn catalog_url(base: &str, last: &str, limit: u32) -> (u: String)
    ensures
        u@ == catalog_url_spec(base@, last@, limit),
{
    let mut u = String::from_str(base);
    u.append("/v2/_catalog?n=");
    push_decimal(&mut u, limit as u64);
    if last.unicode_len() > 0 {
        u.append("&last=");
        u.append(last);
    }
    assert(u@ =~= catalog_url_spec(base@, last@, limit));
    u
}

/// The URL of a page of a repository's tag list.
pub fn tags_url(base: &str, repository: &str, last: &str, limit: u32) -> (u: String)
    ensures
        u@ == tags_url_spec(base@, repository@, last@, limit),
{
    let mut u = String::from_str(base);
    u.append("/v2/");
    u.append(repository);
    u.append("/tags/list?n=");
    push_decimal(&mut u, limit as u64);
    if last.unicode_len() > 0 {
        u.append("&last=");
        u.append(last);
    }
    assert(u@ =~= tags_url_spec(base@, repository@, last@, limit));
    u
}

/// Where the blob upload is committed: the `Location` of the upload (made
/// absolute against the base URL unless it already is an `http://` or
/// `https://` URL), with the digest added as a query parameter.
pub open spec fn upload_commit_url_spec(base: Seq<char>, location: Seq<char>, digest: Seq<char>) -> Seq<char> {
    let absolute = if "http://"@.is_prefix_of(location) || "https://"@.is_prefix_of(location) {
        location
    } else {
        base + location
    };
    if absolute.contains('?') {
        absolute + "&digest="@ + digest
    } else {
        absolute + "?digest="@ + digest
    }
}

/// The commit URL extends the upload URL with the digest as a query
/// parameter: a relative location is joined to the base URL first; a query
/// the location already carries is extended with `&digest=`, and a location
/// without a query gets `?digest=`.
pub proof fn law_commit_url_extends_query(base: Seq<char>, location: Seq<char>, digest: Seq<char>)
    ensures
        !"http://"@.is_prefix_of(location) && !"https://"@.is_prefix_of(location)
            && location.contains('?') ==> upload_commit_url_spec(base, location, digest) == base
            + location + "&digest="@ + digest,
        ("http://"@.is_prefix_of(location) || "https://"@.is_prefix_of(location))
            && location.contains('?') ==> upload_commit_url_spec(base, location, digest)
            == location + "&digest="@ + digest,
        ("http://"@.is_prefix_of(location) || "https://"@.is_prefix_of(location))
            && !location.contains('?') ==> upload_commit_url_spec(base, location, digest)
            == location + "?digest="@ + digest,
        !"http://"@.is_prefix_of(location) && !"https://"@.is_prefix_of(location) && !base.contains(
            '?',
        ) && !location.contains('?') ==> upload_commit_url_spec(base, location, digest) == base
            + location + "?digest="@ + digest,
{
    let a = base + location;
    if location.contains('?') {
        let i = choose|i: int| 0 <= i < location.len() && location[i] == '?';
        assert(a[base.len() + i] == '?');
        assert(a.contains('?'));
    }
    if !base.contains('?') && !location.contains('?') {
        assert forall|i: int| 0 <= i < a.len() implies a[i] != '?' by {
            if i < base.len() {
                assert(a[i] == base[i]);
            } else {
                assert(a[i] == location[i - base.len()]);
            }
        }
    }
}

/// The URL to PUT a blob's content to, from the upload's `Location` header.
pub fn upload_commit_url(base: &str, location: &str, digest: &str) -> (u: String)
    ensures
        u@ == upload_commit_url_spec(base@, location@, digest@),
{
    let loc = chars_of(location);
    let http = chars_of("http://");
    let https = chars_of("https://");
    assert(loc@.subrange(0, loc@.len() as int) =~= loc@);
    let absolute_already = prefix_in(&loc, 0, loc.len(), &http) || prefix_in(
        &loc,
        0,
        loc.len(),
        &https,
    );
    let mut u = if absolute_already {
        String::from_str(location)
    } else {
        let mut u = String::from_str(base);
        u.append(location);
        u
    };
    let uv = chars_of(u.as_str());
    assert(uv@.subrange(0, uv@.len() as int) =~= uv@);
    if contains_between(&uv, 0, uv.len(), '?') {
        u.append("&digest=");
    } else {
        u.append("?digest=");
    }
    u.append(digest);
    assert(u@ =~= upload_commit_url_spec(base@, location@, digest@));
    u
}

// ── Response statuses ────────────────────────────────────────────────────────

/// What a response status means: success for 200, 201, 202 and 204, else
/// the error for that status. A 404 names the requested resource.
pub open spec fn status_result(status: u16, path: Seq<char>) -> Result<(), RegistryFault> {
    if status == 200 || status == 201 || status == 202 || status == 204 {
        Ok(())
    } else if status == 401 {
        Err(RegistryFault::Unauthorized)
    } else if status == 403 {
        Err(RegistryFault::Forbidden)
    } else if status == 404 {
        Err(RegistryFault::NotFound { resource: path })
    } else if status == 405 {
        Err(RegistryFault::DeleteNotEnabled)
    } else {
        Err(
            RegistryFault::UnexpectedStatus {
                status,
                body: "(body not captured for status "@ + decimal(status as nat) + ")"@,
            },
        )
    }
}

/// A registry result as plain values.
pub open spec fn result_view<T>(r: Result<T, RegistryError>) -> Result<T, RegistryFault> {
    match r {
        Ok(t) => Ok(t),
        Err(e) => Err(e@),
    }
}

/// Map a response status (and the resource that was requested) to a result.
pub fn check_status(status: u16, path: &str) -> (r: Result<(), RegistryError>)
    ensures
        result_view(r) == status_result(status, path@),
{
    if status == 200 || status == 201 || status == 202 || status == 204 {
        Ok(())
    } else if status == 401 {
        Err(RegistryError::Unauthorized)
    } else if status == 403 {
        Err(RegistryError::Forbidden)
    } else if status == 404 {
        Err(RegistryError::NotFound { resource: String::from_str(path) })
    } else if status == 405 {
        Err(RegistryError::DeleteNotEnabled)
    } else {
        let mut body = String::from_str("(body not captured for status ");
        push_decimal(&mut body, status as u64);
        body.append(")");
        let r = Err(RegistryError::UnexpectedStatus { status, body });
        assert(result_view(r) =~~= status_result(status, path@));
        r
    }
}

/// The resource a manifest request names when it is not found:
/// `repository:reference`.
pub open spec fn manifest_resource_spec(repository: Seq<char>, reference: Seq<char>) -> Seq<char> {
    repository + ":"@ + reference
}

/// The resource a manifest request names when it is not found.
pub fn manifest_resource(repository: &str, reference: &str) -> (r: String)
    ensures
        r@ == manifest_resource_spec(repository@, reference@),
{
    let mut r = String::from_str(repository);
    r.append(":");
    r.append(reference);
    r
}

/// What to do after the first response to a GET.
#[derive(Debug, PartialEq, Eq)]
pub enum GetStep {
    /// The response is the result.
    Accept,
    /// The request failed with this error.
    Fail(RegistryError),
    /// Fetch a bearer token from this URL, cache it, and retry once.
    FetchToken(String),
}

/// The step after a first GET response: a 401 with a usable bearer challenge
/// leads to a token fetch, a 401 without one fails as unauthorized, and any
/// other status is checked.
pub fn first_response_step(status: u16, www_authenticate: Option<&str>, path: &str) -> (s:
    GetStep)
    ensures
        status == 401 ==> match s {
            GetStep::FetchToken(u) => www_authenticate matches Some(h) && bearer_challenge_spec(
                h@,
            ) == Some(u@),
            GetStep::Fail(e) => e@ == RegistryFault::Unauthorized && match www_authenticate {
                Some(h) => bearer_challenge_spec(h@) is None,
                None => true,
            },
            GetStep::Accept => false,
        },
        status != 401 ==> match s {
            GetStep::Accept => status_result(status, path@) is Ok,
            GetStep::Fail(e) => status_result(status, path@) == Err::<(), RegistryFault>(e@),
            GetStep::FetchToken(_) => false,
        },
{
    if status == 401 {
        let challenge = match www_authenticate {
            Some(h) => parse_bearer_challenge(h),
            None => None,
        };
        match challenge {
            Some(u) => GetStep::FetchToken(u),
            None => GetStep::Fail(RegistryError::Unauthorized),
        }
    } else {
        match check_status(status, path) {
            Ok(()) => GetStep::Accept,
            Err(e) => GetStep::Fail(e),
        }
    }
}

/// The digest a manifest HEAD reports: a 401 is unauthorized, other statuses
/// are checked, and a successful response must carry `Docker-Content-Digest`.
pub fn head_manifest_result(status: u16, path: &str, digest_header: Option<&str>) -> (r: Result<
    String,
    RegistryError,
>)
    ensures
        match r {
            Ok(d) => status_result(status, path@) is Ok && (digest_header matches Some(h) && d@
                == h@),
            Err(e) => match status_result(status, path@) {
                Err(f) => e@ == f,
                Ok(()) => digest_header is None && e@ == RegistryFault::InvalidResponse(
                    "manifest response missing Docker-Content-Digest header"@,
                ),
            },
        },
{
    if status == 401 {
        return Err(RegistryError::Unauthorized);
    }
    match check_status(status, path) {
        Err(e) => Err(e),
        Ok(()) => match digest_header {
            Some(h) => Ok(String::from_str(h)),
            None => Err(
                RegistryError::InvalidResponse(
                    String::from_str("manifest response missing Docker-Content-Digest header"),
                ),
            ),
        },
    }
}

/// Whether a blob exists, from the status of a HEAD on it: 200 yes, 404 no,
/// 401 unauthorized, anything else unexpected (with no body).
pub fn blob_exists_result(status: u16) -> (r: Result<bool, RegistryError>)
    ensures
        match r {
            Ok(b) => (status == 200 && b) || (status == 404 && !b),
            Err(e) => status != 200 && status != 404 && if status == 401 {
                e@ == RegistryFault::Unauthorized
            } else {
                e@ == RegistryFault::UnexpectedStatus { status, body: Seq::<char>::empty() }
            },
        },
{
    if status == 200 {
        Ok(true)
    } else if status == 404 {
        Ok(false)
    } else if status == 401 {
        Err(RegistryError::Unauthorized)
    } else {
        Err(RegistryError::UnexpectedStatus { status, body: String::new() })
    }
}

/// The upload location from the response that starts a blob upload: a 401
/// is unauthorized, anything but 202 is unexpected, and the response must
/// carry a `Location` header.
pub fn upload_location_result(status: u16, location: Option<&str>) -> (r: Result<
    String,
    RegistryError,
>)
    ensures
        match r {
            Ok(l) => status == 202 && (location matches Some(h) && l@ == h@),
            Err(e) => if status == 401 {
                e@ == RegistryFault::Unauthorized
            } else if status != 202 {
                e@ == RegistryFault::UnexpectedStatus {
                    status,
                    body: "blob upload initiation failed"@,
                }
            } else {
                location is None && e@ == RegistryFault::InvalidResponse(
                    "blob upload POST response missing Location header"@,
                )
            },
        },
{
    if status == 401 {
        return Err(RegistryError::Unauthorized);
    }
    if status != 202 {
        return Err(
            RegistryError::UnexpectedStatus {
                status,
                body: String::from_str("blob upload initiation failed"),
            },
        );
    }
    match location {
        Some(l) => Ok(String::from_str(l)),
        None => Err(
            RegistryError::InvalidResponse(
                String::from_str("blob upload POST response missing Location header"),
            ),
        ),
    }
}

// ── Manifest responses ───────────────────────────────────────────────────────

/// The media type in a `Content-Type` value: what precedes the first `;`,
/// trimmed.
pub open spec fn media_type_of(content_type: Seq<char>) -> Seq<char> {
    match content_type.index_of_first(';') {
        Some(p) => trim(content_type.take(p)),
        None => trim(content_type),
    }
}

/// The media type of a response, from its `Content-Type` header or, when it
/// has none, from `default`.
pub fn response_media_type(content_type: Option<&str>, default: &str) -> (r: String)
    ensures
        r@ == media_type_of(
            match content_type {
                Some(c) => c@,
                None => default@,
            },
        ),
{
    let text = match content_type {
        Some(c) => c,
        None => default,
    };
    let v = chars_of(text);
    let n = v.len();
    assert(v@.subrange(0, n as int) =~= v@);
    let end = match find_in(&v, 0, n, ';') {
        Some(p) => p,
        None => n,
    };
    let (a, b) = trim_bounds(&v, 0, end);
    substring(text, a, b)
}

/// The digest a manifest response reports: its `Docker-Content-Digest`
/// header, else the reference it was fetched by.
pub fn response_digest(digest_header: Option<&str>, reference: &str) -> (d: String)
    ensures
        d@ == match digest_header {
            Some(h) => h@,
            None => reference@,
        },
{
    match digest_header {
        Some(h) => String::from_str(h),
        None => String::from_str(reference),
    }
}

/// The digest a manifest PUT reports, or empty when the header is missing.
pub fn pushed_digest(digest_header: Option<&str>) -> (d: String)
    ensures
        d@ == match digest_header {
            Some(h) => h@,
            None => Seq::<char>::empty(),
        },
{
    match digest_header {
        Some(h) => String::from_str(h),
        None => String::new(),
    }
}

/// Whether a media type denotes an image index (OCI) or manifest list (Docker).
pub open spec fn is_index_media_type_spec(media_type: Seq<char>) -> bool {
    media_type == MEDIA_TYPE_OCI_INDEX@ || media_type == MEDIA_TYPE_DOCKER_MANIFEST_LIST@
}

/// Whether a media type denotes an image index (OCI) or manifest list (Docker).
pub fn is_index_media_type(media_type: &str) -> (b: bool)
    ensures
        b == is_index_media_type_spec(media_type@),
{
    let v = chars_of(media_type);
    let oci = chars_of(MEDIA_TYPE_OCI_INDEX);
    let docker = chars_of(MEDIA_TYPE_DOCKER_MANIFEST_LIST);
    assert(v@.subrange(0, v@.len() as int) =~= v@);
    crate::text::range_equals(&v, 0, v.len(), &oci) || crate::text::range_equals(
        &v,
        0,
        v.len(),
        &docker,
    )
}

/// The media type reported for a single-platform manifest: the response's
/// content type, or the manifest's own `mediaType` when the response had none.
pub fn single_manifest_media_type(content_type: String, manifest: &RawManifest) -> (m: String)
    ensures
        m@ == if content_type@.len() == 0 {
            manifest.media_type@
        } else {
            content_type@
        },
{
    if content_type.as_str().unicode_len() == 0 {
        manifest.media_type.clone()
    } else {
        content_type
    }
}

/// Raw manifest bytes returned by a manifest fetch, used for re-tagging and copying.
#[derive(Debug, PartialEq, Eq)]
pub struct RawManifestBytes {
    pub digest: String,
    pub content_type: String,
    pub bytes: Vec<u8>,
}

/// The parsed result of a manifest fetch — either a single-platform image or
/// a multi-platform image index.
#[derive(Debug, PartialEq, Eq)]
#[allow(inconsistent_fields)]
pub enum ManifestResult {
    Single { digest: String, media_type: String, inner: RawManifest },
    Index { digest: String, media_type: String, inner: RawIndex },
}

/// A manifest body parsed by the shape its content type calls for.
#[derive(Debug)]
pub enum ManifestBody {
    /// Parsed as an image index (the content type is an index type).
    Index(RawIndex),
    /// Parsed as a single-platform manifest (any other content type).
    Single(RawManifest),
}

/// The result of fetching a manifest: its digest and parsed body, with the
/// response's content type as the media type of an index, and for a
/// single-platform manifest the content type, or when the response named
/// none, the manifest's own media type.
pub fn manifest_result(digest: String, content_type: String, body: ManifestBody) -> (r:
    ManifestResult)
    ensures
        match body {
            ManifestBody::Index(inner) => r == ManifestResult::Index {
                digest,
                media_type: content_type,
                inner,
            },
            ManifestBody::Single(inner) => r matches ManifestResult::Single {
                digest: d,
                media_type: m,
                inner: i,
            } && d == digest && i == inner && m@ == if content_type@.len() == 0 {
                inner.media_type@
            } else {
                content_type@
            },
        },
{
    match body {
        ManifestBody::Index(inner) => ManifestResult::Index { digest, media_type: content_type, inner },
        ManifestBody::Single(inner) => {
            let media_type = single_manifest_media_type(content_type, &inner);
            ManifestResult::Single { digest, media_type, inner }
        },
    }
}

} // verus!
