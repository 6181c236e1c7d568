use registry_mcp::config::RegistryConfig;
use registry_mcp::error::RegistryError;
use registry_mcp::registry::auth::{
    basic_auth_header, cache_token, clear_token, credentials_encodable, parse_bearer_challenge,
    resolve_auth_header, select_token, token_refresh, token_request_authorization, TokenCache,
    TokenResponse,
};
use registry_mcp::registry::client::{
    blob_exists_result, blob_url, catalog_url, check_status, first_response_step,
    head_manifest_result, is_index_media_type, manifest_url, normalize_base_url, pushed_digest,
    response_digest, response_media_type, tags_url, upload_commit_url, upload_location_result,
    upload_url, GetStep,
};

fn cfg(bearer: &str, user: &str, pass: &str) -> RegistryConfig {
    RegistryConfig {
        base_url: "https://registry.example.com".to_string(),
        username: user.to_string(),
        password: pass.to_string(),
        bearer_token: bearer.to_string(),
        insecure_skip_verify: false,
        ca_cert_file: String::new(),
    }
}

#[test]
fn basic_header_encodes_credentials() {
    assert_eq!(basic_auth_header("user", "pass"), "Basic dXNlcjpwYXNz");
    assert_eq!(basic_auth_header("usér", "p"), "Basic dXPDqXI6cA==");
    assert!(credentials_encodable("user", "pass"));
}

#[test]
fn bearer_challenge_full() {
    let h = r#"Bearer realm="https://auth.docker.io/token",service="registry.docker.io",scope="repository:library/nginx:pull""#;
    assert_eq!(
        parse_bearer_challenge(h).unwrap(),
        "https://auth.docker.io/token?service=registry.docker.io&scope=repository:library/nginx:pull"
    );
}

#[test]
fn bearer_challenge_scope_only_and_spaces() {
    let h = r#"Bearer realm="https://a/t" , scope="s""#;
    assert_eq!(parse_bearer_challenge(h).unwrap(), "https://a/t?scope=s");
}

#[test]
fn bearer_challenge_realm_only() {
    assert_eq!(parse_bearer_challenge(r#"Bearer realm="https://a/t""#).unwrap(), "https://a/t");
}

#[test]
fn bearer_challenge_rejects() {
    assert_eq!(parse_bearer_challenge(r#"Basic realm="x""#), None);
    assert_eq!(parse_bearer_challenge(r#"Bearer service="x""#), None);
    assert_eq!(parse_bearer_challenge(""), None);
}

#[test]
fn bearer_challenge_last_field_wins() {
    let h = r#"Bearer realm="a",realm="b""#;
    assert_eq!(parse_bearer_challenge(h).unwrap(), "b");
}

#[test]
fn auth_header_priority() {
    let mut cache = TokenCache::new();
    assert_eq!(resolve_auth_header(&cfg("", "", ""), &cache), None);
    assert_eq!(
        resolve_auth_header(&cfg("", "user", "pass"), &cache).unwrap(),
        "Basic dXNlcjpwYXNz"
    );
    assert_eq!(resolve_auth_header(&cfg("", "user", ""), &cache), None);
    cache_token(&mut cache, "tok".to_string());
    assert_eq!(cache.token(), Some("tok"));
    assert_eq!(resolve_auth_header(&cfg("", "user", "pass"), &cache).unwrap(), "Bearer tok");
    assert_eq!(resolve_auth_header(&cfg("static", "user", "pass"), &cache).unwrap(), "Bearer static");
    clear_token(&mut cache);
    assert_eq!(cache.token(), None);
    assert_eq!(
        resolve_auth_header(&cfg("", "user", "pass"), &cache).unwrap(),
        "Basic dXNlcjpwYXNz"
    );
}

#[test]
fn token_endpoint_choices() {
    assert_eq!(token_request_authorization(&cfg("", "u", "")), None);
    assert_eq!(token_request_authorization(&cfg("", "user", "pass")).unwrap(), "Basic dXNlcjpwYXNz");
    let t = select_token(TokenResponse { token: Some("a".into()), access_token: Some("b".into()) });
    assert_eq!(t.unwrap(), "a");
    let t = select_token(TokenResponse { token: None, access_token: Some("b".into()) });
    assert_eq!(t.unwrap(), "b");
    let t = select_token(TokenResponse { token: None, access_token: None });
    assert_eq!(t.unwrap_err(), "Bearer token response contained no token field");
}

#[test]
fn endpoint_urls() {
    assert_eq!(normalize_base_url("https://r.example.com//"), "https://r.example.com");
    assert_eq!(manifest_url("https://r", "a/b", "latest"), "https://r/v2/a/b/manifests/latest");
    assert_eq!(blob_url("https://r", "a", "sha256:1"), "https://r/v2/a/blobs/sha256:1");
    assert_eq!(upload_url("https://r", "a"), "https://r/v2/a/blobs/uploads/");
    assert_eq!(catalog_url("https://r", "", 100), "https://r/v2/_catalog?n=100");
    assert_eq!(catalog_url("https://r", "x/y", 5), "https://r/v2/_catalog?n=5&last=x/y");
    assert_eq!(tags_url("https://r", "a", "", 1000), "https://r/v2/a/tags/list?n=1000");
    assert_eq!(tags_url("https://r", "a", "v1", 7), "https://r/v2/a/tags/list?n=7&last=v1");
}

#[test]
fn upload_commit_urls() {
    assert_eq!(
        upload_commit_url("https://r", "/v2/a/blobs/uploads/123", "sha256:9"),
        "https://r/v2/a/blobs/uploads/123?digest=sha256:9"
    );
    assert_eq!(
        upload_commit_url("https://r", "https://s/up?_state=x", "sha256:9"),
        "https://s/up?_state=x&digest=sha256:9"
    );
    assert_eq!(
        upload_commit_url("https://r", "http://s/up", "d"),
        "http://s/up?digest=d"
    );
}

#[test]
fn status_mapping() {
    for s in [200u16, 201, 202, 204] {
        assert_eq!(check_status(s, "/p"), Ok(()));
    }
    assert_eq!(check_status(401, "/p"), Err(RegistryError::Unauthorized));
    assert_eq!(check_status(403, "/p"), Err(RegistryError::Forbidden));
    assert_eq!(
        check_status(404, "/v2/a/manifests/x"),
        Err(RegistryError::NotFound { resource: "/v2/a/manifests/x".into() })
    );
    assert_eq!(check_status(405, "/p"), Err(RegistryError::DeleteNotEnabled));
    assert_eq!(
        check_status(500, "/p"),
        Err(RegistryError::UnexpectedStatus {
            status: 500,
            body: "(body not captured for status 500)".into()
        })
    );
}

#[test]
fn error_messages() {
    assert_eq!(RegistryError::NotFound { resource: "x".into() }.message(), "not found: x");
    assert_eq!(
        RegistryError::UnexpectedStatus { status: 418, body: "tea".into() }.message(),
        "registry returned HTTP 418: tea"
    );
    assert_eq!(RegistryError::Transport("boom".into()).message(), "HTTP transport error: boom");
    assert_eq!(
        RegistryError::InvalidResponse("bad".into()).message(),
        "invalid registry response: bad"
    );
    assert_eq!(
        RegistryError::Unauthorized.message(),
        "registry authentication failed — check credentials"
    );
}

#[test]
fn get_retry_steps() {
    assert_eq!(first_response_step(200, None, "/p"), GetStep::Accept);
    assert_eq!(first_response_step(401, None, "/p"), GetStep::Fail(RegistryError::Unauthorized));
    assert_eq!(
        first_response_step(401, Some(r#"Bearer realm="https://a/t""#), "/p"),
        GetStep::FetchToken("https://a/t".into())
    );
    assert_eq!(
        first_response_step(401, Some("Basic realm=x"), "/p"),
        GetStep::Fail(RegistryError::Unauthorized)
    );
    assert_eq!(first_response_step(403, None, "/p"), GetStep::Fail(RegistryError::Forbidden));
}

#[test]
fn head_and_blob_and_upload_results() {
    assert_eq!(head_manifest_result(200, "/p", Some("sha256:1")).unwrap(), "sha256:1");
    assert_eq!(
        head_manifest_result(200, "/p", None),
        Err(RegistryError::InvalidResponse(
            "manifest response missing Docker-Content-Digest header".into()
        ))
    );
    assert_eq!(head_manifest_result(401, "/p", Some("d")), Err(RegistryError::Unauthorized));
    assert_eq!(blob_exists_result(200), Ok(true));
    assert_eq!(blob_exists_result(404), Ok(false));
    assert_eq!(blob_exists_result(401), Err(RegistryError::Unauthorized));
    assert_eq!(
        blob_exists_result(500),
        Err(RegistryError::UnexpectedStatus { status: 500, body: String::new() })
    );
    assert_eq!(upload_location_result(202, Some("/up")).unwrap(), "/up");
    assert_eq!(
        upload_location_result(200, Some("/up")),
        Err(RegistryError::UnexpectedStatus {
            status: 200,
            body: "blob upload initiation failed".into()
        })
    );
    assert_eq!(
        upload_location_result(202, None),
        Err(RegistryError::InvalidResponse(
            "blob upload POST response missing Location header".into()
        ))
    );
    assert_eq!(upload_location_result(401, None), Err(RegistryError::Unauthorized));
}

#[test]
fn manifest_response_headers() {
    assert_eq!(
        response_media_type(Some("application/vnd.oci.image.index.v1+json; charset=utf-8"), ""),
        "application/vnd.oci.image.index.v1+json"
    );
    assert_eq!(response_media_type(None, "application/octet-stream"), "application/octet-stream");
    assert_eq!(response_media_type(None, ""), "");
    assert_eq!(response_digest(Some("sha256:1"), "latest"), "sha256:1");
    assert_eq!(response_digest(None, "latest"), "latest");
    assert_eq!(pushed_digest(None), "");
    assert!(is_index_media_type("application/vnd.oci.image.index.v1+json"));
    assert!(is_index_media_type("application/vnd.docker.distribution.manifest.list.v2+json"));
    assert!(!is_index_media_type("application/vnd.oci.image.manifest.v1+json"));
}

#[test]
fn bearer_challenge_order_does_not_matter() {
    let a = parse_bearer_challenge(r#"Bearer scope="s", service="v", realm="r""#);
    let b = parse_bearer_challenge(r#"Bearer realm="r",service="v",  scope="s" "#);
    assert_eq!(a, Some("r?service=v&scope=s".to_string()));
    assert_eq!(a, b);
}

#[test]
fn token_refresh_caches_or_fails() {
    let mut cache = TokenCache::new();
    assert_eq!(token_refresh(&mut cache, Ok("t1".into())), Ok(()));
    assert_eq!(cache.token(), Some("t1"));
    assert_eq!(
        token_refresh(&mut cache, Err("no token".into())),
        Err(RegistryError::Unauthorized)
    );
    assert_eq!(cache.token(), None);
}
