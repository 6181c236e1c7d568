use jsonwebtoken::{encode, get_current_timestamp, Algorithm, EncodingKey, Header};
use registry_mcp::auth::jwt::{
    claims_from_entries, identity_from_decoded, identity_of_token, AuthError, ClaimValue, JwkKey,
};
use registry_mcp::config::AuthConfig;
use serde_json::Value;

fn config(issuer: &str, audience: &str) -> AuthConfig {
    AuthConfig {
        enabled: true,
        issuer: issuer.into(),
        jwks_uri: "https://auth.example.com/jwks.json".into(),
        audience: audience.into(),
        authorization_endpoint: String::new(),
        token_endpoint: String::new(),
        registration_endpoint: String::new(),
    }
}

/// base64url of the bytes "secret".
fn secret_key() -> JwkKey {
    JwkKey::Oct { k: "c2VjcmV0".into() }
}

fn token(secret: &[u8], claims: &[(&str, Value)]) -> String {
    let mut map = serde_json::Map::new();
    map.insert("exp".into(), Value::from(get_current_timestamp() + 3600));
    for (k, v) in claims {
        map.insert((*k).into(), v.clone());
    }
    encode(&Header::new(Algorithm::HS256), &map, &EncodingKey::from_secret(secret)).unwrap()
}

fn text(s: &str) -> Value {
    Value::String(s.into())
}

#[test]
fn valid_token_gives_its_identity() {
    let t = token(
        b"secret",
        &[
            ("sub", text("user-1")),
            ("iss", text("https://auth.example.com")),
            ("email", text("u@example.com")),
            ("name", text("User One")),
        ],
    );
    let id = identity_of_token(&t, &secret_key(), &config("https://auth.example.com", "")).unwrap();
    assert_eq!(id.sub, "user-1");
    assert_eq!(id.email.as_deref(), Some("u@example.com"));
    assert_eq!(id.display_name.as_deref(), Some("User One"));
}

#[test]
fn wrong_key_issuer_or_audience_is_refused() {
    let claims = [("sub", text("user-1")), ("iss", text("https://auth.example.com"))];
    let t = token(b"other", &claims);
    let cfg = config("https://auth.example.com", "");
    assert!(matches!(identity_of_token(&t, &secret_key(), &cfg), Err(AuthError::InvalidToken(_))));
    let t = token(b"secret", &claims);
    let other_issuer = config("https://elsewhere.example.com", "");
    assert!(matches!(
        identity_of_token(&t, &secret_key(), &other_issuer),
        Err(AuthError::InvalidToken(_))
    ));
    let with_audience = config("https://auth.example.com", "registry");
    let t = token(
        b"secret",
        &[("sub", text("user-1")), ("iss", text("https://auth.example.com")), ("aud", text("other"))],
    );
    assert!(matches!(
        identity_of_token(&t, &secret_key(), &with_audience),
        Err(AuthError::InvalidToken(_))
    ));
}

#[test]
fn malformed_token_is_refused() {
    let r = identity_of_token("not-a-jwt", &secret_key(), &config("", ""));
    assert!(matches!(r, Err(AuthError::InvalidToken(_))));
}

#[test]
fn token_without_subject_is_refused() {
    let t = token(b"secret", &[("iss", text("https://auth.example.com"))]);
    let r = identity_of_token(&t, &secret_key(), &config("https://auth.example.com", ""));
    assert_eq!(r, Err(AuthError::InvalidToken("JSON error: missing field `sub`".into())));
}

#[test]
fn claims_are_read_by_name() {
    let entries = vec![
        ("iss".to_string(), ClaimValue::Text("i".into())),
        ("sub".to_string(), ClaimValue::Text("s".into())),
        ("email".to_string(), ClaimValue::Null),
        ("preferred_username".to_string(), ClaimValue::Text("p".into())),
        ("name".to_string(), ClaimValue::Text("n".into())),
    ];
    let c = claims_from_entries(&entries).unwrap();
    assert_eq!((c.sub.as_str(), c.iss.as_str(), c.email), ("s", "i", None));
    let id = identity_from_decoded(Ok(entries)).unwrap();
    assert_eq!(id.display_name.as_deref(), Some("p"));
    let bad = vec![
        ("sub".to_string(), ClaimValue::Text("s".into())),
        ("iss".to_string(), ClaimValue::Other),
    ];
    assert_eq!(
        claims_from_entries(&bad),
        Err("JSON error: invalid type for field `iss`, expected a string".to_string())
    );
    assert_eq!(
        identity_from_decoded(Err("ExpiredSignature".into())),
        Err(AuthError::InvalidToken("ExpiredSignature".into()))
    );
}

#[test]
fn configured_audience_is_checked() {
    let cfg = config("https://auth.example.com", "registry");
    let good = token(
        b"secret",
        &[("sub", text("u")), ("iss", text("https://auth.example.com")), ("aud", text("registry"))],
    );
    assert_eq!(identity_of_token(&good, &secret_key(), &cfg).unwrap().sub, "u");
    let no_issuer_check = config("", "");
    let other = token(b"secret", &[("sub", text("u")), ("iss", text("https://anyone"))]);
    assert_eq!(identity_of_token(&other, &secret_key(), &no_issuer_check).unwrap().sub, "u");
}

#[test]
fn refusals_are_invalid_token_errors() {
    let t = token(b"secret", &[("sub", text("u")), ("iss", text("https://other"))]);
    let cfg = config("https://auth.example.com", "");
    assert_eq!(
        identity_of_token(&t, &secret_key(), &cfg),
        Err(AuthError::InvalidToken("InvalidIssuer".into()))
    );
    let bad_key = JwkKey::Rsa { n: "not base64!".into(), e: "AQAB".into() };
    assert!(matches!(identity_of_token(&t, &bad_key, &cfg), Err(AuthError::InvalidToken(_))));
    let with_aud = token(
        b"secret",
        &[("sub", text("u")), ("iss", text("https://auth.example.com")), ("aud", text("x"))],
    );
    assert_eq!(
        identity_of_token(&with_aud, &secret_key(), &config("https://auth.example.com", "y")),
        Err(AuthError::InvalidToken("InvalidAudience".into()))
    );
}
