//! Signing keys and the checked decoding of a token with one.
use vstd::prelude::*;

use crate::auth::jwt::{
    claim_lookup, jwt_claims, jwt_header, raw_claims_view, AuthError, ClaimView, RawClaim,
    ValidationPolicy,
};
use std::collections::HashSet;

verus! {

/// A signing key of a key set, as the base64url fields of its JWK.
#[derive(Debug, PartialEq, Eq)]
pub enum JwkKey {
    /// An RSA key: modulus and exponent.
    Rsa { n: String, e: String },
    /// An elliptic curve key: the point's coordinates.
    Ec { x: String, y: String },
    /// An octet key pair (EdDSA): the public key.
    Okp { x: String },
    /// A symmetric key: the secret.
    Oct { k: String },
}

/// A signing key, as plain values.
pub enum JwkView {
    Rsa { n: Seq<char>, e: Seq<char> },
    Ec { x: Seq<char>, y: Seq<char> },
    Okp { x: Seq<char> },
    Oct { k: Seq<char> },
}

impl View for JwkKey {
    type V = JwkView;

    open spec fn view(&self) -> JwkView {
        match self {
            JwkKey::Rsa { n, e } => JwkView::Rsa { n: n@, e: e@ },
            JwkKey::Ec { x, y } => JwkView::Ec { x: x@, y: y@ },
            JwkKey::Okp { x } => JwkView::Okp { x: x@ },
            JwkKey::Oct { k } => JwkView::Oct { k: k@ },
        }
    }
}

/// Whether a token's signature verifies, under the named algorithm, with
/// the key built from a JWK: a function of these values alone.
pub uninterp spec fn jwt_signature_valid(token: Seq<char>, key: JwkView, alg: Seq<char>) -> bool;

#[verifier::external_type_specification]
#[verifier::external_body]
pub struct ExDecodingKey(jsonwebtoken::DecodingKey);

/// A `jsonwebtoken` decoding key, with the JWK it was built from. Only the
/// constructors below, which build the key from those fields, make one.
pub struct VerifyingKey {
    key: jsonwebtoken::DecodingKey,
    source: Ghost<JwkView>,
}

impl VerifyingKey {
    /// The JWK the key was built from.
    pub closed spec fn source(&self) -> JwkView {
        self.source@
    }
}

/// Calls `jsonwebtoken::DecodingKey::from_rsa_components`, which fails (with
/// a base64 error's text) when a component is not base64url.
#[verifier::external_body]
fn rsa_key(n: &str, e: &str) -> (r: Result<VerifyingKey, String>)
    ensures
        r matches Ok(k) ==> k.source() == (JwkView::Rsa { n: n@, e: e@ }),
        r matches Err(m) ==> m@ != "InvalidIssuer"@ && m@ != "InvalidAudience"@,
{
    let source = Ghost(JwkView::Rsa { n: n@, e: e@ });
    let key = jsonwebtoken::DecodingKey::from_rsa_components(n, e).map_err(|err| err.to_string())?;
    Ok(VerifyingKey { key, source })
}

/// Calls `jsonwebtoken::DecodingKey::from_ec_components`, which fails (with
/// a base64 error's text) when a coordinate is not base64url.
#[verifier::external_body]
fn ec_key(x: &str, y: &str) -> (r: Result<VerifyingKey, String>)
    ensures
        r matches Ok(k) ==> k.source() == (JwkView::Ec { x: x@, y: y@ }),
        r matches Err(m) ==> m@ != "InvalidIssuer"@ && m@ != "InvalidAudience"@,
{
    let source = Ghost(JwkView::Ec { x: x@, y: y@ });
    let key = jsonwebtoken::DecodingKey::from_ec_components(x, y).map_err(|err| err.to_string())?;
    Ok(VerifyingKey { key, source })
}

/// Calls `jsonwebtoken::DecodingKey::from_ed_components`, which fails (with
/// a base64 error's text) when the key is not base64url.
#[verifier::external_body]
fn ed_key(x: &str) -> (r: Result<VerifyingKey, String>)
    ensures
        r matches Ok(k) ==> k.source() == (JwkView::Okp { x: x@ }),
        r matches Err(m) ==> m@ != "InvalidIssuer"@ && m@ != "InvalidAudience"@,
{
    let source = Ghost(JwkView::Okp { x: x@ });
    let key = jsonwebtoken::DecodingKey::from_ed_components(x).map_err(|err| err.to_string())?;
    Ok(VerifyingKey { key, source })
}

/// Calls `jsonwebtoken::DecodingKey::from_jwk` on an octet JWK with the
/// given secret, which fails (with a base64 error's text) when it is not
/// base64url.
#[verifier::external_body]
fn oct_key(k: &str) -> (r: Result<VerifyingKey, String>)
    ensures
        r matches Ok(key) ==> key.source() == (JwkView::Oct { k: k@ }),
        r matches Err(m) ==> m@ != "InvalidIssuer"@ && m@ != "InvalidAudience"@,
{
    let source = Ghost(JwkView::Oct { k: k@ });
    let params = jsonwebtoken::jwk::OctetKeyParameters {
        key_type: jsonwebtoken::jwk::OctetKeyType::Octet,
        value: k.to_string(),
    };
    let jwk = jsonwebtoken::jwk::Jwk {
        common: jsonwebtoken::jwk::CommonParameters::default(),
        algorithm: jsonwebtoken::jwk::AlgorithmParameters::OctetKey(params),
    };
    let key = jsonwebtoken::DecodingKey::from_jwk(&jwk).map_err(|err| err.to_string())?;
    Ok(VerifyingKey { key, source })
}

/// The key to verify signatures with, built from the JWK's fields as
/// `DecodingKey::from_jwk` builds it; a malformed key refuses the token.
pub fn verifying_key(key: &JwkKey) -> (r: Result<VerifyingKey, AuthError>)
    ensures
        r matches Ok(k) ==> k.source() == key@,
        r matches Err(e) ==> (e matches AuthError::InvalidToken(m) && m@ != "InvalidIssuer"@ && m@
            != "InvalidAudience"@),
{
    let built = match key {
        JwkKey::Rsa { n, e } => rsa_key(n.as_str(), e.as_str()),
        JwkKey::Ec { x, y } => ec_key(x.as_str(), y.as_str()),
        JwkKey::Okp { x } => ed_key(x.as_str()),
        JwkKey::Oct { k } => oct_key(k.as_str()),
    };
    match built {
        Ok(k) => Ok(k),
        Err(m) => Err(AuthError::InvalidToken(m)),
    }
}

/// Calls `jsonwebtoken::decode` with the key, a `Validation::new` of the
/// named algorithm, the policy's audience (checked only when the policy
/// says so) and issuer, and gives each claim of the payload as its name,
/// its text when it is a string (`Value::as_str`) and whether it is `null`
/// (`Value::is_null`); or the error's text. Whether a token is accepted
/// also rests on the clock (expiry), so the outcome is not named; what
/// holds of every outcome: a header that does not decode is refused; an
/// accepted token's header names the algorithm asked for and its signature
/// verifies with this key under it; the claims given back are the
/// payload's; an accepted token's string `iss` is the policy's issuer when
/// one is set; when the audience is checked, an accepted token's string
/// `aud` is the policy's audience; and a refusal for the issuer
/// (`InvalidIssuer`) or the audience (`InvalidAudience`) comes only when
/// that check is on.
#[verifier::external_body]
pub(crate) fn decode_claims(
    token: &str,
    key: &VerifyingKey,
    alg: &str,
    policy: &ValidationPolicy,
) -> (r: Result<Vec<RawClaim>, String>)
    ensures
        jwt_header(token@) is Err ==> r is Err,
        r is Ok ==> (jwt_header(token@) matches Ok((_, a)) && a == alg@),
        r is Ok ==> jwt_signature_valid(token@, key.source(), alg@),
        r matches Ok(v) ==> raw_claims_view(v@) == jwt_claims(token@),
        r is Ok ==> (policy.issuer matches Some(i) ==> (claim_lookup(jwt_claims(token@), "iss"@)
            matches Some(ClaimView::Text(x)) ==> x == i@)),
        r is Ok ==> (policy.check_audience ==> (claim_lookup(jwt_claims(token@), "aud"@)
            matches Some(ClaimView::Text(x)) ==> (policy.audience matches Some(a) && x == a@))),
        r matches Err(m) && m@ == "InvalidIssuer"@ ==> policy.issuer is Some,
        r matches Err(m) && m@ == "InvalidAudience"@ ==> policy.check_audience,
{
    let alg = alg.parse::<jsonwebtoken::Algorithm>().map_err(|e| e.to_string())?;
    let mut v = jsonwebtoken::Validation::new(alg);
    v.validate_aud = policy.check_audience;
    v.aud = policy.audience.clone().map(|a| HashSet::from([a]));
    v.iss = policy.issuer.clone().map(|i| HashSet::from([i]));
    let data = jsonwebtoken::decode::<serde_json::Map<String, serde_json::Value>>(token, &key.key, &v)
        .map_err(|e| e.to_string())?;
    Ok(data.claims.into_iter().map(|(k, c)| (k, c.as_str().map(String::from), c.is_null())).collect())
}

} // verus!
