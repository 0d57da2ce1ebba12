use vstd::prelude::*;
use crate::errors::AuthError;

verus! {

/// Number of seconds an issued token stays valid: one hour.
pub const TOKEN_LIFETIME_SECONDS: u64 = 3600;

// Names the outcome of jsonwebtoken::decode over a token and a plain
// HS256 secret, with expiry validation disabled so that the outcome
// depends on the two arguments alone: the (email, exp) claim pair when
// the token is well formed and correctly signed under the secret, and
// None otherwise.
pub uninterp spec fn jwt_decode_of(token: Seq<char>, secret: Seq<char>) -> Option<(Seq<char>, int)>;

/// Relies on jsonwebtoken::encode with an HS256 header and a plain
/// secret key, together with jsonwebtoken::decode as named by
/// `jwt_decode_of`: decoding a token produced here, under the same
/// secret, yields exactly the email and expiry claims that were signed.
/// Signing itself is deterministic HMAC; the error arm of encode is
/// collapsed to `None`.
#[verifier::external_body]
fn encode_claims(email: &str, exp: u64, secret: &str) -> (r: Option<String>)
    ensures
        r matches Some(t) ==> jwt_decode_of(t@, secret@) == Some((email@, exp as int)),
{
    let mut claims = serde_json::Map::new();
    claims.insert("email".to_owned(), serde_json::Value::String(email.to_owned()));
    claims.insert("exp".to_owned(), serde_json::Value::from(exp));
    let header = jsonwebtoken::Header::new(jsonwebtoken::Algorithm::HS256);
    let key = jsonwebtoken::EncodingKey::from_secret(secret.as_bytes());
    jsonwebtoken::encode(&header, &serde_json::Value::Object(claims), &key).ok()
}

/// Relies on chrono::Utc::now for the current Unix timestamp in
/// seconds. Nothing is assumed of the value.
#[verifier::external_body]
fn now_timestamp() -> i64 {
    chrono::Utc::now().timestamp()
}

/// Builds a signed token whose claims are `email` and an expiry exactly
/// one hour past `now`. `Err` only when the signing primitive failed.
pub fn generate_jwt(email: &str, secret: &str, now: u64) -> (r: Result<String, AuthError>)
    requires
        now <= u64::MAX - TOKEN_LIFETIME_SECONDS,
    ensures
        match r {
            Ok(t) => jwt_decode_of(t@, secret@) == Some(
                (email@, now + TOKEN_LIFETIME_SECONDS as int),
            ),
            Err(e) => e == AuthError::Internal,
        },
{
    let exp = now + TOKEN_LIFETIME_SECONDS;
    match encode_claims(email, exp, secret) {
        Some(t) => Ok(t),
        None => Err(AuthError::Internal),
    }
}

/// Whether `token` decodes under `secret` to the claims this library
/// issues: the given email and some expiry at least one token lifetime
/// after the Unix epoch.
pub open spec fn decodes_for_email(token: Seq<char>, secret: Seq<char>, email: Seq<char>) -> bool {
    match jwt_decode_of(token, secret) {
        Some((e, exp)) => e == email && TOKEN_LIFETIME_SECONDS as int <= exp,
        None => false,
    }
}

/// Issues a token for `email` that expires one hour from the current
/// clock reading; `Err` when the clock reading lies outside the
/// supported range or the signing primitive failed.
pub fn issue_token(email: &str, secret: &str) -> (r: Result<String, AuthError>)
    ensures
        match r {
            Ok(t) => decodes_for_email(t@, secret@, email@),
            Err(e) => e == AuthError::Internal,
        },
{
    let now = now_timestamp();
    if now < 0 {
        return Err(AuthError::Internal);
    }
    let now_u = now as u64;
    generate_jwt(email, secret, now_u)
}

} // verus!
