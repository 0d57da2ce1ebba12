use auth_core::hashing::{hash_password, hashed_password_verifies, verify_password};
use auth_core::token::{generate_jwt, issue_token};

#[test]
fn hash_verify_round_trip() {
    let h = hash_password("pw1").expect("hashing must succeed");
    assert!(verify_password("pw1", &h));
    assert!(!verify_password("wrong", &h));
}

#[test]
fn verify_against_other_hash_fails() {
    let h2 = hash_password("pw2").expect("hashing must succeed");
    assert!(!verify_password("pw1", &h2));
    assert!(verify_password("pw2", &h2));
}

#[test]
fn hashed_password_verifies_reports_true() {
    assert_eq!(hashed_password_verifies("some password"), Some(true));
}

#[test]
fn hash_is_salted_not_plaintext() {
    let a = hash_password("pw1").unwrap();
    let b = hash_password("pw1").unwrap();
    assert_ne!(a, "pw1");
    // bcrypt salts each hash, so two hashes of one password differ
    assert_ne!(a, b);
    assert!(verify_password("pw1", &a));
    assert!(verify_password("pw1", &b));
}

fn decode_claims(token: &str, secret: &str) -> (String, u64) {
    let key = jsonwebtoken::DecodingKey::from_secret(secret.as_bytes());
    let mut validation = jsonwebtoken::Validation::new(jsonwebtoken::Algorithm::HS256);
    validation.validate_exp = false;
    let data = jsonwebtoken::decode::<serde_json::Value>(token, &key, &validation)
        .expect("an issued token must decode under its own secret");
    let email = data.claims.get("email").and_then(|v| v.as_str()).unwrap().to_string();
    let exp = data.claims.get("exp").and_then(|v| v.as_u64()).unwrap();
    (email, exp)
}

#[test]
fn token_decodes_to_email_and_exp_one_hour_later() {
    let now: u64 = 1_700_000_000;
    let token = generate_jwt("a@x.com", "topsecret", now).expect("signing must succeed");
    let (email, exp) = decode_claims(&token, "topsecret");
    assert_eq!(email, "a@x.com");
    assert_eq!(exp, now + 3600);
}

#[test]
fn token_rejected_under_wrong_secret() {
    let token = generate_jwt("a@x.com", "topsecret", 1_700_000_000).unwrap();
    let key = jsonwebtoken::DecodingKey::from_secret("other".as_bytes());
    let mut validation = jsonwebtoken::Validation::new(jsonwebtoken::Algorithm::HS256);
    validation.validate_exp = false;
    let r = jsonwebtoken::decode::<serde_json::Value>(&token, &key, &validation);
    assert!(r.is_err());
}

#[test]
fn issued_token_expires_one_hour_from_the_clock() {
    let before = jsonwebtoken::get_current_timestamp();
    let token = issue_token("a@x.com", "topsecret").expect("issuing must succeed");
    let after = jsonwebtoken::get_current_timestamp();
    let (email, exp) = decode_claims(&token, "topsecret");
    assert_eq!(email, "a@x.com");
    assert!(exp >= before + 3600 && exp <= after + 3600);
}
