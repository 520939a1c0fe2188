use airtips::auth::{jwt_auth, VerifyError};
use airtips::identity::parse_identity;

const SECRET: &str = "test-signing-secret";
const NOW: i64 = 1_700_000_000;
const OWNER: &str = "12345678-9abc-def0-1234-56789abcdef0";

fn make_token_with(
    secret: &str,
    sub: &str,
    username: Option<&str>,
    iat: Option<i64>,
    exp: Option<i64>,
    alg: jsonwebtoken::Algorithm,
) -> String {
    let mut claims = serde_json::Map::new();
    claims.insert(
        "sub".to_string(),
        serde_json::Value::String(sub.to_string()),
    );
    if let Some(u) = username {
        claims.insert(
            "username".to_string(),
            serde_json::Value::String(u.to_string()),
        );
    }
    if let Some(i) = iat {
        claims.insert(
            "iat".to_string(),
            serde_json::Value::Number(serde_json::Number::from(i)),
        );
    }
    if let Some(x) = exp {
        claims.insert(
            "exp".to_string(),
            serde_json::Value::Number(serde_json::Number::from(x)),
        );
    }
    jsonwebtoken::encode(
        &jsonwebtoken::Header::new(alg),
        &serde_json::Value::Object(claims),
        &jsonwebtoken::EncodingKey::from_secret(secret.as_bytes()),
    )
    .unwrap()
}

fn make_token(secret: &str, sub: &str, exp: i64) -> String {
    make_token_with(
        secret,
        sub,
        Some("devin"),
        Some(NOW - 100),
        Some(exp),
        jsonwebtoken::Algorithm::HS256,
    )
}

#[test]
fn valid_token_yields_subject_identity() {
    let token = make_token(SECRET, OWNER, NOW + 3600);
    let user = jwt_auth(&token, SECRET, NOW).unwrap();
    assert_eq!(user.uuid, parse_identity(OWNER).unwrap());
}

#[test]
fn expiry_at_now_is_still_valid() {
    let token = make_token(SECRET, OWNER, NOW);
    assert!(jwt_auth(&token, SECRET, NOW).is_ok());
}

#[test]
fn expired_token_is_rejected() {
    let token = make_token(SECRET, OWNER, NOW - 1);
    assert_eq!(jwt_auth(&token, SECRET, NOW), Err(VerifyError::Expired));
}

#[test]
fn wrong_secret_is_a_signature_failure() {
    let token = make_token("another-secret", OWNER, NOW + 3600);
    assert_eq!(
        jwt_auth(&token, SECRET, NOW),
        Err(VerifyError::BadSignature)
    );
}

#[test]
fn garbage_token_is_malformed() {
    assert_eq!(
        jwt_auth("not a token at all", SECRET, NOW),
        Err(VerifyError::Malformed)
    );
}

#[test]
fn ill_shaped_subject_is_malformed() {
    let token = make_token(SECRET, "not-a-unique-id", NOW + 3600);
    assert_eq!(jwt_auth(&token, SECRET, NOW), Err(VerifyError::Malformed));
}

#[test]
fn missing_username_is_malformed() {
    let token = make_token_with(
        SECRET,
        OWNER,
        None,
        Some(NOW - 100),
        Some(NOW + 3600),
        jsonwebtoken::Algorithm::HS256,
    );
    assert_eq!(jwt_auth(&token, SECRET, NOW), Err(VerifyError::Malformed));
}

#[test]
fn missing_issued_at_is_malformed() {
    let token = make_token_with(
        SECRET,
        OWNER,
        Some("devin"),
        None,
        Some(NOW + 3600),
        jsonwebtoken::Algorithm::HS256,
    );
    assert_eq!(jwt_auth(&token, SECRET, NOW), Err(VerifyError::Malformed));
}

#[test]
fn wrong_algorithm_is_another_failure() {
    let token = make_token_with(
        SECRET,
        OWNER,
        Some("devin"),
        Some(NOW - 100),
        Some(NOW + 3600),
        jsonwebtoken::Algorithm::HS384,
    );
    assert_eq!(jwt_auth(&token, SECRET, NOW), Err(VerifyError::Other));
}

#[test]
fn expired_beats_subject_shape() {
    // An expired token is reported as expired even when its subject is
    // ill-shaped: expiry is checked before the subject.
    let token = make_token(SECRET, "nonsense-subject", NOW - 50);
    assert_eq!(jwt_auth(&token, SECRET, NOW), Err(VerifyError::Expired));
}
