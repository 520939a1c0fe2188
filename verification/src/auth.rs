//! The credential verifier: from a bearer token to a caller identity.
//!
//! Verification is a stateless function of the token string, the signing
//! secret, and the current time (integer seconds since the epoch).  The
//! symmetric-signature and structure check is delegated to the token
//! library behind one trusted wrapper; the expiry check and the shape check
//! of the subject claim are done here, in verified code.  Failures are
//! classified for diagnostics only: callers surface every class uniformly
//! as an unauthorized outcome, so nothing caller-visible depends on the
//! class.

use vstd::prelude::*;
use crate::identity::{spec_parse_identity, parse_identity, Identity};
use jsonwebtoken::{decode, Algorithm, DecodingKey, Validation};
use jsonwebtoken::errors::ErrorKind;
use serde_json::Value;

verus! {

/// Abstract value of the claims a well-formed token carries.
#[verifier::ext_equal]
pub ghost struct ClaimsView {
    pub sub: Seq<char>,
    pub username: Seq<char>,
    pub iat: i64,
    pub exp: i64,
}

/// The claims of a structurally well-formed, correctly signed token:
/// subject, username, issued-at and expiry (both integer seconds since the
/// epoch, per the numeric-date convention).
#[derive(Debug, Clone, PartialEq)]
pub struct Claims {
    pub sub: String,
    pub username: String,
    pub iat: i64,
    pub exp: i64,
}

impl View for Claims {
    type V = ClaimsView;

    open spec fn view(&self) -> ClaimsView {
        ClaimsView { sub: self.sub@, username: self.username@, iat: self.iat, exp: self.exp }
    }
}

/// Why decoding a token failed, before any expiry or subject-shape check.
/// Diagnostic only: every class is surfaced alike.
#[derive(Clone, Copy, PartialEq, Eq, Structural, Debug)]
pub enum DecodeFailure {
    /// The token or its claims cannot be parsed into the expected structure.
    Malformed,
    /// The signature does not verify under the secret.
    BadSignature,
    /// Any other decoding failure.
    Other,
}

/// Why credential verification failed.  Diagnostic only: every class is
/// surfaced alike.
#[derive(Clone, Copy, PartialEq, Eq, Structural, Debug)]
pub enum VerifyError {
    /// The token, its claims, or its subject are not well-formed.
    Malformed,
    /// The signature does not verify under the secret.
    BadSignature,
    /// The expiry timestamp is in the past.
    Expired,
    /// Any other failure.
    Other,
}

/// The error type of the token library, opaque here.
#[verifier::external_type_specification]
#[verifier::external_body]
pub struct ExJwtError(jsonwebtoken::errors::Error);

/// What decoding yields for a given token and secret: the claims when the
/// token is well-formed and correctly signed, nothing otherwise.  The
/// expiry is not examined during decoding, so this is a function of the
/// two arguments alone; decoding can therefore never report an expired
/// token.
pub uninterp spec fn hs256_claims(token: Seq<char>, secret: Seq<char>) -> Option<ClaimsView>;

/// Relies on jsonwebtoken::decode with the HS256 algorithm: the claims come
/// back exactly when the token has the signed three-part structure, its
/// signature verifies under `secret`, and the four expected claims are
/// present; with expiry validation switched off the outcome depends on the
/// token and the secret alone.
#[verifier::external_body]
fn decode_hs256(token: &str, secret: &str) -> (r: Result<Claims, jsonwebtoken::errors::Error>)
    ensures
        (match r {
            Ok(c) => hs256_claims(token@, secret@) == Some(c@),
            Err(_) => hs256_claims(token@, secret@) is None,
        }),
{
    let mut validation = Validation::new(Algorithm::HS256);
    validation.validate_exp = false;
    let key = DecodingKey::from_secret(secret.as_bytes());
    let c = decode::<Value>(token, &key, &validation)?.claims;
    match (c.get("sub").and_then(Value::as_str), c.get("username").and_then(Value::as_str),
        c.get("iat").and_then(Value::as_i64), c.get("exp").and_then(Value::as_i64)) {
        (Some(s), Some(u), Some(i), Some(x)) => Ok(
            Claims { sub: s.to_string(), username: u.to_string(), iat: i, exp: x },
        ),
        _ => Err(ErrorKind::InvalidToken.into()),
    }
}

/// Relies on jsonwebtoken::errors::Error::kind to tell the failure classes
/// apart, for diagnostics alone: nothing caller-visible depends on which
/// class comes back.
#[verifier::external_body]
fn classify_decode_error(e: &jsonwebtoken::errors::Error) -> DecodeFailure {
    match e.kind() {
        ErrorKind::InvalidToken => DecodeFailure::Malformed,
        ErrorKind::InvalidSignature => DecodeFailure::BadSignature,
        _ => DecodeFailure::Other,
    }
}

/// The identity a verified caller presents.
#[derive(Clone, Copy, PartialEq, Eq, Structural, Debug)]
pub struct AuthenticatedUser {
    pub uuid: Identity,
}

/// The caller a token proves under `secret` at time `now`, if any: the
/// token must decode, its expiry must not lie in the past, and its subject
/// must be a well-shaped unique id.
pub open spec fn spec_token_user(token: Seq<char>, secret: Seq<char>, now: i64) -> Option<
    AuthenticatedUser,
> {
    match hs256_claims(token, secret) {
        None => None,
        Some(c) => if c.exp < now {
            None
        } else {
            match spec_parse_identity(c.sub) {
                Some(id) => Some(AuthenticatedUser { uuid: id }),
                None => None,
            }
        },
    }
}

/// Verify a bearer token and extract the caller's identity.
///
/// Stateless.  Succeeds exactly when the token proves a caller at `now`
/// (`spec_token_user`), and then returns that caller.  On failure the
/// error classifies what went wrong, for diagnostics: an undecodable token
/// carries the token library's class, a decoded token whose expiry lies in
/// the past is `Expired`, and a decoded subject that is not a well-shaped
/// unique id is `Malformed` — a verification failure, not a policy
/// decision.
pub fn jwt_auth(token: &str, secret: &str, now: i64) -> (r: Result<AuthenticatedUser, VerifyError>)
    ensures
        (match r {
            Ok(u) => spec_token_user(token@, secret@, now) == Some(u),
            Err(_) => spec_token_user(token@, secret@, now) is None,
        }),
        (match hs256_claims(token@, secret@) {
            None => r is Err,
            Some(c) => if c.exp < now {
                r == Err::<AuthenticatedUser, VerifyError>(VerifyError::Expired)
            } else {
                match spec_parse_identity(c.sub) {
                    Some(id) => r == Ok::<AuthenticatedUser, VerifyError>(
                        AuthenticatedUser { uuid: id },
                    ),
                    None => r == Err::<AuthenticatedUser, VerifyError>(VerifyError::Malformed),
                }
            },
        }),
{
    let claims = match decode_hs256(token, secret) {
        Err(e) => {
            return Err(
                match classify_decode_error(&e) {
                    DecodeFailure::Malformed => VerifyError::Malformed,
                    DecodeFailure::BadSignature => VerifyError::BadSignature,
                    DecodeFailure::Other => VerifyError::Other,
                },
            );
        },
        Ok(c) => c,
    };
    if claims.exp < now {
        return Err(VerifyError::Expired);
    }
    match parse_identity(claims.sub.as_str()) {
        Some(id) => Ok(AuthenticatedUser { uuid: id }),
        None => Err(VerifyError::Malformed),
    }
}

} // verus!
