//! Identity tokens: HS256-signed claims carrying a subject id, an issue
//! time, and an expiry four hours later.

use jsonwebtoken::errors::ErrorKind;
use jsonwebtoken::{decode, encode, Algorithm, DecodingKey, EncodingKey, Header, Validation};
use serde_json::Value;
use vstd::prelude::*;

use crate::text::dec_str;

verus! {

/// The decoded payload of a token: the subject (a stringified account
/// id), the issue time, and the expiry, as unix seconds.
#[derive(Debug)]
pub struct Claims {
    pub sub: String,
    pub iat: i64,
    pub exp: i64,
}

/// Why a token failed to decode.
#[derive(Clone, Copy, Debug, PartialEq, Eq, Structural)]
pub enum JwtError {
    BadSignature,
    Malformed,
}

/// Why a token failed to validate.
#[derive(Clone, Copy, Debug, PartialEq, Eq, Structural)]
pub enum TokenError {
    Expired,
    BadSignature,
    Malformed,
}

/// The token lifetime: four hours, in seconds.
pub const TOKEN_LIFETIME_SECONDS: i64 = 14400;

/// What HS256 decoding under `secret` makes of `token`: the subject, the
/// issued-at and the expiry claims when the token is well-formed and its
/// signature verifies, and nothing otherwise.  A pure function of its
/// arguments; it names the outcome of `jsonwebtoken::decode`.
pub uninterp spec fn decoded_claims(secret: Seq<char>, token: Seq<char>) -> Option<
    (Seq<char>, int, int),
>;

/// Relies on `jsonwebtoken::encode` with `Header::default()` (HS256) and
/// `EncodingKey::from_secret`: for that algorithm/key pairing, with
/// claims serialized from a string-keyed JSON object, encoding cannot
/// fail, and `jsonwebtoken::decode` under the same secret returns exactly
/// the claims that were encoded.  Nonnegative timestamps are required:
/// decoding reads the expiry as an unsigned number, so a token with a
/// negative `exp` would not decode back.
#[verifier::external_body]
fn encode_claims(secret: &str, claims: &Claims) -> (r: Option<String>)
    requires
        claims.iat >= 0,
        claims.exp >= 0,
    ensures
        r.is_some(),
        r matches Some(t) ==> decoded_claims(secret@, t@) == Some(
            (claims.sub@, claims.iat as int, claims.exp as int),
        ),
{
    let mut m = serde_json::Map::new();
    m.insert("sub".to_string(), Value::String(claims.sub.clone()));
    m.insert("iat".to_string(), Value::from(claims.iat));
    m.insert("exp".to_string(), Value::from(claims.exp));
    encode(&Header::default(), &Value::Object(m), &EncodingKey::from_secret(secret.as_bytes())).ok()
}

/// Relies on `jsonwebtoken::decode` with HS256 and
/// `DecodingKey::from_secret`, expiry checking turned off: it returns the
/// token's claims exactly when the token is well-formed under that secret.
#[verifier::external_body]
pub fn decode_jwt(secret: &str, token: &str) -> (r: Result<Claims, JwtError>)
    ensures
        r.is_ok() <==> decoded_claims(secret@, token@) is Some,
        r matches Ok(c) ==> decoded_claims(secret@, token@) == Some(
            (c.sub@, c.iat as int, c.exp as int),
        ),
{
    let mut v = Validation::new(Algorithm::HS256);
    v.validate_exp = false;
    let key = DecodingKey::from_secret(secret.as_bytes());
    let bad = |e: jsonwebtoken::errors::Error| match e.kind() {
        ErrorKind::InvalidSignature => JwtError::BadSignature,
        _ => JwtError::Malformed,
    };
    let d = decode::<Value>(token, &key, &v).map_err(bad)?;
    let sub = d.claims.get("sub").and_then(Value::as_str).ok_or(JwtError::Malformed)?;
    let iat = d.claims.get("iat").and_then(Value::as_i64).ok_or(JwtError::Malformed)?;
    let exp = d.claims.get("exp").and_then(Value::as_i64).ok_or(JwtError::Malformed)?;
    Ok(Claims { sub: sub.to_string(), iat, exp })
}

/// Issues a token for `subject_id`: issued at `now`, expiring four hours
/// later.  `None` only when `now` lies before the unix epoch or the
/// expiry would not fit in an `i64`.
pub fn encode_jwt(secret: &str, subject_id: u64, now: i64) -> (r: Option<String>)
    ensures
        0 <= now && now + TOKEN_LIFETIME_SECONDS <= i64::MAX ==> (r matches Some(t)
            && decoded_claims(secret@, t@) == Some(
            (dec_str(subject_id as nat), now as int, now + TOKEN_LIFETIME_SECONDS),
        )),
        now < 0 || now + TOKEN_LIFETIME_SECONDS > i64::MAX ==> r is None,
{
    if now < 0 {
        return None;
    }
    let exp = match now.checked_add(TOKEN_LIFETIME_SECONDS) {
        Some(e) => e,
        None => return None,
    };
    let claims = Claims { sub: crate::text::u64_to_string(subject_id), iat: now, exp };
    encode_claims(secret, &claims)
}

/// Validates `token` under `secret` at time `now`: expired strictly after
/// the expiry instant, `BadSignature` or `Malformed` when it does not
/// decode.
pub fn validate_token(secret: &str, token: &str, now: i64) -> (r: Result<Claims, TokenError>)
    ensures
        decoded_claims(secret@, token@) is None ==> (r matches Err(te) && te
            != TokenError::Expired),
        decoded_claims(secret@, token@) matches Some((s, i, e)) ==> (if now > e {
            r matches Err(te) && te == TokenError::Expired
        } else {
            r matches Ok(c) && c.sub@ == s && c.iat == i && c.exp == e
        }),
{
    match decode_jwt(secret, token) {
        Err(JwtError::BadSignature) => Err(TokenError::BadSignature),
        Err(JwtError::Malformed) => Err(TokenError::Malformed),
        Ok(c) => {
            if now > c.exp {
                Err(TokenError::Expired)
            } else {
                Ok(c)
            }
        },
    }
}

/// A token that decodes is accepted at any instant up to and including its
/// expiry, and rejected as `Expired` from one second past it on.
pub proof fn lemma_token_expiry_boundary(secret: Seq<char>, token: Seq<char>, s: Seq<char>, iat: int, exp: int)
    requires
        decoded_claims(secret, token) == Some((s, iat, exp)),
    ensures
        forall|now: int| now <= exp ==> !token_rejected_as_expired(secret, token, now),
        forall|now: int| now > exp ==> token_rejected_as_expired(secret, token, now),
{
}

/// Whether validation at `now` rejects the token as expired: it decodes,
/// and `now` lies strictly past its expiry.
pub open spec fn token_rejected_as_expired(secret: Seq<char>, token: Seq<char>, now: int) -> bool {
    decoded_claims(secret, token) matches Some((s, i, e)) && now > e
}

} // verus!
