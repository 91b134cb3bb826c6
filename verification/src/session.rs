//! Session token codec: creation and validation of signed, time-bounded
//! session tokens carrying a subject identity.

use vstd::prelude::*;

verus! {

/// Sessions last a fixed 24 hours from issuance; there is no per-call TTL.
pub const SESSION_TTL_SECONDS: u64 = 86400;

/// The identity a validated session token asserts: the subject account id.
#[derive(Debug, Clone, Copy, PartialEq, Eq, Structural)]
pub struct AuthenticatedUser {
    pub sub: u128,
}

/// Every validation failure — structural malformation, bad signature, or
/// past expiry — is the same coarse value, so callers cannot probe why.
#[derive(Debug, Clone, Copy, PartialEq, Eq, Structural)]
pub enum AuthError {
    Invalid,
}

/// The signed token that `jsonwebtoken::encode` produces with the default
/// header (HS256) for the claims `{ "sub": <canonical uuid text of sub>,
/// "exp": exp }` under the given secret. The token is a pure function of
/// subject, expiry and secret.
pub uninterp spec fn jwt_of(sub: u128, exp: u64, secret: Seq<char>) -> Seq<char>;

/// Relies on `jsonwebtoken::encode` with the default header (HS256) and a
/// claims object holding the subject as canonical uuid text and the expiry
/// in seconds. HMAC signing with a byte-string secret cannot fail, so the
/// call always returns a token.
#[verifier::external_body]
fn jwt_encode(sub: u128, exp: u64, secret: &str) -> (r: Option<String>)
    ensures
        r is Some,
        r matches Some(t) ==> t@ == jwt_of(sub, exp, secret@),
{
    let mut claims = serde_json::Map::new();
    let subject = uuid::Uuid::from_u128(sub).to_string();
    claims.insert("sub".to_string(), serde_json::Value::String(subject));
    claims.insert("exp".to_string(), serde_json::Value::Number(serde_json::Number::from(exp)));
    let key = jsonwebtoken::EncodingKey::from_secret(secret.as_bytes());
    jsonwebtoken::encode(&jsonwebtoken::Header::default(), &serde_json::Value::Object(claims), &key).ok()
}

/// The subject and expiry that `jsonwebtoken::decode` (HS256, signature
/// checked, expiry checking off) recovers from a token under a secret, or
/// nothing when the token is rejected. Decoding uses no clock and no other
/// state, so the outcome is a pure function of token and secret.
pub uninterp spec fn jwt_claims(token: Seq<char>, secret: Seq<char>) -> Option<(u128, u64)>;

/// Relies on `jsonwebtoken::decode` with HS256, the signature checked
/// against the secret and expiry checking turned off (expiry is compared
/// against an explicit clock by the caller). Decoding inverts
/// `jsonwebtoken::encode` under the same secret: a token built from a
/// subject and an expiry gives back exactly that pair. Any other input
/// gives whatever the decoder answers for it, named `jwt_claims`.
#[verifier::external_body]
fn jwt_decode(token: &str, secret: &str) -> (r: Option<(u128, u64)>)
    ensures
        r == jwt_claims(token@, secret@),
        forall|sub: u128, exp: u64| token@ == jwt_of(sub, exp, secret@) ==> r == Some((sub, exp)),
{
    let mut validation = jsonwebtoken::Validation::default();
    validation.validate_exp = false;
    let key = jsonwebtoken::DecodingKey::from_secret(secret.as_bytes());
    let data = jsonwebtoken::decode::<serde_json::Value>(token, &key, &validation).ok()?;
    let sub = uuid::Uuid::parse_str(data.claims.get("sub")?.as_str()?).ok()?.as_u128();
    Some((sub, data.claims.get("exp")?.as_u64()?))
}

/// A token is accepted for a subject at an instant exactly when it is the
/// signed token for that subject with some expiry still strictly in the
/// future. At the expiry instant itself the token is already rejected.
pub open spec fn session_accepts(
    token: Seq<char>,
    sub: u128,
    exp: u64,
    secret: Seq<char>,
    now: u64,
) -> bool {
    token == jwt_of(sub, exp, secret) && now < exp
}

/// Issue a signed session token for the subject, expiring a fixed 24 hours
/// after `now`.
pub fn issue_session(sub: u128, now: u64, secret: &str) -> (r: String)
    requires
        now <= u64::MAX - SESSION_TTL_SECONDS,
    ensures
        r@ == jwt_of(sub, (now + SESSION_TTL_SECONDS) as u64, secret@),
{
    let exp = now + SESSION_TTL_SECONDS;
    match jwt_encode(sub, exp, secret) {
        Some(t) => t,
        None => vstd::pervasive::unreached(),
    }
}

/// Validate a session token against the secret and the current instant.
/// The answer is an iff over what the decoder recovers: a token the
/// decoder rejects — malformed, or not signed with this secret — is
/// rejected here, and a recovered claim pair is accepted exactly while its
/// expiry lies strictly in the future. A token issued for a subject is
/// therefore accepted until its expiry and rejected from the expiry
/// instant on; every rejection is the same coarse value.
pub fn validate_session(token: &str, secret: &str, now: u64) -> (r: Result<
    AuthenticatedUser,
    AuthError,
>)
    ensures
        (match jwt_claims(token@, secret@) {
            Some(claims) => {
                if now < claims.1 {
                    r == Ok::<AuthenticatedUser, AuthError>(AuthenticatedUser { sub: claims.0 })
                } else {
                    r == Err::<AuthenticatedUser, AuthError>(AuthError::Invalid)
                }
            },
            None => r == Err::<AuthenticatedUser, AuthError>(AuthError::Invalid),
        }),
        forall|sub: u128, exp: u64|
            session_accepts(token@, sub, exp, secret@, now) ==> r == Ok::<
                AuthenticatedUser,
                AuthError,
            >(AuthenticatedUser { sub }),
        forall|sub: u128, exp: u64|
            token@ == jwt_of(sub, exp, secret@) && exp <= now ==> r == Err::<
                AuthenticatedUser,
                AuthError,
            >(AuthError::Invalid),
        r is Err ==> r == Err::<AuthenticatedUser, AuthError>(AuthError::Invalid),
{
    match jwt_decode(token, secret) {
        Some((sub, exp)) => {
            if now < exp {
                Ok(AuthenticatedUser { sub })
            } else {
                Err(AuthError::Invalid)
            }
        },
        None => Err(AuthError::Invalid),
    }
}

/// Round trip: the token issued for a subject is accepted for exactly that
/// subject at every instant before its expiry.
pub proof fn lemma_issue_then_validate(sub: u128, issued_at: u64, now: u64, secret: Seq<char>)
    requires
        issued_at <= u64::MAX - SESSION_TTL_SECONDS,
        now < issued_at + SESSION_TTL_SECONDS,
    ensures
        session_accepts(
            jwt_of(sub, (issued_at + SESSION_TTL_SECONDS) as u64, secret),
            sub,
            (issued_at + SESSION_TTL_SECONDS) as u64,
            secret,
            now,
        ),
{
}

} // verus!
