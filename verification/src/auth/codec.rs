use vstd::prelude::*;
use jsonwebtoken::errors::ErrorKind;
use jsonwebtoken::{DecodingKey, EncodingKey, Header, Validation};
use serde_json::Value;
use crate::auth::claims::{Claims, ClaimsView};

verus! {

/// Why the codec could not produce a token or read one.
#[derive(Debug, Clone, Copy, PartialEq, Eq, Structural)]
pub enum CodecError {
    /// Serialising or signing failed.
    EncodingFailure,
    /// The text does not have the shape of a signed token.
    MalformedToken,
    /// The signature is not the one the secret gives.
    SignatureInvalid,
    /// The codec's own check found the token expired.
    Expired,
    /// Decoding failed in some other way.
    DecodingFailure,
}

/// The three claims as they were found in a payload, each absent where the
/// payload lacks it or holds a value of another kind.
pub struct RawClaims {
    pub sub: Option<String>,
    pub exp: Option<i64>,
    pub iat: Option<i64>,
}

/// What a [`RawClaims`] value holds, as mathematics.
pub ghost struct RawClaimsView {
    pub subject: Option<Seq<char>>,
    pub expires_at: Option<i64>,
    pub issued_at: Option<i64>,
}

impl View for RawClaims {
    type V = RawClaimsView;

    open spec fn view(&self) -> RawClaimsView {
        RawClaimsView {
            subject: match self.sub {
                Some(sub) => Some(sub@),
                None => None,
            },
            expires_at: self.exp,
            issued_at: self.iat,
        }
    }
}

/// The claims that `raw` amounts to: all three must be there.
pub open spec fn complete(raw: RawClaimsView) -> Option<ClaimsView> {
    match (raw.subject, raw.expires_at, raw.issued_at) {
        (Some(subject), Some(expires_at), Some(issued_at)) => Some(
            ClaimsView { subject, expires_at, issued_at },
        ),
        _ => None,
    }
}

/// The payload that holds exactly `claims`.
pub open spec fn payload_of(claims: ClaimsView) -> RawClaimsView {
    RawClaimsView {
        subject: Some(claims.subject),
        expires_at: Some(claims.expires_at),
        issued_at: Some(claims.issued_at),
    }
}

/// The number of separators, that is of `.`, in `token`. A signed token has
/// three segments, so two separators at least.
pub open spec fn separators(token: Seq<char>) -> nat {
    token.filter(|c: char| c == '.').len()
}

/// The token that signing `claims` with `secret` gives (HS256, with the
/// claims `sub`, `exp` and `iat` in this order).
pub uninterp spec fn signed_token(claims: ClaimsView, secret: Seq<char>) -> Seq<char>;

/// The claims found in the payload of `token` when it is accepted under
/// `secret`.
pub uninterp spec fn token_payload(token: Seq<char>, secret: Seq<char>) -> RawClaimsView;

/// Calls `jsonwebtoken::encode` with the default header (HS256) and `secret`
/// as the HMAC key, on a JSON object that holds `sub`, `exp` and `iat`.
/// `None` stands for any error of the call.
///
/// Trusted: the call succeeds, and the token is a function of the claims
/// and the secret alone. `encode` fails only where the key is of another
/// family than the algorithm, where the header or the claims cannot be
/// written as JSON, or where signing fails; with HS256, a key made by
/// `from_secret` and an object of one text and two integers none of these
/// occurs.
#[verifier::external_body]
fn sign_claims(claims: &Claims, secret: &str) -> (signed: Option<String>)
    ensures
        signed is Some,
        signed matches Some(token) ==> token@ == signed_token(claims@, secret@),
{
    let mut payload = serde_json::Map::new();
    payload.insert("sub".to_string(), Value::from(claims.sub()));
    payload.insert("exp".to_string(), Value::from(claims.exp()));
    payload.insert("iat".to_string(), Value::from(claims.iat()));
    let key = EncodingKey::from_secret(secret.as_bytes());
    jsonwebtoken::encode(&Header::default(), &payload, &key).ok()
}

/// Calls `jsonwebtoken::decode` with the default validation (HS256, `exp`
/// required and checked against the system clock with a leeway of 60
/// seconds) and `secret` as the HMAC key. On success it picks `sub`, `exp`
/// and `iat` out of the payload; on failure it tells the kinds of error
/// apart.
///
/// The payload is read as a JSON value and the three claims are looked for
/// after the call. So the codec's expiry check comes first: an expired
/// token whose payload lacks a claim is reported as expired, and the
/// missing claim shows only on a token that the codec accepts.
///
/// Trusted:
/// - When the call succeeds, what it found is a function of the token and
///   the secret alone.
/// - When the call succeeds on the token that signing some claims with this
///   secret gives, it found those claims: the signature is recomputed from
///   the first two segments, and the payload is read back from the second.
/// - The token is reported as malformed exactly where it has fewer than two
///   separators: that is the first thing the call looks at, before the
///   signature and before the clock.
/// - No error is reported as an encoding failure.
///
/// Whether the call succeeds depends on the clock as well, so nothing is
/// claimed about that. The call panics on a machine whose clock is set
/// before the epoch.
#[verifier::external_body]
fn read_token(token: &str, secret: &str) -> (read: Result<RawClaims, CodecError>)
    ensures
        read matches Ok(raw) ==> raw@ == token_payload(token@, secret@),
        read matches Ok(raw) ==> forall|claims: ClaimsView|
            token@ == #[trigger] signed_token(claims, secret@) ==> raw@ == payload_of(claims),
        (read matches Err(CodecError::MalformedToken)) <==> separators(token@) < 2,
        read matches Err(error) ==> error != CodecError::EncodingFailure,
{
    let key = DecodingKey::from_secret(secret.as_bytes());
    match jsonwebtoken::decode::<Value>(token, &key, &Validation::default()) {
        Ok(data) => Ok(RawClaims {
            sub: data.claims.get("sub").and_then(Value::as_str).map(String::from),
            exp: data.claims.get("exp").and_then(Value::as_i64),
            iat: data.claims.get("iat").and_then(Value::as_i64),
        }),
        Err(error) => Err(match error.kind() {
            ErrorKind::ExpiredSignature => CodecError::Expired,
            ErrorKind::InvalidToken => CodecError::MalformedToken,
            ErrorKind::InvalidSignature => CodecError::SignatureInvalid,
            _ => CodecError::DecodingFailure,
        }),
    }
}

/// The claims that a payload amounts to, or `DecodingFailure` where one of
/// the three is missing.
pub fn claims_of(raw: RawClaims) -> (claims: Result<Claims, CodecError>)
    ensures
        match complete(raw@) {
            Some(found) => claims matches Ok(c) && c@ == found,
            None => claims == Err::<Claims, CodecError>(CodecError::DecodingFailure),
        },
{
    match (raw.sub, raw.exp, raw.iat) {
        (Some(sub), Some(exp), Some(iat)) => Ok(Claims::new(sub, exp, iat)),
        _ => Err(CodecError::DecodingFailure),
    }
}

/// Signs `claims` with `secret` and returns the token.
///
/// With a secret as the key, signing always succeeds; `EncodingFailure`
/// stands for a fault of the signing itself, which does not occur here.
pub fn issue(claims: &Claims, secret: &str) -> (token: Result<String, CodecError>)
    ensures
        token matches Ok(text) && text@ == signed_token(claims@, secret@),
{
    match sign_claims(claims, secret) {
        Some(text) => Ok(text),
        None => Err(CodecError::EncodingFailure),
    }
}

/// Checks the signature of `token` against `secret` and returns the claims
/// it carries.
///
/// Success says that the token is sound and signed, not that it is still
/// alive: the caller compares the expiry time with its own clock.
pub fn decode(token: &str, secret: &str) -> (claims: Result<Claims, CodecError>)
    ensures
        claims matches Ok(found) ==> complete(token_payload(token@, secret@)) == Some(found@),
        claims matches Ok(found) ==> forall|signed: ClaimsView|
            token@ == #[trigger] signed_token(signed, secret@) ==> found@ == signed,
        (claims matches Err(CodecError::MalformedToken)) <==> separators(token@) < 2,
        claims matches Err(error) ==> error != CodecError::EncodingFailure,
{
    match read_token(token, secret) {
        Ok(raw) => claims_of(raw),
        Err(error) => Err(error),
    }
}

} // verus!
