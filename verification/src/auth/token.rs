//! Signed, time-limited tokens that bind a subject identifier.
//!
//! A token is a compact JWT signed with HMAC-SHA-512. Its payload carries
//! the subject identifier and the second at which it expires. Signing and
//! signature checking are the work of the `jsonwebtoken` crate; the expiry
//! rule and the classification of failures are decided here.

use jsonwebtoken::errors::ErrorKind;
use jsonwebtoken::{decode, Algorithm, DecodingKey, Validation};
use serde_json::Value;
use vstd::prelude::*;
use crate::auth::clock::now;
use crate::auth::header::{
    bare_token,
    lemma_scheme_and_space_are_stripped,
    lemma_whole_token_behind_scheme,
    scheme,
    strip_scheme,
    with_scheme,
};

verus! {

/// What a token asserts: who it was issued to, and when it expires.
#[derive(Debug, Clone, PartialEq, Eq)]
pub struct Claims {
    pub subject_id: String,
    /// Seconds since the Unix epoch.
    pub exp: u64,
}

/// Why a token was not accepted, or could not be issued.
#[derive(Debug, Clone, PartialEq, Eq)]
pub enum TokenError {
    /// The token is authentic, and its expiry lies in the past.
    Expired,
    /// The token is malformed, badly signed, or lacks a claim.
    Invalid,
    /// Anything else, with the detail as text.
    Other(String),
}

/// The signing key and the lifetime of the tokens made with it.
#[derive(Clone)]
pub struct TokenService {
    secret: String,
    ttl: u64,
}

/// How `jsonwebtoken` turned a token down, as far as the classification
/// needs to know.
#[derive(Debug, Clone, Copy, PartialEq, Eq)]
pub enum DecodeFailure {
    InvalidToken,
    InvalidSignature,
    InvalidAlgorithm,
    MissingRequiredClaim,
    Base64,
    Json,
    Utf8,
    /// Any other kind of failure.
    Other,
}

/// What validating a token at a given time comes to.
pub ghost enum Verdict {
    /// Authentic and not expired.
    Valid { subject_id: Seq<char>, exp: u64 },
    /// Authentic with both claims, expiry in the past.
    Expired,
    /// Malformed, badly signed, or without a claim that it needs.
    Invalid,
    /// Turned down for another reason, with the decoder's text.
    Other { detail: Seq<char> },
}

/// What the decoder hands back: the two claims, each if it is there and of
/// the right type, or the kind and the text of its failure.
pub type Decoded = Result<(Option<String>, Option<u64>), (DecodeFailure, String)>;

/// The error type of `jsonwebtoken`, as the signing call returns it.
#[verifier::external_type_specification]
#[verifier::external_body]
pub struct ExDecodeFault(jsonwebtoken::errors::Error);

/// The compact token that `jsonwebtoken::encode` makes for the claims
/// `subject_id` and `exp` under HMAC-SHA-512 with the key `secret`.
pub uninterp spec fn hs512_token(subject_id: Seq<char>, exp: u64, secret: Seq<char>) -> Seq<char>;

/// What `jsonwebtoken::decode` makes of `token` under HMAC-SHA-512 with the
/// key `secret` when it does not look at the clock. Where it accepts the
/// token: the claim `subject_id` if it is a string and the claim `exp` if
/// it is an unsigned integer. Where it reports an error: the kind of the
/// error and the text that it displays.
pub uninterp spec fn hs512_decoded(token: Seq<char>, secret: Seq<char>) -> Result<
    (Option<Seq<char>>, Option<u64>),
    (DecodeFailure, Seq<char>),
>;

/// The view of an optional string.
pub open spec fn text_view(text: Option<String>) -> Option<Seq<char>> {
    match text {
        Some(t) => Some(t@),
        None => None,
    }
}

/// The view of what the decoder hands back.
pub open spec fn decoded_view(decoded: Decoded) -> Result<
    (Option<Seq<char>>, Option<u64>),
    (DecodeFailure, Seq<char>),
> {
    match decoded {
        Ok(raw) => Ok((text_view(raw.0), raw.1)),
        Err(failure) => Err((failure.0, failure.1@)),
    }
}

/// Calls `jsonwebtoken::encode` with an HS512 header, the payload
/// `{"subject_id": subject_id, "exp": exp}` and the key `secret`.
///
/// Trusted: the call succeeds, and the token is a function of the three
/// arguments. With a key for HMAC `encode` does not reject the algorithm,
/// a header and a map of a string and a number serialise, and signing with
/// HMAC has no failure. The token decodes, under the same key, to the
/// claims it was made from: `decode` recomputes the signature over the same
/// text and parses the same payload. It is the base64url text of the
/// header, of the payload and of the signature, joined by dots: it begins
/// with `eyJ`, holds no white space, and so carries no scheme word and
/// nothing to trim.
#[verifier::external_body]
fn hs512_encode(subject_id: &str, exp: u64, secret: &str) -> (r: Result<
    String,
    jsonwebtoken::errors::Error,
>)
    ensures
        match r {
            Ok(token) => {
                &&& token@ == hs512_token(subject_id@, exp, secret@)
                &&& hs512_decoded(token@, secret@) == Ok::<_, (DecodeFailure, Seq<char>)>(
                    (Some(subject_id@), Some(exp)),
                )
                &&& bare_token(token@) == token@
            },
            Err(_) => false,
        },
{
    let mut claims = serde_json::Map::new();
    claims.insert(String::from("subject_id"), serde_json::Value::from(subject_id));
    claims.insert(String::from("exp"), serde_json::Value::from(exp));
    let header = jsonwebtoken::Header::new(jsonwebtoken::Algorithm::HS512);
    let key = jsonwebtoken::EncodingKey::from_secret(secret.as_bytes());
    jsonwebtoken::encode(&header, &claims, &key)
}

/// Calls `jsonwebtoken::decode` with the key `secret` and a validation that
/// admits HS512 alone and leaves the expiry unchecked. Of an accepted token
/// it takes the two claims out of the payload, by index and with
/// `serde_json::Value::as_str` and `as_u64`; of an error it tells the kind
/// and takes the text that the error displays.
///
/// Trusted: with the expiry check off `decode` never reads the clock, so
/// the outcome is a function of the token and the key.
#[verifier::external_body]
fn hs512_decode(token: &str, secret: &str) -> (r: Decoded)
    ensures
        decoded_view(r) == hs512_decoded(token@, secret@),
{
    let mut rules = Validation::new(Algorithm::HS512);
    rules.validate_exp = false;
    match decode::<Value>(token, &DecodingKey::from_secret(secret.as_bytes()), &rules) {
        Ok(data) => Ok((data.claims["subject_id"].as_str().map(String::from), data.claims["exp"].as_u64())),
        Err(fault) => Err((match fault.kind() {
            ErrorKind::InvalidToken => DecodeFailure::InvalidToken,
            ErrorKind::InvalidSignature => DecodeFailure::InvalidSignature,
            ErrorKind::InvalidAlgorithm => DecodeFailure::InvalidAlgorithm,
            ErrorKind::MissingRequiredClaim(_) => DecodeFailure::MissingRequiredClaim,
            ErrorKind::Base64(_) => DecodeFailure::Base64,
            ErrorKind::Json(_) => DecodeFailure::Json,
            ErrorKind::Utf8(_) => DecodeFailure::Utf8,
            _ => DecodeFailure::Other,
        }, fault.to_string())),
    }
}

/// The verdict on decoded claims at the time `now`: a token expires once
/// `now` is past `exp`, with no grace.
pub open spec fn claims_verdict(raw: (Option<Seq<char>>, Option<u64>), now: u64) -> Verdict {
    match raw {
        (Some(subject_id), Some(exp)) => if exp < now {
            Verdict::Expired
        } else {
            Verdict::Valid { subject_id, exp }
        },
        _ => Verdict::Invalid,
    }
}

/// The verdict on a token that the decoder turned down: `Invalid` for a
/// token that is malformed, badly signed or short of a claim, `Other` with
/// the decoder's text for any other failure. Never `Expired`.
pub open spec fn failure_verdict(kind: DecodeFailure, detail: Seq<char>) -> Verdict {
    if kind is Other {
        Verdict::Other { detail }
    } else {
        Verdict::Invalid
    }
}

/// The verdict on the header value or token `token` under the key `secret`
/// at the time `now`.
pub open spec fn verdict(token: Seq<char>, secret: Seq<char>, now: u64) -> Verdict {
    match hs512_decoded(bare_token(token), secret) {
        Ok(raw) => claims_verdict(raw, now),
        Err(failure) => failure_verdict(failure.0, failure.1),
    }
}

/// The token issued to `subject_id` at the time `now`: it expires `ttl`
/// seconds later. `None` where that second is out of range.
pub open spec fn issued(subject_id: Seq<char>, secret: Seq<char>, ttl: u64, now: u64) -> Option<
    Seq<char>,
> {
    if now + ttl > u64::MAX {
        None
    } else {
        Some(hs512_token(subject_id, (now + ttl) as u64, secret))
    }
}

/// The text of the error for an expiry that is out of range.
pub open spec fn out_of_range() -> Seq<char> {
    "Invalid timestamp"@
}

/// Whether `token` binds `subject_id` until `exp`: validated under `secret`
/// at any time up to `exp` it yields these claims, and at any later time it
/// is expired.
pub open spec fn binds(token: Seq<char>, secret: Seq<char>, subject_id: Seq<char>, exp: u64) -> bool {
    forall|at: u64| #[trigger]
        verdict(token, secret, at) == if at <= exp {
            Verdict::Valid { subject_id, exp }
        } else {
            Verdict::Expired
        }
}

/// Whether `r` is what issuing to `subject_id` at the time `now` comes to.
/// Where `now + ttl` is in range: the issued token, which carries no scheme
/// word and no white space around it, and binds `subject_id` until
/// `now + ttl`. Where it is not: `Other`, saying so.
pub open spec fn issues(
    r: Result<String, TokenError>,
    subject_id: Seq<char>,
    secret: Seq<char>,
    ttl: u64,
    now: u64,
) -> bool {
    match issued(subject_id, secret, ttl, now) {
        Some(token) => r matches Ok(t) && t@ == token && bare_token(token) == token && binds(
            token,
            secret,
            subject_id,
            (now + ttl) as u64,
        ),
        None => r matches Err(TokenError::Other(text)) && text@ == out_of_range(),
    }
}

/// Whether `r` is what the verdict `v` calls for.
pub open spec fn answers(r: Result<Claims, TokenError>, v: Verdict) -> bool {
    match v {
        Verdict::Valid { subject_id, exp } => r matches Ok(claims) && claims.subject_id@
            == subject_id && claims.exp == exp,
        Verdict::Expired => r matches Err(TokenError::Expired),
        Verdict::Invalid => r matches Err(TokenError::Invalid),
        Verdict::Other { detail } => r matches Err(TokenError::Other(text)) && text@ == detail,
    }
}

impl TokenError {
    /// The failure as text.
    pub fn message(&self) -> (text: String)
        ensures
            text@ == match *self {
                TokenError::Expired => "Expired Token"@,
                TokenError::Invalid => "Invalid Token"@,
                TokenError::Other(detail) => detail@,
            },
    {
        match self {
            TokenError::Expired => "Expired Token".to_owned(),
            TokenError::Invalid => "Invalid Token".to_owned(),
            TokenError::Other(detail) => detail.clone(),
        }
    }
}

impl TokenService {
    /// The key that signs and checks the tokens.
    pub closed spec fn secret(&self) -> Seq<char> {
        self.secret@
    }

    /// The lifetime of a token, in seconds.
    pub closed spec fn lifetime(&self) -> u64 {
        self.ttl
    }

    /// A service that signs with `secret` and issues tokens that live for
    /// `ttl` seconds.
    pub fn new(secret: String, ttl: u64) -> (service: TokenService)
        ensures
            service.secret() == secret@,
            service.lifetime() == ttl,
    {
        TokenService { secret, ttl }
    }

    /// The lifetime of a token, in seconds.
    pub fn ttl(&self) -> (ttl: u64)
        ensures
            ttl == self.lifetime(),
    {
        self.ttl
    }
}

/// Turns a decoder failure into the error reported for it. A token that is
/// malformed, badly signed or short of a claim is `Invalid`; any other
/// failure is `Other` with the decoder's text. No failure is `Expired`.
pub fn classify_failure(kind: DecodeFailure, detail: String) -> (e: TokenError)
    ensures
        answers(Err(e), failure_verdict(kind, detail@)),
{
    match kind {
        DecodeFailure::Other => TokenError::Other(detail),
        _ => TokenError::Invalid,
    }
}

/// Judges decoded claims at the time `now`. Both claims must be present;
/// the token is expired exactly when `exp < now`.
pub fn check_claims(raw: (Option<String>, Option<u64>), now: u64) -> (r: Result<
    Claims,
    TokenError,
>)
    ensures
        answers(r, claims_verdict((text_view(raw.0), raw.1), now)),
{
    match raw {
        (Some(subject_id), Some(exp)) => {
            if exp < now {
                Err(TokenError::Expired)
            } else {
                Ok(Claims { subject_id, exp })
            }
        },
        _ => Err(TokenError::Invalid),
    }
}

/// Judges what the decoder handed back at the time `now`: the claims of an
/// accepted token by [`check_claims`], a failure by [`classify_failure`].
pub fn judge(decoded: Decoded, now: u64) -> (r: Result<Claims, TokenError>)
    ensures
        answers(
            r,
            match decoded_view(decoded) {
                Ok(raw) => claims_verdict(raw, now),
                Err(failure) => failure_verdict(failure.0, failure.1),
            },
        ),
{
    match decoded {
        Ok(raw) => check_claims(raw, now),
        Err(failure) => Err(classify_failure(failure.0, failure.1)),
    }
}

/// Validates `token` at the time `now`: removes the scheme word and white
/// space around the token, checks signature and algorithm, then the expiry.
pub fn decode_jwt_at(token: &str, service: &TokenService, now: u64) -> (r: Result<
    Claims,
    TokenError,
>)
    ensures
        answers(r, verdict(token@, service.secret(), now)),
{
    judge(hs512_decode(strip_scheme(token), service.secret.as_str()), now)
}

/// Validates `token` against the wall clock. The outcome is the one that
/// [`decode_jwt_at`] gives for some reading `now` of the clock.
pub fn decode_jwt(token: &str, service: &TokenService) -> (r: Result<Claims, TokenError>)
    ensures
        exists|now: u64|
            now <= i64::MAX && answers(r, #[trigger] verdict(token@, service.secret(), now)),
{
    decode_jwt_at(token, service, now())
}

/// Issues a token for `id` at the time `now`. It expires `ttl` seconds
/// later. Validated under the same service, right away and at any time up
/// to its expiry, the token yields `id` again; after that it is expired.
/// Issuing fails only where `now + ttl` is out of range.
pub fn create_jwt_at(id: String, service: &TokenService, now: u64) -> (r: Result<
    String,
    TokenError,
>)
    ensures
        issues(r, id@, service.secret(), service.lifetime(), now),
{
    if now > u64::MAX - service.ttl {
        return Err(TokenError::Other("Invalid timestamp".to_owned()));
    }
    let exp: u64 = now + service.ttl;
    match hs512_encode(id.as_str(), exp, service.secret.as_str()) {
        Ok(token) => Ok(token),
        Err(_) => Err(TokenError::Other("Signing failed".to_owned())),
    }
}

/// Issues a token for `id` by the wall clock. The outcome is the one that
/// [`create_jwt_at`] gives for some reading `now` of the clock.
pub fn create_jwt(id: String, service: &TokenService) -> (r: Result<String, TokenError>)
    ensures
        exists|now: u64|
            now <= i64::MAX && #[trigger] issues(
                r,
                id@,
                service.secret(),
                service.lifetime(),
                now,
            ),
{
    create_jwt_at(id, service, now())
}

/// Validating a header value with the scheme word and a space in front of
/// `token` comes to the same as validating `token` alone, unless `token`
/// itself begins with the scheme word.
pub proof fn lemma_scheme_in_front_changes_no_verdict(
    token: Seq<char>,
    secret: Seq<char>,
    now: u64,
)
    requires
        !scheme().is_prefix_of(token),
    ensures
        verdict(with_scheme(token), secret, now) == verdict(token, secret, now),
{
    lemma_scheme_and_space_are_stripped(token);
}

/// A token as it is issued binds its subject also behind the scheme word
/// and a space, as a request carries it.
pub proof fn lemma_issued_token_binds_behind_scheme(
    token: Seq<char>,
    secret: Seq<char>,
    subject_id: Seq<char>,
    exp: u64,
)
    requires
        bare_token(token) == token,
        binds(token, secret, subject_id, exp),
    ensures
        binds(with_scheme(token), secret, subject_id, exp),
{
    lemma_whole_token_behind_scheme(token);
    assert forall|at: u64| #[trigger]
        verdict(with_scheme(token), secret, at) == verdict(token, secret, at) by {}
}

} // verus!
